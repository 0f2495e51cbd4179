//! Signal types and construction for NTL.
//!
//! A signal is the fundamental data unit in NTL, replacing the concept of
//! a "request" or "message" from traditional protocols.

use vstd::prelude::*;

use crate::binary32;
use crate::clock::unix_time_ns;
use crate::error::Error;
use crate::propagation::{default_scope, PropagationScope};

verus! {

// ---------------------------------------------------------------------------
// ULID identifiers
// ---------------------------------------------------------------------------

/// The Crockford base-32 digit for `d` (`0 <= d < 32`), as ULID text uses it.
pub open spec fn crockford_digit(d: int) -> char {
    seq![
        '0', '1', '2', '3', '4', '5', '6', '7', '8', '9', 'A', 'B', 'C', 'D', 'E', 'F',
        'G', 'H', 'J', 'K', 'M', 'N', 'P', 'Q', 'R', 'S', 'T', 'V', 'W', 'X', 'Y', 'Z',
    ][d]
}

/// The 26-character text of a ULID: its 128 bits in groups of five, most
/// significant first, each group written as a Crockford base-32 digit.
pub open spec fn ulid_text(value: u128) -> Seq<char> {
    Seq::new(26, |i: int| crockford_digit(((value >> ((125 - 5 * i) as u128)) & 31u128) as int))
}

/// The millisecond timestamp held in the top 48 bits of a ULID.
pub open spec fn ulid_millis(value: u128) -> u64 {
    (value >> 80u128) as u64
}

/// 2^80: a ULID's time field sits above its 80 random bits.
pub const ULID_TIME_UNIT: u128 = 0x1_0000_0000_0000_0000_0000;

/// 2^48: a ULID's time field holds 48 bits of milliseconds.
pub const ULID_TIME_RANGE: u64 = 0x1_0000_0000_0000;

/// The time field of a ULID is its millisecond timestamp: the value divided
/// by 2^80, which leaves the 80 random bits below it as the remainder.
pub proof fn lemma_ulid_millis_is_time_field(value: u128)
    ensures
        ulid_millis(value) as int == value as int / ULID_TIME_UNIT as int,
        ulid_millis(value) as int * ULID_TIME_UNIT as int + value as int % ULID_TIME_UNIT as int
            == value as int,
        ulid_millis(value) < ULID_TIME_RANGE,
{
    vstd::bits::lemma_u128_shr_is_div(value, 80u128);
    vstd::arithmetic::power2::lemma2_to64();
    vstd::arithmetic::power2::lemma2_to64_rest();
    vstd::arithmetic::power2::lemma_pow2_adds(64, 16);
    assert(vstd::arithmetic::power2::pow2(80) == ULID_TIME_UNIT);
    assert((value >> 80u128) < 0x1_0000_0000_0000u128) by (bit_vector);
    vstd::arithmetic::div_mod::lemma_fundamental_div_mod(value as int, ULID_TIME_UNIT as int);
}

/// Calls `ulid::Ulid::from_datetime` at `timestamp_ms` milliseconds after
/// the Unix epoch. The ulid crate keeps the timestamp modulo 2^48 as the
/// value's top 48 bits and fills the 80 bits below them from a random
/// source; nothing is stated of those.
#[verifier::external_body]
fn fresh_ulid(timestamp_ms: u64) -> (value: u128)
    ensures
        value as int / ULID_TIME_UNIT as int == timestamp_ms as int % ULID_TIME_RANGE as int,
{
    let time = std::time::UNIX_EPOCH + std::time::Duration::from_millis(timestamp_ms);
    ulid::Ulid::from_datetime(time).0
}

/// Calls `ulid::Ulid::to_string`, which writes the 26 base-32 digits of the
/// value, most significant first.
#[verifier::external_body]
fn ulid_encode(value: u128) -> (text: String)
    ensures
        text@ == ulid_text(value),
{
    ulid::Ulid(value).to_string()
}

/// Unique identifier for a signal, a ULID for lexicographic time-ordering;
/// the field is the ULID's 128-bit value.
#[derive(Debug, Clone, Copy, PartialEq, Eq, Hash, Structural)]
pub struct SignalId(pub u128);

impl SignalId {
    /// Generate a new signal ID at the current time.
    pub fn new() -> SignalId {
        SignalId::new_at(unix_time_ns() / 1_000_000)
    }

    /// Generate a new signal ID minted at `timestamp_ms` milliseconds after
    /// the epoch: its time field is that timestamp (modulo 2^48), the bits
    /// below it random.
    pub fn new_at(timestamp_ms: u64) -> (id: SignalId)
        ensures
            id.0 as int / ULID_TIME_UNIT as int == timestamp_ms as int % ULID_TIME_RANGE as int,
            timestamp_ms < ULID_TIME_RANGE ==> id.0 as int / ULID_TIME_UNIT as int == timestamp_ms,
    {
        SignalId(fresh_ulid(timestamp_ms))
    }

    /// Get the timestamp component of the ID (milliseconds since the epoch):
    /// the whole 48-bit time field.
    pub fn timestamp_ms(&self) -> (ms: u64)
        ensures
            ms == ulid_millis(self.0),
            ms as int == self.0 as int / ULID_TIME_UNIT as int,
            ms as int * ULID_TIME_UNIT as int + self.0 as int % ULID_TIME_UNIT as int == self.0 as int,
    {
        proof {
            lemma_ulid_millis_is_time_field(self.0);
        }
        (self.0 >> 80u128) as u64
    }

    /// The ULID text of the ID.
    pub fn to_string(&self) -> (text: String)
        ensures
            text@ == ulid_text(self.0),
            text@.len() == 26,
    {
        ulid_encode(self.0)
    }
}

impl Default for SignalId {
    fn default() -> Self {
        Self::new()
    }
}

// ---------------------------------------------------------------------------
// Signal types and wire bytes
// ---------------------------------------------------------------------------

/// The type of a signal, determining how it's routed and processed.
#[derive(Debug, Clone, PartialEq, Eq, Hash)]
pub enum SignalType {
    /// Carries a data payload.
    Data,
    /// Requests data from the network.
    Query,
    /// Notifies of a state change.
    Event,
    /// Requests an action.
    Command,
    /// Maintains synapse liveness.
    Heartbeat,
    /// Announces node capability.
    Discovery,
    /// Confirms signal receipt.
    Ack,
    /// Application-defined signal type.
    Custom(String),
}

/// The wire-format type byte of a signal type.
pub open spec fn type_byte(t: SignalType) -> u8 {
    match t {
        SignalType::Data => 0,
        SignalType::Query => 1,
        SignalType::Event => 2,
        SignalType::Command => 3,
        SignalType::Heartbeat => 4,
        SignalType::Discovery => 5,
        SignalType::Ack => 6,
        SignalType::Custom(_) => 15,
    }
}

/// The signal type a wire-format byte names, if any; custom types have no
/// byte of their own that parses back.
pub open spec fn type_from_byte(byte: u8) -> Option<SignalType> {
    if byte == 0 {
        Some(SignalType::Data)
    } else if byte == 1 {
        Some(SignalType::Query)
    } else if byte == 2 {
        Some(SignalType::Event)
    } else if byte == 3 {
        Some(SignalType::Command)
    } else if byte == 4 {
        Some(SignalType::Heartbeat)
    } else if byte == 5 {
        Some(SignalType::Discovery)
    } else if byte == 6 {
        Some(SignalType::Ack)
    } else {
        None
    }
}

impl SignalType {
    /// Convert to the wire format type byte.
    pub fn to_type_byte(&self) -> (byte: u8)
        ensures
            byte == type_byte(*self),
            *self is Data ==> byte == 0,
            *self is Query ==> byte == 1,
            *self is Event ==> byte == 2,
            *self is Command ==> byte == 3,
            *self is Heartbeat ==> byte == 4,
            *self is Discovery ==> byte == 5,
            *self is Ack ==> byte == 6,
            *self is Custom ==> byte == 15,
    {
        match self {
            SignalType::Data => 0,
            SignalType::Query => 1,
            SignalType::Event => 2,
            SignalType::Command => 3,
            SignalType::Heartbeat => 4,
            SignalType::Discovery => 5,
            SignalType::Ack => 6,
            SignalType::Custom(_) => 15,
        }
    }

    /// Parse from wire format type byte.
    pub fn from_type_byte(byte: u8) -> (t: Option<SignalType>)
        ensures
            t == type_from_byte(byte),
            byte == 0 ==> t == Some(SignalType::Data),
            byte == 1 ==> t == Some(SignalType::Query),
            byte == 2 ==> t == Some(SignalType::Event),
            byte == 3 ==> t == Some(SignalType::Command),
            byte == 4 ==> t == Some(SignalType::Heartbeat),
            byte == 5 ==> t == Some(SignalType::Discovery),
            byte == 6 ==> t == Some(SignalType::Ack),
            byte > 6 ==> t is None,
    {
        match byte {
            0 => Some(SignalType::Data),
            1 => Some(SignalType::Query),
            2 => Some(SignalType::Event),
            3 => Some(SignalType::Command),
            4 => Some(SignalType::Heartbeat),
            5 => Some(SignalType::Discovery),
            6 => Some(SignalType::Ack),
            _ => None,
        }
    }
}

/// Every built-in signal type survives the trip through its wire byte, and
/// a byte that parses names a type whose byte it is. A custom type's byte
/// parses to nothing.
pub proof fn lemma_type_byte_roundtrip(t: SignalType, byte: u8)
    ensures
        !(t is Custom) ==> type_from_byte(type_byte(t)) == Some(t),
        t is Custom ==> type_from_byte(type_byte(t)) is None,
        type_from_byte(byte) matches Some(parsed) ==> type_byte(parsed) == byte,
{
}

/// The wire byte table: Data 0, Query 1, Event 2, Command 3, Heartbeat 4,
/// Discovery 5, Ack 6, and 15 for any custom type; bytes 0 to 6 parse back
/// to those types and every other byte to nothing.
pub proof fn lemma_type_byte_table(name: String, byte: u8)
    ensures
        type_byte(SignalType::Data) == 0,
        type_byte(SignalType::Query) == 1,
        type_byte(SignalType::Event) == 2,
        type_byte(SignalType::Command) == 3,
        type_byte(SignalType::Heartbeat) == 4,
        type_byte(SignalType::Discovery) == 5,
        type_byte(SignalType::Ack) == 6,
        type_byte(SignalType::Custom(name)) == 15,
        type_from_byte(0) == Some(SignalType::Data),
        type_from_byte(1) == Some(SignalType::Query),
        type_from_byte(2) == Some(SignalType::Event),
        type_from_byte(3) == Some(SignalType::Command),
        type_from_byte(4) == Some(SignalType::Heartbeat),
        type_from_byte(5) == Some(SignalType::Discovery),
        type_from_byte(6) == Some(SignalType::Ack),
        byte > 6 ==> type_from_byte(byte) is None,
{
}

/// Encoding format for signal payloads.
#[derive(Debug, Clone, Copy, PartialEq, Eq, Structural)]
pub enum Encoding {
    /// CBOR — default, compact binary, self-describing.
    Cbor,
    /// Protocol Buffers — when schema is shared.
    Protobuf,
    /// Raw unstructured bytes.
    Raw,
}

// ---------------------------------------------------------------------------
// Node identities
// ---------------------------------------------------------------------------

/// A node identifier, derived from the node's public key.
#[derive(Debug, Clone, PartialEq, Eq, Hash)]
pub struct NodeId(pub Vec<u8>);

impl View for NodeId {
    type V = Seq<u8>;

    open spec fn view(&self) -> Seq<u8> {
        self.0@
    }
}

/// Lower-case hexadecimal digit for `v` (`0 <= v < 16`).
pub open spec fn hex_char(v: int) -> char {
    seq!['0', '1', '2', '3', '4', '5', '6', '7', '8', '9', 'a', 'b', 'c', 'd', 'e', 'f'][v]
}

/// Two lower-case hexadecimal digits per byte, most significant first.
pub open spec fn hex_text(bytes: Seq<u8>) -> Seq<char>
    decreases bytes.len(),
{
    if bytes.len() == 0 {
        Seq::empty()
    } else {
        hex_text(bytes.drop_last()) + seq![
            hex_char(bytes.last() as int / 16),
            hex_char(bytes.last() as int % 16),
        ]
    }
}

/// How a node identifier is shown: `ntl:`, the hex of its first eight bytes
/// (or all of them, if fewer), then `...`.
pub open spec fn node_id_text(id: Seq<u8>) -> Seq<char> {
    let shown = if id.len() < 8 { id } else { id.take(8) };
    "ntl:"@ + hex_text(shown) + "..."@
}

fn hex_digit(v: u8) -> (digit: &'static str)
    requires
        v < 16,
    ensures
        digit@ == seq![hex_char(v as int)],
{
    proof {
        reveal_strlit("0");
        reveal_strlit("1");
        reveal_strlit("2");
        reveal_strlit("3");
        reveal_strlit("4");
        reveal_strlit("5");
        reveal_strlit("6");
        reveal_strlit("7");
        reveal_strlit("8");
        reveal_strlit("9");
        reveal_strlit("a");
        reveal_strlit("b");
        reveal_strlit("c");
        reveal_strlit("d");
        reveal_strlit("e");
        reveal_strlit("f");
    }
    match v {
        0 => "0",
        1 => "1",
        2 => "2",
        3 => "3",
        4 => "4",
        5 => "5",
        6 => "6",
        7 => "7",
        8 => "8",
        9 => "9",
        10 => "a",
        11 => "b",
        12 => "c",
        13 => "d",
        14 => "e",
        _ => "f",
    }
}

impl NodeId {
    /// Whether two identifiers hold the same bytes.
    pub fn same_as(&self, other: &NodeId) -> (same: bool)
        ensures
            same == (self@ == other@),
    {
        let n = self.0.len();
        if n != other.0.len() {
            return false;
        }
        let mut i: usize = 0;
        while i < n
            invariant
                n == self.0@.len(),
                n == other.0@.len(),
                i <= n,
                forall|j: int| 0 <= j < i ==> self.0@[j] == other.0@[j],
            decreases n - i,
        {
            if self.0[i] != other.0[i] {
                return false;
            }
            i = i + 1;
        }
        assert(self.0@ =~= other.0@);
        true
    }

    /// The identifier as it is shown: `ntl:` and the hex of its first
    /// eight bytes, followed by `...`.
    pub fn to_string(&self) -> (text: String)
        ensures
            text@ == node_id_text(self@),
    {
        let n: usize = if self.0.len() < 8 { self.0.len() } else { 8 };
        let ghost shown = if self@.len() < 8 { self@ } else { self@.take(8) };
        assert(shown =~= self@.take(n as int));
        let mut text = "ntl:".to_owned();
        let mut i: usize = 0;
        while i < n
            invariant
                n <= self.0@.len(),
                i <= n,
                text@ == "ntl:"@ + hex_text(self.0@.take(i as int)),
            decreases n - i,
        {
            let b = self.0[i];
            text.append(hex_digit(b / 16));
            text.append(hex_digit(b % 16));
            assert(self.0@.take(i + 1).drop_last() =~= self.0@.take(i as int));
            i = i + 1;
        }
        text.append("...");
        text
    }
}

// ---------------------------------------------------------------------------
// Signals
// ---------------------------------------------------------------------------

/// Length of a trace beyond which hops are no longer recorded.
pub const MAX_TRACE: usize = 64;

/// An NTL signal — the fundamental data unit.
#[derive(Debug, Clone)]
pub struct Signal {
    /// Unique signal identifier (ULID).
    pub id: SignalId,
    /// Signal type classification.
    pub signal_type: SignalType,
    /// Protocol version.
    pub version: u8,
    /// Emitting node identity.
    pub origin: NodeId,
    /// Cryptographic signature over the signal body.
    pub signature: Vec<u8>,
    /// Emission timestamp in nanoseconds since Unix epoch.
    pub timestamp: u64,
    /// The data payload, as its compact JSON text.
    pub payload: String,
    /// Payload encoding format.
    pub encoding: Encoding,
    /// Signal weight / priority (0.0 - 1.0), as a binary32 bit pattern.
    pub weight: u32,
    /// Time-to-live in hops.
    pub ttl: u16,
    /// Propagation scope.
    pub scope: PropagationScope,
    /// Links to a related signal for request-response patterns.
    pub correlation_id: Option<SignalId>,
    /// Ordered list of nodes this signal has traversed.
    pub trace: Vec<NodeId>,
    /// Searchable tags.
    pub tags: Vec<String>,
}

/// The TTL after one hop: one less, but never below zero.
pub open spec fn hop_ttl(ttl: u16) -> u16 {
    if ttl == 0 { 0 } else { (ttl - 1) as u16 }
}

/// The trace after a hop through `node`: the node is appended unless the
/// trace already holds 64 entries.
pub open spec fn hop_trace(trace: Seq<NodeId>, node: NodeId) -> Seq<NodeId> {
    if trace.len() < MAX_TRACE { trace.push(node) } else { trace }
}

/// Number of UTF-8 bytes of a text.
pub open spec fn utf8_len(text: Seq<char>) -> nat {
    vstd::utf8::encode_utf8(text).len()
}

/// Total UTF-8 byte length of a list of texts.
pub open spec fn total_utf8_len(texts: Seq<String>) -> nat
    decreases texts.len(),
{
    if texts.len() == 0 {
        0
    } else {
        total_utf8_len(texts.drop_last()) + utf8_len(texts.last()@)
    }
}

/// Some entry of the trace holds the given node bytes.
pub open spec fn trace_visits(trace: Seq<NodeId>, node: Seq<u8>) -> bool {
    exists|i: int| 0 <= i < trace.len() && trace[i]@ == node
}

/// The message of the error for an unsigned signal.
pub open spec fn missing_signature_text() -> Seq<char> {
    "missing signature"@
}

/// The eight hexadecimal digits of a weight's binary32 bit pattern, most
/// significant first.
pub open spec fn weight_bits_hex(bits: u32) -> Seq<char> {
    Seq::new(8, |i: int| hex_char(((bits >> ((28 - 4 * i) as u32)) & 15u32) as int))
}

/// The message of the error for a weight outside `[0.0, 1.0]`: the weight
/// is shown by its bit pattern, `weight 0x........ out of range [0.0, 1.0]`.
pub open spec fn weight_range_text(bits: u32) -> Seq<char> {
    "weight 0x"@ + weight_bits_hex(bits) + " out of range [0.0, 1.0]"@
}

fn weight_range_message(bits: u32) -> (text: String)
    ensures
        text@ == weight_range_text(bits),
{
    let mut text = "weight 0x".to_owned();
    let mut i: u32 = 0;
    while i < 8
        invariant
            i <= 8,
            text@ == "weight 0x"@ + weight_bits_hex(bits).take(i as int),
        decreases 8 - i,
    {
        let shift: u32 = 28 - 4 * i;
        let nibble: u32 = (bits >> shift) & 15;
        assert(nibble < 16) by (bit_vector)
            requires
                nibble == (bits >> shift) & 15u32,
        ;
        text.append(hex_digit(nibble as u8));
        assert(weight_bits_hex(bits).take(i + 1) =~= weight_bits_hex(bits).take(i as int).push(
            hex_char(nibble as int),
        ));
        i = i + 1;
    }
    assert(weight_bits_hex(bits).take(8) =~= weight_bits_hex(bits));
    text.append(" out of range [0.0, 1.0]");
    text
}

impl Signal {
    /// Maximum allowed signal size in bytes.
    pub const MAX_SIZE: usize = 1_048_576;

    /// Estimated wire size: an 8-byte header, 16 bytes of id, the origin and
    /// signature bytes, 8 + 4 + 2 bytes of timestamp, weight and ttl, the
    /// payload's JSON text, 32 bytes per trace entry and the tags' text.
    pub open spec fn spec_estimated_size(&self) -> int {
        8 + 16 + self.origin@.len() + self.signature@.len() + 8 + 4 + 2 + utf8_len(self.payload@)
            + self.trace@.len() * 32 + total_utf8_len(self.tags@) as int
    }

    /// The two signals agree on everything but the TTL and the trace.
    pub open spec fn same_but_route(&self, other: &Signal) -> bool {
        &&& self.id == other.id
        &&& self.signal_type == other.signal_type
        &&& self.version == other.version
        &&& self.origin == other.origin
        &&& self.signature == other.signature
        &&& self.timestamp == other.timestamp
        &&& self.payload == other.payload
        &&& self.encoding == other.encoding
        &&& self.weight == other.weight
        &&& self.scope == other.scope
        &&& self.correlation_id == other.correlation_id
        &&& self.tags == other.tags
    }

    /// The outcome of validation, in the order the checks are made: the
    /// weight must lie in `[0.0, 1.0]`, the TTL must be positive, and the
    /// signature must be present.
    pub open spec fn validation(&self, r: core::result::Result<(), Error>) -> bool {
        if !binary32::in_unit_interval(self.weight) {
            r matches Err(Error::InvalidSignal(text)) && text@ == weight_range_text(self.weight)
        } else if self.ttl == 0 {
            r matches Err(Error::TtlExpired(text)) && text@ == ulid_text(self.id.0)
        } else if self.signature@.len() == 0 {
            r matches Err(Error::InvalidSignal(text)) && text@ == missing_signature_text()
        } else {
            r is Ok
        }
    }

    /// Create a Data signal builder.
    pub fn data(topic: &str) -> (b: SignalBuilder)
        ensures
            b.fresh(SignalType::Data, topic@),
    {
        SignalBuilder::new(SignalType::Data, topic)
    }

    /// Create a Query signal builder.
    pub fn query(topic: &str) -> (b: SignalBuilder)
        ensures
            b.fresh(SignalType::Query, topic@),
    {
        SignalBuilder::new(SignalType::Query, topic)
    }

    /// Create an Event signal builder.
    pub fn event(topic: &str) -> (b: SignalBuilder)
        ensures
            b.fresh(SignalType::Event, topic@),
    {
        SignalBuilder::new(SignalType::Event, topic)
    }

    /// Create a Command signal builder.
    pub fn command(topic: &str) -> (b: SignalBuilder)
        ensures
            b.fresh(SignalType::Command, topic@),
    {
        SignalBuilder::new(SignalType::Command, topic)
    }

    /// Create a Discovery signal builder (topic `discovery`).
    pub fn discovery() -> (b: SignalBuilder)
        ensures
            b.fresh(SignalType::Discovery, "discovery"@),
    {
        SignalBuilder::new(SignalType::Discovery, "discovery")
    }

    /// Create a Heartbeat signal builder (topic `heartbeat`).
    pub fn heartbeat() -> (b: SignalBuilder)
        ensures
            b.fresh(SignalType::Heartbeat, "heartbeat"@),
    {
        SignalBuilder::new(SignalType::Heartbeat, "heartbeat")
    }

    /// Validate this signal according to the NTL specification.
    pub fn validate(&self) -> (r: crate::Result<()>)
        ensures
            self.validation(r),
    {
        if !binary32::is_unit(self.weight) {
            return Err(Error::InvalidSignal(weight_range_message(self.weight)));
        }
        if self.ttl == 0 {
            return Err(Error::TtlExpired(self.id.to_string()));
        }
        if self.signature.len() == 0 {
            return Err(Error::InvalidSignal("missing signature".to_owned()));
        }
        Ok(())
    }

    /// Check if this signal has exceeded its TTL.
    pub fn is_expired(&self) -> (expired: bool)
        ensures
            expired == (self.ttl == 0),
    {
        self.ttl == 0
    }

    /// Decrement TTL (saturating at zero) and add a node to the trace, unless
    /// the trace already holds 64 entries.
    pub fn hop(&mut self, node_id: NodeId)
        ensures
            final(self).ttl == hop_ttl(old(self).ttl),
            final(self).trace@ == hop_trace(old(self).trace@, node_id),
            final(self).same_but_route(&*old(self)),
    {
        self.ttl = self.ttl.saturating_sub(1);
        if self.trace.len() < MAX_TRACE {
            self.trace.push(node_id);
        }
    }

    /// Check if a node ID appears in the trace (loop detection).
    pub fn has_visited(&self, node_id: &NodeId) -> (visited: bool)
        ensures
            visited == trace_visits(self.trace@, node_id@),
    {
        let n = self.trace.len();
        let mut i: usize = 0;
        while i < n
            invariant
                n == self.trace@.len(),
                i <= n,
                forall|j: int| 0 <= j < i ==> self.trace@[j]@ != node_id@,
            decreases n - i,
        {
            if self.trace[i].same_as(node_id) {
                return true;
            }
            i = i + 1;
        }
        false
    }

    /// Get the wire format size estimate in bytes.
    pub fn estimated_size(&self) -> (size: usize)
        requires
            self.spec_estimated_size() <= usize::MAX,
        ensures
            size == self.spec_estimated_size(),
    {
        let mut tag_bytes: usize = 0;
        let n = self.tags.len();
        let mut i: usize = 0;
        while i < n
            invariant
                n == self.tags@.len(),
                i <= n,
                tag_bytes == total_utf8_len(self.tags@.take(i as int)),
                self.spec_estimated_size() <= usize::MAX,
            decreases n - i,
        {
            proof {
                lemma_total_utf8_len_prefix(self.tags@, i + 1);
                assert(self.tags@.take(i + 1).drop_last() =~= self.tags@.take(i as int));
            }
            tag_bytes = tag_bytes + self.tags[i].as_str().len();
            i = i + 1;
        }
        assert(self.tags@.take(n as int) =~= self.tags@);
        8 + 16 + self.origin.0.len() + self.signature.len() + 8 + 4 + 2 + self.payload.as_str().len()
            + self.trace.len() * 32 + tag_bytes
    }
}

/// The byte length of a prefix of a list of texts is at most that of the
/// whole list.
pub proof fn lemma_total_utf8_len_prefix(texts: Seq<String>, k: int)
    requires
        0 <= k <= texts.len(),
    ensures
        total_utf8_len(texts.take(k)) <= total_utf8_len(texts),
    decreases texts.len(),
{
    if k < texts.len() {
        assert(texts.drop_last().take(k) =~= texts.take(k));
        lemma_total_utf8_len_prefix(texts.drop_last(), k);
    } else {
        assert(texts.take(k) =~= texts);
    }
}

/// A hop never lets the trace grow past 64 entries, records the node it
/// went through while there is room, forgets no node already recorded, and
/// brings the TTL one step closer to expiry (an expired signal stays
/// expired).
pub proof fn lemma_hop_route(trace: Seq<NodeId>, ttl: u16, node: NodeId, seen: Seq<u8>)
    ensures
        trace.len() <= MAX_TRACE ==> hop_trace(trace, node).len() <= MAX_TRACE,
        trace.len() < MAX_TRACE ==> trace_visits(hop_trace(trace, node), node@),
        trace_visits(trace, seen) ==> trace_visits(hop_trace(trace, node), seen),
        ttl > 0 ==> hop_ttl(ttl) == ttl - 1,
        ttl == 0 ==> hop_ttl(ttl) == 0,
{
    if trace.len() < MAX_TRACE {
        assert(hop_trace(trace, node)[trace.len() as int] == node);
        if trace_visits(trace, seen) {
            let i = choose|i: int| 0 <= i < trace.len() && trace[i]@ == seen;
            assert(hop_trace(trace, node)[i] == trace[i]);
        }
    }
}

/// The TTL after `k` hops.
pub open spec fn ttl_after_hops(ttl: u16, k: nat) -> u16
    decreases k,
{
    if k == 0 {
        ttl
    } else {
        hop_ttl(ttl_after_hops(ttl, (k - 1) as nat))
    }
}

/// A signal expires exactly after as many hops as its TTL, and stays
/// expired: after `k` hops its TTL is `ttl - k`, or zero once `k >= ttl`.
pub proof fn lemma_expires_after_ttl_hops(ttl: u16, k: nat)
    ensures
        ttl_after_hops(ttl, k) == (if k >= ttl { 0 } else { ttl - k }),
        (ttl_after_hops(ttl, k) == 0) <==> k >= ttl,
    decreases k,
{
    if k > 0 {
        lemma_expires_after_ttl_hops(ttl, (k - 1) as nat);
    }
}

/// A signal without a signature never validates: it is rejected for its
/// weight, its TTL, or else for the missing signature. So a signal as
/// `build_unsigned` makes it must be signed before it can pass.
pub proof fn lemma_unsigned_rejected(signal: Signal, r: core::result::Result<(), Error>)
    requires
        signal.signature@.len() == 0,
        signal.validation(r),
    ensures
        r is Err,
        binary32::in_unit_interval(signal.weight) && signal.ttl > 0 ==> (r matches Err(
            Error::InvalidSignal(text),
        ) && text@ == missing_signature_text()),
{
}

/// A weight set through the builder passes the weight check unless it was
/// NaN: clamping lands every other value in `[0.0, 1.0]`.
pub proof fn lemma_builder_weight_in_range(weight: u32)
    ensures
        !binary32::spec_is_nan(weight) ==> binary32::in_unit_interval(
            binary32::spec_clamp_unit(weight),
        ),
{
    binary32::lemma_clamp_lands_in_unit(weight);
}

// ---------------------------------------------------------------------------
// Signal builder
// ---------------------------------------------------------------------------

/// Default weight of a built signal.
pub const DEFAULT_WEIGHT: u32 = binary32::HALF;

/// Default time-to-live of a built signal, in hops.
pub const DEFAULT_TTL: u16 = 10;

/// Builder for constructing signals with a fluent API.
pub struct SignalBuilder {
    signal_type: SignalType,
    topic: String,
    payload: String,
    weight: u32,
    ttl: u16,
    scope: PropagationScope,
    correlation_id: Option<SignalId>,
    tags: Vec<String>,
}

impl SignalBuilder {
    /// The signal type being built.
    pub closed spec fn spec_signal_type(&self) -> SignalType {
        self.signal_type
    }

    /// The topic, which becomes the first tag.
    pub closed spec fn spec_topic(&self) -> Seq<char> {
        self.topic@
    }

    /// The payload's JSON text.
    pub closed spec fn spec_payload(&self) -> Seq<char> {
        self.payload@
    }

    /// The weight's bit pattern.
    pub closed spec fn spec_weight(&self) -> u32 {
        self.weight
    }

    /// The time-to-live.
    pub closed spec fn spec_ttl(&self) -> u16 {
        self.ttl
    }

    /// The propagation scope.
    pub closed spec fn spec_scope(&self) -> PropagationScope {
        self.scope
    }

    /// The correlation id.
    pub closed spec fn spec_correlation_id(&self) -> Option<SignalId> {
        self.correlation_id
    }

    /// The tags set so far.
    pub closed spec fn spec_tags(&self) -> Seq<String> {
        self.tags@
    }

    /// A builder as the constructors make it: the given type and topic, a
    /// `null` payload, weight 0.5, TTL 10, the default scope, no correlation
    /// and no tags.
    pub open spec fn fresh(&self, signal_type: SignalType, topic: Seq<char>) -> bool {
        &&& self.spec_signal_type() == signal_type
        &&& self.spec_topic() == topic
        &&& self.spec_payload() == "null"@
        &&& self.spec_weight() == DEFAULT_WEIGHT
        &&& self.spec_ttl() == DEFAULT_TTL
        &&& self.spec_scope() == default_scope()
        &&& self.spec_correlation_id() is None
        &&& self.spec_tags().len() == 0
    }

    /// The builders agree on everything but what `changed` names.
    pub open spec fn same_except(&self, other: &SignalBuilder, changed: BuilderPart) -> bool {
        &&& self.spec_signal_type() == other.spec_signal_type()
        &&& self.spec_topic() == other.spec_topic()
        &&& (changed != BuilderPart::Payload ==> self.spec_payload() == other.spec_payload())
        &&& (changed != BuilderPart::Weight ==> self.spec_weight() == other.spec_weight())
        &&& (changed != BuilderPart::Ttl ==> self.spec_ttl() == other.spec_ttl())
        &&& (changed != BuilderPart::Scope ==> self.spec_scope() == other.spec_scope())
        &&& (changed != BuilderPart::Correlation ==> self.spec_correlation_id()
            == other.spec_correlation_id())
        &&& (changed != BuilderPart::Tags ==> self.spec_tags() == other.spec_tags())
    }

    fn new(signal_type: SignalType, topic: &str) -> (b: SignalBuilder)
        ensures
            b.fresh(signal_type, topic@),
    {
        SignalBuilder {
            signal_type,
            topic: topic.to_owned(),
            payload: "null".to_owned(),
            weight: DEFAULT_WEIGHT,
            ttl: DEFAULT_TTL,
            scope: PropagationScope::default(),
            correlation_id: None,
            tags: Vec::new(),
        }
    }

    /// Set the signal payload (its compact JSON text).
    pub fn with_payload(self, payload: String) -> (b: SignalBuilder)
        ensures
            b.spec_payload() == payload@,
            b.same_except(&self, BuilderPart::Payload),
    {
        SignalBuilder { payload, ..self }
    }

    /// Set the signal weight, clamped to `[0.0, 1.0]`.
    pub fn with_weight(self, weight: u32) -> (b: SignalBuilder)
        ensures
            b.spec_weight() == binary32::spec_clamp_unit(weight),
            b.same_except(&self, BuilderPart::Weight),
    {
        SignalBuilder { weight: binary32::clamp_unit(weight), ..self }
    }

    /// Set the time-to-live in hops.
    pub fn with_ttl(self, ttl: u16) -> (b: SignalBuilder)
        ensures
            b.spec_ttl() == ttl,
            b.same_except(&self, BuilderPart::Ttl),
    {
        SignalBuilder { ttl, ..self }
    }

    /// Set the propagation scope.
    pub fn with_scope(self, scope: PropagationScope) -> (b: SignalBuilder)
        ensures
            b.spec_scope() == scope,
            b.same_except(&self, BuilderPart::Scope),
    {
        SignalBuilder { scope, ..self }
    }

    /// Set a correlation ID for request-response patterns.
    pub fn with_correlation(self, id: SignalId) -> (b: SignalBuilder)
        ensures
            b.spec_correlation_id() == Some(id),
            b.same_except(&self, BuilderPart::Correlation),
    {
        SignalBuilder { correlation_id: Some(id), ..self }
    }

    /// Set searchable tags (replacing any set before).
    pub fn with_tags(self, tags: Vec<&str>) -> (b: SignalBuilder)
        ensures
            b.spec_tags().len() == tags@.len(),
            forall|i: int| 0 <= i < tags@.len() ==> #[trigger] b.spec_tags()[i]@ == tags@[i]@,
            b.same_except(&self, BuilderPart::Tags),
    {
        let mut owned: Vec<String> = Vec::new();
        let n = tags.len();
        let mut i: usize = 0;
        while i < n
            invariant
                n == tags@.len(),
                i <= n,
                owned@.len() == i,
                forall|j: int| 0 <= j < i ==> #[trigger] owned@[j]@ == tags@[j]@,
            decreases n - i,
        {
            owned.push(tags[i].to_owned());
            i = i + 1;
        }
        SignalBuilder { tags: owned, ..self }
    }

    /// `signal` is what building without signing makes of this builder for
    /// `origin`: version 1, CBOR encoding, an empty signature and trace, the
    /// builder's type, payload, weight, TTL, scope and correlation, and the
    /// topic (when not empty) placed before the tags.
    pub open spec fn builds(&self, signal: Signal, origin: NodeId) -> bool {
        &&& signal.signal_type == self.spec_signal_type()
        &&& signal.version == 1
        &&& signal.origin == origin
        &&& signal.signature@.len() == 0
        &&& signal.payload@ == self.spec_payload()
        &&& signal.encoding == Encoding::Cbor
        &&& signal.weight == self.spec_weight()
        &&& signal.ttl == self.spec_ttl()
        &&& signal.scope == self.spec_scope()
        &&& signal.correlation_id == self.spec_correlation_id()
        &&& signal.trace@.len() == 0
        &&& signal.tags@ == (if self.spec_topic().len() == 0 {
            self.spec_tags()
        } else {
            self.spec_tags().insert(0, signal.tags@[0])
        })
        &&& (self.spec_topic().len() != 0 ==> signal.tags@[0]@ == self.spec_topic())
    }

    /// Build the signal without signing it, at the current time, with an id
    /// freshly minted at that time: the id's time field is the signal's
    /// timestamp in milliseconds (see `build_unsigned_at`).
    pub fn build_unsigned(self, origin: NodeId) -> (signal: Signal)
        ensures
            self.builds(signal, origin),
            signal.id.0 as int / ULID_TIME_UNIT as int == (signal.timestamp as int / 1_000_000)
                % ULID_TIME_RANGE as int,
    {
        let now = unix_time_ns();
        let id = SignalId::new_at(now / 1_000_000);
        self.build_unsigned_at(origin, id, now)
    }

    /// Build the signal without signing it, with the given id and emission
    /// time (nanoseconds since the epoch).
    pub fn build_unsigned_at(self, origin: NodeId, id: SignalId, now_ns: u64) -> (signal: Signal)
        ensures
            self.builds(signal, origin),
            signal.id == id,
            signal.timestamp == now_ns,
    {
        let mut tags = self.tags;
        if !self.topic.as_str().is_empty() {
            tags.insert(0, self.topic);
        }
        Signal {
            id,
            signal_type: self.signal_type,
            version: 1,
            origin,
            signature: Vec::new(),
            timestamp: now_ns,
            payload: self.payload,
            encoding: Encoding::Cbor,
            weight: self.weight,
            ttl: self.ttl,
            scope: self.scope,
            correlation_id: self.correlation_id,
            trace: Vec::new(),
            tags,
        }
    }
}

/// The parts of a builder that its setters change.
#[derive(PartialEq, Eq, Structural)]
pub enum BuilderPart {
    Payload,
    Weight,
    Ttl,
    Scope,
    Correlation,
    Tags,
}

} // verus!
