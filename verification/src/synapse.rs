//! Synapse types and lifecycle management for NTL.
//!
//! A synapse is a persistent, weighted connection between two NTL nodes.
//! Synapses strengthen with use and weaken with inactivity.

use vstd::prelude::*;

use crate::binary32;
use vstd::string::StringSliceAdditionalSpecFns;
use crate::clock::unix_time_ns;
use crate::signal::{ulid_text, NodeId, SignalId};

verus! {

/// Unique identifier for a synapse.
#[derive(Debug, Clone, PartialEq, Eq, Hash)]
pub struct SynapseId(pub String);

/// Number of bytes of a synapse id that its short form shows.
pub const SHORT_ID_BYTES: usize = 8;

/// The number of leading bytes of an id's UTF-8 text that its short form shows.
pub open spec fn shown_bytes(id: Seq<char>) -> nat {
    let n = vstd::utf8::encode_utf8(id).len();
    if n < SHORT_ID_BYTES { n } else { SHORT_ID_BYTES as nat }
}

impl SynapseId {
    /// The id as it is shown: `syn:` followed by the first eight bytes of
    /// its text (all of it, if shorter).
    pub fn to_string(&self) -> (text: String)
        requires
            vstd::utf8::is_char_boundary(
                vstd::utf8::encode_utf8(self.0@),
                shown_bytes(self.0@) as int,
            ),
        ensures
            text@.len() >= 4,
            text@.take(4) == "syn:"@,
            vstd::utf8::encode_utf8(text@.skip(4)) == vstd::utf8::encode_utf8(self.0@).take(
                shown_bytes(self.0@) as int,
            ),
    {
        let whole = self.0.as_str();
        let n = whole.as_bytes().len();
        let end = if n < SHORT_ID_BYTES { n } else { SHORT_ID_BYTES };
        assert(whole.spec_bytes() == vstd::utf8::encode_utf8(self.0@));
        assert(end as int == shown_bytes(self.0@) as int);
        let (head, _) = whole.split_at(end);
        assert(head.spec_bytes() =~= vstd::utf8::encode_utf8(self.0@).take(end as int));
        proof {
            reveal_strlit("syn:");
        }
        let mut text = "syn:".to_owned();
        text.append(head);
        assert(text@.take(4) =~= "syn:"@);
        assert(text@.skip(4) =~= head@);
        text
    }
}

/// The lifecycle state of a synapse.
#[derive(Debug, Clone, Copy, PartialEq, Eq, Structural)]
pub enum SynapseState {
    /// Handshake in progress.
    Forming,
    /// Actively transmitting signals.
    Active,
    /// Weight below active threshold, still connected.
    Weakening,
    /// Weight below dormancy threshold, connection idle.
    Dormant,
    /// Connection terminated, state archived.
    Pruned,
}

/// The underlying transport for a synapse.
#[derive(Debug, PartialEq, Eq)]
pub enum Transport {
    /// QUIC — default, multiplexed, encrypted.
    Quic,
    /// TCP — fallback, widely supported.
    Tcp,
    /// Unix domain socket — same-machine nodes.
    Unix,
    /// Bluetooth Low Energy — proximity mesh.
    BluetoothLe,
    /// Application-defined transport.
    Custom(String),
}

impl Clone for Transport {
    fn clone(&self) -> (r: Self)
        ensures
            r == *self,
    {
        match self {
            Transport::Quic => Transport::Quic,
            Transport::Tcp => Transport::Tcp,
            Transport::Unix => Transport::Unix,
            Transport::BluetoothLe => Transport::BluetoothLe,
            Transport::Custom(name) => Transport::Custom(name.clone()),
        }
    }
}

impl Default for Transport {
    fn default() -> (r: Self)
        ensures
            r == Transport::Quic,
    {
        Transport::Quic
    }
}

/// Configuration for synapse behavior. Weights and rates are binary32 bit
/// patterns.
#[derive(Debug, Clone)]
pub struct SynapseConfig {
    /// Initial weight for new synapses.
    pub initial_weight: u32,
    /// Maximum weight a synapse can reach.
    pub max_weight: u32,
    /// Weight decay rate per hour.
    pub decay_rate: u32,
    /// Weight threshold below which synapse becomes dormant.
    pub dormancy_threshold: u32,
    /// Hours in dormant state before pruning.
    pub prune_after_hours: u64,
    /// Maximum number of synapses per node.
    pub max_synapses: u32,
    /// Preferred transport.
    pub preferred_transport: Transport,
    /// Fallback transport.
    pub fallback_transport: Transport,
    /// Default attenuation factor.
    pub attenuation_factor: u32,
}

impl SynapseConfig {
    /// The default configuration: initial weight 0.1, maximum 1.0, decay
    /// and dormancy 0.01, pruning after 168 hours, at most 1000 synapses,
    /// QUIC preferred with TCP as fallback, attenuation 0.9.
    pub open spec fn is_default(&self) -> bool {
        &&& self.initial_weight == binary32::TENTH
        &&& self.max_weight == binary32::ONE
        &&& self.decay_rate == binary32::HUNDREDTH
        &&& self.dormancy_threshold == binary32::HUNDREDTH
        &&& self.prune_after_hours == 168
        &&& self.max_synapses == 1000
        &&& self.preferred_transport == Transport::Quic
        &&& self.fallback_transport == Transport::Tcp
        &&& self.attenuation_factor == binary32::NINE_TENTHS
    }
}

impl Default for SynapseConfig {
    fn default() -> (r: Self)
        ensures
            r.is_default(),
    {
        SynapseConfig {
            initial_weight: binary32::TENTH,
            max_weight: binary32::ONE,
            decay_rate: binary32::HUNDREDTH,
            dormancy_threshold: binary32::HUNDREDTH,
            prune_after_hours: 168,
            max_synapses: 1000,
            preferred_transport: Transport::Quic,
            fallback_transport: Transport::Tcp,
            attenuation_factor: binary32::NINE_TENTHS,
        }
    }
}

/// Weight at or above which a synapse is active.
pub const ACTIVE_WEIGHT: u32 = binary32::TENTH;

/// The state a synapse takes after its weight changes: a pruned synapse stays
/// pruned; otherwise weight >= 0.1 is active, weight at or above the
/// synapse's dormancy threshold is weakening, and anything else (NaN
/// included) is dormant.
pub open spec fn next_state(state: SynapseState, weight: u32, dormancy_threshold: u32) -> SynapseState {
    if state == SynapseState::Pruned {
        SynapseState::Pruned
    } else if binary32::spec_le(ACTIVE_WEIGHT, weight) {
        SynapseState::Active
    } else if binary32::spec_le(dormancy_threshold, weight) {
        SynapseState::Weakening
    } else {
        SynapseState::Dormant
    }
}

/// Strength of the weight-driven states: dormant below weakening below
/// active.
pub open spec fn state_rank(state: SynapseState) -> int {
    match state {
        SynapseState::Dormant => 0,
        SynapseState::Weakening => 1,
        SynapseState::Active => 2,
        SynapseState::Forming => -1,
        SynapseState::Pruned => 3,
    }
}

/// A pruned synapse stays pruned whatever its weight; any other synapse's
/// state after a weight change depends on the weight (and the dormancy
/// threshold) alone, is never `Forming`, is dormant exactly when the weight
/// is below both the active weight and the dormancy threshold, and is never
/// weaker for a heavier synapse.
pub proof fn lemma_state_follows_weight(state: SynapseState, w1: u32, w2: u32, dormancy: u32)
    ensures
        next_state(SynapseState::Pruned, w1, dormancy) == SynapseState::Pruned,
        next_state(state, w1, dormancy) != SynapseState::Forming,
        state != SynapseState::Pruned ==> next_state(state, w1, dormancy) == next_state(
            SynapseState::Active,
            w1,
            dormancy,
        ),
        state != SynapseState::Pruned ==> (next_state(state, w1, dormancy)
            == SynapseState::Dormant <==> !binary32::spec_le(ACTIVE_WEIGHT, w1)
            && !binary32::spec_le(dormancy, w1)),
        state != SynapseState::Pruned && binary32::spec_le(w1, w2) ==> state_rank(
            next_state(state, w1, dormancy),
        ) <= state_rank(next_state(state, w2, dormancy)),
{
}

/// Count recorded for a signal type in an affinity list (the last entry with
/// that name; a well-formed list has at most one).
pub open spec fn affinity_count(entries: Seq<(String, u64)>, signal_type: Seq<char>) -> nat
    decreases entries.len(),
{
    if entries.len() == 0 {
        0
    } else if entries.last().0@ == signal_type {
        entries.last().1 as nat
    } else {
        affinity_count(entries.drop_last(), signal_type)
    }
}

/// Sum of all counts in an affinity list.
pub open spec fn affinity_total(entries: Seq<(String, u64)>) -> nat
    decreases entries.len(),
{
    if entries.len() == 0 {
        0
    } else {
        affinity_total(entries.drop_last()) + entries.last().1 as nat
    }
}

/// No signal type appears twice in an affinity list.
pub open spec fn affinity_keys_distinct(entries: Seq<(String, u64)>) -> bool {
    forall|i: int, j: int|
        0 <= i < j < entries.len() ==> #[trigger] entries[i].0@ != #[trigger] entries[j].0@
}

/// Some entry of an affinity list names the signal type.
pub open spec fn affinity_has(entries: Seq<(String, u64)>, signal_type: Seq<char>) -> bool {
    exists|i: int| 0 <= i < entries.len() && #[trigger] entries[i].0@ == signal_type
}

/// An NTL synapse — a persistent, weighted connection between nodes.
/// Weights and rates are binary32 bit patterns.
#[derive(Debug, Clone)]
pub struct Synapse {
    /// Unique synapse identifier.
    pub id: SynapseId,
    /// Local node in this synapse.
    pub local_node: NodeId,
    /// Remote node in this synapse.
    pub remote_node: NodeId,
    /// Current synapse weight (0.0 - 1.0).
    pub weight: u32,
    /// Current lifecycle state.
    pub state: SynapseState,
    /// Underlying transport mechanism.
    pub transport: Transport,
    /// Timestamp when synapse was established (ns since epoch).
    pub established_at: u64,
    /// Timestamp of last signal activity (ns since epoch).
    pub last_active: u64,
    /// Total signals transmitted through this synapse.
    pub signals_transmitted: u64,
    /// Total signals received through this synapse.
    pub signals_received: u64,
    /// Average round-trip latency in nanoseconds.
    pub avg_latency_ns: u64,
    /// Ratio of failed signal transmissions.
    pub error_rate: u32,
    /// Maximum weight this synapse can reach.
    pub max_weight: u32,
    /// Weight decay rate per decay interval.
    pub decay_rate: u32,
    /// Weight attenuation factor for signals passing through.
    pub attenuation_factor: u32,
    /// Weight below which the synapse becomes dormant (from its
    /// configuration).
    pub dormancy_threshold: u32,
    /// Historical affinity for signal types: (type, success count), one
    /// entry per type.
    pub type_affinity: Vec<(String, u64)>,
}

impl Synapse {
    /// The affinity list names each signal type at most once.
    pub open spec fn wf(&self) -> bool {
        affinity_keys_distinct(self.type_affinity@)
    }

    /// Whether the affinity list names each signal type at most once.
    pub fn is_well_formed(&self) -> (ok: bool)
        ensures
            ok == self.wf(),
    {
        let n = self.type_affinity.len();
        let mut i: usize = 0;
        while i < n
            invariant
                n == self.type_affinity@.len(),
                i <= n,
                forall|a: int, b: int|
                    0 <= a < b < n && a < i ==> #[trigger] self.type_affinity@[a].0@
                        != #[trigger] self.type_affinity@[b].0@,
            decreases n - i,
        {
            let mut j: usize = i + 1;
            while j < n
                invariant
                    n == self.type_affinity@.len(),
                    i < n,
                    i < j <= n,
                    forall|a: int, b: int|
                        0 <= a < b < n && a < i ==> #[trigger] self.type_affinity@[a].0@
                            != #[trigger] self.type_affinity@[b].0@,
                    forall|b: int|
                        i < b < j ==> self.type_affinity@[i as int].0@
                            != #[trigger] self.type_affinity@[b].0@,
                decreases n - j,
            {
                if self.type_affinity[i].0 == self.type_affinity[j].0 {
                    return false;
                }
                j = j + 1;
            }
            i = i + 1;
        }
        true
    }

    /// The two synapses agree on everything but the weight and state.
    pub open spec fn same_but_weight(&self, other: &Synapse) -> bool {
        &&& self.id == other.id
        &&& self.local_node == other.local_node
        &&& self.remote_node == other.remote_node
        &&& self.transport == other.transport
        &&& self.established_at == other.established_at
        &&& self.last_active == other.last_active
        &&& self.signals_transmitted == other.signals_transmitted
        &&& self.signals_received == other.signals_received
        &&& self.avg_latency_ns == other.avg_latency_ns
        &&& self.error_rate == other.error_rate
        &&& self.max_weight == other.max_weight
        &&& self.decay_rate == other.decay_rate
        &&& self.attenuation_factor == other.attenuation_factor
        &&& self.dormancy_threshold == other.dormancy_threshold
        &&& self.type_affinity == other.type_affinity
    }

    /// The two synapses agree on identity, weight, state and configuration:
    /// what recording traffic leaves alone.
    pub open spec fn same_but_traffic(&self, other: &Synapse) -> bool {
        &&& self.id == other.id
        &&& self.local_node == other.local_node
        &&& self.remote_node == other.remote_node
        &&& self.weight == other.weight
        &&& self.state == other.state
        &&& self.transport == other.transport
        &&& self.established_at == other.established_at
        &&& self.max_weight == other.max_weight
        &&& self.decay_rate == other.decay_rate
        &&& self.attenuation_factor == other.attenuation_factor
        &&& self.dormancy_threshold == other.dormancy_threshold
    }

    /// A synapse as creation at time `now_ns` makes it: the given nodes, the
    /// configured initial weight, maximum, rates, dormancy threshold and
    /// preferred transport, the Forming state, `now_ns` as the time it was
    /// established and last active, and no traffic recorded.
    pub open spec fn created(
        &self,
        local: NodeId,
        remote: NodeId,
        config: &SynapseConfig,
        now_ns: u64,
    ) -> bool {
        &&& self.local_node == local
        &&& self.remote_node == remote
        &&& self.weight == config.initial_weight
        &&& self.state == SynapseState::Forming
        &&& self.transport == config.preferred_transport
        &&& self.established_at == now_ns
        &&& self.last_active == now_ns
        &&& self.signals_transmitted == 0
        &&& self.signals_received == 0
        &&& self.avg_latency_ns == 0
        &&& self.error_rate == binary32::ZERO
        &&& self.max_weight == config.max_weight
        &&& self.decay_rate == config.decay_rate
        &&& self.attenuation_factor == config.attenuation_factor
        &&& self.dormancy_threshold == config.dormancy_threshold
        &&& self.type_affinity@.len() == 0
        &&& self.wf()
    }

    /// Create a new synapse in the Forming state, with a fresh ULID as its
    /// id and the current time as its establishment and activity time.
    pub fn new(local: NodeId, remote: NodeId, config: &SynapseConfig) -> (s: Synapse)
        ensures
            exists|v: u128| s.id.0@ == ulid_text(v),
            s.created(local, remote, config, s.established_at),
    {
        let now = unix_time_ns();
        let id = SignalId::new();
        let text = id.to_string();
        assert(text@ == ulid_text(id.0));
        Self::new_at(SynapseId(text), local, remote, config, now)
    }

    /// Create a new synapse with the given id, established at `now_ns`
    /// (nanoseconds since the epoch).
    pub fn new_at(
        id: SynapseId,
        local: NodeId,
        remote: NodeId,
        config: &SynapseConfig,
        now_ns: u64,
    ) -> (s: Synapse)
        ensures
            s.id == id,
            s.created(local, remote, config, now_ns),
    {
        Synapse {
            id,
            local_node: local,
            remote_node: remote,
            weight: config.initial_weight,
            state: SynapseState::Forming,
            transport: config.preferred_transport.clone(),
            established_at: now_ns,
            last_active: now_ns,
            signals_transmitted: 0,
            signals_received: 0,
            avg_latency_ns: 0,
            error_rate: binary32::ZERO,
            max_weight: config.max_weight,
            decay_rate: config.decay_rate,
            attenuation_factor: config.attenuation_factor,
            dormancy_threshold: config.dormancy_threshold,
            type_affinity: Vec::new(),
        }
    }

    /// Update state based on current weight.
    pub fn update_state(&mut self)
        ensures
            final(self).state == next_state(
                old(self).state,
                old(self).weight,
                old(self).dormancy_threshold,
            ),
            final(self).same_but_weight(&*old(self)),
            final(self).weight == old(self).weight,
    {
        if self.state == SynapseState::Pruned {
            return;
        }
        if binary32::le(ACTIVE_WEIGHT, self.weight) {
            self.state = SynapseState::Active;
        } else if binary32::le(self.dormancy_threshold, self.weight) {
            self.state = SynapseState::Weakening;
        } else {
            self.state = SynapseState::Dormant;
        }
    }

    /// Set a new weight, as strengthening, weakening or decay computed it,
    /// and update the state to match.
    pub fn reweigh(&mut self, weight: u32)
        ensures
            final(self).weight == weight,
            final(self).state == next_state(old(self).state, weight, old(self).dormancy_threshold),
            final(self).same_but_weight(&*old(self)),
    {
        self.weight = weight;
        self.update_state();
    }

    /// Strengthen the synapse to the weight `raised` (its weight plus the
    /// signal's contribution), capped at the synapse's maximum weight
    /// (`f32::min`), and update the state to match.
    pub fn strengthen_to(&mut self, raised: u32)
        ensures
            final(self).weight == binary32::spec_min(raised, old(self).max_weight),
            !binary32::spec_is_nan(old(self).max_weight) ==> binary32::spec_le(
                final(self).weight,
                old(self).max_weight,
            ),
            final(self).state == next_state(
                old(self).state,
                final(self).weight,
                old(self).dormancy_threshold,
            ),
            final(self).same_but_weight(&*old(self)),
    {
        proof {
            binary32::lemma_min_within_bound(raised, self.max_weight);
        }
        let capped = binary32::min(raised, self.max_weight);
        self.reweigh(capped);
    }

    /// Activate a dormant synapse: it takes the configured initial weight and
    /// becomes active. Any other synapse is left as it is.
    pub fn reactivate(&mut self, config: &SynapseConfig)
        ensures
            old(self).state == SynapseState::Dormant ==> final(self).weight == config.initial_weight
                && final(self).state == SynapseState::Active,
            old(self).state != SynapseState::Dormant ==> final(self).weight == old(self).weight
                && final(self).state == old(self).state,
            final(self).same_but_weight(&*old(self)),
    {
        if self.state == SynapseState::Dormant {
            self.weight = config.initial_weight;
            self.state = SynapseState::Active;
        }
    }
}

impl Synapse {
    /// Record a successful signal transmission at the current time, as
    /// `record_transmission_at` does: count it, note the time as the last
    /// activity, fold the latency into the running average
    /// (the first sample is taken as it is, later ones weigh one tenth) and
    /// count one more success for the signal type. A success decays the error
    /// rate; `decayed_error_rate` is the old rate times 0.99 in binary32
    /// arithmetic, and becomes the new rate.
    pub fn record_transmission(&mut self, latency_ns: u64, signal_type: &str, decayed_error_rate: u32)
        requires
            old(self).wf(),
            old(self).signals_transmitted < u64::MAX,
            old(self).avg_latency_ns != 0 ==> old(self).avg_latency_ns * 9 + latency_ns
                <= u64::MAX,
            affinity_count(old(self).type_affinity@, signal_type@) < u64::MAX,
        ensures
            final(self).wf(),
            final(self).signals_transmitted == old(self).signals_transmitted + 1,
            final(self).signals_received == old(self).signals_received,
            final(self).avg_latency_ns == (if old(self).avg_latency_ns == 0 {
                latency_ns as int
            } else {
                (old(self).avg_latency_ns * 9 + latency_ns) / 10
            }),
            affinity_count(final(self).type_affinity@, signal_type@) == affinity_count(
                old(self).type_affinity@,
                signal_type@,
            ) + 1,
            forall|other: Seq<char>|
                other != signal_type@ ==> affinity_count(final(self).type_affinity@, other)
                    == affinity_count(old(self).type_affinity@, other),
            affinity_total(final(self).type_affinity@) == affinity_total(old(self).type_affinity@)
                + 1,
            final(self).error_rate == decayed_error_rate,
            final(self).same_but_traffic(&*old(self)),
    {
        let now = unix_time_ns();
        self.record_transmission_at(latency_ns, signal_type, now, decayed_error_rate);
    }

    /// Record a received signal: count it and note the current time as the
    /// last activity.
    pub fn record_reception(&mut self)
        requires
            old(self).signals_received < u64::MAX,
        ensures
            final(self).signals_received == old(self).signals_received + 1,
            final(self).signals_transmitted == old(self).signals_transmitted,
            final(self).avg_latency_ns == old(self).avg_latency_ns,
            final(self).type_affinity == old(self).type_affinity,
            final(self).error_rate == old(self).error_rate,
            final(self).same_but_traffic(&*old(self)),
    {
        let now = unix_time_ns();
        self.record_reception_at(now);
    }

    /// Record a successful signal transmission: count it, note `now_ns`
    /// (nanoseconds since the epoch) as the last activity, fold the latency
    /// into the running average
    /// (the first sample is taken as it is, later ones weigh one tenth) and
    /// count one more success for the signal type. A success decays the error
    /// rate; `decayed_error_rate` is the old rate times 0.99 in binary32
    /// arithmetic, and becomes the new rate.
    pub fn record_transmission_at(
        &mut self,
        latency_ns: u64,
        signal_type: &str,
        now_ns: u64,
        decayed_error_rate: u32,
    )
        requires
            old(self).wf(),
            old(self).signals_transmitted < u64::MAX,
            old(self).avg_latency_ns != 0 ==> old(self).avg_latency_ns * 9 + latency_ns
                <= u64::MAX,
            affinity_count(old(self).type_affinity@, signal_type@) < u64::MAX,
        ensures
            final(self).wf(),
            final(self).signals_transmitted == old(self).signals_transmitted + 1,
            final(self).signals_received == old(self).signals_received,
            final(self).avg_latency_ns == (if old(self).avg_latency_ns == 0 {
                latency_ns as int
            } else {
                (old(self).avg_latency_ns * 9 + latency_ns) / 10
            }),
            affinity_count(final(self).type_affinity@, signal_type@) == affinity_count(
                old(self).type_affinity@,
                signal_type@,
            ) + 1,
            forall|other: Seq<char>|
                other != signal_type@ ==> affinity_count(final(self).type_affinity@, other)
                    == affinity_count(old(self).type_affinity@, other),
            affinity_total(final(self).type_affinity@) == affinity_total(old(self).type_affinity@)
                + 1,
            final(self).last_active == now_ns,
            final(self).error_rate == decayed_error_rate,
            final(self).same_but_traffic(&*old(self)),
    {
        self.signals_transmitted = self.signals_transmitted + 1;
        self.last_active = now_ns;
        if self.avg_latency_ns == 0 {
            self.avg_latency_ns = latency_ns;
        } else {
            self.avg_latency_ns = (self.avg_latency_ns * 9 + latency_ns) / 10;
        }
        bump_affinity(&mut self.type_affinity, signal_type);
        self.error_rate = decayed_error_rate;
    }

    /// Record a received signal: count it and note `now_ns` (nanoseconds since
    /// the epoch) as the last activity.
    pub fn record_reception_at(&mut self, now_ns: u64)
        requires
            old(self).signals_received < u64::MAX,
        ensures
            final(self).signals_received == old(self).signals_received + 1,
            final(self).signals_transmitted == old(self).signals_transmitted,
            final(self).avg_latency_ns == old(self).avg_latency_ns,
            final(self).type_affinity == old(self).type_affinity,
            final(self).last_active == now_ns,
            final(self).error_rate == old(self).error_rate,
            final(self).same_but_traffic(&*old(self)),
    {
        self.signals_received = self.signals_received + 1;
        self.last_active = now_ns;
    }

    /// The two numbers the affinity score for a signal type is the ratio of:
    /// the successes recorded for that type and the successes over all
    /// types; `None` when nothing has been recorded, which scores zero.
    pub fn affinity_counts(&self, signal_type: &str) -> (counts: Option<(u64, u64)>)
        requires
            self.wf(),
            affinity_total(self.type_affinity@) <= u64::MAX,
        ensures
            affinity_total(self.type_affinity@) == 0 ==> counts is None,
            affinity_total(self.type_affinity@) != 0 ==> counts == Some(
                (
                    affinity_count(self.type_affinity@, signal_type@) as u64,
                    affinity_total(self.type_affinity@) as u64,
                ),
            ),
    {
        let key = signal_type.to_owned();
        let n = self.type_affinity.len();
        let mut total: u64 = 0;
        let mut count: u64 = 0;
        let mut i: usize = 0;
        while i < n
            invariant
                n == self.type_affinity@.len(),
                i <= n,
                key@ == signal_type@,
                affinity_total(self.type_affinity@) <= u64::MAX,
                total == affinity_total(self.type_affinity@.take(i as int)),
                count == affinity_count(self.type_affinity@.take(i as int), key@),
            decreases n - i,
        {
            proof {
                lemma_affinity_total_prefix(self.type_affinity@, i + 1);
                assert(self.type_affinity@.take(i + 1).drop_last() =~= self.type_affinity@.take(
                    i as int,
                ));
            }
            total = total + self.type_affinity[i].1;
            if self.type_affinity[i].0 == key {
                count = self.type_affinity[i].1;
            }
            i = i + 1;
        }
        assert(self.type_affinity@.take(n as int) =~= self.type_affinity@);
        if total == 0 {
            None
        } else {
            Some((count, total))
        }
    }
}

/// Count one more success for a signal type in an affinity list, adding an
/// entry for it when there is none.
fn bump_affinity(entries: &mut Vec<(String, u64)>, signal_type: &str)
    requires
        affinity_keys_distinct(old(entries)@),
        affinity_count(old(entries)@, signal_type@) < u64::MAX,
    ensures
        affinity_keys_distinct(final(entries)@),
        affinity_count(final(entries)@, signal_type@) == affinity_count(old(entries)@, signal_type@)
            + 1,
        forall|other: Seq<char>|
            other != signal_type@ ==> affinity_count(final(entries)@, other) == affinity_count(
                old(entries)@,
                other,
            ),
        affinity_total(final(entries)@) == affinity_total(old(entries)@) + 1,
{
    let key = signal_type.to_owned();
    let n = entries.len();
    let mut i: usize = 0;
    while i < n
        invariant
            n == entries@.len(),
            entries@ == old(entries)@,
            affinity_keys_distinct(entries@),
            affinity_count(entries@, signal_type@) < u64::MAX,
            i <= n,
            key@ == signal_type@,
            forall|j: int| 0 <= j < i ==> entries@[j].0@ != key@,
        decreases n - i,
    {
        if entries[i].0 == key {
            let count = entries[i].1;
            proof {
                lemma_affinity_count_at(entries@, i as int);
                lemma_affinity_update(entries@, i as int, key, (count + 1) as u64);
            }
            entries.set(i, (key, count + 1));
            return;
        }
        i = i + 1;
    }
    proof {
        lemma_affinity_push(entries@, key, 1);
        assert(!affinity_has(entries@, key@));
        lemma_affinity_count_absent(entries@, key@);
    }
    entries.push((key, 1));
}

/// The total over a prefix of an affinity list is at most the total of the
/// whole list.
pub proof fn lemma_affinity_total_prefix(entries: Seq<(String, u64)>, k: int)
    requires
        0 <= k <= entries.len(),
    ensures
        affinity_total(entries.take(k)) <= affinity_total(entries),
    decreases entries.len(),
{
    if k < entries.len() {
        assert(entries.drop_last().take(k) =~= entries.take(k));
        lemma_affinity_total_prefix(entries.drop_last(), k);
    } else {
        assert(entries.take(k) =~= entries);
    }
}

/// A type that no entry names has count zero.
pub proof fn lemma_affinity_count_absent(entries: Seq<(String, u64)>, signal_type: Seq<char>)
    requires
        !affinity_has(entries, signal_type),
    ensures
        affinity_count(entries, signal_type) == 0,
    decreases entries.len(),
{
    if entries.len() > 0 {
        assert(!affinity_has(entries.drop_last(), signal_type)) by {
            if affinity_has(entries.drop_last(), signal_type) {
                let j = choose|j: int|
                    0 <= j < entries.drop_last().len() && #[trigger] entries.drop_last()[j].0@
                        == signal_type;
                assert(entries[j].0@ == signal_type);
            }
        }
        assert(entries.last().0@ != signal_type) by {
            assert(entries[entries.len() - 1].0@ == entries.last().0@);
        }
        lemma_affinity_count_absent(entries.drop_last(), signal_type);
    }
}

/// In a list with distinct names, the count for an entry's name is that
/// entry's count.
pub proof fn lemma_affinity_count_at(entries: Seq<(String, u64)>, i: int)
    requires
        affinity_keys_distinct(entries),
        0 <= i < entries.len(),
    ensures
        affinity_count(entries, entries[i].0@) == entries[i].1,
    decreases entries.len(),
{
    if i < entries.len() - 1 {
        assert(entries.last().0@ != entries[i].0@) by {
            assert(entries[entries.len() - 1].0@ != entries[i].0@);
        }
        assert(entries.drop_last()[i] == entries[i]);
        lemma_affinity_count_at(entries.drop_last(), i);
    }
}

/// Replacing the count of one entry (keeping its name) changes that name's
/// count and the total accordingly and nothing else.
pub proof fn lemma_affinity_update(entries: Seq<(String, u64)>, i: int, key: String, value: u64)
    requires
        affinity_keys_distinct(entries),
        0 <= i < entries.len(),
        key@ == entries[i].0@,
    ensures
        affinity_keys_distinct(entries.update(i, (key, value))),
        affinity_count(entries.update(i, (key, value)), key@) == value,
        forall|other: Seq<char>|
            other != key@ ==> affinity_count(entries.update(i, (key, value)), other)
                == affinity_count(entries, other),
        affinity_total(entries.update(i, (key, value))) + entries[i].1 == affinity_total(entries)
            + value,
    decreases entries.len(),
{
    let updated = entries.update(i, (key, value));
    assert forall|a: int, b: int| 0 <= a < b < updated.len() implies #[trigger] updated[a].0@
        != #[trigger] updated[b].0@ by {
        assert(entries[a].0@ != entries[b].0@);
    }
    lemma_affinity_count_at(updated, i);
    if i == entries.len() - 1 {
        assert(updated.drop_last() =~= entries.drop_last());
    } else {
        assert(updated.drop_last() =~= entries.drop_last().update(i, (key, value)));
        assert(entries.drop_last()[i] == entries[i]);
        assert(updated.last() == entries.last());
        assert(affinity_keys_distinct(entries.drop_last())) by {
            assert forall|a: int, b: int| 0 <= a < b < entries.drop_last().len() implies
                #[trigger] entries.drop_last()[a].0@ != #[trigger] entries.drop_last()[b].0@ by {
                assert(entries[a].0@ != entries[b].0@);
            }
        }
        lemma_affinity_update(entries.drop_last(), i, key, value);
        assert forall|other: Seq<char>| other != key@ implies affinity_count(updated, other)
            == affinity_count(entries, other) by {
            if updated.last().0@ != other {
                assert(affinity_count(updated.drop_last(), other) == affinity_count(
                    entries.drop_last(),
                    other,
                ));
            }
        }
    }
}

/// Appending an entry for a name not yet present adds its count to that
/// name and to the total and changes nothing else.
pub proof fn lemma_affinity_push(entries: Seq<(String, u64)>, key: String, value: u64)
    requires
        affinity_keys_distinct(entries),
        forall|j: int| 0 <= j < entries.len() ==> entries[j].0@ != key@,
    ensures
        affinity_keys_distinct(entries.push((key, value))),
        affinity_count(entries.push((key, value)), key@) == value,
        forall|other: Seq<char>|
            other != key@ ==> affinity_count(entries.push((key, value)), other) == affinity_count(
                entries,
                other,
            ),
        affinity_total(entries.push((key, value))) == affinity_total(entries) + value,
{
    let pushed = entries.push((key, value));
    assert(pushed.drop_last() =~= entries);
    assert forall|a: int, b: int| 0 <= a < b < pushed.len() implies #[trigger] pushed[a].0@
        != #[trigger] pushed[b].0@ by {
        if b == entries.len() {
            assert(pushed[a] == entries[a]);
        } else {
            assert(entries[a].0@ != entries[b].0@);
        }
    }
}

} // verus!
