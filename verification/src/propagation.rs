//! Propagation engine for NTL signal routing.
//!
//! Determines how signals move through the synapse topology based on
//! relevance, weight, and activation patterns.

use vstd::prelude::*;

use crate::binary32;
use crate::signal::NodeId;
use crate::synapse::{Synapse, SynapseState};

verus! {

/// Propagation scope — determines how a signal routes through the network.
#[derive(Debug, Clone)]
pub enum PropagationScope {
    /// Propagate to all active synapses. Use sparingly.
    Flood {
        /// Maximum hops for flood propagation.
        max_hops: u16,
    },
    /// Propagate to highest-scoring synapses (default).
    Weighted {
        /// Minimum synapse weight to consider (binary32 bit pattern).
        min_synapse_weight: u32,
    },
    /// Directed toward a specific destination node.
    Targeted {
        /// The target node.
        destination: NodeId,
    },
    /// Follow the gradient of type affinity.
    Gradient {
        /// Signal type to follow affinity for.
        signal_type: String,
    },
}

/// The default scope: weighted, with no minimum synapse weight.
pub open spec fn default_scope() -> PropagationScope {
    PropagationScope::Weighted { min_synapse_weight: binary32::ZERO }
}

impl Default for PropagationScope {
    fn default() -> (r: Self)
        ensures
            r == default_scope(),
    {
        PropagationScope::Weighted { min_synapse_weight: binary32::ZERO }
    }
}

/// Weights for the synapse scoring function (binary32 bit patterns).
#[derive(Debug, Clone)]
pub struct ScoringWeights {
    /// Weight factor in scoring (default: 0.4).
    pub weight_factor: u32,
    /// Latency factor in scoring (default: 0.2).
    pub latency_factor: u32,
    /// Type affinity factor in scoring (default: 0.3).
    pub affinity_factor: u32,
    /// Recency factor in scoring (default: 0.1).
    pub recency_factor: u32,
}

impl ScoringWeights {
    /// The default weights: 0.4 for weight, 0.2 for latency, 0.3 for
    /// affinity and 0.1 for recency.
    pub open spec fn is_default(&self) -> bool {
        &&& self.weight_factor == binary32::TWO_FIFTHS
        &&& self.latency_factor == binary32::ONE_FIFTH
        &&& self.affinity_factor == binary32::THREE_TENTHS
        &&& self.recency_factor == binary32::TENTH
    }
}

impl Default for ScoringWeights {
    fn default() -> (r: Self)
        ensures
            r.is_default(),
    {
        ScoringWeights {
            weight_factor: binary32::TWO_FIFTHS,
            latency_factor: binary32::ONE_FIFTH,
            affinity_factor: binary32::THREE_TENTHS,
            recency_factor: binary32::TENTH,
        }
    }
}

/// Configuration for the propagation engine.
#[derive(Debug, Clone)]
pub struct PropagationConfig {
    /// Default propagation strategy.
    pub default_strategy: PropagationScope,
    /// Default TTL for signals.
    pub default_ttl: u16,
    /// Minimum signal weight to propagate (binary32 bit pattern).
    pub min_propagation_weight: u32,
    /// Default attenuation factor (binary32 bit pattern).
    pub attenuation_factor: u32,
    /// Maximum synapses to propagate to per hop.
    pub max_fanout: usize,
    /// Deduplication cache duration in seconds.
    pub dedup_cache_seconds: u64,
    /// Scoring weights.
    pub scoring: ScoringWeights,
}

impl PropagationConfig {
    /// The default configuration: the default (weighted) scope, TTL 10,
    /// minimum propagation weight 0.01, attenuation 0.9, fanout 5, a
    /// 300-second deduplication window and the default scoring weights.
    pub open spec fn is_default(&self) -> bool {
        &&& self.default_strategy == default_scope()
        &&& self.default_ttl == 10
        &&& self.min_propagation_weight == binary32::HUNDREDTH
        &&& self.attenuation_factor == binary32::NINE_TENTHS
        &&& self.max_fanout == 5
        &&& self.dedup_cache_seconds == 300
        &&& self.scoring.is_default()
    }
}

impl Default for PropagationConfig {
    fn default() -> (r: Self)
        ensures
            r.is_default(),
    {
        PropagationConfig {
            default_strategy: PropagationScope::default(),
            default_ttl: 10,
            min_propagation_weight: binary32::HUNDREDTH,
            attenuation_factor: binary32::NINE_TENTHS,
            max_fanout: 5,
            dedup_cache_seconds: 300,
            scoring: ScoringWeights::default(),
        }
    }
}

// ---------------------------------------------------------------------------
// Selection
// ---------------------------------------------------------------------------

/// Synapse `i` may carry the signal: it is not the synapse the signal arrived
/// on, it is active, and under a weighted scope its weight is at least the
/// minimum.
pub open spec fn is_candidate(
    synapses: Seq<Synapse>,
    scope: PropagationScope,
    arrival: Option<Seq<char>>,
    i: int,
) -> bool {
    &&& 0 <= i < synapses.len()
    &&& (arrival matches Some(a) ==> synapses[i].id.0@ != a)
    &&& synapses[i].state == SynapseState::Active
    &&& (scope matches PropagationScope::Weighted { min_synapse_weight } ==> binary32::spec_le(
        min_synapse_weight,
        synapses[i].weight,
    ))
}

/// Synapse `i` goes before synapse `j`: its score is higher, or the scores
/// are equal and it comes first in the input (scores sort descending and the
/// sort is stable).
pub open spec fn ranks_before(scores: Seq<u32>, i: int, j: int) -> bool {
    binary32::order_key(scores[i]) > binary32::order_key(scores[j]) || (binary32::order_key(
        scores[i],
    ) == binary32::order_key(scores[j]) && i < j)
}

/// `picks` are the `limit` best candidates (all of them, if fewer), best
/// first.
pub open spec fn is_top(
    picks: Seq<usize>,
    synapses: Seq<Synapse>,
    scores: Seq<u32>,
    scope: PropagationScope,
    arrival: Option<Seq<char>>,
    limit: int,
) -> bool {
    &&& picks.len() <= limit
    &&& forall|k: int| 0 <= k < picks.len() ==> is_candidate(synapses, scope, arrival, #[trigger] picks[k] as int)
    &&& forall|k: int, l: int| 0 <= k < l < picks.len() ==> ranks_before(scores, #[trigger] picks[k] as int, #[trigger] picks[l] as int)
    &&& forall|c: int| is_candidate(synapses, scope, arrival, c) && !picks.contains(c as usize) ==> {
        &&& picks.len() == limit
        &&& forall|k: int| 0 <= k < picks.len() ==> ranks_before(scores, #[trigger] picks[k] as int, c)
    }
}

/// Candidate `d` is the best-ranked candidate whose remote node is
/// `destination`.
pub open spec fn is_best_direct(
    d: int,
    synapses: Seq<Synapse>,
    scores: Seq<u32>,
    scope: PropagationScope,
    arrival: Option<Seq<char>>,
    destination: Seq<u8>,
) -> bool {
    &&& is_candidate(synapses, scope, arrival, d)
    &&& synapses[d].remote_node@ == destination
    &&& forall|c: int|
        #![trigger is_candidate(synapses, scope, arrival, c)]
        is_candidate(synapses, scope, arrival, c) && synapses[c].remote_node@ == destination && c
            != d ==> ranks_before(scores, d, c)
}

/// Some candidate leads directly to `destination`.
pub open spec fn has_direct(
    synapses: Seq<Synapse>,
    scope: PropagationScope,
    arrival: Option<Seq<char>>,
    destination: Seq<u8>,
) -> bool {
    exists|c: int| is_candidate(synapses, scope, arrival, c) && #[trigger] synapses[c].remote_node@
        == destination
}

/// The selection a propagation makes: a flood takes every candidate; a
/// targeted signal takes the best direct synapse to its destination when
/// there is one and otherwise the single best candidate; other scopes take
/// the best `max_fanout` candidates. Candidates come best first.
pub open spec fn is_selection(
    picks: Seq<usize>,
    synapses: Seq<Synapse>,
    scores: Seq<u32>,
    scope: PropagationScope,
    arrival: Option<Seq<char>>,
    max_fanout: int,
) -> bool {
    match scope {
        PropagationScope::Flood { .. } => is_top(picks, synapses, scores, scope, arrival, synapses.len() as int),
        PropagationScope::Targeted { destination } => if has_direct(synapses, scope, arrival, destination@) {
            picks.len() == 1 && is_best_direct(picks[0] as int, synapses, scores, scope, arrival, destination@)
        } else {
            is_top(picks, synapses, scores, scope, arrival, 1)
        },
        _ => is_top(picks, synapses, scores, scope, arrival, max_fanout),
    }
}

/// The score of no candidate is NaN (the sort needs a total order).
pub open spec fn scores_ordered(
    synapses: Seq<Synapse>,
    scores: Seq<u32>,
    scope: PropagationScope,
    arrival: Option<Seq<char>>,
) -> bool {
    forall|i: int| is_candidate(synapses, scope, arrival, i) ==> !binary32::spec_is_nan(#[trigger] scores[i])
}

/// The arrival synapse id as a sequence of characters.
pub open spec fn arrival_text(arrival: Option<&str>) -> Option<Seq<char>> {
    match arrival {
        Some(a) => Some(a@),
        None => None,
    }
}

fn ranks_before_exec(scores: &[u32], i: usize, j: usize) -> (before: bool)
    requires
        i < scores@.len(),
        j < scores@.len(),
    ensures
        before == ranks_before(scores@, i as int, j as int),
{
    let ki = if scores[i] >= binary32::SIGN_BIT { -((scores[i] - binary32::SIGN_BIT) as i64) } else { scores[i] as i64 };
    let kj = if scores[j] >= binary32::SIGN_BIT { -((scores[j] - binary32::SIGN_BIT) as i64) } else { scores[j] as i64 };
    ki > kj || (ki == kj && i < j)
}

/// The indices are ordered best first.
pub open spec fn ranked(picks: Seq<usize>, scores: Seq<u32>) -> bool {
    forall|k: int, l: int| 0 <= k < l < picks.len() ==> ranks_before(scores, #[trigger] picks[k] as int, #[trigger] picks[l] as int)
}

/// Ranking is transitive.
proof fn lemma_ranks_transitive(scores: Seq<u32>, a: int, b: int, c: int)
    requires
        ranks_before(scores, a, b),
        ranks_before(scores, b, c),
    ensures
        ranks_before(scores, a, c),
{
}

/// Insert `c`, an index above every index present, into a best-first list.
fn insert_ranked(sorted: &mut Vec<usize>, scores: &[u32], c: usize)
    requires
        c < scores@.len(),
        forall|k: int| 0 <= k < old(sorted)@.len() ==> #[trigger] old(sorted)@[k] < c,
        ranked(old(sorted)@, scores@),
    ensures
        ranked(final(sorted)@, scores@),
        final(sorted)@.len() == old(sorted)@.len() + 1,
        forall|k: int| 0 <= k < final(sorted)@.len() ==> #[trigger] final(sorted)@[k] <= c,
        forall|x: usize| #[trigger] final(sorted)@.contains(x) <==> (old(sorted)@.contains(x) || x == c),
{
    let n = sorted.len();
    let mut p: usize = 0;
    while p < n && !ranks_before_exec(scores, c, sorted[p])
        invariant
            n == sorted@.len(),
            sorted@ == old(sorted)@,
            p <= n,
            c < scores@.len(),
            forall|k: int| 0 <= k < sorted@.len() ==> #[trigger] sorted@[k] < c,
            forall|q: int| 0 <= q < p ==> ranks_before(scores@, #[trigger] sorted@[q] as int, c as int),
        decreases n - p,
    {
        assert(sorted@[p as int] < c);
        p = p + 1;
    }
    let ghost before = sorted@;
    proof {
        assert forall|q: int| p <= q < n implies ranks_before(scores@, c as int, #[trigger] before[q] as int) by {
            if q > p {
                lemma_ranks_transitive(scores@, c as int, before[p as int] as int, before[q] as int);
            }
        }
    }
    sorted.insert(p, c);
    proof {
        let after = sorted@;
        assert(after =~= before.insert(p as int, c));
        assert forall|k: int, l: int| 0 <= k < l < after.len() implies ranks_before(scores@, #[trigger] after[k] as int, #[trigger] after[l] as int) by {
            if l < p {
                assert(after[k] == before[k] && after[l] == before[l]);
            } else if l == p {
                assert(after[k] == before[k]);
            } else if k < p {
                assert(after[k] == before[k] && after[l] == before[l - 1]);
                lemma_ranks_transitive(scores@, before[k] as int, c as int, before[l - 1] as int);
            } else if k == p {
                assert(after[l] == before[l - 1]);
            } else {
                assert(after[k] == before[k - 1] && after[l] == before[l - 1]);
            }
        }
        assert forall|x: usize| #[trigger] after.contains(x) <==> (before.contains(x) || x == c) by {
            if after.contains(x) {
                let k = choose|k: int| 0 <= k < after.len() && after[k] == x;
                if k < p {
                    assert(before[k] == x);
                } else if k > p {
                    assert(before[k - 1] == x);
                }
            }
            if before.contains(x) {
                let k = choose|k: int| 0 <= k < before.len() && before[k] == x;
                if k < p {
                    assert(after[k] == x);
                } else {
                    assert(after[k + 1] == x);
                }
            }
            if x == c {
                assert(after[p as int] == c);
            }
        }
        assert forall|k: int| 0 <= k < after.len() implies #[trigger] after[k] <= c by {
            if k < p {
                assert(after[k] == before[k]);
            } else if k > p {
                assert(after[k] == before[k - 1]);
            }
        }
    }
}

fn candidate_exec(
    synapses: &[Synapse],
    scope: &PropagationScope,
    arrival_key: &Option<String>,
    i: usize,
) -> (ok: bool)
    requires
        i < synapses@.len(),
    ensures
        ok == is_candidate(
            synapses@,
            *scope,
            match arrival_key {
                Some(a) => Some(a@),
                None => None,
            },
            i as int,
        ),
{
    let s = &synapses[i];
    if let Some(a) = arrival_key {
        if s.id.0 == *a {
            return false;
        }
    }
    if s.state != SynapseState::Active {
        return false;
    }
    match scope {
        PropagationScope::Weighted { min_synapse_weight } => binary32::le(*min_synapse_weight, s.weight),
        _ => true,
    }
}

/// Whether synapse `i` may carry the signal (see `is_candidate`).
pub fn may_carry(
    synapses: &[Synapse],
    scope: &PropagationScope,
    arrival_synapse: Option<&str>,
    i: usize,
) -> (ok: bool)
    requires
        i < synapses@.len(),
    ensures
        ok == is_candidate(synapses@, *scope, arrival_text(arrival_synapse), i as int),
{
    let arrival_key: Option<String> = match arrival_synapse {
        Some(a) => Some(a.to_owned()),
        None => None,
    };
    candidate_exec(synapses, scope, &arrival_key, i)
}

/// Select synapses for propagation: the candidates (active synapses other
/// than the arrival synapse that pass the scope's weight floor) ordered by
/// score, best first, ties in input order; a flood takes them all, a
/// targeted signal takes its best direct synapse (or else the single best
/// candidate), and other scopes take at most `max_fanout`. `scores[i]` is the
/// score of `synapses[i]`, as a binary32 bit pattern. Returns their indices.
pub fn select_indices(
    synapses: &[Synapse],
    scores: &[u32],
    scope: &PropagationScope,
    arrival_synapse: Option<&str>,
    config: &PropagationConfig,
) -> (picks: Vec<usize>)
    requires
        scores@.len() == synapses@.len(),
        scores_ordered(synapses@, scores@, *scope, arrival_text(arrival_synapse)),
    ensures
        is_selection(picks@, synapses@, scores@, *scope, arrival_text(arrival_synapse), config.max_fanout as int),
        forall|k: int| 0 <= k < picks@.len() ==> #[trigger] picks@[k] < synapses@.len()
            && synapses@[picks@[k] as int].state == SynapseState::Active,
        forall|k: int| 0 <= k < picks@.len() ==> (arrival_synapse matches Some(a) ==> synapses@[#[trigger] picks@[k] as int].id.0@ != a@),
        forall|k: int| 0 <= k < picks@.len() ==> (*scope matches PropagationScope::Weighted { min_synapse_weight } ==> binary32::spec_le(
            min_synapse_weight,
            synapses@[#[trigger] picks@[k] as int].weight,
        )),
        forall|c: int| 0 <= c < synapses@.len() && synapses@[c].state == SynapseState::Active && (arrival_synapse matches Some(a)
            ==> synapses@[c].id.0@ != a@) && (*scope matches PropagationScope::Weighted { min_synapse_weight }
            ==> binary32::spec_le(min_synapse_weight, synapses@[c].weight)) && !(*scope is Targeted)
            && !#[trigger] picks@.contains(c as usize) ==> !(*scope is Flood) && picks@.len() == config.max_fanout,
{
    let picks = select_candidates(synapses, scores, scope, arrival_synapse, config);
    proof {
        lemma_selection_respects_scope(picks@, synapses@, scores@, *scope, arrival_text(arrival_synapse), config.max_fanout as int);
    }
    picks
}

fn select_candidates(
    synapses: &[Synapse],
    scores: &[u32],
    scope: &PropagationScope,
    arrival_synapse: Option<&str>,
    config: &PropagationConfig,
) -> (picks: Vec<usize>)
    requires
        scores@.len() == synapses@.len(),
        scores_ordered(synapses@, scores@, *scope, arrival_text(arrival_synapse)),
    ensures
        is_selection(picks@, synapses@, scores@, *scope, arrival_text(arrival_synapse), config.max_fanout as int),
{
    let ghost arrival = arrival_text(arrival_synapse);
    let arrival_key: Option<String> = match arrival_synapse {
        Some(a) => Some(a.to_owned()),
        None => None,
    };
    assert(arrival == match arrival_key {
        Some(a) => Some(a@),
        None => None,
    });
    let n = synapses.len();
    let mut sorted: Vec<usize> = Vec::new();
    let mut i: usize = 0;
    while i < n
        invariant
            n == synapses@.len(),
            n == scores@.len(),
            i <= n,
            arrival == match arrival_key {
                Some(a) => Some(a@),
                None => None,
            },
            sorted@.len() <= i,
            ranked(sorted@, scores@),
            forall|k: int| 0 <= k < sorted@.len() ==> #[trigger] sorted@[k] < i,
            forall|k: int| 0 <= k < sorted@.len() ==> is_candidate(synapses@, *scope, arrival, #[trigger] sorted@[k] as int),
            forall|c: int| 0 <= c < i && is_candidate(synapses@, *scope, arrival, c) ==> sorted@.contains(c as usize),
        decreases n - i,
    {
        if candidate_exec(synapses, scope, &arrival_key, i) {
            let ghost prev = sorted@;
            insert_ranked(&mut sorted, scores, i);
            proof {
                assert forall|k: int| 0 <= k < sorted@.len() implies is_candidate(synapses@, *scope, arrival, #[trigger] sorted@[k] as int) by {
                    assert(sorted@.contains(sorted@[k]));
                    if sorted@[k] != i {
                        let q = choose|q: int| 0 <= q < prev.len() && prev[q] == sorted@[k];
                    }
                }
                assert forall|c: int| 0 <= c < i + 1 && is_candidate(synapses@, *scope, arrival, c) implies sorted@.contains(c as usize) by {
                    if c < i {
                        assert(prev.contains(c as usize));
                    }
                }
            }
        }
        i = i + 1;
    }
    assert forall|c: int| is_candidate(synapses@, *scope, arrival, c) implies sorted@.contains(c as usize) by {
    }
    let limit: usize = match scope {
        PropagationScope::Flood { .. } => n,
        PropagationScope::Targeted { destination } => {
            let m = sorted.len();
            let mut k: usize = 0;
            while k < m
                invariant
                    m == sorted@.len(),
                    k <= m,
                    forall|j: int| 0 <= j < sorted@.len() ==> #[trigger] sorted@[j] < n,
                    n == synapses@.len(),
                    ranked(sorted@, scores@),
                    *scope == (PropagationScope::Targeted { destination: *destination }),
                    arrival == arrival_text(arrival_synapse),
                    arrival == match arrival_key {
                        Some(a) => Some(a@),
                        None => None,
                    },
                    forall|c: int| is_candidate(synapses@, *scope, arrival, c) ==> sorted@.contains(c as usize),
                    forall|j: int| 0 <= j < sorted@.len() ==> is_candidate(synapses@, *scope, arrival, #[trigger] sorted@[j] as int),
                    forall|q: int| 0 <= q < k ==> synapses@[#[trigger] sorted@[q] as int].remote_node@ != destination@,
                decreases m - k,
            {
                if synapses[sorted[k]].remote_node.same_as(destination) {
                    let best = sorted[k];
                    proof {
                        assert forall|c: int|
                            #![trigger is_candidate(synapses@, *scope, arrival, c)]
                            is_candidate(synapses@, *scope, arrival, c) && synapses@[c].remote_node@ == destination@ && c != best
                            implies ranks_before(scores@, best as int, c) by {
                            assert(sorted@.contains(c as usize));
                            let q = choose|q: int| 0 <= q < sorted@.len() && sorted@[q] == c as usize;
                            if q < k {
                                assert(synapses@[sorted@[q] as int].remote_node@ != destination@);
                            }
                        }
                        assert(synapses@[best as int].remote_node@ == destination@);
                        assert(has_direct(synapses@, *scope, arrival, destination@));
                    }
                    let mut only: Vec<usize> = Vec::new();
                    only.push(best);
                    assert(only@[0] == best);
                    return only;
                }
                k = k + 1;
            }
            proof {
                assert(!has_direct(synapses@, *scope, arrival, destination@)) by {
                    if has_direct(synapses@, *scope, arrival, destination@) {
                        let c = choose|c: int| is_candidate(synapses@, *scope, arrival, c) && #[trigger] synapses@[c].remote_node@ == destination@;
                        assert(sorted@.contains(c as usize));
                        let q = choose|q: int| 0 <= q < sorted@.len() && sorted@[q] == c as usize;
                        assert(synapses@[sorted@[q] as int].remote_node@ != destination@);
                    }
                }
            }
            1
        },
        _ => config.max_fanout,
    };
    let ghost full = sorted@;
    sorted.truncate(limit);
    proof {
        let picks = sorted@;
        assert(picks =~= if limit < full.len() { full.take(limit as int) } else { full });
        assert forall|c: int| is_candidate(synapses@, *scope, arrival, c) && !picks.contains(c as usize) implies {
            &&& picks.len() == limit
            &&& forall|k: int| 0 <= k < picks.len() ==> ranks_before(scores@, #[trigger] picks[k] as int, c)
        } by {
            assert(full.contains(c as usize));
            let q = choose|q: int| 0 <= q < full.len() && full[q] == c as usize;
            if q < limit {
                assert(picks[q] == c as usize);
            }
            assert forall|k: int| 0 <= k < picks.len() implies ranks_before(scores@, #[trigger] picks[k] as int, c) by {
                assert(picks[k] == full[k]);
            }
        }
        assert forall|k: int| 0 <= k < picks.len() implies is_candidate(synapses@, *scope, arrival, #[trigger] picks[k] as int) by {
            assert(picks[k] == full[k]);
        }
        assert forall|k: int, l: int| 0 <= k < l < picks.len() implies ranks_before(scores@, #[trigger] picks[k] as int, #[trigger] picks[l] as int) by {
            assert(picks[k] == full[k] && picks[l] == full[l]);
        }
    }
    sorted
}

/// Select synapses for propagation, as `select_indices` does, and return
/// them rather than their indices.
pub fn select_synapses<'a>(
    synapses: &'a [Synapse],
    scores: &[u32],
    scope: &PropagationScope,
    arrival_synapse: Option<&str>,
    config: &PropagationConfig,
) -> (selected: Vec<&'a Synapse>)
    requires
        scores@.len() == synapses@.len(),
        scores_ordered(synapses@, scores@, *scope, arrival_text(arrival_synapse)),
    ensures
        exists|picks: Seq<usize>|
            {
                &&& is_selection(picks, synapses@, scores@, *scope, arrival_text(arrival_synapse), config.max_fanout as int)
                &&& selected@.len() == picks.len()
                &&& forall|k: int| 0 <= k < picks.len() ==> *selected@[k] == synapses@[#[trigger] picks[k] as int]
            },
        forall|k: int| 0 <= k < selected@.len() ==> (#[trigger] selected@[k]).state == SynapseState::Active,
        forall|k: int| 0 <= k < selected@.len() ==> (arrival_synapse matches Some(a) ==> (#[trigger] selected@[k]).id.0@ != a@),
{
    let picks = select_indices(synapses, scores, scope, arrival_synapse, config);
    proof {
        assert forall|k: int| 0 <= k < picks@.len() implies #[trigger] picks@[k] < synapses@.len() by {
            lemma_selection_in_range(picks@, synapses@, scores@, *scope, arrival_text(arrival_synapse), config.max_fanout as int, k);
        }
    }
    let mut selected: Vec<&'a Synapse> = Vec::new();
    let m = picks.len();
    let mut k: usize = 0;
    while k < m
        invariant
            m == picks@.len(),
            k <= m,
            forall|j: int| 0 <= j < picks@.len() ==> #[trigger] picks@[j] < synapses@.len(),
            selected@.len() == k,
            forall|j: int| 0 <= j < k ==> *selected@[j] == synapses@[#[trigger] picks@[j] as int],
        decreases m - k,
    {
        selected.push(&synapses[picks[k]]);
        k = k + 1;
    }
    assert forall|k: int| 0 <= k < selected@.len() implies (#[trigger] selected@[k]).state
        == SynapseState::Active && (arrival_synapse matches Some(a) ==> selected@[k].id.0@ != a@) by {
        assert(*selected@[k] == synapses@[picks@[k] as int]);
    }
    selected
}

/// Every selected index names a synapse.
proof fn lemma_selection_in_range(
    picks: Seq<usize>,
    synapses: Seq<Synapse>,
    scores: Seq<u32>,
    scope: PropagationScope,
    arrival: Option<Seq<char>>,
    max_fanout: int,
    k: int,
)
    requires
        is_selection(picks, synapses, scores, scope, arrival, max_fanout),
        0 <= k < picks.len(),
    ensures
        picks[k] < synapses.len(),
{
    match scope {
        PropagationScope::Targeted { destination } => {
            if has_direct(synapses, scope, arrival, destination@) {
                assert(k == 0);
            } else {
                assert(is_candidate(synapses, scope, arrival, picks[k] as int));
            }
        },
        _ => {
            assert(is_candidate(synapses, scope, arrival, picks[k] as int));
        },
    }
}

/// When two best-first prefixes of the candidates agree before position `k`,
/// the first one's entry at `k` does not rank above the second one's.
proof fn lemma_top_no_first_difference(
    p1: Seq<usize>,
    p2: Seq<usize>,
    synapses: Seq<Synapse>,
    scores: Seq<u32>,
    scope: PropagationScope,
    arrival: Option<Seq<char>>,
    limit1: int,
    limit2: int,
    k: int,
)
    requires
        is_top(p1, synapses, scores, scope, arrival, limit1),
        is_top(p2, synapses, scores, scope, arrival, limit2),
        0 <= k < p1.len(),
        k < p2.len(),
        forall|j: int| 0 <= j < k ==> p1[j] == p2[j],
    ensures
        !ranks_before(scores, p1[k] as int, p2[k] as int),
{
    if !ranks_before(scores, p1[k] as int, p2[k] as int) {
        return;
    }
    let x = p1[k];
    let y = p2[k];
    assert(is_candidate(synapses, scope, arrival, x as int));
    if p2.contains(x) {
        let j = choose|j: int| 0 <= j < p2.len() && p2[j] == x;
        if j < k {
            assert(p1[j] == x);
            assert(ranks_before(scores, p1[j] as int, p1[k] as int));
        } else if j > k {
            assert(ranks_before(scores, p2[k] as int, p2[j] as int));
        }
    } else {
        assert(ranks_before(scores, p2[k] as int, x as int));
    }
}

/// Two best-first prefixes that agree before position `k` agree on every
/// position both have.
proof fn lemma_top_agree_from(
    p1: Seq<usize>,
    p2: Seq<usize>,
    synapses: Seq<Synapse>,
    scores: Seq<u32>,
    scope: PropagationScope,
    arrival: Option<Seq<char>>,
    limit: int,
    k: int,
)
    requires
        is_top(p1, synapses, scores, scope, arrival, limit),
        is_top(p2, synapses, scores, scope, arrival, limit),
        0 <= k <= p1.len(),
        k <= p2.len(),
        forall|j: int| 0 <= j < k ==> p1[j] == p2[j],
    ensures
        forall|j: int| 0 <= j < p1.len() && j < p2.len() ==> p1[j] == p2[j],
    decreases p1.len() - k,
{
    if k < p1.len() && k < p2.len() {
        lemma_top_no_first_difference(p1, p2, synapses, scores, scope, arrival, limit, limit, k);
        lemma_top_no_first_difference(p2, p1, synapses, scores, scope, arrival, limit, limit, k);
        lemma_top_agree_from(p1, p2, synapses, scores, scope, arrival, limit, k + 1);
    }
}

/// The best-first prefix of a given length is unique.
proof fn lemma_top_unique(
    p1: Seq<usize>,
    p2: Seq<usize>,
    synapses: Seq<Synapse>,
    scores: Seq<u32>,
    scope: PropagationScope,
    arrival: Option<Seq<char>>,
    limit: int,
)
    requires
        is_top(p1, synapses, scores, scope, arrival, limit),
        is_top(p2, synapses, scores, scope, arrival, limit),
    ensures
        p1 == p2,
{
    let n = if p1.len() < p2.len() { p1.len() as int } else { p2.len() as int };
    lemma_top_agree_from(p1, p2, synapses, scores, scope, arrival, limit, 0);
    if p1.len() < p2.len() {
        let y = p2[n as int];
        assert(is_candidate(synapses, scope, arrival, y as int));
        if p1.contains(y) {
            let j = choose|j: int| 0 <= j < p1.len() && p1[j] == y;
            assert(p2[j] == y);
            assert(ranks_before(scores, p2[j] as int, p2[n as int] as int));
        }
    } else if p2.len() < p1.len() {
        let y = p1[n as int];
        assert(is_candidate(synapses, scope, arrival, y as int));
        if p2.contains(y) {
            let j = choose|j: int| 0 <= j < p2.len() && p2[j] == y;
            assert(p1[j] == y);
            assert(ranks_before(scores, p1[j] as int, p1[n as int] as int));
        }
    }
    assert(p1 =~= p2);
}

/// The selection is determined by its inputs: two index sequences that both
/// meet the selection's description are the same sequence.
pub proof fn lemma_selection_unique(
    p1: Seq<usize>,
    p2: Seq<usize>,
    synapses: Seq<Synapse>,
    scores: Seq<u32>,
    scope: PropagationScope,
    arrival: Option<Seq<char>>,
    max_fanout: int,
)
    requires
        is_selection(p1, synapses, scores, scope, arrival, max_fanout),
        is_selection(p2, synapses, scores, scope, arrival, max_fanout),
    ensures
        p1 == p2,
{
    match scope {
        PropagationScope::Flood { .. } => {
            lemma_top_unique(p1, p2, synapses, scores, scope, arrival, synapses.len() as int);
        },
        PropagationScope::Targeted { destination } => {
            if has_direct(synapses, scope, arrival, destination@) {
                let d1 = p1[0] as int;
                let d2 = p2[0] as int;
                if d1 != d2 {
                    assert(is_candidate(synapses, scope, arrival, d2));
                    assert(is_candidate(synapses, scope, arrival, d1));
                    assert(ranks_before(scores, d1, d2));
                    assert(ranks_before(scores, d2, d1));
                }
                assert(p1 =~= p2);
            } else {
                lemma_top_unique(p1, p2, synapses, scores, scope, arrival, 1);
            }
        },
        _ => {
            lemma_top_unique(p1, p2, synapses, scores, scope, arrival, max_fanout);
        },
    }
}

/// Distinct indices below `n`, `n` of them, take in every index below `n`.
proof fn lemma_distinct_indices_cover(picks: Seq<usize>, n: int, c: int)
    requires
        picks.len() == n,
        forall|k: int| 0 <= k < picks.len() ==> #[trigger] picks[k] < n,
        forall|k: int, l: int| 0 <= k < l < picks.len() ==> #[trigger] picks[k] != #[trigger] picks[l],
        0 <= c < n,
    ensures
        picks.contains(c as usize),
{
    if !picks.contains(c as usize) {
        let ip = picks.map_values(|x: usize| x as int);
        assert(ip.no_duplicates()) by {
            assert forall|i: int, j: int| 0 <= i < ip.len() && 0 <= j < ip.len() && i != j implies ip[i] != ip[j] by {
                if i < j {
                    assert(picks[i] != picks[j]);
                } else {
                    assert(picks[j] != picks[i]);
                }
            }
        }
        ip.unique_seq_to_set();
        let r = vstd::set_lib::set_int_range(0, n).remove(c);
        vstd::set_lib::lemma_int_range(0, n);
        assert(ip.to_set().subset_of(r)) by {
            assert forall|x: int| ip.to_set().contains(x) implies r.contains(x) by {
                assert(ip.contains(x));
                let k = choose|k: int| 0 <= k < ip.len() && ip[k] == x;
                assert(picks[k] < n);
                if x == c {
                    assert(picks[k] == c as usize);
                    assert(picks.contains(c as usize));
                }
            }
        }
        vstd::set_lib::lemma_len_subset(ip.to_set(), r);
    }
}

/// What every selection respects: each selected synapse is active, is not
/// the arrival synapse, and under a weighted scope weighs at least the
/// minimum; a flood takes every active synapse but the arrival one, and
/// weighted or gradient propagation leaves out such a synapse (passing the
/// weight floor) only when it has taken `max_fanout` others; no
/// synapse is selected twice; a targeted signal goes to at most
/// one synapse, and weighted or gradient propagation to at most
/// `max_fanout`.
pub proof fn lemma_selection_respects_scope(
    picks: Seq<usize>,
    synapses: Seq<Synapse>,
    scores: Seq<u32>,
    scope: PropagationScope,
    arrival: Option<Seq<char>>,
    max_fanout: int,
)
    requires
        is_selection(picks, synapses, scores, scope, arrival, max_fanout),
    ensures
        forall|k: int| 0 <= k < picks.len() ==> is_candidate(synapses, scope, arrival, #[trigger] picks[k] as int),
        forall|k: int| 0 <= k < picks.len() ==> #[trigger] picks[k] < synapses.len()
            && synapses[picks[k] as int].state == SynapseState::Active,
        forall|k: int| 0 <= k < picks.len() ==> (arrival matches Some(a) ==> synapses[#[trigger] picks[k] as int].id.0@ != a),
        forall|k: int| 0 <= k < picks.len() ==> (scope matches PropagationScope::Weighted { min_synapse_weight } ==> binary32::spec_le(
            min_synapse_weight,
            synapses[#[trigger] picks[k] as int].weight,
        )),
        scope is Flood ==> forall|c: int| 0 <= c < synapses.len() && synapses[c].state == SynapseState::Active
            && (arrival matches Some(a) ==> synapses[c].id.0@ != a) ==> #[trigger] picks.contains(c as usize),
        forall|c: int| 0 <= c < synapses.len() && synapses[c].state == SynapseState::Active && (arrival matches Some(a)
            ==> synapses[c].id.0@ != a) && (scope matches PropagationScope::Weighted { min_synapse_weight }
            ==> binary32::spec_le(min_synapse_weight, synapses[c].weight)) && !(scope is Targeted)
            && !#[trigger] picks.contains(c as usize) ==> picks.len() == (if scope is Flood { synapses.len() as int } else { max_fanout }),
        forall|k: int, l: int| 0 <= k < l < picks.len() ==> #[trigger] picks[k] != #[trigger] picks[l],
        scope is Targeted ==> picks.len() <= 1,
        (scope is Weighted || scope is Gradient) ==> picks.len() <= max_fanout,
{
    match scope {
        PropagationScope::Targeted { destination } => {
            if has_direct(synapses, scope, arrival, destination@) {
                assert forall|k: int| 0 <= k < picks.len() implies is_candidate(synapses, scope, arrival, #[trigger] picks[k] as int) by {
                    assert(k == 0);
                }
            }
        },
        _ => {},
    }
    assert forall|k: int, l: int| 0 <= k < l < picks.len() implies #[trigger] picks[k] != #[trigger] picks[l] by {
        assert(ranks_before(scores, picks[k] as int, picks[l] as int));
    }
    assert forall|k: int| 0 <= k < picks.len() implies #[trigger] picks[k] < synapses.len() by {
        assert(is_candidate(synapses, scope, arrival, picks[k] as int));
    }
    assert forall|c: int| 0 <= c < synapses.len() && synapses[c].state == SynapseState::Active && (arrival matches Some(a)
        ==> synapses[c].id.0@ != a) && (scope matches PropagationScope::Weighted { min_synapse_weight }
        ==> binary32::spec_le(min_synapse_weight, synapses[c].weight)) && !(scope is Targeted)
        && !#[trigger] picks.contains(c as usize) implies picks.len() == (if scope is Flood { synapses.len() as int } else { max_fanout }) by {
        assert(is_candidate(synapses, scope, arrival, c));
    }
    if scope is Flood {
        assert forall|c: int| 0 <= c < synapses.len() && synapses[c].state == SynapseState::Active
            && (arrival matches Some(a) ==> synapses[c].id.0@ != a) implies #[trigger] picks.contains(c as usize) by {
            assert(is_candidate(synapses, scope, arrival, c));
            if !picks.contains(c as usize) {
                lemma_distinct_indices_cover(picks, synapses.len() as int, c);
            }
        }
    }
}

} // verus!
