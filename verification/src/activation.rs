//! Activation model for NTL nodes.
//!
//! Replaces traditional rate limiting with biologically-inspired
//! threshold-based signal processing. Potentials and thresholds are binary32
//! bit patterns; the firing decisions are made here, and the binary32
//! arithmetic that produces a new potential or threshold is the caller's.

use vstd::prelude::*;

use crate::binary32;

verus! {

/// Activation function type.
#[derive(Debug, Clone, Copy, PartialEq, Eq, Structural)]
pub enum ActivationFunction {
    /// Binary: fires when potential >= threshold.
    Step,
    /// Probabilistic: firing probability increases smoothly.
    Sigmoid,
    /// Always passes a small fraction (leak rate = 0.01).
    Leaky,
}

impl Default for ActivationFunction {
    fn default() -> (r: Self)
        ensures
            r == ActivationFunction::Step,
    {
        ActivationFunction::Step
    }
}

/// Configuration for the activation model (thresholds and potentials are
/// binary32 bit patterns).
#[derive(Debug, Clone)]
pub struct ActivationConfig {
    /// Base activation threshold.
    pub base_threshold: u32,
    /// Activation function to use.
    pub activation_function: ActivationFunction,
    /// Refractory period in milliseconds.
    pub refractory_period_ms: u64,
    /// Maximum accumulated potential (prevents overflow).
    pub max_potential: u32,
    /// Whether to dynamically adjust threshold based on load.
    pub dynamic_threshold: bool,
}

impl ActivationConfig {
    /// The default configuration: threshold 0.5, step function, 10 ms
    /// refractory period, potential capped at 10.0, dynamic threshold on.
    pub open spec fn is_default(&self) -> bool {
        &&& self.base_threshold == binary32::HALF
        &&& self.activation_function == ActivationFunction::Step
        &&& self.refractory_period_ms == 10
        &&& self.max_potential == binary32::TEN
        &&& self.dynamic_threshold
    }
}

impl Default for ActivationConfig {
    fn default() -> (r: Self)
        ensures
            r.is_default(),
    {
        ActivationConfig {
            base_threshold: binary32::HALF,
            activation_function: ActivationFunction::Step,
            refractory_period_ms: 10,
            max_potential: binary32::TEN,
            dynamic_threshold: true,
        }
    }
}

/// Whether the activation function lets the node fire at this potential and
/// threshold. `chance` is the outcome of the function's random draw: for the
/// sigmoid, a uniform draw fell below `1 / (1 + exp(-10 (potential -
/// threshold)))`; for the leaky function, a uniform draw fell below 0.01.
pub open spec fn gate_opens(
    function: ActivationFunction,
    potential: u32,
    threshold: u32,
    chance: bool,
) -> bool {
    match function {
        ActivationFunction::Step => binary32::spec_le(threshold, potential),
        ActivationFunction::Sigmoid => chance,
        ActivationFunction::Leaky => binary32::spec_le(threshold, potential) || chance,
    }
}

/// Activation state for a node.
#[derive(Debug)]
pub struct ActivationState {
    potential: u32,
    threshold: u32,
    base_threshold: u32,
    refractory_until: u64,
    refractory_period_ns: u64,
    function: ActivationFunction,
    max_potential: u32,
    dynamic: bool,
    signals_fired: u64,
    signals_accumulated: u64,
}

impl ActivationState {
    /// Current accumulated potential.
    pub closed spec fn spec_potential(&self) -> u32 {
        self.potential
    }

    /// Current effective threshold.
    pub closed spec fn spec_threshold(&self) -> u32 {
        self.threshold
    }

    /// Base threshold (before dynamic adjustment).
    pub closed spec fn spec_base_threshold(&self) -> u32 {
        self.base_threshold
    }

    /// Nanosecond timestamp when the refractory period ends.
    pub closed spec fn spec_refractory_until(&self) -> u64 {
        self.refractory_until
    }

    /// Refractory duration in nanoseconds.
    pub closed spec fn spec_refractory_period_ns(&self) -> u64 {
        self.refractory_period_ns
    }

    /// Activation function.
    pub closed spec fn spec_function(&self) -> ActivationFunction {
        self.function
    }

    /// Maximum potential.
    pub closed spec fn spec_max_potential(&self) -> u32 {
        self.max_potential
    }

    /// Whether the threshold follows the load.
    pub closed spec fn spec_dynamic(&self) -> bool {
        self.dynamic
    }

    /// Number of times the node has fired.
    pub closed spec fn spec_fired(&self) -> u64 {
        self.signals_fired
    }

    /// Number of signals accumulated.
    pub closed spec fn spec_accumulated(&self) -> u64 {
        self.signals_accumulated
    }

    /// The two states share their configuration: base threshold, refractory
    /// period, function, maximum potential and dynamic flag.
    pub open spec fn same_config(&self, other: &ActivationState) -> bool {
        &&& self.spec_base_threshold() == other.spec_base_threshold()
        &&& self.spec_refractory_period_ns() == other.spec_refractory_period_ns()
        &&& self.spec_function() == other.spec_function()
        &&& self.spec_max_potential() == other.spec_max_potential()
        &&& self.spec_dynamic() == other.spec_dynamic()
    }

    /// The potential lies at or below the maximum potential, whenever that
    /// maximum is a number no lower than zero. Creation, accumulation,
    /// threshold adjustment and reset all keep this.
    pub open spec fn potential_within_max(&self) -> bool {
        !binary32::spec_is_nan(self.spec_max_potential()) && binary32::spec_le(
            binary32::ZERO,
            self.spec_max_potential(),
        ) ==> binary32::spec_le(self.spec_potential(), self.spec_max_potential())
    }

    /// Whether the node is refractory at the given time.
    pub open spec fn refractory_at(&self, now_ns: u64) -> bool {
        now_ns < self.spec_refractory_until()
    }

    /// Whether accumulating to `potential` at `now_ns` fires the node.
    pub open spec fn fires_at(&self, potential: u32, now_ns: u64, chance: bool) -> bool {
        !self.refractory_at(now_ns) && gate_opens(
            self.spec_function(),
            potential,
            self.spec_threshold(),
            chance,
        )
    }

    /// Create a new activation state from configuration: no potential, the
    /// base threshold in effect, not refractory, nothing counted.
    pub fn new(config: &ActivationConfig) -> (s: ActivationState)
        requires
            config.refractory_period_ms * 1_000_000 <= u64::MAX,
        ensures
            s.spec_potential() == binary32::ZERO,
            s.spec_threshold() == config.base_threshold,
            s.spec_base_threshold() == config.base_threshold,
            s.spec_refractory_until() == 0,
            s.spec_refractory_period_ns() == config.refractory_period_ms * 1_000_000,
            s.spec_function() == config.activation_function,
            s.spec_max_potential() == config.max_potential,
            s.spec_dynamic() == config.dynamic_threshold,
            s.spec_fired() == 0,
            s.spec_accumulated() == 0,
            s.potential_within_max(),
    {
        ActivationState {
            potential: binary32::ZERO,
            threshold: config.base_threshold,
            base_threshold: config.base_threshold,
            refractory_until: 0,
            refractory_period_ns: config.refractory_period_ms * 1_000_000,
            function: config.activation_function,
            max_potential: config.max_potential,
            dynamic: config.dynamic_threshold,
            signals_fired: 0,
            signals_accumulated: 0,
        }
    }

    /// The potential a sum is capped to: `f32::min(sum, max_potential)`.
    pub open spec fn capped(&self, sum: u32) -> u32 {
        binary32::spec_min(sum, self.spec_max_potential())
    }

    /// Cap a summed potential at the maximum potential (`f32::min`).
    pub fn capped_potential(&self, sum: u32) -> (p: u32)
        ensures
            p == self.capped(sum),
    {
        binary32::min(sum, self.max_potential)
    }

    /// Take in a signal's contribution at time `now_ns` (nanoseconds since
    /// the epoch). `sum` is the old potential plus signal weight times
    /// synapse weight, and `chance` the outcome of the activation function's
    /// random draw. The potential becomes the sum capped at the maximum
    /// potential and the signal is counted; a refractory node does not fire;
    /// otherwise the node fires when the activation function opens at the
    /// capped potential, which resets the potential, starts a refractory
    /// period and counts the firing. Returns whether the node fires.
    pub fn accumulate(&mut self, sum: u32, now_ns: u64, chance: bool) -> (fired: bool)
        requires
            old(self).spec_accumulated() < u64::MAX,
            old(self).fires_at(old(self).capped(sum), now_ns, chance) ==> old(self).spec_fired()
                < u64::MAX && now_ns + old(self).spec_refractory_period_ns() <= u64::MAX,
        ensures
            fired == old(self).fires_at(old(self).capped(sum), now_ns, chance),
            now_ns < old(self).spec_refractory_until() ==> !fired,
            now_ns >= old(self).spec_refractory_until() && old(self).spec_function() is Step ==> (
            fired <==> binary32::spec_le(old(self).spec_threshold(), old(self).capped(sum))),
            now_ns >= old(self).spec_refractory_until() && old(self).spec_function() is Sigmoid
                ==> fired == chance,
            now_ns >= old(self).spec_refractory_until() && old(self).spec_function() is Leaky ==> (
            fired <==> (binary32::spec_le(old(self).spec_threshold(), old(self).capped(sum))
                || chance)),
            final(self).spec_accumulated() == old(self).spec_accumulated() + 1,
            final(self).same_config(&*old(self)),
            final(self).spec_threshold() == old(self).spec_threshold(),
            fired ==> final(self).spec_potential() == binary32::ZERO,
            fired ==> final(self).spec_refractory_until() == now_ns + old(
                self,
            ).spec_refractory_period_ns(),
            fired ==> final(self).spec_fired() == old(self).spec_fired() + 1,
            !fired ==> final(self).spec_potential() == old(self).capped(sum),
            !fired ==> final(self).spec_refractory_until() == old(self).spec_refractory_until(),
            !fired ==> final(self).spec_fired() == old(self).spec_fired(),
            final(self).potential_within_max(),
    {
        proof {
            binary32::lemma_min_within_bound(sum, self.max_potential);
        }
        let potential = self.capped_potential(sum);
        let fires = self.would_fire(potential, now_ns, chance);
        self.potential = potential;
        self.signals_accumulated = self.signals_accumulated + 1;
        if fires {
            self.fire(now_ns);
        }
        fires
    }

    /// Whether accumulating to `potential` at `now_ns`, with `chance` as the
    /// outcome of the random draw, fires the node: it is not refractory and
    /// the activation function opens at that potential.
    pub fn would_fire(&self, potential: u32, now_ns: u64, chance: bool) -> (fires: bool)
        ensures
            fires == self.fires_at(potential, now_ns, chance),
            now_ns < self.spec_refractory_until() ==> !fires,
            now_ns >= self.spec_refractory_until() && self.spec_function() is Step ==> (fires
                <==> binary32::spec_le(self.spec_threshold(), potential)),
            now_ns >= self.spec_refractory_until() && self.spec_function() is Sigmoid ==> fires
                == chance,
            now_ns >= self.spec_refractory_until() && self.spec_function() is Leaky ==> (fires
                <==> (binary32::spec_le(self.spec_threshold(), potential) || chance)),
    {
        if self.in_refractory(now_ns) {
            return false;
        }
        self.evaluate(potential, chance)
    }

    /// Evaluate the activation function.
    fn evaluate(&self, potential: u32, chance: bool) -> (opens: bool)
        ensures
            opens == gate_opens(self.function, potential, self.threshold, chance),
    {
        match self.function {
            ActivationFunction::Step => binary32::le(self.threshold, potential),
            ActivationFunction::Sigmoid => chance,
            ActivationFunction::Leaky => {
                if binary32::le(self.threshold, potential) {
                    true
                } else {
                    chance
                }
            },
        }
    }

    /// Fire the activation gate.
    fn fire(&mut self, now_ns: u64)
        requires
            old(self).signals_fired < u64::MAX,
            now_ns + old(self).refractory_period_ns <= u64::MAX,
        ensures
            final(self).potential == binary32::ZERO,
            final(self).refractory_until == now_ns + old(self).refractory_period_ns,
            final(self).signals_fired == old(self).signals_fired + 1,
            final(self).threshold == old(self).threshold,
            final(self).signals_accumulated == old(self).signals_accumulated,
            final(self).same_config(&*old(self)),
    {
        self.potential = binary32::ZERO;
        self.refractory_until = now_ns + self.refractory_period_ns;
        self.signals_fired = self.signals_fired + 1;
    }

    /// Check if the node is in its refractory period.
    fn in_refractory(&self, now_ns: u64) -> (refractory: bool)
        ensures
            refractory == self.refractory_at(now_ns),
    {
        now_ns < self.refractory_until
    }

    /// Put a load-adjusted threshold in effect, when the threshold is
    /// dynamic; `adjusted` is the base threshold times one plus the load
    /// factor.
    pub fn adjust_threshold(&mut self, adjusted: u32)
        ensures
            final(self).spec_threshold() == (if old(self).spec_dynamic() {
                adjusted
            } else {
                old(self).spec_threshold()
            }),
            final(self).spec_potential() == old(self).spec_potential(),
            final(self).spec_refractory_until() == old(self).spec_refractory_until(),
            final(self).spec_fired() == old(self).spec_fired(),
            final(self).spec_accumulated() == old(self).spec_accumulated(),
            final(self).same_config(&*old(self)),
            old(self).potential_within_max() ==> final(self).potential_within_max(),
    {
        if self.dynamic {
            self.threshold = adjusted;
        }
    }

    /// Get the current potential.
    pub fn potential(&self) -> (p: u32)
        ensures
            p == self.spec_potential(),
    {
        self.potential
    }

    /// Get the current effective threshold.
    pub fn threshold(&self) -> (t: u32)
        ensures
            t == self.spec_threshold(),
    {
        self.threshold
    }

    /// Get the base threshold.
    pub fn base_threshold(&self) -> (t: u32)
        ensures
            t == self.spec_base_threshold(),
    {
        self.base_threshold
    }

    /// Get the maximum potential.
    pub fn max_potential(&self) -> (m: u32)
        ensures
            m == self.spec_max_potential(),
    {
        self.max_potential
    }

    /// Get the activation function.
    pub fn function(&self) -> (f: ActivationFunction)
        ensures
            f == self.spec_function(),
    {
        self.function
    }

    /// Get the number of signals accumulated.
    pub fn accumulated_count(&self) -> (n: u64)
        ensures
            n == self.spec_accumulated(),
    {
        self.signals_accumulated
    }

    /// Get the refractory period in nanoseconds.
    pub fn refractory_period_ns(&self) -> (n: u64)
        ensures
            n == self.spec_refractory_period_ns(),
    {
        self.refractory_period_ns
    }

    /// Get the number of times this node has fired.
    pub fn fire_count(&self) -> (n: u64)
        ensures
            n == self.spec_fired(),
    {
        self.signals_fired
    }

    /// Reset the activation state: no potential, the base threshold in
    /// effect, not refractory, nothing counted.
    pub fn reset(&mut self)
        ensures
            final(self).spec_potential() == binary32::ZERO,
            final(self).spec_threshold() == old(self).spec_base_threshold(),
            final(self).spec_refractory_until() == 0,
            final(self).spec_fired() == 0,
            final(self).spec_accumulated() == 0,
            final(self).same_config(&*old(self)),
            final(self).potential_within_max(),
    {
        self.potential = binary32::ZERO;
        self.threshold = self.base_threshold;
        self.refractory_until = 0;
        self.signals_fired = 0;
        self.signals_accumulated = 0;
    }
}


/// The firing decision is taken against the threshold in effect, which is
/// the load-adjusted one when the threshold is dynamic: a refractory node
/// never fires; outside the refractory period a step node fires exactly
/// when its potential reaches the effective threshold, a sigmoid node as its
/// random draw decides, and a leaky node when the potential reaches the
/// threshold or else as its draw decides. So a potential below a raised
/// threshold never fires a step node, and raising the threshold through
/// `adjust_threshold` changes exactly that comparison.
pub proof fn lemma_fires_against_effective_threshold(
    s: ActivationState,
    potential: u32,
    now_ns: u64,
    chance: bool,
)
    ensures
        now_ns < s.spec_refractory_until() ==> !s.fires_at(potential, now_ns, chance),
        now_ns >= s.spec_refractory_until() && s.spec_function() is Step ==> (s.fires_at(
            potential,
            now_ns,
            chance,
        ) <==> binary32::spec_le(s.spec_threshold(), potential)),
        now_ns >= s.spec_refractory_until() && s.spec_function() is Sigmoid ==> (s.fires_at(
            potential,
            now_ns,
            chance,
        ) == chance),
        now_ns >= s.spec_refractory_until() && s.spec_function() is Leaky ==> (s.fires_at(
            potential,
            now_ns,
            chance,
        ) <==> (binary32::spec_le(s.spec_threshold(), potential) || chance)),
{
}

} // verus!
