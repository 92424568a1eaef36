//! The liveness gate's decision logic: bounded polling of the downstream
//! services before the bridge starts accepting connections. The policy —
//! whether both services must be reachable or the render service alone — is
//! an explicit choice, not an accident of one variant.

use vstd::prelude::*;

verus! {

/// How the startup gate polls: which services it requires, and how many
/// attempts it makes before giving up.
#[derive(Clone, Copy, Debug, PartialEq, Eq, Structural)]
pub struct GatePolicy {
    /// Whether the compute service must also be reachable; the render
    /// service always must.
    pub require_core: bool,
    /// Upper bound on the number of polling rounds.
    pub max_attempts: u32,
}

/// Outcome of one polling round.
#[derive(Clone, Copy, Debug, PartialEq, Eq, Structural)]
pub enum GateDecision {
    /// The required services are reachable; the bridge may start.
    Ready,
    /// Not reachable yet; probe again after the fixed delay.
    Retry,
    /// The attempts are exhausted; startup must terminate the process.
    Fatal,
}

/// When one probe satisfies a policy: the render service is up, and the
/// compute service too where the policy requires it.
pub open spec fn gate_satisfied(p: GatePolicy, core_up: bool, plotter_up: bool) -> bool {
    plotter_up && (p.require_core ==> core_up)
}

impl GatePolicy {
    /// The symmetric startup gate: both downstream services must be
    /// reachable, within thirty two-second attempts.
    pub fn blocking() -> (p: GatePolicy)
        ensures
            p == (GatePolicy { require_core: true, max_attempts: 30u32 }),
    {
        GatePolicy { require_core: true, max_attempts: 30 }
    }

    /// The asymmetric cooperative gate: only the render service must be
    /// reachable, within thirty two-second attempts.
    pub fn cooperative() -> (p: GatePolicy)
        ensures
            p == (GatePolicy { require_core: false, max_attempts: 30u32 }),
    {
        GatePolicy { require_core: false, max_attempts: 30 }
    }
}

/// Decides what follows one probe: ready the instant the required services
/// are reachable, a retry while attempts remain, and fatal exhaustion on the
/// last failed attempt. `attempt` counts from zero.
pub fn gate_step(p: &GatePolicy, attempt: u32, core_up: bool, plotter_up: bool) -> (d:
    GateDecision)
    ensures
        d matches GateDecision::Ready <==> gate_satisfied(*p, core_up, plotter_up),
        !gate_satisfied(*p, core_up, plotter_up) && attempt + 1 < p.max_attempts ==> d matches
            GateDecision::Retry,
        !gate_satisfied(*p, core_up, plotter_up) && attempt + 1 >= p.max_attempts ==> d matches
            GateDecision::Fatal,
{
    if plotter_up && (!p.require_core || core_up) {
        GateDecision::Ready
    } else if (attempt as u64) + 1 < (p.max_attempts as u64) {
        GateDecision::Retry
    } else {
        GateDecision::Fatal
    }
}

/// A gate probing services that are never reachable is never ready: it
/// retries while attempts remain and is fatal from the last attempt on.
pub proof fn lemma_gate_exhaustion(p: GatePolicy, attempt: u32, d: GateDecision)
    requires
        d matches GateDecision::Ready <==> gate_satisfied(p, false, false),
        !gate_satisfied(p, false, false) && attempt + 1 < p.max_attempts ==> d matches
            GateDecision::Retry,
        !gate_satisfied(p, false, false) && attempt + 1 >= p.max_attempts ==> d matches
            GateDecision::Fatal,
    ensures
        !(d matches GateDecision::Ready),
        attempt + 1 >= p.max_attempts ==> d matches GateDecision::Fatal,
{
}

} // verus!
