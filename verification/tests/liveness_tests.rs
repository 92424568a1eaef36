use conicrypt_bridge::liveness::{gate_step, GateDecision, GatePolicy};

#[test]
fn gate_with_nothing_listening_exhausts_and_turns_fatal() {
    let p = GatePolicy::blocking();
    let mut saw_fatal = false;
    for attempt in 0..p.max_attempts {
        let d = gate_step(&p, attempt, false, false);
        assert_ne!(d, GateDecision::Ready);
        if attempt + 1 < p.max_attempts {
            assert_eq!(d, GateDecision::Retry);
        } else {
            assert_eq!(d, GateDecision::Fatal);
            saw_fatal = true;
        }
    }
    assert!(saw_fatal);
}

#[test]
fn blocking_gate_requires_both_services() {
    let p = GatePolicy::blocking();
    assert_eq!(gate_step(&p, 0, true, true), GateDecision::Ready);
    assert_eq!(gate_step(&p, 0, true, false), GateDecision::Retry);
    assert_eq!(gate_step(&p, 0, false, true), GateDecision::Retry);
    assert_eq!(gate_step(&p, 0, false, false), GateDecision::Retry);
}

#[test]
fn cooperative_gate_requires_only_the_render_service() {
    let p = GatePolicy::cooperative();
    assert_eq!(gate_step(&p, 0, false, true), GateDecision::Ready);
    assert_eq!(gate_step(&p, 0, true, true), GateDecision::Ready);
    assert_eq!(gate_step(&p, 0, true, false), GateDecision::Retry);
}

#[test]
fn shortened_timeout_is_fatal_on_first_failure() {
    let p = GatePolicy {
        require_core: true,
        max_attempts: 1,
    };
    assert_eq!(gate_step(&p, 0, false, false), GateDecision::Fatal);
    assert_eq!(gate_step(&p, 0, true, true), GateDecision::Ready);
}

#[test]
fn readiness_is_immediate_whatever_the_attempt() {
    let p = GatePolicy::blocking();
    assert_eq!(gate_step(&p, 29, true, true), GateDecision::Ready);
}
