use conicrypt_bridge::bridge::{
    interpret_outcome, response_for_outcome, ChildOutcome, CoreProcess,
};
use conicrypt_bridge::errors::BridgeError;

#[test]
fn core_process_keeps_its_mode_flag() {
    let p = CoreProcess::new("--conic".to_string());
    assert_eq!(p.mode, "--conic");
}

#[test]
fn clean_exit_with_structured_output_is_relayed_verbatim() {
    let o = ChildOutcome::Exited {
        exit_ok: true,
        stdout: "{\"type\":\"ellipse\",\"center\":[0,0]}".to_string(),
        stderr: String::new(),
    };
    let r = interpret_outcome(&o);
    assert_eq!(r, Ok("{\"type\":\"ellipse\",\"center\":[0,0]}".to_string()));
    assert_eq!(
        response_for_outcome(&o),
        "{\"type\":\"ellipse\",\"center\":[0,0]}"
    );
}

#[test]
fn failed_exit_carries_stderr_text() {
    let o = ChildOutcome::Exited {
        exit_ok: false,
        stdout: "{\"ignored\":true}".to_string(),
        stderr: "boom: bad input".to_string(),
    };
    let r = interpret_outcome(&o);
    assert_eq!(
        r,
        Err(BridgeError::BackendFailure("boom: bad input".to_string()))
    );
    assert_eq!(
        response_for_outcome(&o),
        "{\"status\":\"error\",\"message\":\"Process failed: boom: bad input\"}"
    );
}

#[test]
fn clean_exit_with_unstructured_output_is_malformed() {
    let o = ChildOutcome::Exited {
        exit_ok: true,
        stdout: "segmentation fault haiku".to_string(),
        stderr: String::new(),
    };
    match interpret_outcome(&o) {
        Err(BridgeError::MalformedBackendOutput(_diag, raw)) => {
            assert_eq!(raw, "segmentation fault haiku");
        }
        other => panic!("expected MalformedBackendOutput, got {:?}", other),
    }
}

#[test]
fn empty_output_on_success_is_a_parse_failure() {
    let o = ChildOutcome::Exited {
        exit_ok: true,
        stdout: String::new(),
        stderr: String::new(),
    };
    assert!(matches!(
        interpret_outcome(&o),
        Err(BridgeError::MalformedBackendOutput(_, _))
    ));
}

#[test]
fn spawn_failure_is_reported_as_such() {
    let r = interpret_outcome(&ChildOutcome::SpawnFailed);
    assert_eq!(r, Err(BridgeError::SpawnFailure));
    assert_eq!(
        response_for_outcome(&ChildOutcome::SpawnFailed),
        "{\"status\":\"error\",\"message\":\"Failed to spawn backend process\"}"
    );
}

#[test]
fn repeated_invocations_on_one_outcome_agree() {
    let o = ChildOutcome::Exited {
        exit_ok: true,
        stdout: "{\"value\":7}".to_string(),
        stderr: String::new(),
    };
    let r1 = interpret_outcome(&o);
    let r2 = interpret_outcome(&o);
    assert_eq!(r1, r2);
    assert_eq!(response_for_outcome(&o), response_for_outcome(&o));
}
