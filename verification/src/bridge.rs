//! The process bridge's decision logic: what one observed run of the backend
//! executable means — success relayed verbatim, failure attributed to its
//! cause — and the response text sent for it.

use vstd::prelude::*;
use crate::errors::{BridgeError, message_of, error_envelope_text, response_for_error};
use crate::jsonio::{json_parsed, parse_json, error_text};

verus! {

/// One request-to-subprocess dispatch: holds the mode flag the shared
/// backend executable is started with.
pub struct CoreProcess {
    /// The command-line flag selecting the backend's mode.
    pub mode: String,
}

impl CoreProcess {
    /// A dispatch handle for the given mode flag.
    pub fn new(mode: String) -> (p: CoreProcess)
        ensures
            p.mode == mode,
    {
        CoreProcess { mode }
    }
}

/// Everything the bridge observes of one backend run.
#[derive(Debug, Clone, PartialEq)]
pub enum ChildOutcome {
    /// The executable could not be started at all.
    SpawnFailed,
    /// The child ran to termination.
    Exited {
        /// Whether the exit status indicated success.
        exit_ok: bool,
        /// Everything the child wrote to its output pipe.
        stdout: String,
        /// Everything the child wrote to its error pipe.
        stderr: String,
    },
}

/// The relayed output for an outcome, when the run succeeded: the child
/// exited cleanly and its output parses as a structured value, which is then
/// relayed verbatim. Anything else yields nothing here and an error instead.
pub open spec fn bridge_success(o: ChildOutcome) -> Option<Seq<char>> {
    match o {
        ChildOutcome::Exited { exit_ok, stdout, stderr: _ } => if exit_ok && json_parsed(
            stdout@,
        ) is Some {
            Some(stdout@)
        } else {
            None
        },
        ChildOutcome::SpawnFailed => None,
    }
}

/// What interpreting an outcome must yield: success exactly as
/// `bridge_success` says, a spawn failure for a child that never ran, the
/// error-pipe text for a failed exit, and a malformed-output error carrying
/// the raw text for clean exits whose output does not parse.
pub open spec fn interpreted_ok(o: ChildOutcome, r: Result<String, BridgeError>) -> bool {
    &&& (r matches Ok(out) ==> bridge_success(o) == Some(out@))
    &&& (bridge_success(o) matches Some(t) ==> (r matches Ok(out) && out@ == t))
    &&& (o matches ChildOutcome::SpawnFailed ==> (r matches Err(e) && e matches
        BridgeError::SpawnFailure))
    &&& (o matches ChildOutcome::Exited { exit_ok: false, stdout: _, stderr } ==> (r matches Err(
        e,
    ) && e matches BridgeError::BackendFailure(t) && t@ == stderr@))
    &&& (o matches ChildOutcome::Exited { exit_ok: true, stdout, stderr: _ } ==> (json_parsed(
        stdout@,
    ) is None ==> (r matches Err(e) && e matches BridgeError::MalformedBackendOutput(
        _,
        raw,
    ) && raw@ == stdout@)))
}

/// Enforces the bridge's success and failure semantics on one observed
/// backend run. A failed exit always yields `BackendFailure` carrying the
/// error-pipe text; a clean exit whose output is not structured — an empty
/// output among them — yields `MalformedBackendOutput`, never a success.
pub fn interpret_outcome(o: &ChildOutcome) -> (r: Result<String, BridgeError>)
    ensures
        interpreted_ok(*o, r),
{
    match o {
        ChildOutcome::SpawnFailed => Err(BridgeError::SpawnFailure),
        ChildOutcome::Exited { exit_ok, stdout, stderr } => {
            if !*exit_ok {
                Err(BridgeError::BackendFailure(stderr.clone()))
            } else {
                match parse_json(stdout.as_str()) {
                    Ok(_v) => Ok(stdout.clone()),
                    Err(e) => {
                        let d = error_text(&e);
                        Err(BridgeError::MalformedBackendOutput(d, stdout.clone()))
                    },
                }
            }
        },
    }
}

/// Invocation is idempotent in effect observation: two interpretations of
/// the same observed outcome agree — both relay the same output, or both
/// fail with the same kind of error. With a deterministic backend, repeated
/// invocations on one payload therefore yield the same structured result.
pub proof fn lemma_interpret_deterministic(
    o: ChildOutcome,
    r1: Result<String, BridgeError>,
    r2: Result<String, BridgeError>,
)
    requires
        interpreted_ok(o, r1),
        interpreted_ok(o, r2),
    ensures
        r1 is Ok <==> r2 is Ok,
        r1 matches Ok(a) ==> (r2 matches Ok(b) && a@ == b@),
        r1 matches Err(BridgeError::SpawnFailure) <==> r2 matches Err(BridgeError::SpawnFailure),
        r1 matches Err(BridgeError::BackendFailure(_)) <==> r2 matches Err(
            BridgeError::BackendFailure(_),
        ),
        r1 matches Err(BridgeError::MalformedBackendOutput(_, _)) <==> r2 matches Err(
            BridgeError::MalformedBackendOutput(_, _),
        ),
{
}

/// The response text sent to the peer for one observed backend run: the
/// backend's structured output verbatim on success, the error envelope for
/// the failure otherwise.
pub fn response_for_outcome(o: &ChildOutcome) -> (r: String)
    ensures
        bridge_success(*o) matches Some(t) ==> r@ == t,
        *o matches ChildOutcome::SpawnFailed ==> r@ == error_envelope_text(
            message_of(BridgeError::SpawnFailure),
        ),
        *o matches ChildOutcome::Exited { exit_ok: false, stdout: _, stderr } ==> r@
            == error_envelope_text(message_of(BridgeError::BackendFailure(stderr))),
        *o matches ChildOutcome::Exited { exit_ok: true, stdout, stderr: _ } ==> (json_parsed(
            stdout@,
        ) is None ==> exists|d: Seq<char>|
            r@ == error_envelope_text("Failed to parse backend output: "@ + d)),
{
    match interpret_outcome(o) {
        Ok(out) => out,
        Err(e) => {
            let resp = response_for_error(&e);
            proof {
                if let BridgeError::MalformedBackendOutput(d, _raw) = e {
                    assert(message_of(e) == "Failed to parse backend output: "@ + d@);
                }
            }
            resp
        },
    }
}

} // verus!
