//! The request router: decodes an inbound message into an operation name and
//! payload, picks the backend selector, and yields either the invocation to
//! perform or the error to report — it never throws past its boundary.

use vstd::prelude::*;
use vstd::string::*;
use vstd::pervasive::unreached;
use crate::errors::{BridgeError, message_of, error_envelope_text, response_for_error};
use crate::jsonio::{
    json_parsed, json_field, json_as_str, json_text, json_without, parse_json, get_field,
    value_as_str, value_to_text, without_field, error_text,
};
use crate::strutil::str_eq;

verus! {

/// Which backend execution strategy a request maps to.
#[derive(Clone, Copy, Debug, PartialEq, Eq, Structural)]
pub enum Selector {
    /// The conic-analysis path of the compute backend.
    Conic,
    /// The elliptic-curve simulation path of the compute backend.
    Ecc,
}

/// The command-line flag the backend executable is given for a selector.
pub open spec fn selector_flag(s: Selector) -> Seq<char> {
    match s {
        Selector::Conic => "--conic"@,
        Selector::Ecc => "--ecc"@,
    }
}

impl Selector {
    /// The command-line flag for this selector.
    pub fn flag(&self) -> (r: String)
        ensures
            r@ == selector_flag(*self),
    {
        match self {
            Selector::Conic => "--conic".to_owned(),
            Selector::Ecc => "--ecc".to_owned(),
        }
    }
}

/// The selector a request's operation name maps to, if any: the preferred
/// names and the legacy mode names are both accepted.
pub open spec fn spec_selector_for(op: Seq<char>) -> Option<Selector> {
    if op == "analyze_conic"@ || op == "conic"@ {
        Some(Selector::Conic)
    } else if op == "simulate_ecc"@ || op == "ecc"@ {
        Some(Selector::Ecc)
    } else {
        None
    }
}

/// Maps an operation name to its selector; unknown names map to nothing.
pub fn selector_for(op: &str) -> (r: Option<Selector>)
    ensures
        r == spec_selector_for(op@),
{
    if str_eq(op, "analyze_conic") || str_eq(op, "conic") {
        Some(Selector::Conic)
    } else if str_eq(op, "simulate_ecc") || str_eq(op, "ecc") {
        Some(Selector::Ecc)
    } else {
        None
    }
}

/// The operation name of a decoded envelope: the string under `operation`,
/// or, when that field is absent, the string under the legacy `mode`;
/// nothing when the field found is no string or neither field exists.
pub open spec fn spec_op_of(v: serde_json::Value) -> Option<Seq<char>> {
    match json_field(v, "operation"@) {
        Some(f) => json_as_str(f),
        None => match json_field(v, "mode"@) {
            Some(f) => json_as_str(f),
            None => None,
        },
    }
}

/// The payload of a decoded envelope: the member under `payload` in the
/// preferred shape, or the whole envelope minus the `mode` field in the
/// legacy shape.
pub open spec fn spec_payload_of(v: serde_json::Value) -> Option<serde_json::Value> {
    if json_field(v, "operation"@) is Some {
        json_field(v, "payload"@)
    } else {
        Some(json_without(v, "mode"@))
    }
}

/// One request ready for the process bridge: the backend selector and the
/// serialized payload fed to the backend's input pipe.
#[derive(Debug, Clone, PartialEq)]
pub struct Invocation {
    /// The backend execution strategy to use.
    pub selector: Selector,
    /// The serialized payload for the backend's input pipe.
    pub input: String,
}

/// What routing decided for one message.
#[derive(Debug, Clone, PartialEq)]
pub enum Routed {
    /// Dispatch to the process bridge.
    Invoke(Invocation),
    /// Do not dispatch; report this error instead.
    Reject(BridgeError),
}

/// When an invocation is the right outcome for a message: the text parsed,
/// the operation name mapped to the invocation's selector, and the payload
/// serialized to the invocation's input.
pub open spec fn invoke_ok(s: Seq<char>, inv: Invocation) -> bool {
    match json_parsed(s) {
        Some(v) => match spec_op_of(v) {
            Some(name) => match spec_payload_of(v) {
                Some(pv) => spec_selector_for(name) == Some(inv.selector) && inv.input@
                    == json_text(pv),
                None => false,
            },
            None => false,
        },
        None => false,
    }
}

/// Which rejection is the right outcome for a message: unparseable text is an
/// invalid envelope; a missing or non-string name misses `operation`; a
/// missing payload misses `payload`; an unmapped name is an unknown
/// operation. A fully decoded envelope is never rejected: serializing its
/// payload always succeeds, so the router owes it an invocation.
pub open spec fn reject_ok(s: Seq<char>, e: BridgeError) -> bool {
    match json_parsed(s) {
        None => e matches BridgeError::InvalidEnvelope(_),
        Some(v) => match spec_op_of(v) {
            None => e matches BridgeError::MissingField(f) && f@ == "operation"@,
            Some(name) => match spec_payload_of(v) {
                None => e matches BridgeError::MissingField(f) && f@ == "payload"@,
                Some(_pv) => match spec_selector_for(name) {
                    None => e matches BridgeError::UnknownOperation(n) && n@ == name,
                    Some(_sel) => false,
                },
            },
        },
    }
}

/// The router's whole contract: an invocation only as `invoke_ok` allows,
/// a rejection only as `reject_ok` allows.
pub open spec fn routed_ok(s: Seq<char>, r: Routed) -> bool {
    match r {
        Routed::Invoke(inv) => invoke_ok(s, inv),
        Routed::Reject(e) => reject_ok(s, e),
    }
}

/// Decodes one inbound message and decides its dispatch. Every code path
/// yields a decision; nothing is thrown past this boundary.
pub fn route_message(text: &str) -> (r: Routed)
    ensures
        routed_ok(text@, r),
{
    let v = match parse_json(text) {
        Ok(v) => v,
        Err(e) => {
            let d = error_text(&e);
            return Routed::Reject(BridgeError::InvalidEnvelope(d));
        },
    };
    let op_field = get_field(&v, "operation");
    let has_operation = op_field.is_some();
    let name_opt: Option<String> = match op_field {
        Some(f) => value_as_str(&f),
        None => match get_field(&v, "mode") {
            Some(f) => value_as_str(&f),
            None => None,
        },
    };
    let name = match name_opt {
        Some(n) => n,
        None => {
            return Routed::Reject(BridgeError::MissingField("operation".to_owned()));
        },
    };
    let payload: serde_json::Value = if has_operation {
        match get_field(&v, "payload") {
            Some(p) => p,
            None => {
                return Routed::Reject(BridgeError::MissingField("payload".to_owned()));
            },
        }
    } else {
        without_field(&v, "mode")
    };
    let sel = match selector_for(name.as_str()) {
        Some(s) => s,
        None => {
            return Routed::Reject(BridgeError::UnknownOperation(name));
        },
    };
    match value_to_text(&payload) {
        Ok(input) => Routed::Invoke(Invocation { selector: sel, input }),
        Err(_e) => unreached(),
    }
}

/// A fully decoded envelope — parseable, with a usable name, a payload and a
/// known operation — is always dispatched: the router owes the invocation,
/// carrying the mapped selector and the payload's canonical serialization.
pub proof fn lemma_valid_request_dispatched(s: Seq<char>, r: Routed)
    requires
        routed_ok(s, r),
        json_parsed(s) matches Some(v) && spec_op_of(v) matches Some(name) && spec_payload_of(
            v,
        ) is Some && spec_selector_for(name) is Some,
    ensures
        r matches Routed::Invoke(inv) && invoke_ok(s, inv),
{
}

/// An envelope with no usable operation or mode name is rejected with
/// `MissingField`, and the process bridge is never invoked for it.
pub proof fn lemma_missing_operation_never_invokes(s: Seq<char>, r: Routed)
    requires
        routed_ok(s, r),
        json_parsed(s) matches Some(v) && spec_op_of(v) is None,
    ensures
        r matches Routed::Reject(e) && e matches BridgeError::MissingField(f) && f@
            == "operation"@,
{
}

/// An envelope naming an unknown operation is rejected with
/// `UnknownOperation`, and no process is ever spawned for it.
pub proof fn lemma_unknown_operation_never_invokes(s: Seq<char>, r: Routed, name: Seq<char>)
    requires
        routed_ok(s, r),
        json_parsed(s) matches Some(v) && spec_op_of(v) == Some(name) && spec_payload_of(v)
            is Some,
        spec_selector_for(name) is None,
    ensures
        r matches Routed::Reject(e) && e matches BridgeError::UnknownOperation(n) && n@ == name,
{
}

/// The connection server's two handling behaviours, as one pluggable
/// choice: structured dispatch, or the raw diagnostic echo.
#[derive(Clone, Copy, Debug, PartialEq, Eq, Structural)]
pub enum HandlerMode {
    /// Decode the envelope and dispatch to a backend.
    Dispatch,
    /// Echo every message back, prefixed, without dispatching.
    Echo,
}

/// What the connection loop does with one message.
#[derive(Debug, Clone, PartialEq)]
pub enum Action {
    /// Send this text back on the same connection.
    Reply(String),
    /// Run this invocation on the process bridge, then send the outcome's
    /// response back.
    Invoke(Invocation),
}

/// The echo handler's response text.
pub open spec fn echo_text(s: Seq<char>) -> Seq<char> {
    "Echo: "@ + s
}

/// When an action is right for a dispatched message: an invocation as the
/// router allows, or the error envelope of a rejection the router allows.
pub open spec fn action_ok(s: Seq<char>, a: Action) -> bool {
    match a {
        Action::Invoke(inv) => invoke_ok(s, inv),
        Action::Reply(t) => exists|e: BridgeError|
            reject_ok(s, e) && t@ == error_envelope_text(message_of(e)),
    }
}

/// Handles one inbound text message under the chosen mode: echo replies with
/// the prefixed text; dispatch routes the envelope and either hands back the
/// invocation to run or the error envelope to send.
pub fn handle_text(mode: &HandlerMode, text: &str) -> (r: Action)
    ensures
        *mode matches HandlerMode::Echo ==> r matches Action::Reply(t) && t@ == echo_text(
            text@,
        ),
        *mode matches HandlerMode::Dispatch ==> action_ok(text@, r),
{
    match mode {
        HandlerMode::Echo => {
            let mut out = "Echo: ".to_owned();
            out.append(text);
            Action::Reply(out)
        },
        HandlerMode::Dispatch => match route_message(text) {
            Routed::Invoke(inv) => Action::Invoke(inv),
            Routed::Reject(e) => {
                let resp = response_for_error(&e);
                proof {
                    assert(reject_ok(text@, e) && resp@ == error_envelope_text(message_of(e)));
                }
                Action::Reply(resp)
            },
        },
    }
}

/// The notification sent to a peer the moment its connection is established.
pub fn connected_event_text() -> (r: String)
    ensures
        r@ == "{\"event\":\"connected\"}"@,
{
    "{\"event\":\"connected\"}".to_owned()
}

/// Shared state of the connection server. Nothing lives in it yet:
/// connections share only the immutable configuration snapshot.
#[derive(Clone, Debug)]
pub struct AppState {}

} // verus!
