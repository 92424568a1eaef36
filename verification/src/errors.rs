//! The bridge's error taxonomy, the one-line message each error carries, and
//! the structured error envelope sent back to the peer.

use vstd::prelude::*;
use vstd::string::*;
use crate::escape::{json_escape, escape_json_text};

verus! {

/// Everything that can go wrong between decoding a request and relaying a
/// backend's answer.
#[derive(Debug, Clone, PartialEq)]
pub enum BridgeError {
    /// The backend executable could not be started.
    SpawnFailure,
    /// The request payload could not be serialized for the backend.
    EncodingFailure,
    /// The backend exited with a failure status; carries its error-pipe text.
    BackendFailure(String),
    /// The backend exited cleanly but its output was not structured; carries
    /// the parse diagnostic and the raw output text.
    MalformedBackendOutput(String, String),
    /// The envelope lacked a required field; carries the field name.
    MissingField(String),
    /// The envelope named an operation the bridge does not know.
    UnknownOperation(String),
    /// The inbound message was not a structured envelope at all.
    InvalidEnvelope(String),
    /// The transport failed; never surfaced to the peer, it ends the
    /// connection's loop instead.
    ConnectionError,
}

/// The one-line message text for an error, attributing it to its cause.
pub open spec fn message_of(e: BridgeError) -> Seq<char> {
    match e {
        BridgeError::SpawnFailure => "Failed to spawn backend process"@,
        BridgeError::EncodingFailure => "Failed to serialize request payload"@,
        BridgeError::BackendFailure(t) => "Process failed: "@ + t@,
        BridgeError::MalformedBackendOutput(d, _raw) => "Failed to parse backend output: "@ + d@,
        BridgeError::MissingField(f) => "Missing field: "@ + f@,
        BridgeError::UnknownOperation(n) => "Unknown operation: "@ + n@,
        BridgeError::InvalidEnvelope(d) => "Invalid JSON: "@ + d@,
        BridgeError::ConnectionError => "Connection error"@,
    }
}

/// The error envelope for a message: a JSON object with `status` `"error"`
/// and the message under `message`, escaped.
pub open spec fn error_envelope_text(msg: Seq<char>) -> Seq<char> {
    "{\"status\":\"error\",\"message\":\""@ + json_escape(msg) + "\"}"@
}

impl BridgeError {
    /// The one-line message text for this error.
    pub fn message(&self) -> (r: String)
        ensures
            r@ == message_of(*self),
    {
        match self {
            BridgeError::SpawnFailure => "Failed to spawn backend process".to_owned(),
            BridgeError::EncodingFailure => "Failed to serialize request payload".to_owned(),
            BridgeError::BackendFailure(t) => {
                let mut s = "Process failed: ".to_owned();
                s.append(t.as_str());
                s
            },
            BridgeError::MalformedBackendOutput(d, _raw) => {
                let mut s = "Failed to parse backend output: ".to_owned();
                s.append(d.as_str());
                s
            },
            BridgeError::MissingField(f) => {
                let mut s = "Missing field: ".to_owned();
                s.append(f.as_str());
                s
            },
            BridgeError::UnknownOperation(n) => {
                let mut s = "Unknown operation: ".to_owned();
                s.append(n.as_str());
                s
            },
            BridgeError::InvalidEnvelope(d) => {
                let mut s = "Invalid JSON: ".to_owned();
                s.append(d.as_str());
                s
            },
            BridgeError::ConnectionError => "Connection error".to_owned(),
        }
    }
}

/// Builds the error envelope sent to the peer for `e`.
pub fn response_for_error(e: &BridgeError) -> (r: String)
    ensures
        r@ == error_envelope_text(message_of(*e)),
{
    let msg = e.message();
    let escaped = escape_json_text(msg.as_str());
    let mut out = "{\"status\":\"error\",\"message\":\"".to_owned();
    out.append(escaped.as_str());
    out.append("\"}");
    proof {
        assert(out@ =~= error_envelope_text(message_of(*e)));
    }
    out
}

} // verus!
