use conicrypt_bridge::errors::BridgeError;
use conicrypt_bridge::router::{
    connected_event_text, handle_text, route_message, selector_for, Action, HandlerMode,
    Invocation, Routed, Selector,
};

#[test]
fn routes_preferred_shape_to_conic() {
    let r = route_message("{\"operation\":\"analyze_conic\",\"payload\":{\"a\":1,\"b\":2,\"c\":-3}}");
    assert_eq!(
        r,
        Routed::Invoke(Invocation {
            selector: Selector::Conic,
            input: "{\"a\":1,\"b\":2,\"c\":-3}".to_string(),
        })
    );
}

#[test]
fn routes_legacy_mode_with_empty_payload() {
    let r = route_message("{\"mode\":\"ecc\"}");
    assert_eq!(
        r,
        Routed::Invoke(Invocation {
            selector: Selector::Ecc,
            input: "{}".to_string(),
        })
    );
}

#[test]
fn legacy_payload_is_envelope_minus_mode() {
    let r = route_message("{\"mode\":\"conic\",\"a\":1}");
    assert_eq!(
        r,
        Routed::Invoke(Invocation {
            selector: Selector::Conic,
            input: "{\"a\":1}".to_string(),
        })
    );
}

#[test]
fn missing_operation_is_rejected() {
    let r = route_message("{}");
    assert_eq!(
        r,
        Routed::Reject(BridgeError::MissingField("operation".to_string()))
    );
}

#[test]
fn non_string_operation_is_rejected() {
    let r = route_message("{\"operation\":42,\"payload\":{}}");
    assert_eq!(
        r,
        Routed::Reject(BridgeError::MissingField("operation".to_string()))
    );
}

#[test]
fn missing_payload_is_rejected() {
    let r = route_message("{\"operation\":\"analyze_conic\"}");
    assert_eq!(
        r,
        Routed::Reject(BridgeError::MissingField("payload".to_string()))
    );
}

#[test]
fn unknown_operation_is_rejected() {
    let r = route_message("{\"operation\":\"frobnicate\",\"payload\":{}}");
    assert_eq!(
        r,
        Routed::Reject(BridgeError::UnknownOperation("frobnicate".to_string()))
    );
}

#[test]
fn invalid_json_is_rejected() {
    let r = route_message("this is not an envelope");
    assert!(matches!(r, Routed::Reject(BridgeError::InvalidEnvelope(_))));
}

#[test]
fn selector_names_cover_both_shapes() {
    assert_eq!(selector_for("analyze_conic"), Some(Selector::Conic));
    assert_eq!(selector_for("conic"), Some(Selector::Conic));
    assert_eq!(selector_for("simulate_ecc"), Some(Selector::Ecc));
    assert_eq!(selector_for("ecc"), Some(Selector::Ecc));
    assert_eq!(selector_for("other"), None);
    assert_eq!(selector_for(""), None);
}

#[test]
fn selector_flags_match_backend_contract() {
    assert_eq!(Selector::Conic.flag(), "--conic");
    assert_eq!(Selector::Ecc.flag(), "--ecc");
}

#[test]
fn echo_mode_replies_with_prefixed_text() {
    let a = handle_text(&HandlerMode::Echo, "hello there");
    assert_eq!(a, Action::Reply("Echo: hello there".to_string()));
}

#[test]
fn dispatch_mode_wraps_rejections_in_error_envelopes() {
    let a = handle_text(
        &HandlerMode::Dispatch,
        "{\"operation\":\"frobnicate\",\"payload\":{}}",
    );
    assert_eq!(
        a,
        Action::Reply(
            "{\"status\":\"error\",\"message\":\"Unknown operation: frobnicate\"}".to_string()
        )
    );
}

#[test]
fn dispatch_mode_hands_back_invocations() {
    let a = handle_text(&HandlerMode::Dispatch, "{\"mode\":\"ecc\"}");
    assert_eq!(
        a,
        Action::Invoke(Invocation {
            selector: Selector::Ecc,
            input: "{}".to_string(),
        })
    );
}

#[test]
fn connected_event_is_sent_verbatim() {
    assert_eq!(connected_event_text(), "{\"event\":\"connected\"}");
}
