use conicrypt_bridge::errors::{response_for_error, BridgeError};
use conicrypt_bridge::escape::escape_json_text;

#[test]
fn plain_text_passes_through() {
    assert_eq!(escape_json_text("hello world"), "hello world");
    assert_eq!(escape_json_text(""), "");
}

#[test]
fn quotes_and_backslashes_are_escaped() {
    assert_eq!(escape_json_text("say \"hi\""), "say \\\"hi\\\"");
    assert_eq!(escape_json_text("a\\b"), "a\\\\b");
}

#[test]
fn named_control_characters_use_short_escapes() {
    assert_eq!(escape_json_text("a\nb\rc\td"), "a\\nb\\rc\\td");
    assert_eq!(escape_json_text("\u{8}\u{c}"), "\\b\\f");
}

#[test]
fn other_control_characters_use_unicode_escapes() {
    assert_eq!(escape_json_text("\u{1}"), "\\u0001");
    assert_eq!(escape_json_text("\u{1f}"), "\\u001f");
    assert_eq!(escape_json_text("x\u{0}y"), "x\\u0000y");
}

#[test]
fn multibyte_text_passes_through() {
    assert_eq!(escape_json_text("señal ⚠"), "señal ⚠");
}

#[test]
fn error_envelopes_escape_embedded_message_text() {
    let e = BridgeError::UnknownOperation("x\"y".to_string());
    assert_eq!(
        response_for_error(&e),
        "{\"status\":\"error\",\"message\":\"Unknown operation: x\\\"y\"}"
    );
}

#[test]
fn error_envelopes_escape_backend_newlines() {
    let e = BridgeError::BackendFailure("line one\nline two".to_string());
    assert_eq!(
        response_for_error(&e),
        "{\"status\":\"error\",\"message\":\"Process failed: line one\\nline two\"}"
    );
}
