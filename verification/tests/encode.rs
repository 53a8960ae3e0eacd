use tonapi::encode::encode_envelope;
use tonapi::websocket::{SubscribeTrace, WebSocketMethod, WebSocketMethodRequestBody};

#[test]
fn envelope_has_fixed_member_order_and_values() {
    let params = vec!["A".to_string(), "B".to_string()];
    let text = encode_envelope(0, "2.0", "subscribe_trace", &params);
    assert_eq!(
        text,
        "{\"id\":0,\"jsonrpc\":\"2.0\",\"method\":\"subscribe_trace\",\"params\":[\"A\",\"B\"]}"
    );
}

#[test]
fn envelope_with_no_params_has_empty_array() {
    let params: Vec<String> = Vec::new();
    let text = encode_envelope(7, "2.0", "ping", &params);
    assert_eq!(text, "{\"id\":7,\"jsonrpc\":\"2.0\",\"method\":\"ping\",\"params\":[]}");
}

#[test]
fn envelope_renders_large_ids_in_decimal() {
    let params: Vec<String> = Vec::new();
    let text = encode_envelope(18446744073709551615, "2.0", "m", &params);
    assert_eq!(
        text,
        "{\"id\":18446744073709551615,\"jsonrpc\":\"2.0\",\"method\":\"m\",\"params\":[]}"
    );
}

#[test]
fn envelope_escapes_string_content() {
    let params = vec!["a\"b\\c\nd".to_string(), "tab\there".to_string()];
    let text = encode_envelope(1, "2.0", "m", &params);
    assert_eq!(
        text,
        "{\"id\":1,\"jsonrpc\":\"2.0\",\"method\":\"m\",\"params\":[\"a\\\"b\\\\c\\nd\",\"tab\\there\"]}"
    );
}

#[test]
fn envelope_agrees_with_reference_json_serializer() {
    // Round-tripping through serde_json must reproduce the envelope exactly:
    // the member names are already in serde_json's canonical (sorted) order,
    // and the escaping rules match.
    let params = vec![
        "plain".to_string(),
        "quote\"backslash\\".to_string(),
        "ctl\u{1}\u{1f}end".to_string(),
        "bell\u{8}form\u{c}feed".to_string(),
        "unicode \u{00e9}\u{4e16}".to_string(),
        "del\u{7f}del".to_string(),
    ];
    let text = encode_envelope(42, "2.0", "subscribe_trace", &params);
    let reparsed: serde_json::Value = serde_json::from_str(&text).expect("envelope must be valid JSON");
    let reference = serde_json::to_string(&reparsed).expect("serialization of a value cannot fail");
    assert_eq!(text, reference);
    assert_eq!(reparsed["id"], serde_json::Value::from(42u64));
    assert_eq!(reparsed["params"][1], serde_json::Value::from("quote\"backslash\\"));
}

#[test]
fn request_body_encode_uses_its_fields() {
    let body = WebSocketMethodRequestBody {
        id: 3,
        jsonrpc: "2.0".to_string(),
        method: "subscribe_trace".to_string(),
        params: vec!["A".to_string(), "B".to_string()],
    };
    assert_eq!(
        body.encode(),
        "{\"id\":3,\"jsonrpc\":\"2.0\",\"method\":\"subscribe_trace\",\"params\":[\"A\",\"B\"]}"
    );
}

#[test]
fn subscribe_trace_declares_its_shape() {
    let sub = SubscribeTrace { accounts: vec!["A".to_string(), "B".to_string()] };
    assert_eq!(sub.jsonrpc(), "2.0");
    assert_eq!(sub.method(), "subscribe_trace");
    assert_eq!(sub.params(), vec!["A".to_string(), "B".to_string()]);
}
