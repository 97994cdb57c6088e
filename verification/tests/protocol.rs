use cdp_lite::json::quote_json;
use cdp_lite::protocol::{NoParams, WsCommand, WsResponse};
use serde_json::Value;

fn parse(text: &str) -> Value {
    serde_json::from_str(text).expect("the command must be valid JSON")
}

#[test]
fn command_without_session_keeps_legacy_wire_format() {
    let cmd = WsCommand {
        id: 7,
        method: "Page.navigate".to_string(),
        params: Some(r#"{"url":"about:blank"}"#.to_string()),
        session_id: None,
    };

    let encoded = parse(&cmd.to_json());

    assert_eq!(
        encoded,
        parse(r#"{"id":7,"method":"Page.navigate","params":{"url":"about:blank"}}"#),
        "a session-less command must not gain any new field",
    );
}

#[test]
fn command_with_session_carries_session_id() {
    let cmd = WsCommand {
        id: 8,
        method: "Page.navigate".to_string(),
        params: Some(r#"{"url":"about:blank"}"#.to_string()),
        session_id: Some("SESSION-42".to_string()),
    };

    let encoded = parse(&cmd.to_json());

    assert_eq!(encoded["sessionId"], "SESSION-42");
}

#[test]
fn command_without_params_still_omits_params() {
    let cmd = WsCommand {
        id: 1,
        method: "Target.getTargets".to_string(),
        params: None,
        session_id: None,
    };

    let encoded = parse(&cmd.to_json());

    assert_eq!(encoded, parse(r#"{ "id": 1, "method": "Target.getTargets" }"#));
}

#[test]
fn command_text_is_exact() {
    let cmd = WsCommand {
        id: 12345,
        method: "Runtime.evaluate".to_string(),
        params: Some(NoParams.to_json()),
        session_id: Some("S\"1".to_string()),
    };
    assert_eq!(
        cmd.to_json(),
        r#"{"id":12345,"method":"Runtime.evaluate","params":null,"sessionId":"S\"1"}"#
    );
}

#[test]
fn ids_are_written_in_decimal() {
    for (id, text) in [(0u64, "0"), (9, "9"), (10, "10"), (u64::MAX, "18446744073709551615")] {
        let cmd = WsCommand { id, method: "M".to_string(), params: None, session_id: None };
        assert_eq!(cmd.to_json(), format!(r#"{{"id":{text},"method":"M"}}"#));
    }
}

#[test]
fn strings_are_escaped_as_json() {
    assert_eq!(quote_json("plain"), "\"plain\"");
    assert_eq!(quote_json("a\"b\\c"), "\"a\\\"b\\\\c\"");
    assert_eq!(quote_json("\n\t\r\u{8}\u{c}"), "\"\\n\\t\\r\\b\\f\"");
    assert_eq!(quote_json("\u{1}\u{1f}"), "\"\\u0001\\u001f\"");
    assert_eq!(quote_json("é/\u{7f}"), "\"é/\u{7f}\"");
}

#[test]
fn no_params_are_null() {
    assert_eq!(NoParams.to_json(), "null");
}

#[test]
fn default_response_is_empty() {
    let r = WsResponse::default();
    assert!(r.id.is_none() && r.result.is_none() && r.error.is_none());
    assert!(r.method.is_none() && r.params.is_none() && r.session_id.is_none());
}

#[test]
fn cloned_response_keeps_its_fields() {
    let r = WsResponse {
        id: Some(3),
        method: Some("Page.loadEventFired".to_string()),
        session_id: Some("A".to_string()),
        ..Default::default()
    };
    let c = r.clone();
    assert_eq!(c.id, Some(3));
    assert_eq!(c.method.as_deref(), Some("Page.loadEventFired"));
    assert_eq!(c.session_id.as_deref(), Some("A"));
}

#[test]
fn a_session_only_adds_its_field_at_the_end() {
    let without = WsCommand {
        id: 42,
        method: "Page.enable".to_string(),
        params: Some("{}".to_string()),
        session_id: None,
    }
    .to_json();
    let with = WsCommand {
        id: 42,
        method: "Page.enable".to_string(),
        params: Some("{}".to_string()),
        session_id: Some("S-1".to_string()),
    }
    .to_json();
    assert_eq!(with, format!("{},\"sessionId\":\"S-1\"}}", &without[..without.len() - 1]));
}
