use cdp_lite::browser::{
    attach_params, attached_session_id, create_target_params, created_target_id, detach_params,
    discover_targets_params, string_field, tabs_only, target_infos_json, target_params, TargetInfo,
};
use cdp_lite::error::CdpError;
use cdp_lite::json::{JsonValue};
use cdp_lite::protocol::WsResponse;

fn s(text: &str) -> JsonValue {
    JsonValue::Str(text.to_string())
}

fn object(members: Vec<(&str, JsonValue)>) -> JsonValue {
    JsonValue::Object(members.into_iter().map(|(k, v)| (k.to_string(), v)).collect())
}

fn response_with_result(result: JsonValue) -> WsResponse {
    WsResponse { id: Some(1), result: Some(result), ..Default::default() }
}

fn target_json(target_id: &str, ty: &str, url: &str) -> JsonValue {
    object(vec![
        ("targetId", s(target_id)),
        ("type", s(ty)),
        ("title", s(url)),
        ("url", s(url)),
        ("attached", JsonValue::Bool(false)),
    ])
}

fn target(target_id: &str, ty: &str, url: &str) -> TargetInfo {
    TargetInfo {
        target_id: target_id.to_string(),
        target_type: ty.to_string(),
        title: url.to_string(),
        url: url.to_string(),
        attached: false,
    }
}

#[test]
fn extracts_session_id_from_attach_response() {
    let response = response_with_result(object(vec![("sessionId", s("SESSION-42"))]));

    let session_id = string_field(&response, "sessionId", "Target.attachToTarget")
        .expect("sessionId should be extracted");

    assert_eq!(session_id, "SESSION-42");
}

#[test]
fn missing_session_id_is_reported_with_the_method_name() {
    let response = response_with_result(object(vec![]));

    let err = string_field(&response, "sessionId", "Target.attachToTarget")
        .expect_err("a response without sessionId must not be accepted");

    let message = err.message();
    assert!(
        message.contains("Target.attachToTarget") && message.contains("sessionId"),
        "error should name the method and field, got: {message}",
    );
}

#[test]
fn parses_target_infos() {
    let response = response_with_result(object(vec![(
        "targetInfos",
        JsonValue::Array(vec![
            target_json("T1", "page", "https://example.com/"),
            target_json("T2", "service_worker", "https://example.com/sw.js"),
        ]),
    )]));

    let infos = target_infos_json(&response).expect("targetInfos should parse");

    match infos {
        JsonValue::Array(items) => {
            assert_eq!(items.len(), 2);
            assert_eq!(items[0].get("targetId"), Some(&s("T1")));
            assert_eq!(items[0].get("url"), Some(&s("https://example.com/")));
        }
        other => panic!("targetInfos should be a list, got {other:?}"),
    }
}

#[test]
fn parse_target_infos_rejects_a_response_without_the_field() {
    let response = response_with_result(object(vec![]));

    assert!(target_infos_json(&response).is_err());
}

#[test]
fn only_real_pages_count_as_tabs() {
    let infos = vec![
        target("T1", "service_worker", "https://example.com/sw.js"),
        target("T2", "page", "devtools://devtools/bundled/devtools_app.html"),
        target("T3", "page", "https://example.com/"),
        target("T4", "iframe", "https://ads.example/"),
        target("T5", "page", "about:blank"),
    ];

    let tabs: Vec<String> = tabs_only(infos).into_iter().map(|info| info.target_id).collect();

    assert_eq!(
        tabs,
        vec!["T3", "T5"],
        "service workers, iframes and the DevTools front-end are not tabs",
    );
}

#[test]
fn target_info_tolerates_missing_optional_fields() {
    let info = TargetInfo {
        target_id: "T1".to_string(),
        target_type: "page".to_string(),
        title: String::new(),
        url: String::new(),
        attached: false,
    };

    assert_eq!(info.url, "");
    assert!(info.is_tab());
}

#[test]
fn missing_field_error_names_method_and_field_exactly() {
    let response = WsResponse::default();
    match string_field(&response, "targetId", "Target.createTarget") {
        Err(CdpError::InternalError(m)) => assert_eq!(m, "Target.createTarget returned no `targetId`"),
        other => panic!("expected an internal error, got {other:?}"),
    }
}

#[test]
fn a_field_that_is_not_a_string_is_missing() {
    let response = response_with_result(object(vec![("sessionId", JsonValue::Bool(true))]));
    assert!(string_field(&response, "sessionId", "Target.attachToTarget").is_err());
}

#[test]
fn target_infos_missing_message_is_exact() {
    match target_infos_json(&WsResponse::default()) {
        Err(CdpError::InternalError(m)) => {
            assert_eq!(m, "Target.getTargets returned no `targetInfos`")
        }
        other => panic!("expected an internal error, got {other:?}"),
    }
}

#[test]
fn attach_and_create_replies_are_read() {
    let attach = response_with_result(object(vec![("sessionId", s("S1"))]));
    assert_eq!(attached_session_id(&attach).unwrap(), "S1");
    let create = response_with_result(object(vec![("targetId", s("T9"))]));
    assert_eq!(created_target_id(&create).unwrap(), "T9");
    match created_target_id(&attach) {
        Err(CdpError::InternalError(m)) => assert_eq!(m, "Target.createTarget returned no `targetId`"),
        other => panic!("expected an internal error, got {other:?}"),
    }
}

#[test]
fn command_params_are_json_objects() {
    assert_eq!(attach_params("T\"1"), r#"{"flatten":true,"targetId":"T\"1"}"#);
    assert_eq!(target_params("T1"), r#"{"targetId":"T1"}"#);
    assert_eq!(create_target_params("https://docs.rs"), r#"{"url":"https://docs.rs"}"#);
    assert_eq!(detach_params("S1"), r#"{"sessionId":"S1"}"#);
    assert_eq!(discover_targets_params(true), r#"{"discover":true}"#);
    assert_eq!(discover_targets_params(false), r#"{"discover":false}"#);
}

#[test]
fn devtools_page_is_not_a_tab() {
    assert!(!target("T", "page", "devtools://devtools/inspector.html").is_tab());
    assert!(!target("T", "iframe", "https://example.com/").is_tab());
    assert!(target("T", "page", "chrome://newtab/").is_tab());
}

#[test]
fn cloned_target_info_is_equal_field_by_field() {
    let a = target("T1", "page", "https://example.com/");
    let b = a.clone();
    assert_eq!((b.target_id, b.target_type, b.title, b.url, b.attached),
        (a.target_id, a.target_type, a.title, a.url, a.attached));
}
