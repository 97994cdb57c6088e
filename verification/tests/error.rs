use cdp_lite::error::CdpError;
use std::time::Duration;

#[test]
fn messages_of_plain_errors() {
    assert_eq!(CdpError::NotFound.message(), "Chrome target not found");
    assert_eq!(CdpError::Disconnected.message(), "Connection lost");
    assert_eq!(
        CdpError::NoPageTargetFound("h:1".to_string()).message(),
        "No suitable Chrome target found at host: h:1"
    );
    assert_eq!(
        CdpError::InternalError("boom".to_string()).message(),
        "Internal communication error: boom"
    );
    assert_eq!(
        CdpError::ProtocolError { code: -32000, message: "bad".to_string() }.message(),
        "Chrome returned an error (code -32000): bad"
    );
    assert_eq!(
        CdpError::ProtocolError { code: i64::MIN, message: String::new() }.message(),
        "Chrome returned an error (code -9223372036854775808): "
    );
    assert_eq!(
        CdpError::ProtocolError { code: 7, message: "x".to_string() }.message(),
        "Chrome returned an error (code 7): x"
    );
}

#[test]
fn timeout_message_names_method_and_duration() {
    let e = CdpError::Timeout { method: "Page.navigate".to_string(), timeout: Duration::from_millis(100) };
    assert_eq!(e.message(), "Command Page.navigate timed out after 100ms");
}

#[test]
fn json_error_message_is_prefixed() {
    let err = serde_json::from_str::<serde_json::Value>("{").unwrap_err();
    let text = err.to_string();
    assert_eq!(CdpError::Json(err).message(), format!("Serialization error: {text}"));
}
