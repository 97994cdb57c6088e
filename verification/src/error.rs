//! The errors of this library.

use crate::text::{push_signed_decimal, signed_decimal};
use std::time::Duration;
use vstd::prelude::*;

verus! {

/// The error `reqwest` reports for an HTTP request, carried through unchanged.
#[verifier::external_type_specification]
#[verifier::external_body]
pub struct ExReqwestError(reqwest::Error);

/// The error `tungstenite` reports for the WebSocket, carried through unchanged.
#[verifier::external_type_specification]
#[verifier::external_body]
pub struct ExWsError(tokio_tungstenite::tungstenite::Error);

/// The error `serde_json` reports for a message that is not the JSON expected, carried
/// through unchanged.
#[verifier::external_type_specification]
#[verifier::external_body]
pub struct ExJsonError(serde_json::Error);

/// What can go wrong while talking to the browser.
#[derive(Debug)]
pub enum CdpError {
    Network(reqwest::Error),
    Ws(tokio_tungstenite::tungstenite::Error),
    Json(serde_json::Error),
    NotFound,
    Timeout { method: String, timeout: Duration },
    NoPageTargetFound(String),
    InternalError(String),
    ProtocolError { code: i64, message: String },
    Disconnected,
}

pub type CdpResult<T> = Result<T, CdpError>;

/// The message of an error whose message is made of plain values only.
pub open spec fn plain_message(e: CdpError) -> Option<Seq<char>> {
    match e {
        CdpError::NotFound => Some("Chrome target not found"@),
        CdpError::NoPageTargetFound(host) => Some("No suitable Chrome target found at host: "@ + host@),
        CdpError::InternalError(m) => Some("Internal communication error: "@ + m@),
        CdpError::ProtocolError { code, message } =>
            Some("Chrome returned an error (code "@ + signed_decimal(code as int) + "): "@ + message@),
        CdpError::Disconnected => Some("Connection lost"@),
        _ => None,
    }
}

/// How `reqwest` describes the error, by its `Display` impl.
///
/// Trusted: nothing is claimed of the text.
#[verifier::external_body]
fn describe_network_error(e: &reqwest::Error) -> String {
    format!("{}", e)
}

/// How `tungstenite` describes the error, by its `Display` impl.
///
/// Trusted: nothing is claimed of the text.
#[verifier::external_body]
fn describe_ws_error(e: &tokio_tungstenite::tungstenite::Error) -> String {
    format!("{}", e)
}

/// How `serde_json` describes the error, by its `Display` impl.
///
/// Trusted: nothing is claimed of the text.
#[verifier::external_body]
fn describe_json_error(e: &serde_json::Error) -> String {
    format!("{}", e)
}

/// How std's `Debug` impl writes a `Duration`, such as `1.5s` or `100ms`.
///
/// Trusted: nothing is claimed of the text.
#[verifier::external_body]
fn describe_duration(d: &Duration) -> String {
    format!("{:?}", d)
}

impl CdpError {
    /// The human-readable message of this error.
    pub fn message(&self) -> (r: String)
        ensures
            plain_message(*self) matches Some(m) ==> r@ == m,
            self is Network ==> "Network error: "@.is_prefix_of(r@),
            self is Ws ==> "WebSocket error: "@.is_prefix_of(r@),
            self is Json ==> "Serialization error: "@.is_prefix_of(r@),
            self matches CdpError::Timeout { method, .. } ==> ("Command "@ + method@
                + " timed out after "@).is_prefix_of(r@),
    {
        match self {
            CdpError::Network(e) => {
                let mut out = String::from_str("Network error: ");
                let d = describe_network_error(e);
                out.append(d.as_str());
                out
            },
            CdpError::Ws(e) => {
                let mut out = String::from_str("WebSocket error: ");
                let d = describe_ws_error(e);
                out.append(d.as_str());
                out
            },
            CdpError::Json(e) => {
                let mut out = String::from_str("Serialization error: ");
                let d = describe_json_error(e);
                out.append(d.as_str());
                out
            },
            CdpError::NotFound => String::from_str("Chrome target not found"),
            CdpError::Timeout { method, timeout } => {
                let mut out = String::from_str("Command ");
                out.append(method.as_str());
                out.append(" timed out after ");
                let d = describe_duration(timeout);
                out.append(d.as_str());
                out
            },
            CdpError::NoPageTargetFound(host) => {
                let mut out = String::from_str("No suitable Chrome target found at host: ");
                out.append(host.as_str());
                out
            },
            CdpError::InternalError(m) => {
                let mut out = String::from_str("Internal communication error: ");
                out.append(m.as_str());
                out
            },
            CdpError::ProtocolError { code, message } => {
                let mut out = String::from_str("Chrome returned an error (code ");
                push_signed_decimal(&mut out, *code);
                out.append("): ");
                out.append(message.as_str());
                out
            },
            CdpError::Disconnected => String::from_str("Connection lost"),
        }
    }
}

} // verus!
