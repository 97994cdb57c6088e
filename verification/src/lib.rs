//! A lightweight client for the Chrome DevTools Protocol: the verified core.
//!
//! The modules here hold the decisions the client makes: which target to attach to,
//! how a command is framed on the wire, where an incoming message is routed, which
//! events a subscriber sees, and how a reply turns into a result or an error.

pub mod text;
pub mod json;
pub mod protocol;
pub mod error;
pub mod event_filter;
pub mod rest_client;
pub mod browser;
pub mod client;
