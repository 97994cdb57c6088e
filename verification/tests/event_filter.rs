use cdp_lite::event_filter::{domain_prefix, EventFilter};
use cdp_lite::protocol::WsResponse;

fn event(method: &str, session_id: Option<&str>) -> WsResponse {
    WsResponse {
        method: Some(method.to_string()),
        session_id: session_id.map(str::to_string),
        ..Default::default()
    }
}

fn passed(filter: &EventFilter, events: &[WsResponse]) -> Vec<String> {
    events
        .iter()
        .filter(|e| filter.matches(e))
        .map(|e| e.method.clone().expect("events always carry a method"))
        .collect()
}

#[test]
fn domain_filter_ignores_session_id() {
    let filter = EventFilter::new("Page");
    let events = [
        event("Network.requestWillBeSent", Some("A")),
        event("Page.loadEventFired", Some("A")),
        event("Page.frameNavigated", None),
    ];
    assert_eq!(
        passed(&filter, &events),
        vec!["Page.loadEventFired", "Page.frameNavigated"],
        "an unscoped filter must keep forwarding every tab's events",
    );
}

#[test]
fn session_filter_drops_other_tabs() {
    let filter = EventFilter::for_session("Page", "A");
    let events = [event("Page.loadEventFired", Some("B")), event("Page.loadEventFired", Some("A"))];
    let received = passed(&filter, &events);
    assert_eq!(received, vec!["Page.loadEventFired"]);
    assert!(!filter.matches(&events[0]));
}

#[test]
fn session_filter_drops_browser_level_events() {
    let filter = EventFilter::for_session("Target", "A");
    let events = [event("Target.targetCreated", None), event("Target.targetCreated", Some("A"))];
    let first: Vec<&WsResponse> = events.iter().filter(|e| filter.matches(e)).collect();
    assert_eq!(first[0].session_id.as_deref(), Some("A"));
    assert_eq!(first.len(), 1);
}

#[test]
fn empty_domain_matches_every_domain_of_one_tab() {
    let filter = EventFilter::for_session("", "A");
    let events = [
        event("Page.loadEventFired", Some("B")),
        event("Page.loadEventFired", Some("A")),
        event("Runtime.consoleAPICalled", Some("A")),
    ];
    assert_eq!(passed(&filter, &events), vec!["Page.loadEventFired", "Runtime.consoleAPICalled"]);
}

#[test]
fn domain_prefix_needs_the_dot() {
    assert_eq!(domain_prefix("Page"), "Page.");
    assert_eq!(domain_prefix(""), "");
    let filter = EventFilter::new("Page");
    assert!(!filter.matches(&event("PageX.loaded", None)));
    assert!(!filter.matches(&event("Page", None)));
}

#[test]
fn messages_without_method_never_pass() {
    let reply = WsResponse { id: Some(1), ..Default::default() };
    assert!(!EventFilter::new("").matches(&reply));
    assert!(!EventFilter::for_session("", "A").matches(&WsResponse {
        session_id: Some("A".to_string()),
        ..Default::default()
    }));
}
