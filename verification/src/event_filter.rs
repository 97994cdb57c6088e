//! Which events a subscriber sees.

use crate::protocol::{opt_text, WsResponse};
use crate::text::{has_prefix, same_text};
use vstd::prelude::*;

verus! {

/// The prefix that a method name must start with to belong to `domain`: the domain and a dot,
/// or nothing at all for the empty domain, which stands for every domain.
pub open spec fn domain_prefix_text(domain: Seq<char>) -> Seq<char> {
    if domain.len() == 0 {
        Seq::empty()
    } else {
        domain + "."@
    }
}

/// Whether an event with the given method and session passes a filter with the given prefix
/// and tab scope.
///
/// A message without a method is no event. A filter that is not scoped to a tab passes events
/// of every tab and of the browser; a scoped filter passes only the events of its own tab.
pub open spec fn event_selected(
    prefix: Seq<char>,
    scope: Option<Seq<char>>,
    method: Option<Seq<char>>,
    session: Option<Seq<char>>,
) -> bool {
    match method {
        None => false,
        Some(m) => prefix.is_prefix_of(m) && match scope {
            None => true,
            Some(wanted) => session == Some(wanted),
        },
    }
}

/// The prefix for `domain`, as [`domain_prefix_text`] says.
pub fn domain_prefix(domain: &str) -> (r: String)
    ensures
        r@ == domain_prefix_text(domain@),
{
    if domain.is_empty() {
        String::new()
    } else {
        let mut out = String::from_str(domain);
        out.append(".");
        out
    }
}

/// Selects the events of one domain, optionally of one tab only.
pub struct EventFilter {
    prefix: String,
    session_id: Option<String>,
}

impl EventFilter {
    /// The prefix that the method of a selected event starts with.
    pub closed spec fn prefix_text(&self) -> Seq<char> {
        self.prefix@
    }

    /// The tab this filter is scoped to, if any.
    pub closed spec fn scope(&self) -> Option<Seq<char>> {
        opt_text(self.session_id)
    }

    /// A filter for the events of `domain`, from every tab.
    pub fn new(domain: &str) -> (r: Self)
        ensures
            r.prefix_text() == domain_prefix_text(domain@),
            r.scope() is None,
    {
        EventFilter { prefix: domain_prefix(domain), session_id: None }
    }

    /// A filter for the events of `domain` that belong to the tab of `session_id`.
    ///
    /// An empty `domain` matches every domain, which is how a tab streams everything it emits.
    pub fn for_session(domain: &str, session_id: &str) -> (r: Self)
        ensures
            r.prefix_text() == domain_prefix_text(domain@),
            r.scope() == Some(session_id@),
    {
        EventFilter { prefix: domain_prefix(domain), session_id: Some(String::from_str(session_id)) }
    }

    /// Whether `response` is an event this filter passes.
    pub fn matches(&self, response: &WsResponse) -> (r: bool)
        ensures
            r == event_selected(
                self.prefix_text(),
                self.scope(),
                opt_text(response.method),
                opt_text(response.session_id),
            ),
    {
        let method = match &response.method {
            Some(m) => m,
            None => return false,
        };
        if !has_prefix(method.as_str(), self.prefix.as_str()) {
            return false;
        }
        match (&self.session_id, &response.session_id) {
            (None, _) => true,
            (Some(wanted), Some(actual)) => same_text(wanted.as_str(), actual.as_str()),
            (Some(_), None) => false,
        }
    }
}

/// A filter that is not scoped to a tab keeps forwarding every tab's events: whether it passes
/// an event does not depend on the event's session.
pub proof fn unscoped_filter_ignores_session(
    prefix: Seq<char>,
    method: Option<Seq<char>>,
    session_a: Option<Seq<char>>,
    session_b: Option<Seq<char>>,
)
    ensures
        event_selected(prefix, None, method, session_a) == event_selected(prefix, None, method, session_b),
{
}

/// A filter scoped to a tab drops the events of other tabs and the browser-level events, which
/// belong to no tab.
pub proof fn scoped_filter_keeps_only_its_tab(
    prefix: Seq<char>,
    wanted: Seq<char>,
    method: Option<Seq<char>>,
    session: Option<Seq<char>>,
)
    ensures
        event_selected(prefix, Some(wanted), method, session) ==> session == Some(wanted),
        event_selected(prefix, Some(wanted), method, None) == false,
{
}

/// A filter for the empty domain passes every event of its scope, whatever the method.
pub proof fn empty_domain_matches_every_domain(
    scope: Option<Seq<char>>,
    method: Seq<char>,
    session: Option<Seq<char>>,
)
    ensures
        event_selected(domain_prefix_text(Seq::empty()), scope, Some(method), session) == match scope {
            None => true,
            Some(wanted) => session == Some(wanted),
        },
{
    assert(Seq::<char>::empty().is_prefix_of(method));
}

/// Every event of a domain passes the unscoped filter for that domain: the filter for a
/// non-empty domain `d` passes an event whose method is `d`, a dot and any name.
pub proof fn domain_events_pass_its_filter(
    domain: Seq<char>,
    name: Seq<char>,
    session: Option<Seq<char>>,
)
    requires
        domain.len() > 0,
    ensures
        event_selected(domain_prefix_text(domain), None, Some(domain + "."@ + name), session),
{
    let method = domain + "."@ + name;
    let prefix = domain + "."@;
    assert(method.subrange(0, prefix.len() as int) =~= prefix);
}

/// Only the events of a domain pass the filter for it: a method that passes the filter for a
/// non-empty domain `d` starts with `d` and a dot.
pub proof fn only_domain_events_pass(
    domain: Seq<char>,
    scope: Option<Seq<char>>,
    method: Seq<char>,
    session: Option<Seq<char>>,
)
    requires
        domain.len() > 0,
        event_selected(domain_prefix_text(domain), scope, Some(method), session),
    ensures
        (domain + "."@).is_prefix_of(method),
{
}

/// A message without a method is never passed, whatever the filter.
pub proof fn messages_without_method_are_not_events(
    prefix: Seq<char>,
    scope: Option<Seq<char>>,
    session: Option<Seq<char>>,
)
    ensures
        !event_selected(prefix, scope, None, session),
{
}

} // verus!
