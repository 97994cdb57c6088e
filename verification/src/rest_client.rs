//! Finding the WebSocket endpoint to connect to, from what Chrome's HTTP endpoints report.

use crate::error::CdpError;
use crate::text::{has_prefix, same_text};
use vstd::prelude::*;

verus! {

/// A target as listed by `GET /json/list`.
#[derive(Debug)]
pub struct ChromeTarget {
    pub title: String,
    /// The target's `type`, such as `page` or `service_worker`.
    pub target_type: String,
    pub url: String,
    pub web_socket_debugger_url: String,
}

/// Whether `t` is a page that can be attached to: a `page` target with a WebSocket endpoint
/// that is not the DevTools front-end (`devtools://...`).
pub open spec fn attachable(t: ChromeTarget) -> bool {
    &&& t.target_type@ == "page"@
    &&& t.web_socket_debugger_url@.len() > 0
    &&& !"devtools://"@.is_prefix_of(t.url@)
}

/// Whether `url` is a real web page: `http`, `https`, `file` or `about`.
pub open spec fn web_page_url(url: Seq<char>) -> bool {
    ||| "http://"@.is_prefix_of(url)
    ||| "https://"@.is_prefix_of(url)
    ||| "file://"@.is_prefix_of(url)
    ||| "about:"@.is_prefix_of(url)
}

/// An attachable target on a real web page: the kind preferred.
pub open spec fn preferred(t: ChromeTarget) -> bool {
    attachable(t) && web_page_url(t.url@)
}

/// Whether `targets[i]` is the target to pick: the first preferred target, or, when there is
/// none, the first attachable one.
pub open spec fn is_selected(targets: Seq<ChromeTarget>, i: int) -> bool {
    &&& 0 <= i < targets.len()
    &&& {
        ||| preferred(targets[i]) && forall|j: int| 0 <= j < i ==> !preferred(#[trigger] targets[j])
        ||| {
            &&& attachable(targets[i])
            &&& forall|j: int| 0 <= j < targets.len() ==> !preferred(#[trigger] targets[j])
            &&& forall|j: int| 0 <= j < i ==> !attachable(#[trigger] targets[j])
        }
    }
}

/// Whether some target can be attached to at all.
pub open spec fn any_attachable(targets: Seq<ChromeTarget>) -> bool {
    exists|j: int| 0 <= j < targets.len() && attachable(#[trigger] targets[j])
}

fn is_attachable(t: &ChromeTarget) -> (r: bool)
    ensures
        r == attachable(*t),
{
    same_text(t.target_type.as_str(), "page") && !t.web_socket_debugger_url.as_str().is_empty()
        && !has_prefix(t.url.as_str(), "devtools://")
}

fn is_web_page(t: &ChromeTarget) -> (r: bool)
    ensures
        r == web_page_url(t.url@),
{
    let url = t.url.as_str();
    has_prefix(url, "http://") || has_prefix(url, "https://") || has_prefix(url, "file://")
        || has_prefix(url, "about:")
}

/// Picks the best target to attach to from a `GET /json/list` response.
///
/// Chrome reports the DevTools front-end (`devtools://devtools/...`) as a `page` target when
/// DevTools is open, and it can come before the real page. The first attachable target on a
/// real web page (`http`, `https`, `file`, `about`) is preferred; failing that, the first
/// other attachable page (such as `chrome://newtab/`). The DevTools front-end is never picked.
pub fn select_target(targets: &[ChromeTarget]) -> (r: Option<&ChromeTarget>)
    ensures
        match r {
            Some(t) => exists|i: int| is_selected(targets@, i) && *t == targets@[i],
            None => !any_attachable(targets@),
        },
{
    let mut i: usize = 0;
    while i < targets.len()
        invariant
            i <= targets@.len(),
            forall|j: int| 0 <= j < i ==> !preferred(#[trigger] targets@[j]),
        decreases targets@.len() - i,
    {
        if is_attachable(&targets[i]) && is_web_page(&targets[i]) {
            assert(is_selected(targets@, i as int));
            return Some(&targets[i]);
        }
        i = i + 1;
    }
    let mut k: usize = 0;
    while k < targets.len()
        invariant
            k <= targets@.len(),
            forall|j: int| 0 <= j < targets@.len() ==> !preferred(#[trigger] targets@[j]),
            forall|j: int| 0 <= j < k ==> !attachable(#[trigger] targets@[j]),
        decreases targets@.len() - k,
    {
        if is_attachable(&targets[k]) {
            assert(is_selected(targets@, k as int));
            return Some(&targets[k]);
        }
        k = k + 1;
    }
    None
}

/// The address of the target list on `host`.
pub fn list_endpoint(host: &str) -> (r: String)
    ensures
        r@ == "http://"@ + host@ + "/json/list"@,
{
    let mut out = String::from_str("http://");
    out.append(host);
    out.append("/json/list");
    out
}

/// The address of the browser's version information on `host`.
pub fn version_endpoint(host: &str) -> (r: String)
    ensures
        r@ == "http://"@ + host@ + "/json/version"@,
{
    let mut out = String::from_str("http://");
    out.append(host);
    out.append("/json/version");
    out
}

/// The WebSocket endpoint of the page to connect to, among the targets `host` listed.
pub fn page_websocket_url(host: &str, targets: &[ChromeTarget]) -> (r: Result<String, CdpError>)
    ensures
        match r {
            Ok(url) => exists|i: int|
                is_selected(targets@, i) && url@ == targets@[i].web_socket_debugger_url@,
            Err(e) => !any_attachable(targets@) && (e matches CdpError::NoPageTargetFound(h) && h@ == host@),
        },
{
    match select_target(targets) {
        Some(t) => Ok(t.web_socket_debugger_url.clone()),
        None => Err(CdpError::NoPageTargetFound(String::from_str(host))),
    }
}

/// The browser-level WebSocket endpoint, from the `webSocketDebuggerUrl` that `host` reported
/// in `GET /json/version` (empty when it reported none).
///
/// Chrome omits the endpoint when remote debugging is exposed through certain proxies, so an
/// empty value means that there is no usable target at this host.
pub fn browser_websocket_url(host: &str, reported: String) -> (r: Result<String, CdpError>)
    ensures
        match r {
            Ok(url) => reported@.len() > 0 && url@ == reported@,
            Err(e) => reported@.len() == 0 && (e matches CdpError::NoPageTargetFound(h) && h@ == host@),
        },
{
    if reported.as_str().is_empty() {
        Err(CdpError::NoPageTargetFound(String::from_str(host)))
    } else {
        Ok(reported)
    }
}

/// The target picked is always an attachable page, so never the DevTools front-end.
pub proof fn selected_target_is_never_devtools(targets: Seq<ChromeTarget>, i: int)
    requires
        is_selected(targets, i),
    ensures
        targets[i].target_type@ == "page"@,
        targets[i].web_socket_debugger_url@.len() > 0,
        !"devtools://"@.is_prefix_of(targets[i].url@),
{
}

/// The first page on a real web page is the one picked: when `targets[i]` is a `page` with a
/// WebSocket endpoint whose URL starts with `http://`, `https://`, `file://` or `about:`, and no
/// earlier target is such a page, then `targets[i]` is picked, ahead of any earlier attachable
/// page on another scheme (such as `chrome://newtab/`).
pub proof fn first_real_web_page_is_picked(targets: Seq<ChromeTarget>, i: int, k: int)
    requires
        0 <= i < targets.len(),
        targets[i].target_type@ == "page"@,
        targets[i].web_socket_debugger_url@.len() > 0,
        "http://"@.is_prefix_of(targets[i].url@) || "https://"@.is_prefix_of(targets[i].url@)
            || "file://"@.is_prefix_of(targets[i].url@) || "about:"@.is_prefix_of(targets[i].url@),
        forall|j: int| 0 <= j < i ==> !{
            &&& (#[trigger] targets[j]).target_type@ == "page"@
            &&& targets[j].web_socket_debugger_url@.len() > 0
            &&& !"devtools://"@.is_prefix_of(targets[j].url@)
            &&& ("http://"@.is_prefix_of(targets[j].url@) || "https://"@.is_prefix_of(targets[j].url@)
                || "file://"@.is_prefix_of(targets[j].url@) || "about:"@.is_prefix_of(targets[j].url@))
        },
        is_selected(targets, k),
    ensures
        k == i,
{
    let url = targets[i].url@;
    reveal_strlit("devtools://");
    reveal_strlit("http://");
    reveal_strlit("https://");
    reveal_strlit("file://");
    reveal_strlit("about:");
    assert(url[0] == 'h' || url[0] == 'f' || url[0] == 'a') by {
        if "http://"@.is_prefix_of(url) {
            assert(url[0] == "http://"@[0]);
        } else if "https://"@.is_prefix_of(url) {
            assert(url[0] == "https://"@[0]);
        } else if "file://"@.is_prefix_of(url) {
            assert(url[0] == "file://"@[0]);
        } else {
            assert(url[0] == "about:"@[0]);
        }
    }
    if "devtools://"@.is_prefix_of(url) {
        assert(url[0] == "devtools://"@[0]);
    }
    assert(preferred(targets[i]));
    if k < i {
        assert(!preferred(targets[k]));
        assert(!attachable(targets[k]));
    } else if i < k {
        assert(!preferred(targets[i]));
    }
}

/// A real web page is picked whenever there is one, and then the first of them.
pub proof fn web_pages_are_preferred(targets: Seq<ChromeTarget>, i: int, j: int)
    requires
        is_selected(targets, i),
        0 <= j < targets.len(),
        preferred(targets[j]),
    ensures
        preferred(targets[i]),
        i <= j,
{
}

/// At most one target is the one to pick.
pub proof fn selection_is_unique(targets: Seq<ChromeTarget>, i: int, k: int)
    requires
        is_selected(targets, i),
        is_selected(targets, k),
    ensures
        i == k,
{
    if i < k {
        assert(!preferred(targets[i]));
        assert(!attachable(targets[i]));
    } else if k < i {
        assert(!preferred(targets[k]));
        assert(!attachable(targets[k]));
    }
}

/// Some target is picked exactly when some target can be attached to.
pub proof fn a_target_is_found_when_one_is_attachable(targets: Seq<ChromeTarget>)
    ensures
        any_attachable(targets) <==> exists|i: int| is_selected(targets, i),
{
    if any_attachable(targets) {
        let j = choose|j: int| 0 <= j < targets.len() && attachable(#[trigger] targets[j]);
        if exists|p: int| 0 <= p < targets.len() && preferred(#[trigger] targets[p]) {
            let first = first_preferred(targets, targets.len() as int);
            assert(is_selected(targets, first));
        } else {
            let first = first_attachable(targets, j);
            assert(is_selected(targets, first));
        }
    }
}

proof fn first_preferred(targets: Seq<ChromeTarget>, n: int) -> (first: int)
    requires
        0 <= n <= targets.len(),
        exists|p: int| 0 <= p < n && preferred(#[trigger] targets[p]),
    ensures
        0 <= first < n,
        preferred(targets[first]),
        forall|j: int| 0 <= j < first ==> !preferred(#[trigger] targets[j]),
    decreases n,
{
    if exists|p: int| 0 <= p < n - 1 && preferred(#[trigger] targets[p]) {
        first_preferred(targets, n - 1)
    } else {
        n - 1
    }
}

proof fn first_attachable(targets: Seq<ChromeTarget>, j: int) -> (first: int)
    requires
        0 <= j < targets.len(),
        attachable(targets[j]),
    ensures
        0 <= first <= j,
        attachable(targets[first]),
        forall|k: int| 0 <= k < first ==> !attachable(#[trigger] targets[k]),
    decreases j,
{
    if exists|p: int| 0 <= p < j && attachable(#[trigger] targets[p]) {
        let p = choose|p: int| 0 <= p < j && attachable(#[trigger] targets[p]);
        first_attachable(targets, p)
    } else {
        j
    }
}

} // verus!
