//! The browser-level logic: which targets are tabs, what the `Target` commands carry and what
//! their replies are read for.

use crate::error::CdpError;
use crate::json::{get_text, json_string_literal, member, member_text, quote_json, JsonValue};
use crate::protocol::WsResponse;
use crate::text::{has_prefix, same_text};
use vstd::prelude::*;

verus! {

/// Description of a CDP target as reported by `Target.getTargets`.
#[derive(Debug)]
pub struct TargetInfo {
    pub target_id: String,
    /// The target's `type`, such as `page`, `iframe` or `service_worker`.
    pub target_type: String,
    pub title: String,
    pub url: String,
    pub attached: bool,
}

impl Clone for TargetInfo {
    fn clone(&self) -> (r: Self)
        ensures
            r == *self,
    {
        TargetInfo {
            target_id: self.target_id.clone(),
            target_type: self.target_type.clone(),
            title: self.title.clone(),
            url: self.url.clone(),
            attached: self.attached,
        }
    }
}

/// Whether a target of this type and URL is a tab worth attaching to: a `page` that is not the
/// DevTools front-end.
pub open spec fn tab(target_type: Seq<char>, url: Seq<char>) -> bool {
    target_type == "page"@ && !"devtools://"@.is_prefix_of(url)
}

/// Whether `t` is a tab.
pub open spec fn is_tab_target(t: TargetInfo) -> bool {
    tab(t.target_type@, t.url@)
}

impl TargetInfo {
    /// Whether this target is a tab worth attaching to.
    ///
    /// Chrome reports the DevTools front-end as a `page` target as well, and attaching to it
    /// would drive the DevTools window instead of a real tab.
    pub fn is_tab(&self) -> (r: bool)
        ensures
            r == is_tab_target(*self),
    {
        same_text(self.target_type.as_str(), "page") && !has_prefix(self.url.as_str(), "devtools://")
    }
}

/// [`is_tab_target`] as a predicate.
pub open spec fn tab_filter() -> spec_fn(TargetInfo) -> bool {
    |t: TargetInfo| is_tab_target(t)
}

/// The tabs among `infos`, in their order: service workers, iframes and the DevTools front-end
/// are left out.
pub fn tabs_only(infos: Vec<TargetInfo>) -> (r: Vec<TargetInfo>)
    ensures
        r@ == infos@.filter(tab_filter()),
{
    let ghost all = infos@;
    let ghost pred = tab_filter();
    let mut rest = infos;
    let mut tabs: Vec<TargetInfo> = Vec::new();
    let ghost mut i: int = 0;
    assert(all.take(0).filter(pred) =~= Seq::<TargetInfo>::empty()) by {
        reveal(Seq::filter);
    }
    while rest.len() > 0
        invariant
            0 <= i <= all.len(),
            pred == tab_filter(),
            rest@ == all.skip(i),
            tabs@ == all.take(i).filter(pred),
        decreases rest@.len(),
    {
        let t = rest.remove(0);
        let keep = t.is_tab();
        proof {
            assert(t == all[i]);
            let next = all.take(i + 1);
            assert(next.drop_last() =~= all.take(i));
            assert(next.last() == all[i]);
            assert(pred(all[i]) == keep);
            reveal(Seq::filter);
            if keep {
                assert(next.filter(pred) == all.take(i).filter(pred).push(all[i]));
            } else {
                assert(next.filter(pred) == all.take(i).filter(pred));
            }
        }
        if keep {
            tabs.push(t);
        }
        proof {
            assert(rest@ =~= all.skip(i + 1));
            i = i + 1;
        }
    }
    assert(all.take(i) =~= all);
    tabs
}

/// The tabs kept from `infos` are exactly its targets of type `page` whose URL does not start
/// with `devtools://`, whatever their URL scheme.
pub proof fn tabs_are_the_non_devtools_pages(infos: Seq<TargetInfo>, t: TargetInfo)
    ensures
        infos.filter(tab_filter()).contains(t) <==> (infos.contains(t) && t.target_type@ == "page"@
            && !"devtools://"@.is_prefix_of(t.url@)),
    decreases infos.len(),
{
    reveal(Seq::filter);
    if infos.len() > 0 {
        let rest = infos.drop_last();
        tabs_are_the_non_devtools_pages(rest, t);
        assert(infos =~= rest.push(infos.last()));
        if infos.contains(t) && !rest.contains(t) {
            let k = choose|k: int| 0 <= k < infos.len() && infos[k] == t;
            if k < infos.len() - 1 {
                assert(rest[k] == t);
            }
            assert(t == infos.last());
        }
        if rest.contains(t) {
            let k = choose|k: int| 0 <= k < rest.len() && rest[k] == t;
            assert(infos[k] == t);
        }
        let kept = rest.filter(tab_filter());
        if tab_filter()(infos.last()) {
            assert(infos.filter(tab_filter()) == kept.push(infos.last()));
            if kept.push(infos.last()).contains(t) && !kept.contains(t) {
                let k = choose|k: int| 0 <= k < kept.len() + 1 && kept.push(infos.last())[k] == t;
                if k < kept.len() {
                    assert(kept[k] == t);
                }
            }
            if kept.contains(t) {
                let k = choose|k: int| 0 <= k < kept.len() && kept[k] == t;
                assert(kept.push(infos.last())[k] == t);
            }
            if t == infos.last() {
                assert(kept.push(infos.last())[kept.len() as int] == t);
            }
        } else {
            assert(infos.filter(tab_filter()) == kept);
        }
    }
}

/// The message of the error for a reply to `method` that lacks the field `field`.
pub open spec fn missing_field_message(method: Seq<char>, field: Seq<char>) -> Seq<char> {
    method + " returned no `"@ + field + "`"@
}

fn missing_field(method: &str, field: &str) -> (r: CdpError)
    ensures
        r matches CdpError::InternalError(m) && m@ == missing_field_message(method@, field@),
{
    let mut m = String::from_str(method);
    m.append(" returned no `");
    m.append(field);
    m.append("`");
    CdpError::InternalError(m)
}

/// The text of the string field `field` of the result of `response`, when there is one.
pub open spec fn result_text(response: WsResponse, field: Seq<char>) -> Option<Seq<char>> {
    match response.result {
        Some(v) => member_text(v, field),
        None => None,
    }
}

/// The string field `field` of the result of `response`, a reply to `method`.
///
/// A reply without it, or with a field that is not a string, is an internal error that names
/// the method and the field.
pub fn string_field(response: &WsResponse, field: &str, method: &str) -> (r: Result<String, CdpError>)
    ensures
        match result_text(*response, field@) {
            Some(t) => r matches Ok(s) && s@ == t,
            None => r matches Err(CdpError::InternalError(m)) && m@ == missing_field_message(method@, field@),
        },
{
    match &response.result {
        Some(result) => match get_text(result, field) {
            Some(s) => Ok(s.clone()),
            None => Err(missing_field(method, field)),
        },
        None => Err(missing_field(method, field)),
    }
}

/// The member `field` of the result of `response`, when there is one.
pub open spec fn result_member(response: WsResponse, field: Seq<char>) -> Option<JsonValue> {
    match response.result {
        Some(v) => member(v, field),
        None => None,
    }
}

/// The `targetInfos` list of a reply to `Target.getTargets`, still as JSON.
pub fn target_infos_json(response: &WsResponse) -> (r: Result<&JsonValue, CdpError>)
    ensures
        match result_member(*response, "targetInfos"@) {
            Some(v) => r matches Ok(j) && *j == v,
            None => r matches Err(CdpError::InternalError(m))
                && m@ == missing_field_message("Target.getTargets"@, "targetInfos"@),
        },
{
    match &response.result {
        Some(result) => match result.get("targetInfos") {
            Some(v) => Ok(v),
            None => Err(missing_field("Target.getTargets", "targetInfos")),
        },
        None => Err(missing_field("Target.getTargets", "targetInfos")),
    }
}

/// The session id in a reply to `Target.attachToTarget`.
pub fn attached_session_id(response: &WsResponse) -> (r: Result<String, CdpError>)
    ensures
        match result_text(*response, "sessionId"@) {
            Some(t) => r matches Ok(s) && s@ == t,
            None => r matches Err(CdpError::InternalError(m))
                && m@ == missing_field_message("Target.attachToTarget"@, "sessionId"@),
        },
{
    string_field(response, "sessionId", "Target.attachToTarget")
}

/// The target id in a reply to `Target.createTarget`.
pub fn created_target_id(response: &WsResponse) -> (r: Result<String, CdpError>)
    ensures
        match result_text(*response, "targetId"@) {
            Some(t) => r matches Ok(s) && s@ == t,
            None => r matches Err(CdpError::InternalError(m))
                && m@ == missing_field_message("Target.createTarget"@, "targetId"@),
        },
{
    string_field(response, "targetId", "Target.createTarget")
}

/// The parameters of `Target.attachToTarget` for `target_id`, in flat-session mode.
pub fn attach_params(target_id: &str) -> (r: String)
    ensures
        r@ == "{\"flatten\":true,\"targetId\":"@ + json_string_literal(target_id@) + "}"@,
{
    let mut out = String::from_str("{\"flatten\":true,\"targetId\":");
    let q = quote_json(target_id);
    out.append(q.as_str());
    out.append("}");
    out
}

/// The parameters of a `Target` command about `target_id`.
pub fn target_params(target_id: &str) -> (r: String)
    ensures
        r@ == "{\"targetId\":"@ + json_string_literal(target_id@) + "}"@,
{
    let mut out = String::from_str("{\"targetId\":");
    let q = quote_json(target_id);
    out.append(q.as_str());
    out.append("}");
    out
}

/// The parameters of `Target.createTarget`, to open a tab on `url`.
pub fn create_target_params(url: &str) -> (r: String)
    ensures
        r@ == "{\"url\":"@ + json_string_literal(url@) + "}"@,
{
    let mut out = String::from_str("{\"url\":");
    let q = quote_json(url);
    out.append(q.as_str());
    out.append("}");
    out
}

/// The parameters of `Target.detachFromTarget`, for the session `session_id`.
pub fn detach_params(session_id: &str) -> (r: String)
    ensures
        r@ == "{\"sessionId\":"@ + json_string_literal(session_id@) + "}"@,
{
    let mut out = String::from_str("{\"sessionId\":");
    let q = quote_json(session_id);
    out.append(q.as_str());
    out.append("}");
    out
}

/// The parameters of `Target.setDiscoverTargets`.
pub fn discover_targets_params(discover: bool) -> (r: String)
    ensures
        r@ == if discover { "{\"discover\":true}"@ } else { "{\"discover\":false}"@ },
{
    if discover {
        String::from_str("{\"discover\":true}")
    } else {
        String::from_str("{\"discover\":false}")
    }
}

} // verus!
