//! The messages exchanged with the browser: commands going out, responses and events coming in.

use crate::json::{copy_json, json_string_literal, quote_json, same_json, JsonValue};
use crate::text::{all_digits, decimal, decimal_reads_back, digits_value, push_decimal};
use vstd::prelude::*;

verus! {

/// The text of an optional `String`.
pub open spec fn opt_text(o: Option<String>) -> Option<Seq<char>> {
    match o {
        Some(s) => Some(s@),
        None => None,
    }
}

/// A message from the browser: the response to a command (it carries the command's `id`)
/// or an event (it carries a `method`).
#[derive(Debug)]
pub struct WsResponse {
    pub id: Option<u64>,
    pub result: Option<JsonValue>,
    pub error: Option<JsonValue>,
    pub method: Option<String>,
    pub params: Option<JsonValue>,
    /// Flat-session identifier telling which tab this message belongs to.
    ///
    /// Chrome only sets it once the connection has attached to a target with
    /// `flatten: true`. It stays `None` for browser-level traffic and for connections
    /// opened straight against a single page endpoint.
    pub session_id: Option<String>,
}

/// Whether two optional values are both absent or the same JSON.
pub open spec fn same_opt_json(a: Option<JsonValue>, b: Option<JsonValue>) -> bool {
    match (a, b) {
        (Some(x), Some(y)) => same_json(x, y),
        (None, None) => true,
        _ => false,
    }
}

fn copy_opt_json(v: &Option<JsonValue>) -> (r: Option<JsonValue>)
    ensures
        same_opt_json(*v, r),
{
    match v {
        Some(j) => Some(copy_json(j)),
        None => None,
    }
}

fn copy_opt_string(v: &Option<String>) -> (r: Option<String>)
    ensures
        r == *v,
{
    match v {
        Some(s) => Some(s.clone()),
        None => None,
    }
}

impl Clone for WsResponse {
    fn clone(&self) -> (r: Self)
        ensures
            r.id == self.id,
            same_opt_json(self.result, r.result),
            same_opt_json(self.error, r.error),
            r.method == self.method,
            same_opt_json(self.params, r.params),
            r.session_id == self.session_id,
    {
        WsResponse {
            id: self.id,
            result: copy_opt_json(&self.result),
            error: copy_opt_json(&self.error),
            method: copy_opt_string(&self.method),
            params: copy_opt_json(&self.params),
            session_id: copy_opt_string(&self.session_id),
        }
    }
}

impl Default for WsResponse {
    fn default() -> (r: Self)
        ensures
            r.id is None,
            r.result is None,
            r.error is None,
            r.method is None,
            r.params is None,
            r.session_id is None,
    {
        WsResponse { id: None, result: None, error: None, method: None, params: None, session_id: None }
    }
}

/// The JSON text of a command: `id`, `method`, then `params` and `sessionId` only when they
/// are present, with no spaces.
pub open spec fn command_json(
    id: u64,
    method: Seq<char>,
    params: Option<Seq<char>>,
    session_id: Option<Seq<char>>,
) -> Seq<char> {
    "{\"id\":"@ + decimal(id as nat) + ",\"method\":"@ + json_string_literal(method) + match params {
        Some(p) => ",\"params\":"@ + p,
        None => Seq::empty(),
    } + match session_id {
        Some(s) => ",\"sessionId\":"@ + json_string_literal(s),
        None => Seq::empty(),
    } + "}"@
}

/// Routing a command to a tab changes nothing of its wire format but the `sessionId` field
/// added at its end.
pub proof fn session_only_adds_its_field(
    id: u64,
    method: Seq<char>,
    params: Option<Seq<char>>,
    session_id: Seq<char>,
)
    ensures
        command_json(id, method, params, Some(session_id)) == command_json(id, method, params, None).drop_last()
            + ",\"sessionId\":"@ + json_string_literal(session_id) + "}"@,
{
    reveal_strlit("}");
    let base = "{\"id\":"@ + decimal(id as nat) + ",\"method\":"@ + json_string_literal(method) + match params {
        Some(p) => ",\"params\":"@ + p,
        None => Seq::empty(),
    };
    assert((base + Seq::<char>::empty() + "}"@).drop_last() =~= base);
    assert(command_json(id, method, params, Some(session_id)) =~= base + (",\"sessionId\":"@ + json_string_literal(session_id)) + "}"@);
}

/// The `id` member of a command's wire text is the command's own id: the text starts with
/// `{"id":`, then decimal digits that read back as the id, then a comma.
pub proof fn wire_id_is_the_command_id(
    id: u64,
    method: Seq<char>,
    params: Option<Seq<char>>,
    session_id: Option<Seq<char>>,
)
    ensures
        ({
            let text = command_json(id, method, params, session_id);
            let head = "{\"id\":"@;
            exists|k: int| #![trigger text[k]]
                head.len() < k < text.len()
                && text.subrange(0, head.len() as int) == head
                && all_digits(text.subrange(head.len() as int, k))
                && digits_value(text.subrange(head.len() as int, k)) == id
                && text[k] == ','
        }),
{
    let text = command_json(id, method, params, session_id);
    let head = "{\"id\":"@;
    reveal_strlit("{\"id\":");
    reveal_strlit(",\"method\":");
    decimal_reads_back(id as nat);
    let d = decimal(id as nat);
    let k: int = (head.len() + d.len()) as int;
    let rest = ",\"method\":"@ + json_string_literal(method) + match params {
        Some(p) => ",\"params\":"@ + p,
        None => Seq::empty(),
    } + match session_id {
        Some(s) => ",\"sessionId\":"@ + json_string_literal(s),
        None => Seq::empty(),
    } + "}"@;
    assert(text =~= head + d + rest);
    assert(text.subrange(0, head.len() as int) =~= head);
    assert(text.subrange(head.len() as int, k) =~= d);
    assert(text[k] == rest[0]);
    assert(rest[0] == ',');
}

/// A command to the browser.
///
/// `params` holds the parameters already written as JSON text. `session_id` routes the command
/// to a single tab; when it is `None` the command keeps the wire format of a page-level
/// connection, with no `sessionId` at all.
#[derive(Debug)]
pub struct WsCommand {
    pub id: u64,
    pub method: String,
    pub params: Option<String>,
    pub session_id: Option<String>,
}

impl WsCommand {
    /// The JSON text that goes on the wire for this command.
    pub fn to_json(&self) -> (r: String)
        ensures
            r@ == command_json(self.id, self.method@, opt_text(self.params), opt_text(self.session_id)),
    {
        let mut out = String::from_str("{\"id\":");
        push_decimal(&mut out, self.id);
        out.append(",\"method\":");
        let method = quote_json(self.method.as_str());
        out.append(method.as_str());
        let ghost head = out@;
        match &self.params {
            Some(p) => {
                out.append(",\"params\":");
                out.append(p.as_str());
            },
            None => {},
        }
        let ghost with_params = out@;
        match &self.session_id {
            Some(s) => {
                out.append(",\"sessionId\":");
                let quoted = quote_json(s.as_str());
                out.append(quoted.as_str());
            },
            None => {},
        }
        let ghost with_session = out@;
        out.append("}");
        proof {
            let p_part = match opt_text(self.params) {
                Some(p) => ",\"params\":"@ + p,
                None => Seq::<char>::empty(),
            };
            let s_part = match opt_text(self.session_id) {
                Some(s) => ",\"sessionId\":"@ + json_string_literal(s),
                None => Seq::<char>::empty(),
            };
            assert(with_params =~= head + p_part);
            assert(with_session =~= head + p_part + s_part);
        }
        out
    }
}

/// Parameters for a command that takes none; they are written as JSON `null`.
#[derive(Debug, Clone, Copy)]
pub struct NoParams;

impl NoParams {
    /// The JSON text of these parameters.
    pub fn to_json(&self) -> (r: String)
        ensures
            r@ == "null"@,
    {
        String::from_str("null")
    }
}

} // verus!
