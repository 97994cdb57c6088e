//! The bookkeeping of one connection: which commands wait for a reply, which id the next
//! command gets, whether the connection is still up, where an incoming message goes, and how a
//! wait for a reply ends.

use crate::error::CdpError;
use crate::json::{get_i64, get_text, member_i64, member_text, JsonValue};
use crate::protocol::{command_json, opt_text, WsCommand, WsResponse};
use std::collections::HashMap;
use std::time::Duration;
use vstd::prelude::*;

verus! {

broadcast use vstd::std_specs::hash::group_hash_axioms;

/// The state of a connection, as a value: the waiter of each command that awaits its reply,
/// keyed by command id; the id the next command gets; and whether the connection is up.
pub struct TableView<W> {
    pub pending: Map<u64, W>,
    pub next_id: u64,
    pub open: bool,
}

/// Every waiting command has an id that was handed out already: ids start at 1 and the next id
/// is above all of them.
pub open spec fn well_formed<W>(t: TableView<W>) -> bool {
    &&& 1 <= t.next_id
    &&& forall|id: u64| #[trigger] t.pending.contains_key(id) ==> 1 <= id < t.next_id
}

/// Whether a new command can be registered: the connection is up and ids are left.
pub open spec fn can_begin<W>(t: TableView<W>) -> bool {
    t.open && t.next_id < u64::MAX
}

/// The state after registering a command whose reply goes to `waiter`: it takes the next id.
pub open spec fn began<W>(t: TableView<W>, waiter: W) -> TableView<W> {
    TableView { pending: t.pending.insert(t.next_id, waiter), next_id: (t.next_id + 1) as u64, open: t.open }
}

/// The state after the command `id` stops waiting (its reply came, or it timed out).
pub open spec fn released<W>(t: TableView<W>, id: u64) -> TableView<W> {
    TableView { pending: t.pending.remove(id), next_id: t.next_id, open: t.open }
}

/// The waiter that a reply to the command `id` goes to, if that command still waits.
pub open spec fn waiter_of<W>(t: TableView<W>, id: u64) -> Option<W> {
    if t.pending.contains_key(id) {
        Some(t.pending[id])
    } else {
        None
    }
}

/// Commands awaiting the reply that carries their id, and the id and liveness bookkeeping of
/// the connection they go over.
///
/// One table per connection: a browser-level connection routes the replies of every attached
/// tab through it, which is why ids are handed out per connection rather than per tab.
pub struct CommandTable<W> {
    pending: HashMap<u64, W>,
    next_id: u64,
    alive: bool,
}

/// Where an incoming message goes.
pub enum Routed<W> {
    /// The reply to a waiting command, for its waiter.
    Reply(W, WsResponse),
    /// A reply to a command that no longer waits (it timed out, or was never sent here).
    Unclaimed(u64, WsResponse),
    /// An event, for every subscriber.
    Event(WsResponse),
    /// A message with neither an id nor a method.
    Unrecognized(WsResponse),
}

impl<W> View for CommandTable<W> {
    type V = TableView<W>;

    closed spec fn view(&self) -> TableView<W> {
        TableView { pending: self.pending@, next_id: self.next_id, open: self.alive }
    }
}

impl<W> CommandTable<W> {
    #[verifier::type_invariant]
    closed spec fn inv(self) -> bool {
        well_formed(self@)
    }

    /// A table for a new connection: up, with nothing waiting, the first id being 1.
    pub fn new() -> (r: Self)
        ensures
            r@.pending == Map::<u64, W>::empty(),
            r@.next_id == 1,
            r@.open,
            well_formed(r@),
    {
        CommandTable { pending: HashMap::new(), next_id: 1, alive: true }
    }

    /// Registers a command whose reply goes to `waiter`, and hands out its id.
    ///
    /// A connection that is down refuses with `Disconnected`. Ids are never reused: once the
    /// last id is handed out, commands are refused with an internal error.
    pub fn begin(&mut self, waiter: W) -> (r: Result<u64, CdpError>)
        ensures
            well_formed(final(self)@),
            can_begin(old(self)@) ==> r == Ok::<u64, CdpError>(old(self)@.next_id)
                && final(self)@ == began(old(self)@, waiter),
            old(self)@.open && old(self)@.next_id < u64::MAX ==> r == Ok::<u64, CdpError>(old(self)@.next_id)
                && final(self)@.pending == old(self)@.pending.insert(old(self)@.next_id, waiter)
                && final(self)@.next_id == old(self)@.next_id + 1,
            !old(self)@.open ==> (r matches Err(CdpError::Disconnected)) && final(self)@ == old(self)@,
            old(self)@.open && !can_begin(old(self)@) ==> (r matches Err(CdpError::InternalError(m))
                && m@ == "command ids exhausted"@) && final(self)@ == old(self)@,
    {
        proof { use_type_invariant(&*self); }
        if !self.alive {
            return Err(CdpError::Disconnected);
        }
        if self.next_id == u64::MAX {
            return Err(CdpError::InternalError(String::from_str("command ids exhausted")));
        }
        let id = self.next_id;
        let ghost before = self@;
        let mut pending = HashMap::new();
        std::mem::swap(&mut pending, &mut self.pending);
        self.next_id = id + 1;
        pending.insert(id, waiter);
        assert(pending@ =~= before.pending.insert(id, waiter));
        self.pending = pending;
        Ok(id)
    }

    /// Registers the command `method` whose reply goes to `waiter`, and writes the text that
    /// goes on the wire for it: its id, its method, then its parameters (already JSON text) and
    /// its tab's session when there are any.
    pub fn prepare(
        &mut self,
        waiter: W,
        method: &str,
        params: Option<String>,
        session_id: Option<String>,
    ) -> (r: Result<(u64, String), CdpError>)
        ensures
            well_formed(final(self)@),
            can_begin(old(self)@) ==> (r matches Ok((id, frame)) && id == old(self)@.next_id
                && frame@ == command_json(id, method@, opt_text(params), opt_text(session_id)))
                && final(self)@ == began(old(self)@, waiter),
            !old(self)@.open ==> (r matches Err(CdpError::Disconnected)) && final(self)@ == old(self)@,
            old(self)@.open && !can_begin(old(self)@) ==> (r matches Err(CdpError::InternalError(m))
                && m@ == "command ids exhausted"@) && final(self)@ == old(self)@,
    {
        let id = match self.begin(waiter) {
            Ok(id) => id,
            Err(e) => return Err(e),
        };
        let command = WsCommand { id, method: String::from_str(method), params, session_id };
        let frame = command.to_json();
        Ok((id, frame))
    }

    /// Hands a message to whoever is waiting for it.
    ///
    /// A message carrying an id answers that command: it goes to the command's waiter, which
    /// stops waiting. A message carrying a method (and no id) is an event.
    pub fn route(&mut self, response: WsResponse) -> (r: Routed<W>)
        ensures
            well_formed(final(self)@),
            match response.id {
                Some(id) => final(self)@ == released(old(self)@, id) && match waiter_of(old(self)@, id) {
                    Some(w) => r == Routed::Reply(w, response),
                    None => r == Routed::<W>::Unclaimed(id, response),
                },
                None => final(self)@ == old(self)@ && if response.method is Some {
                    r == Routed::<W>::Event(response)
                } else {
                    r == Routed::<W>::Unrecognized(response)
                },
            },
    {
        proof { use_type_invariant(&*self); }
        match response.id {
            Some(id) => {
                let ghost before = self@;
                let mut pending = HashMap::new();
                std::mem::swap(&mut pending, &mut self.pending);
                let taken = pending.remove(&id);
                assert(pending@ =~= before.pending.remove(id));
                self.pending = pending;
                match taken {
                    Some(w) => Routed::Reply(w, response),
                    None => Routed::Unclaimed(id, response),
                }
            },
            None => {
                if response.method.is_some() {
                    Routed::Event(response)
                } else {
                    Routed::Unrecognized(response)
                }
            },
        }
    }

    /// Stops waiting for the reply to the command `id`, when its wait timed out; says whether
    /// it was waiting.
    pub fn expire(&mut self, id: u64) -> (r: bool)
        ensures
            well_formed(final(self)@),
            final(self)@ == released(old(self)@, id),
            r == old(self)@.pending.contains_key(id),
    {
        proof { use_type_invariant(&*self); }
        let ghost before = self@;
        let mut pending = HashMap::new();
        std::mem::swap(&mut pending, &mut self.pending);
        let taken = pending.remove(&id);
        assert(pending@ =~= before.pending.remove(id));
        self.pending = pending;
        taken.is_some()
    }

    /// Marks the connection as down: later commands are refused.
    pub fn mark_disconnected(&mut self)
        ensures
            well_formed(final(self)@),
            final(self)@ == (TableView { open: false, ..old(self)@ }),
    {
        proof { use_type_invariant(&*self); }
        self.alive = false;
    }

    /// Wakes every caller still waiting, once the socket is gone: every waiter is dropped, and
    /// a dropped waiter tells its caller that the connection was lost.
    pub fn fail_pending_requests(&mut self)
        ensures
            well_formed(final(self)@),
            final(self)@ == (TableView { pending: Map::<u64, W>::empty(), ..old(self)@ }),
    {
        proof { use_type_invariant(&*self); }
        self.pending = HashMap::new();
    }

    /// Whether the connection is up.
    pub fn is_alive(&self) -> (r: bool)
        ensures
            r == self@.open,
    {
        self.alive
    }

    /// How many commands wait for their reply.
    pub fn pending_count(&self) -> (r: usize)
        ensures
            r == self@.pending.len(),
    {
        self.pending.len()
    }

    /// Whether the command `id` waits for its reply.
    pub fn is_pending(&self, id: u64) -> (r: bool)
        ensures
            r == self@.pending.contains_key(id),
    {
        self.pending.contains_key(&id)
    }
}

/// The id a command gets was not waiting already, and the table stays well formed.
pub proof fn issued_id_is_fresh<W>(t: TableView<W>, waiter: W)
    requires
        well_formed(t),
        can_begin(t),
    ensures
        !t.pending.contains_key(t.next_id),
        well_formed(began(t, waiter)),
{
}

/// Ids stay unique: two commands registered one after the other get different ids, whichever
/// tab each belongs to.
pub proof fn ids_stay_unique<W>(t: TableView<W>, first: W, second: W)
    requires
        well_formed(t),
        can_begin(t),
        can_begin(began(t, first)),
    ensures
        began(t, first).next_id != t.next_id,
        !began(t, first).pending.contains_key(began(t, first).next_id),
        waiter_of(began(began(t, first), second), t.next_id) == Some(first),
        waiter_of(began(began(t, first), second), began(t, first).next_id) == Some(second),
{
}

/// A reply goes to the caller that registered its command.
pub proof fn reply_goes_to_its_caller<W>(t: TableView<W>, waiter: W)
    requires
        well_formed(t),
        can_begin(t),
    ensures
        waiter_of(began(t, waiter), t.next_id) == Some(waiter),
{
}

/// Once a command stops waiting, because its reply came or its wait timed out, it is no longer
/// pending and a later message with its id reaches nobody; every other command keeps its
/// waiter.
pub proof fn released_command_no_longer_waits<W>(t: TableView<W>, id: u64, other: u64)
    ensures
        !released(t, id).pending.contains_key(id),
        waiter_of(released(t, id), id) is None,
        other != id ==> waiter_of(released(t, id), other) == waiter_of(t, other),
        well_formed(t) ==> well_formed(released(t, id)),
{
}

/// A connection that is up accepts a new command whenever ids are left: a command is refused
/// for lack of ids only once the id counter has reached `u64::MAX`, and the command then takes
/// the current id, the next one being one higher.
pub proof fn open_connection_accepts_commands<W>(t: TableView<W>, waiter: W)
    requires
        t.open,
        t.next_id < u64::MAX,
    ensures
        can_begin(t),
        began(t, waiter).pending.contains_key(t.next_id),
        began(t, waiter).pending[t.next_id] == waiter,
        began(t, waiter).next_id == t.next_id + 1,
        began(t, waiter).open,
{
}

/// A connection marked as down refuses every new command.
pub proof fn disconnected_table_refuses_commands<W>(t: TableView<W>)
    ensures
        !can_begin(TableView { open: false, ..t }),
{
}

/// How the wait for a reply ended.
pub enum WaitOutcome {
    /// The reply came.
    Answered(WsResponse),
    /// The waiter was dropped before a reply came: the connection is gone.
    Abandoned,
    /// No reply came in time.
    TimedOut,
}

/// The code of a protocol error object, `-1` when it has none.
pub open spec fn error_code(e: JsonValue) -> i64 {
    match member_i64(e, "code"@) {
        Some(c) => c,
        None => -1i64,
    }
}

/// The message of a protocol error object, a fixed text when it has none.
pub open spec fn error_message(e: JsonValue) -> Seq<char> {
    match member_text(e, "message"@) {
        Some(m) => m,
        None => "Unknown CDP error"@,
    }
}

/// The error for a reply that carries the protocol error object `e`.
pub fn protocol_error(e: &JsonValue) -> (r: CdpError)
    ensures
        r matches CdpError::ProtocolError { code, message } && code == error_code(*e)
            && message@ == error_message(*e),
{
    let code = match get_i64(e, "code") {
        Some(c) => c,
        None => -1i64,
    };
    let message = match get_text(e, "message") {
        Some(m) => m.clone(),
        None => String::from_str("Unknown CDP error"),
    };
    CdpError::ProtocolError { code, message }
}

/// The result of a command `method` whose wait for a reply ended with `outcome`, the wait being
/// bounded by `timeout`.
///
/// A reply that carries an error object is a protocol error; any other reply is the result. A
/// dropped waiter means the connection was lost.
pub fn settle(outcome: WaitOutcome, method: &str, timeout: Duration) -> (r: Result<WsResponse, CdpError>)
    ensures
        match outcome {
            WaitOutcome::Answered(response) => match response.error {
                Some(e) => r matches Err(CdpError::ProtocolError { code, message })
                    && code == error_code(e) && message@ == error_message(e),
                None => r == Ok::<WsResponse, CdpError>(response),
            },
            WaitOutcome::Abandoned => r matches Err(CdpError::Disconnected),
            WaitOutcome::TimedOut => r matches Err(CdpError::Timeout { method: m, timeout: t })
                && m@ == method@ && t == timeout,
        },
{
    match outcome {
        WaitOutcome::Answered(response) => match &response.error {
            Some(e) => Err(protocol_error(e)),
            None => Ok(response),
        },
        WaitOutcome::Abandoned => Err(CdpError::Disconnected),
        WaitOutcome::TimedOut => Err(CdpError::Timeout { method: String::from_str(method), timeout }),
    }
}

} // verus!
