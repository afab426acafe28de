//! The bookkeeping and decisions of one OCPP client connection, shared by every OCPP version.
//!
//! The engine holds what the client must remember between frames: the requests still waiting
//! for a CALLRESULT/CALLERROR (keyed by message id), the handlers registered for CALLs and
//! SENDs the peer may send, the pings still waiting for their pong, the keepalive interval in
//! force, and whether the client was shut down. It decides what each received frame means for
//! them. Waiting, spawning and writing to the transport are left to its caller, which hands it
//! its own waiter (`W`, `Q`) and handler (`H`, `N`) handles.

use vstd::prelude::*;
use std::collections::BTreeMap;
use crate::envelope::{
    decode_frame, encode_frame, spec_decode, spec_encode, Envelope, FrameError, Outgoing,
    ParsedFrame,
};
use crate::ids::{
    fresh_uuid, is_v4_uuid, lemma_v4_candidate, parse_uuid, spec_v4_candidate, uuid_of_text, uuid_text,
    uuid_to_text, v4_candidate,
};
use crate::json::{empty_object, json_empty_object};
use crate::keepalive::{
    is_default_policy, normalize_ping_interval, spec_initial_interval, spec_interval_millis, spec_millis_interval_nanos, KeepaliveBehavior,
    KeepalivePolicy, KeepaliveState,
};
use crate::registry::{
    is_registered, lemma_registering_keeps_other_actions, Registration, Registry,
};
use crate::text::{not_implemented_text, spec_not_implemented_text};
use crate::time::Duration;
use crate::transport::{spec_token_bytes, spec_token_of, PongWaiters};

verus! {

broadcast use vstd::laws_cmp::group_laws_cmp;

/// The client was shut down: nothing more is sent.
#[derive(Debug, Clone, Copy, PartialEq, Eq)]
pub struct ClientClosed;

/// The parts of a received CALLERROR, from which each OCPP version builds its own error.
#[derive(Debug)]
pub struct WireError {
    pub code: String,
    pub description: String,
    pub details: serde_json::Value,
}

/// What a received frame calls for.
#[derive(Debug)]
pub enum Inbound<W, H, N> {
    /// Not a well-formed OCPP-J message: dropped.
    Malformed(FrameError),
    /// A CALL for an action with a handler: hand the message id and payload to it.
    Dispatch { serial: u64, handler: H, message_id: String, payload: serde_json::Value },
    /// A CALL for an action nobody handles: send this CALLERROR back.
    Reply { frame: Vec<Outgoing<serde_json::Value>> },
    /// The answer to an outstanding request: wake its waiter with it.
    Resolve { waiter: W, outcome: Result<serde_json::Value, WireError> },
    /// A CALLRESULT/CALLERROR that answers no outstanding request: dropped.
    Unmatched,
    /// A SEND for an action with a handler: hand the payload to it.
    Notify { serial: u64, handler: N, payload: serde_json::Value },
    /// A SEND nobody handles: dropped (a SEND is never answered).
    UnhandledSend { action: String },
}

/// Whether `frame` is the CALLERROR answering message `message_id` with `NotImplemented`, for a
/// CALL naming `action`. The description is the version errors' `not_implemented` text built
/// around the text `Action '<action>' is not implemented`, and the details are the empty object.
pub open spec fn is_not_implemented_reply(
    frame: Seq<Outgoing<serde_json::Value>>,
    message_id: String,
    action: Seq<char>,
) -> bool {
    &&& frame.len() == 5
    &&& frame[0] == Outgoing::<serde_json::Value>::Unsigned(crate::envelope::MESSAGE_TYPE_ERROR)
    &&& frame[1] == Outgoing::<serde_json::Value>::Text(message_id)
    &&& frame[2] matches Outgoing::Text(code) && code@ == "NotImplemented"@
    &&& frame[3] matches Outgoing::Text(description) && description@
        == spec_not_implemented_text(spec_not_implemented_text(action))
    &&& frame[4] == Outgoing::<serde_json::Value>::Value(json_empty_object())
}

/// The serial of the registration for `action` in `s`.
pub open spec fn registered_with_serial<H>(
    s: Seq<Registration<H>>,
    action: Seq<char>,
    serial: u64,
) -> bool {
    exists|i: int| 0 <= i < s.len() && #[trigger] s[i].action@ == action && s[i].serial == serial
}

/// Whether `handler` is a clone of the handler registered for `action`, whose registration has
/// `serial`.
pub open spec fn handed_to<H: Clone>(
    s: Seq<Registration<H>>,
    action: Seq<char>,
    serial: u64,
    handler: H,
) -> bool {
    exists|i: int|
        0 <= i < s.len() && #[trigger] s[i].action@ == action && s[i].serial == serial
            && cloned::<H>(s[i].handler, handler)
}

/// A finite set that holds the first `count` values of the fallback id enumeration has at least
/// `count` members, as those values are distinct.
proof fn lemma_enumeration_fits(taken: Set<u128>, count: nat)
    requires
        taken.finite(),
        count <= 0x1_0000_0000_0000_0000,
        forall|j: u64| j < count ==> taken.contains(#[trigger] spec_v4_candidate(j)),
    ensures
        count <= taken.len(),
    decreases count,
{
    if count > 0 {
        let last = (count - 1) as u64;
        let rest = taken.remove(spec_v4_candidate(last));
        assert forall|j: u64| j < (count - 1) as nat implies rest.contains(
            #[trigger] spec_v4_candidate(j),
        ) by {
            lemma_v4_candidate(j, last);
        }
        lemma_enumeration_fits(rest, (count - 1) as nat);
    }
}

/// A version-4 message id that no waiting request holds: a freshly drawn random one, or, in the
/// unlikely event that one is taken, the first free value of the fallback enumeration.
fn unused_message_id<W>(pending: &BTreeMap<u128, W>) -> (id: u128)
    ensures
        !pending@.contains_key(id),
        is_v4_uuid(id),
{
    broadcast use vstd::std_specs::btree::group_btree_axioms;
    let drawn = fresh_uuid();
    if !pending.contains_key(&drawn) {
        return drawn;
    }
    let count = pending.len();
    let mut n: usize = 0;
    loop
        invariant
            n <= count,
            count == pending@.len(),
            forall|j: u64| j < n ==> pending@.contains_key(#[trigger] spec_v4_candidate(j)),
        decreases count - n,
    {
        let candidate = v4_candidate(n as u64);
        if !pending.contains_key(&candidate) {
            return candidate;
        }
        proof {
            lemma_enumeration_fits(pending@.dom(), (n + 1) as nat);
        }
        n = n + 1;
    }
}

/// The bookkeeping of one client connection.
pub struct Engine<W, Q, H, N> {
    closed: bool,
    pending: BTreeMap<u128, W>,
    handlers: Registry<H>,
    notification_handlers: Registry<N>,
    pongs: PongWaiters<Q>,
    keepalive: KeepaliveState,
}

impl<W, Q, H: Clone, N: Clone> Engine<W, Q, H, N> {
    /// Whether the client was shut down on purpose. Sticky: nothing clears it.
    pub closed spec fn spec_closed(&self) -> bool {
        self.closed
    }

    /// Requests waiting for an answer, by the 128-bit value of their message id.
    pub closed spec fn spec_pending(&self) -> Map<u128, W> {
        self.pending@
    }

    /// Handlers for CALLs the peer sends.
    pub closed spec fn spec_handlers(&self) -> Seq<Registration<H>> {
        self.handlers.spec_entries()
    }

    /// Handlers for SENDs the peer sends.
    pub closed spec fn spec_notification_handlers(&self) -> Seq<Registration<N>> {
        self.notification_handlers.spec_entries()
    }

    /// Pings waiting for their pong, by token.
    pub closed spec fn spec_pings(&self) -> Map<u64, Q> {
        self.pongs.spec_waiters()
    }

    /// The token the next ping will carry.
    pub closed spec fn spec_next_token(&self) -> u64 {
        self.pongs.spec_next_token()
    }

    /// The keepalive interval and policy in force.
    pub closed spec fn spec_keepalive(&self) -> KeepaliveState {
        self.keepalive
    }

    /// The registries hold at most one handler per action.
    pub closed spec fn wf(&self) -> bool {
        &&& self.handlers.wf()
        &&& self.notification_handlers.wf()
    }

    /// Everything but the pending requests is as in `other`.
    pub open spec fn same_but_pending(&self, other: &Self) -> bool {
        &&& self.wf()
        &&& self.spec_closed() == other.spec_closed()
        &&& self.spec_handlers() == other.spec_handlers()
        &&& self.spec_notification_handlers() == other.spec_notification_handlers()
        &&& self.spec_pings() == other.spec_pings()
        &&& self.spec_next_token() == other.spec_next_token()
        &&& self.spec_keepalive() == other.spec_keepalive()
    }

    /// Everything but the pings is as in `other`.
    pub open spec fn same_but_pings(&self, other: &Self) -> bool {
        &&& self.wf()
        &&& self.spec_closed() == other.spec_closed()
        &&& self.spec_pending() == other.spec_pending()
        &&& self.spec_handlers() == other.spec_handlers()
        &&& self.spec_notification_handlers() == other.spec_notification_handlers()
        &&& self.spec_keepalive() == other.spec_keepalive()
    }

    /// A live client with nothing outstanding and no handlers, keeping alive per `keepalive`.
    pub fn new(keepalive: KeepaliveBehavior) -> (e: Self)
        ensures
            e.wf(),
            !e.spec_closed(),
            e.spec_pending() == Map::<u128, W>::empty(),
            e.spec_handlers() == Seq::<Registration<H>>::empty(),
            e.spec_notification_handlers() == Seq::<Registration<N>>::empty(),
            e.spec_pings() == Map::<u64, Q>::empty(),
            e.spec_keepalive().spec_millis() == spec_interval_millis(
                spec_initial_interval(keepalive),
            ),
            match keepalive {
                KeepaliveBehavior::Enabled(own) => e.spec_keepalive().spec_policy() == own,
                KeepaliveBehavior::Disabled => is_default_policy(e.spec_keepalive().spec_policy()),
            },
    {
        Engine {
            closed: false,
            pending: BTreeMap::new(),
            handlers: Registry::new(),
            notification_handlers: Registry::new(),
            pongs: PongWaiters::new(),
            keepalive: KeepaliveState::new(keepalive),
        }
    }

    /// Whether the client was shut down on purpose.
    pub fn is_closed(&self) -> (b: bool)
        ensures
            b == self.spec_closed(),
    {
        self.closed
    }

    /// Shuts the client down for good. Returns whether it was still open, so only the first
    /// call does the work: calling it again changes nothing.
    pub fn shut_down(&mut self) -> (was_open: bool)
        requires
            old(self).wf(),
        ensures
            final(self).wf(),
            was_open == !old(self).spec_closed(),
            final(self).spec_closed(),
            final(self).spec_pending() == old(self).spec_pending(),
            final(self).spec_handlers() == old(self).spec_handlers(),
            final(self).spec_notification_handlers() == old(self).spec_notification_handlers(),
            final(self).spec_pings() == old(self).spec_pings(),
            final(self).spec_next_token() == old(self).spec_next_token(),
            final(self).spec_keepalive() == old(self).spec_keepalive(),
    {
        let was_open = !self.closed;
        self.closed = true;
        was_open
    }

    /// Whether a forced reconnect may go ahead: never once the client was shut down.
    pub fn may_force_reconnect(&self) -> (b: bool)
        ensures
            b == !self.spec_closed(),
    {
        !self.closed
    }

    /// Starts a CALL for `action`: picks a fresh message id (a random version-4 UUID that no
    /// waiting request holds, so no outstanding request is displaced), records `waiter` under it and
    /// returns the id with the frame to send; the id's text, as the frame carries it, reads back
    /// as the same id, so an answer echoing it finds the waiter. A shut-down client sends nothing.
    pub fn start_request(
        &mut self,
        action: String,
        payload: serde_json::Value,
        waiter: W,
    ) -> (r: Result<(u128, Vec<Outgoing<serde_json::Value>>), ClientClosed>)
        requires
            old(self).wf(),
        ensures
            old(self).spec_closed() ==> r is Err && *final(self) == *old(self),
            !old(self).spec_closed() ==> (r matches Ok((id, frame)) && final(self).same_but_pending(
                old(self),
            ) && final(self).spec_pending() == old(self).spec_pending().insert(id, waiter)
                && uuid_of_text(uuid_text(id)) == Some(id)
                && !old(self).spec_pending().contains_key(id) && is_v4_uuid(id)
                && exists|message_id: String|
                message_id@ == uuid_text(id) && frame@ == #[trigger] spec_encode(
                    Envelope::Call { message_id, action, payload },
                )),
    {
        if self.closed {
            return Err(ClientClosed);
        }
        let id = unused_message_id(&self.pending);
        let message_id = uuid_to_text(id);
        self.pending.insert(id, waiter);
        let frame = encode_frame(Envelope::Call { message_id, action, payload });
        Ok((id, frame))
    }

    /// Drops the waiter of a request that gave up (timed out, or never reached the wire), so
    /// no entry is left behind.
    pub fn forget_request(&mut self, id: u128) -> (w: Option<W>)
        requires
            old(self).wf(),
        ensures
            final(self).same_but_pending(old(self)),
            final(self).spec_pending() == old(self).spec_pending().remove(id),
            w == (if old(self).spec_pending().contains_key(id) {
                Some(old(self).spec_pending()[id])
            } else {
                None
            }),
    {
        self.pending.remove(&id)
    }

    /// How many requests are still waiting for an answer.
    pub fn pending_request_count(&self) -> (n: usize)
        ensures
            n == self.spec_pending().len(),
    {
        self.pending.len()
    }

    /// The frame of a SEND (fire-and-forget, never answered) for `action`, under a fresh
    /// message id: a random version-4 UUID that no waiting request holds. A shut-down client
    /// sends nothing.
    pub fn notification_frame(&self, action: String, payload: serde_json::Value) -> (r: Result<
        Vec<Outgoing<serde_json::Value>>,
        ClientClosed,
    >)
        ensures
            self.spec_closed() ==> r is Err,
            !self.spec_closed() ==> (r matches Ok(frame) && exists|message_id: String|
                uuid_of_text(message_id@) is Some && frame@ == #[trigger] spec_encode(
                    Envelope::Send { message_id, action, payload },
                )),
            !self.spec_closed() ==> (r matches Ok(frame) && exists|message_id: String, id: u128|
                #![trigger spec_encode(Envelope::Send { message_id, action, payload }), is_v4_uuid(id)]
                message_id@ == uuid_text(id) && uuid_of_text(message_id@) == Some(id)
                    && is_v4_uuid(id) && !self.spec_pending().contains_key(id)
                    && frame@ == spec_encode(Envelope::Send { message_id, action, payload })),
    {
        if self.closed {
            return Err(ClientClosed);
        }
        let id = unused_message_id(&self.pending);
        let message_id = uuid_to_text(id);
        Ok(encode_frame(Envelope::Send { message_id, action, payload }))
    }

    /// Registers the handler for CALLs of `action`, replacing (and handing back, to be retired)
    /// the one registered before.
    pub fn register_handler(&mut self, action: String, handler: H) -> (r: (u64, Option<H>))
        requires
            old(self).wf(),
        ensures
            final(self).wf(),
            final(self).spec_closed() == old(self).spec_closed(),
            final(self).spec_pending() == old(self).spec_pending(),
            final(self).spec_notification_handlers() == old(self).spec_notification_handlers(),
            final(self).spec_pings() == old(self).spec_pings(),
            final(self).spec_keepalive() == old(self).spec_keepalive(),
            registered_with_serial(final(self).spec_handlers(), action@, r.0),
            r.1 is Some <==> is_registered(old(self).spec_handlers(), action@),
            match r.1 {
                Some(previous) => exists|i: int|
                    0 <= i < old(self).spec_handlers().len()
                        && #[trigger] old(self).spec_handlers()[i].action@ == action@
                        && old(self).spec_handlers()[i].handler == previous
                        && final(self).spec_handlers() == old(self).spec_handlers().update(
                        i,
                        Registration { action, serial: r.0, handler },
                    ),
                None => final(self).spec_handlers() == old(self).spec_handlers().push(
                    Registration { action, serial: r.0, handler },
                ),
            },
            forall|other: Seq<char>|
                other != action@ ==> (#[trigger] is_registered(final(self).spec_handlers(), other)
                    <==> is_registered(old(self).spec_handlers(), other)),
    {
        let ghost action_view = action@;
        let ghost given_action = action;
        let ghost given_handler = handler;
        let ghost old_entries = self.handlers.spec_entries();
        let r = self.handlers.register(action, handler);
        proof {
            let s = self.handlers.spec_entries();
            let entry = Registration { action: given_action, serial: r.0, handler: given_handler };
            if r.1 is Some {
                let previous = r.1->0;
                let i = choose|i: int|
                    0 <= i < old_entries.len() && #[trigger] old_entries[i].action@
                        == action_view && old_entries[i].handler == previous && s
                        == old_entries.update(i, entry);
                assert(s[i] == entry);
                assert(s[i].action@ == action_view && s[i].serial == r.0);
                assert(old_entries[i].handler == previous);
            } else {
                assert(s[old_entries.len() as int] == entry);
                assert(s[old_entries.len() as int].action@ == action_view);
            }
            lemma_registering_keeps_other_actions(old_entries, self.handlers.spec_entries(), action_view);
        }
        r
    }

    /// Removes the handler for `action` only if it is still the registration with `serial`.
    pub fn unregister_handler_if(&mut self, action: &String, serial: u64) -> (removed: bool)
        requires
            old(self).wf(),
        ensures
            final(self).wf(),
            final(self).spec_closed() == old(self).spec_closed(),
            final(self).spec_pending() == old(self).spec_pending(),
            final(self).spec_notification_handlers() == old(self).spec_notification_handlers(),
            final(self).spec_pings() == old(self).spec_pings(),
            final(self).spec_keepalive() == old(self).spec_keepalive(),
            removed == registered_with_serial(old(self).spec_handlers(), action@, serial),
            removed ==> !is_registered(final(self).spec_handlers(), action@),
            !removed ==> final(self).spec_handlers() == old(self).spec_handlers(),
    {
        let ghost old_entries = self.handlers.spec_entries();
        let removed = self.handlers.unregister_if(action, serial);
        proof {
            if removed {
                let s = self.handlers.spec_entries();
                let i = choose|i: int|
                    0 <= i < old_entries.len() && #[trigger] old_entries[i].action@ == action@
                        && old_entries[i].serial == serial && s == old_entries.remove(i);
                if is_registered(s, action@) {
                    let k = choose|k: int| 0 <= k < s.len() && #[trigger] s[k].action@ == action@;
                    if k < i {
                        assert(old_entries[k].action@ != old_entries[i].action@);
                    } else {
                        assert(old_entries[i].action@ != old_entries[k + 1].action@);
                    }
                }
            }
        }
        removed
    }

    /// Registers the handler for SENDs of `action`, replacing (and handing back, to be retired)
    /// the one registered before.
    pub fn register_notification_handler(&mut self, action: String, handler: N) -> (r: (
        u64,
        Option<N>,
    ))
        requires
            old(self).wf(),
        ensures
            final(self).wf(),
            final(self).spec_closed() == old(self).spec_closed(),
            final(self).spec_pending() == old(self).spec_pending(),
            final(self).spec_handlers() == old(self).spec_handlers(),
            final(self).spec_pings() == old(self).spec_pings(),
            final(self).spec_keepalive() == old(self).spec_keepalive(),
            registered_with_serial(final(self).spec_notification_handlers(), action@, r.0),
            r.1 is Some <==> is_registered(old(self).spec_notification_handlers(), action@),
            match r.1 {
                Some(previous) => exists|i: int|
                    0 <= i < old(self).spec_notification_handlers().len()
                        && #[trigger] old(self).spec_notification_handlers()[i].action@ == action@
                        && old(self).spec_notification_handlers()[i].handler == previous
                        && final(self).spec_notification_handlers()
                        == old(self).spec_notification_handlers().update(
                        i,
                        Registration { action, serial: r.0, handler },
                    ),
                None => final(self).spec_notification_handlers()
                    == old(self).spec_notification_handlers().push(
                    Registration { action, serial: r.0, handler },
                ),
            },
            forall|other: Seq<char>|
                other != action@ ==> (#[trigger] is_registered(
                    final(self).spec_notification_handlers(),
                    other,
                ) <==> is_registered(old(self).spec_notification_handlers(), other)),
    {
        let ghost action_view = action@;
        let ghost given_action = action;
        let ghost given_handler = handler;
        let ghost old_entries = self.notification_handlers.spec_entries();
        let r = self.notification_handlers.register(action, handler);
        proof {
            let s = self.notification_handlers.spec_entries();
            let entry = Registration { action: given_action, serial: r.0, handler: given_handler };
            if r.1 is Some {
                let previous = r.1->0;
                let i = choose|i: int|
                    0 <= i < old_entries.len() && #[trigger] old_entries[i].action@
                        == action_view && old_entries[i].handler == previous && s
                        == old_entries.update(i, entry);
                assert(s[i] == entry);
                assert(s[i].action@ == action_view && s[i].serial == r.0);
                assert(old_entries[i].handler == previous);
            } else {
                assert(s[old_entries.len() as int] == entry);
                assert(s[old_entries.len() as int].action@ == action_view);
            }
            lemma_registering_keeps_other_actions(
                old_entries,
                self.notification_handlers.spec_entries(),
                action_view,
            );
        }
        r
    }

    /// Decides what a received frame calls for, and updates the bookkeeping: an answer removes
    /// the request it resolves.
    pub fn route(&mut self, frame: ParsedFrame<serde_json::Value>) -> (r: Inbound<W, H, N>)
        requires
            old(self).wf(),
        ensures
            final(self).same_but_pending(old(self)),
            match spec_decode(frame) {
                Err(e) => r == Inbound::<W, H, N>::Malformed(e) && final(self).spec_pending()
                    == old(self).spec_pending(),
                Ok(Envelope::Call { message_id, action, payload }) => final(self).spec_pending()
                    == old(self).spec_pending() && if is_registered(
                    old(self).spec_handlers(),
                    action@,
                ) {
                    r matches Inbound::Dispatch { serial, handler, message_id: m, payload: p } && m
                        == message_id && p == payload && handed_to(
                        old(self).spec_handlers(),
                        action@,
                        serial,
                        handler,
                    )
                } else {
                    r matches Inbound::Reply { frame } && is_not_implemented_reply(
                        frame@,
                        message_id,
                        action@,
                    )
                },
                Ok(Envelope::CallResult { message_id, payload }) => match uuid_of_text(
                    message_id@,
                ) {
                    Some(id) => if old(self).spec_pending().contains_key(id) {
                        r == Inbound::<W, H, N>::Resolve {
                            waiter: old(self).spec_pending()[id],
                            outcome: Ok(payload),
                        } && final(self).spec_pending() == old(self).spec_pending().remove(id)
                    } else {
                        r is Unmatched && final(self).spec_pending() == old(self).spec_pending()
                    },
                    None => r is Unmatched && final(self).spec_pending()
                        == old(self).spec_pending(),
                },
                Ok(Envelope::CallError { message_id, code, description, details }) => match uuid_of_text(
                    message_id@,
                ) {
                    Some(id) => if old(self).spec_pending().contains_key(id) {
                        r == Inbound::<W, H, N>::Resolve {
                            waiter: old(self).spec_pending()[id],
                            outcome: Err(WireError { code, description, details }),
                        } && final(self).spec_pending() == old(self).spec_pending().remove(id)
                    } else {
                        r is Unmatched && final(self).spec_pending() == old(self).spec_pending()
                    },
                    None => r is Unmatched && final(self).spec_pending()
                        == old(self).spec_pending(),
                },
                Ok(Envelope::Send { message_id, action, payload }) => final(self).spec_pending()
                    == old(self).spec_pending() && if is_registered(
                    old(self).spec_notification_handlers(),
                    action@,
                ) {
                    r matches Inbound::Notify { serial, handler, payload: p } && p == payload
                        && handed_to(
                        old(self).spec_notification_handlers(),
                        action@,
                        serial,
                        handler,
                    )
                } else {
                    r matches Inbound::UnhandledSend { action: a } && a == action
                },
            },
    {
        let envelope = match decode_frame(frame) {
            Ok(envelope) => envelope,
            Err(e) => return Inbound::Malformed(e),
        };
        match envelope {
            Envelope::Call { message_id, action, payload } => {
                match self.handlers.find(&action) {
                    Some(i) => {
                        let registration = self.handlers.get(i);
                        Inbound::Dispatch {
                            serial: registration.serial,
                            handler: registration.handler.clone(),
                            message_id,
                            payload,
                        }
                    },
                    None => {
                        let description = not_implemented_text(
                            not_implemented_text(action.as_str()).as_str(),
                        );
                        let reply = encode_frame(
                            Envelope::CallError {
                                message_id,
                                code: String::from_str("NotImplemented"),
                                description,
                                details: empty_object(),
                            },
                        );
                        Inbound::Reply { frame: reply }
                    },
                }
            },
            Envelope::CallResult { message_id, payload } => {
                match parse_uuid(message_id.as_str()) {
                    Some(id) => match self.pending.remove(&id) {
                        Some(waiter) => Inbound::Resolve { waiter, outcome: Ok(payload) },
                        None => Inbound::Unmatched,
                    },
                    None => Inbound::Unmatched,
                }
            },
            Envelope::CallError { message_id, code, description, details } => {
                match parse_uuid(message_id.as_str()) {
                    Some(id) => match self.pending.remove(&id) {
                        Some(waiter) => Inbound::Resolve {
                            waiter,
                            outcome: Err(WireError { code, description, details }),
                        },
                        None => Inbound::Unmatched,
                    },
                    None => Inbound::Unmatched,
                }
            },
            Envelope::Send { message_id, action, payload } => {
                match self.notification_handlers.find(&action) {
                    Some(i) => {
                        let registration = self.notification_handlers.get(i);
                        Inbound::Notify {
                            serial: registration.serial,
                            handler: registration.handler.clone(),
                            payload,
                        }
                    },
                    None => Inbound::UnhandledSend { action },
                }
            },
        }
    }

    /// Records a ping about to be sent and returns its token with the payload carrying it. A
    /// shut-down client pings no more.
    pub fn start_ping(&mut self, waiter: Q) -> (r: Result<(u64, Vec<u8>), ClientClosed>)
        requires
            old(self).wf(),
        ensures
            old(self).spec_closed() ==> r is Err && *final(self) == *old(self),
            !old(self).spec_closed() ==> (r matches Ok((token, payload)) && final(self).same_but_pings(old(self))
                && token == old(self).spec_next_token() && payload@ == spec_token_bytes(token)
                && final(self).spec_pings() == old(self).spec_pings().insert(token, waiter)
                && final(self).spec_next_token() == old(self).spec_next_token().wrapping_add(1)),
    {
        if self.closed {
            return Err(ClientClosed);
        }
        Ok(self.pongs.register(waiter))
    }

    /// Drops the waiter of a ping that gave up.
    pub fn forget_ping(&mut self, token: u64)
        requires
            old(self).wf(),
        ensures
            final(self).same_but_pings(old(self)),
            final(self).spec_next_token() == old(self).spec_next_token(),
            final(self).spec_pings() == old(self).spec_pings().remove(token),
    {
        self.pongs.forget(token)
    }

    /// A pong arrived: the waiter of the ping whose token it echoes, which it resolves.
    pub fn take_pong(&mut self, payload: &Vec<u8>) -> (w: Option<Q>)
        requires
            old(self).wf(),
        ensures
            final(self).same_but_pings(old(self)),
            final(self).spec_next_token() == old(self).spec_next_token(),
            match spec_token_of(payload@) {
                Some(t) => if old(self).spec_pings().contains_key(t) {
                    w == Some(old(self).spec_pings()[t]) && final(self).spec_pings() == old(self).spec_pings().remove(t)
                } else {
                    w is None && final(self).spec_pings() == old(self).spec_pings()
                },
                None => w is None && final(self).spec_pings() == old(self).spec_pings(),
            },
    {
        self.pongs.take_for_pong(payload)
    }

    /// The connection the pings went out on died: none of them can be answered now.
    pub fn clear_pings(&mut self)
        requires
            old(self).wf(),
        ensures
            final(self).same_but_pings(old(self)),
            final(self).spec_next_token() == old(self).spec_next_token(),
            final(self).spec_pings() == Map::<u64, Q>::empty(),
    {
        self.pongs.clear()
    }

    /// How many pings are still waiting for a pong.
    pub fn pending_ping_count(&self) -> (n: usize)
        ensures
            n == self.spec_pings().len(),
    {
        self.pongs.len()
    }

    /// The keepalive interval in force, or `None` when keepalive is off. This is the value a
    /// device model reports for `WebSocketPingInterval`, with `None` as the spec's 0.
    pub fn ping_interval(&self) -> (r: Option<Duration>)
        ensures
            match r {
                None => self.spec_keepalive().spec_millis() == 0,
                Some(d) => Some(d.spec_nanos()) == spec_millis_interval_nanos(
                    self.spec_keepalive().spec_millis(),
                ),
            },
    {
        self.keepalive.interval()
    }

    /// Changes the keepalive interval, for a CSMS writing `WebSocketPingInterval`: `None` or a
    /// zero interval turns pinging off.
    pub fn set_ping_interval(&mut self, interval: Option<Duration>)
        requires
            old(self).wf(),
        ensures
            final(self).wf(),
            final(self).spec_closed() == old(self).spec_closed(),
            final(self).spec_pending() == old(self).spec_pending(),
            final(self).spec_handlers() == old(self).spec_handlers(),
            final(self).spec_notification_handlers() == old(self).spec_notification_handlers(),
            final(self).spec_pings() == old(self).spec_pings(),
            final(self).spec_keepalive().spec_policy() == old(self).spec_keepalive().spec_policy(),
            final(self).spec_keepalive().spec_millis() == spec_interval_millis(
                match interval {
                    Some(d) => if d.spec_nanos() == 0 {
                        None
                    } else {
                        Some(d)
                    },
                    None => None,
                },
            ),
    {
        self.keepalive.set_interval(normalize_ping_interval(interval))
    }

    /// The policy governing each keepalive ping.
    pub fn keepalive_policy(&self) -> (p: KeepalivePolicy)
        ensures
            p == self.spec_keepalive().spec_policy(),
    {
        self.keepalive.policy()
    }
}

/// The handler registered last for an action is the one its CALLs go to: the serial a dispatch
/// carries (see `route`) is the serial `register_handler` handed out for that action, as there
/// is only ever one registration per action.
pub proof fn lemma_registered_handler_answers<W, Q, H: Clone, N: Clone>(
    engine: Engine<W, Q, H, N>,
    action: Seq<char>,
    registered: u64,
    dispatched: u64,
    handler: H,
)
    requires
        engine.wf(),
        registered_with_serial(engine.spec_handlers(), action, registered),
        handed_to(engine.spec_handlers(), action, dispatched, handler),
    ensures
        dispatched == registered,
{
    let s = engine.spec_handlers();
    let i = choose|i: int| 0 <= i < s.len() && #[trigger] s[i].action@ == action && s[i].serial == registered;
    let j = choose|j: int|
        0 <= j < s.len() && #[trigger] s[j].action@ == action && s[j].serial == dispatched
            && cloned::<H>(s[j].handler, handler);
    if i < j {
        assert(s[i].action@ != s[j].action@);
    } else if j < i {
        assert(s[j].action@ != s[i].action@);
    }
}

/// After a handler is registered for an action (in place of an earlier one or not), a CALL for
/// that action is handed a clone of that handler, under the serial its registration got: the
/// registration `register_handler` leaves in the table is the only one for its action.
pub proof fn lemma_replacement_handler_answers<W, Q, H: Clone, N: Clone>(
    engine: Engine<W, Q, H, N>,
    action: String,
    serial: u64,
    handler: H,
    dispatched: u64,
    given: H,
)
    requires
        engine.wf(),
        exists|i: int|
            0 <= i < engine.spec_handlers().len() && #[trigger] engine.spec_handlers()[i]
                == (Registration { action, serial, handler }),
        handed_to(engine.spec_handlers(), action@, dispatched, given),
    ensures
        dispatched == serial,
        cloned::<H>(handler, given),
{
    let s = engine.spec_handlers();
    let registration = Registration { action, serial, handler };
    let i = choose|i: int| 0 <= i < s.len() && #[trigger] s[i] == registration;
    let j = choose|j: int|
        0 <= j < s.len() && #[trigger] s[j].action@ == action@ && s[j].serial == dispatched
            && cloned::<H>(s[j].handler, given);
    assert(s[i].action@ == action@);
    if i < j {
        assert(s[i].action@ != s[j].action@);
    } else if j < i {
        assert(s[j].action@ != s[i].action@);
    }
}

/// A CALLRESULT or CALLERROR that echoes the message id a CALL went out with reaches that CALL's
/// waiter: `start_request` records the waiter under `id` and writes the text `uuid_text(id)`,
/// which reads back as `id`, the key `route` looks the answer's waiter up by. So on such a frame
/// `route` takes the branch that resolves exactly this waiter.
pub proof fn lemma_echoed_id_reaches_its_request<W, Q, H: Clone, N: Clone>(
    started: Engine<W, Q, H, N>,
    id: u128,
    waiter: W,
    frame: ParsedFrame<serde_json::Value>,
)
    requires
        started.spec_pending().contains_key(id),
        started.spec_pending()[id] == waiter,
        uuid_of_text(uuid_text(id)) == Some(id),
        match spec_decode(frame) {
            Ok(Envelope::CallResult { message_id, .. }) => message_id@ == uuid_text(id),
            Ok(Envelope::CallError { message_id, .. }) => message_id@ == uuid_text(id),
            _ => false,
        },
    ensures
        match spec_decode(frame) {
            Ok(Envelope::CallResult { message_id, .. }) => uuid_of_text(message_id@) == Some(id),
            Ok(Envelope::CallError { message_id, .. }) => uuid_of_text(message_id@) == Some(id),
            _ => false,
        },
        started.spec_pending().contains_key(id) && started.spec_pending()[id] == waiter,
{
}

/// Two requests started one after the other on a live engine (each under an id the table did
/// not hold, as `start_request` picks it) get different ids and both wait: neither displaces
/// the other, and the table grows by two.
pub proof fn lemma_requests_started_back_to_back_both_wait<W, Q, H: Clone, N: Clone>(
    before: Engine<W, Q, H, N>,
    first: Engine<W, Q, H, N>,
    second: Engine<W, Q, H, N>,
    id_a: u128,
    waiter_a: W,
    id_b: u128,
    waiter_b: W,
)
    requires
        !before.spec_pending().contains_key(id_a),
        first.spec_pending() == before.spec_pending().insert(id_a, waiter_a),
        !first.spec_pending().contains_key(id_b),
        second.spec_pending() == first.spec_pending().insert(id_b, waiter_b),
    ensures
        id_a != id_b,
        second.spec_pending().contains_key(id_a) && second.spec_pending()[id_a] == waiter_a,
        second.spec_pending().contains_key(id_b) && second.spec_pending()[id_b] == waiter_b,
        second.spec_pending().len() == before.spec_pending().len() + 2,
{
    broadcast use vstd::std_specs::btree::group_btree_axioms;
    assert(before.pending@.dom().finite());
}

/// A SEND built while a request is waiting never carries that request's id (`notification_frame`
/// picks one the table of waiting requests does not hold), and, as both ids' texts read back as
/// their ids, never its message id text either.
pub proof fn lemma_send_id_differs_from_waiting_requests<W, Q, H: Clone, N: Clone>(
    engine: Engine<W, Q, H, N>,
    send_id: u128,
    request_id: u128,
)
    requires
        !engine.spec_pending().contains_key(send_id),
        engine.spec_pending().contains_key(request_id),
    ensures
        send_id != request_id,
        uuid_of_text(uuid_text(send_id)) == Some(send_id) && uuid_of_text(uuid_text(request_id))
            == Some(request_id) ==> uuid_text(send_id) != uuid_text(request_id),
{
}

/// A request that is answered, times out, or never reaches the wire leaves the table of waiting
/// requests exactly as it found it: `start_request` records the waiter under its id (a fresh
/// one), and `route` (on the answer) or `forget_request` (on giving up) removes that id again.
pub proof fn lemma_request_leaves_no_trace<W, Q, H: Clone, N: Clone>(
    before: Engine<W, Q, H, N>,
    started: Engine<W, Q, H, N>,
    settled: Engine<W, Q, H, N>,
    id: u128,
    waiter: W,
)
    requires
        !before.spec_pending().contains_key(id),
        started.spec_pending() == before.spec_pending().insert(id, waiter),
        settled.spec_pending() == started.spec_pending().remove(id),
    ensures
        settled.spec_pending() == before.spec_pending(),
{
    assert(before.spec_pending().insert(id, waiter).remove(id) =~= before.spec_pending());
}

/// A ping that is answered or times out leaves the table of waiting pings exactly as it found
/// it: `start_ping` records the waiter under the next token (not already waiting), and
/// `take_pong` (on its pong) or `forget_ping` (on giving up) removes that token again.
pub proof fn lemma_ping_leaves_no_trace<W, Q, H: Clone, N: Clone>(
    before: Engine<W, Q, H, N>,
    started: Engine<W, Q, H, N>,
    settled: Engine<W, Q, H, N>,
    token: u64,
    waiter: Q,
)
    requires
        !before.spec_pings().contains_key(token),
        started.spec_pings() == before.spec_pings().insert(token, waiter),
        settled.spec_pings() == started.spec_pings().remove(token),
    ensures
        settled.spec_pings() == before.spec_pings(),
{
    assert(before.spec_pings().insert(token, waiter).remove(token) =~= before.spec_pings());
}

} // verus!
