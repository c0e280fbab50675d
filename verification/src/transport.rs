//! The transport's bookkeeping: message ids, command frames, the sorting of
//! inbound frames, and the tables that pair replies and events with the
//! callers waiting for them.
//!
//! The socket itself belongs to the program that drives this module. It hands
//! every frame it reads to [`Router::deliver`] and every caller's request to
//! [`Router::accept`], and does what they answer.

use vstd::prelude::*;
use vstd::string::*;
use std::collections::HashMap;
use crate::json::{
    decode_document, decoded, member, member_of, members_view, object_text, render_object,
    unsigned_at, unsigned_of, Field, FieldView, Members, MembersView, Node, NodeView,
};

verus! {

/// How long a caller waits for a reply or an event before giving up, in
/// seconds.
pub const CALL_TIMEOUT_SECS: u64 = 30;

/// Source of message ids: each id is handed out once, in increasing order.
#[derive(Debug)]
pub struct IdCounter {
    last: u64,
}

impl IdCounter {
    /// The id handed out last, 0 before the first.
    pub closed spec fn last_issued(&self) -> nat {
        self.last as nat
    }

    /// A counter that has handed out no id yet.
    pub fn new() -> (counter: IdCounter)
        ensures
            counter.last_issued() == 0,
    {
        IdCounter { last: 0 }
    }

    /// Whether another id can be handed out.
    pub fn has_next(&self) -> (b: bool)
        ensures
            b == (self.last_issued() < u64::MAX),
    {
        self.last < u64::MAX
    }

    /// Whether `count` more ids can be handed out.
    pub fn has_room(&self, count: u64) -> (b: bool)
        ensures
            b == (self.last_issued() + count <= u64::MAX),
    {
        count <= u64::MAX - self.last
    }
}

/// Hands out the next id: one more than the last.
pub fn next_id(counter: &mut IdCounter) -> (id: u64)
    requires
        old(counter).last_issued() < u64::MAX,
    ensures
        id == old(counter).last_issued() + 1,
        final(counter).last_issued() == id,
{
    counter.last = counter.last + 1;
    counter.last
}

/// The members of the command `{id, method, params}`, where `params` is the
/// text of an object.
pub open spec fn command_members(id: u64, method: Seq<char>, params: Seq<char>) -> MembersView {
    seq![
        ("id"@, FieldView::Unsigned(id)),
        ("method"@, FieldView::Text(method)),
        ("params"@, FieldView::Nested(params)),
    ]
}

/// The frame of the command `{id, method, params}`.
pub open spec fn command_frame(id: u64, method: Seq<char>, params: Seq<char>) -> Seq<char> {
    object_text(command_members(id, method, params))
}

/// Writes the frame of a command. `params` is the text of its parameter
/// object.
pub fn command_text(id: u64, method: &str, params: &str) -> (frame: String)
    ensures
        frame@ == command_frame(id, method@, params@),
{
    let mut members: Members = Vec::new();
    members.push((String::from_str("id"), Field::Unsigned(id)));
    members.push((String::from_str("method"), Field::Text(String::from_str(method))));
    members.push((String::from_str("params"), Field::Nested(String::from_str(params))));
    assert(members_view(members@) == command_members(id, method@, params@));
    render_object(&members)
}

/// The method that carries a command to a target.
pub open spec fn send_to_target() -> Seq<char> {
    "Target.sendMessageToTarget"@
}

/// The method of the notification that relays a target's message.
pub open spec fn received_from_target() -> Seq<char> {
    "Target.receivedMessageFromTarget"@
}

/// The parameters of the envelope around `message` for `session_id`.
pub open spec fn envelope_params(session_id: Seq<char>, message: Seq<char>) -> Seq<char> {
    object_text(
        seq![("message"@, FieldView::Text(message)), ("sessionId"@, FieldView::Text(session_id))],
    )
}

/// The frame that carries `message`, itself the frame of a command, to the
/// target attached as `session_id`.
pub open spec fn envelope_frame(id: u64, session_id: Seq<char>, message: Seq<char>) -> Seq<char> {
    command_frame(id, send_to_target(), envelope_params(session_id, message))
}

/// Wraps the frame of a tab-scoped command for sending over the browser's
/// connection.
pub fn envelope_text(id: u64, session_id: &str, message: &str) -> (frame: String)
    ensures
        frame@ == envelope_frame(id, session_id@, message@),
{
    let mut members: Members = Vec::new();
    members.push((String::from_str("message"), Field::Text(String::from_str(message))));
    members.push((String::from_str("sessionId"), Field::Text(String::from_str(session_id))));
    assert(members_view(members@) == seq![
        ("message"@, FieldView::Text(message@)),
        ("sessionId"@, FieldView::Text(session_id@)),
    ]);
    let params = render_object(&members);
    command_text(id, "Target.sendMessageToTarget", params.as_str())
}

/// A tab-scoped call, framed and ready to send.
#[derive(Debug, PartialEq, Eq)]
pub struct TargetCall {
    /// The id of the command itself: its reply arrives relayed, under this id.
    pub inner_id: u64,
    /// The id of the envelope: the browser acknowledges it directly.
    pub outer_id: u64,
    /// The frame to write to the socket.
    pub frame: String,
}

/// The id of the command of a tab-scoped call framed when `last` was the id
/// handed out last.
pub open spec fn inner_id_after(last: nat) -> nat {
    last + 1
}

/// The id of the envelope of a tab-scoped call framed when `last` was the id
/// handed out last.
pub open spec fn outer_id_after(last: nat) -> nat {
    last + 2
}

/// Frames the call of `method` on the target attached as `session_id`. The
/// command takes the next id, its envelope the one after.
pub fn target_call(counter: &mut IdCounter, session_id: &str, method: &str, params: &str) -> (call:
    TargetCall)
    requires
        old(counter).last_issued() + 2 <= u64::MAX,
    ensures
        call.inner_id == inner_id_after(old(counter).last_issued()),
        call.outer_id == outer_id_after(old(counter).last_issued()),
        final(counter).last_issued() == call.outer_id,
        call.frame@ == envelope_frame(
            call.outer_id,
            session_id@,
            command_frame(call.inner_id, method@, params@),
        ),
{
    let inner_id = next_id(counter);
    let message = command_text(inner_id, method, params);
    let outer_id = next_id(counter);
    let frame = envelope_text(outer_id, session_id, message.as_str());
    TargetCall { inner_id, outer_id, frame }
}

/// What an inbound frame is, for the purpose of routing it.
#[derive(Debug, PartialEq, Eq)]
pub enum Inbound {
    /// The direct reply to the command sent under `id`.
    Response { id: u64 },
    /// A reply relayed from a target, to the tab-scoped command sent under
    /// `id`.
    Embedded { id: u64 },
    /// An event relayed from the target attached as `session_id`.
    Event { session_id: String, method: String },
    /// Anything else: not routed.
    Ignored,
}

/// The mathematical value of an [`Inbound`].
pub enum InboundView {
    Response { id: u64 },
    Embedded { id: u64 },
    Event { session_id: Seq<char>, method: Seq<char> },
    Ignored,
}

impl View for Inbound {
    type V = InboundView;

    open spec fn view(&self) -> InboundView {
        match self {
            Inbound::Response { id } => InboundView::Response { id: *id },
            Inbound::Embedded { id } => InboundView::Embedded { id: *id },
            Inbound::Event { session_id, method } => InboundView::Event {
                session_id: session_id@,
                method: method@,
            },
            Inbound::Ignored => InboundView::Ignored,
        }
    }
}

/// The value of an optional node.
pub open spec fn node_view(node: Option<Node>) -> Option<NodeView> {
    match node {
        Some(n) => Some(n@),
        None => None,
    }
}

/// The members of a decoded document, where it is an object.
pub open spec fn node_members(node: Option<NodeView>) -> Option<MembersView> {
    match node {
        Some(NodeView::Object(members)) => Some(members),
        _ => None,
    }
}

/// The non-negative integer under `key`.
pub open spec fn unsigned_member(members: Option<MembersView>, key: Seq<char>) -> Option<u64> {
    match members {
        Some(m) => match member_of(m, key) {
            Some(f) => f.unsigned(),
            None => None,
        },
        None => None,
    }
}

/// The string under `key`.
pub open spec fn text_member(members: Option<MembersView>, key: Seq<char>) -> Option<Seq<char>> {
    match members {
        Some(m) => match member_of(m, key) {
            Some(f) => f.text(),
            None => None,
        },
        None => None,
    }
}

/// The array or object under `key`, as text.
pub open spec fn nested_member(members: Option<MembersView>, key: Seq<char>) -> Option<
    Seq<char>,
> {
    match members {
        Some(m) => match member_of(m, key) {
            Some(f) => f.nested(),
            None => None,
        },
        None => None,
    }
}

/// How a frame is sorted, given the frame, its `params` member and the
/// message that `params` relays, each decoded.
///
/// A frame with an integer `id` is a direct reply. Otherwise a notification
/// that relays a target's message is sorted by that message: with an integer
/// `id` it is a relayed reply; with a `method`, and a session named by the
/// notification, it is an event. Everything else is ignored.
pub open spec fn sorted(
    frame: Option<NodeView>,
    params: Option<NodeView>,
    message: Option<NodeView>,
) -> InboundView {
    let top = node_members(frame);
    let inner = node_members(message);
    if unsigned_member(top, "id"@) is Some {
        InboundView::Response { id: unsigned_member(top, "id"@)->0 }
    } else if text_member(top, "method"@) == Some(received_from_target()) && inner is Some {
        if unsigned_member(inner, "id"@) is Some {
            InboundView::Embedded { id: unsigned_member(inner, "id"@)->0 }
        } else if text_member(inner, "method"@) is Some && text_member(
            node_members(params),
            "sessionId"@,
        ) is Some {
            InboundView::Event {
                session_id: text_member(node_members(params), "sessionId"@)->0,
                method: text_member(inner, "method"@)->0,
            }
        } else {
            InboundView::Ignored
        }
    } else {
        InboundView::Ignored
    }
}

fn members_ref(node: &Option<Node>) -> (members: Option<&Members>)
    ensures
        members is Some == node_members(node_view(*node)) is Some,
        members matches Some(m) ==> node_members(node_view(*node)) == Some(members_view(m@)),
{
    match node {
        Some(Node::Object(members)) => Some(members),
        _ => None,
    }
}

fn read_unsigned(members: Option<&Members>, key: &str) -> (n: Option<u64>)
    ensures
        n == unsigned_member(
            match members {
                Some(m) => Some(members_view(m@)),
                None => None,
            },
            key@,
        ),
{
    match members {
        Some(m) => match member(m, key) {
            Some(f) => f.as_unsigned(),
            None => None,
        },
        None => None,
    }
}

fn read_text(members: Option<&Members>, key: &str) -> (s: Option<String>)
    ensures
        s is Some == text_member(
            match members {
                Some(m) => Some(members_view(m@)),
                None => None,
            },
            key@,
        ) is Some,
        s matches Some(t) ==> text_member(
            match members {
                Some(m) => Some(members_view(m@)),
                None => None,
            },
            key@,
        ) == Some(t@),
{
    match members {
        Some(m) => match member(m, key) {
            Some(f) => f.as_text(),
            None => None,
        },
        None => None,
    }
}

fn read_nested(members: Option<&Members>, key: &str) -> (s: Option<String>)
    ensures
        s is Some == nested_member(
            match members {
                Some(m) => Some(members_view(m@)),
                None => None,
            },
            key@,
        ) is Some,
        s matches Some(t) ==> nested_member(
            match members {
                Some(m) => Some(members_view(m@)),
                None => None,
            },
            key@,
        ) == Some(t@),
{
    match members {
        Some(m) => match member(m, key) {
            Some(f) => f.as_nested(),
            None => None,
        },
        None => None,
    }
}

/// Sorts a frame, given the frame, its `params` member and the message that
/// `params` relays, each decoded (`None` where there is none, or where it
/// does not decode).
pub fn classify_decoded(frame: &Option<Node>, params: &Option<Node>, message: &Option<Node>) -> (kind:
    Inbound)
    ensures
        kind@ == sorted(node_view(*frame), node_view(*params), node_view(*message)),
{
    let top = members_ref(frame);
    let inner = members_ref(message);
    if let Some(id) = read_unsigned(top, "id") {
        return Inbound::Response { id };
    }
    let relayed = match read_text(top, "method") {
        Some(m) => m == String::from_str("Target.receivedMessageFromTarget"),
        None => false,
    };
    if !relayed || inner.is_none() {
        return Inbound::Ignored;
    }
    if let Some(id) = read_unsigned(inner, "id") {
        return Inbound::Embedded { id };
    }
    match read_text(inner, "method") {
        Some(method) => match read_text(members_ref(params), "sessionId") {
            Some(session_id) => Inbound::Event { session_id, method },
            None => Inbound::Ignored,
        },
        None => Inbound::Ignored,
    }
}

/// The decoding of a text that may be absent.
pub open spec fn decoded_if(text: Option<Seq<char>>) -> Option<NodeView> {
    match text {
        Some(t) => decoded(t),
        None => None,
    }
}

/// The text of the `params` member of `frame`.
pub open spec fn params_of(frame: Seq<char>) -> Option<Seq<char>> {
    nested_member(node_members(decoded(frame)), "params"@)
}

/// The message that the notification `frame` relays: the string under
/// `params.message`.
pub open spec fn relayed_of(frame: Seq<char>) -> Option<Seq<char>> {
    text_member(node_members(decoded_if(params_of(frame))), "message"@)
}

/// How the frame `text` is sorted.
pub open spec fn classification(text: Seq<char>) -> InboundView {
    sorted(decoded(text), decoded_if(params_of(text)), decoded_if(relayed_of(text)))
}

fn decode_if(text: &Option<String>) -> (node: Option<Node>)
    ensures
        node_view(node) == decoded_if(
            match *text {
                Some(t) => Some(t@),
                None => None,
            },
        ),
{
    match text {
        Some(t) => decode_document(t.as_str()),
        None => None,
    }
}

/// Sorts an inbound frame.
pub fn classify(text: &str) -> (kind: Inbound)
    ensures
        kind@ == classification(text@),
{
    let frame = decode_document(text);
    let params_text = read_nested(members_ref(&frame), "params");
    let params = decode_if(&params_text);
    let message_text = read_text(members_ref(&params), "message");
    let message = decode_if(&message_text);
    classify_decoded(&frame, &params, &message)
}

/// The message that the notification `text` relays, if it relays one.
pub fn relayed_message(text: &str) -> (message: Option<String>)
    ensures
        message is Some == relayed_of(text@) is Some,
        message matches Some(m) ==> relayed_of(text@) == Some(m@),
{
    let frame = decode_document(text);
    let params_text = read_nested(members_ref(&frame), "params");
    let params = decode_if(&params_text);
    read_text(members_ref(&params), "message")
}

/// What the caller released by the frame `text` is handed, for a frame
/// sorted as `inbound`: the frame itself for a direct reply, the message
/// relayed for a relayed reply, nothing for anything else.
pub open spec fn payload_of(text: Seq<char>, inbound: InboundView) -> Option<Seq<char>> {
    match inbound {
        InboundView::Response { id } => Some(text),
        InboundView::Embedded { id } => relayed_of(text),
        _ => None,
    }
}

/// Picks from a frame what its addressee is handed.
pub fn reply_payload(text: &str, inbound: &Inbound) -> (payload: Option<String>)
    ensures
        payload is Some == payload_of(text@, inbound@) is Some,
        payload matches Some(p) ==> payload_of(text@, inbound@) == Some(p@),
{
    match inbound {
        Inbound::Response { id: _ } => Some(String::from_str(text)),
        Inbound::Embedded { id: _ } => relayed_message(text),
        _ => None,
    }
}

/// A caller waiting for an event of one session.
#[derive(Debug)]
pub struct Listener<E> {
    pub session_id: String,
    pub method: String,
    pub waiter: E,
}

/// The mathematical value of a [`Listener`].
pub struct ListenerView<E> {
    pub session_id: Seq<char>,
    pub method: Seq<char>,
    pub waiter: E,
}

impl<E> View for Listener<E> {
    type V = ListenerView<E>;

    open spec fn view(&self) -> ListenerView<E> {
        ListenerView { session_id: self.session_id@, method: self.method@, waiter: self.waiter }
    }
}

impl<E> ListenerView<E> {
    /// Whether the listener waits for `method` on `session_id`.
    pub open spec fn awaits(self, session_id: Seq<char>, method: Seq<char>) -> bool {
        self.session_id == session_id && self.method == method
    }
}

/// The waiters among `listeners` for `method` on `session_id`, in the order
/// in which they registered.
pub open spec fn waiting<E>(
    listeners: Seq<ListenerView<E>>,
    session_id: Seq<char>,
    method: Seq<char>,
) -> Seq<E>
    decreases listeners.len(),
{
    if listeners.len() == 0 {
        Seq::empty()
    } else if listeners.last().awaits(session_id, method) {
        waiting(listeners.drop_last(), session_id, method).push(listeners.last().waiter)
    } else {
        waiting(listeners.drop_last(), session_id, method)
    }
}

/// The listeners that do not wait for `method` on `session_id`, in order.
pub open spec fn others<E>(
    listeners: Seq<ListenerView<E>>,
    session_id: Seq<char>,
    method: Seq<char>,
) -> Seq<ListenerView<E>>
    decreases listeners.len(),
{
    if listeners.len() == 0 {
        Seq::empty()
    } else if listeners.last().awaits(session_id, method) {
        others(listeners.drop_last(), session_id, method)
    } else {
        others(listeners.drop_last(), session_id, method).push(listeners.last())
    }
}

/// The tables of a [`Router`], as mathematical maps.
pub struct RouterView<W, E> {
    /// Callers waiting for a direct reply, by the id of their command.
    pub requests: Map<u64, W>,
    /// Callers waiting for a relayed reply, by the id of their command.
    pub embedded: Map<u64, W>,
    /// Callers waiting for an event, in the order in which they registered.
    pub listeners: Seq<ListenerView<E>>,
}

impl<W, E> RouterView<W, E> {
    /// The tables with nobody waiting.
    pub open spec fn idle() -> RouterView<W, E> {
        RouterView { requests: Map::empty(), embedded: Map::empty(), listeners: Seq::empty() }
    }

    /// The tables once `inbound` has been routed.
    pub open spec fn after(self, inbound: InboundView) -> RouterView<W, E> {
        match inbound {
            InboundView::Response { id } => RouterView {
                requests: self.requests.remove(id),
                ..self
            },
            InboundView::Embedded { id } => RouterView {
                embedded: self.embedded.remove(id),
                ..self
            },
            InboundView::Event { session_id, method } => RouterView {
                listeners: others(self.listeners, session_id, method),
                ..self
            },
            InboundView::Ignored => self,
        }
    }

    /// The caller that the reply `inbound` is for, if one is waiting.
    pub open spec fn addressee(self, inbound: InboundView) -> Option<W> {
        match inbound {
            InboundView::Response { id } => if self.requests.contains_key(id) {
                Some(self.requests[id])
            } else {
                None
            },
            InboundView::Embedded { id } => if self.embedded.contains_key(id) {
                Some(self.embedded[id])
            } else {
                None
            },
            _ => None,
        }
    }

    /// The callers that the event `inbound` wakes.
    pub open spec fn woken(self, inbound: InboundView) -> Seq<E> {
        match inbound {
            InboundView::Event { session_id, method } => waiting(
                self.listeners,
                session_id,
                method,
            ),
            _ => Seq::empty(),
        }
    }
}

/// The callers that one inbound frame releases.
#[derive(Debug)]
pub struct Released<W, E> {
    /// The caller whose reply the frame is.
    pub reply: Option<W>,
    /// The callers whose event the frame is, in the order in which they
    /// registered.
    pub events: Vec<E>,
}

/// Everybody who was waiting when the transport stopped, handed out so that
/// each can be told.
#[derive(Debug)]
pub struct Pending<W, E> {
    /// The callers that waited for a direct reply, by the id of their
    /// command.
    pub requests: HashMap<u64, W>,
    /// The callers that waited for a relayed reply, by the id of their
    /// command.
    pub embedded: HashMap<u64, W>,
    /// The callers that waited for an event, in the order in which they
    /// registered.
    pub listeners: Vec<Listener<E>>,
}

impl<W, E> View for Pending<W, E> {
    type V = RouterView<W, E>;

    open spec fn view(&self) -> RouterView<W, E> {
        RouterView {
            requests: self.requests@,
            embedded: self.embedded@,
            listeners: self.listeners@.map_values(|l: Listener<E>| l@),
        }
    }
}

/// The tables that pair replies and events with the callers waiting for
/// them. `W` is what waits for a reply, `E` what waits for an event.
pub struct Router<W, E> {
    requests: HashMap<u64, W>,
    embedded: HashMap<u64, W>,
    listeners: Vec<Listener<E>>,
}

impl<W, E> View for Router<W, E> {
    type V = RouterView<W, E>;

    closed spec fn view(&self) -> RouterView<W, E> {
        RouterView {
            requests: self.requests@,
            embedded: self.embedded@,
            listeners: self.listeners@.map_values(|l: Listener<E>| l@),
        }
    }
}

impl<W, E> Router<W, E> {
    /// A router with nobody waiting.
    pub fn new() -> (router: Router<W, E>)
        ensures
            router@ == RouterView::<W, E>::idle(),
    {
        let router = Router {
            requests: HashMap::new(),
            embedded: HashMap::new(),
            listeners: Vec::new(),
        };
        assert(router.listeners@.map_values(|l: Listener<E>| l@) =~= Seq::<
            ListenerView<E>,
        >::empty());
        router
    }

    /// Hands out everybody who waits and forgets them all: what the driver
    /// does when the socket is gone or the transport is shut down, so that
    /// nobody is left waiting for what can no longer come.
    pub fn drain(&mut self) -> (pending: Pending<W, E>)
        ensures
            pending@ == old(self)@,
            final(self)@ == RouterView::<W, E>::idle(),
    {
        let mut pending = Pending {
            requests: HashMap::new(),
            embedded: HashMap::new(),
            listeners: Vec::new(),
        };
        std::mem::swap(&mut pending.requests, &mut self.requests);
        std::mem::swap(&mut pending.embedded, &mut self.embedded);
        std::mem::swap(&mut pending.listeners, &mut self.listeners);
        assert(self.listeners@.map_values(|l: Listener<E>| l@) =~= Seq::<
            ListenerView<E>,
        >::empty());
        pending
    }

    /// Records that `waiter` awaits the direct reply to command `id`. A
    /// waiter recorded earlier under the same id is handed back.
    pub fn register_request(&mut self, id: u64, waiter: W) -> (displaced: Option<W>)
        ensures
            final(self)@ == (RouterView { requests: old(self)@.requests.insert(id, waiter), ..old(self)@ }),
            displaced == old(self)@.addressee(InboundView::Response { id }),
    {
        self.requests.insert(id, waiter)
    }

    /// Records that `waiter` awaits the relayed reply to command `id`. A
    /// waiter recorded earlier under the same id is handed back.
    pub fn register_embedded(&mut self, id: u64, waiter: W) -> (displaced: Option<W>)
        ensures
            final(self)@ == (RouterView { embedded: old(self)@.embedded.insert(id, waiter), ..old(self)@ }),
            displaced == old(self)@.addressee(InboundView::Embedded { id }),
    {
        self.embedded.insert(id, waiter)
    }

    /// Records that `waiter` awaits the next `method` event of `session_id`.
    pub fn register_listener(&mut self, session_id: String, method: String, waiter: E)
        ensures
            final(self)@ == (RouterView {
                listeners: old(self)@.listeners.push(
                    ListenerView { session_id: session_id@, method: method@, waiter },
                ),
                ..old(self)@
            }),
    {
        let ghost before = self.listeners@;
        let listener = Listener { session_id, method, waiter };
        self.listeners.push(listener);
        assert(self.listeners@.map_values(|l: Listener<E>| l@) =~= before.map_values(
            |l: Listener<E>| l@,
        ).push(listener@));
    }

    /// Routes one sorted frame: releases whoever waits for it and forgets
    /// them. Everybody else stays as they were.
    pub fn route(&mut self, inbound: &Inbound) -> (released: Released<W, E>)
        ensures
            final(self)@ == old(self)@.after(inbound@),
            released.reply == old(self)@.addressee(inbound@),
            released.events@ == old(self)@.woken(inbound@),
    {
        match inbound {
            Inbound::Response { id } => {
                let reply = self.requests.remove(id);
                Released { reply, events: Vec::new() }
            },
            Inbound::Embedded { id } => {
                let reply = self.embedded.remove(id);
                Released { reply, events: Vec::new() }
            },
            Inbound::Event { session_id, method } => {
                let events = self.wake(session_id, method);
                Released { reply: None, events }
            },
            Inbound::Ignored => Released { reply: None, events: Vec::new() },
        }
    }

    fn wake(&mut self, session_id: &String, method: &String) -> (events: Vec<E>)
        ensures
            final(self)@ == (RouterView {
                listeners: others(old(self)@.listeners, session_id@, method@),
                ..old(self)@
            }),
            events@ == waiting(old(self)@.listeners, session_id@, method@),
    {
        let ghost all = self.listeners@.map_values(|l: Listener<E>| l@);
        let mut pending: Vec<Listener<E>> = Vec::new();
        std::mem::swap(&mut pending, &mut self.listeners);
        let mut events: Vec<E> = Vec::new();
        let mut kept: Vec<Listener<E>> = Vec::new();
        assert(all.subrange(0, 0) =~= Seq::<ListenerView<E>>::empty());
        assert(kept@.map_values(|l: Listener<E>| l@) =~= Seq::<ListenerView<E>>::empty());
        for listener in it: pending
            invariant
                it.seq().map_values(|l: Listener<E>| l@) == all,
                events@ == waiting(all.subrange(0, it.index() as int), session_id@, method@),
                kept@.map_values(|l: Listener<E>| l@) == others(
                    all.subrange(0, it.index() as int),
                    session_id@,
                    method@,
                ),
        {
            let ghost i = it.index() as int;
            let ghost seen = all.subrange(0, i + 1);
            assert(seen.drop_last() =~= all.subrange(0, i));
            assert(seen.last() == listener@);
            if listener.session_id == *session_id && listener.method == *method {
                events.push(listener.waiter);
            } else {
                let ghost before = kept@;
                kept.push(listener);
                assert(kept@.map_values(|l: Listener<E>| l@) =~= before.map_values(
                    |l: Listener<E>| l@,
                ).push(listener@));
            }
        }
        assert(all.subrange(0, all.len() as int) =~= all);
        self.listeners = kept;
        events
    }

    /// Sorts the inbound frame `text` and routes it.
    pub fn deliver(&mut self, text: &str) -> (released: Released<W, E>)
        ensures
            final(self)@ == old(self)@.after(classification(text@)),
            released.reply == old(self)@.addressee(classification(text@)),
            released.events@ == old(self)@.woken(classification(text@)),
    {
        let inbound = classify(text);
        self.route(&inbound)
    }
}

/// What a caller asks of the transport.
#[derive(Debug)]
pub enum TransportMessage<W, E> {
    /// Send the command with this frame; `W` awaits its direct reply.
    Request(String, W),
    /// `W` awaits the relayed reply to the command with this id.
    ListenTargetMessage(u64, W),
    /// `E` awaits the next event of this session and method.
    WaitForEvent(String, String, E),
    /// Close the browser and the socket, and stop.
    Shutdown,
}

/// What the driver of the socket must do for a caller's message.
#[derive(Debug)]
pub enum Effect<W, E> {
    /// Write `frame` to the socket, then report with [`Router::sent`].
    Write { id: u64, frame: String, waiter: W },
    /// The command carries no integer id, so no reply could be paired with
    /// it: give the waiter up.
    Refuse { waiter: W },
    /// The caller is recorded. A waiter it displaced is given up.
    Recorded { displaced: Option<W> },
    /// Write `frame`, whether or not that succeeds close the socket, tell
    /// everybody in `pending` that the transport is closed, and stop.
    Close { frame: String, pending: Pending<W, E> },
}

/// What became of a command after the attempt to write it.
#[derive(Debug)]
pub enum Sent<W> {
    /// It was written, and its waiter recorded. A waiter it displaced is
    /// given up.
    Pending { displaced: Option<W> },
    /// The write failed: the waiter is to be told so.
    Failed { waiter: W },
}

/// The method of the command that closes the browser.
pub open spec fn close_browser() -> Seq<char> {
    "Browser.close"@
}

impl<W, E> Router<W, E> {
    /// Takes a caller's message. Registrations take effect at once; a
    /// request is recorded only when [`Router::sent`] reports it written; a
    /// shutdown hands out everybody who waits, with the frame that closes
    /// the browser.
    pub fn accept(&mut self, message: TransportMessage<W, E>, counter: &mut IdCounter) -> (effect:
        Effect<W, E>)
        requires
            message is Shutdown ==> old(counter).last_issued() < u64::MAX,
        ensures
            match message {
                TransportMessage::Request(frame, waiter) => {
                    &&& final(self)@ == old(self)@
                    &&& final(counter).last_issued() == old(counter).last_issued()
                    &&& match unsigned_of(frame@, "id"@) {
                        Some(id) => effect == (Effect::<W, E>::Write { id, frame, waiter }),
                        None => effect == (Effect::<W, E>::Refuse { waiter }),
                    }
                },
                TransportMessage::ListenTargetMessage(id, waiter) => {
                    &&& final(self)@ == (RouterView {
                        embedded: old(self)@.embedded.insert(id, waiter),
                        ..old(self)@
                    })
                    &&& final(counter).last_issued() == old(counter).last_issued()
                    &&& effect == (Effect::<W, E>::Recorded {
                        displaced: old(self)@.addressee(InboundView::Embedded { id }),
                    })
                },
                TransportMessage::WaitForEvent(session_id, method, waiter) => {
                    &&& final(self)@ == (RouterView {
                        listeners: old(self)@.listeners.push(
                            ListenerView { session_id: session_id@, method: method@, waiter },
                        ),
                        ..old(self)@
                    })
                    &&& final(counter).last_issued() == old(counter).last_issued()
                    &&& effect == (Effect::<W, E>::Recorded { displaced: None })
                },
                TransportMessage::Shutdown => {
                    &&& final(self)@ == RouterView::<W, E>::idle()
                    &&& final(counter).last_issued() == old(counter).last_issued() + 1
                    &&& effect matches Effect::Close { frame, pending }
                    &&& pending@ == old(self)@
                    &&& frame@ == command_frame(
                        (old(counter).last_issued() + 1) as u64,
                        close_browser(),
                        "{}"@,
                    )
                },
            },
    {
        match message {
            TransportMessage::Request(frame, waiter) => {
                match unsigned_at(frame.as_str(), "id") {
                    Some(id) => Effect::Write { id, frame, waiter },
                    None => Effect::Refuse { waiter },
                }
            },
            TransportMessage::ListenTargetMessage(id, waiter) => {
                let displaced = self.register_embedded(id, waiter);
                Effect::Recorded { displaced }
            },
            TransportMessage::WaitForEvent(session_id, method, waiter) => {
                self.register_listener(session_id, method, waiter);
                Effect::Recorded { displaced: None }
            },
            TransportMessage::Shutdown => {
                let id = next_id(counter);
                let pending = self.drain();
                Effect::Close { frame: command_text(id, "Browser.close", "{}"), pending }
            },
        }
    }

    /// Records the outcome of writing the command `id`: written, its waiter
    /// awaits the direct reply; not written, nothing is recorded and the
    /// waiter is handed back.
    pub fn sent(&mut self, id: u64, waiter: W, written: bool) -> (outcome: Sent<W>)
        ensures
            written ==> final(self)@ == (RouterView {
                requests: old(self)@.requests.insert(id, waiter),
                ..old(self)@
            }) && outcome == (Sent::Pending {
                displaced: old(self)@.addressee(InboundView::Response { id }),
            }),
            !written ==> final(self)@ == old(self)@ && outcome == (Sent::Failed { waiter }),
    {
        if written {
            let displaced = self.register_request(id, waiter);
            Sent::Pending { displaced }
        } else {
            Sent::Failed { waiter }
        }
    }
}

/// Replies never cross: of two callers waiting under different ids, each is
/// released by the reply that carries its own id and by no other, in
/// whichever order the two registered and in whichever order the replies
/// arrive.
pub proof fn lemma_replies_never_cross<W, E>(
    router: RouterView<W, E>,
    first: u64,
    first_waiter: W,
    second: u64,
    second_waiter: W,
)
    requires
        first != second,
    ensures
        ({
            let both = RouterView {
                embedded: router.embedded.insert(first, first_waiter).insert(second, second_waiter),
                ..router
            };
            let swapped = RouterView {
                embedded: router.embedded.insert(second, second_waiter).insert(first, first_waiter),
                ..router
            };
            let to_first = InboundView::Embedded { id: first };
            let to_second = InboundView::Embedded { id: second };
            &&& both == swapped
            &&& both.addressee(to_first) == Some(first_waiter)
            &&& both.addressee(to_second) == Some(second_waiter)
            &&& both.after(to_first).addressee(to_second) == Some(second_waiter)
            &&& both.after(to_second).addressee(to_first) == Some(first_waiter)
            &&& both.after(to_first).addressee(to_first) is None
            &&& both.after(to_first).after(to_second) == both.after(to_second).after(to_first)
        }),
{
    let both = RouterView {
        embedded: router.embedded.insert(first, first_waiter).insert(second, second_waiter),
        ..router
    };
    let swapped = RouterView {
        embedded: router.embedded.insert(second, second_waiter).insert(first, first_waiter),
        ..router
    };
    assert(both.embedded =~= swapped.embedded);
    let to_first = InboundView::Embedded { id: first };
    let to_second = InboundView::Embedded { id: second };
    assert(both.after(to_first).after(to_second).embedded =~= both.after(to_second).after(
        to_first,
    ).embedded);
}

/// A command that was written meets its reply: once its waiter is recorded,
/// the direct reply under its id releases that waiter, whatever else has
/// been recorded or routed under other ids in between, and releases it only
/// once.
pub proof fn lemma_request_meets_its_reply<W, E>(
    router: RouterView<W, E>,
    id: u64,
    waiter: W,
    other: u64,
    other_waiter: W,
)
    requires
        id != other,
    ensures
        ({
            let recorded = RouterView { requests: router.requests.insert(id, waiter), ..router };
            let crowded = RouterView {
                requests: recorded.requests.insert(other, other_waiter),
                ..recorded
            };
            let reply = InboundView::Response { id };
            let other_reply = InboundView::Response { id: other };
            &&& recorded.addressee(reply) == Some(waiter)
            &&& crowded.addressee(reply) == Some(waiter)
            &&& crowded.after(other_reply).addressee(reply) == Some(waiter)
            &&& recorded.after(reply).addressee(reply) is None
        }),
{
}

/// Two calls framed from one counter, on whichever tabs, never share an id:
/// the call framed later takes ids above both ids of the earlier one. So
/// the waiters of the two calls stand under different ids, and each is
/// released by the relayed reply to its own call and by no other, whatever
/// the order of the replies.
pub proof fn lemma_calls_never_share_a_reply<W, E>(
    router: RouterView<W, E>,
    earlier: nat,
    earlier_waiter: W,
    later: nat,
    later_waiter: W,
)
    requires
        outer_id_after(earlier) <= later,
        outer_id_after(later) <= u64::MAX,
    ensures
        inner_id_after(earlier) < outer_id_after(earlier) < inner_id_after(later)
            < outer_id_after(later),
        ({
            let first = inner_id_after(earlier) as u64;
            let second = inner_id_after(later) as u64;
            let both = RouterView {
                embedded: router.embedded.insert(first, earlier_waiter).insert(second, later_waiter),
                ..router
            };
            let to_first = InboundView::Embedded { id: first };
            let to_second = InboundView::Embedded { id: second };
            &&& both.addressee(to_first) == Some(earlier_waiter)
            &&& both.addressee(to_second) == Some(later_waiter)
            &&& both.after(to_second).addressee(to_first) == Some(earlier_waiter)
            &&& both.after(to_first).addressee(to_second) == Some(later_waiter)
        }),
{
    lemma_replies_never_cross(
        router,
        inner_id_after(earlier) as u64,
        earlier_waiter,
        inner_id_after(later) as u64,
        later_waiter,
    );
}

/// Once everybody has been handed out, nobody is left waiting: whatever
/// comes in releases nobody, and the tables stay empty.
pub proof fn lemma_drained_router_is_idle<W, E>(inbound: InboundView)
    ensures
        RouterView::<W, E>::idle().addressee(inbound) is None,
        RouterView::<W, E>::idle().woken(inbound) == Seq::<E>::empty(),
        RouterView::<W, E>::idle().after(inbound) == RouterView::<W, E>::idle(),
{
    let idle = RouterView::<W, E>::idle();
    match inbound {
        InboundView::Response { id } => {
            assert(idle.requests.remove(id) =~= idle.requests);
        },
        InboundView::Embedded { id } => {
            assert(idle.embedded.remove(id) =~= idle.embedded);
        },
        _ => {},
    }
}

/// The two reply tables are independent: a direct reply releases nobody who
/// waits for a relayed reply, and a relayed reply nobody who waits for a
/// direct one, even under the same id.
pub proof fn lemma_reply_tables_independent<W, E>(router: RouterView<W, E>, id: u64)
    ensures
        router.after(InboundView::Response { id }).embedded == router.embedded,
        router.after(InboundView::Embedded { id }).requests == router.requests,
        router.after(InboundView::Response { id }).listeners == router.listeners,
        router.after(InboundView::Embedded { id }).listeners == router.listeners,
{
}

/// An event wakes exactly the callers that wait for its method on its
/// session: whoever it wakes had registered for that session and method.
pub proof fn lemma_woken_had_registered<E>(
    listeners: Seq<ListenerView<E>>,
    session_id: Seq<char>,
    method: Seq<char>,
    k: int,
)
    requires
        0 <= k < waiting(listeners, session_id, method).len(),
    ensures
        exists|i: int|
            0 <= i < listeners.len() && (#[trigger] listeners[i]).awaits(session_id, method)
                && listeners[i].waiter == waiting(listeners, session_id, method)[k],
    decreases listeners.len(),
{
    if listeners.len() > 0 {
        let rest = listeners.drop_last();
        let last = listeners.len() - 1;
        if listeners.last().awaits(session_id, method) && k == waiting(
            rest,
            session_id,
            method,
        ).len() {
            assert(listeners[last].waiter == waiting(listeners, session_id, method)[k]);
        } else {
            lemma_woken_had_registered(rest, session_id, method, k);
            let i = choose|i: int|
                0 <= i < rest.len() && (#[trigger] rest[i]).awaits(session_id, method)
                    && rest[i].waiter == waiting(rest, session_id, method)[k];
            assert(listeners[i] == rest[i]);
        }
    }
}

/// An event leaves every caller that waits for another session or another
/// method registered.
pub proof fn lemma_event_keeps_the_others<E>(
    listeners: Seq<ListenerView<E>>,
    session_id: Seq<char>,
    method: Seq<char>,
    i: int,
)
    requires
        0 <= i < listeners.len(),
        !listeners[i].awaits(session_id, method),
    ensures
        others(listeners, session_id, method).contains(listeners[i]),
    decreases listeners.len(),
{
    let rest = listeners.drop_last();
    let kept = others(listeners, session_id, method);
    if i < listeners.len() - 1 {
        lemma_event_keeps_the_others(rest, session_id, method, i);
        let before = others(rest, session_id, method);
        let k = choose|k: int| 0 <= k < before.len() && before[k] == rest[i];
        assert(kept[k] == listeners[i]);
    } else {
        assert(kept[kept.len() - 1] == listeners[i]);
    }
}

/// An event forgets every caller that it wakes: nobody left registered
/// waits for its method on its session.
pub proof fn lemma_event_forgets_the_woken<E>(
    listeners: Seq<ListenerView<E>>,
    session_id: Seq<char>,
    method: Seq<char>,
)
    ensures
        forall|k: int|
            0 <= k < others(listeners, session_id, method).len() ==> !(#[trigger] others(
                listeners,
                session_id,
                method,
            )[k]).awaits(session_id, method),
    decreases listeners.len(),
{
    if listeners.len() > 0 {
        let rest = listeners.drop_last();
        lemma_event_forgets_the_woken(rest, session_id, method);
        let kept = others(listeners, session_id, method);
        let before = others(rest, session_id, method);
        assert forall|k: int| 0 <= k < kept.len() implies !(#[trigger] kept[k]).awaits(
            session_id,
            method,
        ) by {
            if k < before.len() {
                assert(kept[k] == before[k]);
            }
        }
    }
}

} // verus!
