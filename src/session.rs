use vstd::prelude::*;
use crate::clock::timestamp;
use crate::command::{Dispatch, dispatch_spec, join_cmd, rest_of, users_text, user_cmd, needs_room};
use crate::message::{ChatMessage, server_name, server_sender};
use crate::registry::{Registry, users_in_room};
use crate::text::starts_with;

verus! {

/// Pending messages that the broadcast bus holds for one subscriber; a
/// subscriber that falls further behind is disconnected.
pub const BUS_CAPACITY: usize = 100;

/// Whether a subscriber in `room` as `user` receives `m`: a room broadcast
/// reaches the subscribers in its room, a direct message its sender and its
/// target.
pub open spec fn delivered(room: Seq<char>, user: Seq<char>, m: ChatMessage) -> bool {
    if m.target@.len() == 0 {
        m.chatroom@ == room
    } else {
        m.target@ == user || m.sender@ == user
    }
}

/// The room whose subscribers a dispatch's first message is for.
pub open spec fn room_after(d: Dispatch) -> Seq<char> {
    match d {
        Dispatch::Reply(r) => r.chatroom@,
        Dispatch::Price { request, .. } => request.chatroom@,
        Dispatch::News { reply, .. } => reply.chatroom@,
    }
}

pub open spec fn left_text(user: Seq<char>) -> Seq<char> {
    "-- "@ + user + " has left."@
}

/// The state of one connection: the room it is in and the user it speaks for.
pub struct Session {
    pub current_room: String,
    pub current_user: String,
}

impl Session {
    /// A session that has joined no room and spoken for no one yet.
    pub fn new() -> (r: Session)
        ensures
            r.current_room@.len() == 0,
            r.current_user@.len() == 0,
    {
        Session { current_room: String::new(), current_user: String::new() }
    }

    /// Whether this session's client receives `m` from the bus.
    pub fn delivers(&self, m: &ChatMessage) -> (r: bool)
        ensures
            r == delivered(self.current_room@, self.current_user@, *m),
    {
        if m.target.unicode_len() == 0 {
            m.chatroom == self.current_room
        } else {
            m.target == self.current_user || m.sender == self.current_user
        }
    }
}

/// The notice that `user` has left, for the subscribers in `room`.
pub fn send_disconnect_message(room: &String, user: &String) -> (r: ChatMessage)
    ensures
        r.sender@ == server_name(),
        r.chatroom@ == room@,
        r.content@ == left_text(user@),
        r.target@.len() == 0,
{
    ChatMessage {
        sender: server_sender(),
        timestamp: timestamp(),
        chatroom: room.clone(),
        content: String::from_str("-- ").concat(user.as_str()).concat(" has left."),
        target: String::new(),
    }
}

/// The relay's shared state: the registry of connected users.
pub struct ChatService {
    registry: Registry,
}

impl View for ChatService {
    type V = Map<Seq<char>, Seq<char>>;

    closed spec fn view(&self) -> Map<Seq<char>, Seq<char>> {
        self.registry@
    }
}

impl ChatService {
    pub closed spec fn wf(&self) -> bool {
        self.registry.wf()
    }

    /// A relay with no user connected.
    pub fn new() -> (r: ChatService)
        ensures
            r.wf(),
            r@ == Map::<Seq<char>, Seq<char>>::empty(),
    {
        ChatService { registry: Registry::new() }
    }

    /// Whether `name` is free: no connected user holds it.
    pub fn check_for_name(&self, name: &String) -> (available: bool)
        requires
            self.wf(),
        ensures
            available == !self@.contains_key(name@),
    {
        !self.registry.contains(name)
    }

    /// Takes one inbound message of `session`: the session now speaks for
    /// its sender, the message is interpreted against the registry, and the
    /// session moves to the room of the answer.
    pub fn receive(&mut self, session: &mut Session, inbound: ChatMessage) -> (d: Dispatch)
        requires
            old(self).wf(),
        ensures
            final(self).wf(),
            dispatch_spec(inbound, old(self)@, final(self)@, d),
            final(session).current_user@ == inbound.sender@,
            final(session).current_room@ == room_after(d),
    {
        session.current_user = inbound.sender.clone();
        let d = ChatMessage::into_response(inbound, &mut self.registry);
        session.current_room = match &d {
            Dispatch::Reply(r) => r.chatroom.clone(),
            Dispatch::Price { request, .. } => request.chatroom.clone(),
            Dispatch::News { reply, .. } => reply.chatroom.clone(),
        };
        d
    }

    /// Ends `session`: its user leaves the registry, and the one notice of
    /// the departure, for its last room, is returned.
    pub fn end_session(&mut self, session: Session) -> (r: ChatMessage)
        requires
            old(self).wf(),
        ensures
            final(self).wf(),
            final(self)@ == old(self)@.remove(session.current_user@),
            r.sender@ == server_name(),
            r.chatroom@ == session.current_room@,
            r.content@ == left_text(session.current_user@),
            r.target@.len() == 0,
    {
        self.registry.remove(&session.current_user);
        send_disconnect_message(&session.current_room, &session.current_user)
    }
}

/// A room broadcast reaches a subscriber exactly when the subscriber is in
/// the message's room.
pub proof fn lemma_room_broadcast(room: Seq<char>, user: Seq<char>, m: ChatMessage)
    requires
        m.target@.len() == 0,
    ensures
        delivered(room, user, m) <==> m.chatroom@ == room,
{
}

/// A direct message reaches exactly the subscribers that speak for its
/// sender or its target, whatever their room.
pub proof fn lemma_direct_message(room: Seq<char>, user: Seq<char>, m: ChatMessage)
    requires
        m.target@.len() > 0,
    ensures
        delivered(room, user, m) <==> (user == m.sender@ || user == m.target@),
{
}

/// A join with a room answers with one announcement for that room, and the
/// registry the dispatch leaves behind already places the sender there.
pub proof fn lemma_join_registers_first(
    m: ChatMessage,
    before: Map<Seq<char>, Seq<char>>,
    after: Map<Seq<char>, Seq<char>>,
    d: Dispatch,
)
    requires
        dispatch_spec(m, before, after, d),
        starts_with(m.content@, join_cmd()),
        rest_of(m.content@, join_cmd().len()).len() > 0,
    ensures
        d is Reply,
        after.contains_key(m.sender@),
        after[m.sender@] == room_after(d),
        room_after(d) == rest_of(m.content@, join_cmd().len()),
{
    reveal_strlit("!join ");
    reveal_strlit("!user");
    reveal_strlit("!news");
    assert(m.content@.subrange(0, 6)[1] == 'j');
    assert(m.content@[1] == 'j');
    assert(m.content@ != user_cmd());
    assert(m.content@ != "!news"@);
}

/// The answer to `!user` from a sender in a room names each user that the
/// registry places in that room, and no one else, once.
pub proof fn lemma_user_listing(
    m: ChatMessage,
    before: Map<Seq<char>, Seq<char>>,
    after: Map<Seq<char>, Seq<char>>,
    d: Dispatch,
)
    requires
        dispatch_spec(m, before, after, d),
        m.content@ == user_cmd(),
        m.chatroom@.len() > 0,
    ensures
        after == before,
        d is Reply,
        exists|users: Seq<Seq<char>>|
            users.no_duplicates() && users.to_set() == users_in_room(before, m.chatroom@)
                && (d->Reply_0).content@ == #[trigger] users_text(m.chatroom@, users),
{
    assert(!needs_room(m));
}

/// Ending a session takes its user out of the registry and leaves every
/// other user where the user was.
pub proof fn lemma_departure_clears(
    before: Map<Seq<char>, Seq<char>>,
    after: Map<Seq<char>, Seq<char>>,
    user: Seq<char>,
)
    requires
        after == before.remove(user),
    ensures
        !after.contains_key(user),
        forall|u: Seq<char>|
            u != user ==> (#[trigger] after.contains_key(u) <==> before.contains_key(u)) && (
            after.contains_key(u) ==> after[u] == before[u]),
{
}

} // verus!
