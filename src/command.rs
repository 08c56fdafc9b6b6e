use vstd::prelude::*;
use crate::clock::timestamp;
use crate::message::{ChatMessage, server_name, server_sender};
use crate::registry::{Registry, names, users_in_room};
use crate::text::{
    starts_with, join_with, first_at, lacks, has_prefix, join_strings, find_char, tail_from,
    slice_of,
};

verus! {

/// What the interpreter hands back for one inbound message.
pub enum Dispatch {
    /// Publish this message now.
    Reply(ChatMessage),
    /// Look up the price of `symbol`, then publish what `price_reply` makes of
    /// `request` and the outcome.
    Price { request: ChatMessage, symbol: String },
    /// Publish `reply` now; fetch the top stories, then publish what
    /// `news_reply` makes of `pending` and the outcome.
    News { reply: ChatMessage, pending: ChatMessage },
}

/// How a price lookup ended.
pub enum PriceLookup {
    /// The provider quoted this price.
    Quoted(String),
    /// The provider answered with a client or server error status.
    Rejected,
    /// The request failed, or its answer could not be read.
    Failed,
}

/// `r` has these four fields (its timestamp is left open).
pub open spec fn has_fields(
    r: ChatMessage,
    sender: Seq<char>,
    chatroom: Seq<char>,
    content: Seq<char>,
    target: Seq<char>,
) -> bool {
    &&& r.sender@ == sender
    &&& r.chatroom@ == chatroom
    &&& r.content@ == content
    &&& r.target@ == target
}

/// The part of `s` after its first `n` chars.
pub open spec fn rest_of(s: Seq<char>, n: nat) -> Seq<char> {
    s.subrange(n as int, s.len() as int)
}

pub open spec fn join_cmd() -> Seq<char> {
    "!join "@
}

pub open spec fn dm_cmd() -> Seq<char> {
    "!dm "@
}

pub open spec fn value_cmd() -> Seq<char> {
    "!value "@
}

pub open spec fn user_cmd() -> Seq<char> {
    "!user"@
}

pub open spec fn news_cmd() -> Seq<char> {
    "!news"@
}

/// The prompt for a user who has joined no room.
pub open spec fn join_prompt() -> Seq<char> {
    "Type !join <roomname> to enter a room."@
}

pub open spec fn joined_text(user: Seq<char>, room: Seq<char>) -> Seq<char> {
    "-- "@ + user + " has joined "@ + room
}

pub open spec fn users_text(room: Seq<char>, users: Seq<Seq<char>>) -> Seq<char> {
    "-- Users in "@ + room + ": "@ + join_with(users, ", "@)
}

pub open spec fn no_user_text(user: Seq<char>) -> Seq<char> {
    "No user named "@ + user + " is currently connected."@
}

pub open spec fn join_usage() -> Seq<char> {
    "Usage: !join <room>"@
}

pub open spec fn dm_usage() -> Seq<char> {
    "Usage: !dm <user> <message>"@
}

pub open spec fn value_usage() -> Seq<char> {
    "Usage: !value <symbol>"@
}

pub open spec fn news_placeholder() -> Seq<char> {
    "Retrieving News ..."@
}

pub open spec fn price_text(symbol: Seq<char>, price: Seq<char>) -> Seq<char> {
    "$"@ + symbol + " is currently worth "@ + price + "€"@
}

pub open spec fn price_rejected_text(symbol: Seq<char>) -> Seq<char> {
    "Error requesting conversion rate for "@ + symbol
}

pub open spec fn price_failed_text() -> Seq<char> {
    "Something went wrong when trying to retrieve currency information"@
}

/// The sender has joined no room and is not joining one.
pub open spec fn needs_room(m: ChatMessage) -> bool {
    m.chatroom@.len() == 0 && !starts_with(m.content@, join_cmd())
}

/// A notice of the relay to the sender of `m` alone, in `m`'s room.
pub open spec fn notice_to_sender(r: ChatMessage, m: ChatMessage, content: Seq<char>) -> bool {
    has_fields(r, server_name(), m.chatroom@, content, m.sender@)
}

/// What the interpreter owes for the inbound message `m`, given the registry
/// `before` the dispatch and `after` it.
pub open spec fn dispatch_spec(
    m: ChatMessage,
    before: Map<Seq<char>, Seq<char>>,
    after: Map<Seq<char>, Seq<char>>,
    d: Dispatch,
) -> bool {
    let c = m.content@;
    if needs_room(m) {
        after == before && match d {
            Dispatch::Reply(r) => notice_to_sender(r, m, join_prompt()) && r.timestamp
                == m.timestamp,
            _ => false,
        }
    } else if c == user_cmd() {
        after == before && match d {
            Dispatch::Reply(r) => r.timestamp == m.timestamp && exists|users: Seq<Seq<char>>|
                users.no_duplicates() && users.to_set() == users_in_room(before, m.chatroom@)
                    && notice_to_sender(r, m, #[trigger] users_text(m.chatroom@, users)),
            _ => false,
        }
    } else if c == news_cmd() {
        after == before && match d {
            Dispatch::News { reply, pending } => notice_to_sender(reply, m, news_placeholder())
                && reply.timestamp == m.timestamp && notice_to_sender(pending, m, news_placeholder())
                && pending.timestamp == m.timestamp,
            _ => false,
        }
    } else if starts_with(c, join_cmd()) {
        let room = rest_of(c, join_cmd().len());
        match d {
            Dispatch::Reply(r) => if room.len() == 0 {
                after == before && notice_to_sender(r, m, join_usage())
            } else {
                after == before.insert(m.sender@, room) && has_fields(
                    r,
                    server_name(),
                    room,
                    joined_text(m.sender@, room),
                    Seq::empty(),
                )
            },
            _ => false,
        }
    } else if starts_with(c, dm_cmd()) {
        let rest = rest_of(c, dm_cmd().len());
        after == before && match d {
            Dispatch::Reply(r) => if lacks(rest, ' ') {
                notice_to_sender(r, m, dm_usage())
            } else {
                exists|i: int|
                    #[trigger] first_at(rest, ' ', i) && {
                        let user = rest.subrange(0, i);
                        if before.contains_key(user) {
                            has_fields(
                                r,
                                m.sender@,
                                m.chatroom@,
                                rest.subrange(i + 1, rest.len() as int),
                                user,
                            )
                        } else {
                            notice_to_sender(r, m, no_user_text(user))
                        }
                    }
            },
            _ => false,
        }
    } else if starts_with(c, value_cmd()) {
        let symbol = rest_of(c, value_cmd().len());
        after == before && match d {
            Dispatch::Reply(r) => symbol.len() == 0 && notice_to_sender(r, m, value_usage()),
            Dispatch::Price { request, symbol: s } => symbol.len() > 0 && s@ == upper_of(symbol)
                && has_fields(request, m.sender@, m.chatroom@, m.content@, m.target@)
                && request.timestamp == m.timestamp,
            _ => false,
        }
    } else {
        after == before && match d {
            Dispatch::Reply(r) => has_fields(r, m.sender@, m.chatroom@, m.content@, m.target@)
                && r.timestamp == m.timestamp,
            _ => false,
        }
    }
}

/// The upper-case form of a string, by Unicode's rules.
pub uninterp spec fn upper_of(s: Seq<char>) -> Seq<char>;

/// Relies on `str::to_uppercase`: the result depends on the chars alone.
#[verifier::external_body]
fn to_upper(s: &str) -> (r: String)
    ensures
        r@ == upper_of(s@),
{
    s.to_uppercase()
}

/// A notice of the relay to the sender of `m` alone, keeping `m`'s room and time.
fn notice(m: &ChatMessage, content: String) -> (r: ChatMessage)
    ensures
        notice_to_sender(r, *m, content@),
        r.timestamp == m.timestamp,
{
    ChatMessage {
        sender: server_sender(),
        timestamp: m.timestamp,
        chatroom: m.chatroom.clone(),
        content,
        target: m.sender.clone(),
    }
}

/// The answer to a message from a sender who has joined no room.
pub fn build_need_to_join_response(inbound: &ChatMessage) -> (r: ChatMessage)
    ensures
        notice_to_sender(r, *inbound, join_prompt()),
        r.timestamp == inbound.timestamp,
{
    notice(inbound, String::from_str("Type !join <roomname> to enter a room."))
}

/// The answer to `!user`: the users in the sender's room.
pub fn build_user_command_response(inbound: &ChatMessage, users: &Registry) -> (r: ChatMessage)
    requires
        users.wf(),
    ensures
        r.timestamp == inbound.timestamp,
        exists|names: Seq<Seq<char>>|
            names.no_duplicates() && names.to_set() == users_in_room(users@, inbound.chatroom@)
                && notice_to_sender(r, *inbound, #[trigger] users_text(inbound.chatroom@, names)),
{
    let present = users.users_in(&inbound.chatroom);
    let list = join_strings(&present, ", ");
    let content = String::from_str("-- Users in ").concat(inbound.chatroom.as_str()).concat(
        ": ",
    ).concat(list.as_str());
    let r = notice(inbound, content);
    assert(present@.map_values(|x: String| x@) == names(present@));
    assert(notice_to_sender(r, *inbound, users_text(inbound.chatroom@, names(present@))));
    r
}

/// The answer to `!join <room>`: records the sender in the room and
/// announces it there.
pub fn build_user_connection_response(inbound: &ChatMessage, users: &mut Registry) -> (r:
    ChatMessage)
    requires
        old(users).wf(),
        starts_with(inbound.content@, join_cmd()),
    ensures
        final(users).wf(),
        ({
            let room = rest_of(inbound.content@, join_cmd().len());
            if room.len() == 0 {
                final(users)@ == old(users)@ && notice_to_sender(r, *inbound, join_usage())
            } else {
                final(users)@ == old(users)@.insert(inbound.sender@, room) && has_fields(
                    r,
                    server_name(),
                    room,
                    joined_text(inbound.sender@, room),
                    Seq::empty(),
                )
            }
        }),
{
    let prefix = "!join ";
    let room = tail_from(inbound.content.as_str(), prefix.unicode_len());
    if room.unicode_len() == 0 {
        return notice(inbound, String::from_str("Usage: !join <room>"));
    }
    users.put(inbound.sender.clone(), room.clone());
    let content = String::from_str("-- ").concat(inbound.sender.as_str()).concat(
        " has joined ",
    ).concat(room.as_str());
    ChatMessage {
        sender: server_sender(),
        timestamp: timestamp(),
        chatroom: room,
        content,
        target: String::new(),
    }
}

/// The answer to `!dm <user> <words...>`: the words, addressed to the user,
/// or a notice to the sender when the user is not connected or the command
/// lacks its words.
pub fn build_direct_message_response(inbound: &ChatMessage, users: &Registry) -> (r: ChatMessage)
    requires
        users.wf(),
        starts_with(inbound.content@, dm_cmd()),
    ensures
        ({
            let rest = rest_of(inbound.content@, dm_cmd().len());
            if lacks(rest, ' ') {
                notice_to_sender(r, *inbound, dm_usage())
            } else {
                exists|i: int|
                    #[trigger] first_at(rest, ' ', i) && {
                        let user = rest.subrange(0, i);
                        if users@.contains_key(user) {
                            has_fields(
                                r,
                                inbound.sender@,
                                inbound.chatroom@,
                                rest.subrange(i + 1, rest.len() as int),
                                user,
                            )
                        } else {
                            notice_to_sender(r, *inbound, no_user_text(user))
                        }
                    }
            }
        }),
{
    let prefix = "!dm ";
    let rest = tail_from(inbound.content.as_str(), prefix.unicode_len());
    let len = rest.as_str().unicode_len();
    match find_char(rest.as_str(), ' ') {
        None => notice(inbound, String::from_str("Usage: !dm <user> <message>")),
        Some(i) => {
            let user = slice_of(rest.as_str(), 0, i);
            let words = slice_of(rest.as_str(), i + 1, len);
            let r = if !users.contains(&user) {
                let content = String::from_str("No user named ").concat(user.as_str()).concat(
                    " is currently connected.",
                );
                ChatMessage {
                    sender: server_sender(),
                    timestamp: timestamp(),
                    chatroom: inbound.chatroom.clone(),
                    content,
                    target: inbound.sender.clone(),
                }
            } else {
                ChatMessage {
                    sender: inbound.sender.clone(),
                    timestamp: timestamp(),
                    chatroom: inbound.chatroom.clone(),
                    content: words,
                    target: user,
                }
            };
            assert(first_at(rest@, ' ', i as int));
            r
        },
    }
}

/// The answer to `!value <symbol>` once the lookup has ended: a notice of
/// the relay in `request`'s room and to its target.
pub fn price_reply(request: &ChatMessage, symbol: &String, lookup: PriceLookup) -> (r: ChatMessage)
    ensures
        r.sender@ == server_name(),
        r.chatroom@ == request.chatroom@,
        r.target@ == request.target@,
        r.timestamp == request.timestamp,
        r.content@ == match lookup {
            PriceLookup::Quoted(price) => price_text(symbol@, price@),
            PriceLookup::Rejected => price_rejected_text(symbol@),
            PriceLookup::Failed => price_failed_text(),
        },
{
    let content = match lookup {
        PriceLookup::Quoted(price) => String::from_str("$").concat(symbol.as_str()).concat(
            " is currently worth ",
        ).concat(price.as_str()).concat("€"),
        PriceLookup::Rejected => String::from_str("Error requesting conversion rate for ").concat(
            symbol.as_str(),
        ),
        PriceLookup::Failed => String::from_str(
            "Something went wrong when trying to retrieve currency information",
        ),
    };
    ChatMessage {
        sender: server_sender(),
        timestamp: request.timestamp,
        chatroom: request.chatroom.clone(),
        content,
        target: request.target.clone(),
    }
}

impl ChatMessage {
    /// Interprets one inbound message against the registry: answers a
    /// command, records a join, or passes chat text on unchanged.
    pub fn into_response(inbound: ChatMessage, users: &mut Registry) -> (d: Dispatch)
        requires
            old(users).wf(),
        ensures
            final(users).wf(),
            dispatch_spec(inbound, old(users)@, final(users)@, d),
    {
        let joining = has_prefix(inbound.content.as_str(), "!join ");
        if inbound.chatroom.unicode_len() == 0 && !joining {
            return Dispatch::Reply(build_need_to_join_response(&inbound));
        }
        if inbound.content == String::from_str("!user") {
            let r = build_user_command_response(&inbound, users);
            return Dispatch::Reply(r);
        }
        if inbound.content == String::from_str("!news") {
            let reply = notice(&inbound, String::from_str("Retrieving News ..."));
            let pending = notice(&inbound, String::from_str("Retrieving News ..."));
            return Dispatch::News { reply, pending };
        }
        if joining {
            let r = build_user_connection_response(&inbound, users);
            return Dispatch::Reply(r);
        }
        if has_prefix(inbound.content.as_str(), "!dm ") {
            let r = build_direct_message_response(&inbound, users);
            return Dispatch::Reply(r);
        }
        if has_prefix(inbound.content.as_str(), "!value ") {
            let prefix = "!value ";
            let rest = tail_from(inbound.content.as_str(), prefix.unicode_len());
            if rest.unicode_len() == 0 {
                return Dispatch::Reply(notice(&inbound, String::from_str("Usage: !value <symbol>")));
            }
            let symbol = to_upper(rest.as_str());
            return Dispatch::Price { request: inbound, symbol };
        }
        Dispatch::Reply(inbound)
    }
}

} // verus!
