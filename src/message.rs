use vstd::prelude::*;

verus! {

/// The one entity that travels between clients and the relay.
pub struct ChatMessage {
    /// Author of the message, or `"server"` for notices of the relay.
    pub sender: String,
    /// Milliseconds since the Unix epoch at creation.
    pub timestamp: i64,
    /// Room of the message; empty while the author has joined none.
    pub chatroom: String,
    /// Chat text, or a command that starts with `!`.
    pub content: String,
    /// Empty for a room broadcast, else the one user it is addressed to.
    pub target: String,
}

impl ChatMessage {
    /// True when the message is addressed to a single user.
    pub open spec fn is_direct(&self) -> bool {
        self.target@.len() > 0
    }
}

/// The name under which the relay itself sends notices.
pub open spec fn server_name() -> Seq<char> {
    "server"@
}

/// The sender name of the relay's own notices.
pub fn server_sender() -> (r: String)
    ensures
        r@ == server_name(),
{
    String::from_str("server")
}

} // verus!
