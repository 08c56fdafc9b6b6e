//! A multi-room chat relay: the message model, the user registry, the
//! command interpreter and the per-session delivery rules.
pub mod clock;
pub mod command;
pub mod message;
pub mod news;
pub mod registry;
pub mod session;
pub mod text;
