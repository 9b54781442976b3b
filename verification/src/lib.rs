//! A client-side engine for the IRC wire protocol.
//!
//! Lines of protocol traffic are framed and parsed into [`Message`]s, which
//! are classified into typed [`Command`]s and [`Reply`]s; typed commands are
//! formatted back into framed bytes. The connection itself is modelled as a
//! state machine ([`Client`]) that decides what is to be written and
//! dispatched; performing the reads and writes is left to the caller.

use vstd::prelude::*;

pub mod callback;
pub mod client;
pub mod color;
pub mod command;
pub mod event;
pub mod grammar;
pub mod ident;
pub mod key;
pub mod list;
pub mod message;
pub mod reply;
pub mod text;
pub mod token;
pub mod wrap;

pub use callback::Callback;
pub use client::Client;
pub use command::Command;
pub use event::Event;
pub use ident::Ident;
pub use message::Message;
pub use reply::Reply;
pub use text::{Text, TextSlice};

verus! {

/// What can go wrong between this engine and a server.
#[derive(Debug, Clone, PartialEq, Eq)]
pub enum IrscError {
    /// The transport failed; the text describes the failure.
    Io(String),
    /// A connection was requested while one is already held.
    AlreadyConnected,
    /// A transport was needed and none is held.
    NotConnected,
    /// A lookup found no entry, or a line holds no command word.
    NotFound,
    /// The TLS layer failed; the text describes the failure.
    Ssl(String),
    /// A line is longer than a message can hold.
    TooLong,
}

/// The longest line the protocol allows, terminator included.
pub const MAX_LINE_LENGTH: usize = 512;

} // verus!
