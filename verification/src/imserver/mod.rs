//! The instant-messaging server: what it decides about the grams its clients
//! send. The listener, queues and tasks stand outside the library.
pub mod command;
pub mod message;
pub mod receipt;
pub mod receive;

use vstd::prelude::*;

verus! {

/// What the client pool says of the client that sent a gram, on the stream
/// the gram came in.
#[derive(Debug, Clone, Copy, PartialEq, Eq, Structural)]
pub enum SessionCheck {
    /// The client is not in the pool: not logged in, or timed out.
    NotLoggedIn,
    /// The client is in the pool with another stream.
    OtherSession,
    /// The client is in the pool with this very stream.
    SameSession,
}

} // verus!
