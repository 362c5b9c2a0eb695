//! The exchange server: the link between two servers. What it decides about
//! the grams it receives and sends stands here; the connections and tasks
//! that carry them stand outside the library.
pub mod connect;
pub mod hookup;
pub mod message;
pub mod queue;
pub mod receive;
pub mod reply;

use vstd::prelude::*;

verus! {

/// How the link to the other server was made.
#[derive(Debug, Clone, Copy, PartialEq, Eq, Structural)]
pub enum EXServerType {
    /// This server connected to the other one.
    Client,
    /// The other server connected to this one, which listens.
    Server,
}

} // verus!
