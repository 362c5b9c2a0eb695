//! The objects that travel between clients and servers: identities and grams.
pub mod client;
pub mod gram;

use vstd::prelude::*;

verus! {

/// Identity of a server (the "planet" part of a client identity).
pub type BITServerID = u32;

/// Identity of one device of a client.
pub type DeviceID = u32;

/// Identity of a message, chosen by its sender.
pub type MessageID = u32;

} // verus!
