//! Which handler a client's command goes to.
use vstd::prelude::*;

use crate::object::gram::{BitCommand, LOGIN_COMMAND, LOGOUT_COMMAND};

verus! {

/// The handler of a command.
#[derive(Debug, Clone, Copy, PartialEq, Eq, Structural)]
pub enum CommandRoute {
    Login,
    Logout,
    /// Any other command is not handled.
    Ignore,
}

/// A login command goes to the login handler and a logout command to the
/// logout handler; nothing else is handled.
pub fn command_route(command: BitCommand) -> (r: CommandRoute)
    ensures
        r == (if command == LOGIN_COMMAND {
            CommandRoute::Login
        } else if command == LOGOUT_COMMAND {
            CommandRoute::Logout
        } else {
            CommandRoute::Ignore
        }),
{
    if command == LOGIN_COMMAND {
        CommandRoute::Login
    } else if command == LOGOUT_COMMAND {
        CommandRoute::Logout
    } else {
        CommandRoute::Ignore
    }
}

} // verus!
