//! The decisions of the connection supervisor that closes slow connections
//! when many are open (a mitigation of slowloris attacks).
use vstd::prelude::*;

verus! {

/// Above this many open connections, slow connections are closed.
pub const CONNECTION_COUNT_THRESHOLD: usize = 1000;

/// The least throughput, in bytes per second, that a connection must keep.
pub const MIN_THROUGHPUT: usize = 500;

/// Seconds between two checks of a connection.
pub const SUPERVISOR_TIMEOUT_SECS: u64 = 1;

/// The supervisor; it tracks no state of its own across connections.
#[derive(Debug, Clone, Copy, Default)]
pub struct MyConnectionSupervisor;

/// What becomes of a connection at a check.
#[derive(Debug, Clone, Copy, PartialEq, Eq, Structural)]
pub enum SupervisorOutcome {
    Continue,
    ImmediateClose,
}

impl MyConnectionSupervisor {
    /// A connection's throughput is looked at only when its handshake is
    /// over and more than `CONNECTION_COUNT_THRESHOLD` connections are open.
    pub fn needs_throughput_check(&self, is_handshaking: bool, connection_count: usize) -> (r:
        bool)
        ensures
            r == (!is_handshaking && connection_count > CONNECTION_COUNT_THRESHOLD),
    {
        !is_handshaking && connection_count > CONNECTION_COUNT_THRESHOLD
    }

    /// A checked connection whose throughput (bytes per second since the
    /// last check) is below `MIN_THROUGHPUT` is closed at once.
    pub fn outcome_for_throughput(&self, throughput: usize) -> (r: SupervisorOutcome)
        ensures
            r == (if throughput < MIN_THROUGHPUT {
                SupervisorOutcome::ImmediateClose
            } else {
                SupervisorOutcome::Continue
            }),
    {
        if throughput < MIN_THROUGHPUT {
            SupervisorOutcome::ImmediateClose
        } else {
            SupervisorOutcome::Continue
        }
    }
}

} // verus!
