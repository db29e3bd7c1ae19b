//! How the process ends, and with which status.

use vstd::prelude::*;

verus! {

/// A startup precondition that failed. None is retried.
#[derive(Clone, Copy, Debug, PartialEq, Eq, Structural)]
pub enum StartupFailure {
    /// The mode or the path is missing from the arguments.
    MissingArguments,
    /// The mode is neither `server` nor `client`: a usage message is shown
    /// and no I/O work is done.
    UnknownMode,
    /// The rendezvous path could not be bound: it is in use or unwritable.
    BindRefused,
    /// The rendezvous path does not lead to a live listener.
    ConnectRefused,
}

/// Why the process ends.
#[derive(Clone, Copy, Debug, PartialEq, Eq, Structural)]
pub enum Ending {
    /// The interrupt was delivered and the role's cleanup has run, whether
    /// or not it succeeded.
    Interrupted,
    /// A startup precondition failed.
    StartupFailed(StartupFailure),
    /// The accept loop ended although no interrupt was delivered.
    AcceptLoopEnded,
}

/// The status for each ending: zero only where the accept loop ended by
/// itself, one everywhere else.
pub open spec fn status_of(ending: Ending) -> i32 {
    if ending == Ending::AcceptLoopEnded {
        0i32
    } else {
        1i32
    }
}

/// The status with which the process terminates on `ending`.
pub fn exit_status(ending: Ending) -> (status: i32)
    ensures
        status == status_of(ending),
{
    match ending {
        Ending::AcceptLoopEnded => 0,
        Ending::Interrupted => 1,
        Ending::StartupFailed(_) => 1,
    }
}

} // verus!
