//! How the process is invoked: a mode and a rendezvous path.

use crate::exit::StartupFailure;
use vstd::prelude::*;
use vstd::string::*;

verus! {

/// The role that the process plays.
#[derive(Clone, Copy, Debug, PartialEq, Eq, Structural)]
pub enum Role {
    /// Bind the rendezvous path and accept peers.
    Listener,
    /// Connect to the rendezvous path and stream operator lines.
    Connector,
}

/// The two positional arguments.
#[derive(Debug)]
pub struct Invocation {
    /// The mode, as it was given.
    pub mode: String,
    /// The rendezvous path.
    pub path: String,
}

/// The role that a mode selects: `server` the listener, `client` the
/// connector, and anything else none.
pub open spec fn role_of(mode: Seq<char>) -> Result<Role, StartupFailure> {
    if mode == "server"@ {
        Ok(Role::Listener)
    } else if mode == "client"@ {
        Ok(Role::Connector)
    } else {
        Err(StartupFailure::UnknownMode)
    }
}

/// Takes the mode and the path from the process's arguments, of which the
/// first is the program's own name. Arguments behind the path are not looked
/// at. The mode is not judged here.
pub fn read_arguments(args: &Vec<String>) -> (read: Result<Invocation, StartupFailure>)
    ensures
        args@.len() >= 3 ==> {
            &&& read matches Ok(invocation)
            &&& invocation.mode@ == args@[1]@
            &&& invocation.path@ == args@[2]@
        },
        args@.len() < 3 ==> {
            &&& read matches Err(failure)
            &&& failure == StartupFailure::MissingArguments
        },
{
    if args.len() < 3 {
        Err(StartupFailure::MissingArguments)
    } else {
        Ok(Invocation { mode: args[1].clone(), path: args[2].clone() })
    }
}

/// The role for a mode, or `UnknownMode` where the mode names none.
pub fn select_role(mode: &str) -> (role: Result<Role, StartupFailure>)
    ensures
        role == role_of(mode@),
{
    let given = mode.to_owned();
    if given == String::from_str("server") {
        Ok(Role::Listener)
    } else if given == String::from_str("client") {
        Ok(Role::Connector)
    } else {
        Err(StartupFailure::UnknownMode)
    }
}

} // verus!
