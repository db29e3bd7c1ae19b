//! Connection-lifecycle and shutdown-coordination core of a small local IPC
//! service: a listener that accepts any number of peers on a named local
//! endpoint, a connector that streams operator lines to it, and the one-shot
//! shutdown path that removes the endpoint's name before the process ends.
//!
//! The library performs no I/O. Each role is a small machine: the caller
//! performs a platform operation, hands its outcome in, and is told what to do
//! next.

pub mod connector;
pub mod exit;
pub mod handler;
pub mod invocation;
pub mod listener;
pub mod rendezvous;
pub mod shutdown;
