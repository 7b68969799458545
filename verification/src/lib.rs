//! Verified core of a Zygisk-style module daemon.
//!
//! The daemon ships module libraries into freshly forked application
//! processes and brokers companion helpers on their behalf.  This crate
//! holds the daemon's decision logic — wire framing, action decoding,
//! process-flag computation, the mount-namespace cache, the mount-cleaning
//! policy, the module catalog and the companion registry — with contracts
//! proved by Verus.  The unverified process edge (sockets, fork, setns,
//! procfs) lives outside and hands this crate plain values.

use vstd::prelude::*;

pub mod action;
pub mod companion;
pub mod daemon;
pub mod flags;
pub mod modules;
pub mod mount_clean;
pub mod mount_ns;
pub mod stream;

verus! {

/// Errors surfaced by the verified core.
#[derive(Debug, PartialEq, Eq, Structural, Clone, Copy)]
pub enum DaemonError {
    /// The stream ended before the requested bytes were available.
    ShortRead,
    /// A decoded length does not fit in `usize` on this machine.
    WordOverflow,
    /// A namespace selector byte was neither `Clean` nor `Root`.
    InvalidNamespace(u8),
    /// A module index was outside the catalog.
    BadModuleIndex(usize),
    /// A decoded string is not valid UTF-8.
    InvalidUtf8,
}

} // verus!
