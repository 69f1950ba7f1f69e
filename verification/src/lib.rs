//! Process isolation using Linux namespaces.
//!
//! The library models an isolator that transfers execution into a child
//! process living in fresh user and mount namespaces (optionally a PID
//! namespace), with bind mounts and a chroot applied inside the child.
//! Everything the isolator decides — the single-thread gate, `uid_map`
//! and `gid_map` derivation, subordinate-ID parsing, helper invocations,
//! the parent's supervision protocol and the child's setup protocol — is
//! verified here as pure functions and state machines. The surrounding
//! program performs the actual system calls and feeds their outcomes
//! back as events.

use vstd::prelude::*;

pub mod child;
pub mod config;
pub mod errors;
pub mod maps;
pub mod parent;
pub mod paths;
pub mod strutil;
pub mod subid;
pub mod sys;
pub mod threads;

pub use config::{parse_bind_mount, run, Args, BindMount, Isolator};
pub use errors::{IsolateError, IsolateErrorKind};
pub use maps::{make_identity_map, MapKind};
pub use subid::parse_subid_file;
pub use sys::ChildExitReason;
pub use threads::is_single_threaded;

verus! {

/// A subordinate ID range from `/etc/subuid` or `/etc/subgid`.
#[derive(Clone, Copy, PartialEq, Eq, Structural, Debug)]
pub struct SubIdRange {
    /// First ID of the range.
    pub start: u32,
    /// Number of IDs in the range.
    pub count: u32,
}

} // verus!
