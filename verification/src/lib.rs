//! Controller-side logic for a fleet of rendering workers coordinated
//! through a shared storage tree that acts as a message queue.
//!
//! The controller deposits job descriptors into per-worker inbox
//! directories; workers poll those directories, execute the jobs, and
//! report back through outbox directories and heartbeat files.  This
//! crate holds the protocol itself: how a job's on-disk representation
//! is laid out, in which order its files must be written, and how the
//! read side interprets what the workers left behind.  The filesystem
//! operations themselves are data here ([`dispatch::FsAction`]); a host
//! program performs them in the order given.

use vstd::prelude::*;

pub mod dispatch;
pub mod order;
pub mod fleet;
pub mod manifest;
pub mod paths;
pub mod scan;

verus! {

/// Configuration for one controller process: the root of the shared
/// queue directory tree, fixed at startup.
pub struct SyncConfig {
    pub root: String,
}

impl SyncConfig {
    /// Builds a configuration around the given root path.
    pub fn new(root: String) -> (c: SyncConfig)
        ensures
            c.root@ == root@,
    {
        SyncConfig { root }
    }
}

/// Returns the root of the shared queue tree for this controller.
/// Every path the protocol touches lives under this directory.
pub fn get_sync_root(config: &SyncConfig) -> (r: String)
    ensures
        r@ == config.root@,
{
    let root: String = config.root.clone();
    root
}

} // verus!
