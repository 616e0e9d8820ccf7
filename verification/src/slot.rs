//! The process slot: a container for the handle of at most one running
//! companion process.
//!
//! The slot itself carries no lock; the shell shares it between the start
//! task and the close handler under a mutual-exclusion lock of its own, and
//! every operation here is a single read-modify-write on the guarded value.

use vstd::prelude::*;

verus! {

/// The identity of a spawned companion process, as the supervisor tracks it:
/// its numeric OS process identifier. The live OS resources behind it (the
/// child's stdio, the wait handle) stay with the shell, keyed by this value.
#[derive(Clone, Copy, PartialEq, Eq, Structural, Debug)]
pub struct ProcessHandle {
    pub pid: u32,
}

/// Holds the handle of the running companion process, or nothing. At most
/// one handle is ever stored, by construction: the container is an option,
/// never a list.
pub struct ProcessSlot {
    handle: Option<ProcessHandle>,
}

impl ProcessSlot {
    /// What the slot currently holds.
    pub closed spec fn contents(&self) -> Option<ProcessHandle> {
        self.handle
    }

    /// A fresh slot is empty: the companion process is not running before
    /// the start routine has completed.
    pub fn new() -> (slot: Self)
        ensures
            slot.contents() is None,
    {
        ProcessSlot { handle: None }
    }

    /// Record a freshly spawned process. Overwrites, never merges: the
    /// supervisor starts its companion once per run, and a second start
    /// would replace whatever handle the first one left.
    pub fn store(&mut self, handle: ProcessHandle)
        ensures
            final(self).contents() == Some(handle),
    {
        self.handle = Some(handle);
    }

    /// Remove and return whatever the slot holds, leaving it empty.
    pub fn take(&mut self) -> (taken: Option<ProcessHandle>)
        ensures
            final(self).contents() is None,
            taken == old(self).contents(),
    {
        self.handle.take()
    }

    /// The process identifier of the stored handle, if any.
    pub fn stored_pid(&self) -> (pid: Option<u32>)
        ensures
            match self.contents() {
                Some(handle) => pid == Some(handle.pid),
                None => pid is None,
            },
    {
        match &self.handle {
            Some(handle) => Some(handle.pid),
            None => None,
        }
    }
}

} // verus!
