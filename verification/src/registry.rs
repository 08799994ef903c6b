//! The process registry: a single slot holding at most one supervised
//! process handle, backing the stop operation. The slot models ownership
//! of the live child process; the caller keeps the OS object beside it
//! and must only kill what it has taken from here.

use vstd::prelude::*;

verus! {

/// A supervised process as the registry sees it: its OS process
/// identifier. The live child object itself is I/O-bound state that the
/// caller owns alongside this handle.
#[derive(Clone, Copy, Debug, PartialEq, Eq, Structural)]
pub struct ProcessHandle {
    pub pid: u32,
}

/// Why a stop request failed.
#[derive(Clone, Copy, Debug, PartialEq, Eq, Structural)]
pub enum StopError {
    /// The registry slot was empty: there is no process to stop.
    NoProcessRunning,
    /// A process was taken from the slot but the termination request
    /// failed at the OS level.
    KillFailed,
}

/// The single-slot store of the currently supervised process handle.
pub struct ProcessRegistry {
    pub slot: Option<ProcessHandle>,
}

/// What taking the slot for a stop yields: the emptied registry, and
/// either the handle to terminate or the report that nothing was running.
pub open spec fn spec_take(r: ProcessRegistry) -> (ProcessRegistry, Result<
    ProcessHandle,
    StopError,
>) {
    match r.slot {
        Some(h) => (ProcessRegistry { slot: None }, Ok(h)),
        None => (ProcessRegistry { slot: None }, Err(StopError::NoProcessRunning)),
    }
}

impl ProcessRegistry {
    /// An empty registry: no process is supervised.
    pub fn new() -> (r: ProcessRegistry)
        ensures
            r.slot is None,
    {
        ProcessRegistry { slot: None }
    }

    /// Puts a handle in the slot and hands back whatever was there, so a
    /// prior process is never silently orphaned: the caller decides what
    /// to do with a handle it gets back.
    pub fn register(&mut self, handle: ProcessHandle) -> (prev: Option<ProcessHandle>)
        ensures
            final(self).slot == Some(handle),
            prev == old(self).slot,
    {
        let prev = self.slot;
        self.slot = Some(handle);
        prev
    }

    /// Empties the slot for a stop: the handle to terminate if one was
    /// registered, or the "no process running" error. Either way the slot
    /// is empty afterwards.
    pub fn take_for_stop(&mut self) -> (r: Result<ProcessHandle, StopError>)
        ensures
            *final(self) == spec_take(*old(self)).0,
            r == spec_take(*old(self)).1,
            final(self).slot is None,
            old(self).slot is None <==> r == Err::<ProcessHandle, StopError>(
                StopError::NoProcessRunning,
            ),
    {
        match self.slot {
            Some(h) => {
                self.slot = None;
                Ok(h)
            },
            None => Err(StopError::NoProcessRunning),
        }
    }
}

/// Stop-twice law: whatever the first stop returned — the handle, if a
/// process was registered — the slot is empty afterwards, so a second
/// stop in a row reports that no process is running.
pub proof fn lemma_stop_twice(r: ProcessRegistry)
    ensures
        r.slot is Some ==> spec_take(r).1 == Ok::<ProcessHandle, StopError>(r.slot->0),
        spec_take(spec_take(r).0).1 == Err::<ProcessHandle, StopError>(StopError::NoProcessRunning),
{
}

} // verus!
