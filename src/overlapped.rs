//! The overlapped-request engine of Windows: one request is issued with a
//! completion routine and the resolver's own timeout, and the caller waits on
//! an event that the routine signals.
//!
//! The per-request context passes between two owners: the routine writes the
//! outcome and then signals, and the caller reads the outcome only after its
//! wait on the signal returned.
use vstd::prelude::*;
use crate::error::ResolveError;

verus! {

/// What the issuing call returns when the request went pending.
pub const WSA_IO_PENDING: i32 = 997;
/// The completion code of a request that succeeded.
pub const ERROR_SUCCESS: u32 = 0;
/// What a wait returns once the event is signalled.
pub const WAIT_OBJECT_0: u32 = 0;

/// The outcome slot of a context.
#[derive(Clone, Copy, Debug, PartialEq, Eq, Structural)]
pub enum Slot {
    /// Nothing recorded yet.
    Pending,
    /// The request succeeded; its result list is in the context.
    Succeeded,
    /// The request failed.
    Failed(ResolveError),
}

/// The outcome that the completion routine records for a completion code.
pub open spec fn slot_of(error: u32) -> Slot {
    if error == ERROR_SUCCESS {
        Slot::Succeeded
    } else {
        Slot::Failed(ResolveError::Os(error as i32))
    }
}

/// What the caller reads from a context once its wait returned `wait`.
pub open spec fn take_spec(c: Context, wait: u32) -> Result<(), ResolveError> {
    if wait != WAIT_OBJECT_0 || !c.signalled {
        Err(ResolveError::Unreachable)
    } else {
        match c.slot {
            Slot::Succeeded => Ok(()),
            Slot::Failed(e) => Err(e),
            Slot::Pending => Err(ResolveError::Unreachable),
        }
    }
}

/// The context after the completion routine ran with `error`.
pub open spec fn complete_spec(c: Context, error: u32) -> Context {
    Context { slot: slot_of(error), signalled: true }
}

/// Whether the one-time start of the sockets subsystem is still to be made
/// in this process; marks it made.
pub fn init(started: &mut bool) -> (run: bool)
    ensures
        run == !*old(started),
        *final(started),
{
    let run = !*started;
    *started = true;
    run
}

/// The completion code with which the routine is to run at once, when the
/// issuing call did not leave the request pending.
pub fn inline_completion(ret: i32) -> (r: Option<u32>)
    ensures
        ret == WSA_IO_PENDING ==> r is None,
        ret != WSA_IO_PENDING ==> r == Some(ret as u32),
{
    if ret == WSA_IO_PENDING {
        None
    } else {
        Some(ret as u32)
    }
}

/// The part of a request's context that the two owners exchange.
#[derive(Clone, Copy, Debug, PartialEq, Eq, Structural)]
pub struct Context {
    pub slot: Slot,
    pub signalled: bool,
}

impl Context {
    /// A fresh context, before the request is issued.
    pub fn new() -> (r: Context)
        ensures
            r.slot == Slot::Pending,
            !r.signalled,
    {
        Context { slot: Slot::Pending, signalled: false }
    }

    /// The completion routine: records the outcome, then signals. It runs once.
    pub fn complete(&mut self, error: u32)
        requires
            !old(self).signalled,
        ensures
            *final(self) == complete_spec(*old(self), error),
    {
        self.slot = if error == ERROR_SUCCESS {
            Slot::Succeeded
        } else {
            Slot::Failed(ResolveError::Os(error as i32))
        };
        self.signalled = true;
    }

    /// The caller, once its wait returned `wait`: reads the outcome if the
    /// event was signalled. A wait that failed, or a signal with no outcome
    /// behind it, is a defect.
    pub fn take(&mut self, wait: u32) -> (r: Result<(), ResolveError>)
        ensures
            r == take_spec(*old(self), wait),
            final(self).slot == Slot::Pending,
            final(self).signalled == old(self).signalled,
    {
        if wait != WAIT_OBJECT_0 || !self.signalled {
            self.slot = Slot::Pending;
            return Err(ResolveError::Unreachable);
        }
        let s = self.slot;
        self.slot = Slot::Pending;
        match s {
            Slot::Succeeded => Ok(()),
            Slot::Failed(e) => Err(e),
            Slot::Pending => Err(ResolveError::Unreachable),
        }
    }
}

} // verus!
