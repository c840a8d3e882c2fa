//! The asynchronous-resolver engine of glibc: one request is submitted, the
//! caller suspends on it with the time left before a fixed deadline, and a
//! request still pending at the deadline is cancelled before the call ends.
//!
//! The engine is a step function: the caller performs each action on the
//! native request and hands back what it returned.
//!
//! A cancellation that glibc answers with "not cancelled" is not retried: the
//! timeout is reported at once.
use vstd::prelude::*;
use crate::error::ResolveError;

verus! {

/// Temporary failure; also what a suspension that ran out of time returns.
pub const EAI_AGAIN: i32 = -3;
/// System error; the cause is in `errno`.
pub const EAI_SYSTEM: i32 = -11;
/// The request is still being processed.
pub const EAI_INPROGRESS: i32 = -100;
/// The request was cancelled.
pub const EAI_CANCELED: i32 = -101;
/// The request could not be cancelled.
pub const EAI_NOTCANCELED: i32 = -102;
/// The request had already completed.
pub const EAI_ALLDONE: i32 = -103;
/// `errno` of a wait that a signal interrupted.
pub const EINTR: i32 = 4;

/// The error for a resolver status: a system error becomes the OS error in
/// `errno`, any other status is reported as it is.
pub open spec fn gai_error_spec(code: i32, errno: i32) -> ResolveError {
    if code == EAI_SYSTEM {
        ResolveError::Os(errno)
    } else {
        ResolveError::Resolver(code)
    }
}

/// Converts a resolver status into the library's error.
pub fn gai_error_to_resolve(code: i32, errno: i32) -> (r: ResolveError)
    ensures
        r == gai_error_spec(code, errno),
{
    if code == EAI_SYSTEM {
        ResolveError::Os(errno)
    } else {
        ResolveError::Resolver(code)
    }
}

#[derive(Clone, Copy, Debug, PartialEq, Eq, Structural)]
pub enum GaiPhase {
    /// The request is being submitted.
    Submitting,
    /// The caller is suspended on the request.
    Waiting,
    /// A wake is being checked against the request's status.
    Checking,
    /// A cancellation has been requested.
    Cancelling,
    /// The request completed before the cancellation landed; its status is
    /// being read.
    Reaping,
    /// A terminal outcome has been given.
    Done,
}

/// What a native call on the request returned.
#[derive(Clone, Copy, Debug, PartialEq, Eq, Structural)]
pub enum GaiEvent {
    /// The submission returned `code`, with `errno` after it.
    Submitted { code: i32, errno: i32 },
    /// The suspension returned `code`, with `errno` after it.
    Woke { code: i32, errno: i32 },
    /// The request's status was `code`, with `errno` after it.
    Status { code: i32, errno: i32 },
    /// The cancellation returned this code.
    CancelResult(i32),
}

/// What the caller is to do next.
#[derive(Clone, Copy, Debug, PartialEq, Eq, Structural)]
pub enum GaiAction {
    /// Suspend on the request for at most this many nanoseconds.
    Suspend(u64),
    /// Read the request's status.
    ReadStatus,
    /// Request cancellation.
    Cancel,
    /// The request succeeded: hand its result list to the address walk.
    Deliver,
    /// The resolution failed with this error.
    Fail(ResolveError),
}

/// The state of one request. Times are in nanoseconds on the caller's
/// monotonic clock.
#[derive(Clone, Copy, Debug, PartialEq, Eq, Structural)]
pub struct GaiWait {
    pub deadline: u64,
    pub phase: GaiPhase,
    /// The error reported if the cancellation lands.
    pub cause: ResolveError,
}

/// Suspend for the time left, or cancel once none is left.
pub open spec fn wait_or_cancel(s: GaiWait, now: u64) -> (GaiWait, GaiAction) {
    if now >= s.deadline {
        (GaiWait { phase: GaiPhase::Cancelling, cause: ResolveError::TimedOut, ..s }, GaiAction::Cancel)
    } else {
        (GaiWait { phase: GaiPhase::Waiting, ..s }, GaiAction::Suspend((s.deadline - now) as u64))
    }
}

pub open spec fn done(s: GaiWait, a: GaiAction) -> (GaiWait, GaiAction) {
    (GaiWait { phase: GaiPhase::Done, ..s }, a)
}

/// The transition on event `ev` at time `now`.
pub open spec fn gai_next(s: GaiWait, ev: GaiEvent, now: u64) -> (GaiWait, GaiAction) {
    match (s.phase, ev) {
        (GaiPhase::Submitting, GaiEvent::Submitted { code, errno }) => if code == 0 {
            wait_or_cancel(s, now)
        } else {
            done(s, GaiAction::Fail(gai_error_spec(code, errno)))
        },
        (GaiPhase::Waiting, GaiEvent::Woke { code, errno }) => if code == 0 {
            (GaiWait { phase: GaiPhase::Checking, ..s }, GaiAction::ReadStatus)
        } else if code == EAI_SYSTEM && errno == EINTR {
            wait_or_cancel(s, now)
        } else {
            (
                GaiWait {
                    phase: GaiPhase::Cancelling,
                    cause: if code == EAI_AGAIN {
                        ResolveError::TimedOut
                    } else {
                        gai_error_spec(code, errno)
                    },
                    ..s
                },
                GaiAction::Cancel,
            )
        },
        (GaiPhase::Checking, GaiEvent::Status { code, errno }) => if code == 0 {
            done(s, GaiAction::Deliver)
        } else if code == EAI_INPROGRESS {
            wait_or_cancel(s, now)
        } else {
            done(s, GaiAction::Fail(gai_error_spec(code, errno)))
        },
        (GaiPhase::Cancelling, GaiEvent::CancelResult(code)) => if code == EAI_ALLDONE {
            (GaiWait { phase: GaiPhase::Reaping, ..s }, GaiAction::ReadStatus)
        } else {
            done(s, GaiAction::Fail(s.cause))
        },
        (GaiPhase::Reaping, GaiEvent::Status { code, errno }) => if code == 0 {
            done(s, GaiAction::Deliver)
        } else if code == EAI_CANCELED || code == EAI_INPROGRESS {
            done(s, GaiAction::Fail(s.cause))
        } else {
            done(s, GaiAction::Fail(gai_error_spec(code, errno)))
        },
        _ => done(s, GaiAction::Fail(ResolveError::Unreachable)),
    }
}

impl GaiWait {
    /// A request about to be submitted at `now`, bounded by `timeout`
    /// nanoseconds.
    pub fn new(now: u64, timeout: u64) -> (r: GaiWait)
        ensures
            r.phase == GaiPhase::Submitting,
            r.deadline == if now + timeout <= u64::MAX {
                (now + timeout) as u64
            } else {
                u64::MAX
            },
    {
        GaiWait {
            deadline: now.saturating_add(timeout),
            phase: GaiPhase::Submitting,
            cause: ResolveError::TimedOut,
        }
    }

    fn wait_or_cancel(&mut self, now: u64) -> (r: GaiAction)
        ensures
            (*final(self), r) == wait_or_cancel(*old(self), now),
    {
        if now >= self.deadline {
            self.phase = GaiPhase::Cancelling;
            self.cause = ResolveError::TimedOut;
            GaiAction::Cancel
        } else {
            self.phase = GaiPhase::Waiting;
            GaiAction::Suspend(self.deadline - now)
        }
    }

    fn finish(&mut self, a: GaiAction) -> (r: GaiAction)
        ensures
            (*final(self), r) == done(*old(self), a),
    {
        self.phase = GaiPhase::Done;
        a
    }

    /// Takes one step: `ev` is what the last action returned, `now` the time.
    pub fn step(&mut self, ev: GaiEvent, now: u64) -> (r: GaiAction)
        requires
            old(self).phase != GaiPhase::Done,
        ensures
            (*final(self), r) == gai_next(*old(self), ev, now),
    {
        match (self.phase, ev) {
            (GaiPhase::Submitting, GaiEvent::Submitted { code, errno }) => {
                if code == 0 {
                    self.wait_or_cancel(now)
                } else {
                    self.finish(GaiAction::Fail(gai_error_to_resolve(code, errno)))
                }
            },
            (GaiPhase::Waiting, GaiEvent::Woke { code, errno }) => {
                if code == 0 {
                    self.phase = GaiPhase::Checking;
                    GaiAction::ReadStatus
                } else if code == EAI_SYSTEM && errno == EINTR {
                    self.wait_or_cancel(now)
                } else {
                    self.phase = GaiPhase::Cancelling;
                    self.cause =
                        if code == EAI_AGAIN {
                            ResolveError::TimedOut
                        } else {
                            gai_error_to_resolve(code, errno)
                        };
                    GaiAction::Cancel
                }
            },
            (GaiPhase::Checking, GaiEvent::Status { code, errno }) => {
                if code == 0 {
                    self.finish(GaiAction::Deliver)
                } else if code == EAI_INPROGRESS {
                    self.wait_or_cancel(now)
                } else {
                    self.finish(GaiAction::Fail(gai_error_to_resolve(code, errno)))
                }
            },
            (GaiPhase::Cancelling, GaiEvent::CancelResult(code)) => {
                if code == EAI_ALLDONE {
                    self.phase = GaiPhase::Reaping;
                    GaiAction::ReadStatus
                } else {
                    let c = self.cause;
                    self.finish(GaiAction::Fail(c))
                }
            },
            (GaiPhase::Reaping, GaiEvent::Status { code, errno }) => {
                if code == 0 {
                    self.finish(GaiAction::Deliver)
                } else if code == EAI_CANCELED || code == EAI_INPROGRESS {
                    let c = self.cause;
                    self.finish(GaiAction::Fail(c))
                } else {
                    self.finish(GaiAction::Fail(gai_error_to_resolve(code, errno)))
                }
            },
            _ => self.finish(GaiAction::Fail(ResolveError::Unreachable)),
        }
    }
}

} // verus!
