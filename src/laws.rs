//! Properties that relate several functions of the library, or every state of
//! an engine.
use vstd::prelude::*;
use crate::addr::SockAddr;
use crate::error::ResolveError;
use crate::gai::{gai_next, GaiAction, GaiEvent, GaiPhase, GaiWait, EAI_INPROGRESS, EAI_NOTCANCELED};
use crate::lookup::with_port_all;
use crate::overlapped::{complete_spec, take_spec, Context, ERROR_SUCCESS, WAIT_OBJECT_0};
use crate::target::{plan_pair_spec, plan_str_spec, sock_of, IpAddr, PlanView};

verus! {

/// A target that reads as a socket-address literal is planned as that one
/// address, with no lookup, whatever the rest of the target holds. The bound
/// on the wait plays no part, so a zero bound gives the same.
pub proof fn literal_target_needs_no_lookup(t: Seq<char>, a: SockAddr)
    ensures
        plan_str_spec(t, Some(a)) == Ok::<PlanView, ResolveError>(PlanView::Literal(a)),
{
}

/// A host that reads as an IP address literal is planned as that address
/// with the given port, with no lookup.
pub proof fn literal_host_needs_no_lookup(host: Seq<char>, ip: IpAddr, port: u16)
    ensures
        plan_pair_spec(host, port, Some(ip)) == PlanView::Literal(sock_of(ip, port)),
        sock_of(ip, port).spec_port() == port,
{
}

/// Every address that a walk yields carries the port that the caller asked
/// for, and none is added or lost.
pub proof fn every_address_has_requested_port(s: Seq<SockAddr>, port: u16)
    ensures
        with_port_all(s, port).len() == s.len(),
        forall|i: int| 0 <= i < s.len() ==> (#[trigger] with_port_all(s, port)[i]).spec_port() == port,
{
}

/// Whether `ev` is what the action that led to phase `p` returns.
pub open spec fn expected(p: GaiPhase, ev: GaiEvent) -> bool {
    match (p, ev) {
        (GaiPhase::Submitting, GaiEvent::Submitted { .. }) => true,
        (GaiPhase::Waiting, GaiEvent::Woke { .. }) => true,
        (GaiPhase::Checking, GaiEvent::Status { .. }) => true,
        (GaiPhase::Cancelling, GaiEvent::CancelResult(_)) => true,
        (GaiPhase::Reaping, GaiEvent::Status { .. }) => true,
        _ => false,
    }
}

/// Whether, after `ev` in state `s`, glibc no longer works on the request:
/// it was never accepted, it completed, or its cancellation was answered.
pub open spec fn settled(s: GaiWait, ev: GaiEvent) -> bool {
    match (s.phase, ev) {
        (GaiPhase::Submitting, GaiEvent::Submitted { code, .. }) => code != 0,
        (GaiPhase::Checking, GaiEvent::Status { code, .. }) => code != EAI_INPROGRESS,
        (GaiPhase::Cancelling, GaiEvent::CancelResult(code)) => code != EAI_NOTCANCELED,
        (GaiPhase::Reaping, GaiEvent::Status { .. }) => true,
        _ => false,
    }
}

/// The glibc engine gives a terminal outcome only once the request is
/// settled, so nothing native is left outstanding when the call returns; the
/// one exception is a cancellation answered with "not cancelled".
pub proof fn gai_outcome_leaves_nothing_outstanding(s: GaiWait, ev: GaiEvent, now: u64)
    requires
        s.phase != GaiPhase::Done,
        expected(s.phase, ev),
        ev != GaiEvent::CancelResult(EAI_NOTCANCELED),
    ensures
        gai_next(s, ev, now).0.phase == GaiPhase::Done ==> settled(s, ev),
        gai_next(s, ev, now).0.phase != GaiPhase::Done ==> !(gai_next(s, ev, now).1 is Deliver)
            && !(gai_next(s, ev, now).1 is Fail),
{
}

/// Each request of the glibc engine has exactly one terminal outcome: a step
/// delivers or fails precisely when it ends the request, and no step follows.
pub proof fn gai_one_terminal_outcome(s: GaiWait, ev: GaiEvent, now: u64)
    requires
        s.phase != GaiPhase::Done,
    ensures
        (gai_next(s, ev, now).0.phase == GaiPhase::Done) == (gai_next(s, ev, now).1 is Deliver
            || gai_next(s, ev, now).1 is Fail),
{
}

/// The glibc engine reports a timeout only after it requested cancellation
/// and glibc answered, and it requests cancellation once no time is left.
pub proof fn gai_timeout_follows_cancel(s: GaiWait, ev: GaiEvent, now: u64)
    requires
        s.phase != GaiPhase::Done,
    ensures
        gai_next(s, ev, now).1 == GaiAction::Fail(ResolveError::TimedOut) ==> s.phase
            == GaiPhase::Cancelling || s.phase == GaiPhase::Reaping,
        gai_next(s, ev, now).0.phase == GaiPhase::Cancelling ==> gai_next(s, ev, now).1
            == GaiAction::Cancel,
{
}

/// Every suspension of the glibc engine ends no later than the deadline, and
/// none is asked for once the deadline has passed.
pub proof fn gai_wait_is_bounded(s: GaiWait, ev: GaiEvent, now: u64)
    requires
        s.phase != GaiPhase::Done,
    ensures
        gai_next(s, ev, now).1 matches GaiAction::Suspend(t) ==> now < s.deadline && now + t
            == s.deadline,
        gai_next(s, ev, now).0.deadline == s.deadline,
{
}

/// On the Windows engine the caller reads exactly what the completion routine
/// recorded, and never reads an outcome before the signal.
pub proof fn handoff_delivers_recorded_outcome(c: Context, error: u32, wait: u32)
    ensures
        take_spec(complete_spec(c, error), WAIT_OBJECT_0) == if error == ERROR_SUCCESS {
            Ok::<(), ResolveError>(())
        } else {
            Err::<(), ResolveError>(ResolveError::Os(error as i32))
        },
        !c.signalled ==> take_spec(c, wait) == Err::<(), ResolveError>(ResolveError::Unreachable),
{
}

} // verus!
