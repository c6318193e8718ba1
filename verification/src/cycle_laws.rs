//! What holds of every run of the cycle machine.

use crate::cycle::{
    deadline_reached, step_spec, verdict, wait_ms, waiting, ConfirmationView, CycleActionView,
    CycleEventView, CyclePhase, CycleView, Unreported,
};
use vstd::prelude::*;

verus! {

/// A waiting cycle is moved by the confirmation of its own probe and by no
/// other. A confirmation for another probe leaves the state as it was and
/// the cycle waiting; the confirmation for its own probe ends the wait. Where
/// both arrive, the outcome is that of the cycle's own confirmation alone,
/// in whichever order they come.
pub proof fn law_only_own_confirmation_counts(
    s: CycleView,
    own: ConfirmationView,
    other: ConfirmationView,
    first_at: i64,
    second_at: i64,
)
    requires
        waiting(s.phase),
        own.probe_id == s.probe.id,
        other.probe_id != s.probe.id,
    ensures
        step_spec(s, CycleEventView::Confirmation(other), first_at).0 == s,
        step_spec(s, CycleEventView::Confirmation(other), first_at).1 is Wait,
        step_spec(s, CycleEventView::Confirmation(own), first_at).0.phase == CyclePhase::Confirmed,
        step_spec(s, CycleEventView::Confirmation(own), first_at).1 == verdict(s, own, first_at),
        step_spec(
            step_spec(s, CycleEventView::Confirmation(other), first_at).0,
            CycleEventView::Confirmation(own),
            second_at,
        ) == step_spec(s, CycleEventView::Confirmation(own), second_at),
        step_spec(
            step_spec(s, CycleEventView::Confirmation(own), first_at).0,
            CycleEventView::Confirmation(other),
            second_at,
        ) == (
            step_spec(s, CycleEventView::Confirmation(own), first_at).0,
            CycleActionView::Idle,
        ),
{
}

/// Once a probe is built, no event changes its id, the slot it was sent in
/// or the time of its first send.
pub proof fn law_probe_is_fixed(s: CycleView, e: CycleEventView, now: i64)
    requires
        s.phase != CyclePhase::AwaitFreshState,
    ensures
        step_spec(s, e, now).0.probe == s.probe,
        step_spec(s, e, now).0.fee == s.fee,
        step_spec(s, e, now).0.timing == s.timing,
        step_spec(s, e, now).0.phase != CyclePhase::AwaitFreshState,
{
}

/// One tick at `now`, and the completion of the resend if the tick asked
/// for one.
pub open spec fn after_tick(s: CycleView, now: i64) -> CycleView {
    let ticked = step_spec(s, CycleEventView::Tick, now);
    if ticked.1 is Resend {
        step_spec(ticked.0, CycleEventView::Completed, now).0
    } else {
        ticked.0
    }
}

/// The state after one tick at each of `ticks`, in their order.
pub open spec fn after_ticks(s: CycleView, ticks: Seq<i64>) -> CycleView
    decreases ticks.len(),
{
    if ticks.len() == 0 {
        s
    } else {
        after_tick(after_ticks(s, ticks.drop_last()), ticks.last())
    }
}

/// However often a waiting cycle sends its probe again, the probe keeps its
/// id, and as long as the cycle has not ended, the confirmation of that id
/// ends the wait with the same verdict as it would have had before any resend.
pub proof fn law_resends_keep_the_probe(
    s: CycleView,
    ticks: Seq<i64>,
    c: ConfirmationView,
    now: i64,
)
    requires
        waiting(s.phase),
        c.probe_id == s.probe.id,
    ensures
        after_ticks(s, ticks).probe == s.probe,
        after_ticks(s, ticks).fee == s.fee,
        after_ticks(s, ticks).timing == s.timing,
        waiting(after_ticks(s, ticks).phase) || after_ticks(s, ticks).phase == CyclePhase::TimedOut,
        waiting(after_ticks(s, ticks).phase) ==> {
            let confirmed = step_spec(
                after_ticks(s, ticks),
                CycleEventView::Confirmation(c),
                now,
            );
            &&& confirmed.0.phase == CyclePhase::Confirmed
            &&& confirmed.1 == verdict(s, c, now)
        },
    decreases ticks.len(),
{
    if ticks.len() > 0 {
        law_resends_keep_the_probe(s, ticks.drop_last(), c, now);
    }
}

/// Whatever the state and the event, a step hands a report to the sinks only
/// for a successful confirmation of the cycle's own probe that landed no
/// earlier than the slot it was sent in; the report then carries the
/// difference of the two slots. A probe that landed before its own send is
/// never reported.
pub proof fn law_no_report_when_landed_before_sent(s: CycleView, e: CycleEventView, now: i64)
    ensures
        step_spec(s, e, now).1 matches CycleActionView::Report(r) ==> {
            &&& waiting(s.phase)
            &&& e matches CycleEventView::Confirmation(c)
            &&& c.probe_id == s.probe.id
            &&& c.success
            &&& r.slot_sent == s.probe.slot_sent
            &&& r.slot_landed == c.slot_landed
            &&& r.slot_sent <= r.slot_landed
            &&& r.slot_latency == r.slot_landed - r.slot_sent
        },
        (e matches CycleEventView::Confirmation(c) && c.slot_landed < s.probe.slot_sent) ==> !(
        step_spec(s, e, now).1 is Report),
{
}

/// A tick at or after the deadline ends the wait without a report, and no
/// tick before the deadline does. A caller that waits as long as the machine
/// says and then ticks is never late for the deadline by its own doing: the
/// wait it is given ends at the deadline or before.
pub proof fn law_deadline_ends_the_wait(s: CycleView, now: i64)
    requires
        waiting(s.phase),
    ensures
        deadline_reached(s.timing, s.started_at, now) ==> step_spec(s, CycleEventView::Tick, now) == (
            CycleView { phase: CyclePhase::TimedOut, finished_at: now, ..s },
            CycleActionView::LogOnly(Unreported::TimedOut),
        ),
        !deadline_reached(s.timing, s.started_at, now) ==> waiting(
            step_spec(s, CycleEventView::Tick, now).0.phase,
        ),
        wait_ms(s.timing, s.started_at, s.last_dispatch_at, now) <= s.timing.resend_every_ms,
        !deadline_reached(s.timing, s.started_at, now) ==> now + wait_ms(
            s.timing,
            s.started_at,
            s.last_dispatch_at,
            now,
        ) <= s.started_at + s.timing.deadline_ms,
{
}

/// A cycle that has ended stays as it is until the caller has done what was
/// asked: no confirmation, tick or closed channel moves it any more.
pub proof fn law_the_first_outcome_stands(s: CycleView, e: CycleEventView, now: i64)
    requires
        s.phase == CyclePhase::Confirmed || s.phase == CyclePhase::TimedOut,
        !(e is Completed),
    ensures
        step_spec(s, e, now) == (s, CycleActionView::Idle),
{
}

} // verus!
