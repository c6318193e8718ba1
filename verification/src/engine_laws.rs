//! What holds of every run of the engine.
//!
//! A run is a sequence of steps, each with the event, the copy of the cells
//! and the time that the caller handed in. Nothing is asked of the caller
//! but that its clock does not go back.

use crate::cycle::{waiting, ConfirmationView, CycleActionView, CyclePhase};
use crate::engine::{engine_spec, Cells, EngineActionView, EngineEventView, EngineStage, EngineView};
use crate::gate::{all_fresh, lost, probe_fee};
use crate::limiter::WINDOW_MS;
use vstd::prelude::*;

verus! {

/// What the caller hands to one step.
pub struct EngineInput {
    pub cells: Cells,
    pub event: EngineEventView,
    pub now: i64,
}

/// The engine after the steps `inputs`, in their order.
pub open spec fn engine_run(e: EngineView, inputs: Seq<EngineInput>) -> EngineView
    decreases inputs.len(),
{
    if inputs.len() == 0 {
        e
    } else {
        let last = inputs.last();
        engine_spec(engine_run(e, inputs.drop_last()), last.cells, last.event, last.now).0
    }
}

/// What the last of the steps `inputs` asks of the caller.
pub open spec fn last_action(e: EngineView, inputs: Seq<EngineInput>) -> EngineActionView
    recommends
        inputs.len() > 0,
{
    let last = inputs.last();
    engine_spec(engine_run(e, inputs.drop_last()), last.cells, last.event, last.now).1
}

/// The time of the last step, or the start of the limiter's window before
/// any step.
pub open spec fn run_clock(e: EngineView, inputs: Seq<EngineInput>) -> i64 {
    if inputs.len() == 0 {
        e.limiter.window_start
    } else {
        inputs.last().now
    }
}

/// Whether time does not go back in the run.
pub open spec fn in_time(e: EngineView, inputs: Seq<EngineInput>) -> bool
    decreases inputs.len(),
{
    inputs.len() == 0 || {
        &&& in_time(e, inputs.drop_last())
        &&& run_clock(e, inputs.drop_last()) <= inputs.last().now
    }
}

/// Whether an action launches a probe: its first send.
pub open spec fn is_launch(action: EngineActionView) -> bool {
    action == EngineActionView::Cycle(CycleActionView::Dispatch)
}

/// The number of probes that the run launches at times from `from` up to,
/// not including, `to`.
pub open spec fn launches_in(e: EngineView, inputs: Seq<EngineInput>, from: int, to: int) -> nat
    decreases inputs.len(),
{
    if inputs.len() == 0 {
        0
    } else {
        let earlier = launches_in(e, inputs.drop_last(), from, to);
        if is_launch(last_action(e, inputs)) && from <= inputs.last().now < to {
            earlier + 1
        } else {
            earlier
        }
    }
}

/// Whether some step of the run, at a time from `from` up to, not including,
/// `to`, began a new window of the rate limiter.
pub open spec fn restarts_in(e: EngineView, inputs: Seq<EngineInput>, from: int, to: int) -> bool
    decreases inputs.len(),
{
    inputs.len() > 0 && {
        ||| restarts_in(e, inputs.drop_last(), from, to)
        ||| {
            &&& from <= inputs.last().now < to
            &&& engine_run(e, inputs).limiter.window_start != engine_run(
                e,
                inputs.drop_last(),
            ).limiter.window_start
        }
    }
}

/// An engine between two cycles whose rate limiter has counted nothing.
pub open spec fn at_start(e: EngineView) -> bool {
    e.stage == EngineStage::Rest && e.limiter.count == 0
}

proof fn lemma_budget(e: EngineView, inputs: Seq<EngineInput>, from: int)
    requires
        at_start(e),
        in_time(e, inputs),
    ensures
        engine_run(e, inputs).limiter.cap == e.limiter.cap,
        engine_run(e, inputs).limiter.count <= e.limiter.cap,
        engine_run(e, inputs).stage == EngineStage::Gate || engine_run(e, inputs).stage
            == EngineStage::Build ==> engine_run(e, inputs).limiter.count < e.limiter.cap,
        engine_run(e, inputs).limiter.window_start <= run_clock(e, inputs),
        launches_in(e, inputs, from, from + WINDOW_MS) > 0 ==> run_clock(e, inputs) >= from,
        ({
            let limiter = engine_run(e, inputs).limiter;
            let total = launches_in(e, inputs, from, from + WINDOW_MS);
            ||| total <= limiter.count
            ||| limiter.window_start >= from && total <= e.limiter.cap + limiter.count
            ||| limiter.window_start >= from + WINDOW_MS && total <= 2 * e.limiter.cap
        }),
        !restarts_in(e, inputs, from, from + WINDOW_MS) ==> ({
            let limiter = engine_run(e, inputs).limiter;
            let total = launches_in(e, inputs, from, from + WINDOW_MS);
            ||| total <= limiter.count
            ||| run_clock(e, inputs) >= from + WINDOW_MS && total <= e.limiter.cap
        }),
    decreases inputs.len(),
{
    if inputs.len() > 0 {
        lemma_budget(e, inputs.drop_last(), from);
    }
}

/// Whatever the caller hands in, as long as its clock does not go back: a
/// span of one window's length in which the rate limiter did not begin a new
/// window holds at most `cap` launches.
pub proof fn law_launches_in_a_window(e: EngineView, inputs: Seq<EngineInput>, from: int)
    requires
        at_start(e),
        in_time(e, inputs),
        !restarts_in(e, inputs, from, from + WINDOW_MS),
    ensures
        launches_in(e, inputs, from, from + WINDOW_MS) <= e.limiter.cap,
{
    lemma_budget(e, inputs, from);
}

/// Whatever the caller hands in, as long as its clock does not go back:
/// every span of one window's length holds at most twice `cap` launches, and
/// the rate limiter never counts more than `cap` in one of its windows.
pub proof fn law_launches_in_any_span(e: EngineView, inputs: Seq<EngineInput>, from: int)
    requires
        at_start(e),
        in_time(e, inputs),
    ensures
        launches_in(e, inputs, from, from + WINDOW_MS) <= 2 * e.limiter.cap,
        engine_run(e, inputs).limiter.count <= e.limiter.cap,
        engine_run(e, inputs).limiter.cap == e.limiter.cap,
{
    lemma_budget(e, inputs, from);
}

/// A resend never touches the rate limiter.
pub proof fn law_resend_leaves_the_limiter(
    e: EngineView,
    cells: Cells,
    event: EngineEventView,
    now: i64,
)
    ensures
        engine_spec(e, cells, event, now).1 == EngineActionView::Cycle(CycleActionView::Resend)
            ==> engine_spec(e, cells, event, now).0.limiter == e.limiter,
{
}

/// The engine asks for a probe only at an instant at which every cell is
/// fresh by its own bound and none is beyond the fatal bound, and the probe
/// is then built from what the cells hold.
pub proof fn law_build_only_from_fresh_cells(
    e: EngineView,
    cells: Cells,
    event: EngineEventView,
    now: i64,
)
    ensures
        engine_spec(e, cells, event, now).1 matches EngineActionView::Build { snapshot, fee } ==> {
            &&& all_fresh(cells.block, cells.slot, e.config.limits, now)
            &&& !lost(cells.block, cells.slot, e.config.limits, now)
            &&& cells.block.value == Some(snapshot.blockhash)
            &&& cells.slot.value == Some(snapshot.slot)
            &&& fee == probe_fee(e.config.use_priority_fee, cells.fees)
        },
{
}

/// When the engine looks at the cells and one of them is beyond the fatal
/// bound, it halts; and a halted engine stays halted and asks for nothing.
pub proof fn law_lost_cell_halts(e: EngineView, cells: Cells, event: EngineEventView, now: i64)
    ensures
        e.stage == EngineStage::Gate && event is Wake && lost(
            cells.block,
            cells.slot,
            e.config.limits,
            now,
        ) ==> engine_spec(e, cells, event, now) == (
            EngineView { stage: EngineStage::Halted, ..e },
            EngineActionView::Halt,
        ),
        e.stage == EngineStage::Halted ==> engine_spec(e, cells, event, now) == (
            e,
            EngineActionView::Idle,
        ),
{
}

/// A confirmation moves the engine only while a cycle waits for it and only
/// if it is the confirmation of that cycle's probe. Any other confirmation
/// leaves the engine exactly as it was. This is stated of the engines in
/// which a running cycle has not ended, which is every engine that a run
/// can reach.
pub proof fn law_foreign_confirmation_is_dropped(
    e: EngineView,
    cells: Cells,
    c: ConfirmationView,
    now: i64,
)
    requires
        e.stage == EngineStage::Cycle ==> e.cycle.phase != CyclePhase::Done,
        !(e.stage == EngineStage::Cycle && waiting(e.cycle.phase) && c.probe_id
            == e.cycle.probe.id),
    ensures
        engine_spec(e, cells, EngineEventView::Confirmation(c), now).0 == e,
        !(engine_spec(e, cells, EngineEventView::Confirmation(c), now).1 matches EngineActionView::Cycle(
            CycleActionView::Report(_),
        )),
{
    let after = engine_spec(e, cells, EngineEventView::Confirmation(c), now).0;
    assert(after.pending =~= e.pending);
}

/// While a cycle runs, nothing that happens changes its probe: not a resend,
/// not a confirmation, not a second `Built`. The id under which the probe
/// was first sent is the id under which it is confirmed and forgotten.
pub proof fn law_probe_is_fixed_while_the_cycle_runs(
    e: EngineView,
    cells: Cells,
    event: EngineEventView,
    now: i64,
)
    requires
        e.stage == EngineStage::Cycle,
        e.cycle.phase != CyclePhase::AwaitFreshState,
    ensures
        engine_spec(e, cells, event, now).0.cycle.probe == e.cycle.probe,
        engine_spec(e, cells, event, now).0.cycle.fee == e.cycle.fee,
{
}

/// Whether the running cycle has recorded its probe and not yet removed it.
pub open spec fn tracking(e: EngineView) -> bool {
    e.stage == EngineStage::Cycle && (e.cycle.phase == CyclePhase::Sent || e.cycle.phase
        == CyclePhase::ResendWait || e.cycle.phase == CyclePhase::Resending || e.cycle.phase
        == CyclePhase::Confirmed || e.cycle.phase == CyclePhase::TimedOut || e.cycle.phase
        == CyclePhase::Reported)
}

/// The register that holds the probe of the running cycle and nothing else.
pub open spec fn only_the_probe(e: EngineView) -> Map<Seq<char>, (u64, i64)> {
    Map::<Seq<char>, (u64, i64)>::empty().insert(
        e.cycle.probe.id,
        (e.cycle.probe.slot_sent, e.cycle.probe.send_time),
    )
}

/// In every run that starts with an empty register, at most one probe is
/// pending at a time: the probe of the running cycle from the moment it is
/// tracked until the cycle is done, and none before and after. So a cycle
/// that is done, confirmed or not, has left nothing behind.
pub proof fn law_one_pending_probe(e: EngineView, inputs: Seq<EngineInput>)
    requires
        e.stage == EngineStage::Rest,
        e.pending == Map::<Seq<char>, (u64, i64)>::empty(),
    ensures
        tracking(engine_run(e, inputs)) ==> engine_run(e, inputs).pending == only_the_probe(
            engine_run(e, inputs),
        ),
        !tracking(engine_run(e, inputs)) ==> engine_run(e, inputs).pending == Map::<
            Seq<char>,
            (u64, i64),
        >::empty(),
        engine_run(e, inputs).stage == EngineStage::Cycle ==> engine_run(e, inputs).cycle.phase
            != CyclePhase::AwaitFreshState && engine_run(e, inputs).cycle.phase
            != CyclePhase::Done,
    decreases inputs.len(),
{
    if inputs.len() > 0 {
        let after = engine_run(e, inputs);
        law_one_pending_probe(e, inputs.drop_last());
        if tracking(after) {
            assert(after.pending =~= only_the_probe(after));
        } else {
            assert(after.pending =~= Map::<Seq<char>, (u64, i64)>::empty());
        }
    }
}

} // verus!
