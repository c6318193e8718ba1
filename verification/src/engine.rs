//! The probe cycle engine: the main loop, one decision at a time.
//!
//! The engine joins the rate limiter, the freshness gate, the cycle machine
//! and the register of pending probes. The caller hands it what happened,
//! together with a copy of the three cells and the time, and does what the
//! engine answers: sleep, build a probe, send it, wait, report, or stop.

use crate::cells::{GlobalBlockhash, GlobalPriorityFees, GlobalSlotSent};
use crate::cycle::{
    step_spec, ConfirmationEvent, ConfirmationView, Cycle, CycleAction, CycleActionView,
    CycleEvent, CycleEventView, CyclePhase, CycleTiming, CycleView, PendingProbe,
    PendingProbeView,
};
use crate::gate::{
    fee_for_probe, gate_poll, gate_spec, probe_fee, GateLimits, GateOutcome, Snapshot,
    GATE_RETRY_MS,
};
use crate::limiter::{admission, polled, recorded, Admission, RateLimiter, SendKind};
use crate::pending::PendingProbes;
use vstd::prelude::*;

verus! {

/// What the caller sets once.
#[derive(Clone, Copy, Debug, PartialEq, Eq)]
pub struct EngineConfig {
    /// The ages that the freshness gate tolerates.
    pub limits: GateLimits,
    /// The deadline and the resend interval of every cycle.
    pub timing: CycleTiming,
    /// Whether probes offer the estimated priority fee.
    pub use_priority_fee: bool,
    /// The pause between two cycles, in milliseconds.
    pub loop_sleep_ms: u64,
}

/// A copy of the three cells, taken at one instant.
#[derive(Clone, Copy, Debug, PartialEq, Eq)]
pub struct Cells {
    pub block: GlobalBlockhash,
    pub slot: GlobalSlotSent,
    pub fees: GlobalPriorityFees,
}

/// Where the loop stands.
#[derive(Clone, Copy, Debug, PartialEq, Eq, Structural)]
pub enum EngineStage {
    /// Between two cycles.
    Rest,
    /// Waiting for the rate limiter.
    Throttle,
    /// Waiting for fresh state.
    Gate,
    /// Fresh state was handed out and the probe is being built.
    Build,
    /// A cycle is running.
    Cycle,
    /// A cell was lost: the engine takes no further step.
    Halted,
}

/// What happened.
#[derive(Clone, Debug, PartialEq, Eq)]
pub enum EngineEvent {
    /// The loop starts, or a sleep that the engine asked for is over.
    Wake,
    /// The probe was built and signed; `id` is its signature.
    Built { id: String },
    /// The caller has done what the last step of the cycle asked for.
    Completed,
    /// A timer that the caller set after `Wait` has fired.
    Tick,
    /// A confirmation was taken from the shared channel.
    Confirmation(ConfirmationEvent),
    /// The shared channel was closed.
    ChannelClosed,
}

/// [`EngineEvent`] as contracts see it, with every text as its characters.
pub enum EngineEventView {
    Wake,
    Built { id: Seq<char> },
    Completed,
    Tick,
    Confirmation(ConfirmationView),
    ChannelClosed,
}

impl View for EngineEvent {
    type V = EngineEventView;

    open spec fn view(&self) -> EngineEventView {
        match *self {
            EngineEvent::Wake => EngineEventView::Wake,
            EngineEvent::Built { id } => EngineEventView::Built { id: id@ },
            EngineEvent::Completed => EngineEventView::Completed,
            EngineEvent::Tick => EngineEventView::Tick,
            EngineEvent::Confirmation(c) => EngineEventView::Confirmation(c@),
            EngineEvent::ChannelClosed => EngineEventView::ChannelClosed,
        }
    }
}

/// What the caller does next.
#[derive(Clone, Debug, PartialEq, Eq)]
pub enum EngineAction {
    /// Nothing: the event has no meaning where the loop stands.
    Idle,
    /// Sleep for `ms` milliseconds, then wake the engine.
    Sleep { ms: u64 },
    /// A cell was never written: this cycle is skipped. Wake the engine.
    Skipped,
    /// Build and sign a probe from `snapshot` that offers `fee`.
    Build { snapshot: Snapshot, fee: u64 },
    /// A cell was lost: end the process.
    Halt,
    /// What the running cycle asks for.
    Cycle(CycleAction),
}

/// [`EngineAction`] as contracts see it, with every text as its characters.
pub enum EngineActionView {
    Idle,
    Sleep { ms: u64 },
    Skipped,
    Build { snapshot: Snapshot, fee: u64 },
    Halt,
    Cycle(CycleActionView),
}

impl View for EngineAction {
    type V = EngineActionView;

    open spec fn view(&self) -> EngineActionView {
        match *self {
            EngineAction::Idle => EngineActionView::Idle,
            EngineAction::Sleep { ms } => EngineActionView::Sleep { ms },
            EngineAction::Skipped => EngineActionView::Skipped,
            EngineAction::Build { snapshot, fee } => EngineActionView::Build { snapshot, fee },
            EngineAction::Halt => EngineActionView::Halt,
            EngineAction::Cycle(a) => EngineActionView::Cycle(a@),
        }
    }
}

/// The engine as contracts see it.
pub struct EngineView {
    pub config: EngineConfig,
    pub stage: EngineStage,
    pub limiter: RateLimiter,
    pub cycle: CycleView,
    /// What the probe is built from; meaningful from the stage `Build` on.
    pub snapshot: Snapshot,
    /// The fee that the probe offers; meaningful from the stage `Build` on.
    pub fee: u64,
    /// The probes that were sent and are not settled.
    pub pending: Map<Seq<char>, (u64, i64)>,
}

/// A cycle before its first event.
pub open spec fn fresh_cycle(timing: CycleTiming) -> CycleView {
    CycleView {
        timing,
        phase: CyclePhase::AwaitFreshState,
        probe: PendingProbeView { id: Seq::empty(), slot_sent: 0, send_time: 0 },
        fee: 0,
        started_at: 0,
        last_dispatch_at: 0,
        resends: 0,
        slot_landed: 0,
        success: false,
        finished_at: 0,
    }
}

/// The engine asks the freshness gate.
pub open spec fn at_gate(e: EngineView, cells: Cells, now: i64) -> (EngineView, EngineActionView) {
    match gate_spec(cells.block, cells.slot, e.config.limits, now) {
        GateOutcome::Ready(snapshot) => {
            let fee = probe_fee(e.config.use_priority_fee, cells.fees);
            (
                EngineView { stage: EngineStage::Build, snapshot, fee, ..e },
                EngineActionView::Build { snapshot, fee },
            )
        },
        GateOutcome::Skip => (
            EngineView { stage: EngineStage::Rest, ..e },
            EngineActionView::Skipped,
        ),
        GateOutcome::Wait => (
            EngineView { stage: EngineStage::Gate, ..e },
            EngineActionView::Sleep { ms: GATE_RETRY_MS },
        ),
        GateOutcome::Fatal => (
            EngineView { stage: EngineStage::Halted, ..e },
            EngineActionView::Halt,
        ),
    }
}

/// The engine asks the rate limiter, and the freshness gate if the limiter
/// lets it.
pub open spec fn at_throttle(e: EngineView, cells: Cells, now: i64) -> (
    EngineView,
    EngineActionView,
) {
    let polled = EngineView { limiter: polled(e.limiter, now), ..e };
    match admission(e.limiter, now) {
        Admission::Proceed => at_gate(polled, cells, now),
        Admission::SleepFor { ms } => (
            EngineView { stage: EngineStage::Throttle, ..polled },
            EngineActionView::Sleep { ms },
        ),
    }
}

/// What a step of the running cycle does to the register of pending probes:
/// the probe is recorded when the cycle asks to track it, and removed when
/// the cycle is done.
pub open spec fn pending_after(
    pending: Map<Seq<char>, (u64, i64)>,
    cycle: CycleView,
    action: CycleActionView,
) -> Map<Seq<char>, (u64, i64)> {
    if action is Track {
        pending.insert(cycle.probe.id, (cycle.probe.slot_sent, cycle.probe.send_time))
    } else if cycle.phase == CyclePhase::Done {
        pending.remove(cycle.probe.id)
    } else {
        pending
    }
}

/// What a step of the running cycle tells the rate limiter: nothing but
/// resends, which it does not count.
pub open spec fn limiter_after(limiter: RateLimiter, action: CycleActionView) -> RateLimiter {
    match action {
        CycleActionView::Resend => recorded(limiter, SendKind::Resend),
        _ => limiter,
    }
}

/// The engine hands an event to the running cycle.
pub open spec fn in_cycle(e: EngineView, event: CycleEventView, now: i64) -> (
    EngineView,
    EngineActionView,
) {
    let (cycle, action) = step_spec(e.cycle, event, now);
    (
        EngineView {
            stage: if cycle.phase == CyclePhase::Done {
                EngineStage::Rest
            } else {
                EngineStage::Cycle
            },
            limiter: limiter_after(e.limiter, action),
            cycle,
            pending: pending_after(e.pending, cycle, action),
            ..e
        },
        EngineActionView::Cycle(action),
    )
}

/// The transition of the engine: the state after `event` happened at `now`
/// with the cells as they are in `cells`, and what the caller does next.
pub open spec fn engine_spec(e: EngineView, cells: Cells, event: EngineEventView, now: i64) -> (
    EngineView,
    EngineActionView,
) {
    match event {
        EngineEventView::Wake => match e.stage {
            EngineStage::Rest => {
                if e.config.loop_sleep_ms > 0 {
                    (
                        EngineView { stage: EngineStage::Throttle, ..e },
                        EngineActionView::Sleep { ms: e.config.loop_sleep_ms },
                    )
                } else {
                    at_throttle(e, cells, now)
                }
            },
            EngineStage::Throttle => at_throttle(e, cells, now),
            EngineStage::Gate => at_gate(e, cells, now),
            _ => (e, EngineActionView::Idle),
        },
        EngineEventView::Built { id } => {
            if e.stage == EngineStage::Build {
                let built = CycleEventView::Built { id, slot_sent: e.snapshot.slot, fee: e.fee };
                let (cycle, action) = step_spec(fresh_cycle(e.config.timing), built, now);
                (
                    EngineView {
                        stage: EngineStage::Cycle,
                        limiter: recorded(e.limiter, SendKind::Initial),
                        cycle,
                        ..e
                    },
                    EngineActionView::Cycle(action),
                )
            } else {
                (e, EngineActionView::Idle)
            }
        },
        EngineEventView::Completed => {
            if e.stage == EngineStage::Cycle {
                in_cycle(e, CycleEventView::Completed, now)
            } else {
                (e, EngineActionView::Idle)
            }
        },
        EngineEventView::Tick => {
            if e.stage == EngineStage::Cycle {
                in_cycle(e, CycleEventView::Tick, now)
            } else {
                (e, EngineActionView::Idle)
            }
        },
        EngineEventView::Confirmation(c) => {
            if e.stage == EngineStage::Cycle {
                in_cycle(e, CycleEventView::Confirmation(c), now)
            } else {
                (e, EngineActionView::Idle)
            }
        },
        EngineEventView::ChannelClosed => {
            if e.stage == EngineStage::Cycle {
                in_cycle(e, CycleEventView::ChannelClosed, now)
            } else {
                (e, EngineActionView::Idle)
            }
        },
    }
}

/// The engine.
#[derive(Clone, Debug)]
pub struct Engine {
    config: EngineConfig,
    stage: EngineStage,
    limiter: RateLimiter,
    cycle: Cycle,
    snapshot: Snapshot,
    fee: u64,
    pending: PendingProbes,
}

impl View for Engine {
    type V = EngineView;

    closed spec fn view(&self) -> EngineView {
        EngineView {
            config: self.config,
            stage: self.stage,
            limiter: self.limiter,
            cycle: self.cycle@,
            snapshot: self.snapshot,
            fee: self.fee,
            pending: self.pending@,
        }
    }
}

impl Engine {
    /// What every engine that this module hands out fulfils.
    pub closed spec fn wf(&self) -> bool {
        self.pending.wf()
    }

    /// An engine between two cycles, with an empty window of the rate
    /// limiter that begins at `now` and no pending probe.
    pub fn new(config: EngineConfig, cap: u64, now: i64) -> (engine: Self)
        ensures
            engine.wf(),
            engine@.config == config,
            engine@.stage == EngineStage::Rest,
            engine@.limiter == (RateLimiter { cap, window_start: now, count: 0 }),
            engine@.cycle == fresh_cycle(config.timing),
            forall|i: int| 0 <= i < 32 ==> engine@.snapshot.blockhash@[i] == 0,
            engine@.snapshot.last_valid_block_height == 0,
            engine@.snapshot.slot == 0,
            engine@.fee == 0,
            engine@.pending == Map::<Seq<char>, (u64, i64)>::empty(),
    {
        let engine = Engine {
            config,
            stage: EngineStage::Rest,
            limiter: RateLimiter::new(cap, now),
            cycle: Cycle::new(config.timing),
            snapshot: Snapshot { blockhash: [0u8; 32], last_valid_block_height: 0, slot: 0 },
            fee: 0,
            pending: PendingProbes::new(),
        };
        assert(engine.cycle@.probe.id =~= Seq::<char>::empty());
        engine
    }

    /// Where the loop stands.
    pub fn stage(&self) -> (stage: EngineStage)
        ensures
            stage == self@.stage,
    {
        self.stage
    }

    /// The rate limiter.
    pub fn limiter(&self) -> (limiter: RateLimiter)
        ensures
            limiter == self@.limiter,
    {
        self.limiter
    }

    /// The running cycle, or the last one.
    pub fn cycle(&self) -> (cycle: &Cycle)
        ensures
            cycle@ == self@.cycle,
    {
        &self.cycle
    }

    /// The register of pending probes.
    pub fn pending(&self) -> (pending: &PendingProbes)
        ensures
            pending.wf() == self.wf(),
            pending@ == self@.pending,
    {
        &self.pending
    }

    fn poll_gate(&mut self, cells: &Cells, now: i64) -> (action: EngineAction)
        requires
            old(self).wf(),
        ensures
            final(self).wf(),
            (final(self)@, action@) == at_gate(old(self)@, *cells, now),
    {
        match gate_poll(&cells.block, &cells.slot, &self.config.limits, now) {
            GateOutcome::Ready(snapshot) => {
                let fee = fee_for_probe(self.config.use_priority_fee, &cells.fees);
                self.stage = EngineStage::Build;
                self.snapshot = snapshot;
                self.fee = fee;
                EngineAction::Build { snapshot, fee }
            },
            GateOutcome::Skip => {
                self.stage = EngineStage::Rest;
                EngineAction::Skipped
            },
            GateOutcome::Wait => {
                self.stage = EngineStage::Gate;
                EngineAction::Sleep { ms: GATE_RETRY_MS }
            },
            GateOutcome::Fatal => {
                self.stage = EngineStage::Halted;
                EngineAction::Halt
            },
        }
    }

    fn poll_limiter(&mut self, cells: &Cells, now: i64) -> (action: EngineAction)
        requires
            old(self).wf(),
        ensures
            final(self).wf(),
            (final(self)@, action@) == at_throttle(old(self)@, *cells, now),
    {
        match self.limiter.poll(now) {
            Admission::Proceed => self.poll_gate(cells, now),
            Admission::SleepFor { ms } => {
                self.stage = EngineStage::Throttle;
                EngineAction::Sleep { ms }
            },
        }
    }

    fn drive_cycle(&mut self, event: CycleEvent, now: i64) -> (action: EngineAction)
        requires
            old(self).wf(),
        ensures
            final(self).wf(),
            (final(self)@, action@) == in_cycle(old(self)@, event@, now),
    {
        let action = self.cycle.step(event, now);
        match &action {
            CycleAction::Resend => {
                self.limiter.record(SendKind::Resend);
            },
            CycleAction::Track => {
                let probe = PendingProbe {
                    id: self.cycle.probe.id.clone(),
                    slot_sent: self.cycle.probe.slot_sent,
                    send_time: self.cycle.probe.send_time,
                };
                self.pending.insert(probe);
            },
            _ => {
                if self.cycle.is_done() {
                    self.pending.remove(&self.cycle.probe.id);
                }
            },
        }
        if self.cycle.is_done() {
            self.stage = EngineStage::Rest;
        } else {
            self.stage = EngineStage::Cycle;
        }
        EngineAction::Cycle(action)
    }

    /// Takes the loop one step: `event` happened at `now`, and `cells` is a
    /// copy of the three cells taken at that instant.
    ///
    /// The new state and the action are those of [`engine_spec`]. In short:
    /// after the pause between two cycles the engine asks the rate limiter
    /// and then the freshness gate, and sleeps as long as either says so; a
    /// lost cell halts it for good; with fresh state it asks for a probe,
    /// counts its first send with the rate limiter and runs the cycle, in
    /// which the probe is recorded as pending when it is tracked and removed
    /// when the cycle is done.
    pub fn step(&mut self, cells: &Cells, event: EngineEvent, now: i64) -> (action: EngineAction)
        requires
            old(self).wf(),
        ensures
            final(self).wf(),
            (final(self)@, action@) == engine_spec(old(self)@, *cells, event@, now),
    {
        match event {
            EngineEvent::Wake => match self.stage {
                EngineStage::Rest => {
                    if self.config.loop_sleep_ms > 0 {
                        self.stage = EngineStage::Throttle;
                        EngineAction::Sleep { ms: self.config.loop_sleep_ms }
                    } else {
                        self.poll_limiter(cells, now)
                    }
                },
                EngineStage::Throttle => self.poll_limiter(cells, now),
                EngineStage::Gate => self.poll_gate(cells, now),
                _ => EngineAction::Idle,
            },
            EngineEvent::Built { id } => match self.stage {
                EngineStage::Build => {
                    self.cycle = Cycle::new(self.config.timing);
                    assert(self.cycle@ == fresh_cycle(self.config.timing)) by {
                        assert(self.cycle@.probe.id =~= Seq::<char>::empty());
                    }
                    let built = CycleEvent::Built { id, slot_sent: self.snapshot.slot, fee: self.fee };
                    let action = self.cycle.step(built, now);
                    self.limiter.record(SendKind::Initial);
                    self.stage = EngineStage::Cycle;
                    EngineAction::Cycle(action)
                },
                _ => EngineAction::Idle,
            },
            EngineEvent::Completed => match self.stage {
                EngineStage::Cycle => self.drive_cycle(CycleEvent::Completed, now),
                _ => EngineAction::Idle,
            },
            EngineEvent::Tick => match self.stage {
                EngineStage::Cycle => self.drive_cycle(CycleEvent::Tick, now),
                _ => EngineAction::Idle,
            },
            EngineEvent::Confirmation(c) => match self.stage {
                EngineStage::Cycle => self.drive_cycle(CycleEvent::Confirmation(c), now),
                _ => EngineAction::Idle,
            },
            EngineEvent::ChannelClosed => match self.stage {
                EngineStage::Cycle => self.drive_cycle(CycleEvent::ChannelClosed, now),
                _ => EngineAction::Idle,
            },
        }
    }
}

} // verus!
