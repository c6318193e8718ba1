//! One probe cycle as a state machine.
//!
//! A cycle starts when fresh state has been read and ends when the probe was
//! confirmed or given up and the result handed on. The machine does no work
//! of its own: [`Cycle::step`] takes what happened and says what the caller
//! does next. Sending, waiting and reporting are the caller's.

use vstd::prelude::*;

verus! {

/// The usual deadline of a cycle, in milliseconds.
pub const CYCLE_DEADLINE_MS: u64 = 20_000;

/// The usual interval between two sends of a probe, in milliseconds.
pub const RESEND_EVERY_MS: u64 = 2_000;

/// The two intervals of a cycle, in milliseconds.
#[derive(Clone, Copy, Debug, PartialEq, Eq, Structural)]
pub struct CycleTiming {
    /// A cycle gives up when it has waited this long for a confirmation.
    pub deadline_ms: u64,
    /// While it waits, a cycle sends its probe again at this interval.
    pub resend_every_ms: u64,
}

impl CycleTiming {
    /// The usual intervals: a deadline of 20 seconds and a resend every 2
    /// seconds.
    pub fn standard() -> (timing: Self)
        ensures
            timing == (CycleTiming {
                deadline_ms: CYCLE_DEADLINE_MS,
                resend_every_ms: RESEND_EVERY_MS,
            }),
    {
        CycleTiming { deadline_ms: CYCLE_DEADLINE_MS, resend_every_ms: RESEND_EVERY_MS }
    }
}

/// A probe that was sent and is not yet settled.
#[derive(Clone, Debug, PartialEq, Eq)]
pub struct PendingProbe {
    /// The signature of the probe's transaction, as text.
    pub id: String,
    /// The slot that was current when the probe was built.
    pub slot_sent: u64,
    /// When the probe was first sent.
    pub send_time: i64,
}

/// [`PendingProbe`] as contracts see it, with every text as its characters.
pub struct PendingProbeView {
    pub id: Seq<char>,
    pub slot_sent: u64,
    pub send_time: i64,
}

impl View for PendingProbe {
    type V = PendingProbeView;

    open spec fn view(&self) -> PendingProbeView {
        PendingProbeView { id: self.id@, slot_sent: self.slot_sent, send_time: self.send_time }
    }
}

/// The network's word that a transaction was included in the ledger.
#[derive(Clone, Debug, PartialEq, Eq)]
pub struct ConfirmationEvent {
    /// The signature of the transaction, as text.
    pub probe_id: String,
    /// The slot in which it landed.
    pub slot_landed: u64,
    /// Whether it ran without error.
    pub success: bool,
}

/// [`ConfirmationEvent`] as contracts see it, with every text as its characters.
pub struct ConfirmationView {
    pub probe_id: Seq<char>,
    pub slot_landed: u64,
    pub success: bool,
}

impl View for ConfirmationEvent {
    type V = ConfirmationView;

    open spec fn view(&self) -> ConfirmationView {
        ConfirmationView {
            probe_id: self.probe_id@,
            slot_landed: self.slot_landed,
            success: self.success,
        }
    }
}

/// Where a cycle stands.
#[derive(Clone, Copy, Debug, PartialEq, Eq, Structural)]
pub enum CyclePhase {
    /// No probe yet: the caller is waiting for fresh state.
    AwaitFreshState,
    /// The probe is built and signed.
    Built,
    /// The probe was sent once.
    Sent,
    /// Waiting for the confirmation, the next resend or the deadline.
    ResendWait,
    /// The probe is being sent again.
    Resending,
    /// The confirmation arrived.
    Confirmed,
    /// The cycle ended without a confirmation.
    TimedOut,
    /// The result was handed on.
    Reported,
    /// The cycle is over and its probe forgotten.
    Done,
}

/// What happened.
#[derive(Clone, Debug, PartialEq, Eq)]
pub enum CycleEvent {
    /// Fresh state was read and the probe built and signed from it.
    Built { id: String, slot_sent: u64, fee: u64 },
    /// The caller has done what the last step asked for.
    Completed,
    /// A timer that the caller set after `Wait` has fired.
    Tick,
    /// A confirmation was taken from the shared channel.
    Confirmation(ConfirmationEvent),
    /// The shared channel was closed.
    ChannelClosed,
}

/// [`CycleEvent`] as contracts see it, with every text as its characters.
pub enum CycleEventView {
    Built { id: Seq<char>, slot_sent: u64, fee: u64 },
    Completed,
    Tick,
    Confirmation(ConfirmationView),
    ChannelClosed,
}

impl View for CycleEvent {
    type V = CycleEventView;

    open spec fn view(&self) -> CycleEventView {
        match *self {
            CycleEvent::Built { id, slot_sent, fee } => CycleEventView::Built {
                id: id@,
                slot_sent,
                fee,
            },
            CycleEvent::Completed => CycleEventView::Completed,
            CycleEvent::Tick => CycleEventView::Tick,
            CycleEvent::Confirmation(c) => CycleEventView::Confirmation(c@),
            CycleEvent::ChannelClosed => CycleEventView::ChannelClosed,
        }
    }
}

/// What is handed to the reporting sinks for a probe that landed.
#[derive(Clone, Debug, PartialEq, Eq)]
pub struct Report {
    /// From the first send to the confirmation, in milliseconds.
    pub time_latency_ms: u64,
    /// From the slot of the send to the slot of the landing.
    pub slot_latency: u64,
    pub slot_sent: u64,
    pub slot_landed: u64,
    /// The priority fee that the probe offered.
    pub fee: u64,
    pub probe_id: String,
}

/// [`Report`] as contracts see it, with every text as its characters.
pub struct ReportView {
    pub time_latency_ms: u64,
    pub slot_latency: u64,
    pub slot_sent: u64,
    pub slot_landed: u64,
    pub fee: u64,
    pub probe_id: Seq<char>,
}

impl View for Report {
    type V = ReportView;

    open spec fn view(&self) -> ReportView {
        ReportView {
            time_latency_ms: self.time_latency_ms,
            slot_latency: self.slot_latency,
            slot_sent: self.slot_sent,
            slot_landed: self.slot_landed,
            fee: self.fee,
            probe_id: self.probe_id@,
        }
    }
}

/// Why a cycle ended with nothing to report.
#[derive(Clone, Copy, Debug, PartialEq, Eq, Structural)]
pub enum Unreported {
    /// The probe landed in a slot before the one it was sent in.
    OrderingAnomaly { slot_sent: u64, slot_landed: u64 },
    /// The probe landed and failed.
    Failed,
    /// No confirmation came before the deadline.
    TimedOut,
    /// The channel of confirmations was closed.
    ChannelClosed,
}

/// What the caller does next.
#[derive(Clone, Debug, PartialEq, Eq)]
pub enum CycleAction {
    /// Nothing: the event has no meaning where the cycle stands.
    Idle,
    /// Send the probe for the first time.
    Dispatch,
    /// Record the pending probe and register interest in its confirmation.
    Track,
    /// Wait for a confirmation, for `ms` milliseconds at most, then tick.
    Wait { ms: u64 },
    /// Send the same signed probe again.
    Resend,
    /// Hand the report to the sinks.
    Report(Report),
    /// Write a log record and hand nothing to the sinks.
    LogOnly(Unreported),
    /// The result was handed on: the pending probe may go.
    Forget,
}

/// [`CycleAction`] as contracts see it, with every text as its characters.
pub enum CycleActionView {
    Idle,
    Dispatch,
    Track,
    Wait { ms: u64 },
    Resend,
    Report(ReportView),
    LogOnly(Unreported),
    Forget,
}

impl View for CycleAction {
    type V = CycleActionView;

    open spec fn view(&self) -> CycleActionView {
        match *self {
            CycleAction::Idle => CycleActionView::Idle,
            CycleAction::Dispatch => CycleActionView::Dispatch,
            CycleAction::Track => CycleActionView::Track,
            CycleAction::Wait { ms } => CycleActionView::Wait { ms },
            CycleAction::Resend => CycleActionView::Resend,
            CycleAction::Report(r) => CycleActionView::Report(r@),
            CycleAction::LogOnly(u) => CycleActionView::LogOnly(u),
            CycleAction::Forget => CycleActionView::Forget,
        }
    }
}

/// The state of one cycle.
#[derive(Clone, Debug, PartialEq, Eq)]
pub struct Cycle {
    /// The deadline and the resend interval of this cycle.
    pub timing: CycleTiming,
    pub phase: CyclePhase,
    /// The probe of this cycle; meaningless before the phase `Built`.
    pub probe: PendingProbe,
    /// The priority fee that the probe offers.
    pub fee: u64,
    /// When the wait for the confirmation began.
    pub started_at: i64,
    /// When the probe was last sent, first send or resend.
    pub last_dispatch_at: i64,
    /// How often the probe was sent again.
    pub resends: u64,
    /// The slot in which the probe landed; meaningful in `Confirmed`.
    pub slot_landed: u64,
    /// Whether the probe ran without error; meaningful in `Confirmed`.
    pub success: bool,
    /// When the wait ended.
    pub finished_at: i64,
}

/// [`Cycle`] as contracts see it, with every text as its characters.
pub struct CycleView {
    pub timing: CycleTiming,
    pub phase: CyclePhase,
    pub probe: PendingProbeView,
    pub fee: u64,
    pub started_at: i64,
    pub last_dispatch_at: i64,
    pub resends: u64,
    pub slot_landed: u64,
    pub success: bool,
    pub finished_at: i64,
}

impl View for Cycle {
    type V = CycleView;

    open spec fn view(&self) -> CycleView {
        CycleView {
            timing: self.timing,
            phase: self.phase,
            probe: self.probe@,
            fee: self.fee,
            started_at: self.started_at,
            last_dispatch_at: self.last_dispatch_at,
            resends: self.resends,
            slot_landed: self.slot_landed,
            success: self.success,
            finished_at: self.finished_at,
        }
    }
}

/// The milliseconds from `from` to `to`; 0 where `to` lies before `from`.
pub open spec fn elapsed_ms(from: i64, to: i64) -> u64 {
    if to - from < 0 {
        0
    } else {
        (to - from) as u64
    }
}

/// Whether a cycle that began to wait at `started_at` has reached its
/// deadline at `now`.
pub open spec fn deadline_reached(timing: CycleTiming, started_at: i64, now: i64) -> bool {
    now - started_at >= timing.deadline_ms
}

/// Whether a probe last sent at `last_dispatch_at` is due to be sent again
/// at `now`.
pub open spec fn resend_due(timing: CycleTiming, last_dispatch_at: i64, now: i64) -> bool {
    now - last_dispatch_at >= timing.resend_every_ms
}

/// How long the caller may wait at `now` before the next tick: until the
/// deadline or the next resend, whichever comes first, and never longer than
/// one resend interval.
pub open spec fn wait_ms(
    timing: CycleTiming,
    started_at: i64,
    last_dispatch_at: i64,
    now: i64,
) -> u64 {
    let to_deadline = timing.deadline_ms - (now - started_at);
    let to_resend = timing.resend_every_ms - (now - last_dispatch_at);
    let least = if to_deadline < to_resend {
        to_deadline
    } else {
        to_resend
    };
    if least < 0 {
        0
    } else if least > timing.resend_every_ms {
        timing.resend_every_ms
    } else {
        least as u64
    }
}

/// Whether the cycle is waiting for its confirmation.
pub open spec fn waiting(phase: CyclePhase) -> bool {
    phase == CyclePhase::ResendWait || phase == CyclePhase::Resending
}

/// `n` and one more, short of overflow.
pub open spec fn counted(n: u64) -> u64 {
    if n < u64::MAX {
        (n + 1) as u64
    } else {
        n
    }
}

/// What is done with a probe that was confirmed at `now`: a report if it
/// succeeded and did not land before the slot it was sent in, else the reason
/// why nothing is reported.
pub open spec fn verdict(s: CycleView, c: ConfirmationView, now: i64) -> CycleActionView {
    if !c.success {
        CycleActionView::LogOnly(Unreported::Failed)
    } else if c.slot_landed < s.probe.slot_sent {
        CycleActionView::LogOnly(
            Unreported::OrderingAnomaly { slot_sent: s.probe.slot_sent, slot_landed: c.slot_landed },
        )
    } else {
        CycleActionView::Report(
            ReportView {
                time_latency_ms: elapsed_ms(s.probe.send_time, now),
                slot_latency: (c.slot_landed - s.probe.slot_sent) as u64,
                slot_sent: s.probe.slot_sent,
                slot_landed: c.slot_landed,
                fee: s.fee,
                probe_id: s.probe.id,
            },
        )
    }
}

/// The transition of the machine: the state after `e` happened at `now`, and
/// what the caller does next.
pub open spec fn step_spec(s: CycleView, e: CycleEventView, now: i64) -> (CycleView, CycleActionView) {
    match e {
        CycleEventView::Built { id, slot_sent, fee } => {
            if s.phase == CyclePhase::AwaitFreshState {
                (
                    CycleView {
                        phase: CyclePhase::Built,
                        probe: PendingProbeView { id, slot_sent, send_time: now },
                        fee,
                        ..s
                    },
                    CycleActionView::Dispatch,
                )
            } else {
                (s, CycleActionView::Idle)
            }
        },
        CycleEventView::Completed => {
            match s.phase {
                CyclePhase::Built => (
                    CycleView { phase: CyclePhase::Sent, ..s },
                    CycleActionView::Track,
                ),
                CyclePhase::Sent => (
                    CycleView {
                        phase: CyclePhase::ResendWait,
                        started_at: now,
                        last_dispatch_at: now,
                        ..s
                    },
                    CycleActionView::Wait { ms: wait_ms(s.timing, now, now, now) },
                ),
                CyclePhase::Resending => (
                    CycleView { phase: CyclePhase::ResendWait, ..s },
                    CycleActionView::Wait { ms: wait_ms(s.timing, s.started_at, s.last_dispatch_at, now) },
                ),
                CyclePhase::Confirmed | CyclePhase::TimedOut => (
                    CycleView { phase: CyclePhase::Reported, ..s },
                    CycleActionView::Forget,
                ),
                CyclePhase::Reported => (
                    CycleView { phase: CyclePhase::Done, ..s },
                    CycleActionView::Idle,
                ),
                _ => (s, CycleActionView::Idle),
            }
        },
        CycleEventView::Tick => {
            if !waiting(s.phase) {
                (s, CycleActionView::Idle)
            } else if deadline_reached(s.timing, s.started_at, now) {
                (
                    CycleView { phase: CyclePhase::TimedOut, finished_at: now, ..s },
                    CycleActionView::LogOnly(Unreported::TimedOut),
                )
            } else if resend_due(s.timing, s.last_dispatch_at, now) {
                (
                    CycleView {
                        phase: CyclePhase::Resending,
                        last_dispatch_at: now,
                        resends: counted(s.resends),
                        ..s
                    },
                    CycleActionView::Resend,
                )
            } else {
                (
                    CycleView { phase: CyclePhase::ResendWait, ..s },
                    CycleActionView::Wait { ms: wait_ms(s.timing, s.started_at, s.last_dispatch_at, now) },
                )
            }
        },
        CycleEventView::Confirmation(c) => {
            if !waiting(s.phase) {
                (s, CycleActionView::Idle)
            } else if c.probe_id == s.probe.id {
                (
                    CycleView {
                        phase: CyclePhase::Confirmed,
                        slot_landed: c.slot_landed,
                        success: c.success,
                        finished_at: now,
                        ..s
                    },
                    verdict(s, c, now),
                )
            } else {
                (s, CycleActionView::Wait { ms: wait_ms(s.timing, s.started_at, s.last_dispatch_at, now) })
            }
        },
        CycleEventView::ChannelClosed => {
            if !waiting(s.phase) {
                (s, CycleActionView::Idle)
            } else {
                (
                    CycleView { phase: CyclePhase::TimedOut, finished_at: now, ..s },
                    CycleActionView::LogOnly(Unreported::ChannelClosed),
                )
            }
        },
    }
}

/// Computes [`elapsed_ms`].
pub fn elapsed(from: i64, to: i64) -> (ms: u64)
    ensures
        ms == elapsed_ms(from, to),
{
    let d: i128 = to as i128 - from as i128;
    if d < 0 {
        0
    } else {
        d as u64
    }
}

/// Computes [`wait_ms`].
pub fn wait_for(timing: CycleTiming, started_at: i64, last_dispatch_at: i64, now: i64) -> (ms: u64)
    ensures
        ms == wait_ms(timing, started_at, last_dispatch_at, now),
{
    let to_deadline: i128 = timing.deadline_ms as i128 - (now as i128 - started_at as i128);
    let to_resend: i128 = timing.resend_every_ms as i128 - (now as i128
        - last_dispatch_at as i128);
    let least: i128 = if to_deadline < to_resend {
        to_deadline
    } else {
        to_resend
    };
    if least < 0 {
        0
    } else if least > timing.resend_every_ms as i128 {
        timing.resend_every_ms
    } else {
        least as u64
    }
}

impl Cycle {
    /// A cycle that has not yet read fresh state.
    pub fn new(timing: CycleTiming) -> (cycle: Self)
        ensures
            cycle.timing == timing,
            cycle.phase == CyclePhase::AwaitFreshState,
            cycle.probe.id@.len() == 0,
            cycle.probe.slot_sent == 0,
            cycle.probe.send_time == 0,
            cycle.fee == 0,
            cycle.started_at == 0,
            cycle.last_dispatch_at == 0,
            cycle.resends == 0,
            cycle.slot_landed == 0,
            !cycle.success,
            cycle.finished_at == 0,
    {
        Cycle {
            timing,
            phase: CyclePhase::AwaitFreshState,
            probe: PendingProbe { id: String::new(), slot_sent: 0, send_time: 0 },
            fee: 0,
            started_at: 0,
            last_dispatch_at: 0,
            resends: 0,
            slot_landed: 0,
            success: false,
            finished_at: 0,
        }
    }

    /// Whether the cycle is waiting for its confirmation.
    pub fn is_waiting(&self) -> (w: bool)
        ensures
            w == waiting(self.phase),
    {
        match self.phase {
            CyclePhase::ResendWait | CyclePhase::Resending => true,
            _ => false,
        }
    }

    /// Whether the cycle is over.
    pub fn is_done(&self) -> (d: bool)
        ensures
            d == (self.phase == CyclePhase::Done),
    {
        match self.phase {
            CyclePhase::Done => true,
            _ => false,
        }
    }

    /// Decides what is done with the confirmation `c` of this cycle's probe.
    fn settle(&self, c: &ConfirmationEvent, now: i64) -> (action: CycleAction)
        ensures
            action@ == verdict(self@, c@, now),
    {
        if !c.success {
            CycleAction::LogOnly(Unreported::Failed)
        } else if c.slot_landed < self.probe.slot_sent {
            CycleAction::LogOnly(
                Unreported::OrderingAnomaly {
                    slot_sent: self.probe.slot_sent,
                    slot_landed: c.slot_landed,
                },
            )
        } else {
            CycleAction::Report(
                Report {
                    time_latency_ms: elapsed(self.probe.send_time, now),
                    slot_latency: c.slot_landed - self.probe.slot_sent,
                    slot_sent: self.probe.slot_sent,
                    slot_landed: c.slot_landed,
                    fee: self.fee,
                    probe_id: self.probe.id.clone(),
                },
            )
        }
    }

    /// Takes the machine one step: `event` happened at `now`.
    ///
    /// The new state and the action are those of [`step_spec`]. In short:
    /// a built probe is sent, tracked and waited for; while the cycle waits,
    /// a confirmation for its own probe ends the wait, any other confirmation
    /// is dropped, a tick past the deadline ends the wait, and a tick past
    /// the resend interval sends the probe again; the result is then
    /// reported or logged, and the probe forgotten.
    pub fn step(&mut self, event: CycleEvent, now: i64) -> (action: CycleAction)
        ensures
            (final(self)@, action@) == step_spec(old(self)@, event@, now),
    {
        match event {
            CycleEvent::Built { id, slot_sent, fee } => {
                match self.phase {
                    CyclePhase::AwaitFreshState => {
                        self.phase = CyclePhase::Built;
                        self.probe = PendingProbe { id, slot_sent, send_time: now };
                        self.fee = fee;
                        CycleAction::Dispatch
                    },
                    _ => CycleAction::Idle,
                }
            },
            CycleEvent::Completed => {
                match self.phase {
                    CyclePhase::Built => {
                        self.phase = CyclePhase::Sent;
                        CycleAction::Track
                    },
                    CyclePhase::Sent => {
                        self.phase = CyclePhase::ResendWait;
                        self.started_at = now;
                        self.last_dispatch_at = now;
                        CycleAction::Wait { ms: wait_for(self.timing, now, now, now) }
                    },
                    CyclePhase::Resending => {
                        self.phase = CyclePhase::ResendWait;
                        CycleAction::Wait {
                            ms: wait_for(self.timing, self.started_at, self.last_dispatch_at, now),
                        }
                    },
                    CyclePhase::Confirmed | CyclePhase::TimedOut => {
                        self.phase = CyclePhase::Reported;
                        CycleAction::Forget
                    },
                    CyclePhase::Reported => {
                        self.phase = CyclePhase::Done;
                        CycleAction::Idle
                    },
                    _ => CycleAction::Idle,
                }
            },
            CycleEvent::Tick => {
                if !self.is_waiting() {
                    CycleAction::Idle
                } else if now as i128 - self.started_at as i128 >= self.timing.deadline_ms as i128 {
                    self.phase = CyclePhase::TimedOut;
                    self.finished_at = now;
                    CycleAction::LogOnly(Unreported::TimedOut)
                } else if now as i128 - self.last_dispatch_at as i128
                    >= self.timing.resend_every_ms as i128 {
                    self.phase = CyclePhase::Resending;
                    self.last_dispatch_at = now;
                    if self.resends < u64::MAX {
                        self.resends = self.resends + 1;
                    }
                    CycleAction::Resend
                } else {
                    self.phase = CyclePhase::ResendWait;
                    CycleAction::Wait { ms: wait_for(self.timing, self.started_at, self.last_dispatch_at, now) }
                }
            },
            CycleEvent::Confirmation(c) => {
                if !self.is_waiting() {
                    CycleAction::Idle
                } else if c.probe_id == self.probe.id {
                    let action = self.settle(&c, now);
                    self.phase = CyclePhase::Confirmed;
                    self.slot_landed = c.slot_landed;
                    self.success = c.success;
                    self.finished_at = now;
                    action
                } else {
                    CycleAction::Wait { ms: wait_for(self.timing, self.started_at, self.last_dispatch_at, now) }
                }
            },
            CycleEvent::ChannelClosed => {
                if !self.is_waiting() {
                    CycleAction::Idle
                } else {
                    self.phase = CyclePhase::TimedOut;
                    self.finished_at = now;
                    CycleAction::LogOnly(Unreported::ChannelClosed)
                }
            },
        }
    }
}

} // verus!
