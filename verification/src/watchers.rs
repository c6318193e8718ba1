//! The watchers' decisions.
//!
//! A watcher is a loop around one source of events. The loop itself belongs
//! to the caller; what it does with each event is decided here: whether the
//! event updates the watcher's cell, whether the source is to be opened
//! again, and when the watcher gives up.

use crate::base58::{base58_bytes, decode_blockhash};
use crate::cells::{later_of, GlobalBlockhash, GlobalPriorityFees, GlobalSlotSent};
use vstd::prelude::*;

verus! {

/// How long the fee watcher rests between two polls, in milliseconds.
pub const FEE_POLL_EVERY_MS: u64 = 350;

/// The slot watcher opens its subscription again once its cell holds a value
/// this old, in milliseconds.
pub const SLOT_RESUBSCRIBE_AFTER_MS: i64 = 3000;

/// The network accepts a block hash for this many blocks after its own.
pub const BLOCKHASH_VALID_FOR_BLOCKS: u64 = 150;

/// The last block height at which the hash of the block at `block_height` is
/// valid; the largest height there is, where the sum would pass it.
pub open spec fn last_valid_height(block_height: u64) -> u64 {
    if block_height + BLOCKHASH_VALID_FOR_BLOCKS > u64::MAX {
        u64::MAX
    } else {
        (block_height + BLOCKHASH_VALID_FOR_BLOCKS) as u64
    }
}

/// How a watcher recovers from a lost connection.
#[derive(Clone, Copy, Debug, PartialEq, Eq)]
pub struct ReconnectPolicy {
    /// The number of failures in a row at which the watcher gives up.
    pub max_attempts: u32,
    /// The pause before the source is opened again, in milliseconds.
    pub delay_ms: u64,
}

/// What a watcher remembers between events.
#[derive(Clone, Copy, Debug, PartialEq, Eq)]
pub struct WatcherState {
    /// Connection failures since the last update.
    pub failures: u32,
}

/// What the caller's loop does next.
#[derive(Clone, Copy, Debug, PartialEq, Eq, Structural)]
pub enum WatcherAction {
    /// Take the next event from the source.
    Continue,
    /// Drop the subscription and subscribe again at once.
    Resubscribe,
    /// Pause, then open the source again.
    Reconnect { delay_ms: u64 },
    /// The watcher cannot recover: the process must end.
    Fatal,
}

/// The count of failures after one more.
pub open spec fn one_more(failures: u32) -> u32 {
    if failures < u32::MAX {
        (failures + 1) as u32
    } else {
        failures
    }
}

/// What follows a lost connection when `failures` were counted before it.
pub open spec fn after_disconnect(failures: u32, policy: ReconnectPolicy) -> WatcherAction {
    if one_more(failures) >= policy.max_attempts {
        WatcherAction::Fatal
    } else {
        WatcherAction::Reconnect { delay_ms: policy.delay_ms }
    }
}

impl WatcherState {
    /// A watcher that has seen no failure.
    pub fn new() -> (state: Self)
        ensures
            state.failures == 0,
    {
        WatcherState { failures: 0 }
    }

    /// Counts one lost connection. The watcher gives up when the count
    /// reaches the policy's ceiling, and otherwise reconnects after the
    /// policy's pause.
    pub fn on_disconnect(&mut self, policy: &ReconnectPolicy) -> (action: WatcherAction)
        ensures
            final(self).failures == one_more(old(self).failures),
            action == after_disconnect(old(self).failures, *policy),
    {
        self.failures = self.failures.saturating_add(1);
        if self.failures >= policy.max_attempts {
            WatcherAction::Fatal
        } else {
            WatcherAction::Reconnect { delay_ms: policy.delay_ms }
        }
    }
}

/// The count of failures after `n` lost connections in a row.
pub open spec fn after_failures(failures: u32, n: nat) -> u32
    decreases n,
{
    if n == 0 {
        failures
    } else {
        one_more(after_failures(failures, (n - 1) as nat))
    }
}

/// A watcher that has just had an update survives one lost connection fewer
/// than the ceiling says: of `n` lost connections in a row, each before the
/// ceiling is answered by a reconnect after the policy's pause, and the one
/// that reaches the ceiling is fatal.
pub proof fn law_failures_up_to_the_ceiling(policy: ReconnectPolicy, n: nat)
    requires
        n < u32::MAX,
    ensures
        after_failures(0, n) == n,
        after_disconnect(after_failures(0, n), policy) == if n + 1 >= policy.max_attempts {
            WatcherAction::Fatal
        } else {
            WatcherAction::Reconnect { delay_ms: policy.delay_ms }
        },
    decreases n,
{
    if n > 0 {
        law_failures_up_to_the_ceiling(policy, (n - 1) as nat);
    }
}

/// An event of the block-reference source.
#[derive(Clone, Debug, PartialEq, Eq)]
pub enum BlockEvent {
    /// A block was announced: its hash in Base58 and its height.
    Update { blockhash: String, block_height: u64 },
    /// A message that could not be decoded.
    Undecodable,
    /// The source closed or failed.
    Disconnected,
}

/// Handles one event of the block-reference source.
///
/// An update whose hash decodes to 32 bytes is written to the cell, together
/// with the [`last_valid_height`] of its block, and clears the count of
/// failures. An update with any other hash, and a message that could not be
/// decoded, change nothing. A lost connection is counted.
pub fn on_block_event(
    state: &mut WatcherState,
    cell: &mut GlobalBlockhash,
    policy: &ReconnectPolicy,
    event: &BlockEvent,
    now: i64,
) -> (action: WatcherAction)
    ensures
        final(cell).updated_at >= old(cell).updated_at,
        match *event {
            BlockEvent::Update { blockhash, block_height } => {
                &&& action == WatcherAction::Continue
                &&& match base58_bytes(blockhash@) {
                    Some(bytes) if bytes.len() == 32 => {
                        &&& final(cell).value matches Some(h) && h@ == bytes
                        &&& final(cell).last_valid_block_height == last_valid_height(
                            block_height,
                        )
                        &&& final(cell).updated_at == later_of(old(cell).updated_at, now)
                        &&& final(state).failures == 0
                    },
                    _ => *final(cell) == *old(cell) && *final(state) == *old(state),
                }
            },
            BlockEvent::Undecodable => {
                &&& action == WatcherAction::Continue
                &&& *final(cell) == *old(cell)
                &&& *final(state) == *old(state)
            },
            BlockEvent::Disconnected => {
                &&& action == after_disconnect(old(state).failures, *policy)
                &&& final(state).failures == one_more(old(state).failures)
                &&& *final(cell) == *old(cell)
            },
        },
{
    match event {
        BlockEvent::Update { blockhash, block_height } => {
            match decode_blockhash(blockhash.as_str()) {
                Some(hash) => {
                    cell.write(hash, block_height.saturating_add(BLOCKHASH_VALID_FOR_BLOCKS), now);
                    state.failures = 0;
                },
                None => {},
            }
            WatcherAction::Continue
        },
        BlockEvent::Undecodable => WatcherAction::Continue,
        BlockEvent::Disconnected => state.on_disconnect(policy),
    }
}

/// The stage of a slot that a slot-status event reports.
#[derive(Clone, Copy, Debug, PartialEq, Eq, Structural)]
pub enum SlotStatus {
    Processed,
    Confirmed,
    Finalized,
    FirstShredReceived,
    Completed,
    CreatedBank,
    Dead,
}

/// An event of the slot source.
#[derive(Clone, Copy, Debug, PartialEq, Eq)]
pub enum SlotEvent {
    /// A slot reached a stage.
    Update { slot: u64, status: SlotStatus },
    /// A message that could not be decoded.
    Undecodable,
    /// The source closed or failed.
    Disconnected,
}

/// Whether the slot cell has gone so long without an update that the
/// subscription is opened again.
pub open spec fn slot_feed_stalled(cell: GlobalSlotSent, now: i64) -> bool {
    cell.value is Some && cell.age(now) >= SLOT_RESUBSCRIBE_AFTER_MS
}

/// Handles one event of the slot source.
///
/// Only the first shred of a slot updates the cell, and clears the count of
/// failures. Every other message leaves the cell as it is; after it, a cell
/// whose value has become too old asks for a new subscription. A lost
/// connection is counted.
pub fn on_slot_event(
    state: &mut WatcherState,
    cell: &mut GlobalSlotSent,
    policy: &ReconnectPolicy,
    event: SlotEvent,
    now: i64,
) -> (action: WatcherAction)
    ensures
        final(cell).updated_at >= old(cell).updated_at,
        match event {
            SlotEvent::Update { slot, status: SlotStatus::FirstShredReceived } => {
                &&& action == WatcherAction::Continue
                &&& final(cell).value == Some(slot)
                &&& final(cell).updated_at == later_of(old(cell).updated_at, now)
                &&& final(state).failures == 0
            },
            SlotEvent::Update { .. } | SlotEvent::Undecodable => {
                &&& action == if slot_feed_stalled(*old(cell), now) {
                    WatcherAction::Resubscribe
                } else {
                    WatcherAction::Continue
                }
                &&& *final(cell) == *old(cell)
                &&& *final(state) == *old(state)
            },
            SlotEvent::Disconnected => {
                &&& action == after_disconnect(old(state).failures, *policy)
                &&& final(state).failures == one_more(old(state).failures)
                &&& *final(cell) == *old(cell)
            },
        },
{
    match event {
        SlotEvent::Update { slot, status: SlotStatus::FirstShredReceived } => {
            cell.write(slot, now);
            state.failures = 0;
            WatcherAction::Continue
        },
        SlotEvent::Update { .. } | SlotEvent::Undecodable => {
            let (value, age) = cell.read(now);
            if value.is_some() && age >= SLOT_RESUBSCRIBE_AFTER_MS as i128 {
                WatcherAction::Resubscribe
            } else {
                WatcherAction::Continue
            }
        },
        SlotEvent::Disconnected => state.on_disconnect(policy),
    }
}

/// One line of the fee source's answer: what was paid in one recent slot.
#[derive(Clone, Copy, Debug, PartialEq, Eq)]
pub struct PrioritizationFee {
    pub slot: u64,
    pub prioritization_fee: u64,
}

/// The fees of a sample, line by line.
pub open spec fn fees_of(sample: Seq<PrioritizationFee>) -> Seq<u64> {
    Seq::new(sample.len(), |i: int| sample[i].prioritization_fee)
}

/// `m` occurs in `fees` and no fee in `fees` is larger.
pub open spec fn is_max_of(m: u64, fees: Seq<u64>) -> bool {
    &&& exists|i: int| 0 <= i < fees.len() && fees[i] == m
    &&& forall|i: int| 0 <= i < fees.len() ==> fees[i] <= m
}

/// The largest fee of a sample; `None` for an empty sample.
pub fn max_fee(sample: &Vec<PrioritizationFee>) -> (max: Option<u64>)
    ensures
        max is None <==> sample@.len() == 0,
        max matches Some(m) ==> is_max_of(m, fees_of(sample@)),
{
    if sample.len() == 0 {
        return None;
    }
    let mut best: u64 = sample[0].prioritization_fee;
    let ghost mut at: int = 0;
    let mut i: usize = 1;
    while i < sample.len()
        invariant
            1 <= i <= sample@.len(),
            0 <= at < i,
            sample@[at].prioritization_fee == best,
            forall|k: int| 0 <= k < i ==> sample@[k].prioritization_fee <= best,
        decreases sample@.len() - i,
    {
        if sample[i].prioritization_fee > best {
            best = sample[i].prioritization_fee;
            proof {
                at = i as int;
            }
        }
        i += 1;
    }
    assert(fees_of(sample@)[at] == best);
    Some(best)
}

/// The outcome of one poll of the fee source.
#[derive(Clone, Debug, PartialEq, Eq)]
pub enum FeePoll {
    /// The answer of the source, one line for each recent slot.
    Samples(Vec<PrioritizationFee>),
    /// The request failed or its answer could not be read.
    Failed,
}

/// What one poll did to the fee cell.
#[derive(Clone, Copy, Debug, PartialEq, Eq, Structural)]
pub enum FeeChange {
    /// The cell holds a new estimate.
    Changed { previous: Option<u64>, current: u64 },
    /// The estimate is what it was; only the stamp was refreshed.
    Confirmed { current: u64 },
    /// The source had no sample: the cell is as it was.
    Empty,
    /// The poll failed: the cell is as it was.
    Failed,
}

/// Handles one poll of the fee source: the largest fee of a sample that is
/// not empty becomes the estimate.
pub fn on_fee_poll(cell: &mut GlobalPriorityFees, poll: &FeePoll, now: i64) -> (change: FeeChange)
    ensures
        final(cell).updated_at >= old(cell).updated_at,
        match *poll {
            FeePoll::Samples(sample) if sample@.len() > 0 => {
                &&& final(cell).value matches Some(m) && is_max_of(m, fees_of(sample@))
                &&& final(cell).updated_at == later_of(old(cell).updated_at, now)
                &&& final(cell).value == old(cell).value ==> change == (FeeChange::Confirmed {
                    current: final(cell).value->0,
                })
                &&& final(cell).value != old(cell).value ==> change == (FeeChange::Changed {
                    previous: old(cell).value,
                    current: final(cell).value->0,
                })
            },
            FeePoll::Samples(_) => change == FeeChange::Empty && *final(cell) == *old(cell),
            FeePoll::Failed => change == FeeChange::Failed && *final(cell) == *old(cell),
        },
{
    match poll {
        FeePoll::Samples(sample) => {
            match max_fee(sample) {
                Some(current) => {
                    let previous = cell.value;
                    cell.write(current, now);
                    match previous {
                        Some(p) if p == current => FeeChange::Confirmed { current },
                        _ => FeeChange::Changed { previous, current },
                    }
                },
                None => FeeChange::Empty,
            }
        },
        FeePoll::Failed => FeeChange::Failed,
    }
}

} // verus!
