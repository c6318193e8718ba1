//! The freshness gate: whether a probe may be built from the cells as they
//! stand.
//!
//! Two cells are required, the block reference and the slot, and each has a
//! bound of its own on its age. Beside them stands one fatal bound for both:
//! a cell beyond it means that its watcher is gone, and the process must not
//! go on. The two kinds of bound are independent, and the fatal bound is
//! looked at first.

use crate::cells::{age_of, GlobalBlockhash, GlobalPriorityFees, GlobalSlotSent};
use vstd::prelude::*;

verus! {

/// How long the caller rests before it polls again, in milliseconds.
pub const GATE_RETRY_MS: u64 = 1;

/// The usual bound on the age of the block reference, in milliseconds.
pub const DEFAULT_MAX_BLOCK_AGE_MS: i64 = 10_000;

/// The usual bound on the age of the slot, in milliseconds. It is tight,
/// because the slot in the cell is the baseline of the slot latency.
pub const DEFAULT_MAX_SLOT_AGE_MS: i64 = 50;

/// The usual age at which a cell counts as lost, in milliseconds.
pub const DEFAULT_FATAL_AGE_MS: i64 = 10_000;

/// The ages that a poll tolerates, in milliseconds.
#[derive(Clone, Copy, Debug, PartialEq, Eq)]
pub struct GateLimits {
    /// The block reference is fresh while it is younger than this.
    pub max_block_age: i64,
    /// The slot is fresh while it is younger than this.
    pub max_slot_age: i64,
    /// A cell older than this means that its watcher has failed.
    pub fatal_age: i64,
}

/// What a probe is built from.
#[derive(Clone, Copy, Debug, PartialEq, Eq)]
pub struct Snapshot {
    pub blockhash: [u8; 32],
    pub last_valid_block_height: u64,
    pub slot: u64,
}

/// The answer to a poll.
#[derive(Clone, Copy, Debug, PartialEq, Eq)]
pub enum GateOutcome {
    /// Both cells are fresh: build the probe from this snapshot.
    Ready(Snapshot),
    /// Both cells are young enough, but one was never written: skip this
    /// cycle.
    Skip,
    /// A cell is too old: ask again after [`GATE_RETRY_MS`].
    Wait,
    /// A cell is older than the fatal bound: the process must end.
    Fatal,
}

/// Whether one of the two cells is older than the fatal bound at `now`.
pub open spec fn lost(
    block: GlobalBlockhash,
    slot: GlobalSlotSent,
    limits: GateLimits,
    now: i64,
) -> bool {
    block.age(now) > limits.fatal_age || slot.age(now) > limits.fatal_age
}

/// Whether both cells are fresh at `now`, each by its own bound.
pub open spec fn all_fresh(
    block: GlobalBlockhash,
    slot: GlobalSlotSent,
    limits: GateLimits,
    now: i64,
) -> bool {
    block.is_fresh(now, limits.max_block_age) && slot.is_fresh(now, limits.max_slot_age)
}

/// Whether both cells are younger than their bounds at `now`, written or not.
pub open spec fn all_young(
    block: GlobalBlockhash,
    slot: GlobalSlotSent,
    limits: GateLimits,
    now: i64,
) -> bool {
    block.age(now) < limits.max_block_age && slot.age(now) < limits.max_slot_age
}

/// The answer to a poll at `now`. The fatal bound is looked at first, so that a cell
/// beyond it ends the process whatever its own bound allows.
pub open spec fn gate_spec(
    block: GlobalBlockhash,
    slot: GlobalSlotSent,
    limits: GateLimits,
    now: i64,
) -> GateOutcome {
    if lost(block, slot, limits, now) {
        GateOutcome::Fatal
    } else if all_fresh(block, slot, limits, now) {
        GateOutcome::Ready(
            Snapshot {
                blockhash: block.value->0,
                last_valid_block_height: block.last_valid_block_height,
                slot: slot.value->0,
            },
        )
    } else if all_young(block, slot, limits, now) {
        GateOutcome::Skip
    } else {
        GateOutcome::Wait
    }
}

/// Reads both cells at `now` and decides whether a probe may be built.
pub fn gate_poll(
    block: &GlobalBlockhash,
    slot: &GlobalSlotSent,
    limits: &GateLimits,
    now: i64,
) -> (outcome: GateOutcome)
    ensures
        outcome == gate_spec(*block, *slot, *limits, now),
{
    let block_age = age_of(block.updated_at, now);
    let slot_age = age_of(slot.updated_at, now);
    if block_age > limits.fatal_age as i128 || slot_age > limits.fatal_age as i128 {
        return GateOutcome::Fatal;
    }
    if block_age >= limits.max_block_age as i128 || slot_age >= limits.max_slot_age as i128 {
        return GateOutcome::Wait;
    }
    match (block.value, slot.value) {
        (Some(blockhash), Some(slot_sent)) => GateOutcome::Ready(
            Snapshot {
                blockhash,
                last_valid_block_height: block.last_valid_block_height,
                slot: slot_sent,
            },
        ),
        _ => GateOutcome::Skip,
    }
}

/// The priority fee that a probe offers: the estimate in the cell where fees
/// are in use and an estimate exists, else 0. The age of the estimate does
/// not count.
pub open spec fn probe_fee(use_priority_fee: bool, fees: GlobalPriorityFees) -> u64 {
    if use_priority_fee && fees.value is Some {
        fees.value->0
    } else {
        0
    }
}

/// Computes [`probe_fee`].
pub fn fee_for_probe(use_priority_fee: bool, fees: &GlobalPriorityFees) -> (fee: u64)
    ensures
        fee == probe_fee(use_priority_fee, *fees),
{
    if use_priority_fee {
        match fees.value {
            Some(fee) => fee,
            None => 0,
        }
    } else {
        0
    }
}

/// A poll hands out a snapshot exactly when every cell is fresh by its own
/// bound at the instant of the poll, and the snapshot then holds what the
/// cells hold. This is stated of the polls in which no cell is beyond the
/// fatal bound, which ends the process first.
pub proof fn law_ready_iff_all_fresh(
    block: GlobalBlockhash,
    slot: GlobalSlotSent,
    limits: GateLimits,
    now: i64,
)
    requires
        !lost(block, slot, limits, now),
    ensures
        gate_spec(block, slot, limits, now) is Ready <==> all_fresh(block, slot, limits, now),
        gate_spec(block, slot, limits, now) matches GateOutcome::Ready(snapshot) ==> {
            &&& block.value == Some(snapshot.blockhash)
            &&& slot.value == Some(snapshot.slot)
            &&& snapshot.last_valid_block_height == block.last_valid_block_height
        },
{
}

/// No snapshot ever holds a value that is as old as its bound or older, or
/// that is beyond the fatal bound.
pub proof fn law_snapshot_is_fresh(
    block: GlobalBlockhash,
    slot: GlobalSlotSent,
    limits: GateLimits,
    now: i64,
)
    ensures
        gate_spec(block, slot, limits, now) is Ready ==> {
            &&& block.age(now) < limits.max_block_age
            &&& slot.age(now) < limits.max_slot_age
            &&& block.age(now) <= limits.fatal_age
            &&& slot.age(now) <= limits.fatal_age
        },
{
}

/// A cell beyond the fatal bound ends the process: the answer is `Fatal`
/// exactly then, and no snapshot is handed out at such a poll.
pub proof fn law_lost_cell_is_fatal(
    block: GlobalBlockhash,
    slot: GlobalSlotSent,
    limits: GateLimits,
    now: i64,
)
    ensures
        gate_spec(block, slot, limits, now) is Fatal <==> lost(block, slot, limits, now),
        lost(block, slot, limits, now) ==> !(gate_spec(block, slot, limits, now) is Ready),
{
}

} // verus!
