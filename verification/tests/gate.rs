use ping_thing_client::cells::{GlobalBlockhash, GlobalPriorityFees, GlobalSlotSent};
use ping_thing_client::gate::{
    fee_for_probe, gate_poll, GateLimits, GateOutcome, Snapshot, DEFAULT_FATAL_AGE_MS,
    DEFAULT_MAX_BLOCK_AGE_MS, DEFAULT_MAX_SLOT_AGE_MS, GATE_RETRY_MS,
};

fn limits() -> GateLimits {
    GateLimits { max_block_age: 30_000, max_slot_age: 400, fatal_age: 10_000 }
}

fn cells(block_at: i64, slot_at: i64) -> (GlobalBlockhash, GlobalSlotSent) {
    let mut block = GlobalBlockhash::new();
    block.write([3u8; 32], 900, block_at);
    let mut slot = GlobalSlotSent::new();
    slot.write(42, slot_at);
    (block, slot)
}

#[test]
fn fresh_cells_give_a_snapshot() {
    let (block, slot) = cells(0, 0);
    assert_eq!(
        gate_poll(&block, &slot, &limits(), 0),
        GateOutcome::Ready(Snapshot { blockhash: [3u8; 32], last_valid_block_height: 900, slot: 42 })
    );
}

#[test]
fn a_stale_slot_makes_the_caller_wait() {
    let (block, slot) = cells(1_000, 1_000);
    assert_eq!(gate_poll(&block, &slot, &limits(), 1_399), GateOutcome::Ready(Snapshot {
        blockhash: [3u8; 32],
        last_valid_block_height: 900,
        slot: 42,
    }));
    assert_eq!(gate_poll(&block, &slot, &limits(), 1_400), GateOutcome::Wait);
    assert_eq!(gate_poll(&block, &slot, &limits(), 5_000), GateOutcome::Wait);
}

#[test]
fn a_stale_block_reference_makes_the_caller_wait() {
    let narrow = GateLimits { max_block_age: 100, max_slot_age: 400, fatal_age: 10_000 };
    let (block, slot) = cells(0, 150);
    assert_eq!(gate_poll(&block, &slot, &narrow, 200), GateOutcome::Wait);
    assert!(matches!(gate_poll(&block, &slot, &narrow, 199), GateOutcome::Wait));
    assert!(matches!(gate_poll(&block, &slot, &narrow, 99), GateOutcome::Ready(_)));
}

#[test]
fn a_cell_beyond_the_fatal_bound_is_fatal() {
    let (block, slot) = cells(0, 0);
    assert_eq!(gate_poll(&block, &slot, &limits(), 10_000), GateOutcome::Wait);
    assert_eq!(gate_poll(&block, &slot, &limits(), 10_001), GateOutcome::Fatal);
}

#[test]
fn the_fatal_bound_comes_before_a_generous_bound() {
    let (block, slot) = cells(0, 14_900);
    assert_eq!(gate_poll(&block, &slot, &limits(), 15_000), GateOutcome::Fatal);
}

#[test]
fn a_cell_never_written_skips_the_cycle() {
    let block = GlobalBlockhash::new();
    let slot = GlobalSlotSent::new();
    assert_eq!(gate_poll(&block, &slot, &limits(), 0), GateOutcome::Skip);
    let (written, _) = cells(0, 0);
    assert_eq!(gate_poll(&written, &slot, &limits(), 10), GateOutcome::Skip);
    assert_eq!(gate_poll(&written, &slot, &limits(), 400), GateOutcome::Wait);
    assert_eq!(gate_poll(&block, &slot, &limits(), 10_001), GateOutcome::Fatal);
}

#[test]
fn snapshot_exactly_when_all_cells_are_fresh() {
    let l = limits();
    let stamps = [0i64, 1, 399, 400, 401, 9_600, 10_000, 29_999];
    let now = 10_000;
    for &b in stamps.iter() {
        for &s in stamps.iter() {
            let (block, slot) = cells(b, s);
            let block_age = now - b;
            let slot_age = now - s;
            let outcome = gate_poll(&block, &slot, &l, now);
            let lost = block_age > l.fatal_age || slot_age > l.fatal_age;
            let fresh = block_age < l.max_block_age && slot_age < l.max_slot_age;
            if lost {
                assert_eq!(outcome, GateOutcome::Fatal);
            } else {
                assert_eq!(matches!(outcome, GateOutcome::Ready(_)), fresh);
            }
        }
    }
}

#[test]
fn usual_bounds() {
    assert_eq!(DEFAULT_MAX_BLOCK_AGE_MS, 10_000);
    assert_eq!(DEFAULT_MAX_SLOT_AGE_MS, 50);
    assert_eq!(DEFAULT_FATAL_AGE_MS, 10_000);
    assert_eq!(GATE_RETRY_MS, 1);
}

#[test]
fn fee_is_the_estimate_only_where_fees_are_in_use() {
    let mut fees = GlobalPriorityFees::new();
    assert_eq!(fee_for_probe(true, &fees), 0);
    assert_eq!(fee_for_probe(false, &fees), 0);
    fees.write(7_500, 10);
    assert_eq!(fee_for_probe(true, &fees), 7_500);
    assert_eq!(fee_for_probe(false, &fees), 0);
}
