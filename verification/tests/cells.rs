use ping_thing_client::cells::{age_of, later, GlobalBlockhash, GlobalPriorityFees, GlobalSlotSent};

#[test]
fn new_cells_hold_nothing() {
    let slot = GlobalSlotSent::new();
    assert_eq!(slot.value, None);
    assert_eq!(slot.updated_at, 0);
    let fees = GlobalPriorityFees::new();
    assert_eq!(fees.value, None);
    assert_eq!(fees.updated_at, 0);
    let block = GlobalBlockhash::new();
    assert_eq!(block.value, None);
    assert_eq!(block.updated_at, 0);
    assert_eq!(block.last_valid_block_height, 0);
}

#[test]
fn age_is_the_difference_of_the_stamps() {
    assert_eq!(age_of(1_000, 1_400), 400);
    assert_eq!(age_of(1_400, 1_000), -400);
    assert_eq!(age_of(0, 0), 0);
}

#[test]
fn age_does_not_overflow_at_the_ends_of_the_clock() {
    assert_eq!(age_of(i64::MIN, i64::MAX), i64::MAX as i128 - i64::MIN as i128);
    assert_eq!(age_of(i64::MAX, i64::MIN), i64::MIN as i128 - i64::MAX as i128);
}

#[test]
fn later_picks_the_larger_stamp() {
    assert_eq!(later(3, 5), 5);
    assert_eq!(later(5, 3), 5);
    assert_eq!(later(-1, -1), -1);
}

#[test]
fn write_sets_value_and_stamp() {
    let mut slot = GlobalSlotSent::new();
    slot.write(77, 1_000);
    assert_eq!(slot.value, Some(77));
    assert_eq!(slot.updated_at, 1_000);
    assert_eq!(slot.read(1_250), (Some(77), 250));
}

#[test]
fn stamp_never_moves_back() {
    let mut slot = GlobalSlotSent::new();
    slot.write(1, 5_000);
    slot.write(2, 4_000);
    assert_eq!(slot.value, Some(2));
    assert_eq!(slot.updated_at, 5_000);

    let mut fees = GlobalPriorityFees::new();
    fees.write(10, 9);
    fees.write(11, 3);
    assert_eq!(fees.updated_at, 9);

    let mut block = GlobalBlockhash::new();
    block.write([1u8; 32], 500, 20);
    block.write([2u8; 32], 501, 10);
    assert_eq!(block.value, Some([2u8; 32]));
    assert_eq!(block.last_valid_block_height, 501);
    assert_eq!(block.updated_at, 20);
}

#[test]
fn a_cell_without_a_value_is_never_fresh() {
    let slot = GlobalSlotSent::new();
    assert!(!slot.fresh(0, 1_000));
    let fees = GlobalPriorityFees::new();
    assert!(!fees.fresh(0, 1_000));
    let block = GlobalBlockhash::new();
    assert!(!block.fresh(0, 1_000));
}

#[test]
fn freshness_ends_at_the_bound() {
    let mut slot = GlobalSlotSent::new();
    slot.write(5, 100);
    assert!(slot.fresh(100, 50));
    assert!(slot.fresh(149, 50));
    assert!(!slot.fresh(150, 50));
    assert!(!slot.fresh(151, 50));
}

#[test]
fn block_cell_reads_back_what_was_written() {
    let mut block = GlobalBlockhash::new();
    block.write([9u8; 32], 1234, 700);
    let (value, age) = block.read(1_000);
    assert_eq!(value, Some([9u8; 32]));
    assert_eq!(age, 300);
    assert!(block.fresh(1_000, 301));
    assert!(!block.fresh(1_000, 300));
}

#[test]
fn fee_cell_reads_back_what_was_written() {
    let mut fees = GlobalPriorityFees::new();
    fees.write(5_000, 40);
    assert_eq!(fees.read(45), (Some(5_000), 5));
    assert!(fees.fresh(45, 6));
    assert!(!fees.fresh(45, 5));
}
