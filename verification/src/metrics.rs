//! The bucket bounds of the two latency histograms.
//!
//! The bounds are whole numbers; the metrics sink takes them as they are.

use vstd::prelude::*;

verus! {

/// The number of bounds of the histogram of confirmation latency.
pub const LATENCY_BUCKETS: usize = 71;

/// The number of bounds of the histogram of slot latency.
pub const SLOT_BUCKETS: usize = 30;

/// The bound at place `i` of the histogram of confirmation latency, in
/// milliseconds: steps of 50 up to 1000, steps of 100 up to 2000, steps of
/// 200 up to 10000.
pub open spec fn latency_bound(i: int) -> int {
    if i <= 20 {
        50 * i
    } else if i <= 30 {
        1000 + 100 * (i - 20)
    } else {
        2000 + 200 * (i - 30)
    }
}

/// The bound at place `i` of the histogram of slot latency: the slots from
/// 1 to 30.
pub open spec fn slot_bound(i: int) -> int {
    i + 1
}

/// The bounds of the histogram of confirmation latency, in rising order.
pub fn confirmation_latency_buckets() -> (bounds: Vec<u64>)
    ensures
        bounds@.len() == LATENCY_BUCKETS,
        forall|i: int| 0 <= i < bounds@.len() ==> #[trigger] bounds@[i] == latency_bound(i),
        forall|i: int, j: int| 0 <= i < j < bounds@.len() ==> bounds@[i] < bounds@[j],
{
    let mut bounds: Vec<u64> = Vec::new();
    let mut bound: u64 = 0;
    while bound <= 1000
        invariant
            bound % 50 == 0,
            bound <= 1050,
            bounds@.len() == bound / 50,
            forall|i: int| 0 <= i < bounds@.len() ==> bounds@[i] == latency_bound(i),
        decreases 1050 - bound,
    {
        bounds.push(bound);
        bound += 50;
    }
    bound = 1100;
    while bound <= 2000
        invariant
            bound % 100 == 0,
            1100 <= bound <= 2100,
            bounds@.len() == 21 + (bound - 1100) / 100,
            forall|i: int| 0 <= i < bounds@.len() ==> bounds@[i] == latency_bound(i),
        decreases 2100 - bound,
    {
        bounds.push(bound);
        bound += 100;
    }
    bound = 2200;
    while bound <= 10000
        invariant
            bound % 200 == 0,
            2200 <= bound <= 10200,
            bounds@.len() == 31 + (bound - 2200) / 200,
            forall|i: int| 0 <= i < bounds@.len() ==> bounds@[i] == latency_bound(i),
        decreases 10200 - bound,
    {
        bounds.push(bound);
        bound += 200;
    }
    assert forall|i: int, j: int| 0 <= i < j < bounds@.len() implies bounds@[i] < bounds@[j] by {
        assert(bounds@[i] == latency_bound(i));
        assert(bounds@[j] == latency_bound(j));
    }
    bounds
}

/// The bounds of the histogram of slot latency, in rising order.
pub fn slot_latency_buckets() -> (bounds: Vec<u64>)
    ensures
        bounds@.len() == SLOT_BUCKETS,
        forall|i: int| 0 <= i < bounds@.len() ==> #[trigger] bounds@[i] == slot_bound(i),
{
    let mut bounds: Vec<u64> = Vec::new();
    let mut slot: u64 = 1;
    while slot <= 30
        invariant
            1 <= slot <= 31,
            bounds@.len() == slot - 1,
            forall|i: int| 0 <= i < bounds@.len() ==> bounds@[i] == slot_bound(i),
        decreases 31 - slot,
    {
        bounds.push(slot);
        slot += 1;
    }
    bounds
}

} // verus!
