//! The freshness store: three cells, each holding the last value that its
//! watcher saw and the time at which it saw it.
//!
//! Times are milliseconds on the clock of the caller. A cell that was never
//! written holds no value and the time 0, so a caller whose clock starts at 0
//! with the process sees such a cell as old as the process. No function here
//! assumes that the clock is the same for two cells or that it never goes
//! back: an age may be negative, and a stamp is only ever moved forward.
//!
//! Each cell belongs to one watcher, which alone writes it. Readers take a
//! copy and judge it by its age.

use vstd::prelude::*;

verus! {

/// The age at `now` of something stamped `updated_at`.
pub open spec fn age_at(updated_at: i64, now: i64) -> int {
    now - updated_at
}

/// The later of two time stamps.
pub open spec fn later_of(a: i64, b: i64) -> i64 {
    if a >= b {
        a
    } else {
        b
    }
}

/// Computes [`age_at`] without overflow.
pub fn age_of(updated_at: i64, now: i64) -> (age: i128)
    ensures
        age == age_at(updated_at, now),
{
    now as i128 - updated_at as i128
}

/// Computes [`later_of`].
pub fn later(a: i64, b: i64) -> (t: i64)
    ensures
        t == later_of(a, b),
{
    if a >= b {
        a
    } else {
        b
    }
}

/// The cell of the slot watcher: the slot in which a probe sent now would start.
#[derive(Clone, Copy, Debug, PartialEq, Eq)]
pub struct GlobalSlotSent {
    pub value: Option<u64>,
    pub updated_at: i64,
}

impl GlobalSlotSent {
    /// The age of the cell at `now`.
    pub open spec fn age(&self, now: i64) -> int {
        age_at(self.updated_at, now)
    }

    /// A cell is fresh when it holds a value younger than `max_age`.
    /// A cell without a value is never fresh.
    pub open spec fn is_fresh(&self, now: i64, max_age: i64) -> bool {
        self.value is Some && self.age(now) < max_age
    }

    /// A cell that was never written.
    pub fn new() -> (cell: Self)
        ensures
            cell.value is None,
            cell.updated_at == 0,
    {
        GlobalSlotSent { value: None, updated_at: 0 }
    }

    /// Stores `slot` and refreshes the stamp. The stamp never moves back: a
    /// write whose clock reading lies before the stored stamp keeps the stamp.
    pub fn write(&mut self, slot: u64, now: i64)
        ensures
            final(self).value == Some(slot),
            final(self).updated_at == later_of(old(self).updated_at, now),
            final(self).updated_at >= old(self).updated_at,
    {
        self.value = Some(slot);
        self.updated_at = later(self.updated_at, now);
    }

    /// The value and its age at `now`.
    pub fn read(&self, now: i64) -> (snapshot: (Option<u64>, i128))
        ensures
            snapshot.0 == self.value,
            snapshot.1 == self.age(now),
    {
        (self.value, age_of(self.updated_at, now))
    }

    /// Decides [`Self::is_fresh`].
    pub fn fresh(&self, now: i64, max_age: i64) -> (b: bool)
        ensures
            b == self.is_fresh(now, max_age),
    {
        self.value.is_some() && age_of(self.updated_at, now) < max_age as i128
    }
}

/// The cell of the fee watcher: the current estimate of the priority fee.
#[derive(Clone, Copy, Debug, PartialEq, Eq)]
pub struct GlobalPriorityFees {
    pub value: Option<u64>,
    pub updated_at: i64,
}

impl GlobalPriorityFees {
    /// The age of the cell at `now`.
    pub open spec fn age(&self, now: i64) -> int {
        age_at(self.updated_at, now)
    }

    /// A cell is fresh when it holds a value younger than `max_age`.
    /// A cell without a value is never fresh.
    pub open spec fn is_fresh(&self, now: i64, max_age: i64) -> bool {
        self.value is Some && self.age(now) < max_age
    }

    /// A cell that was never written.
    pub fn new() -> (cell: Self)
        ensures
            cell.value is None,
            cell.updated_at == 0,
    {
        GlobalPriorityFees { value: None, updated_at: 0 }
    }

    /// Stores `fee` and refreshes the stamp, which never moves back.
    pub fn write(&mut self, fee: u64, now: i64)
        ensures
            final(self).value == Some(fee),
            final(self).updated_at == later_of(old(self).updated_at, now),
            final(self).updated_at >= old(self).updated_at,
    {
        self.value = Some(fee);
        self.updated_at = later(self.updated_at, now);
    }

    /// The value and its age at `now`.
    pub fn read(&self, now: i64) -> (snapshot: (Option<u64>, i128))
        ensures
            snapshot.0 == self.value,
            snapshot.1 == self.age(now),
    {
        (self.value, age_of(self.updated_at, now))
    }

    /// Decides [`Self::is_fresh`].
    pub fn fresh(&self, now: i64, max_age: i64) -> (b: bool)
        ensures
            b == self.is_fresh(now, max_age),
    {
        self.value.is_some() && age_of(self.updated_at, now) < max_age as i128
    }
}

/// The cell of the block-reference watcher: the hash that anchors a
/// transaction, and the last block height at which that hash is still valid.
#[derive(Clone, Copy, Debug, PartialEq, Eq)]
pub struct GlobalBlockhash {
    pub value: Option<[u8; 32]>,
    pub updated_at: i64,
    pub last_valid_block_height: u64,
}

impl GlobalBlockhash {
    /// The age of the cell at `now`.
    pub open spec fn age(&self, now: i64) -> int {
        age_at(self.updated_at, now)
    }

    /// A cell is fresh when it holds a value younger than `max_age`.
    /// A cell without a value is never fresh.
    pub open spec fn is_fresh(&self, now: i64, max_age: i64) -> bool {
        self.value is Some && self.age(now) < max_age
    }

    /// A cell that was never written.
    pub fn new() -> (cell: Self)
        ensures
            cell.value is None,
            cell.updated_at == 0,
            cell.last_valid_block_height == 0,
    {
        GlobalBlockhash { value: None, updated_at: 0, last_valid_block_height: 0 }
    }

    /// Stores the block reference and refreshes the stamp, which never moves
    /// back.
    pub fn write(&mut self, blockhash: [u8; 32], last_valid_block_height: u64, now: i64)
        ensures
            final(self).value == Some(blockhash),
            final(self).last_valid_block_height == last_valid_block_height,
            final(self).updated_at == later_of(old(self).updated_at, now),
            final(self).updated_at >= old(self).updated_at,
    {
        self.value = Some(blockhash);
        self.last_valid_block_height = last_valid_block_height;
        self.updated_at = later(self.updated_at, now);
    }

    /// The value and its age at `now`.
    pub fn read(&self, now: i64) -> (snapshot: (Option<[u8; 32]>, i128))
        ensures
            snapshot.0 == self.value,
            snapshot.1 == self.age(now),
    {
        (self.value, age_of(self.updated_at, now))
    }

    /// Decides [`Self::is_fresh`].
    pub fn fresh(&self, now: i64, max_age: i64) -> (b: bool)
        ensures
            b == self.is_fresh(now, max_age),
    {
        self.value.is_some() && age_of(self.updated_at, now) < max_age as i128
    }
}

} // verus!
