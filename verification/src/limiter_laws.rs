//! What the rate limiter guarantees over a whole run.
//!
//! A run is a sequence of polls and sends, each with its time. The limiter
//! counts in windows that it restarts when a poll finds them over, so its
//! budget is a budget per window: a span of one window's length in which the
//! limiter did not restart holds at most `cap` launches, and any span of that
//! length holds at most twice as many.

use crate::limiter::{polled, recorded, window_over, RateLimiter, SendKind, WINDOW_MS};
use vstd::prelude::*;

verus! {

/// One call of the limiter, with the time at which it was made.
pub enum LimiterOp {
    Poll { at: i64 },
    Send { kind: SendKind, at: i64 },
}

impl LimiterOp {
    /// The time of the call.
    pub open spec fn at(self) -> i64 {
        match self {
            LimiterOp::Poll { at } => at,
            LimiterOp::Send { at, .. } => at,
        }
    }

    /// Whether the call is the first send of a probe.
    pub open spec fn is_launch(self) -> bool {
        self matches LimiterOp::Send { kind: SendKind::Initial, .. }
    }
}

/// The limiter after one call.
pub open spec fn applied(l: RateLimiter, op: LimiterOp) -> RateLimiter {
    match op {
        LimiterOp::Poll { at } => polled(l, at),
        LimiterOp::Send { kind, .. } => recorded(l, kind),
    }
}

/// The limiter after the calls `ops`, in their order.
pub open spec fn run(l: RateLimiter, ops: Seq<LimiterOp>) -> RateLimiter
    decreases ops.len(),
{
    if ops.len() == 0 {
        l
    } else {
        applied(run(l, ops.drop_last()), ops.last())
    }
}

/// The time of the last call, or the start of the first window before any
/// call.
pub open spec fn clock(l: RateLimiter, ops: Seq<LimiterOp>) -> i64 {
    if ops.len() == 0 {
        l.window_start
    } else {
        ops.last().at()
    }
}

/// A run is orderly when time does not go back and a probe is launched only
/// while the limiter has budget, which is what `poll` reports by `Proceed`.
pub open spec fn orderly(l: RateLimiter, ops: Seq<LimiterOp>) -> bool
    decreases ops.len(),
{
    ops.len() == 0 || {
        &&& orderly(l, ops.drop_last())
        &&& clock(l, ops.drop_last()) <= ops.last().at()
        &&& ops.last().is_launch() ==> run(l, ops.drop_last()).count < run(
            l,
            ops.drop_last(),
        ).cap
    }
}

/// The number of launches in `ops` at times from `from` up to, not
/// including, `to`.
pub open spec fn launches_within(ops: Seq<LimiterOp>, from: int, to: int) -> nat
    decreases ops.len(),
{
    if ops.len() == 0 {
        0
    } else {
        let earlier = launches_within(ops.drop_last(), from, to);
        if ops.last().is_launch() && from <= ops.last().at() < to {
            earlier + 1
        } else {
            earlier
        }
    }
}

/// Whether some poll of the run, at a time from `from` up to, not including,
/// `to`, found the window over and began a new one.
pub open spec fn restarts_within(l: RateLimiter, ops: Seq<LimiterOp>, from: int, to: int) -> bool
    decreases ops.len(),
{
    ops.len() > 0 && {
        ||| restarts_within(l, ops.drop_last(), from, to)
        ||| {
            &&& ops.last() is Poll
            &&& from <= ops.last().at() < to
            &&& window_over(run(l, ops.drop_last()).window_start, ops.last().at())
        }
    }
}

proof fn lemma_run(l: RateLimiter, ops: Seq<LimiterOp>, from: int)
    requires
        orderly(l, ops),
        l.count == 0,
    ensures
        run(l, ops).cap == l.cap,
        run(l, ops).count <= l.cap,
        run(l, ops).window_start <= clock(l, ops),
        launches_within(ops, from, from + WINDOW_MS) > 0 ==> clock(l, ops) >= from,
        ({
            let now = run(l, ops);
            let total = launches_within(ops, from, from + WINDOW_MS);
            ||| total <= now.count
            ||| now.window_start >= from && total <= l.cap + now.count
            ||| now.window_start >= from + WINDOW_MS && total <= 2 * l.cap
        }),
        !restarts_within(l, ops, from, from + WINDOW_MS) ==> ({
            let now = run(l, ops);
            let total = launches_within(ops, from, from + WINDOW_MS);
            ||| total <= now.count
            ||| clock(l, ops) >= from + WINDOW_MS && total <= l.cap
        }),
    decreases ops.len(),
{
    if ops.len() > 0 {
        lemma_run(l, ops.drop_last(), from);
    }
}

/// In an orderly run that starts with an empty window, a span of one
/// window's length in which the limiter did not begin a new window holds at
/// most `cap` launches.
pub proof fn law_budget_of_a_window(cap: u64, start: i64, ops: Seq<LimiterOp>, from: int)
    requires
        orderly(RateLimiter { cap, window_start: start, count: 0 }, ops),
        !restarts_within(
            RateLimiter { cap, window_start: start, count: 0 },
            ops,
            from,
            from + WINDOW_MS,
        ),
    ensures
        launches_within(ops, from, from + WINDOW_MS) <= cap,
{
    lemma_run(RateLimiter { cap, window_start: start, count: 0 }, ops, from);
}

/// In an orderly run that starts with an empty window, every span of one
/// window's length holds at most twice `cap` launches: it meets two windows
/// of the limiter at most.
pub proof fn law_budget_of_any_span(cap: u64, start: i64, ops: Seq<LimiterOp>, from: int)
    requires
        orderly(RateLimiter { cap, window_start: start, count: 0 }, ops),
    ensures
        launches_within(ops, from, from + WINDOW_MS) <= 2 * cap,
{
    lemma_run(RateLimiter { cap, window_start: start, count: 0 }, ops, from);
}

/// The limiter never counts more than `cap` launches in one of its windows.
pub proof fn law_count_stays_within_cap(cap: u64, start: i64, ops: Seq<LimiterOp>)
    requires
        orderly(RateLimiter { cap, window_start: start, count: 0 }, ops),
    ensures
        run(RateLimiter { cap, window_start: start, count: 0 }, ops).count <= cap,
        run(RateLimiter { cap, window_start: start, count: 0 }, ops).cap == cap,
{
    lemma_run(RateLimiter { cap, window_start: start, count: 0 }, ops, 0);
}

/// A resend costs nothing: it leaves the limiter as it was, it is no launch,
/// and a run stays orderly when one is added at any later time.
pub proof fn law_resend_is_free(
    l: RateLimiter,
    ops: Seq<LimiterOp>,
    at: i64,
    from: int,
    to: int,
)
    ensures
        recorded(l, SendKind::Resend) == l,
        run(l, ops.push(LimiterOp::Send { kind: SendKind::Resend, at })) == run(l, ops),
        launches_within(ops.push(LimiterOp::Send { kind: SendKind::Resend, at }), from, to)
            == launches_within(ops, from, to),
        orderly(l, ops) && clock(l, ops) <= at ==> orderly(
            l,
            ops.push(LimiterOp::Send { kind: SendKind::Resend, at }),
        ),
{
    let more = ops.push(LimiterOp::Send { kind: SendKind::Resend, at });
    assert(more.drop_last() =~= ops);
}

} // verus!
