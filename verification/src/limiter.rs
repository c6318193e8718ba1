//! The rate limiter: a window of fixed length and a count of the probes
//! launched in it.
//!
//! The caller polls the limiter before each cycle and tells it of every send.
//! Only the first send of a probe is counted.

use vstd::prelude::*;

verus! {

/// The length of the window, in milliseconds.
pub const WINDOW_MS: i64 = 60_000;

/// A send is either the first of its probe or a repetition.
#[derive(Clone, Copy, Debug, PartialEq, Eq, Structural)]
pub enum SendKind {
    Initial,
    Resend,
}

/// What the limiter says to a poll.
#[derive(Clone, Copy, Debug, PartialEq, Eq, Structural)]
pub enum Admission {
    /// A probe may be launched.
    Proceed,
    /// The window is used up: sleep for `ms` milliseconds, then poll again.
    SleepFor { ms: u64 },
}

/// The limiter's state.
#[derive(Clone, Copy, Debug, PartialEq, Eq, Structural)]
pub struct RateLimiter {
    /// The number of probes that may be launched in one window.
    pub cap: u64,
    /// When the current window began.
    pub window_start: i64,
    /// The probes launched since the window began.
    pub count: u64,
}

/// Whether the window that began at `window_start` is over at `now`.
pub open spec fn window_over(window_start: i64, now: i64) -> bool {
    now - window_start >= WINDOW_MS
}

/// What is left of the window at `now`, in milliseconds, and at most one
/// whole window.
pub open spec fn window_rest(window_start: i64, now: i64) -> u64 {
    let rest = WINDOW_MS - (now - window_start);
    if rest < 0 {
        0
    } else if rest > WINDOW_MS {
        WINDOW_MS as u64
    } else {
        rest as u64
    }
}

/// The limiter after a poll at `now`: a window that is over is replaced by a
/// new and empty one that begins at `now`.
pub open spec fn polled(l: RateLimiter, now: i64) -> RateLimiter {
    if window_over(l.window_start, now) {
        RateLimiter { cap: l.cap, window_start: now, count: 0 }
    } else {
        l
    }
}

/// The answer to a poll at `now`.
pub open spec fn admission(l: RateLimiter, now: i64) -> Admission {
    let after = polled(l, now);
    if after.count >= after.cap {
        Admission::SleepFor { ms: window_rest(after.window_start, now) }
    } else {
        Admission::Proceed
    }
}

/// The limiter after a send: a first send is counted, a resend is not.
pub open spec fn recorded(l: RateLimiter, kind: SendKind) -> RateLimiter {
    match kind {
        SendKind::Initial => RateLimiter {
            cap: l.cap,
            window_start: l.window_start,
            count: if l.count < u64::MAX {
                (l.count + 1) as u64
            } else {
                l.count
            },
        },
        SendKind::Resend => l,
    }
}

impl RateLimiter {
    /// A limiter whose first window begins at `now`.
    pub fn new(cap: u64, now: i64) -> (limiter: Self)
        ensures
            limiter == (RateLimiter { cap, window_start: now, count: 0 }),
    {
        RateLimiter { cap, window_start: now, count: 0 }
    }

    /// Asks whether a probe may be launched at `now`. A window that is over
    /// is replaced first. If the count has reached the cap, the answer is to
    /// sleep for the rest of the window.
    pub fn poll(&mut self, now: i64) -> (answer: Admission)
        ensures
            *final(self) == polled(*old(self), now),
            answer == admission(*old(self), now),
            answer == Admission::Proceed ==> final(self).count < final(self).cap,
    {
        let spent: i128 = now as i128 - self.window_start as i128;
        if spent >= WINDOW_MS as i128 {
            self.window_start = now;
            self.count = 0;
        }
        if self.count >= self.cap {
            let rest: i128 = WINDOW_MS as i128 - (now as i128 - self.window_start as i128);
            let ms: u64 = if rest < 0 {
                0
            } else if rest > WINDOW_MS as i128 {
                WINDOW_MS as u64
            } else {
                rest as u64
            };
            Admission::SleepFor { ms }
        } else {
            Admission::Proceed
        }
    }

    /// Tells the limiter of a send. Only a first send changes it.
    pub fn record(&mut self, kind: SendKind)
        ensures
            *final(self) == recorded(*old(self), kind),
            kind == SendKind::Resend ==> *final(self) == *old(self),
    {
        match kind {
            SendKind::Initial => {
                if self.count < u64::MAX {
                    self.count = self.count + 1;
                }
            },
            SendKind::Resend => {},
        }
    }
}

} // verus!
