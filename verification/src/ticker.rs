//! The tick schedule of the event source: how long it may wait for input,
//! and when a tick is due.
//!
//! Time is a count of nanoseconds on a clock that never runs backwards.

use vstd::prelude::*;

verus! {

/// The tick period in nanoseconds: 200 milliseconds.
pub const TICK_RATE_NANOS: u64 = 200_000_000;

/// The time from `since` to `now`, zero if `now` is not later.
pub open spec fn elapsed(since: u64, now: u64) -> nat {
    if now >= since {
        (now - since) as nat
    } else {
        0
    }
}

/// The schedule of ticks: it remembers when the last tick was sent.
#[derive(Clone, Copy, Debug, PartialEq, Eq, Structural)]
pub struct Ticker {
    pub last_tick: u64,
}

impl Ticker {
    /// A schedule whose first period starts at `now`.
    pub fn new(now: u64) -> (ticker: Ticker)
        ensures
            ticker.last_tick == now,
    {
        Ticker { last_tick: now }
    }

    /// Whether a full period has passed since the last tick.
    pub open spec fn due(self, now: u64) -> bool {
        elapsed(self.last_tick, now) >= TICK_RATE_NANOS
    }

    /// How long the source may wait for input at time `now`: what is left
    /// of the running period, and nothing once the tick is due.
    pub fn timeout(&self, now: u64) -> (wait: u64)
        ensures
            wait == if self.due(now) {
                0
            } else {
                TICK_RATE_NANOS - elapsed(self.last_tick, now)
            },
            wait <= TICK_RATE_NANOS,
    {
        let passed = now.saturating_sub(self.last_tick);
        TICK_RATE_NANOS.saturating_sub(passed)
    }

    /// Tells whether a tick is due at time `now`. If it is, the next period
    /// starts at `now`, not at the deadline that was missed, so that ticks
    /// never come closer together than one period.
    pub fn poll_tick(&mut self, now: u64) -> (tick: bool)
        ensures
            tick == old(self).due(now),
            final(self).last_tick == if tick {
                now
            } else {
                old(self).last_tick
            },
            tick ==> !final(self).due(now),
    {
        let passed = now.saturating_sub(self.last_tick);
        if passed >= TICK_RATE_NANOS {
            self.last_tick = now;
            true
        } else {
            false
        }
    }
}

/// Between a tick and the next one at least a full period passes: after a
/// tick at `first`, the next tick is due at `later` only if `later` is a
/// period or more after `first`.
pub proof fn lemma_ticks_keep_their_distance(first: u64, later: u64)
    requires
        (Ticker { last_tick: first }).due(later),
    ensures
        later - first >= TICK_RATE_NANOS,
{
}

} // verus!
