//! A rate-limited periodic trigger, checked cooperatively inside the main
//! loop rather than on a separate timer thread.
//!
//! Time is carried as a monotonic timestamp in milliseconds; the caller reads
//! the clock and hands the current timestamp in.

use vstd::prelude::*;

verus! {

/// Fires at most once per `delay` milliseconds, tracking the timestamp of the
/// last firing (or of construction, before the first firing).
pub struct Ticker {
    pub delay: u64,
    pub last: u64,
}

/// Whether a ticker fires when checked at time `now`: at least `delay` has
/// elapsed since it last fired. With `delay == 0` it fires on every check
/// that is not earlier than the last firing.
pub open spec fn spec_fires(t: Ticker, now: u64) -> bool {
    now as int - t.last as int >= t.delay as int
}

/// The ticker state after a check at time `now`: the last-fired timestamp
/// advances exactly when the ticker fires.
pub open spec fn spec_tick(t: Ticker, now: u64) -> Ticker {
    if spec_fires(t, now) {
        Ticker { delay: t.delay, last: now }
    } else {
        t
    }
}

/// The ticker state after a whole sequence of checks, oldest first.
pub open spec fn ticker_after(t: Ticker, times: Seq<u64>) -> Ticker
    decreases times.len(),
{
    if times.len() == 0 {
        t
    } else {
        ticker_after(spec_tick(t, times[0]), times.drop_first())
    }
}

/// Folding one more check at the end of a sequence of checks is one
/// `spec_tick` on the folded state.
pub proof fn lemma_ticker_after_push(t: Ticker, times: Seq<u64>, now: u64)
    ensures
        ticker_after(t, times.push(now)) == spec_tick(ticker_after(t, times), now),
    decreases times.len(),
{
    let s = times.push(now);
    if times.len() == 0 {
        assert(s[0] == now);
        assert(s.drop_first() =~= Seq::<u64>::empty());
        assert(ticker_after(t, s) == ticker_after(spec_tick(t, now), s.drop_first()));
        assert(ticker_after(spec_tick(t, now), Seq::<u64>::empty()) == spec_tick(t, now));
        assert(ticker_after(t, times) == t);
    } else {
        assert(s[0] == times[0]);
        assert(s.drop_first() =~= times.drop_first().push(now));
        assert(ticker_after(t, s) == ticker_after(spec_tick(t, times[0]), s.drop_first()));
        lemma_ticker_after_push(spec_tick(t, times[0]), times.drop_first(), now);
        assert(ticker_after(t, times) == ticker_after(spec_tick(t, times[0]), times.drop_first()));
    }
}

impl Ticker {
    /// A fresh ticker behaves as if it had fired at construction time `now`.
    pub fn new(delay: u64, now: u64) -> (t: Ticker)
        ensures
            t.delay == delay,
            t.last == now,
    {
        Ticker { delay, last: now }
    }

    /// One check at time `now`: reports whether the periodic action is due,
    /// and records `now` as the last firing exactly when it is.
    pub fn tick(&mut self, now: u64) -> (fire: bool)
        ensures
            fire == spec_fires(*old(self), now),
            *final(self) == spec_tick(*old(self), now),
    {
        let fire = if now >= self.last {
            now - self.last >= self.delay
        } else {
            false
        };
        if fire {
            self.last = now;
        }
        fire
    }
}

} // verus!
