//! Timing decisions of the cooperative run loop.
//!
//! The loop is single-threaded: each iteration advances timers, redraws
//! dirty regions, then must decide whether to yield to the host scheduler
//! (a watchdog resets the device when the loop runs too long without
//! yielding) and whether to sleep before the next iteration (power saving
//! while no animation runs).  These decisions are pure functions of the
//! clock and the loop state; the application performs the yield and the
//! sleep.

use vstd::prelude::*;

verus! {

/// Once more than this many milliseconds have passed since the last
/// explicit yield, the next check must yield.
pub const YIELD_INTERVAL_MS: u64 = 100;

/// How many milliseconds the loop sleeps before the next iteration while no
/// animation is active.
pub const IDLE_SLEEP_MS: u64 = 20;

/// Timing state of the run loop: when the loop last yielded, on the
/// monotonic millisecond clock.
pub struct LoopState {
    pub last_yield_ms: u64,
}

/// What the tail of one iteration must do: yield to the host scheduler,
/// and sleep before the next iteration.
pub struct IterationActions {
    pub do_yield: bool,
    pub sleep_ms: u64,
}

/// Whether an explicit yield is due: the time since the last yield exceeds
/// the yield interval.
pub open spec fn yield_due(last_yield_ms: int, now_ms: int) -> bool {
    now_ms - last_yield_ms > YIELD_INTERVAL_MS
}

/// The last-yield time after one check at `now_ms`: the check either yields
/// now or leaves the state unchanged.
pub open spec fn next_last_yield(last_yield_ms: int, now_ms: int) -> int {
    if yield_due(last_yield_ms, now_ms) {
        now_ms
    } else {
        last_yield_ms
    }
}

/// The last-yield time after checks at each time in `times`, in order,
/// starting from a yield at `last0`.
pub open spec fn last_yield_after(last0: int, times: Seq<int>) -> int
    decreases times.len(),
{
    if times.len() == 0 {
        last0
    } else {
        next_last_yield(last_yield_after(last0, times.drop_last()), times.last())
    }
}

impl LoopState {
    /// Enter the loop: the start of the loop counts as the last yield.
    pub fn enter(now_ms: u64) -> (s: LoopState)
        ensures
            s.last_yield_ms == now_ms,
    {
        LoopState { last_yield_ms: now_ms }
    }

    /// The timing decision at the tail of one iteration, checked at
    /// `now_ms`: yield exactly when the yield interval has been exceeded
    /// (and restart it), and sleep the idle interval exactly when no
    /// animation is active.
    pub fn loop_step(&mut self, now_ms: u64, animations_active: bool) -> (actions:
        IterationActions)
        requires
            old(self).last_yield_ms <= now_ms,
        ensures
            actions.do_yield == yield_due(old(self).last_yield_ms as int, now_ms as int),
            final(self).last_yield_ms == next_last_yield(old(self).last_yield_ms as int,
                now_ms as int),
            actions.sleep_ms == if animations_active { 0u64 } else { IDLE_SLEEP_MS },
            final(self).last_yield_ms <= now_ms,
            now_ms - final(self).last_yield_ms <= YIELD_INTERVAL_MS,
    {
        let elapsed = now_ms - self.last_yield_ms;
        let do_yield = elapsed > YIELD_INTERVAL_MS;
        if do_yield {
            self.last_yield_ms = now_ms;
        }
        let sleep_ms = if animations_active {
            0
        } else {
            IDLE_SLEEP_MS
        };
        IterationActions { do_yield, sleep_ms }
    }
}

/// Watchdog bound of the yield policy.  Take any run of the loop whose
/// yield checks happen at the times in `times`: consecutive checks at most
/// `gap_ms` apart (one iteration's work), the first check within `gap_ms`
/// of the initial yield at `last0`.  Then at check `i` the time since the
/// most recent yield is at most `YIELD_INTERVAL_MS + gap_ms` before the
/// check acts, and at most `YIELD_INTERVAL_MS` once it has: the loop never
/// runs longer than the yield interval plus one iteration without
/// yielding.  (Under continuous animation the loop never sleeps, so
/// `gap_ms` is the duration of the redraw work alone.)
pub proof fn lemma_watchdog_bound(last0: int, times: Seq<int>, gap_ms: int, i: int)
    requires
        0 <= gap_ms,
        0 <= i < times.len(),
        last0 <= times[0],
        times[0] - last0 <= gap_ms,
        forall|j: int| 0 < j < times.len() ==> times[j - 1] <= #[trigger] times[j] <= times[j
            - 1] + gap_ms,
    ensures
        times[i] - last_yield_after(last0, times.take(i)) <= YIELD_INTERVAL_MS + gap_ms,
        times[i] - last_yield_after(last0, times.take(i + 1)) <= YIELD_INTERVAL_MS,
    decreases i,
{
    assert(times.take(i + 1).drop_last() =~= times.take(i));
    if i == 0 {
        assert(times.take(0) =~= Seq::<int>::empty());
    } else {
        lemma_watchdog_bound(last0, times, gap_ms, i - 1);
    }
}

} // verus!
