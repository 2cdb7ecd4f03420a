//! Arithmetic of the shared rate limiter: a minimum interval between any
//! two uses of the remote service, measured on a monotonic clock handed in
//! as plain timestamps.
//!
//! The limiter itself is pure state. The caller reads its clock, asks
//! [`RateLimiter::wait_needed`] how long to block, blocks for exactly that
//! long, and stamps the release time back with
//! [`RateLimiter::note_release`]. Mutual exclusion around this state is
//! the caller's lock; here stands everything that can be computed.

use vstd::prelude::*;

verus! {

/// State of the rate limiter: the fixed minimum interval and the time the
/// previous holder released, if anyone held it yet. All times are in the
/// caller's clock units.
pub struct RateLimiter {
    /// Minimum spacing between a release and the next grant.
    pub interval: u64,
    /// When the previous holder released, or `None` before the first
    /// acquisition.
    pub last_release: Option<u64>,
}

/// Remaining wait when acquiring at `now` after a release at
/// `last_release`: zero once a full `interval` has elapsed, the remainder
/// of the interval otherwise.
pub open spec fn spec_wait_after(interval: int, last_release: int, now: int) -> int {
    if now - last_release >= interval {
        0
    } else {
        interval - (now - last_release)
    }
}

impl RateLimiter {
    /// Remaining wait for an acquisition at `now`: nothing before the
    /// first acquisition, otherwise whatever is left of the interval
    /// since the previous release.
    pub open spec fn spec_wait(self, now: int) -> int {
        match self.last_release {
            None => 0,
            Some(l) => spec_wait_after(self.interval as int, l as int, now),
        }
    }

    /// A fresh limiter that lets its first acquirer pass immediately.
    pub fn new(interval: u64) -> (lim: RateLimiter)
        ensures
            lim.interval == interval,
            lim.last_release is None,
    {
        RateLimiter { interval, last_release: None }
    }

    /// How long an acquirer arriving at `now` must still block. The
    /// grant instant `now + wait` never comes sooner than one full
    /// interval after the previous release.
    pub fn wait_needed(&self, now: u64) -> (wait: u64)
        requires
            self.last_release matches Some(l) ==> l <= now,
        ensures
            wait == self.spec_wait(now as int),
            self.last_release matches Some(l) ==> now + wait >= l + self.interval,
    {
        match self.last_release {
            None => 0,
            Some(l) => {
                let elapsed = now - l;
                if elapsed >= self.interval {
                    0
                } else {
                    self.interval - elapsed
                }
            },
        }
    }

    /// Stamps `now` as the new last-release instant; the interval never
    /// changes.
    pub fn note_release(&mut self, now: u64)
        ensures
            final(self).interval == old(self).interval,
            final(self).last_release == Some(now),
    {
        self.last_release = Some(now);
    }
}

/// A well-formed history of sequential acquisitions, one triple
/// `(start, grant, release)` per round: the first acquirer is granted the
/// instant it arrives; every later one arrives no earlier than the
/// previous release (the clock is monotonic and rounds are sequential)
/// and is granted after exactly the remaining wait; and every round
/// releases no earlier than it was granted.
pub open spec fn trace_ok(interval: int, rounds: Seq<(int, int, int)>) -> bool {
    &&& forall|i: int| 0 <= i < rounds.len() ==> (#[trigger] rounds[i]).1 <= rounds[i].2
    &&& rounds.len() > 0 ==> rounds[0].1 == rounds[0].0
    &&& forall|i: int|
        1 <= i < rounds.len() ==> {
            &&& rounds[i - 1].2 <= (#[trigger] rounds[i]).0
            &&& rounds[i].1 == rounds[i].0 + spec_wait_after(
                interval,
                rounds[i - 1].2,
                rounds[i].0,
            )
        }
}

/// Grants only move forward through a well-spaced history.
proof fn lemma_grants_monotone(rounds: Seq<(int, int, int)>, interval: int, i: int, j: int)
    requires
        interval >= 0,
        forall|k: int|
            1 <= k < rounds.len() ==> (#[trigger] rounds[k]).1 >= rounds[k - 1].1 + interval,
        0 <= i <= j < rounds.len(),
    ensures
        rounds[i].1 <= rounds[j].1,
    decreases j - i,
{
    if i < j {
        lemma_grants_monotone(rounds, interval, i, j - 1);
    }
}

/// Summing the per-round spacing over a whole history.
proof fn lemma_grants_sum(rounds: Seq<(int, int, int)>, interval: int)
    requires
        forall|k: int|
            1 <= k < rounds.len() ==> (#[trigger] rounds[k]).1 >= rounds[k - 1].1 + interval,
        rounds.len() > 0,
    ensures
        rounds.last().1 >= rounds[0].1 + (rounds.len() - 1) * interval,
    decreases rounds.len(),
{
    if rounds.len() > 1 {
        let shorter = rounds.drop_last();
        assert forall|k: int|
            1 <= k < shorter.len() implies (#[trigger] shorter[k]).1 >= shorter[k - 1].1
            + interval by {
            assert(shorter[k] == rounds[k] && shorter[k - 1] == rounds[k - 1]);
        }
        lemma_grants_sum(shorter, interval);
        assert(shorter.last() == rounds[rounds.len() - 2] && shorter[0] == rounds[0]);
        assert((rounds.len() - 1) * interval == (rounds.len() - 2) * interval + interval)
            by (nonlinear_arith);
    } else {
        assert((rounds.len() - 1) * interval == 0) by (nonlinear_arith)
            requires
                rounds.len() == 1,
        ;
    }
}

/// The rate limiter's guarantee over any well-formed sequential history:
/// consecutive grants lie at least one interval apart, the last of `N`
/// grants comes at least `(N - 1) * interval` after the first, and no two
/// held intervals overlap — every round releases before any later round
/// is granted.
pub proof fn lemma_rate_limiter_spacing(interval: int, rounds: Seq<(int, int, int)>)
    requires
        interval >= 0,
        trace_ok(interval, rounds),
    ensures
        forall|i: int|
            1 <= i < rounds.len() ==> (#[trigger] rounds[i]).1 >= rounds[i - 1].1 + interval,
        rounds.len() > 0 ==> rounds.last().1 >= rounds[0].1 + (rounds.len() - 1) * interval,
        forall|i: int, j: int|
            0 <= i < j < rounds.len() ==> (#[trigger] rounds[i]).2 <= (#[trigger] rounds[j]).1,
{
    assert forall|i: int|
        1 <= i < rounds.len() implies (#[trigger] rounds[i]).1 >= rounds[i - 1].1 + interval by {
        assert(rounds[i - 1].1 <= rounds[i - 1].2);
    }
    if rounds.len() > 0 {
        lemma_grants_sum(rounds, interval);
    }
    assert forall|i: int, j: int|
        0 <= i < j < rounds.len() implies (#[trigger] rounds[i]).2 <= (#[trigger] rounds[j]).1 by {
        assert(rounds[i].2 <= rounds[i + 1].0);
        assert(rounds[i + 1].1 >= rounds[i + 1].0);
        lemma_grants_monotone(rounds, interval, i + 1, j);
    }
}

} // verus!
