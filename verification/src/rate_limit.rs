//! Sliding-window admission guard for outbound API calls.
//!
//! The guard keeps the timestamps of recently recorded requests and admits a
//! new one only while fewer than `max_requests` of them lie within the
//! trailing `window`. Time is supplied by the caller as a monotone tick
//! count (`now`), so the guard itself never reads a clock and tests can
//! simulate elapsed time deterministically.
//!
//! The two-step protocol (`can_make_request`, then `record_request` once the
//! call was actually sent) is deliberately not atomic: callers that share one
//! guard between execution contexts must wrap the check-then-record sequence
//! in a single critical section of their own.

use std::collections::VecDeque;
use vstd::prelude::*;

verus! {

/// The timestamps are recorded oldest first.
pub open spec fn nondecreasing(s: Seq<u64>) -> bool {
    forall|i: int, j: int| 0 <= i <= j < s.len() ==> s[i] <= s[j]
}

/// A timestamp `t` is still recent at `now`: strictly less than `window`
/// ticks have elapsed since it.
pub open spec fn recent(t: u64, now: u64, window: u64) -> bool {
    now - t < window
}

/// The timestamps of `times` still recent at `now`, in their original order.
pub open spec fn retained(times: Seq<u64>, now: u64, window: u64) -> Seq<u64>
    decreases times.len(),
{
    if times.len() == 0 {
        Seq::empty()
    } else if recent(times.last(), now, window) {
        retained(times.drop_last(), now, window).push(times.last())
    } else {
        retained(times.drop_last(), now, window)
    }
}

/// What `time_until_next_request` answers at `now`: nothing if a slot is
/// free, otherwise the time until the oldest retained timestamp ages out.
pub open spec fn wait_after(times: Seq<u64>, now: u64, window: u64, cap: int) -> Option<u64> {
    let kept = retained(times, now, window);
    if kept.len() < cap {
        None
    } else {
        Some((window - (now - kept[0])) as u64)
    }
}

/// Sliding-window request-admission guard. One instance throttles one
/// logical outbound channel; it is created once and reused indefinitely.
#[derive(Debug, Clone)]
pub struct RateLimiter {
    requests: VecDeque<u64>,
    max_requests: usize,
    window: u64,
}

impl RateLimiter {
    /// The recorded timestamps, oldest first.
    pub closed spec fn times(&self) -> Seq<u64> {
        self.requests@
    }

    /// The maximum number of requests allowed within any window.
    pub closed spec fn capacity(&self) -> int {
        self.max_requests as int
    }

    /// The length of the trailing window, in ticks.
    pub closed spec fn window_size(&self) -> u64 {
        self.window
    }

    pub open spec fn wf(&self) -> bool {
        &&& self.capacity() >= 1
        &&& nondecreasing(self.times())
    }

    /// Every recorded timestamp lies at or before `now`: the caller's
    /// clock is monotone.
    pub open spec fn no_later_than(&self, now: u64) -> bool {
        forall|i: int| 0 <= i < self.times().len() ==> self.times()[i] <= now
    }

    pub fn new(max_requests: usize, window: u64) -> (r: RateLimiter)
        requires
            max_requests >= 1,
        ensures
            r.wf(),
            r.times() == Seq::<u64>::empty(),
            r.capacity() == max_requests as int,
            r.window_size() == window,
    {
        let r = RateLimiter { requests: VecDeque::new(), max_requests, window };
        proof {
            assert(r.times() =~= Seq::<u64>::empty());
        }
        r
    }

    /// Check that we can make a request now. Prunes stale timestamps as a
    /// side effect; records nothing.
    pub fn can_make_request(&mut self, now: u64) -> (r: bool)
        requires
            old(self).wf(),
            old(self).no_later_than(now),
        ensures
            final(self).wf(),
            final(self).no_later_than(now),
            final(self).capacity() == old(self).capacity(),
            final(self).window_size() == old(self).window_size(),
            final(self).times() == retained(old(self).times(), now, old(self).window_size()),
            r == (retained(old(self).times(), now, old(self).window_size()).len()
                < old(self).capacity()),
    {
        self.cleanup_old_requests(now);
        self.requests.len() < self.max_requests
    }

    /// Record a request that was actually sent, stamped `now`.
    ///
    /// The caller is expected to have just seen `can_make_request` return
    /// true; the guard does not enforce that protocol, and recording past
    /// capacity merely shifts future answers.
    pub fn record_request(&mut self, now: u64)
        requires
            old(self).wf(),
            old(self).no_later_than(now),
        ensures
            final(self).wf(),
            final(self).no_later_than(now),
            final(self).capacity() == old(self).capacity(),
            final(self).window_size() == old(self).window_size(),
            final(self).times() == retained(old(self).times(), now, old(self).window_size())
                + seq![now],
    {
        self.cleanup_old_requests(now);
        self.requests.push_back(now);
    }

    /// Compute the waiting time before the next request may proceed:
    /// nothing if one may proceed at once, otherwise the time until the
    /// oldest retained timestamp leaves the window. Prunes as a side
    /// effect; never blocks.
    pub fn time_until_next_request(&mut self, now: u64) -> (r: Option<u64>)
        requires
            old(self).wf(),
            old(self).no_later_than(now),
        ensures
            final(self).wf(),
            final(self).no_later_than(now),
            final(self).capacity() == old(self).capacity(),
            final(self).window_size() == old(self).window_size(),
            final(self).times() == retained(old(self).times(), now, old(self).window_size()),
            r == wait_after(old(self).times(), now, old(self).window_size(), old(self).capacity()),
    {
        self.cleanup_old_requests(now);

        if self.requests.len() < self.max_requests {
            return None;
        }

        let oldest = self.requests[0];
        let elapsed = now - oldest;
        Some(self.window - elapsed)
    }

    /// Drop every timestamp that is no longer recent at `now`. Timestamps
    /// are sorted oldest first, so the stale ones form a prefix.
    #[verifier::loop_isolation(false)]
    fn cleanup_old_requests(&mut self, now: u64)
        requires
            old(self).wf(),
            old(self).no_later_than(now),
        ensures
            final(self).wf(),
            final(self).no_later_than(now),
            final(self).capacity() == old(self).capacity(),
            final(self).window_size() == old(self).window_size(),
            final(self).times() == retained(old(self).times(), now, old(self).window_size()),
            forall|i: int| 0 <= i < final(self).times().len()
                ==> recent(final(self).times()[i], now, final(self).window_size()),
    {
        let ghost orig = self.requests@;
        while self.requests.len() > 0 && now - self.requests[0] >= self.window
            invariant
                self.window == old(self).window,
                self.max_requests == old(self).max_requests,
                nondecreasing(self.requests@),
                forall|i: int| 0 <= i < self.requests@.len() ==> self.requests@[i] <= now,
                retained(self.requests@, now, self.window) == retained(orig, now, self.window),
            decreases self.requests@.len(),
        {
            let ghost before = self.requests@;
            self.requests.pop_front();
            proof {
                lemma_retained_drop_stale_front(before, now, self.window);
                assert(before.subrange(1, before.len() as int) =~= self.requests@);
            }
        }
        proof {
            assert forall|i: int| 0 <= i < self.requests@.len() implies recent(
                self.requests@[i],
                now,
                self.window,
            ) by {
                // the front survived the loop, and later entries are no older
                assert(self.requests@[0] <= self.requests@[i]);
            }
            lemma_retained_of_recent(self.requests@, now, self.window);
        }
    }
}

/// Dropping a stale front timestamp leaves the retained timestamps as they
/// were.
proof fn lemma_retained_drop_stale_front(times: Seq<u64>, now: u64, window: u64)
    requires
        times.len() > 0,
        !recent(times[0], now, window),
    ensures
        retained(times, now, window) == retained(
            times.subrange(1, times.len() as int),
            now,
            window,
        ),
    decreases times.len(),
{
    let rest = times.subrange(1, times.len() as int);
    if times.len() == 1 {
        assert(rest =~= Seq::<u64>::empty());
        assert(times.drop_last() =~= Seq::<u64>::empty());
        assert(!recent(times.last(), now, window));
        assert(retained(times, now, window) == retained(times.drop_last(), now, window));
    } else {
        let head = times.drop_last();
        assert(head[0] == times[0]);
        lemma_retained_drop_stale_front(head, now, window);
        assert(head.subrange(1, head.len() as int) =~= rest.drop_last());
        assert(retained(head, now, window) == retained(rest.drop_last(), now, window));
        assert(rest.last() == times.last());
        if recent(times.last(), now, window) {
            assert(retained(times, now, window) == retained(head, now, window).push(
                times.last(),
            ));
            assert(retained(rest, now, window) == retained(rest.drop_last(), now, window).push(
                rest.last(),
            ));
        } else {
            assert(retained(times, now, window) == retained(head, now, window));
            assert(retained(rest, now, window) == retained(rest.drop_last(), now, window));
        }
    }
}

/// Every retained timestamp is indeed recent.
pub proof fn lemma_retained_recent(times: Seq<u64>, now: u64, window: u64)
    ensures
        forall|i: int| 0 <= i < retained(times, now, window).len()
            ==> recent(retained(times, now, window)[i], now, window),
    decreases times.len(),
{
    if times.len() > 0 {
        lemma_retained_recent(times.drop_last(), now, window);
        let sub = retained(times.drop_last(), now, window);
        let whole = retained(times, now, window);
        assert forall|i: int| 0 <= i < whole.len() implies recent(whole[i], now, window) by {
            if recent(times.last(), now, window) {
                assert(whole == sub.push(times.last()));
                if i < sub.len() {
                    assert(whole[i] == sub[i]);
                } else {
                    assert(whole[i] == times.last());
                }
            } else {
                assert(whole == sub);
            }
        }
    }
}

/// A sequence of timestamps that are all recent is retained whole.
proof fn lemma_retained_of_recent(times: Seq<u64>, now: u64, window: u64)
    requires
        forall|i: int| 0 <= i < times.len() ==> recent(times[i], now, window),
    ensures
        retained(times, now, window) == times,
    decreases times.len(),
{
    if times.len() == 0 {
        assert(retained(times, now, window) =~= times);
    } else {
        lemma_retained_of_recent(times.drop_last(), now, window);
        assert(retained(times, now, window) =~= times);
    }
}

/// Checking is idempotent: pruning what was already pruned at the same
/// instant changes nothing, so immediately repeated `can_make_request`
/// calls answer alike.
pub proof fn lemma_retained_idempotent(times: Seq<u64>, now: u64, window: u64)
    ensures
        retained(retained(times, now, window), now, window) == retained(times, now, window),
{
    lemma_retained_recent(times, now, window);
    lemma_retained_of_recent(retained(times, now, window), now, window);
}

/// Pruning converges: once every recorded timestamp is at least `window`
/// old, nothing is retained, so a subsequent check observes zero
/// timestamps and admits a request.
pub proof fn lemma_prune_to_empty(times: Seq<u64>, now: u64, window: u64)
    requires
        forall|i: int| 0 <= i < times.len() ==> now - times[i] >= window,
    ensures
        retained(times, now, window) == Seq::<u64>::empty(),
    decreases times.len(),
{
    if times.len() > 0 {
        lemma_prune_to_empty(times.drop_last(), now, window);
    }
}

/// For sorted timestamps the stale ones form a prefix: there is a cut
/// index below which everything is stale and from which everything is
/// retained.
proof fn retained_cut(times: Seq<u64>, now: u64, window: u64) -> (k: int)
    requires
        nondecreasing(times),
    ensures
        0 <= k <= times.len(),
        retained(times, now, window) == times.subrange(k, times.len() as int),
        forall|i: int| 0 <= i < k ==> !recent(times[i], now, window),
        forall|i: int| k <= i < times.len() ==> recent(times[i], now, window),
    decreases times.len(),
{
    if times.len() == 0 {
        assert(retained(times, now, window) =~= times.subrange(0, 0));
        0
    } else {
        let head = times.drop_last();
        let k = retained_cut(head, now, window);
        if recent(times.last(), now, window) {
            assert(head.subrange(k, head.len() as int).push(times.last()) =~= times.subrange(
                k,
                times.len() as int,
            ));
            assert forall|i: int| 0 <= i < k implies !recent(times[i], now, window) by {
                assert(times[i] == head[i]);
            }
            assert forall|i: int| k <= i < times.len() implies recent(times[i], now, window) by {
                if i < times.len() - 1 {
                    assert(times[i] == head[i]);
                }
            }
            k
        } else {
            // the newest timestamp is stale, so every older one is too
            assert forall|i: int| 0 <= i < times.len() implies !recent(
                times[i],
                now,
                window,
            ) by {
                assert(times[i] <= times.last());
            }
            assert(k == head.len());
            assert(retained(times, now, window) == retained(head, now, window));
            assert(head.subrange(k, head.len() as int) =~= times.subrange(
                times.len() as int,
                times.len() as int,
            ));
            times.len() as int
        }
    }
}

/// The wait is monotone while no request is recorded: as time advances
/// from `now1` to `now2` the answer of `time_until_next_request` never
/// grows, and it becomes nothing exactly when the oldest retained
/// timestamp has aged past the window. The bound on the retained count is
/// what the check-before-record protocol maintains.
pub proof fn lemma_wait_monotone(times: Seq<u64>, now1: u64, now2: u64, window: u64, cap: int)
    requires
        nondecreasing(times),
        forall|i: int| 0 <= i < times.len() ==> times[i] <= now1,
        now1 <= now2,
        cap >= 1,
        retained(times, now1, window).len() <= cap,
    ensures
        wait_after(times, now1, window, cap) is None ==> wait_after(
            times,
            now2,
            window,
            cap,
        ) is None,
        wait_after(times, now1, window, cap) is Some && wait_after(
            times,
            now2,
            window,
            cap,
        ) is Some ==> wait_after(times, now2, window, cap)->0 <= wait_after(
            times,
            now1,
            window,
            cap,
        )->0,
        wait_after(times, now1, window, cap) is Some ==> (wait_after(
            times,
            now2,
            window,
            cap,
        ) is None <==> now2 - retained(times, now1, window)[0] >= window),
{
    let k1 = retained_cut(times, now1, window);
    let k2 = retained_cut(times, now2, window);
    // what is recent at the later instant was recent at the earlier one
    assert(k1 <= k2) by {
        if k2 < k1 {
            assert(recent(times[k2], now2, window));
            assert(!recent(times[k2], now1, window));
        }
    }
    let kept1 = retained(times, now1, window);
    let kept2 = retained(times, now2, window);
    assert(kept1.len() == times.len() - k1);
    assert(kept2.len() == times.len() - k2);
    if kept1.len() < cap {
        assert(kept2.len() < cap);
    } else {
        assert(kept1.len() == cap);
        assert(kept1[0] == times[k1]);
        if now2 - times[k1] >= window {
            assert(!recent(times[k1], now2, window));
            assert(k2 > k1);
            assert(kept2.len() < cap);
        } else {
            assert(recent(times[k1], now2, window));
            assert(k2 <= k1);
            assert(kept2.len() == cap);
            assert(kept2[0] == times[k1]);
        }
    }
}

/// Capacity is never exceeded under the check-before-record protocol: when
/// the guard admitted a request (fewer than `cap` timestamps retained) and
/// that request was then recorded at the same instant, at most `cap`
/// timestamps remain within the window.
pub proof fn lemma_capacity_invariant(times: Seq<u64>, now: u64, window: u64, cap: int)
    requires
        retained(times, now, window).len() < cap,
    ensures
        retained(retained(times, now, window) + seq![now], now, window).len() <= cap,
{
    let kept = retained(times, now, window);
    let appended = kept + seq![now];
    lemma_retained_idempotent(times, now, window);
    assert(appended.drop_last() =~= kept);
    assert(appended.last() == now);
    if recent(now, now, window) {
        assert(retained(appended, now, window) == retained(kept, now, window).push(now));
    } else {
        assert(retained(appended, now, window) == retained(kept, now, window));
    }
}

} // verus!
