//! Limits on how often a client may ask. Times are in one unit of the caller's
//! choice, counted from one moment of the caller's choice.

use vstd::hash_map::StringHashMap;
use vstd::prelude::*;

verus! {

/// The time `t` lies less than `duration` before `now`, or after it.
pub open spec fn within(t: u64, now: u64, duration: u64) -> bool {
    (if now >= t {
        now - t
    } else {
        0
    }) < duration
}

/// The times that lie less than `duration` before `now`, in their order.
pub open spec fn recent(times: Seq<u64>, now: u64, duration: u64) -> Seq<u64>
    decreases times.len(),
{
    if times.len() == 0 {
        Seq::empty()
    } else if within(times.last(), now, duration) {
        recent(times.drop_last(), now, duration).push(times.last())
    } else {
        recent(times.drop_last(), now, duration)
    }
}

/// The window after a request at `now`, and whether the request is let through:
/// only if fewer than `max` were let through lately.
pub open spec fn check_step(window: Seq<u64>, now: u64, max: nat, duration: u64) -> (
    Seq<u64>,
    bool,
) {
    let kept = recent(window, now, duration);
    if kept.len() >= max {
        (kept, false)
    } else {
        (kept.push(now), true)
    }
}

/// Lets through at most a number of requests in any span of a given length.
#[derive(Debug, Clone, PartialEq, Eq)]
pub struct RateLimiter {
    window: Vec<u64>,
    max_requests: usize,
    window_duration: u64,
}

impl RateLimiter {
    /// The times of the requests that were let through lately.
    pub closed spec fn window(self) -> Seq<u64> {
        self.window@
    }

    pub closed spec fn max(self) -> nat {
        self.max_requests as nat
    }

    pub closed spec fn duration(self) -> u64 {
        self.window_duration
    }

    /// No more requests are kept than may be let through.
    pub open spec fn wf(self) -> bool {
        self.window().len() <= self.max()
    }

    /// A limiter of `max_requests` in any span shorter than `window_duration`.
    pub fn new(max_requests: usize, window_duration: u64) -> (r: RateLimiter)
        ensures
            r.wf(),
            r.window() == Seq::<u64>::empty(),
            r.max() == max_requests,
            r.duration() == window_duration,
    {
        RateLimiter { window: Vec::new(), max_requests, window_duration }
    }

    /// Whether a request at `now` is let through.
    pub fn check(&mut self, now: u64) -> (r: bool)
        requires
            old(self).wf(),
        ensures
            final(self).wf(),
            final(self).max() == old(self).max(),
            final(self).duration() == old(self).duration(),
            (final(self).window(), r) == check_step(
                old(self).window(),
                now,
                old(self).max(),
                old(self).duration(),
            ),
    {
        let ghost all = self.window@;
        let mut kept: Vec<u64> = Vec::new();
        let mut i: usize = 0;
        assert(kept@ =~= recent(all.take(0), now, self.window_duration));
        while i < self.window.len()
            invariant
                all == self.window@,
                i <= all.len(),
                kept@ == recent(all.take(i as int), now, self.window_duration),
                kept@.len() <= i,
            decreases all.len() - i,
        {
            let t: u64 = self.window[i];
            proof {
                assert(all.take(i + 1).drop_last() =~= all.take(i as int));
                assert(all.take(i + 1).last() == t);
            }
            let age: u64 = now.saturating_sub(t);
            if age < self.window_duration {
                kept.push(t);
            }
            i += 1;
        }
        assert(all.take(i as int) =~= all);
        let allowed = kept.len() < self.max_requests;
        if allowed {
            kept.push(now);
        }
        self.window = kept;
        allowed
    }

    /// A copy.
    fn copy(&self) -> (r: RateLimiter)
        ensures
            r.window() == self.window(),
            r.max() == self.max(),
            r.duration() == self.duration(),
    {
        let mut window: Vec<u64> = Vec::new();
        let mut i: usize = 0;
        while i < self.window.len()
            invariant
                i <= self.window@.len(),
                window@ == self.window@.take(i as int),
            decreases self.window@.len() - i,
        {
            window.push(self.window[i]);
            i += 1;
        }
        assert(self.window@.take(i as int) =~= self.window@);
        RateLimiter {
            window,
            max_requests: self.max_requests,
            window_duration: self.window_duration,
        }
    }
}

/// A limiter for each address.
pub struct IpRateLimiter {
    limiters: StringHashMap<RateLimiter>,
    max_requests: usize,
    window_duration: u64,
}

impl IpRateLimiter {
    /// The times of the requests of an address that were let through lately.
    pub closed spec fn window(self, ip: Seq<char>) -> Seq<u64> {
        if self.limiters@.contains_key(ip) {
            self.limiters@[ip].window()
        } else {
            Seq::empty()
        }
    }

    pub closed spec fn max(self) -> nat {
        self.max_requests as nat
    }

    pub closed spec fn duration(self) -> u64 {
        self.window_duration
    }

    pub closed spec fn wf(self) -> bool {
        forall|ip: Seq<char>|
            #![trigger self.limiters@[ip]]
            self.limiters@.contains_key(ip) ==> {
                &&& self.limiters@[ip].wf()
                &&& self.limiters@[ip].max() == self.max_requests
                &&& self.limiters@[ip].duration() == self.window_duration
            }
    }

    /// A limiter of `max_requests` for each address in any span shorter than
    /// `window_duration`.
    pub fn new(max_requests: usize, window_duration: u64) -> (r: IpRateLimiter)
        ensures
            r.wf(),
            r.max() == max_requests,
            r.duration() == window_duration,
            forall|ip: Seq<char>| #[trigger] r.window(ip) == Seq::<u64>::empty(),
    {
        IpRateLimiter { limiters: StringHashMap::new(), max_requests, window_duration }
    }

    /// Whether a request of an address at `now` is let through. What other
    /// addresses may do stays as it was.
    pub fn check(&mut self, ip: &str, now: u64) -> (r: bool)
        requires
            old(self).wf(),
        ensures
            final(self).wf(),
            final(self).max() == old(self).max(),
            final(self).duration() == old(self).duration(),
            (final(self).window(ip@), r) == check_step(
                old(self).window(ip@),
                now,
                old(self).max(),
                old(self).duration(),
            ),
            forall|other: Seq<char>|
                other != ip@ ==> #[trigger] final(self).window(other) == old(self).window(other),
    {
        let mut limiter = match self.limiters.get(ip) {
            Some(limiter) => limiter.copy(),
            None => RateLimiter::new(self.max_requests, self.window_duration),
        };
        let allowed = limiter.check(now);
        self.limiters.insert(ip.to_string(), limiter);
        allowed
    }
}

// ---------------------------------------------------------------------------
// Laws
// ---------------------------------------------------------------------------

/// The window after the first `n` requests.
pub open spec fn window_after(times: Seq<u64>, n: nat, max: nat, duration: u64) -> Seq<u64>
    decreases n,
{
    if n == 0 || n > times.len() {
        Seq::empty()
    } else {
        check_step(window_after(times, (n - 1) as nat, max, duration), times[n - 1], max, duration).0
    }
}

/// Whether request `i` is let through.
pub open spec fn let_through(times: Seq<u64>, i: nat, max: nat, duration: u64) -> bool {
    check_step(window_after(times, i, max, duration), times[i as int], max, duration).1
}

/// The times of those of the first `n` requests that are let through.
pub open spec fn passed(times: Seq<u64>, n: nat, max: nat, duration: u64) -> Seq<u64>
    decreases n,
{
    if n == 0 || n > times.len() {
        Seq::empty()
    } else if let_through(times, (n - 1) as nat, max, duration) {
        passed(times, (n - 1) as nat, max, duration).push(times[n - 1])
    } else {
        passed(times, (n - 1) as nat, max, duration)
    }
}

/// The requests come in the order of their times.
pub open spec fn in_order(times: Seq<u64>) -> bool {
    forall|i: int, j: int| 0 <= i <= j < times.len() ==> times[i] <= times[j]
}

proof fn lemma_recent_twice(times: Seq<u64>, first: u64, second: u64, duration: u64)
    requires
        first <= second,
    ensures
        recent(recent(times, first, duration), second, duration) == recent(times, second, duration),
    decreases times.len(),
{
    if times.len() > 0 {
        lemma_recent_twice(times.drop_last(), first, second, duration);
        let inner = recent(times.drop_last(), first, duration);
        if within(times.last(), first, duration) {
            assert(inner.push(times.last()).drop_last() =~= inner);
        }
    }
}

proof fn lemma_recent_push(times: Seq<u64>, t: u64, now: u64, duration: u64)
    ensures
        recent(times.push(t), now, duration) == if within(t, now, duration) {
            recent(times, now, duration).push(t)
        } else {
            recent(times, now, duration)
        },
{
    assert(times.push(t).drop_last() =~= times);
}

proof fn lemma_window_is_recent(times: Seq<u64>, n: nat, max: nat, duration: u64, now: u64)
    requires
        in_order(times),
        n <= times.len(),
        n > 0 ==> times[n - 1] <= now,
    ensures
        recent(window_after(times, n, max, duration), now, duration) == recent(
            passed(times, n, max, duration),
            now,
            duration,
        ),
    decreases n,
{
    if n > 0 {
        let t = times[n - 1];
        let before = window_after(times, (n - 1) as nat, max, duration);
        let earlier = passed(times, (n - 1) as nat, max, duration);
        lemma_window_is_recent(times, (n - 1) as nat, max, duration, t);
        let kept = recent(before, t, duration);
        lemma_recent_twice(before, t, now, duration);
        lemma_recent_twice(earlier, t, now, duration);
        lemma_recent_push(kept, t, now, duration);
        lemma_recent_push(earlier, t, now, duration);
    }
}

proof fn lemma_recent_shorter(times: Seq<u64>, now: u64, duration: u64)
    ensures
        recent(times, now, duration).len() <= times.len(),
    decreases times.len(),
{
    if times.len() > 0 {
        lemma_recent_shorter(times.drop_last(), now, duration);
    }
}

proof fn lemma_window_fits(times: Seq<u64>, n: nat, max: nat, duration: u64)
    ensures
        window_after(times, n, max, duration).len() <= max,
    decreases n,
{
    if n > 0 && n <= times.len() {
        lemma_window_fits(times, (n - 1) as nat, max, duration);
        let before = window_after(times, (n - 1) as nat, max, duration);
        lemma_recent_shorter(before, times[n - 1], duration);
    }
}

/// Whenever one looks, no more than the allowed number of the requests of the
/// last span were let through.
pub proof fn law_limit_is_never_exceeded(
    times: Seq<u64>,
    n: nat,
    max: nat,
    duration: u64,
    now: u64,
)
    requires
        in_order(times),
        n <= times.len(),
        n > 0 ==> times[n - 1] <= now,
    ensures
        recent(passed(times, n, max, duration), now, duration).len() <= max,
{
    lemma_window_is_recent(times, n, max, duration, now);
    lemma_window_fits(times, n, max, duration);
    lemma_recent_shorter(window_after(times, n, max, duration), now, duration);
}

/// A request is refused only if the allowed number was let through in the last
/// span.
pub proof fn law_refused_only_at_the_limit(times: Seq<u64>, i: nat, max: nat, duration: u64)
    requires
        in_order(times),
        i < times.len(),
    ensures
        let_through(times, i, max, duration) <==> recent(
            passed(times, i, max, duration),
            times[i as int],
            duration,
        ).len() < max,
{
    lemma_window_is_recent(times, i, max, duration, times[i as int]);
}

proof fn lemma_recent_is_filter(times: Seq<u64>, now: u64, duration: u64)
    ensures
        recent(times, now, duration) == times.filter(
            |t: u64| t > now && duration > 0 || t <= now && now - t < duration,
        ),
    decreases times.len(),
{
    reveal(Seq::filter);
    if times.len() > 0 {
        lemma_recent_is_filter(times.drop_last(), now, duration);
    } else {
        assert(times.filter(
            |t: u64| t > now && duration > 0 || t <= now && now - t < duration,
        ) =~= recent(times, now, duration));
    }
}

/// A request is let through exactly if fewer requests than allowed were let through in
/// the span that ends with it. One that is let through counts from then on, one that is
/// refused does not, and what lies before the span counts no longer.
pub proof fn law_requests_are_counted(window: Seq<u64>, now: u64, max: nat, duration: u64)
    ensures
        ({
            let counted = window.filter(
                |t: u64| t > now && duration > 0 || t <= now && now - t < duration,
            );
            let (after, passes) = check_step(window, now, max, duration);
            &&& passes <==> counted.len() < max
            &&& passes ==> after == counted.push(now)
            &&& !passes ==> after == counted
        }),
{
    lemma_recent_is_filter(window, now, duration);
}

} // verus!
