//! In-memory rate-limit store: per-key failure counters over a fixed window.
//!
//! Times are whole seconds on a monotonic clock, handed in by the caller.

use vstd::prelude::*;
use crate::store::ratelimit::{RateLimitKey, RateLimitOutcome, RateLimitPolicy};

verus! {

#[derive(Debug)]
struct Window {
    key: RateLimitKey,
    failures: u32,
    window_start: u64,
}

/// A counting window as the contracts see it.
pub struct WindowView {
    /// The rate-limited identity.
    pub key: Seq<char>,
    /// Failures counted in the current window.
    pub failures: u32,
    /// When the current window opened.
    pub window_start: u64,
}

spec fn window_view(w: Window) -> WindowView {
    WindowView { key: w.key@, failures: w.failures, window_start: w.window_start }
}

/// Seconds from `start` to `now` on a monotonic clock (zero if `now` is
/// earlier).
pub open spec fn elapsed(start: u64, now: u64) -> int {
    if now >= start {
        now - start
    } else {
        0
    }
}

/// Whether `i` is the first window kept for `key`.
pub open spec fn is_first_for(ws: Seq<WindowView>, key: Seq<char>, i: int) -> bool {
    &&& 0 <= i < ws.len()
    &&& ws[i].key == key
    &&& forall|j: int| 0 <= j < i ==> #[trigger] ws[j].key != key
}

/// Whether some window is kept for `key`.
pub open spec fn has_window(ws: Seq<WindowView>, key: Seq<char>) -> bool {
    exists|i: int| is_first_for(ws, key, i)
}

/// The failures counted for `key` at `now`: those of its window while the
/// window is open, zero once it has elapsed or when there is none.
pub open spec fn current_failures(ws: Seq<WindowView>, key: Seq<char>, now: u64, window_secs: u64) -> u32 {
    if has_window(ws, key) {
        let i = choose|i: int| is_first_for(ws, key, i);
        if elapsed(ws[i].window_start, now) < window_secs {
            ws[i].failures
        } else {
            0
        }
    } else {
        0
    }
}

/// The failure count after one more failure (saturating).
pub open spec fn incremented(n: u32) -> u32 {
    if n == u32::MAX {
        n
    } else {
        (n + 1) as u32
    }
}

/// The windows after recording a failure for `key` at `now`: its window,
/// restarted at `now` if it has elapsed, counts one more failure; a key
/// without a window gets a new one opened at `now` with one failure.
pub open spec fn after_failure(ws: Seq<WindowView>, key: Seq<char>, now: u64, window_secs: u64) -> Seq<WindowView> {
    if has_window(ws, key) {
        let i = choose|i: int| is_first_for(ws, key, i);
        let w = ws[i];
        if elapsed(w.window_start, now) >= window_secs {
            ws.update(i, WindowView { key, failures: 1, window_start: now })
        } else {
            ws.update(i, WindowView { key, failures: incremented(w.failures), window_start: w.window_start })
        }
    } else {
        ws.push(WindowView { key, failures: 1, window_start: now })
    }
}

/// The windows after clearing `key`: every window for it is dropped.
pub open spec fn after_clear(ws: Seq<WindowView>, key: Seq<char>) -> Seq<WindowView> {
    ws.filter(|w: WindowView| w.key != key)
}

/// The verdict of a check against `policy`.
pub open spec fn verdict(failures: u32, policy: RateLimitPolicy) -> RateLimitOutcome {
    if failures >= policy.max_failures {
        RateLimitOutcome::Deny
    } else {
        RateLimitOutcome::Allow
    }
}

/// Non-production in-memory rate-limit store.
#[derive(Debug, Default)]
pub struct MemRateLimitStore {
    windows: Vec<Window>,
}

impl MemRateLimitStore {
    /// The kept windows, oldest first.
    pub closed spec fn windows(&self) -> Seq<WindowView> {
        self.windows@.map_values(|w: Window| window_view(w))
    }

    /// An empty store.
    pub fn new() -> (r: Self)
        ensures
            r.windows().len() == 0,
    {
        MemRateLimitStore { windows: Vec::new() }
    }

    fn find(&self, key: &RateLimitKey) -> (r: Option<usize>)
        ensures
            match r {
                Some(i) => is_first_for(self.windows(), key@, i as int),
                None => forall|j: int| 0 <= j < self.windows().len() ==> #[trigger] self.windows()[j].key != key@,
            },
    {
        let n = self.windows.len();
        let mut i: usize = 0;
        while i < n
            invariant
                n == self.windows@.len(),
                i <= n,
                forall|j: int| 0 <= j < i ==> #[trigger] self.windows()[j].key != key@,
            decreases n - i,
        {
            assert(self.windows()[i as int] == window_view(self.windows@[i as int]));
            if self.windows[i].key.same_as(key) {
                return Some(i);
            }
            i = i + 1;
        }
        None
    }

    /// Whether `key` is over `policy`'s threshold at `now`.
    pub fn check(&self, key: &RateLimitKey, policy: &RateLimitPolicy, now: u64) -> (r: RateLimitOutcome)
        ensures
            r == verdict(current_failures(self.windows(), key@, now, policy.window_secs), *policy),
    {
        let failures = match self.find(key) {
            Some(i) => {
                let w = &self.windows[i];
                assert(self.windows()[i as int] == window_view(*w));
                if now.saturating_sub(w.window_start) < policy.window_secs {
                    w.failures
                } else {
                    0
                }
            },
            None => 0,
        };
        if policy.is_exceeded(failures) {
            RateLimitOutcome::Deny
        } else {
            RateLimitOutcome::Allow
        }
    }

    /// Count one failure for `key` at `now`.
    pub fn record_failure(&mut self, key: &RateLimitKey, policy: &RateLimitPolicy, now: u64)
        ensures
            final(self).windows() == after_failure(old(self).windows(), key@, now, policy.window_secs),
    {
        match self.find(key) {
            Some(i) => {
                let ghost before = self.windows();
                let mut w = self.windows.remove(i);
                if now.saturating_sub(w.window_start) >= policy.window_secs {
                    w.failures = 0;
                    w.window_start = now;
                }
                w.failures = w.failures.saturating_add(1);
                let ghost updated = window_view(w);
                self.windows.insert(i, w);
                assert(self.windows() == before.update(i as int, updated));
            },
            None => {
                let w = Window { key: key.clone(), failures: 1, window_start: now };
                self.windows.push(w);
                assert(self.windows() == old(self).windows().push(window_view(w)));
            },
        }
    }

    /// Drop every window for `key`.
    pub fn clear_failures(&mut self, key: &RateLimitKey)
        ensures
            final(self).windows() == after_clear(old(self).windows(), key@),
    {
        let ghost old_ws = self.windows();
        let mut kept: Vec<Window> = Vec::new();
        let mut old_vec: Vec<Window> = Vec::new();
        std::mem::swap(&mut old_vec, &mut self.windows);
        assert(old_vec@.map_values(|w: Window| window_view(w)) == old_ws);
        for w in it: old_vec
            invariant
                it.seq() == old_vec@,
                kept@.map_values(|w: Window| window_view(w)) == after_clear(old_ws.take(it.index() as int), key@),
                old_vec@.map_values(|w: Window| window_view(w)) == old_ws,
        {
            let ghost idx = it.index();
            assert(old_ws.take(idx + 1) == old_ws.take(idx as int).push(window_view(w)));
            proof {
                old_ws.take(idx as int).lemma_filter_push(window_view(w), |x: WindowView| x.key != key@);
            }
            if !w.key.same_as(key) {
                let ghost wv = window_view(w);
                kept.push(w);
                assert(kept@.map_values(|w: Window| window_view(w)) == after_clear(old_ws.take(idx as int), key@).push(wv));
            }
        }
        assert(old_ws.take(old_ws.len() as int) == old_ws);
        self.windows = kept;
    }
}

/// Clearing a key's failures lifts the limit: right after, a check of that
/// key allows at any time, under any policy with a positive threshold.
pub proof fn lemma_clear_allows(ws: Seq<WindowView>, key: Seq<char>, now: u64, policy: RateLimitPolicy)
    requires
        policy.max_failures > 0,
    ensures
        verdict(current_failures(after_clear(ws, key), key, now, policy.window_secs), policy) == RateLimitOutcome::Allow,
{
    let cleared = after_clear(ws, key);
    let pred = |w: WindowView| w.key != key;
    if has_window(cleared, key) {
        let i = choose|i: int| is_first_for(cleared, key, i);
        ws.lemma_filter_pred(pred, i);
    }
}

/// Within an open window every recorded failure counts: the count read at
/// `now` goes up by one (until it saturates).
pub proof fn lemma_failure_counts(ws: Seq<WindowView>, key: Seq<char>, now: u64, window_secs: u64)
    requires
        window_secs > 0,
    ensures
        current_failures(after_failure(ws, key, now, window_secs), key, now, window_secs) == incremented(
            current_failures(ws, key, now, window_secs),
        ),
{
    let after = after_failure(ws, key, now, window_secs);
    if has_window(ws, key) {
        let i = choose|i: int| is_first_for(ws, key, i);
        assert(is_first_for(after, key, i));
        let c = choose|c: int| is_first_for(after, key, c);
        assert(c == i) by {
            if c < i {
                assert(after[c] == ws[c]);
            }
            if i < c {
                assert(after[i].key == key);
            }
        }
    } else {
        let n = ws.len() as int;
        assert forall|j: int| 0 <= j < n implies #[trigger] ws[j].key != key by {
            if ws[j].key == key {
                lemma_first_exists(ws, key, j);
            }
        }
        assert(is_first_for(after, key, n));
        let c = choose|c: int| is_first_for(after, key, c);
        assert(c == n) by {
            if c < n {
                assert(after[c] == ws[c]);
            }
        }
    }
}

/// A key with some window has a first one.
proof fn lemma_first_exists(ws: Seq<WindowView>, key: Seq<char>, j: int)
    requires
        0 <= j < ws.len(),
        ws[j].key == key,
    ensures
        has_window(ws, key),
    decreases j,
{
    if exists|k: int| 0 <= k < j && #[trigger] ws[k].key == key {
        let k = choose|k: int| 0 <= k < j && #[trigger] ws[k].key == key;
        lemma_first_exists(ws, key, k);
    } else {
        assert(is_first_for(ws, key, j));
    }
}

} // verus!
