//! Rate-limit vocabulary: the key, the policy, and the outcome of a check.

use vstd::prelude::*;
use crate::text::push_char;

verus! {

/// The identity a rate limit counts failures for (an IP fingerprint, an
/// account handle, ...). Only its short fingerprint is ever logged.
#[derive(Debug, PartialEq, Eq, Hash)]
pub struct RateLimitKey(String);

impl View for RateLimitKey {
    type V = Seq<char>;

    closed spec fn view(&self) -> Seq<char> {
        self.0@
    }
}

impl Clone for RateLimitKey {
    fn clone(&self) -> (r: Self)
        ensures
            r@ == self@,
    {
        RateLimitKey(self.0.clone())
    }
}

/// The fingerprint of a key: its first eight characters.
pub open spec fn fingerprint_of(key: Seq<char>) -> Seq<char> {
    if key.len() <= 8 {
        key
    } else {
        key.take(8)
    }
}

impl RateLimitKey {
    /// Wrap a key.
    pub fn new(value: &str) -> (r: Self)
        ensures
            r@ == value@,
    {
        RateLimitKey(value.to_owned())
    }

    /// Borrow the key.
    pub fn as_str(&self) -> (r: &str)
        ensures
            r@ == self@,
    {
        self.0.as_str()
    }

    /// A privacy-safe prefix of the key for logs: at most its first eight
    /// characters, never the full key.
    pub fn fingerprint(&self) -> (r: String)
        ensures
            r@ == fingerprint_of(self@),
    {
        let mut out = String::new();
        let mut count: usize = 0;
        for c in it: self.0.as_str().chars()
            invariant
                it.seq() == self@,
                count == if it.index() <= 8 { it.index() as int } else { 8 },
                out@ == it.seq().take(count as int),
        {
            if count < 8 {
                push_char(&mut out, c);
                assert(it.seq().take(count + 1) == it.seq().take(count as int).push(c));
                count = count + 1;
            }
        }
        assert(self@.take(self@.len() as int) == self@);
        out
    }

    /// Whether two keys are equal.
    pub fn same_as(&self, other: &RateLimitKey) -> (r: bool)
        ensures
            r == (self@ == other@),
    {
        self.0 == other.0
    }
}

/// What to do when the rate-limit store cannot be reached.
#[derive(Debug, Clone, Copy, PartialEq, Eq, Structural)]
pub enum RateLimitUnavailable {
    /// Treat the caller as limited (the safe default).
    FailClosed,
    /// Let the request through.
    FailOpen,
}

/// The verdict of a rate-limit check.
#[derive(Debug, Clone, Copy, PartialEq, Eq, Structural)]
pub enum RateLimitOutcome {
    /// Under the threshold.
    Allow,
    /// At or over the threshold.
    Deny,
}

/// A rate-limit policy: at most `max_failures` failures per window.
#[derive(Debug, Clone, Copy, PartialEq, Eq, Structural)]
pub struct RateLimitPolicy {
    /// The failure count at which further attempts are denied.
    pub max_failures: u32,
    /// The counting window, in seconds.
    pub window_secs: u64,
    /// What to do when the rate-limit store cannot be reached.
    pub unavailable: RateLimitUnavailable,
}

impl RateLimitPolicy {
    /// The default policy for invite-code redemption: ten failures per
    /// fifteen-minute window, failing closed when the store is unreachable.
    pub fn default_invite() -> (r: Self)
        ensures
            r.max_failures == 10,
            r.window_secs == 900,
            r.unavailable == RateLimitUnavailable::FailClosed,
    {
        RateLimitPolicy { max_failures: 10, window_secs: 900, unavailable: RateLimitUnavailable::FailClosed }
    }

    /// Whether `failures` reaches the threshold.
    pub fn is_exceeded(&self, failures: u32) -> (r: bool)
        ensures
            r == (failures >= self.max_failures),
    {
        failures >= self.max_failures
    }
}

} // verus!
