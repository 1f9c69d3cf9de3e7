//! Structured, redacted observability hooks.
//!
//! [`MetricsObserver`] is an optional, no-op-by-default interface for counters
//! and outcome tracking. Metric labels must never carry secrets, lookup keys,
//! subject IDs, IP addresses or other high-cardinality values.

pub mod counter;

use vstd::prelude::*;
use crate::text::str_eq;

verus! {

/// Outcome label for metrics that distinguish result categories.
#[derive(Debug, Clone, Copy, PartialEq, Eq, Hash, Structural)]
pub enum Outcome {
    /// Code issue, claim won, session issue, form-token proceed.
    Success,
    /// Claim lost, session missing/expired/revoked.
    Miss,
    /// Rate-limit threshold exceeded.
    RateLimited,
    /// Invalid input, wrong binding, expired token.
    Invalid,
    /// Replay on the form-token or idempotency path.
    Replay,
    /// Transient store or key error.
    Error,
}

/// The stable label of an outcome.
pub open spec fn outcome_label(o: Outcome) -> Seq<char> {
    match o {
        Outcome::Success => "success"@,
        Outcome::Miss => "miss"@,
        Outcome::RateLimited => "rate_limited"@,
        Outcome::Invalid => "invalid"@,
        Outcome::Replay => "replay"@,
        Outcome::Error => "error"@,
    }
}

impl Outcome {
    /// Stable string label for metric dimensions.
    pub fn label(self) -> (r: &'static str)
        ensures
            r@ == outcome_label(self),
    {
        match self {
            Outcome::Success => "success",
            Outcome::Miss => "miss",
            Outcome::RateLimited => "rate_limited",
            Outcome::Invalid => "invalid",
            Outcome::Replay => "replay",
            Outcome::Error => "error",
        }
    }
}

/// Optional observability sink for counters. Must not block; must not put
/// sensitive or high-cardinality values in labels.
pub trait MetricsObserver {
    /// Increment `counter` by one, optionally tagged with `outcome`. Counter
    /// names should come from [`counter`].
    fn increment(&self, counter: &'static str, outcome: Option<Outcome>);
}

/// A metrics observer that does nothing.
#[derive(Debug, Default, Clone, Copy)]
pub struct NoopMetrics;

impl MetricsObserver for NoopMetrics {
    fn increment(&self, counter: &'static str, outcome: Option<Outcome>) {
    }
}

/// How many captured records name `counter`.
pub open spec fn count_of(records: Seq<(&'static str, Option<Outcome>)>, counter: Seq<char>) -> nat
    decreases records.len(),
{
    if records.len() == 0 {
        0
    } else {
        count_of(records.drop_last(), counter) + if records.last().0@ == counter {
            1nat
        } else {
            0nat
        }
    }
}

/// A metrics observer that records increments in order, for inspection in
/// tests. Recording takes `&mut self`; a host that needs a shared observer
/// wraps it.
#[derive(Debug, Default)]
pub struct CapturingMetrics {
    records: Vec<(&'static str, Option<Outcome>)>,
}

impl CapturingMetrics {
    /// The captured `(counter, outcome)` pairs, oldest first.
    pub closed spec fn records(&self) -> Seq<(&'static str, Option<Outcome>)> {
        self.records@
    }

    /// An empty capturing observer.
    pub fn new() -> (r: Self)
        ensures
            r.records().len() == 0,
    {
        CapturingMetrics { records: Vec::new() }
    }

    /// Record one increment.
    pub fn increment(&mut self, counter: &'static str, outcome: Option<Outcome>)
        ensures
            final(self).records() == old(self).records().push((counter, outcome)),
    {
        self.records.push((counter, outcome));
    }

    /// Return and clear every captured pair, oldest first.
    pub fn drain(&mut self) -> (r: Vec<(&'static str, Option<Outcome>)>)
        ensures
            r@ == old(self).records(),
            final(self).records().len() == 0,
    {
        let mut out: Vec<(&'static str, Option<Outcome>)> = Vec::new();
        std::mem::swap(&mut out, &mut self.records);
        out
    }

    /// How many times `counter` was incremented.
    pub fn count(&self, counter: &str) -> (r: usize)
        ensures
            r == count_of(self.records(), counter@),
    {
        let n = self.records.len();
        let mut c: usize = 0;
        let mut i: usize = 0;
        while i < n
            invariant
                n == self.records@.len(),
                i <= n,
                c == count_of(self.records@.take(i as int), counter@),
                c <= i,
            decreases n - i,
        {
            assert(self.records@.take(i + 1).drop_last() == self.records@.take(i as int));
            if str_eq(self.records[i].0, counter) {
                c = c + 1;
            }
            i = i + 1;
        }
        assert(self.records@.take(n as int) == self.records@);
        c
    }
}

} // verus!
