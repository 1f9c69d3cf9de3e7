//! Time abstraction. Every expiry check reads time through [`Clock`], so the
//! logic can be exercised at a fixed time. Times are Unix seconds (UTC).

use vstd::prelude::*;
use std::cell::Cell;
use std::rc::Rc;
use std::time::{SystemTime, UNIX_EPOCH};
use crate::store::code::expiry_after;

verus! {

/// A source of wall-clock time in seconds since the Unix epoch (UTC).
/// Implementations must be infallible and non-decreasing in production.
pub trait Clock {
    /// Current time as seconds since the Unix epoch (UTC).
    fn unix_now(&self) -> u64;

    /// The current time plus `offset_secs`, saturating at `u64::MAX`.
    fn unix_now_plus(&self, offset_secs: u64) -> (r: u64)
        ensures
            exists|t: u64| r == expiry_after(t, offset_secs),
    {
        let t = self.unix_now();
        let r = t.saturating_add(offset_secs);
        assert(r == expiry_after(t, offset_secs));
        r
    }
}

/// Reads the system clock as whole seconds since the Unix epoch with
/// `SystemTime::now().duration_since(UNIX_EPOCH)`; `None` when the system
/// clock is set before the epoch. Nothing is claimed of the value: it is the
/// machine's time.
#[verifier::external_body]
fn system_unix_secs() -> Option<u64> {
    match SystemTime::now().duration_since(UNIX_EPOCH) {
        Ok(d) => Some(d.as_secs()),
        Err(_) => None,
    }
}

/// Production clock backed by the system time.
#[derive(Debug, Default, Clone, Copy)]
pub struct SystemClock;

impl SystemClock {
    /// Construct the system clock.
    pub fn new() -> (r: Self) {
        SystemClock
    }
}

impl Clock for SystemClock {
    /// The system time in seconds, or 0 if the system clock reads before the
    /// Unix epoch.
    fn unix_now(&self) -> u64 {
        match system_unix_secs() {
            Some(t) => t,
            None => 0,
        }
    }
}

/// A clock pinned to one instant. For tests of expiry boundaries.
#[derive(Debug, Clone, Copy)]
pub struct FixedClock(pub u64);

impl FixedClock {
    /// A clock pinned to `unix_secs`.
    pub fn at(unix_secs: u64) -> (r: Self)
        ensures
            r.0 == unix_secs,
    {
        FixedClock(unix_secs)
    }

    /// A new fixed clock `secs` later, saturating at `u64::MAX`.
    pub fn advance(self, secs: u64) -> (r: Self)
        ensures
            r.0 == expiry_after(self.0, secs),
    {
        FixedClock(self.0.saturating_add(secs))
    }
}

impl Clock for FixedClock {
    fn unix_now(&self) -> (r: u64)
        ensures
            r == self.0,
    {
        self.0
    }
}

#[verifier::external_type_specification]
#[verifier::external_body]
#[verifier::reject_recursive_types(T)]
pub struct ExCell<T: ?Sized>(Cell<T>);

/// Creates a cell with `Cell::new`. Nothing is claimed: a cell's contents can
/// change behind a shared reference, so they are not part of its value here.
#[verifier::external_body]
fn cell_new(v: u64) -> Cell<u64> {
    Cell::new(v)
}

/// Reads a cell with `Cell::get`. Nothing is claimed of the value.
#[verifier::external_body]
fn cell_get(c: &Cell<u64>) -> u64 {
    c.get()
}

/// Writes a cell with `Cell::set`.
#[verifier::external_body]
fn cell_set(c: &Cell<u64>, v: u64) {
    c.set(v)
}

/// A clock whose time can be set or advanced in place through a shared
/// handle, so a long-lived component observes time passing across calls.
/// For tests. Clones share the same time.
#[derive(Debug)]
pub struct MutableClock(Rc<Cell<u64>>);

impl Clone for MutableClock {
    /// A handle sharing the same time.
    fn clone(&self) -> (r: Self) {
        MutableClock(Rc::clone(&self.0))
    }
}

impl MutableClock {
    /// A clock starting at `unix_secs`.
    pub fn at(unix_secs: u64) -> (r: Self) {
        MutableClock(Rc::new(cell_new(unix_secs)))
    }

    /// Set the clock to `unix_secs`.
    pub fn set(&self, unix_secs: u64) {
        cell_set(&self.0, unix_secs)
    }

    /// Advance the clock by `secs`, saturating at `u64::MAX`.
    pub fn advance(&self, secs: u64) {
        let t = cell_get(&self.0);
        cell_set(&self.0, t.saturating_add(secs))
    }
}

impl Clock for MutableClock {
    fn unix_now(&self) -> u64 {
        cell_get(&self.0)
    }
}

} // verus!
