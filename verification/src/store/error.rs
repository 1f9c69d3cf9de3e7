//! Public-safe and internal store error types.

use vstd::prelude::*;
use crate::text::push_str;

verus! {

/// The single public authentication failure response. Every internal failure
/// state collapses to `InvalidOrExpired`, so callers cannot distinguish
/// record existence from expiry from prior use.
#[derive(Debug, Clone, Copy, PartialEq, Eq, Structural)]
pub enum PublicAuthError {
    /// The credential was not accepted; the reason is intentionally omitted.
    InvalidOrExpired,
    /// A transient storage failure prevented the operation.
    TemporaryProblem,
}

/// Internal store failure, not for public display.
#[derive(Debug)]
pub enum StoreError {
    /// The underlying store returned an error.
    Backend(String),
    /// A storage invariant was violated (e.g. more than one row changed).
    InvariantViolation(String),
}

/// The diagnostic rendering of a store failure.
pub open spec fn store_error_text(e: StoreError) -> Seq<char> {
    match e {
        StoreError::Backend(m) => "store error: "@ + m@,
        StoreError::InvariantViolation(m) => "store invariant violated: "@ + m@,
    }
}

impl StoreError {
    /// The diagnostic rendering: `store error: ...` or
    /// `store invariant violated: ...`.
    pub fn display_text(&self) -> (r: String)
        ensures
            r@ == store_error_text(*self),
    {
        match self {
            StoreError::Backend(m) => {
                let mut s = "store error: ".to_owned();
                push_str(&mut s, m.as_str());
                s
            },
            StoreError::InvariantViolation(m) => {
                let mut s = "store invariant violated: ".to_owned();
                push_str(&mut s, m.as_str());
                s
            },
        }
    }
}

} // verus!
