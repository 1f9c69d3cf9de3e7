//! Code-lookup state machine: what a looked-up code record's state fields
//! mean. Stores look records up; this module adjudicates.

use vstd::prelude::*;

verus! {

/// The current state of a looked-up code record.
#[derive(Debug, Clone, Copy, PartialEq, Eq, Structural)]
pub enum CodeLookupOutcome {
    /// Available to claim (the atomic claim remains the enforcement point).
    Redeemable,
    /// Explicitly revoked.
    Revoked,
    /// Absolute expiry has passed.
    Expired,
    /// Already claimed.
    Used,
}

/// The classification of a code record, in the fixed decision order:
/// revoked, then expired, then used, then redeemable.
pub open spec fn code_lookup_outcome(revoked_at: Option<u64>, used_at: Option<u64>, expires_at: u64, now: u64) -> CodeLookupOutcome {
    if revoked_at is Some {
        CodeLookupOutcome::Revoked
    } else if expires_at <= now {
        CodeLookupOutcome::Expired
    } else if used_at is Some {
        CodeLookupOutcome::Used
    } else {
        CodeLookupOutcome::Redeemable
    }
}

/// Classify a looked-up code record's redeemability from its state fields.
/// A record can meet several conditions at once; revoked is reported first
/// because it is the only state an operator caused deliberately.
pub fn classify_code_lookup(revoked_at: Option<u64>, used_at: Option<u64>, expires_at: u64, now: u64) -> (r:
    CodeLookupOutcome)
    ensures
        r == code_lookup_outcome(revoked_at, used_at, expires_at, now),
        r == CodeLookupOutcome::Redeemable <==> (revoked_at is None && used_at is None && expires_at
            > now),
{
    if revoked_at.is_some() {
        CodeLookupOutcome::Revoked
    } else if expires_at <= now {
        CodeLookupOutcome::Expired
    } else if used_at.is_some() {
        CodeLookupOutcome::Used
    } else {
        CodeLookupOutcome::Redeemable
    }
}

} // verus!
