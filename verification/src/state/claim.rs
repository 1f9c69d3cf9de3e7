//! Code-claim state machine: classify an atomic conditional claim from the
//! number of rows it changed.

use vstd::prelude::*;

verus! {

/// Outcome of a claim attempt. Only `Won` may advance to session creation or
/// any other side effect; `Lost` is definitive.
#[derive(Debug, Clone, Copy, PartialEq, Eq, Structural)]
pub enum ClaimOutcome {
    /// This caller won the atomic race: exactly one row changed.
    Won,
    /// No row changed (already claimed, revoked, or expired): do not proceed.
    Lost,
}

/// Classify an atomic claim attempt from the affected-row count.
///
/// Exactly one changed row wins. Zero is a lost race; more than one is a
/// storage invariant violation and is classified `Lost` conservatively, so
/// even a misbehaving store cannot produce a win.
pub fn classify_claim(changed: usize) -> (r: ClaimOutcome)
    ensures
        r == ClaimOutcome::Won <==> changed == 1,
        r == ClaimOutcome::Lost <==> changed != 1,
{
    if changed == 1 {
        ClaimOutcome::Won
    } else {
        ClaimOutcome::Lost
    }
}

} // verus!
