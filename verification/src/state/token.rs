//! Form-token consume state machine: classify an atomic consume attempt from
//! the conditional update's row count and a follow-up read.

use vstd::prelude::*;

verus! {

/// Outcome of a single-use form-token consume attempt.
#[derive(Debug, Clone, Copy, PartialEq, Eq, Structural)]
pub enum TokenConsumeOutcome {
    /// This call won the atomic race: execute the operation.
    Proceed,
    /// Already consumed: an idempotent replay; do not re-execute.
    Replay,
    /// Not found, expired, or binding mismatch: reject the request.
    Invalid,
}

/// The classification of a consume attempt.
pub open spec fn token_consume_outcome(changed: usize, found: bool, already_consumed: bool, binding_ok: bool) -> TokenConsumeOutcome {
    if changed == 1 {
        TokenConsumeOutcome::Proceed
    } else if !found || !binding_ok {
        TokenConsumeOutcome::Invalid
    } else if already_consumed {
        TokenConsumeOutcome::Replay
    } else {
        TokenConsumeOutcome::Invalid
    }
}

/// Classify a consume attempt. `changed` is the conditional update's row
/// count; when it is not one, `found`, `already_consumed` and `binding_ok`
/// come from the follow-up read. A consume that changed no row never
/// proceeds.
pub fn classify_token_consume(changed: usize, found: bool, already_consumed: bool, binding_ok: bool) -> (r:
    TokenConsumeOutcome)
    ensures
        r == token_consume_outcome(changed, found, already_consumed, binding_ok),
        r == TokenConsumeOutcome::Proceed <==> changed == 1,
        r == TokenConsumeOutcome::Replay <==> (changed != 1 && found && binding_ok && already_consumed),
{
    if changed == 1 {
        return TokenConsumeOutcome::Proceed;
    }
    if !found || !binding_ok {
        return TokenConsumeOutcome::Invalid;
    }
    if already_consumed {
        return TokenConsumeOutcome::Replay;
    }
    TokenConsumeOutcome::Invalid
}

} // verus!
