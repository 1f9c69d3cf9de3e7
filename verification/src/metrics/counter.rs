//! Recommended counter names, following `codlet_<noun>_<verb>_total`.

use vstd::prelude::*;

verus! {

/// A one-time code was issued.
pub const CODE_ISSUED: &'static str = "codlet_code_issue_total";

/// A code redemption was attempted (normalized and looked up).
pub const CODE_REDEEM_ATTEMPT: &'static str = "codlet_code_redeem_attempt_total";

/// The atomic claim succeeded (exactly one winner).
pub const CODE_CLAIM_WON: &'static str = "codlet_code_claim_won_total";

/// The atomic claim was lost to a concurrent caller.
pub const CODE_CLAIM_LOST: &'static str = "codlet_code_claim_lost_total";

/// A form-token consume completed (the outcome distinguishes results).
pub const FORM_TOKEN_CONSUME: &'static str = "codlet_form_token_consume_total";

/// A session was issued.
pub const SESSION_ISSUED: &'static str = "codlet_session_issue_total";

/// A session validation attempt completed.
pub const SESSION_VALIDATE: &'static str = "codlet_session_validate_total";

/// A rate-limit check blocked an operation.
pub const RATE_LIMIT_BLOCKED: &'static str = "codlet_rate_limit_block_total";

} // verus!
