//! Pure, storage-free state machines: given what a store reported, classify
//! what it means. No input/output happens here.

pub mod claim;
pub mod code;
pub mod session;
pub mod token;

pub use claim::{ClaimOutcome, classify_claim};
pub use code::{CodeLookupOutcome, classify_code_lookup};
pub use session::{SessionFailure, SessionValidationOutcome, classify_session};
pub use token::{TokenConsumeOutcome, classify_token_consume};
