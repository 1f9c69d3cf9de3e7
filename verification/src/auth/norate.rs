//! The no-op rate limiter, for hosts that rate-limit elsewhere.

use vstd::prelude::*;

verus! {

/// A rate limiter that never limits: with it, checks always allow and
/// failures are never counted. Used as the rate-limit store of a
/// [`CodeAuth`](super::code::CodeAuth) built without rate limiting.
#[derive(Debug, Default, Clone, Copy)]
pub struct NoRateLimit;

} // verus!
