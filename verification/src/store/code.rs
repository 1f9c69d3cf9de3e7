//! Code records as stores hold and return them, and the expiry arithmetic.

use vstd::prelude::*;
use crate::hashing::{KeyVersion, LookupKey};
use crate::secret::{CodeId, SubjectId};
use crate::text::{opt_view, clone_opt_string};

verus! {

/// Parameters for inserting a new code record.
#[derive(Debug)]
pub struct CodeRecord {
    /// Record identifier.
    pub id: CodeId,
    /// Domain-separated lookup key of the normalized code.
    pub lookup_key: LookupKey,
    /// Key version that produced `lookup_key`.
    pub key_version: KeyVersion,
    /// Optional host-owned purpose label.
    pub purpose: Option<String>,
    /// Optional host-owned scope.
    pub scope: Option<String>,
    /// Optional opaque grant payload, returned on redemption.
    pub grant: Option<String>,
    /// Creation time, Unix seconds (UTC).
    pub created_at: u64,
    /// Expiry, Unix seconds (UTC).
    pub expires_at: u64,
}

/// A code record found redeemable by a lookup.
#[derive(Debug)]
pub struct RedeemableCode {
    /// Record identifier.
    pub id: CodeId,
    /// Key version that produced the matching lookup key.
    pub key_version: KeyVersion,
    /// Opaque grant payload.
    pub grant: Option<String>,
    /// Purpose label, passed back to the claim for cross-flow isolation.
    pub purpose: Option<String>,
    /// Scope, passed back to the claim for cross-flow isolation.
    pub scope: Option<String>,
    /// Expiry, Unix seconds (UTC).
    pub expires_at: u64,
}

impl Clone for RedeemableCode {
    fn clone(&self) -> (r: Self)
        ensures
            r.id@ == self.id@,
            r.key_version@ == self.key_version@,
            opt_view(r.grant) == opt_view(self.grant),
            opt_view(r.purpose) == opt_view(self.purpose),
            opt_view(r.scope) == opt_view(self.scope),
            r.expires_at == self.expires_at,
    {
        RedeemableCode {
            id: self.id.clone(),
            key_version: self.key_version.clone(),
            grant: clone_opt_string(&self.grant),
            purpose: clone_opt_string(&self.purpose),
            scope: clone_opt_string(&self.scope),
            expires_at: self.expires_at,
        }
    }
}

/// An atomic claim request: claim `code_id` for `subject` at `now`, only if
/// unused, unrevoked, unexpired, and matching the given purpose and scope.
#[derive(Debug)]
pub struct ClaimRequest<'a> {
    /// The record to claim.
    pub code_id: &'a CodeId,
    /// The claiming subject.
    pub subject: &'a SubjectId,
    /// The claim time, Unix seconds (UTC).
    pub now: u64,
    /// Required purpose, if any.
    pub purpose: Option<&'a str>,
    /// Required scope, if any.
    pub scope: Option<&'a str>,
}

/// `now + ttl_secs`, saturating at `u64::MAX`.
pub open spec fn expiry_after(now: u64, ttl_secs: u64) -> u64 {
    if now + ttl_secs > u64::MAX {
        u64::MAX
    } else {
        (now + ttl_secs) as u64
    }
}

/// The expiry time of something created at `now` that lives `ttl_secs`
/// seconds; saturates instead of overflowing.
pub fn expires_at_from_ttl(now: u64, ttl_secs: u64) -> (r: u64)
    ensures
        r == expiry_after(now, ttl_secs),
{
    now.saturating_add(ttl_secs)
}

} // verus!
