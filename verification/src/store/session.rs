//! Session records as stores hold and return them.

use vstd::prelude::*;
use crate::hashing::{KeyVersion, LookupKey};
use crate::secret::{SessionId, SubjectId};

verus! {

/// A session record returned by a lookup, with the state fields validation
/// classifies. All times are Unix seconds (UTC).
#[derive(Debug)]
pub struct ActiveSessionRecord {
    /// Opaque session record identifier (not a bearer credential).
    pub id: SessionId,
    /// The subject this session authenticates.
    pub subject: SubjectId,
    /// Creation time; the idle-timeout fallback when never touched.
    pub created_at: u64,
    /// Absolute expiry.
    pub expires_at: u64,
    /// Last-touched time, or `None` if never touched (read as `created_at`).
    pub last_seen_at: Option<u64>,
    /// Revocation time, if the session was revoked.
    pub revoked_at: Option<u64>,
}

impl Clone for ActiveSessionRecord {
    fn clone(&self) -> (r: Self)
        ensures
            r.id@ == self.id@,
            r.subject@ == self.subject@,
            r.created_at == self.created_at,
            r.expires_at == self.expires_at,
            r.last_seen_at == self.last_seen_at,
            r.revoked_at == self.revoked_at,
    {
        ActiveSessionRecord {
            id: self.id.clone(),
            subject: self.subject.clone(),
            created_at: self.created_at,
            expires_at: self.expires_at,
            last_seen_at: self.last_seen_at,
            revoked_at: self.revoked_at,
        }
    }
}

/// Parameters for inserting a new session.
#[derive(Debug)]
pub struct SessionRecord {
    /// Store-assigned identifier.
    pub id: SessionId,
    /// Domain-separated lookup key of the session secret.
    pub lookup_key: LookupKey,
    /// Key version that produced `lookup_key`.
    pub key_version: KeyVersion,
    /// The authenticated subject.
    pub subject: SubjectId,
    /// Creation time, Unix seconds (UTC).
    pub created_at: u64,
    /// Expiry, Unix seconds (UTC).
    pub expires_at: u64,
}

} // verus!
