//! Session validation state machine: classify a looked-up session record
//! without any input/output.

use vstd::prelude::*;
use crate::secret::{SessionId, SubjectId};
use crate::store::session::ActiveSessionRecord;

verus! {

/// Why a session failed to validate.
///
/// For the host application only, never for end users: `NotFound` and
/// `Revoked` distinguish states an unauthenticated visitor must not learn.
/// There is no conversion from this type to the public session error.
#[derive(Debug, Clone, Copy, PartialEq, Eq, Structural)]
pub enum SessionFailure {
    /// No session cookie was presented.
    NoCookie,
    /// A cookie was presented but is not a well-formed session secret.
    Malformed,
    /// The cookie was well-formed but no matching record exists.
    NotFound,
    /// A matching record exists but its absolute expiry has passed.
    Expired,
    /// A matching record exists but its idle timeout has passed.
    IdleTimeout,
    /// A matching record exists but was explicitly revoked.
    Revoked,
}

/// The result of validating a session secret.
#[derive(Debug, PartialEq, Eq)]
pub enum SessionValidationOutcome {
    /// The session is valid. The host must still authorize the subject.
    Authenticated {
        /// The host-owned subject this session is bound to.
        subject: SubjectId,
        /// The opaque session record identifier.
        session_id: SessionId,
        /// Expiry as Unix seconds (UTC), for display or renewal decisions.
        expires_at: u64,
    },
    /// No valid session. `reason` is for the host only.
    Unauthenticated {
        /// Why validation failed.
        reason: SessionFailure,
    },
}

impl SessionValidationOutcome {
    /// Whether the outcome is `Authenticated`.
    pub fn is_authenticated(&self) -> (r: bool)
        ensures
            r == (*self is Authenticated),
    {
        match self {
            SessionValidationOutcome::Authenticated { .. } => true,
            SessionValidationOutcome::Unauthenticated { .. } => false,
        }
    }

    /// The authenticated subject, if any.
    pub fn subject(&self) -> (r: Option<&SubjectId>)
        ensures
            match *self {
                SessionValidationOutcome::Authenticated { subject, .. } => r matches Some(s) && s@
                    == subject@,
                SessionValidationOutcome::Unauthenticated { .. } => r is None,
            },
    {
        match self {
            SessionValidationOutcome::Authenticated { subject, .. } => Some(subject),
            SessionValidationOutcome::Unauthenticated { .. } => None,
        }
    }
}

/// `now - last_seen`, floored at zero.
pub open spec fn elapsed_since(now: u64, last_seen: u64) -> int {
    if now >= last_seen {
        now - last_seen
    } else {
        0
    }
}

/// The effective last-seen time of a record: `last_seen_at`, or `created_at`
/// if the session was never touched.
pub open spec fn effective_last_seen(r: ActiveSessionRecord) -> u64 {
    match r.last_seen_at {
        Some(t) => t,
        None => r.created_at,
    }
}

/// Why a looked-up record does not authenticate at `now`, if it does not.
/// Decision order: missing, revoked, expired, idle, authenticated.
pub open spec fn session_failure(record: Option<ActiveSessionRecord>, idle_timeout_secs: Option<u64>, now: u64) -> Option<SessionFailure> {
    match record {
        None => Some(SessionFailure::NotFound),
        Some(r) => if r.revoked_at is Some {
            Some(SessionFailure::Revoked)
        } else if r.expires_at <= now {
            Some(SessionFailure::Expired)
        } else if idle_timeout_secs matches Some(t) && elapsed_since(now, effective_last_seen(r)) >= t {
            Some(SessionFailure::IdleTimeout)
        } else {
            None
        },
    }
}

/// Classify a session lookup.
///
/// `record` is `None` when the store found no row for the lookup key. A
/// found record is checked for revocation, then absolute expiry, then (when
/// an idle timeout in seconds is configured) idle time since its effective
/// last-seen time.
pub fn classify_session(record: Option<ActiveSessionRecord>, idle_timeout_secs: Option<u64>, now: u64) -> (r:
    SessionValidationOutcome)
    ensures
        match session_failure(record, idle_timeout_secs, now) {
            Some(f) => r == (SessionValidationOutcome::Unauthenticated { reason: f }),
            None => record matches Some(rec) && r matches SessionValidationOutcome::Authenticated {
                subject,
                session_id,
                expires_at,
            } && subject@ == rec.subject@ && session_id@ == rec.id@ && expires_at == rec.expires_at,
        },
{
    match record {
        Some(r) => {
            if r.revoked_at.is_some() {
                return SessionValidationOutcome::Unauthenticated { reason: SessionFailure::Revoked };
            }
            if r.expires_at <= now {
                return SessionValidationOutcome::Unauthenticated { reason: SessionFailure::Expired };
            }
            if let Some(idle) = idle_timeout_secs {
                let last_seen = match r.last_seen_at {
                    Some(t) => t,
                    None => r.created_at,
                };
                if now.saturating_sub(last_seen) >= idle {
                    return SessionValidationOutcome::Unauthenticated {
                        reason: SessionFailure::IdleTimeout,
                    };
                }
            }
            SessionValidationOutcome::Authenticated {
                subject: r.subject,
                session_id: r.id,
                expires_at: r.expires_at,
            }
        },
        None => SessionValidationOutcome::Unauthenticated { reason: SessionFailure::NotFound },
    }
}

} // verus!
