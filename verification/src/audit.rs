//! Security audit events and the sink that receives them.
//!
//! Every event is redacted by construction: no plaintext code, token, session
//! secret, lookup key, key bytes or raw IP address appears in any variant.
//! The host maps events into its own audit schema or logging backend.

use vstd::prelude::*;
use crate::error::RedemptionFailReason;
use crate::hashing::KeyVersion;
use crate::secret::{CodeId, SessionId, SubjectId};

verus! {

/// A notable security event. Event keys follow `noun.verb.outcome`.
#[derive(Debug, PartialEq, Eq)]
#[non_exhaustive]
pub enum CodeAuthEvent {
    /// A code was issued and its record inserted (`code.issue.succeeded`).
    CodeIssued {
        /// Opaque record ID.
        code_id: CodeId,
        /// Optional host-provided purpose label.
        purpose: Option<String>,
    },
    /// A code was claimed by the atomic winner (`code.redeem.succeeded`).
    CodeRedeemed {
        /// The claimed record.
        code_id: CodeId,
        /// The claiming subject.
        subject_id: SubjectId,
    },
    /// A code redemption attempt failed (`code.redeem.failed`).
    RedemptionFailed {
        /// Internal classification (safe for logs, not for users).
        reason: RedemptionFailReason,
    },
    /// A code was administratively revoked (`code.revoke.succeeded`).
    CodeRevoked {
        /// The revoked record.
        code_id: CodeId,
        /// The scope the revocation was restricted to, if any.
        scope: Option<String>,
    },
    /// A session was issued (`session.issue.succeeded`).
    SessionIssued {
        /// Opaque session record ID.
        session_id: SessionId,
        /// The authenticated subject.
        subject_id: SubjectId,
    },
    /// A session validation attempt found no valid session
    /// (`session.validate.failed`). Not emitted for requests without a cookie.
    SessionValidateFailed,
    /// A session was revoked (`session.revoke.succeeded`).
    SessionRevoked {
        /// The revoked session record ID.
        session_id: SessionId,
    },
    /// Recording a session's last use failed; the session stayed valid
    /// (`session.touch.failed`).
    SessionTouchFailed {
        /// The session whose touch failed.
        session_id: SessionId,
    },
    /// A form-token consume was an idempotent replay
    /// (`form_token.consume.replay`).
    FormTokenReplay {
        /// The purpose label of the replayed token.
        purpose: String,
    },
    /// A rate-limit threshold was exceeded (`rate_limit.blocked`).
    RateLimitHit {
        /// A privacy-safe fingerprint of the rate-limit key.
        key_fingerprint: String,
        /// The purpose or action class that was limited.
        purpose: Option<String>,
    },
    /// A key version was requested but not held
    /// (`key_provider.missing_version`).
    KeyVersionMissing {
        /// The requested version label.
        version: KeyVersion,
    },
}

/// The stable event key of an event.
pub open spec fn event_key(e: CodeAuthEvent) -> Seq<char> {
    match e {
        CodeAuthEvent::CodeIssued { .. } => "code.issue.succeeded"@,
        CodeAuthEvent::CodeRedeemed { .. } => "code.redeem.succeeded"@,
        CodeAuthEvent::RedemptionFailed { .. } => "code.redeem.failed"@,
        CodeAuthEvent::CodeRevoked { .. } => "code.revoke.succeeded"@,
        CodeAuthEvent::SessionIssued { .. } => "session.issue.succeeded"@,
        CodeAuthEvent::SessionValidateFailed => "session.validate.failed"@,
        CodeAuthEvent::SessionRevoked { .. } => "session.revoke.succeeded"@,
        CodeAuthEvent::SessionTouchFailed { .. } => "session.touch.failed"@,
        CodeAuthEvent::FormTokenReplay { .. } => "form_token.consume.replay"@,
        CodeAuthEvent::RateLimitHit { .. } => "rate_limit.blocked"@,
        CodeAuthEvent::KeyVersionMissing { .. } => "key_provider.missing_version"@,
    }
}

impl CodeAuthEvent {
    /// A stable, machine-readable event key, suitable for structured logs,
    /// metric labels and audit schemas.
    pub fn key(&self) -> (r: &'static str)
        ensures
            r@ == event_key(*self),
    {
        match self {
            CodeAuthEvent::CodeIssued { .. } => "code.issue.succeeded",
            CodeAuthEvent::CodeRedeemed { .. } => "code.redeem.succeeded",
            CodeAuthEvent::RedemptionFailed { .. } => "code.redeem.failed",
            CodeAuthEvent::CodeRevoked { .. } => "code.revoke.succeeded",
            CodeAuthEvent::SessionIssued { .. } => "session.issue.succeeded",
            CodeAuthEvent::SessionValidateFailed => "session.validate.failed",
            CodeAuthEvent::SessionRevoked { .. } => "session.revoke.succeeded",
            CodeAuthEvent::SessionTouchFailed { .. } => "session.touch.failed",
            CodeAuthEvent::FormTokenReplay { .. } => "form_token.consume.replay",
            CodeAuthEvent::RateLimitHit { .. } => "rate_limit.blocked",
            CodeAuthEvent::KeyVersionMissing { .. } => "key_provider.missing_version",
        }
    }
}

/// A recipient of security audit events. Called synchronously in the hot
/// path with fire-and-forget semantics; implementations must return quickly
/// and must not extract secrets from event fields.
pub trait AuditSink {
    /// Receive a security event.
    fn record(&self, event: CodeAuthEvent);
}

/// An audit sink that discards every event.
#[derive(Debug, Default, Clone, Copy)]
pub struct NoopAuditSink;

impl AuditSink for NoopAuditSink {
    fn record(&self, event: CodeAuthEvent) {
    }
}

/// An audit sink that accumulates events in order, for inspection in tests.
/// Recording takes `&mut self`; a host that needs a shared sink wraps it.
#[derive(Debug, Default)]
pub struct CollectingAuditSink {
    events: Vec<CodeAuthEvent>,
}

impl CollectingAuditSink {
    /// The events collected so far, oldest first.
    pub closed spec fn events(&self) -> Seq<CodeAuthEvent> {
        self.events@
    }

    /// An empty collecting sink.
    pub fn new() -> (r: Self)
        ensures
            r.events() == Seq::<CodeAuthEvent>::empty(),
    {
        CollectingAuditSink { events: Vec::new() }
    }

    /// Append an event.
    pub fn record(&mut self, event: CodeAuthEvent)
        ensures
            final(self).events() == old(self).events().push(event),
    {
        self.events.push(event);
    }

    /// Drain and return every collected event, oldest first.
    pub fn drain(&mut self) -> (r: Vec<CodeAuthEvent>)
        ensures
            r@ == old(self).events(),
            final(self).events() == Seq::<CodeAuthEvent>::empty(),
    {
        let mut out: Vec<CodeAuthEvent> = Vec::new();
        std::mem::swap(&mut out, &mut self.events);
        out
    }

    /// Number of events collected so far.
    pub fn len(&self) -> (r: usize)
        ensures
            r == self.events().len(),
    {
        self.events.len()
    }

    /// Whether no event has been collected.
    pub fn is_empty(&self) -> (r: bool)
        ensures
            r == (self.events().len() == 0),
    {
        self.events.len() == 0
    }
}

} // verus!
