//! Typed errors and outcomes of the orchestration layer.
//!
//! Every failure carries its internal cause (for logs and metrics) beside its
//! public-safe mapping. Only the public part may reach end users.

use vstd::prelude::*;
use crate::error::{
    KeyError, PublicFormError, PublicRedemptionError, PublicSessionError, RedemptionFailReason,
    key_error_message,
};
use crate::secret::{SessionId, SubjectId};
use crate::state::claim::ClaimOutcome;
use crate::store::error::{StoreError, store_error_text};
use crate::text::{opt_view, push_str};

verus! {

/// Why a code redemption flow failed.
#[derive(Debug)]
pub enum RedeemError {
    /// Input validation or normalization failed before any store access.
    InvalidInput {
        /// Internal reason (log, do not display).
        reason: RedemptionFailReason,
        /// Public-safe mapping.
        public: PublicRedemptionError,
    },
    /// Rate-limit threshold exceeded before lookup.
    RateLimited {
        /// Public-safe mapping.
        public: PublicRedemptionError,
    },
    /// No redeemable record found, or the record was expired, used or revoked.
    NotRedeemable {
        /// Internal reason (log, do not display).
        reason: RedemptionFailReason,
        /// Public-safe mapping (always `InvalidOrExpired`).
        public: PublicRedemptionError,
    },
    /// The atomic claim was lost to a concurrent caller.
    ClaimLost {
        /// Public-safe mapping.
        public: PublicRedemptionError,
    },
    /// A transient store, key or randomness failure prevented the operation.
    Internal {
        /// Internal diagnostic (log, do not display).
        cause: String,
        /// Public-safe mapping.
        public: PublicRedemptionError,
    },
}

/// The public part of a redemption error.
pub open spec fn redeem_public(e: RedeemError) -> PublicRedemptionError {
    match e {
        RedeemError::InvalidInput { public, .. } => public,
        RedeemError::RateLimited { public } => public,
        RedeemError::NotRedeemable { public, .. } => public,
        RedeemError::ClaimLost { public } => public,
        RedeemError::Internal { public, .. } => public,
    }
}

/// Whether `e` is the internal error with diagnostic `cause` and the
/// temporarily-unavailable public mapping.
pub open spec fn is_internal_redeem(e: RedeemError, cause: Seq<char>) -> bool {
    e matches RedeemError::Internal { cause: c, public } && c@ == cause && public
        == PublicRedemptionError::TemporarilyUnavailable
}

impl RedeemError {
    /// The public-safe error to return to callers.
    pub fn public(&self) -> (r: &PublicRedemptionError)
        ensures
            *r == redeem_public(*self),
    {
        match self {
            RedeemError::InvalidInput { public, .. } => public,
            RedeemError::RateLimited { public } => public,
            RedeemError::NotRedeemable { public, .. } => public,
            RedeemError::ClaimLost { public } => public,
            RedeemError::Internal { public, .. } => public,
        }
    }

    /// The user-facing rendering: the public message only, never the cause.
    pub fn display_text(&self) -> (r: &'static str)
        ensures
            r@ == match redeem_public(*self) {
                PublicRedemptionError::InvalidOrExpired => "invalid or expired code"@,
                PublicRedemptionError::RateLimited => "too many attempts \u{2014} please wait and try again"@,
                PublicRedemptionError::TemporarilyUnavailable => "service temporarily unavailable"@,
            },
    {
        self.public().message()
    }

    /// The internal error for a store failure.
    pub fn from_store(e: StoreError) -> (r: Self)
        ensures
            is_internal_redeem(r, store_error_text(e)),
    {
        RedeemError::Internal {
            cause: e.display_text(),
            public: PublicRedemptionError::TemporarilyUnavailable,
        }
    }

    /// The internal error for a key failure.
    pub fn from_key(e: KeyError) -> (r: Self)
        ensures
            is_internal_redeem(r, "key error: "@ + key_error_message(e)),
    {
        let mut cause = "key error: ".to_owned();
        push_str(&mut cause, e.message());
        RedeemError::Internal { cause, public: PublicRedemptionError::TemporarilyUnavailable }
    }
}

/// Proof that an atomic claim was won. Only [`ClaimProof::new`] makes one,
/// and only from [`ClaimOutcome::Won`].
#[derive(Debug)]
pub struct ClaimProof {
    won: (),
}

impl ClaimProof {
    /// A proof for a won claim; none for a lost one.
    pub(crate) fn new(outcome: ClaimOutcome) -> (r: Option<Self>)
        ensures
            r is Some <==> outcome == ClaimOutcome::Won,
    {
        match outcome {
            ClaimOutcome::Won => Some(ClaimProof { won: () }),
            ClaimOutcome::Lost => None,
        }
    }
}

/// A completed code redemption. It carries a [`ClaimProof`], so it exists only
/// after a won claim; a session can only be issued from one.
#[derive(Debug)]
pub struct RedeemSuccess {
    /// The authenticated subject.
    pub subject: SubjectId,
    /// Opaque grant payload of the code record.
    pub grant: Option<String>,
    /// The won claim this redemption rests on.
    pub(crate) claim_proof: ClaimProof,
}

impl RedeemSuccess {
    /// The authenticated subject, as the contracts see it.
    pub closed spec fn subject_view(&self) -> Seq<char> {
        self.subject@
    }

    /// The grant payload, as the contracts see it.
    pub closed spec fn grant_view(&self) -> Option<Seq<char>> {
        opt_view(self.grant)
    }

    /// A success for a won claim.
    pub(crate) fn new(subject: SubjectId, grant: Option<String>, claim_proof: ClaimProof) -> (r: Self)
        ensures
            r.subject_view() == subject@,
            r.grant_view() == opt_view(grant),
    {
        RedeemSuccess { subject, grant, claim_proof }
    }

    /// The authenticated subject.
    pub fn subject(&self) -> (r: &SubjectId)
        ensures
            r@ == self.subject_view(),
    {
        &self.subject
    }
}

/// Why a session operation failed.
#[derive(Debug)]
pub enum SessionError {
    /// No valid session matched the bearer credential.
    NotFound {
        /// Public-safe mapping.
        public: PublicSessionError,
    },
    /// Transient store, key or randomness failure.
    Internal {
        /// Internal diagnostic (log, do not display).
        cause: String,
        /// Public-safe mapping.
        public: PublicSessionError,
    },
}

/// The public part of a session error.
pub open spec fn session_public(e: SessionError) -> PublicSessionError {
    match e {
        SessionError::NotFound { public } => public,
        SessionError::Internal { public, .. } => public,
    }
}

/// Whether `e` is the internal error with diagnostic `cause` and the
/// temporarily-unavailable public mapping.
pub open spec fn is_internal_session(e: SessionError, cause: Seq<char>) -> bool {
    e matches SessionError::Internal { cause: c, public } && c@ == cause && public
        == PublicSessionError::TemporarilyUnavailable
}

impl SessionError {
    /// The public-safe error.
    pub fn public(&self) -> (r: &PublicSessionError)
        ensures
            *r == session_public(*self),
    {
        match self {
            SessionError::NotFound { public } => public,
            SessionError::Internal { public, .. } => public,
        }
    }

    /// The user-facing rendering: the public message only.
    pub fn display_text(&self) -> (r: &'static str)
        ensures
            r@ == match session_public(*self) {
                PublicSessionError::MissingOrExpired => "session missing or expired \u{2014} please sign in again"@,
                PublicSessionError::TemporarilyUnavailable => "service temporarily unavailable"@,
            },
    {
        self.public().message()
    }

    /// The internal error for a store failure.
    pub fn from_store(e: StoreError) -> (r: Self)
        ensures
            is_internal_session(r, store_error_text(e)),
    {
        SessionError::Internal {
            cause: e.display_text(),
            public: PublicSessionError::TemporarilyUnavailable,
        }
    }

    /// The internal error for a key failure.
    pub fn from_key(e: KeyError) -> (r: Self)
        ensures
            is_internal_session(r, "key error: "@ + key_error_message(e)),
    {
        let mut cause = "key error: ".to_owned();
        push_str(&mut cause, e.message());
        SessionError::Internal { cause, public: PublicSessionError::TemporarilyUnavailable }
    }
}

/// A successfully issued session.
#[derive(Debug)]
pub struct IssuedSession {
    /// The opaque session record identifier. Not a bearer credential.
    pub session_id: SessionId,
    /// The `Set-Cookie` header value for the client. Contains the plaintext
    /// bearer secret; must not be logged.
    pub set_cookie: String,
}

/// Why a form-token operation failed.
#[derive(Debug)]
pub enum FormTokenError {
    /// Token invalid, expired, or binding mismatch.
    Invalid {
        /// Public-safe mapping.
        public: PublicFormError,
    },
    /// Transient store or key failure.
    Internal {
        /// Internal diagnostic (log, do not display).
        cause: String,
        /// Public-safe mapping.
        public: PublicFormError,
    },
}

/// The public part of a form-token error.
pub open spec fn form_public(e: FormTokenError) -> PublicFormError {
    match e {
        FormTokenError::Invalid { public } => public,
        FormTokenError::Internal { public, .. } => public,
    }
}

/// Whether `e` is the internal error with diagnostic `cause` and the
/// temporarily-unavailable public mapping.
pub open spec fn is_internal_form(e: FormTokenError, cause: Seq<char>) -> bool {
    e matches FormTokenError::Internal { cause: c, public } && c@ == cause && public
        == PublicFormError::TemporarilyUnavailable
}

impl FormTokenError {
    /// The public-safe error.
    pub fn public(&self) -> (r: &PublicFormError)
        ensures
            *r == form_public(*self),
    {
        match self {
            FormTokenError::Invalid { public } => public,
            FormTokenError::Internal { public, .. } => public,
        }
    }

    /// The user-facing rendering: the public message only.
    pub fn display_text(&self) -> (r: &'static str)
        ensures
            r@ == match form_public(*self) {
                PublicFormError::ExpiredOrInvalid => "form expired or invalid \u{2014} please reload the page and try again"@,
                PublicFormError::TemporarilyUnavailable => "service temporarily unavailable"@,
            },
    {
        self.public().message()
    }

    /// The internal error for a store failure.
    pub fn from_store(e: StoreError) -> (r: Self)
        ensures
            is_internal_form(r, store_error_text(e)),
    {
        FormTokenError::Internal { cause: e.display_text(), public: PublicFormError::TemporarilyUnavailable }
    }

    /// The internal error for a key failure.
    pub fn from_key(e: KeyError) -> (r: Self)
        ensures
            is_internal_form(r, "key error: "@ + key_error_message(e)),
    {
        let mut cause = "key error: ".to_owned();
        push_str(&mut cause, e.message());
        FormTokenError::Internal { cause, public: PublicFormError::TemporarilyUnavailable }
    }
}

} // verus!
