//! Internal error types and the public, enumeration-resistant error layer.
//!
//! No variant carries a plaintext secret. Internal errors are for logs and
//! metrics; the public errors are what a host shows to end users.

use vstd::prelude::*;
use crate::text::{decimal, push_str, u64_to_decimal};

verus! {

/// Randomness could not be obtained. Generation fails closed on this error and
/// never substitutes a deterministic value.
#[derive(Debug, Clone, Copy, PartialEq, Eq, Structural)]
pub struct RandomError;

/// A key provider could not supply usable key material. Carries no key bytes;
/// there is no fallback key.
#[derive(Debug, Clone, Copy, PartialEq, Eq, Structural)]
pub enum KeyError {
    /// No active key is configured.
    MissingActiveKey,
    /// The requested historical key version is not available.
    MissingKeyVersion,
    /// Key material was present but unusable (e.g. empty).
    InvalidKeyMaterial,
}

/// A code policy or alphabet was requested with an impossible or unsafe shape.
#[derive(Debug, Clone, Copy, PartialEq, Eq, Structural)]
pub enum PolicyError {
    /// Alphabet has fewer than two symbols.
    AlphabetTooSmall,
    /// Alphabet contains a duplicate symbol, which would bias generation.
    AlphabetNotUnique,
    /// Alphabet contains a non-ASCII byte.
    AlphabetNotAscii,
    /// Requested code length is below the secure minimum.
    LengthBelowMinimum {
        /// Requested length.
        got: usize,
        /// Enforced minimum.
        min: usize,
    },
    /// Requested code length is zero (also reported for a zero TTL).
    ZeroLength,
}

/// Rejection of user-supplied code input during validation. All variants map
/// to the same public message; the distinction is for diagnostics only.
#[derive(Debug, Clone, Copy, PartialEq, Eq, Structural)]
pub enum CodeInputError {
    /// Input was empty (before or after normalization).
    Empty,
    /// Raw input exceeded the maximum accepted length before normalization.
    TooLongRaw,
    /// Normalized input length does not match the configured code length.
    WrongLength,
    /// Normalized input contains a character outside the policy alphabet.
    UnsupportedCharacters,
}

/// The diagnostic text of a randomness failure.
pub open spec fn random_error_message() -> Seq<char> {
    "secure randomness unavailable"@
}

impl RandomError {
    /// The diagnostic text.
    pub fn message(&self) -> (r: &'static str)
        ensures
            r@ == random_error_message(),
    {
        "secure randomness unavailable"
    }
}

/// The diagnostic text of a key failure.
pub open spec fn key_error_message(e: KeyError) -> Seq<char> {
    match e {
        KeyError::MissingActiveKey => "no active HMAC key configured"@,
        KeyError::MissingKeyVersion => "HMAC key version not available"@,
        KeyError::InvalidKeyMaterial => "HMAC key material is invalid"@,
    }
}

impl KeyError {
    /// The diagnostic text.
    pub fn message(&self) -> (r: &'static str)
        ensures
            r@ == key_error_message(*self),
    {
        match self {
            KeyError::MissingActiveKey => "no active HMAC key configured",
            KeyError::MissingKeyVersion => "HMAC key version not available",
            KeyError::InvalidKeyMaterial => "HMAC key material is invalid",
        }
    }
}

/// The diagnostic text of an input rejection.
pub open spec fn code_input_error_message(e: CodeInputError) -> Seq<char> {
    match e {
        CodeInputError::Empty => "code input is empty"@,
        CodeInputError::TooLongRaw => "code input exceeds maximum raw length"@,
        CodeInputError::WrongLength => "normalized code length does not match policy"@,
        CodeInputError::UnsupportedCharacters => "code input contains unsupported characters"@,
    }
}

impl CodeInputError {
    /// The diagnostic text.
    pub fn message(&self) -> (r: &'static str)
        ensures
            r@ == code_input_error_message(*self),
    {
        match self {
            CodeInputError::Empty => "code input is empty",
            CodeInputError::TooLongRaw => "code input exceeds maximum raw length",
            CodeInputError::WrongLength => "normalized code length does not match policy",
            CodeInputError::UnsupportedCharacters => "code input contains unsupported characters",
        }
    }
}

/// The diagnostic text of a policy rejection.
pub open spec fn policy_error_text(e: PolicyError) -> Seq<char> {
    match e {
        PolicyError::AlphabetTooSmall => "alphabet must contain at least 2 symbols"@,
        PolicyError::AlphabetNotUnique => "alphabet contains duplicate symbols"@,
        PolicyError::AlphabetNotAscii => "alphabet contains an unsupported (non-ASCII) symbol"@,
        PolicyError::LengthBelowMinimum { got, min } => "code length "@ + decimal(got as nat)
            + " is below the secure minimum of "@ + decimal(min as nat),
        PolicyError::ZeroLength => "code length must be non-zero"@,
    }
}

impl PolicyError {
    /// The diagnostic text.
    pub fn display_text(&self) -> (r: String)
        ensures
            r@ == policy_error_text(*self),
    {
        match self {
            PolicyError::AlphabetTooSmall => "alphabet must contain at least 2 symbols".to_owned(),
            PolicyError::AlphabetNotUnique => "alphabet contains duplicate symbols".to_owned(),
            PolicyError::AlphabetNotAscii => "alphabet contains an unsupported (non-ASCII) symbol".to_owned(),
            PolicyError::LengthBelowMinimum { got, min } => {
                let mut s = "code length ".to_owned();
                let g = u64_to_decimal(*got as u64);
                push_str(&mut s, g.as_str());
                push_str(&mut s, " is below the secure minimum of ");
                let m = u64_to_decimal(*min as u64);
                push_str(&mut s, m.as_str());
                s
            },
            PolicyError::ZeroLength => "code length must be non-zero".to_owned(),
        }
    }
}

/// Internal reason a code redemption failed. Never shown to the user.
#[derive(Debug, Clone, Copy, PartialEq, Eq, Structural)]
pub enum RedemptionFailReason {
    /// Code input was malformed.
    InvalidFormat,
    /// No redeemable record matched the lookup key(s).
    NotFound,
    /// A matching record exists but its expiry has passed.
    Expired,
    /// A matching record exists but was revoked.
    Revoked,
    /// A matching record exists but was already claimed.
    AlreadyUsed,
    /// The rate-limit threshold was exceeded before the lookup.
    RateLimited,
    /// The store could not be reached.
    StoreUnavailable,
    /// Key material was unavailable or invalid.
    KeyFailure,
}

/// Public-safe redemption failure. Every enumeration-sensitive reason collapses
/// to `InvalidOrExpired`.
#[derive(Debug, Clone, Copy, PartialEq, Eq, Structural)]
pub enum PublicRedemptionError {
    /// The code was not accepted. Reason intentionally omitted.
    InvalidOrExpired,
    /// The caller has exceeded the rate limit.
    RateLimited,
    /// A transient problem prevented the check. The code was not consumed.
    TemporarilyUnavailable,
}

/// Whether a failure reason reveals something about a code's existence or
/// state, and so must not be distinguishable by the public.
pub open spec fn is_enumeration_sensitive(reason: RedemptionFailReason) -> bool {
    match reason {
        RedemptionFailReason::InvalidFormat
        | RedemptionFailReason::NotFound
        | RedemptionFailReason::Expired
        | RedemptionFailReason::Revoked
        | RedemptionFailReason::AlreadyUsed => true,
        _ => false,
    }
}

/// The public mapping of an internal redemption failure reason.
pub open spec fn public_for_reason(reason: RedemptionFailReason) -> PublicRedemptionError {
    if is_enumeration_sensitive(reason) {
        PublicRedemptionError::InvalidOrExpired
    } else if reason == RedemptionFailReason::RateLimited {
        PublicRedemptionError::RateLimited
    } else {
        PublicRedemptionError::TemporarilyUnavailable
    }
}

impl PublicRedemptionError {
    /// Map an internal reason to its public-safe equivalent.
    pub fn from_reason(reason: &RedemptionFailReason) -> (r: Self)
        ensures
            r == public_for_reason(*reason),
    {
        match reason {
            RedemptionFailReason::InvalidFormat
            | RedemptionFailReason::NotFound
            | RedemptionFailReason::Expired
            | RedemptionFailReason::Revoked
            | RedemptionFailReason::AlreadyUsed => PublicRedemptionError::InvalidOrExpired,
            RedemptionFailReason::RateLimited => PublicRedemptionError::RateLimited,
            RedemptionFailReason::StoreUnavailable | RedemptionFailReason::KeyFailure => {
                PublicRedemptionError::TemporarilyUnavailable
            },
        }
    }

    /// The user-facing message.
    pub fn message(&self) -> (r: &'static str)
        ensures
            r@ == match *self {
                PublicRedemptionError::InvalidOrExpired => "invalid or expired code"@,
                PublicRedemptionError::RateLimited => "too many attempts \u{2014} please wait and try again"@,
                PublicRedemptionError::TemporarilyUnavailable => "service temporarily unavailable"@,
            },
    {
        match self {
            PublicRedemptionError::InvalidOrExpired => "invalid or expired code",
            PublicRedemptionError::RateLimited => "too many attempts \u{2014} please wait and try again",
            PublicRedemptionError::TemporarilyUnavailable => "service temporarily unavailable",
        }
    }
}

/// Public-safe form-token failure.
#[derive(Debug, Clone, Copy, PartialEq, Eq, Structural)]
pub enum PublicFormError {
    /// The token was missing, expired, or already consumed; no distinction.
    ExpiredOrInvalid,
    /// A transient problem prevented the check.
    TemporarilyUnavailable,
}

impl PublicFormError {
    /// The user-facing message.
    pub fn message(&self) -> (r: &'static str)
        ensures
            r@ == match *self {
                PublicFormError::ExpiredOrInvalid => "form expired or invalid \u{2014} please reload the page and try again"@,
                PublicFormError::TemporarilyUnavailable => "service temporarily unavailable"@,
            },
    {
        match self {
            PublicFormError::ExpiredOrInvalid => "form expired or invalid \u{2014} please reload the page and try again",
            PublicFormError::TemporarilyUnavailable => "service temporarily unavailable",
        }
    }
}

/// Public-safe session failure.
#[derive(Debug, Clone, Copy, PartialEq, Eq, Structural)]
pub enum PublicSessionError {
    /// No valid session; missing, expired, or revoked are not distinguished.
    MissingOrExpired,
    /// A transient problem prevented the check.
    TemporarilyUnavailable,
}

impl PublicSessionError {
    /// The user-facing message.
    pub fn message(&self) -> (r: &'static str)
        ensures
            r@ == match *self {
                PublicSessionError::MissingOrExpired => "session missing or expired \u{2014} please sign in again"@,
                PublicSessionError::TemporarilyUnavailable => "service temporarily unavailable"@,
            },
    {
        match self {
            PublicSessionError::MissingOrExpired => "session missing or expired \u{2014} please sign in again",
            PublicSessionError::TemporarilyUnavailable => "service temporarily unavailable",
        }
    }
}

/// Every enumeration-sensitive internal reason is indistinguishable in public:
/// they all map to the same public error, and no other reason maps to it.
pub proof fn lemma_public_redemption_collapses(a: RedemptionFailReason, b: RedemptionFailReason)
    ensures
        is_enumeration_sensitive(a) && is_enumeration_sensitive(b) ==> public_for_reason(a)
            == public_for_reason(b),
        public_for_reason(a) == PublicRedemptionError::InvalidOrExpired <==> is_enumeration_sensitive(a),
{
}

} // verus!
