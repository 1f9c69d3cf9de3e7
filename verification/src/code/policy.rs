//! Code policy: a validated security object governing generation and
//! validation. Its constructors reject impossible or risky shapes; short codes
//! below the secure minimum require the separate `short_compat` constructor so
//! the weaker choice is visible in review. Durations are whole seconds.

use vstd::prelude::*;
use crate::code::alphabet::{Alphabet, unambiguous_symbols};
use crate::error::PolicyError;

verus! {

/// The secure minimum human-entered code length (8 symbols over the 31-symbol
/// alphabet is about 39.6 bits).
pub const SECURE_MIN_HUMAN_LENGTH: usize = 8;

/// The maximum accepted raw (pre-normalization) input length, in bytes.
pub const DEFAULT_MAX_RAW_LEN: usize = 64;

/// The short-code length of the compatibility opt-in (about 29.7 bits).
pub const SHORT_COMPAT_LENGTH: usize = 6;

/// The mathematical content of a policy.
pub struct PolicyView {
    /// The generation alphabet.
    pub alphabet: Seq<u8>,
    /// The exact normalized code length.
    pub length: nat,
    /// The maximum raw input length, in bytes.
    pub max_raw_len: nat,
    /// The code time-to-live, in seconds.
    pub ttl_secs: nat,
}

/// The raw-length bound a policy of code length `length` accepts.
pub open spec fn max_raw_len_for(length: nat) -> nat {
    if length > 64 {
        length
    } else {
        64
    }
}

/// The policy a successful constructor produces.
pub open spec fn policy_view(alphabet: Seq<u8>, length: nat, ttl_secs: nat) -> PolicyView {
    PolicyView { alphabet, length, max_raw_len: max_raw_len_for(length), ttl_secs }
}

/// Validated policy governing code generation and validation.
#[derive(Debug, PartialEq, Eq)]
pub struct CodePolicy {
    alphabet: Alphabet,
    length: usize,
    max_raw_len: usize,
    ttl: u64,
}

impl View for CodePolicy {
    type V = PolicyView;

    closed spec fn view(&self) -> PolicyView {
        PolicyView {
            alphabet: self.alphabet@,
            length: self.length as nat,
            max_raw_len: self.max_raw_len as nat,
            ttl_secs: self.ttl as nat,
        }
    }
}

impl Clone for CodePolicy {
    fn clone(&self) -> (r: Self)
        ensures
            r@ == self@,
    {
        proof {
            use_type_invariant(self);
        }
        CodePolicy {
            alphabet: self.alphabet.clone(),
            length: self.length,
            max_raw_len: self.max_raw_len,
            ttl: self.ttl,
        }
    }
}

impl CodePolicy {
    /// The shape every policy keeps: a non-zero length and TTL, and the raw
    /// bound derived from the length.
    #[verifier::type_invariant]
    pub closed spec fn inv(self) -> bool {
        &&& self.length > 0
        &&& self.ttl > 0
        &&& self.max_raw_len == max_raw_len_for(self.length as nat)
    }

    /// What the type invariant states, over the view.
    pub proof fn lemma_inv(p: CodePolicy)
        requires
            p.inv(),
        ensures
            p@.length > 0,
            p@.ttl_secs > 0,
            p@.max_raw_len == max_raw_len_for(p@.length),
    {
    }

    /// The recommended default for human-entered codes: the unambiguous
    /// alphabet, [`SECURE_MIN_HUMAN_LENGTH`] symbols, and the given TTL.
    /// Fails only for a zero TTL.
    pub fn default_human(ttl_secs: u64) -> (r: Result<Self, PolicyError>)
        ensures
            ttl_secs == 0 ==> r == Err::<Self, PolicyError>(PolicyError::ZeroLength),
            ttl_secs > 0 ==> (r matches Ok(p) && p@ == policy_view(
                unambiguous_symbols(),
                8,
                ttl_secs as nat,
            )),
    {
        Self::new(Alphabet::unambiguous(), SECURE_MIN_HUMAN_LENGTH, ttl_secs)
    }

    /// Build a policy, enforcing the secure minimum length.
    pub fn new(alphabet: Alphabet, length: usize, ttl_secs: u64) -> (r: Result<Self, PolicyError>)
        ensures
            length == 0 ==> r == Err::<Self, PolicyError>(PolicyError::ZeroLength),
            0 < length < 8 ==> r == Err::<Self, PolicyError>(
                PolicyError::LengthBelowMinimum { got: length, min: 8 },
            ),
            length >= 8 && ttl_secs == 0 ==> r == Err::<Self, PolicyError>(PolicyError::ZeroLength),
            length >= 8 && ttl_secs > 0 ==> (r matches Ok(p) && p@ == policy_view(
                alphabet@,
                length as nat,
                ttl_secs as nat,
            )),
    {
        if length == 0 {
            return Err(PolicyError::ZeroLength);
        }
        if length < SECURE_MIN_HUMAN_LENGTH {
            return Err(PolicyError::LengthBelowMinimum { got: length, min: SECURE_MIN_HUMAN_LENGTH });
        }
        Self::build(alphabet, length, ttl_secs)
    }

    /// Explicitly opt into a code length below the secure minimum.
    ///
    /// Codes shorter than [`SECURE_MIN_HUMAN_LENGTH`] have reduced entropy and
    /// are safe only with short expiry, single use, and active rate limiting;
    /// a host choosing this takes on that responsibility. Lengths at or above
    /// the minimum are accepted too.
    pub fn short_compat(alphabet: Alphabet, length: usize, ttl_secs: u64) -> (r: Result<
        Self,
        PolicyError,
    >)
        ensures
            length == 0 ==> r == Err::<Self, PolicyError>(PolicyError::ZeroLength),
            length > 0 && ttl_secs == 0 ==> r == Err::<Self, PolicyError>(PolicyError::ZeroLength),
            length > 0 && ttl_secs > 0 ==> (r matches Ok(p) && p@ == policy_view(
                alphabet@,
                length as nat,
                ttl_secs as nat,
            )),
    {
        if length == 0 {
            return Err(PolicyError::ZeroLength);
        }
        Self::build(alphabet, length, ttl_secs)
    }

    /// The short-code compatibility policy: unambiguous alphabet, 6 symbols.
    /// Prefer [`CodePolicy::default_human`] for new deployments.
    pub fn six_symbol(ttl_secs: u64) -> (r: Result<Self, PolicyError>)
        ensures
            ttl_secs == 0 ==> r == Err::<Self, PolicyError>(PolicyError::ZeroLength),
            ttl_secs > 0 ==> (r matches Ok(p) && p@ == policy_view(
                unambiguous_symbols(),
                6,
                ttl_secs as nat,
            )),
    {
        Self::short_compat(Alphabet::unambiguous(), SHORT_COMPAT_LENGTH, ttl_secs)
    }

    fn build(alphabet: Alphabet, length: usize, ttl_secs: u64) -> (r: Result<Self, PolicyError>)
        requires
            length > 0,
        ensures
            ttl_secs == 0 ==> r == Err::<Self, PolicyError>(PolicyError::ZeroLength),
            ttl_secs > 0 ==> (r matches Ok(p) && p@ == policy_view(
                alphabet@,
                length as nat,
                ttl_secs as nat,
            )),
    {
        if ttl_secs == 0 {
            return Err(PolicyError::ZeroLength);
        }
        let max_raw_len = if length > DEFAULT_MAX_RAW_LEN {
            length
        } else {
            DEFAULT_MAX_RAW_LEN
        };
        Ok(CodePolicy { alphabet, length, max_raw_len, ttl: ttl_secs })
    }

    /// The alphabet used for generation and accepted in normalized input.
    pub fn alphabet(&self) -> (r: &Alphabet)
        ensures
            r@ == self@.alphabet,
    {
        &self.alphabet
    }

    /// The exact normalized code length.
    pub fn length(&self) -> (r: usize)
        ensures
            r == self@.length,
    {
        self.length
    }

    /// The maximum accepted raw input length, in bytes, before normalization.
    pub fn max_raw_len(&self) -> (r: usize)
        ensures
            r == self@.max_raw_len,
    {
        self.max_raw_len
    }

    /// The code time-to-live, in seconds.
    pub fn ttl(&self) -> (r: u64)
        ensures
            r == self@.ttl_secs,
    {
        self.ttl
    }
}

} // verus!
