//! The code authentication manager.
//!
//! [`CodeAuth`] composes code generation, key derivation, the clock and the
//! rate-limit policy into the redemption flow:
//!
//! 1. rate-limit check;
//! 2. input normalization and validation;
//! 3. code lookup;
//! 4. atomic claim;
//! 5. the host resolves the subject;
//! 6. audit event;
//! 7. a [`RedeemSuccess`], which only a won claim can produce.
//!
//! Steps 1-3 never consume the code; only the claim is irreversible. The
//! store calls between the steps are the host's (see the module docs of
//! [`crate::auth`]): each `finish` step takes the store's answer and returns
//! a [`Step`] holding the result, the audit event to record, and the
//! rate-limit follow-up to perform.

use vstd::prelude::*;
use crate::audit::{AuditSink, CodeAuthEvent};
use crate::clock::Clock;
use crate::code::alphabet::valid_symbols;
use crate::code::normalize::ascii_lower;
use crate::code::generate::{
    Sampling, forecast, generate_code, sample_run, is_canonical_byte, is_code_for, lemma_forecast_settles,
    lemma_generated_code_validates, lemma_sampling_outcome_unique, sampled_to, validate_code_input,
    validation_result,
};
use crate::code::policy::{CodePolicy, PolicyView};
use crate::error::{
    CodeInputError, KeyError, PublicRedemptionError, RedemptionFailReason, key_error_message,
    public_for_reason, random_error_message,
};
use crate::hashing::{
    KeyProvider, LookupKey, SecretDomain, SecretHasher, candidates_for, derive_spec,
    lemma_active_key_is_candidate,
};
use crate::mem::code::{CodeRowView, is_find_match, matches_any};
use crate::rng::RandomSource;
use crate::secret::{CodeId, PlainCode, SubjectId};
use crate::state::claim::ClaimOutcome;
use crate::store::code::{ClaimRequest, CodeRecord, RedeemableCode, expires_at_from_ttl, expiry_after};
use crate::store::error::{StoreError, store_error_text};
use crate::store::ratelimit::{
    RateLimitKey, RateLimitOutcome, RateLimitPolicy, RateLimitUnavailable, fingerprint_of,
};
use crate::text::{opt_view, opt_str_view, clone_opt_string, opt_as_str, opt_str_to_string, push_str};
use super::error::{ClaimProof, RedeemError, RedeemSuccess, is_internal_redeem};
use super::norate::NoRateLimit;

verus! {

/// What the host does with its rate-limit store after a step.
#[derive(Debug)]
pub enum RateFollowUp<'a> {
    /// Nothing.
    Nothing,
    /// Count a failure for this key under this policy.
    RecordFailure(&'a RateLimitKey, RateLimitPolicy),
    /// Clear the failures counted for this key.
    ClearFailures(&'a RateLimitKey),
}

/// The outcome of one step of a manager flow: its result, the audit event the
/// host records (if any), and the rate-limit follow-up it performs. The
/// store's answers to follow-ups are ignored.
#[derive(Debug)]
pub struct Step<'a, T, E> {
    /// The step's result.
    pub result: Result<T, E>,
    /// The audit event to record.
    pub event: Option<CodeAuthEvent>,
    /// The rate-limit follow-up.
    pub follow_up: RateFollowUp<'a>,
}

/// Whether `f` counts a failure exactly when both a rate key and a rate-limit
/// policy are configured.
pub open spec fn records_failure(f: RateFollowUp, rate_key: Option<&RateLimitKey>, policy: Option<RateLimitPolicy>) -> bool {
    match (rate_key, policy) {
        (Some(k), Some(p)) => f matches RateFollowUp::RecordFailure(k2, p2) && k2@ == k@ && p2 == p,
        _ => f is Nothing,
    }
}

/// Whether `f` clears failures exactly when both a rate key and a rate-limit
/// policy are configured.
pub open spec fn clears_failures(f: RateFollowUp, rate_key: Option<&RateLimitKey>, policy: Option<RateLimitPolicy>) -> bool {
    match (rate_key, policy) {
        (Some(k), Some(_)) => f matches RateFollowUp::ClearFailures(k2) && k2@ == k@,
        _ => f is Nothing,
    }
}

/// Whether `e` is the redemption-failed event for `reason`.
pub open spec fn is_failed_event(e: Option<CodeAuthEvent>, reason: RedemptionFailReason) -> bool {
    e matches Some(CodeAuthEvent::RedemptionFailed { reason: r }) && r == reason
}

/// Whether `e` is the redeemed event for this record and subject.
pub open spec fn is_redeemed_event(e: Option<CodeAuthEvent>, code_id: Seq<char>, subject: Seq<char>) -> bool {
    e matches Some(CodeAuthEvent::CodeRedeemed { code_id: c, subject_id: s }) && c@ == code_id && s@
        == subject
}

/// Whether `r` is the success for `subject` carrying the record's grant.
pub open spec fn is_success_for(r: Result<RedeemSuccess, RedeemError>, subject: Seq<char>, grant: Option<Seq<char>>) -> bool {
    r matches Ok(s) && s.subject_view() == subject && s.grant_view() == grant
}

/// Whether a rate-limit check answer turns the request away: a denial, or an
/// unreachable store under a fail-closed policy.
pub open spec fn check_blocks(checked: Result<RateLimitOutcome, StoreError>, policy: RateLimitPolicy) -> bool {
    match checked {
        Ok(o) => o == RateLimitOutcome::Deny,
        Err(_) => policy.unavailable == RateLimitUnavailable::FailClosed,
    }
}

/// Decide on a rate-limit check answer: a blocked request fails with
/// `RateLimited` and a rate-limit audit event carrying only the key's
/// fingerprint; otherwise the flow goes on.
pub fn after_rate_check<'a>(key: &RateLimitKey, policy: &RateLimitPolicy, checked: Result<RateLimitOutcome, StoreError>) -> (r:
    Step<'a, (), RedeemError>)
    ensures
        r.follow_up is Nothing,
        check_blocks(checked, *policy) ==> ({
            &&& (r.result matches Err(RedeemError::RateLimited { public }) && public
                == PublicRedemptionError::RateLimited)
            &&& (r.event matches Some(CodeAuthEvent::RateLimitHit { key_fingerprint, purpose })
                && key_fingerprint@ == fingerprint_of(key@) && purpose is None)
        }),
        !check_blocks(checked, *policy) ==> r.result is Ok && r.event is None,
{
    let blocked = match checked {
        Ok(RateLimitOutcome::Deny) => true,
        Ok(RateLimitOutcome::Allow) => false,
        Err(_) => match policy.unavailable {
            RateLimitUnavailable::FailClosed => true,
            RateLimitUnavailable::FailOpen => false,
        },
    };
    if blocked {
        Step {
            result: Err(RedeemError::RateLimited { public: PublicRedemptionError::RateLimited }),
            event: Some(CodeAuthEvent::RateLimitHit { key_fingerprint: key.fingerprint(), purpose: None }),
            follow_up: RateFollowUp::Nothing,
        }
    } else {
        Step { result: Ok(()), event: None, follow_up: RateFollowUp::Nothing }
    }
}

/// A code ready to be stored: the record to insert, and what the issuer
/// keeps (the record ID and the plaintext for delivery).
pub struct PendingCode {
    /// The record to insert.
    pub record: CodeRecord,
    /// The record ID, returned to the issuer.
    pub id: CodeId,
    /// The plaintext code, returned to the issuer for delivery only.
    pub plain: PlainCode,
}

/// The subject a claim records while the host callback of the one-call flow
/// has not yet resolved the real one.
pub open spec fn pending_subject_name() -> Seq<char> {
    "__pending__"@
}

/// The subject the one-call flow's claim records before the host callback
/// has resolved the real one: `__pending__`.
pub fn pending_subject() -> (r: SubjectId)
    ensures
        r@ == pending_subject_name(),
{
    SubjectId::new("__pending__".to_owned())
}

/// Manages one-time code issuance, lookup, claim and revocation.
///
/// Generic over the code store `CS` and rate-limit store `RL` (carried for the
/// host, which performs their calls), the key provider `K`, the clock `C` and
/// the audit sink `A`.
pub struct CodeAuth<CS, RL, K, C, A> {
    store: CS,
    rate_limit_store: RL,
    hasher: SecretHasher<K>,
    clock: C,
    audit: A,
    policy: CodePolicy,
    rate_limit_policy: Option<RateLimitPolicy>,
}

impl<CS, RL, K: KeyProvider, C: Clock, A: AuditSink> CodeAuth<CS, RL, K, C, A> {
    /// The code policy.
    pub closed spec fn code_policy(&self) -> PolicyView {
        self.policy@
    }

    /// The rate-limit policy, if rate limiting is configured.
    pub closed spec fn limit_policy(&self) -> Option<RateLimitPolicy> {
        self.rate_limit_policy
    }

    /// The key provider behind the hasher.
    pub closed spec fn keys(&self) -> K {
        self.hasher.provider()
    }

    /// The code store the host calls.
    pub closed spec fn code_store(&self) -> CS {
        self.store
    }

    /// The rate-limit store the host calls.
    pub closed spec fn limiter(&self) -> RL {
        self.rate_limit_store
    }

    /// The audit sink the host records events to.
    pub closed spec fn sink(&self) -> A {
        self.audit
    }

    /// Construct a manager with a rate-limit store and policy.
    pub fn new(
        store: CS,
        rate_limit_store: RL,
        hasher: SecretHasher<K>,
        clock: C,
        audit: A,
        policy: CodePolicy,
        rate_limit_policy: RateLimitPolicy,
    ) -> (r: Self)
        ensures
            r.code_policy() == policy@,
            r.limit_policy() == Some(rate_limit_policy),
            r.keys() == hasher.provider(),
            r.code_store() == store,
            r.limiter() == rate_limit_store,
            r.sink() == audit,
    {
        CodeAuth {
            store,
            rate_limit_store,
            hasher,
            clock,
            audit,
            policy,
            rate_limit_policy: Some(rate_limit_policy),
        }
    }

    /// The code store, for the host's store calls.
    pub fn store(&self) -> (r: &CS)
        ensures
            *r == self.code_store(),
    {
        &self.store
    }

    /// The rate-limit store, for the host's rate-limit calls.
    pub fn rate_limit_store(&self) -> (r: &RL)
        ensures
            *r == self.limiter(),
    {
        &self.rate_limit_store
    }

    /// The audit sink that receives the steps' events.
    pub fn audit(&self) -> (r: &A)
        ensures
            *r == self.sink(),
    {
        &self.audit
    }

    /// The code policy.
    pub fn policy(&self) -> (r: &CodePolicy)
        ensures
            r@ == self.code_policy(),
    {
        &self.policy
    }

    /// The current time on the manager's clock.
    pub fn now(&self) -> u64 {
        self.clock.unix_now()
    }

    /// The rate-limit check to run before a lookup: the key and policy, when
    /// both a rate key is given and a rate-limit policy is configured.
    pub fn rate_check_for<'a>(&self, rate_key: Option<&'a RateLimitKey>) -> (r: Option<(&'a RateLimitKey, RateLimitPolicy)>)
        ensures
            match (rate_key, self.limit_policy()) {
                (Some(k), Some(p)) => r matches Some((k2, p2)) && k2@ == k@ && p2 == p,
                _ => r is None,
            },
    {
        match (rate_key, self.rate_limit_policy) {
            (Some(k), Some(p)) => Some((k, p)),
            _ => None,
        }
    }

    fn record_failure_for<'a>(&self, rate_key: Option<&'a RateLimitKey>) -> (r: RateFollowUp<'a>)
        ensures
            records_failure(r, rate_key, self.limit_policy()),
    {
        match (rate_key, self.rate_limit_policy) {
            (Some(k), Some(p)) => RateFollowUp::RecordFailure(k, p),
            _ => RateFollowUp::Nothing,
        }
    }

    fn clear_failures_for<'a>(&self, rate_key: Option<&'a RateLimitKey>) -> (r: RateFollowUp<'a>)
        ensures
            clears_failures(r, rate_key, self.limit_policy()),
    {
        match (rate_key, self.rate_limit_policy) {
            (Some(k), Some(_)) => RateFollowUp::ClearFailures(k),
            _ => RateFollowUp::Nothing,
        }
    }

    /// Generate a code and build its record: the lookup key under the active
    /// key, the creation time from the clock, and the expiry after the
    /// policy's TTL. Fails closed when randomness or the active key is
    /// unavailable.
    ///
    /// For a predictable source the outcome follows rejection sampling over
    /// the bytes it hands out: the code is the one sampling finishes with; a
    /// draw that fails first makes the issue fail with the randomness error;
    /// a finished code under an active key is always issued.
    pub fn prepare_issue<R: RandomSource>(
        &self,
        rng: &mut R,
        id: CodeId,
        purpose: Option<String>,
        scope: Option<String>,
        grant: Option<String>,
    ) -> (r: Result<PendingCode, RedeemError>)
        ensures
            match r {
                Ok(p) => {
                    &&& is_code_for(self.code_policy(), p.plain@)
                    &&& self.keys().spec_active_key() matches Some((v, b))
                    &&& p.record.lookup_key@ == derive_spec(b, SecretDomain::Code, p.plain@)
                    &&& p.record.key_version@ == v
                    &&& p.id@ == id@
                    &&& p.record.id@ == id@
                    &&& opt_view(p.record.purpose) == opt_view(purpose)
                    &&& opt_view(p.record.scope) == opt_view(scope)
                    &&& opt_view(p.record.grant) == opt_view(grant)
                    &&& p.record.expires_at == expiry_after(p.record.created_at, self.code_policy().ttl_secs as u64)
                },
                Err(e) => is_internal_redeem(e, "rng: "@ + random_error_message()) || (
                self.keys().spec_active_key() is None && is_internal_redeem(
                    e,
                    "key error: "@ + key_error_message(KeyError::MissingActiveKey),
                )),
            },
            self.keys().spec_active_key() is None ==> r is Err,
            old(rng).predictable() ==> {
                &&& r matches Ok(p) ==> sampled_to(self.code_policy(), *old(rng), Sampling::Done(p.plain@))
                &&& sampled_to(self.code_policy(), *old(rng), Sampling::Failed) ==> (r matches Err(e)
                    && is_internal_redeem(e, "rng: "@ + random_error_message()))
                &&& (exists|c: Seq<char>| sampled_to(self.code_policy(), *old(rng), Sampling::Done(c)))
                    && self.keys().spec_active_key() is Some ==> r is Ok
            },
    {
        let ghost src: R = *rng;
        let ghost pv = self.code_policy();
        let plain = match generate_code(&self.policy, rng) {
            Ok(p) => {
                proof {
                    if src.predictable() && sampled_to(pv, src, Sampling::Failed) {
                        let n1 = choose|n: nat|
                            n <= u64::MAX && sample_run(pv.alphabet, pv.length, #[trigger] forecast(src, n))
                                == Sampling::Failed;
                        let n2 = choose|n: nat|
                            n <= u64::MAX && sample_run(pv.alphabet, pv.length, #[trigger] forecast(src, n))
                                == Sampling::Done(p@);
                        lemma_sampling_outcome_unique(pv, src, n1, n2);
                    }
                }
                p
            },
            Err(e) => {
                proof {
                    if src.predictable() && exists|c: Seq<char>| sampled_to(pv, src, Sampling::Done(c)) {
                        let c = choose|c: Seq<char>| sampled_to(pv, src, Sampling::Done(c));
                        let n1 = choose|n: nat|
                            n <= u64::MAX && sample_run(pv.alphabet, pv.length, #[trigger] forecast(src, n))
                                == Sampling::Done(c);
                        if sampled_to(pv, src, Sampling::Failed) {
                            let n2 = choose|n: nat|
                                n <= u64::MAX && sample_run(pv.alphabet, pv.length, #[trigger] forecast(src, n))
                                    == Sampling::Failed;
                            lemma_sampling_outcome_unique(pv, src, n1, n2);
                        } else {
                            lemma_forecast_settles(pv, src, n1, u64::MAX as nat);
                        }
                    }
                }
                let mut cause = "rng: ".to_owned();
                push_str(&mut cause, e.message());
                return Err(
                    RedeemError::Internal { cause, public: PublicRedemptionError::TemporarilyUnavailable },
                );
            },
        };
        let (lookup_key, key_version) = match self.hasher.lookup_key(SecretDomain::Code, plain.expose()) {
            Ok(pair) => pair,
            Err(k) => return Err(RedeemError::from_key(k)),
        };
        let now = self.clock.unix_now();
        let ttl = self.policy.ttl();
        let expires_at = expires_at_from_ttl(now, ttl);
        let record = CodeRecord {
            id: id.clone(),
            lookup_key,
            key_version,
            purpose,
            scope,
            grant,
            created_at: now,
            expires_at,
        };
        Ok(PendingCode { record, id, plain })
    }

    /// Finish issuing after the store's insert: on success the issuer gets
    /// the ID and plaintext back and the issue is audited; a store failure is
    /// an internal error.
    pub fn finish_issue<'a>(&self, id: CodeId, plain: PlainCode, inserted: Result<(), StoreError>) -> (r: Step<
        'a,
        (CodeId, PlainCode),
        RedeemError,
    >)
        ensures
            r.follow_up is Nothing,
            match inserted {
                Ok(()) => {
                    &&& (r.result matches Ok((i, p)) && i@ == id@ && p@ == plain@)
                    &&& (r.event matches Some(CodeAuthEvent::CodeIssued { code_id, purpose }) && code_id@
                        == id@ && purpose is None)
                },
                Err(e) => r.result matches Err(err) && is_internal_redeem(err, store_error_text(e))
                    && r.event is None,
            },
    {
        match inserted {
            Ok(()) => {
                let event = CodeAuthEvent::CodeIssued { code_id: id.clone(), purpose: None };
                Step { result: Ok((id, plain)), event: Some(event), follow_up: RateFollowUp::Nothing }
            },
            Err(e) => Step { result: Err(RedeemError::from_store(e)), event: None, follow_up: RateFollowUp::Nothing },
        }
    }

    /// Validate submitted input and derive its lookup candidates, one per held
    /// key, with the lookup time. Invalid input fails with `InvalidInput`, is
    /// audited, and counts toward the rate limit; a key failure is internal.
    pub fn prepare_lookup<'a>(&self, raw_input: &str, rate_key: Option<&'a RateLimitKey>) -> (r: Step<
        'a,
        (Vec<LookupKey>, u64),
        RedeemError,
    >)
        ensures
            match validation_result(raw_input@, self.code_policy()) {
                Err(_) => {
                    &&& r.result matches Err(RedeemError::InvalidInput { reason, public })
                    &&& reason == RedemptionFailReason::InvalidFormat
                    &&& public == PublicRedemptionError::InvalidOrExpired
                    &&& is_failed_event(r.event, RedemptionFailReason::InvalidFormat)
                    &&& records_failure(r.follow_up, rate_key, self.limit_policy())
                },
                Ok(normalized) => {
                    &&& r.follow_up is Nothing
                    &&& r.event is None
                    &&& match self.keys().spec_all_keys() {
                        Some(ring) => r.result matches Ok((cands, _)) && cands@.map_values(
                            |c: LookupKey| c@,
                        ) == candidates_for(ring, SecretDomain::Code, normalized),
                        None => r.result matches Err(e) && is_internal_redeem(
                            e,
                            "key error: "@ + key_error_message(KeyError::MissingActiveKey),
                        ),
                    }
                },
            },
    {
        let normalized = match validate_code_input(raw_input, &self.policy) {
            Ok(n) => n,
            Err(_) => {
                let reason = RedemptionFailReason::InvalidFormat;
                return Step {
                    result: Err(
                        RedeemError::InvalidInput { reason, public: PublicRedemptionError::from_reason(&reason) },
                    ),
                    event: Some(CodeAuthEvent::RedemptionFailed { reason: RedemptionFailReason::InvalidFormat }),
                    follow_up: self.record_failure_for(rate_key),
                };
            },
        };
        let candidates = match self.hasher.candidate_keys(SecretDomain::Code, normalized.as_str()) {
            Ok(c) => c,
            Err(k) => {
                return Step { result: Err(RedeemError::from_key(k)), event: None, follow_up: RateFollowUp::Nothing };
            },
        };
        let now = self.clock.unix_now();
        Step { result: Ok((candidates, now)), event: None, follow_up: RateFollowUp::Nothing }
    }

    /// Finish a lookup with the store's answer: a found record is returned;
    /// none fails with `NotRedeemable`, is audited, and counts toward the
    /// rate limit; a store failure is internal.
    pub fn finish_find<'a>(&self, found: Result<Option<RedeemableCode>, StoreError>, rate_key: Option<&'a RateLimitKey>) -> (r:
        Step<'a, RedeemableCode, RedeemError>)
        ensures
            match found {
                Ok(Some(c)) => r.result == Ok::<RedeemableCode, RedeemError>(c) && r.event is None
                    && r.follow_up is Nothing,
                Ok(None) => {
                    &&& r.result matches Err(RedeemError::NotRedeemable { reason, public })
                    &&& reason == RedemptionFailReason::NotFound
                    &&& public == PublicRedemptionError::InvalidOrExpired
                    &&& is_failed_event(r.event, RedemptionFailReason::NotFound)
                    &&& records_failure(r.follow_up, rate_key, self.limit_policy())
                },
                Err(e) => r.result matches Err(err) && is_internal_redeem(err, store_error_text(e))
                    && r.event is None && r.follow_up is Nothing,
            },
    {
        match found {
            Ok(Some(c)) => Step { result: Ok(c), event: None, follow_up: RateFollowUp::Nothing },
            Ok(None) => Step {
                result: Err(
                    RedeemError::NotRedeemable {
                        reason: RedemptionFailReason::NotFound,
                        public: PublicRedemptionError::InvalidOrExpired,
                    },
                ),
                event: Some(CodeAuthEvent::RedemptionFailed { reason: RedemptionFailReason::NotFound }),
                follow_up: self.record_failure_for(rate_key),
            },
            Err(e) => Step { result: Err(RedeemError::from_store(e)), event: None, follow_up: RateFollowUp::Nothing },
        }
    }

    /// The atomic claim request for a found record: claimed by `subject` now,
    /// restricted to the record's own purpose and scope.
    pub fn claim_request<'a>(&self, record: &'a RedeemableCode, subject: &'a SubjectId) -> (r: ClaimRequest<'a>)
        ensures
            r.code_id@ == record.id@,
            r.subject@ == subject@,
            opt_str_view(r.purpose) == opt_view(record.purpose),
            opt_str_view(r.scope) == opt_view(record.scope),
    {
        let now = self.clock.unix_now();
        ClaimRequest {
            code_id: &record.id,
            subject,
            now,
            purpose: opt_as_str(&record.purpose),
            scope: opt_as_str(&record.scope),
        }
    }

    /// Finish the two-step claim with the store's answer. A won claim yields
    /// the success for `subject`, clears the rate-limit failures and is
    /// audited; a lost claim fails with `ClaimLost`, counts toward the rate
    /// limit and is audited as already used; a store failure is internal.
    pub fn finish_claim<'a>(
        &self,
        record: &RedeemableCode,
        subject: SubjectId,
        rate_key: Option<&'a RateLimitKey>,
        claimed: Result<ClaimOutcome, StoreError>,
    ) -> (r: Step<'a, RedeemSuccess, RedeemError>)
        ensures
            match claimed {
                Ok(ClaimOutcome::Won) => {
                    &&& is_success_for(r.result, subject@, opt_view(record.grant))
                    &&& is_redeemed_event(r.event, record.id@, subject@)
                    &&& clears_failures(r.follow_up, rate_key, self.limit_policy())
                },
                Ok(ClaimOutcome::Lost) => {
                    &&& r.result matches Err(RedeemError::ClaimLost { public })
                    &&& public == PublicRedemptionError::InvalidOrExpired
                    &&& is_failed_event(r.event, RedemptionFailReason::AlreadyUsed)
                    &&& records_failure(r.follow_up, rate_key, self.limit_policy())
                },
                Err(e) => r.result matches Err(err) && is_internal_redeem(err, store_error_text(e))
                    && r.event is None && r.follow_up is Nothing,
            },
    {
        let outcome = match claimed {
            Ok(o) => o,
            Err(e) => {
                return Step { result: Err(RedeemError::from_store(e)), event: None, follow_up: RateFollowUp::Nothing };
            },
        };
        match ClaimProof::new(outcome) {
            Some(proof) => {
                let event = CodeAuthEvent::CodeRedeemed { code_id: record.id.clone(), subject_id: subject.clone() };
                Step {
                    result: Ok(RedeemSuccess::new(subject, clone_opt_string(&record.grant), proof)),
                    event: Some(event),
                    follow_up: self.clear_failures_for(rate_key),
                }
            },
            None => Step {
                result: Err(RedeemError::ClaimLost { public: PublicRedemptionError::InvalidOrExpired }),
                event: Some(CodeAuthEvent::RedemptionFailed { reason: RedemptionFailReason::AlreadyUsed }),
                follow_up: self.record_failure_for(rate_key),
            },
        }
    }

    /// The one-call flow's claim answer: a won claim gives the proof the host
    /// callback runs under; a lost claim fails with `ClaimLost` and is audited
    /// as already used (it is not counted toward the rate limit); a store
    /// failure is internal.
    pub fn after_callback_claim<'a>(&self, claimed: Result<ClaimOutcome, StoreError>) -> (r: Step<
        'a,
        ClaimProof,
        RedeemError,
    >)
        ensures
            r.follow_up is Nothing,
            match claimed {
                Ok(ClaimOutcome::Won) => r.result is Ok && r.event is None,
                Ok(ClaimOutcome::Lost) => r.result matches Err(RedeemError::ClaimLost { public }) && public
                    == PublicRedemptionError::InvalidOrExpired && is_failed_event(
                    r.event,
                    RedemptionFailReason::AlreadyUsed,
                ),
                Err(e) => r.result matches Err(err) && is_internal_redeem(err, store_error_text(e))
                    && r.event is None,
            },
    {
        let outcome = match claimed {
            Ok(o) => o,
            Err(e) => {
                return Step { result: Err(RedeemError::from_store(e)), event: None, follow_up: RateFollowUp::Nothing };
            },
        };
        match ClaimProof::new(outcome) {
            Some(proof) => Step { result: Ok(proof), event: None, follow_up: RateFollowUp::Nothing },
            None => Step {
                result: Err(RedeemError::ClaimLost { public: PublicRedemptionError::InvalidOrExpired }),
                event: Some(CodeAuthEvent::RedemptionFailed { reason: RedemptionFailReason::AlreadyUsed }),
                follow_up: RateFollowUp::Nothing,
            },
        }
    }

    /// Finish the one-call flow with the host callback's answer (its error
    /// already rendered as text). A resolved subject yields the success,
    /// clears the rate-limit failures and is audited; a callback failure is an
    /// internal error, with the code already consumed.
    pub fn finish_callback<'a>(
        &self,
        record: &RedeemableCode,
        proof: ClaimProof,
        rate_key: Option<&'a RateLimitKey>,
        resolved: Result<SubjectId, String>,
    ) -> (r: Step<'a, RedeemSuccess, RedeemError>)
        ensures
            match resolved {
                Ok(subject) => {
                    &&& is_success_for(r.result, subject@, opt_view(record.grant))
                    &&& is_redeemed_event(r.event, record.id@, subject@)
                    &&& clears_failures(r.follow_up, rate_key, self.limit_policy())
                },
                Err(msg) => r.result matches Err(err) && is_internal_redeem(
                    err,
                    "host callback failed: "@ + msg@,
                ) && r.event is None && r.follow_up is Nothing,
            },
    {
        match resolved {
            Ok(subject) => {
                let event = CodeAuthEvent::CodeRedeemed { code_id: record.id.clone(), subject_id: subject.clone() };
                Step {
                    result: Ok(RedeemSuccess::new(subject, clone_opt_string(&record.grant), proof)),
                    event: Some(event),
                    follow_up: self.clear_failures_for(rate_key),
                }
            },
            Err(msg) => {
                let mut cause = "host callback failed: ".to_owned();
                push_str(&mut cause, msg.as_str());
                Step {
                    result: Err(RedeemError::Internal { cause, public: PublicRedemptionError::TemporarilyUnavailable }),
                    event: None,
                    follow_up: RateFollowUp::Nothing,
                }
            },
        }
    }

    /// Finish a revocation with the store's answer: audited with the scope it
    /// was restricted to; a store failure is internal.
    pub fn finish_revoke<'a>(&self, code_id: &CodeId, scope: Option<&str>, revoked: Result<(), StoreError>) -> (r: Step<
        'a,
        (),
        RedeemError,
    >)
        ensures
            r.follow_up is Nothing,
            match revoked {
                Ok(()) => {
                    &&& r.result is Ok
                    &&& (r.event matches Some(CodeAuthEvent::CodeRevoked { code_id: c, scope: s }) && c@
                        == code_id@ && opt_view(s) == opt_str_view(scope))
                },
                Err(e) => r.result matches Err(err) && is_internal_redeem(err, store_error_text(e))
                    && r.event is None,
            },
    {
        match revoked {
            Ok(()) => Step {
                result: Ok(()),
                event: Some(CodeAuthEvent::CodeRevoked { code_id: code_id.clone(), scope: opt_str_to_string(scope) }),
                follow_up: RateFollowUp::Nothing,
            },
            Err(e) => Step { result: Err(RedeemError::from_store(e)), event: None, follow_up: RateFollowUp::Nothing },
        }
    }
}

impl<CS, K: KeyProvider, C: Clock, A: AuditSink> CodeAuth<CS, NoRateLimit, K, C, A> {
    /// Construct without rate limiting: no check runs and no failure is
    /// counted.
    pub fn without_rate_limit(store: CS, hasher: SecretHasher<K>, clock: C, audit: A, policy: CodePolicy) -> (r: Self)
        ensures
            r.code_policy() == policy@,
            r.limit_policy() is None,
            r.keys() == hasher.provider(),
            r.code_store() == store,
            r.sink() == audit,
    {
        CodeAuth {
            store,
            rate_limit_store: NoRateLimit,
            hasher,
            clock,
            audit,
            policy,
            rate_limit_policy: None,
        }
    }
}

/// An issued code redeems: once the record built for a generated code is
/// stored, looking up the code's own text, or that text in lowercase, before
/// the record expires validates to the code unchanged and finds that record
/// redeemable. This needs
/// a policy whose alphabet normalization leaves alone (no lowercase letters,
/// whitespace or hyphens), as every built-in policy's is.
pub proof fn lemma_issued_code_is_found<K: KeyProvider>(p: PolicyView, code: Seq<char>, keys: K, row: CodeRowView, now: u64)
    requires
        is_code_for(p, code),
        valid_symbols(p.alphabet),
        p.length > 0,
        p.max_raw_len >= p.length,
        forall|i: int| 0 <= i < p.alphabet.len() ==> is_canonical_byte(#[trigger] p.alphabet[i]),
        keys.spec_active_key() is Some,
        row.lookup_keys == seq![derive_spec(keys.spec_active_key()->Some_0.1, SecretDomain::Code, code)],
        row.used_at is None,
        row.revoked_at is None,
        now < row.expires_at,
    ensures
        validation_result(code, p) == Ok::<Seq<char>, CodeInputError>(code),
        validation_result(code.map_values(|c: char| ascii_lower(c)), p) == Ok::<Seq<char>, CodeInputError>(
            code,
        ),
        keys.spec_all_keys() matches Some(ring) && is_find_match(
            row,
            candidates_for(ring, SecretDomain::Code, code),
            now,
            None,
        ),
{
    lemma_generated_code_validates(p, code);
    lemma_active_key_is_candidate(keys, SecretDomain::Code, code);
    let ring = keys.spec_all_keys()->Some_0;
    let cands = candidates_for(ring, SecretDomain::Code, code);
    let i = choose|i: int| 0 <= i < cands.len() && cands[i] == row.lookup_keys[0];
    assert(cands[i] == row.lookup_keys[0]);
    assert(matches_any(row, cands));
}

} // verus!
