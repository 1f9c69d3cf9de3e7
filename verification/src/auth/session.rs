//! The session manager: issue (after a won claim), validate (on every
//! authenticated request), and revoke (on logout or incident response).
//!
//! As with [`CodeAuth`](super::code::CodeAuth), the host performs the store
//! calls between the steps and records the events they return.

use vstd::prelude::*;
use crate::audit::{AuditSink, CodeAuthEvent};
use crate::clock::Clock;
use crate::cookie::{CookiePolicy, CookiePolicyView, clear_cookie_value, set_cookie_value};
use crate::error::{KeyError, PublicSessionError, key_error_message, random_error_message};
use crate::hashing::{
    KeyProvider, LookupKey, SecretDomain, SecretHasher, candidates_for, derive_spec,
    lemma_active_key_is_candidate,
    hex_lower, hex_lower_spec, is_lower_hex_char, lemma_hex_shape,
};
use crate::mem::session::{SessionRowView, is_active_match};
use crate::rng::RandomSource;
use crate::secret::{SessionId, SessionSecret, SubjectId};
use crate::state::session::{
    SessionFailure, SessionValidationOutcome, classify_session, effective_last_seen, elapsed_since,
    session_failure,
};
use crate::store::code::{expires_at_from_ttl, expiry_after};
use crate::store::error::{StoreError, store_error_text};
use crate::store::session::{ActiveSessionRecord, SessionRecord};
use crate::text::push_str;
use super::error::{IssuedSession, RedeemSuccess, SessionError, is_internal_session};

verus! {

/// The byte length of a session secret.
pub const SESSION_SECRET_BYTES: usize = 32;

/// Whether `s` has the shape of an issued session secret: exactly 64
/// lowercase hexadecimal digits.
pub open spec fn is_well_formed_secret(s: Seq<char>) -> bool {
    s.len() == 64 && forall|i: int| 0 <= i < s.len() ==> is_lower_hex_char(#[trigger] s[i])
}

/// Whether `s` has the shape of an issued session secret. Anything else did
/// not come from [`SessionManager::prepare_issue`] and cannot match a stored
/// lookup key, so it is rejected before any key derivation or store call.
pub fn is_well_formed_session_secret(s: &str) -> (r: bool)
    ensures
        r == is_well_formed_secret(s@),
{
    let mut count: usize = 0;
    let mut ok = true;
    for c in it: s.chars()
        invariant
            it.seq() == s@,
            count == if it.index() <= 65 { it.index() as int } else { 65 },
            ok == forall|i: int| 0 <= i < it.index() ==> is_lower_hex_char(#[trigger] s@[i]),
    {
        proof {
            assert(s@[it.index() as int] == c);
        }
        if !(('0' <= c && c <= '9') || ('a' <= c && c <= 'f')) {
            ok = false;
        }
        if count < 65 {
            count = count + 1;
        }
    }
    count == 64 && ok
}

/// The touch throttle granularity for an idle timeout, in seconds: a
/// twentieth of the timeout, but at least thirty seconds.
pub open spec fn touch_granularity_secs(idle_timeout_secs: u64) -> u64 {
    if idle_timeout_secs / 20 >= 30 {
        idle_timeout_secs / 20
    } else {
        30
    }
}

/// The touch throttle granularity: a session is touched at most once per
/// granularity of continuous activity, not once per request.
pub fn touch_granularity(idle_timeout_secs: u64) -> (r: u64)
    ensures
        r == touch_granularity_secs(idle_timeout_secs),
{
    let g = idle_timeout_secs / 20;
    if g >= 30 {
        g
    } else {
        30
    }
}

/// A session ready to be stored: the record to insert and what issuing keeps.
pub struct PendingSession {
    /// The record to insert.
    pub record: SessionRecord,
    /// The session record ID.
    pub session_id: SessionId,
    /// The authenticated subject.
    pub subject: SubjectId,
    /// The plaintext bearer secret; it leaves only inside the cookie.
    pub secret: SessionSecret,
}

/// How validation begins: decided without a lookup, or a lookup to run.
#[derive(Debug)]
pub enum ValidateStart {
    /// Decided before any store call.
    Decided(SessionValidationOutcome),
    /// Look up the active session for these candidates at this time.
    Lookup {
        /// One lookup-key candidate per held key.
        candidates: Vec<LookupKey>,
        /// The lookup time.
        now: u64,
    },
}

/// The outcome of a lookup, with the session to touch, if any.
#[derive(Debug)]
pub struct Validated {
    /// The validation outcome.
    pub outcome: SessionValidationOutcome,
    /// The session whose last use the host records now, if any.
    pub touch: Option<SessionId>,
}

/// Whether a validation outcome is audited: every failure but a missing
/// cookie, which is the common anonymous case and not a failed attempt.
pub open spec fn is_audited_failure(o: SessionValidationOutcome) -> bool {
    o matches SessionValidationOutcome::Unauthenticated { reason } && reason != SessionFailure::NoCookie
}

/// The audit event for a validation outcome: `SessionValidateFailed` for an
/// audited failure, nothing otherwise.
pub fn validation_event(outcome: &SessionValidationOutcome) -> (r: Option<CodeAuthEvent>)
    ensures
        is_audited_failure(*outcome) ==> r == Some(CodeAuthEvent::SessionValidateFailed),
        !is_audited_failure(*outcome) ==> r is None,
{
    match outcome {
        SessionValidationOutcome::Unauthenticated { reason: SessionFailure::NoCookie } => None,
        SessionValidationOutcome::Unauthenticated { .. } => Some(CodeAuthEvent::SessionValidateFailed),
        SessionValidationOutcome::Authenticated { .. } => None,
    }
}

/// The audit event for a touch answer: a failed touch is audited and
/// otherwise ignored, so the session stays valid.
pub fn touch_event(session_id: SessionId, touched: Result<(), StoreError>) -> (r: Option<CodeAuthEvent>)
    ensures
        touched is Ok ==> r is None,
        touched is Err ==> (r matches Some(CodeAuthEvent::SessionTouchFailed { session_id: s }) && s@
            == session_id@),
{
    match touched {
        Ok(()) => None,
        Err(_) => Some(CodeAuthEvent::SessionTouchFailed { session_id }),
    }
}

/// Whether `o` is the classification of `found` at `now`: the failure when
/// there is one, else authenticated as the found session.
pub open spec fn classifies(
    o: SessionValidationOutcome,
    found: Option<ActiveSessionRecord>,
    idle_timeout_secs: Option<u64>,
    now: u64,
) -> bool {
    match session_failure(found, idle_timeout_secs, now) {
        Some(f) => o == (SessionValidationOutcome::Unauthenticated { reason: f }),
        None => found matches Some(s) && (o matches SessionValidationOutcome::Authenticated {
            subject,
            session_id,
            expires_at,
        } && subject@ == s.subject@ && session_id@ == s.id@ && expires_at == s.expires_at),
    }
}

/// Whether `touch` names the session to touch after `found` classified as
/// `outcome` at `now`: the found session when it authenticated, an idle
/// timeout is configured, and a granularity has passed since its effective
/// last use; none otherwise.
pub open spec fn is_touch_target(
    touch: Option<SessionId>,
    found: Option<ActiveSessionRecord>,
    outcome: SessionValidationOutcome,
    idle_timeout_secs: Option<u64>,
    now: u64,
) -> bool {
    if outcome is Authenticated && idle_timeout_secs is Some && found is Some && elapsed_since(
        now,
        effective_last_seen(found->Some_0),
    ) >= touch_granularity_secs(idle_timeout_secs->Some_0) {
        touch matches Some(id) && id@ == found->Some_0.id@
    } else {
        touch is None
    }
}

/// Manages session issuance, validation and revocation over the session
/// store `SS` (carried for the host), the key provider `K`, the clock `C` and
/// the audit sink `A`.
pub struct SessionManager<SS, K, C, A> {
    store: SS,
    hasher: SecretHasher<K>,
    clock: C,
    audit: A,
    cookie_policy: CookiePolicy,
    idle_timeout: Option<u64>,
}

impl<SS, K: KeyProvider, C: Clock, A: AuditSink> SessionManager<SS, K, C, A> {
    /// The cookie policy.
    pub closed spec fn cookie(&self) -> CookiePolicyView {
        self.cookie_policy@
    }

    /// The idle timeout in seconds, if enabled.
    pub closed spec fn idle_timeout_secs(&self) -> Option<u64> {
        self.idle_timeout
    }

    /// The key provider behind the hasher.
    pub closed spec fn keys(&self) -> K {
        self.hasher.provider()
    }

    /// The session store the host calls.
    pub closed spec fn session_store(&self) -> SS {
        self.store
    }

    /// The audit sink the host records events to.
    pub closed spec fn sink(&self) -> A {
        self.audit
    }

    /// Construct a manager without idle timeout.
    pub fn new(store: SS, hasher: SecretHasher<K>, clock: C, audit: A, cookie_policy: CookiePolicy) -> (r: Self)
        ensures
            r.cookie() == cookie_policy@,
            r.idle_timeout_secs() is None,
            r.keys() == hasher.provider(),
            r.session_store() == store,
            r.sink() == audit,
    {
        SessionManager { store, hasher, clock, audit, cookie_policy, idle_timeout: None }
    }

    /// Enable idle-timeout expiry: a session becomes invalid after
    /// `idle_timeout_secs` without use, independently of its absolute
    /// lifetime. Opt-in, because it adds a throttled write to validation.
    pub fn with_idle_timeout(self, idle_timeout_secs: u64) -> (r: Self)
        ensures
            r.cookie() == self.cookie(),
            r.idle_timeout_secs() == Some(idle_timeout_secs),
            r.keys() == self.keys(),
            r.session_store() == self.session_store(),
            r.sink() == self.sink(),
    {
        SessionManager { idle_timeout: Some(idle_timeout_secs), ..self }
    }

    /// The session store, for the host's store calls.
    pub fn store(&self) -> (r: &SS)
        ensures
            *r == self.session_store(),
    {
        &self.store
    }

    /// The audit sink that receives the steps' events.
    pub fn audit(&self) -> (r: &A)
        ensures
            *r == self.sink(),
    {
        &self.audit
    }

    /// The cookie policy (e.g. to find the cookie name on the next request).
    pub fn cookie_policy(&self) -> (r: &CookiePolicy)
        ensures
            r@ == self.cookie(),
    {
        &self.cookie_policy
    }

    /// The current time on the manager's clock.
    pub fn now(&self) -> u64 {
        self.clock.unix_now()
    }

    /// Build the session for the subject of a won redemption from the
    /// random bytes `bytes`: their lowercase hex encoding as the bearer
    /// secret, its lookup key under the active key, the creation time from
    /// the clock and the expiry after the cookie's max-age. Fails closed when
    /// no active key is held.
    pub fn session_from_bytes(&self, success: &RedeemSuccess, session_id: SessionId, bytes: &[u8]) -> (r:
        Result<PendingSession, SessionError>)
        requires
            bytes@.len() <= usize::MAX / 2,
        ensures
            match self.keys().spec_active_key() {
                Some((v, b)) => r matches Ok(p) && {
                    &&& p.secret@ == hex_lower_spec(bytes@)
                    &&& p.record.lookup_key@ == derive_spec(b, SecretDomain::Session, p.secret@)
                    &&& p.record.key_version@ == v
                    &&& p.record.id@ == session_id@
                    &&& p.session_id@ == session_id@
                    &&& p.record.subject@ == success.subject_view()
                    &&& p.subject@ == success.subject_view()
                    &&& p.record.expires_at == expiry_after(p.record.created_at, self.cookie().max_age_secs)
                },
                None => r matches Err(e) && is_internal_session(
                    e,
                    "key error: "@ + key_error_message(KeyError::MissingActiveKey),
                ),
            },
            bytes@.len() == SESSION_SECRET_BYTES ==> (r matches Ok(p) ==> is_well_formed_secret(p.secret@)),
    {
        let secret_hex = hex_lower(bytes);
        proof {
            lemma_hex_shape(bytes@);
        }
        let secret = SessionSecret::new(secret_hex);
        let (lookup_key, key_version) = match self.hasher.lookup_key(SecretDomain::Session, secret.expose()) {
            Ok(pair) => pair,
            Err(k) => return Err(SessionError::from_key(k)),
        };
        let now = self.clock.unix_now();
        let expires_at = expires_at_from_ttl(now, self.cookie_policy.max_age_duration());
        let subject = success.subject().clone();
        let record = SessionRecord {
            id: session_id.clone(),
            lookup_key,
            key_version,
            subject: subject.clone(),
            created_at: now,
            expires_at,
        };
        Ok(PendingSession { record, session_id, subject, secret })
    }

    /// Generate a session for the subject of a won redemption: 32 random
    /// bytes, hex-encoded, as the bearer secret, built by
    /// [`Self::session_from_bytes`]. Fails closed when randomness or the
    /// active key is unavailable.
    ///
    /// For a predictable source the secret is the hex encoding of the 32
    /// bytes it hands out, and the issue succeeds under an active key; where
    /// one of those draws fails, the issue fails with the randomness error.
    pub fn prepare_issue<R: RandomSource>(&self, success: &RedeemSuccess, session_id: SessionId, rng: &mut R) -> (r:
        Result<PendingSession, SessionError>)
        ensures
            match r {
                Ok(p) => {
                    &&& is_well_formed_secret(p.secret@)
                    &&& exists|raw: Seq<u8>| raw.len() == SESSION_SECRET_BYTES && p.secret@ == hex_lower_spec(raw)
                    &&& self.keys().spec_active_key() matches Some((v, b))
                    &&& p.record.lookup_key@ == derive_spec(b, SecretDomain::Session, p.secret@)
                    &&& p.record.key_version@ == v
                    &&& p.record.id@ == session_id@
                    &&& p.session_id@ == session_id@
                    &&& p.record.subject@ == success.subject_view()
                    &&& p.subject@ == success.subject_view()
                    &&& p.record.expires_at == expiry_after(p.record.created_at, self.cookie().max_age_secs)
                },
                Err(e) => is_internal_session(e, "rng: "@ + random_error_message()) || (
                self.keys().spec_active_key() is None && is_internal_session(
                    e,
                    "key error: "@ + key_error_message(KeyError::MissingActiveKey),
                )),
            },
            self.keys().spec_active_key() is None ==> r is Err,
            old(rng).predictable() && (forall|k: int|
                0 <= k < SESSION_SECRET_BYTES ==> (#[trigger] old(rng).upcoming(k)) is Some) ==> {
                &&& r matches Ok(p) ==> p.secret@ == hex_lower_spec(
                    Seq::new(SESSION_SECRET_BYTES as nat, |k: int| old(rng).upcoming(k)->Some_0),
                )
                &&& self.keys().spec_active_key() is Some ==> r is Ok
            },
            old(rng).predictable() && (exists|k: int|
                0 <= k < SESSION_SECRET_BYTES && (#[trigger] old(rng).upcoming(k)) is None) ==> (r matches Err(
                e,
            ) && is_internal_session(e, "rng: "@ + random_error_message())),
    {
        let ghost src: R = *rng;
        let mut raw = [0u8; 32];
        match rng.fill_bytes(&mut raw) {
            Ok(()) => {},
            Err(e) => {
                let mut cause = "rng: ".to_owned();
                push_str(&mut cause, e.message());
                return Err(SessionError::Internal { cause, public: PublicSessionError::TemporarilyUnavailable });
            },
        }
        proof {
            if src.predictable() && (forall|k: int|
                0 <= k < SESSION_SECRET_BYTES ==> (#[trigger] src.upcoming(k)) is Some) {
                assert(raw@ == Seq::new(SESSION_SECRET_BYTES as nat, |k: int| src.upcoming(k)->Some_0));
            }
        }
        self.session_from_bytes(success, session_id, &raw)
    }

    /// Finish issuing after the store's insert: the session ID and the
    /// `Set-Cookie` value carrying the secret, audited as issued; a store
    /// failure is internal.
    pub fn finish_issue(&self, session_id: SessionId, subject: SubjectId, secret: SessionSecret, inserted: Result<
        (),
        StoreError,
    >) -> (r: (Result<IssuedSession, SessionError>, Option<CodeAuthEvent>))
        ensures
            match inserted {
                Ok(()) => {
                    &&& (r.0 matches Ok(s) && s.session_id@ == session_id@ && s.set_cookie@ == set_cookie_value(
                        self.cookie(),
                        secret@,
                    ))
                    &&& (r.1 matches Some(CodeAuthEvent::SessionIssued { session_id: i, subject_id: s })
                        && i@ == session_id@ && s@ == subject@)
                },
                Err(e) => r.0 matches Err(err) && is_internal_session(err, store_error_text(e)) && r.1 is None,
            },
    {
        match inserted {
            Ok(()) => {
                let event = CodeAuthEvent::SessionIssued { session_id: session_id.clone(), subject_id: subject };
                let set_cookie = self.cookie_policy.build_set_cookie(secret.expose());
                (Ok(IssuedSession { session_id, set_cookie }), Some(event))
            },
            Err(e) => (Err(SessionError::from_store(e)), None),
        }
    }

    /// Begin validating the bearer credential of a request. No cookie and a
    /// malformed cookie are decided at once; otherwise the lookup candidates
    /// (one per held key) and the lookup time are returned. Only a key
    /// failure is an error.
    pub fn begin_validate(&self, cookie_value: Option<&str>) -> (r: Result<ValidateStart, SessionError>)
        ensures
            match cookie_value {
                None => r matches Ok(ValidateStart::Decided(o)) && o == (SessionValidationOutcome::Unauthenticated {
                    reason: SessionFailure::NoCookie,
                }),
                Some(v) => if !is_well_formed_secret(v@) {
                    r matches Ok(ValidateStart::Decided(o)) && o == (SessionValidationOutcome::Unauthenticated {
                        reason: SessionFailure::Malformed,
                    })
                } else {
                    match self.keys().spec_all_keys() {
                        Some(ring) => r matches Ok(ValidateStart::Lookup { candidates, now })
                            && candidates@.map_values(|c: LookupKey| c@) == candidates_for(
                            ring,
                            SecretDomain::Session,
                            v@,
                        ),
                        None => r matches Err(e) && is_internal_session(
                            e,
                            "key error: "@ + key_error_message(KeyError::MissingActiveKey),
                        ),
                    }
                },
            },
    {
        match cookie_value {
            None => Ok(ValidateStart::Decided(SessionValidationOutcome::Unauthenticated { reason: SessionFailure::NoCookie })),
            Some(v) => {
                if !is_well_formed_session_secret(v) {
                    return Ok(
                        ValidateStart::Decided(SessionValidationOutcome::Unauthenticated { reason: SessionFailure::Malformed }),
                    );
                }
                let candidates = match self.hasher.candidate_keys(SecretDomain::Session, v) {
                    Ok(c) => c,
                    Err(k) => return Err(SessionError::from_key(k)),
                };
                let now = self.clock.unix_now();
                Ok(ValidateStart::Lookup { candidates, now })
            },
        }
    }

    /// Finish validating with the store's answer to the lookup made at
    /// `now`: the classification of the found session, and the session to
    /// touch when the idle timeout is on and the throttle granularity has
    /// passed. A store failure is internal.
    pub fn finish_validate(&self, found: Result<Option<ActiveSessionRecord>, StoreError>, now: u64) -> (r: Result<
        Validated,
        SessionError,
    >)
        ensures
            match found {
                Ok(rec) => r matches Ok(v) && classifies(v.outcome, rec, self.idle_timeout_secs(), now)
                    && is_touch_target(v.touch, rec, v.outcome, self.idle_timeout_secs(), now),
                Err(e) => r matches Err(err) && is_internal_session(err, store_error_text(e)),
            },
            match (found, self.idle_timeout_secs()) {
                (Ok(Some(rec)), Some(idle)) => {
                    &&& r is Ok
                    &&& r->Ok_0.outcome is Authenticated ==> (r->Ok_0.touch is Some <==> (now as int) - (
                    match rec.last_seen_at {
                        Some(t) => t,
                        None => rec.created_at,
                    }) as int >= touch_granularity_secs(idle) as int)
                },
                _ => true,
            },
    {
        let record = match found {
            Ok(rec) => rec,
            Err(e) => return Err(SessionError::from_store(e)),
        };
        let touch_target = match &record {
            Some(rec) => {
                let last_seen = match rec.last_seen_at {
                    Some(t) => t,
                    None => rec.created_at,
                };
                Some((rec.id.clone(), last_seen))
            },
            None => None,
        };
        let outcome = classify_session(record, self.idle_timeout, now);
        let mut touch: Option<SessionId> = None;
        if outcome.is_authenticated() {
            if let (Some(idle), Some((session_id, last_seen))) = (self.idle_timeout, touch_target) {
                if now.saturating_sub(last_seen) >= touch_granularity(idle) {
                    touch = Some(session_id);
                }
            }
        }
        Ok(Validated { outcome, touch })
    }

    /// Finish a revocation with the store's answer: the `Set-Cookie` value
    /// that clears the cookie, audited as revoked; a store failure is
    /// internal.
    pub fn finish_revoke(&self, session_id: &SessionId, revoked: Result<(), StoreError>) -> (r: (
        Result<String, SessionError>,
        Option<CodeAuthEvent>,
    ))
        ensures
            match revoked {
                Ok(()) => {
                    &&& (r.0 matches Ok(c) && c@ == clear_cookie_value(self.cookie()))
                    &&& (r.1 matches Some(CodeAuthEvent::SessionRevoked { session_id: i }) && i@ == session_id@)
                },
                Err(e) => r.0 matches Err(err) && is_internal_session(err, store_error_text(e)) && r.1 is None,
            },
    {
        match revoked {
            Ok(()) => (
                Ok(self.cookie_policy.build_clear_cookie()),
                Some(CodeAuthEvent::SessionRevoked { session_id: session_id.clone() }),
            ),
            Err(e) => (Err(SessionError::from_store(e)), None),
        }
    }
}

/// The throttled touch follows activity, not the first visit only: for an
/// authenticated lookup with an idle timeout, the session is touched exactly
/// when a granularity has passed since it was last seen (or created, if it
/// never was), whether or not it was touched before.
pub proof fn lemma_touch_when_granularity_passed(
    touch: Option<SessionId>,
    rec: ActiveSessionRecord,
    outcome: SessionValidationOutcome,
    idle: u64,
    now: u64,
)
    requires
        outcome is Authenticated,
        is_touch_target(touch, Some(rec), outcome, Some(idle), now),
    ensures
        touch is Some <==> (now as int) - (match rec.last_seen_at {
            Some(t) => t,
            None => rec.created_at,
        }) as int >= touch_granularity_secs(idle) as int,
        touch matches Some(id) ==> id@ == rec.id@,
{
}

/// A session in continuous use never idles out: with an idle timeout of a
/// minute or more, a session that authenticates at `now` and has the touch
/// that validation asks for applied authenticates again, without an idle
/// timeout, at any time up to one granularity later.
pub proof fn lemma_active_session_never_idles(
    rec: ActiveSessionRecord,
    outcome: SessionValidationOutcome,
    touch: Option<SessionId>,
    idle: u64,
    now: u64,
    later: u64,
)
    requires
        idle >= 60,
        classifies(outcome, Some(rec), Some(idle), now),
        outcome is Authenticated,
        is_touch_target(touch, Some(rec), outcome, Some(idle), now),
        now <= later,
        later - now <= touch_granularity_secs(idle),
    ensures
        session_failure(
            Some(
                if touch is Some {
                    ActiveSessionRecord { last_seen_at: Some(now), ..rec }
                } else {
                    rec
                },
            ),
            Some(idle),
            later,
        ) != Some(SessionFailure::IdleTimeout),
{
    let g = touch_granularity_secs(idle);
    assert(2 * g <= idle) by {
        if idle / 20 >= 30 {
            assert(2 * (idle / 20) <= idle);
        }
    }
    let last: int = match rec.last_seen_at {
        Some(t) => t as int,
        None => rec.created_at as int,
    };
    if touch is None {
        assert(now - last < g);
    }
}

/// An issued session validates: the secret of a session issued from 32
/// random bytes passes the shape check, and its stored row is active for the
/// lookup candidates derived from that secret until the row expires or is
/// revoked.
pub proof fn lemma_issued_session_validates<K: KeyProvider>(raw: Seq<u8>, keys: K, row: SessionRowView, now: u64)
    requires
        raw.len() == SESSION_SECRET_BYTES,
        keys.spec_active_key() is Some,
        row.lookup_key == derive_spec(keys.spec_active_key()->Some_0.1, SecretDomain::Session, hex_lower_spec(raw)),
        row.revoked_at is None,
        now < row.expires_at,
    ensures
        is_well_formed_secret(hex_lower_spec(raw)),
        keys.spec_all_keys() matches Some(ring) && is_active_match(
            row,
            candidates_for(ring, SecretDomain::Session, hex_lower_spec(raw)),
            now,
        ),
{
    lemma_hex_shape(raw);
    lemma_active_key_is_candidate(keys, SecretDomain::Session, hex_lower_spec(raw));
}

} // verus!
