use codlet::hashing::{KeyVersion, LookupKey, SecretDomain, SecretHasher, StaticKeyProvider};
use codlet::mem::{MemCodeStore, MemFormTokenStore, MemRateLimitStore, MemSessionStore};
use codlet::secret::{CodeId, SessionId, SubjectId};
use codlet::state::claim::ClaimOutcome;
use codlet::state::token::TokenConsumeOutcome;
use codlet::store::code::{ClaimRequest, CodeRecord};
use codlet::store::error::StoreError;
use codlet::store::ratelimit::{RateLimitKey, RateLimitOutcome, RateLimitPolicy, RateLimitUnavailable};
use codlet::store::session::SessionRecord;
use codlet::store::token::{FormTokenRecord, TokenSubject};

fn key(domain: SecretDomain, value: &str) -> LookupKey {
    let h = SecretHasher::new(StaticKeyProvider::single("v1", b"mem-test-key".to_vec()).unwrap());
    h.lookup_key(domain, value).unwrap().0
}

fn code_record(id: &str, value: &str, scope: Option<&str>, expires_at: u64) -> CodeRecord {
    CodeRecord {
        id: CodeId::new(id.into()),
        lookup_key: key(SecretDomain::Code, value),
        key_version: KeyVersion::new("v1"),
        purpose: Some("invite".into()),
        scope: scope.map(|s| s.to_string()),
        grant: Some("grant-1".into()),
        created_at: 0,
        expires_at,
    }
}

#[test]
fn code_store_finds_claims_once_and_then_misses() {
    let mut store = MemCodeStore::new();
    store.insert_code(code_record("c1", "ABCD2345", None, 100)).unwrap();
    let cands = vec![key(SecretDomain::Code, "ABCD2345")];
    let found = store.find_redeemable(&cands, 10, None).unwrap();
    assert_eq!(found.id.as_str(), "c1");
    assert_eq!(found.grant.as_deref(), Some("grant-1"));
    let subject = SubjectId::new("u1".into());
    let req = ClaimRequest { code_id: &found.id, subject: &subject, now: 10, purpose: Some("invite"), scope: None };
    assert_eq!(store.claim_code(&req).unwrap(), ClaimOutcome::Won);
    assert_eq!(store.claim_code(&req).unwrap(), ClaimOutcome::Lost);
    assert!(store.find_redeemable(&cands, 10, None).is_none());
}

#[test]
fn code_store_respects_expiry_scope_and_purpose() {
    let mut store = MemCodeStore::new();
    store.insert_code(code_record("c1", "ABCD2345", Some("team-a"), 100)).unwrap();
    let cands = vec![key(SecretDomain::Code, "ABCD2345")];
    assert!(store.find_redeemable(&cands, 100, None).is_none());
    assert!(store.find_redeemable(&cands, 10, Some("team-b")).is_none());
    assert!(store.find_redeemable(&cands, 10, Some("team-a")).is_some());
    let subject = SubjectId::new("u1".into());
    let id = CodeId::new("c1".into());
    let wrong_purpose = ClaimRequest { code_id: &id, subject: &subject, now: 10, purpose: Some("other"), scope: None };
    assert_eq!(store.claim_code(&wrong_purpose).unwrap(), ClaimOutcome::Lost);
    let late = ClaimRequest { code_id: &id, subject: &subject, now: 100, purpose: None, scope: None };
    assert_eq!(store.claim_code(&late).unwrap(), ClaimOutcome::Lost);
}

#[test]
fn code_store_rejects_duplicate_lookup_keys() {
    let mut store = MemCodeStore::new();
    store.insert_code(code_record("c1", "ABCD2345", None, 100)).unwrap();
    let err = store.insert_code(code_record("c2", "ABCD2345", None, 100)).unwrap_err();
    assert_eq!(err.display_text(), "store error: duplicate lookup key (unique constraint)");
}

#[test]
fn code_store_revocation_is_permanent_and_scoped() {
    let mut store = MemCodeStore::new();
    store.insert_code(code_record("c1", "ABCD2345", Some("team-a"), 100)).unwrap();
    let cands = vec![key(SecretDomain::Code, "ABCD2345")];
    let id = CodeId::new("c1".into());
    store.revoke_code(&id, Some("team-b"), 5).unwrap();
    assert!(store.find_redeemable(&cands, 10, None).is_some());
    store.revoke_code(&id, Some("team-a"), 5).unwrap();
    assert!(store.find_redeemable(&cands, 10, None).is_none());
    let subject = SubjectId::new("u1".into());
    let req = ClaimRequest { code_id: &id, subject: &subject, now: 10, purpose: None, scope: None };
    assert_eq!(store.claim_code(&req).unwrap(), ClaimOutcome::Lost);
}

#[test]
fn code_store_reports_multi_row_claims() {
    let mut store = MemCodeStore::new();
    store.insert_code(code_record("dup", "AAAA2222", None, 100)).unwrap();
    store.insert_code(code_record("dup", "BBBB3333", None, 100)).unwrap();
    let subject = SubjectId::new("u1".into());
    let id = CodeId::new("dup".into());
    let req = ClaimRequest { code_id: &id, subject: &subject, now: 10, purpose: None, scope: None };
    match store.claim_code(&req) {
        Err(StoreError::InvariantViolation(msg)) => assert_eq!(msg, "claim_code changed 2 rows for CodeId(\"dup\")"),
        other => panic!("expected an invariant violation, got {other:?}"),
    }
}

fn session_record(id: &str, secret: &str, expires_at: u64) -> SessionRecord {
    SessionRecord {
        id: SessionId::new(id.into()),
        lookup_key: key(SecretDomain::Session, secret),
        key_version: KeyVersion::new("v1"),
        subject: SubjectId::new("u1".into()),
        created_at: 5,
        expires_at,
    }
}

#[test]
fn session_store_find_touch_and_revoke() {
    let mut store = MemSessionStore::new();
    store.insert_session(session_record("s1", "sek", 100));
    let cands = vec![key(SecretDomain::Session, "sek")];
    let rec = store.find_active_session(&cands, 10).unwrap();
    assert_eq!(rec.id.as_str(), "s1");
    assert_eq!(rec.last_seen_at, None);
    assert_eq!(rec.created_at, 5);
    store.touch_session(&SessionId::new("s1".into()), 42);
    assert_eq!(store.find_active_session(&cands, 10).unwrap().last_seen_at, Some(42));
    assert!(store.find_active_session(&cands, 100).is_none());
    store.revoke_session(&SessionId::new("s1".into()), 50);
    assert!(store.find_active_session(&cands, 10).is_none());
    assert!(store.find_active_session(&cands, 0).is_none());
}

fn token_record(value: &str, subject: TokenSubject, bound: Option<&str>, expires_at: u64) -> FormTokenRecord {
    FormTokenRecord {
        lookup_key: key(SecretDomain::FormToken, value),
        key_version: KeyVersion::new("v1"),
        subject,
        purpose: "logout".into(),
        bound_resource: bound.map(|b| b.to_string()),
        issued_at: 0,
        expires_at,
    }
}

#[test]
fn token_store_consumes_once_then_replays() {
    let mut store = MemFormTokenStore::new();
    store.insert_form_token(token_record("t1", TokenSubject::Anonymous, None, 100));
    let cands = vec![key(SecretDomain::FormToken, "t1")];
    let (o, r) = store.consume_form_token(&cands, &TokenSubject::Anonymous, "logout", None, 10).unwrap();
    assert_eq!(o, TokenConsumeOutcome::Proceed);
    assert_eq!(r, None);
    store.set_token_result(&cands, "result-7");
    let (o, r) = store.consume_form_token(&cands, &TokenSubject::Anonymous, "logout", None, 11).unwrap();
    assert_eq!(o, TokenConsumeOutcome::Replay);
    assert_eq!(r.as_deref(), Some("result-7"));
}

#[test]
fn token_store_rejects_mismatches_and_expiry() {
    let mut store = MemFormTokenStore::new();
    let subject = TokenSubject::Authenticated(SubjectId::new("u1".into()));
    store.insert_form_token(token_record("t2", subject.clone(), Some("/doc/1"), 100));
    let cands = vec![key(SecretDomain::FormToken, "t2")];
    let unknown = vec![key(SecretDomain::FormToken, "nope")];
    assert_eq!(
        store.consume_form_token(&unknown, &subject, "logout", Some("/doc/1"), 10).unwrap(),
        (TokenConsumeOutcome::Invalid, None)
    );
    assert_eq!(
        store.consume_form_token(&cands, &TokenSubject::Anonymous, "logout", Some("/doc/1"), 10).unwrap(),
        (TokenConsumeOutcome::Invalid, None)
    );
    assert_eq!(
        store.consume_form_token(&cands, &subject, "logout", Some("/doc/2"), 10).unwrap(),
        (TokenConsumeOutcome::Invalid, None)
    );
    assert_eq!(
        store.consume_form_token(&cands, &subject, "logout", Some("/doc/1"), 100).unwrap(),
        (TokenConsumeOutcome::Invalid, None)
    );
    // A request without a resource does not take a row bound to one.
    assert_eq!(
        store.consume_form_token(&cands, &subject, "logout", None, 10).unwrap(),
        (TokenConsumeOutcome::Invalid, None)
    );
    assert_eq!(
        store.consume_form_token(&cands, &subject, "logout", Some("/doc/1"), 10).unwrap(),
        (TokenConsumeOutcome::Proceed, None)
    );
    // After consumption a request without a resource still does not match a
    // token bound to one: no replay, no result reference.
    store.set_token_result(&cands, "ref-9");
    assert_eq!(
        store.consume_form_token(&cands, &subject, "logout", None, 10).unwrap(),
        (TokenConsumeOutcome::Invalid, None)
    );
    assert_eq!(
        store.consume_form_token(&cands, &subject, "logout", Some("/doc/1"), 10).unwrap(),
        (TokenConsumeOutcome::Replay, Some("ref-9".to_string()))
    );
}

#[test]
fn token_store_tries_candidates_in_order_during_rotation() {
    let mut store = MemFormTokenStore::new();
    store.insert_form_token(token_record("old-key", TokenSubject::Anonymous, None, 100));
    let cands = vec![key(SecretDomain::FormToken, "new-key"), key(SecretDomain::FormToken, "old-key")];
    assert_eq!(
        store.consume_form_token(&cands, &TokenSubject::Anonymous, "logout", None, 10).unwrap(),
        (TokenConsumeOutcome::Proceed, None)
    );
    // The result is recorded under the first (active-key) candidate only, so
    // a token consumed under the previous key replays without a reference.
    store.set_token_result(&cands, "done-1");
    assert_eq!(
        store.consume_form_token(&cands, &TokenSubject::Anonymous, "logout", None, 11).unwrap(),
        (TokenConsumeOutcome::Replay, None)
    );
    let old_first = vec![key(SecretDomain::FormToken, "old-key"), key(SecretDomain::FormToken, "new-key")];
    store.set_token_result(&old_first, "done-2");
    assert_eq!(
        store.consume_form_token(&cands, &TokenSubject::Anonymous, "logout", None, 11).unwrap(),
        (TokenConsumeOutcome::Replay, Some("done-2".to_string()))
    );
    let only_new = vec![key(SecretDomain::FormToken, "new-key")];
    assert_eq!(
        store.consume_form_token(&only_new, &TokenSubject::Anonymous, "logout", None, 12).unwrap(),
        (TokenConsumeOutcome::Invalid, None)
    );
}

#[test]
fn token_store_reports_multi_row_consumes() {
    let mut store = MemFormTokenStore::new();
    store.insert_form_token(token_record("t3", TokenSubject::Anonymous, None, 100));
    store.insert_form_token(token_record("t3", TokenSubject::Anonymous, None, 100));
    let cands = vec![key(SecretDomain::FormToken, "t3")];
    match store.consume_form_token(&cands, &TokenSubject::Anonymous, "logout", None, 10) {
        Err(StoreError::InvariantViolation(msg)) => assert_eq!(msg, "consume_form_token changed 2 rows"),
        other => panic!("expected an invariant violation, got {other:?}"),
    }
}

fn policy(max_failures: u32, window_secs: u64) -> RateLimitPolicy {
    RateLimitPolicy { max_failures, window_secs, unavailable: RateLimitUnavailable::FailClosed }
}

#[test]
fn rate_limit_store_counts_within_the_window() {
    let mut store = MemRateLimitStore::new();
    let k = RateLimitKey::new("ip-1");
    let p = policy(3, 60);
    for t in [0u64, 1, 2] {
        assert_eq!(store.check(&k, &p, t), RateLimitOutcome::Allow);
        store.record_failure(&k, &p, t);
    }
    assert_eq!(store.check(&k, &p, 3), RateLimitOutcome::Deny);
    assert_eq!(store.check(&k, &p, 59), RateLimitOutcome::Deny);
    // The window has elapsed: the count no longer applies.
    assert_eq!(store.check(&k, &p, 60), RateLimitOutcome::Allow);
    // A failure after the window restarts it at one.
    store.record_failure(&k, &p, 70);
    assert_eq!(store.check(&k, &policy(2, 60), 71), RateLimitOutcome::Allow);
    assert_eq!(store.check(&k, &policy(1, 60), 71), RateLimitOutcome::Deny);
}

#[test]
fn rate_limit_store_clear_lifts_the_limit() {
    let mut store = MemRateLimitStore::new();
    let k = RateLimitKey::new("ip-2");
    let other = RateLimitKey::new("ip-3");
    let p = policy(1, 600);
    store.record_failure(&k, &p, 0);
    store.record_failure(&other, &p, 0);
    assert_eq!(store.check(&k, &p, 1), RateLimitOutcome::Deny);
    store.clear_failures(&k);
    assert_eq!(store.check(&k, &p, 1), RateLimitOutcome::Allow);
    assert_eq!(store.check(&other, &p, 1), RateLimitOutcome::Deny);
}
