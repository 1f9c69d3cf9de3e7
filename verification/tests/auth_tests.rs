use codlet::audit::{CodeAuthEvent, NoopAuditSink};
use codlet::auth::code::{RateFollowUp, after_rate_check, pending_subject};
use codlet::auth::session::{
    ValidateStart, is_well_formed_session_secret, touch_event, touch_granularity, validation_event,
};
use codlet::auth::{CodeAuth, RedeemError, SessionManager};
use codlet::clock::FixedClock;
use codlet::code::CodePolicy;
use codlet::cookie::CookiePolicy;
use codlet::error::{KeyError, PublicRedemptionError, PublicSessionError, RedemptionFailReason};
use codlet::hashing::{SecretHasher, StaticKeyProvider};
use codlet::mem::{MemCodeStore, MemRateLimitStore, MemSessionStore};
use codlet::rng::{AlwaysFailRandom, FixedBytesRandom};
use codlet::secret::{CodeId, SessionId, SubjectId};
use codlet::state::claim::ClaimOutcome;
use codlet::state::session::{SessionFailure, SessionValidationOutcome};
use codlet::store::error::StoreError;
use codlet::store::ratelimit::{RateLimitKey, RateLimitOutcome, RateLimitPolicy, RateLimitUnavailable};

fn hasher() -> SecretHasher<StaticKeyProvider> {
    SecretHasher::new(StaticKeyProvider::single("v1", b"auth-test-key".to_vec()).unwrap())
}

type Auth = CodeAuth<(), (), StaticKeyProvider, FixedClock, NoopAuditSink>;

fn auth(now: u64) -> Auth {
    CodeAuth::new(
        (),
        (),
        hasher(),
        FixedClock::at(now),
        NoopAuditSink,
        CodePolicy::default_human(3600).unwrap(),
        RateLimitPolicy::default_invite(),
    )
}

#[test]
fn issue_find_claim_round_trip() {
    let a = auth(1_000);
    let mut store = MemCodeStore::new();
    let mut rng = FixedBytesRandom::new(vec![3, 250, 17, 42]);
    let pending = a
        .prepare_issue(&mut rng, CodeId::new("c1".into()), Some("invite".into()), None, Some("g".into()))
        .unwrap();
    assert_eq!(pending.record.created_at, 1_000);
    assert_eq!(pending.record.expires_at, 4_600);
    assert_eq!(pending.record.key_version.as_str(), "v1");
    let plain = pending.plain.expose().to_string();
    assert_eq!(plain.len(), 8);
    let inserted = store.insert_code(pending.record);
    let step = a.finish_issue(pending.id, pending.plain, inserted);
    let (id, code) = step.result.unwrap();
    assert_eq!(id.as_str(), "c1");
    assert_eq!(code.expose(), plain);
    assert!(matches!(step.event, Some(CodeAuthEvent::CodeIssued { purpose: None, .. })));

    // The user types the code in lower case with a separator.
    let typed = format!("{}-{}", plain[..4].to_lowercase(), &plain[4..]);
    let key = RateLimitKey::new("ip-9");
    let step = a.prepare_lookup(&typed, Some(&key));
    assert!(step.event.is_none());
    let (cands, now) = step.result.unwrap();
    assert_eq!(now, 1_000);
    let found = a.finish_find(Ok(store.find_redeemable(&cands, now, None)), Some(&key));
    let record = found.result.unwrap();
    assert_eq!(record.id.as_str(), "c1");

    let subject = SubjectId::new("u7".into());
    let req = a.claim_request(&record, &subject);
    assert_eq!(req.purpose, Some("invite"));
    let claimed = store.claim_code(&req);
    let step = a.finish_claim(&record, subject, Some(&key), claimed);
    match step.follow_up {
        RateFollowUp::ClearFailures(k) => assert_eq!(k.as_str(), "ip-9"),
        _ => panic!("expected the failures to be cleared"),
    }
    assert_eq!(step.event.as_ref().unwrap().key(), "code.redeem.succeeded");
    let success = step.result.unwrap();
    assert_eq!(success.subject().as_str(), "u7");
    assert_eq!(success.grant.as_deref(), Some("g"));

    // The same code cannot be claimed again.
    let subject2 = SubjectId::new("u8".into());
    let req = a.claim_request(&record, &subject2);
    let claimed = store.claim_code(&req);
    let step = a.finish_claim(&record, subject2, Some(&key), claimed);
    match step.result {
        Err(RedeemError::ClaimLost { public }) => assert_eq!(public, PublicRedemptionError::InvalidOrExpired),
        _ => panic!("expected a lost claim"),
    }
    assert!(matches!(
        step.event,
        Some(CodeAuthEvent::RedemptionFailed { reason: RedemptionFailReason::AlreadyUsed })
    ));
    assert!(matches!(step.follow_up, RateFollowUp::RecordFailure(_, _)));
}

#[test]
fn invalid_input_is_audited_and_counted() {
    let a = auth(0);
    let key = RateLimitKey::new("ip-1");
    let step = a.prepare_lookup("short", Some(&key));
    match step.result {
        Err(RedeemError::InvalidInput { reason, public }) => {
            assert_eq!(reason, RedemptionFailReason::InvalidFormat);
            assert_eq!(public, PublicRedemptionError::InvalidOrExpired);
        },
        _ => panic!("expected invalid input"),
    }
    assert!(matches!(
        step.event,
        Some(CodeAuthEvent::RedemptionFailed { reason: RedemptionFailReason::InvalidFormat })
    ));
    match step.follow_up {
        RateFollowUp::RecordFailure(k, p) => {
            assert_eq!(k.as_str(), "ip-1");
            assert_eq!(p, RateLimitPolicy::default_invite());
        },
        _ => panic!("expected a failure to be counted"),
    }
    // Without a rate key nothing is counted.
    assert!(matches!(a.prepare_lookup("short", None).follow_up, RateFollowUp::Nothing));
}

#[test]
fn lookup_miss_and_store_failure() {
    let a = auth(0);
    let key = RateLimitKey::new("ip-1");
    let miss = a.finish_find(Ok(None), Some(&key));
    match miss.result {
        Err(RedeemError::NotRedeemable { reason, public }) => {
            assert_eq!(reason, RedemptionFailReason::NotFound);
            assert_eq!(public, PublicRedemptionError::InvalidOrExpired);
        },
        _ => panic!("expected not redeemable"),
    }
    assert!(matches!(miss.follow_up, RateFollowUp::RecordFailure(_, _)));
    let down = a.finish_find(Err(StoreError::Backend("down".into())), Some(&key));
    match down.result {
        Err(RedeemError::Internal { cause, public }) => {
            assert_eq!(cause, "store error: down");
            assert_eq!(public, PublicRedemptionError::TemporarilyUnavailable);
        },
        _ => panic!("expected an internal error"),
    }
    assert!(matches!(down.follow_up, RateFollowUp::Nothing));
    assert!(down.event.is_none());
}

#[test]
fn rate_check_decisions() {
    let key = RateLimitKey::new("abcdefghijk");
    let closed = RateLimitPolicy::default_invite();
    let open = RateLimitPolicy { unavailable: RateLimitUnavailable::FailOpen, ..closed };
    let denied = after_rate_check(&key, &closed, Ok(RateLimitOutcome::Deny));
    match denied.result {
        Err(RedeemError::RateLimited { public }) => assert_eq!(public, PublicRedemptionError::RateLimited),
        _ => panic!("expected rate limited"),
    }
    match denied.event {
        Some(CodeAuthEvent::RateLimitHit { key_fingerprint, purpose }) => {
            assert_eq!(key_fingerprint, "abcdefgh");
            assert_eq!(purpose, None);
        },
        _ => panic!("expected a rate-limit event"),
    }
    assert!(after_rate_check(&key, &closed, Ok(RateLimitOutcome::Allow)).result.is_ok());
    assert!(after_rate_check(&key, &closed, Err(StoreError::Backend("x".into()))).result.is_err());
    assert!(after_rate_check(&key, &open, Err(StoreError::Backend("x".into()))).result.is_ok());
    assert!(after_rate_check(&key, &open, Ok(RateLimitOutcome::Deny)).result.is_err());
}

#[test]
fn rng_and_key_failures_fail_closed() {
    let a = auth(0);
    match a.prepare_issue(&mut AlwaysFailRandom, CodeId::new("c".into()), None, None, None) {
        Err(RedeemError::Internal { cause, public }) => {
            assert_eq!(cause, "rng: secure randomness unavailable");
            assert_eq!(public, PublicRedemptionError::TemporarilyUnavailable);
        },
        _ => panic!("expected an internal error"),
    }
    match RedeemError::from_key(KeyError::MissingActiveKey) {
        RedeemError::Internal { cause, .. } => assert_eq!(cause, "key error: no active HMAC key configured"),
        _ => panic!("expected an internal error"),
    }
}

#[test]
fn callback_flow_steps() {
    let a = auth(10);
    assert_eq!(pending_subject().as_str(), "__pending__");
    let lost = a.after_callback_claim(Ok(ClaimOutcome::Lost));
    assert!(matches!(lost.result, Err(RedeemError::ClaimLost { .. })));
    assert!(matches!(lost.follow_up, RateFollowUp::Nothing));
    let won = a.after_callback_claim(Ok(ClaimOutcome::Won));
    let proof = won.result.unwrap();

    let mut store = MemCodeStore::new();
    let mut rng = FixedBytesRandom::new(vec![1]);
    let pending = a.prepare_issue(&mut rng, CodeId::new("c9".into()), None, None, Some("gr".into())).unwrap();
    let plain = pending.plain.expose().to_string();
    store.insert_code(pending.record).unwrap();
    let (cands, now) = a.prepare_lookup(&plain, None).result.unwrap();
    let record = a.finish_find(Ok(store.find_redeemable(&cands, now, None)), None).result.unwrap();

    let failed = a.finish_callback(&record, proof, None, Err("db down".into()));
    match failed.result {
        Err(RedeemError::Internal { cause, .. }) => assert_eq!(cause, "host callback failed: db down"),
        _ => panic!("expected an internal error"),
    }
    let proof = a.after_callback_claim(Ok(ClaimOutcome::Won)).result.unwrap();
    let done = a.finish_callback(&record, proof, None, Ok(SubjectId::new("u1".into())));
    assert!(matches!(done.follow_up, RateFollowUp::Nothing));
    let success = done.result.unwrap();
    assert_eq!(success.subject.as_str(), "u1");
    assert_eq!(success.grant.as_deref(), Some("gr"));
}

#[test]
fn revoke_step_audits_scope() {
    let a = auth(0);
    let step = a.finish_revoke(&CodeId::new("c1".into()), Some("team"), Ok(()));
    match step.event {
        Some(CodeAuthEvent::CodeRevoked { code_id, scope }) => {
            assert_eq!(code_id.as_str(), "c1");
            assert_eq!(scope.as_deref(), Some("team"));
        },
        _ => panic!("expected a revoke event"),
    }
}

#[test]
fn without_rate_limit_never_counts() {
    let a: CodeAuth<(), codlet::auth::NoRateLimit, StaticKeyProvider, FixedClock, NoopAuditSink> =
        CodeAuth::without_rate_limit((), hasher(), FixedClock::at(0), NoopAuditSink, CodePolicy::default_human(60).unwrap());
    let key = RateLimitKey::new("ip");
    assert!(a.rate_check_for(Some(&key)).is_none());
    assert!(matches!(a.prepare_lookup("x", Some(&key)).follow_up, RateFollowUp::Nothing));
}

type Sessions = SessionManager<(), StaticKeyProvider, FixedClock, NoopAuditSink>;

fn sessions(now: u64) -> Sessions {
    SessionManager::new((), hasher(), FixedClock::at(now), NoopAuditSink, CookiePolicy::production_strict("sid", 3600))
}

#[test]
fn session_issue_validate_revoke() {
    // A redemption first.
    let a = auth(100);
    let mut codes = MemCodeStore::new();
    let mut rng = FixedBytesRandom::new(vec![5]);
    let pending = a.prepare_issue(&mut rng, CodeId::new("c1".into()), None, None, None).unwrap();
    let plain = pending.plain.expose().to_string();
    codes.insert_code(pending.record).unwrap();
    let (cands, now) = a.prepare_lookup(&plain, None).result.unwrap();
    let record = a.finish_find(Ok(codes.find_redeemable(&cands, now, None)), None).result.unwrap();
    let subject = SubjectId::new("u1".into());
    let req = a.claim_request(&record, &subject);
    let claimed = codes.claim_code(&req);
    let success = a.finish_claim(&record, subject.clone(), None, claimed).result.unwrap();

    let m = sessions(100).with_idle_timeout(1_800);
    let mut store = MemSessionStore::new();
    let mut rng = FixedBytesRandom::new(vec![0xab, 0x01]);
    let pending = m.prepare_issue(&success, SessionId::new("s1".into()), &mut rng).unwrap();
    let secret = pending.secret.expose().to_string();
    assert_eq!(secret, "ab01".repeat(16));
    assert!(is_well_formed_session_secret(&secret));
    assert_eq!(pending.record.expires_at, 3_700);
    let inserted = Ok(store.insert_session(pending.record));
    let (issued, event) = m.finish_issue(pending.session_id, pending.subject, pending.secret, inserted);
    let issued = issued.unwrap();
    assert_eq!(issued.session_id.as_str(), "s1");
    assert_eq!(
        issued.set_cookie,
        format!("sid={secret}; Max-Age=3600; Path=/; HttpOnly; SameSite=Strict; Secure")
    );
    assert_eq!(event.unwrap().key(), "session.issue.succeeded");

    // Validate it 200 seconds later: authenticated, and touched (granularity 90).
    let later = sessions(300).with_idle_timeout(1_800);
    let (cands, now) = match later.begin_validate(Some(&secret)).unwrap() {
        ValidateStart::Lookup { candidates, now } => (candidates, now),
        ValidateStart::Decided(_) => panic!("expected a lookup"),
    };
    assert_eq!(now, 300);
    let v = later.finish_validate(Ok(store.find_active_session(&cands, now)), now).unwrap();
    assert!(v.outcome.is_authenticated());
    assert_eq!(v.touch.as_ref().unwrap().as_str(), "s1");
    assert!(validation_event(&v.outcome).is_none());

    // Logout.
    let (clear, event) = later.finish_revoke(&SessionId::new("s1".into()), Ok(store.revoke_session(&SessionId::new("s1".into()), 300)));
    assert_eq!(clear.unwrap(), "sid=; Max-Age=0; Path=/; HttpOnly; SameSite=Strict; Secure");
    assert_eq!(event.unwrap().key(), "session.revoke.succeeded");
    let v = later.finish_validate(Ok(store.find_active_session(&cands, now)), now).unwrap();
    assert_eq!(v.outcome, SessionValidationOutcome::Unauthenticated { reason: SessionFailure::NotFound });
    assert!(v.touch.is_none());
    assert_eq!(validation_event(&v.outcome), Some(CodeAuthEvent::SessionValidateFailed));
}

#[test]
fn session_validation_without_lookup() {
    let m = sessions(0);
    match m.begin_validate(None).unwrap() {
        ValidateStart::Decided(o) => {
            assert_eq!(o, SessionValidationOutcome::Unauthenticated { reason: SessionFailure::NoCookie });
            assert!(validation_event(&o).is_none());
        },
        _ => panic!("expected a decision"),
    }
    for bad in ["", "ABCDEF", &"g".repeat(64), &"A".repeat(64), &"a".repeat(63), &"a".repeat(65)] {
        match m.begin_validate(Some(bad)).unwrap() {
            ValidateStart::Decided(o) => {
                assert_eq!(o, SessionValidationOutcome::Unauthenticated { reason: SessionFailure::Malformed });
                assert_eq!(validation_event(&o), Some(CodeAuthEvent::SessionValidateFailed));
            },
            _ => panic!("expected a decision for {bad:?}"),
        }
    }
    assert!(is_well_formed_session_secret(&"0123456789abcdef".repeat(4)));
}

#[test]
fn session_store_failures_and_touch() {
    let m = sessions(0);
    match m.finish_validate(Err(StoreError::Backend("db".into())), 0) {
        Err(e) => {
            assert_eq!(*e.public(), PublicSessionError::TemporarilyUnavailable);
            assert_eq!(e.display_text(), "service temporarily unavailable");
        },
        Ok(_) => panic!("expected an error"),
    }
    assert!(touch_event(SessionId::new("s".into()), Ok(())).is_none());
    match touch_event(SessionId::new("s".into()), Err(StoreError::Backend("x".into()))) {
        Some(CodeAuthEvent::SessionTouchFailed { session_id }) => assert_eq!(session_id.as_str(), "s"),
        _ => panic!("expected a touch-failed event"),
    }
    assert_eq!(touch_granularity(1_800), 90);
    assert_eq!(touch_granularity(100), 30);
    assert_eq!(touch_granularity(0), 30);
}

#[test]
fn session_rng_failure_fails_closed() {
    let a = auth(0);
    let mut codes = MemCodeStore::new();
    let mut rng = FixedBytesRandom::new(vec![9]);
    let pending = a.prepare_issue(&mut rng, CodeId::new("c1".into()), None, None, None).unwrap();
    let plain = pending.plain.expose().to_string();
    codes.insert_code(pending.record).unwrap();
    let (cands, now) = a.prepare_lookup(&plain, None).result.unwrap();
    let record = a.finish_find(Ok(codes.find_redeemable(&cands, now, None)), None).result.unwrap();
    let subject = SubjectId::new("u1".into());
    let req = a.claim_request(&record, &subject);
    let claimed = codes.claim_code(&req);
    let success = a.finish_claim(&record, subject.clone(), None, claimed).result.unwrap();
    match sessions(0).prepare_issue(&success, SessionId::new("s".into()), &mut AlwaysFailRandom) {
        Err(codlet::auth::SessionError::Internal { cause, .. }) => assert_eq!(cause, "rng: secure randomness unavailable"),
        _ => panic!("expected an internal error"),
    }
}

#[test]
fn session_secret_is_the_hex_of_the_drawn_bytes() {
    let a = auth(0);
    let mut codes = MemCodeStore::new();
    let mut rng = FixedBytesRandom::new(vec![3]);
    let pending = a.prepare_issue(&mut rng, CodeId::new("c1".into()), None, None, None).unwrap();
    let plain = pending.plain.expose().to_string();
    codes.insert_code(pending.record).unwrap();
    let (cands, now) = a.prepare_lookup(&plain, None).result.unwrap();
    let record = a.finish_find(Ok(codes.find_redeemable(&cands, now, None)), None).result.unwrap();
    let subject = SubjectId::new("u1".into());
    let req = a.claim_request(&record, &subject);
    let claimed = codes.claim_code(&req);
    let success = a.finish_claim(&record, subject.clone(), None, claimed).result.unwrap();

    let bytes: Vec<u8> = (0u8..32).collect();
    let m = sessions(10);
    let built = m.session_from_bytes(&success, SessionId::new("s2".into()), &bytes).unwrap();
    let expected: String = bytes.iter().map(|b| format!("{b:02x}")).collect();
    assert_eq!(built.secret.expose(), expected);
    assert_eq!(built.record.expires_at, 3_610);
    let mut rng = FixedBytesRandom::new(bytes.clone());
    let drawn = m.prepare_issue(&success, SessionId::new("s3".into()), &mut rng).unwrap();
    assert_eq!(drawn.secret.expose(), expected);

    let keyless = SessionManager::new(
        (),
        SecretHasher::new(StaticKeyProvider::single("v1", b"k".to_vec()).unwrap().retire_active()),
        FixedClock::at(10),
        NoopAuditSink,
        CookiePolicy::production_strict("sid", 3600),
    );
    match keyless.session_from_bytes(&success, SessionId::new("s4".into()), &bytes) {
        Err(codlet::auth::SessionError::Internal { cause, .. }) => {
            assert_eq!(cause, "key error: no active HMAC key configured")
        },
        _ => panic!("expected an internal error"),
    }
}

#[test]
fn issued_code_is_found_typed_in_lowercase() {
    let a = auth(100);
    let mut codes = MemCodeStore::new();
    let mut rng = FixedBytesRandom::new(vec![40, 7, 19]);
    let pending = a.prepare_issue(&mut rng, CodeId::new("c7".into()), None, None, None).unwrap();
    let plain = pending.plain.expose().to_string();
    codes.insert_code(pending.record).unwrap();
    let lower = plain.to_lowercase();
    assert_ne!(lower, plain);
    let (cands, now) = a.prepare_lookup(&lower, None).result.unwrap();
    let record = a.finish_find(Ok(codes.find_redeemable(&cands, now, None)), None).result.unwrap();
    assert_eq!(record.id.as_str(), "c7");
}
