use codlet::secret::{SessionId, SubjectId};
use codlet::state::claim::{ClaimOutcome, classify_claim};
use codlet::state::code::{CodeLookupOutcome, classify_code_lookup};
use codlet::state::session::{SessionFailure, SessionValidationOutcome, classify_session};
use codlet::state::token::{TokenConsumeOutcome, classify_token_consume};
use codlet::store::session::ActiveSessionRecord;

// ── claims ──────────────────────────────────────────────────────────────────

fn claim_one() {
    assert_eq!(classify_claim(1), ClaimOutcome::Won);
}

fn claim_zero() {
    assert_eq!(classify_claim(0), ClaimOutcome::Lost);
}

fn claim_many() {
    for bad in [2usize, 100] {
        assert_eq!(classify_claim(bad), ClaimOutcome::Lost, "changed={bad} must be Lost");
    }
}

fn claim_only_one() {
    for n in 0usize..=10 {
        let outcome = classify_claim(n);
        if n == 1 {
            assert_eq!(outcome, ClaimOutcome::Won);
        } else {
            assert_eq!(outcome, ClaimOutcome::Lost);
        }
    }
}

#[test]
fn claim_one_row_changed_wins() {
    claim_one();
}

#[test]
fn claim_zero_rows_lost() {
    claim_zero();
}

#[test]
fn claim_invariant_violation_returns_lost_conservatively() {
    claim_many();
}

#[test]
fn claim_only_exactly_one_produces_won() {
    claim_only_one();
}

#[test]
fn tests_one_row_changed_wins() {
    claim_one();
}

#[test]
fn tests_zero_rows_lost() {
    claim_zero();
}

#[test]
fn tests_invariant_violation_returns_lost_conservatively() {
    claim_many();
}

#[test]
fn tests_only_exactly_one_produces_won() {
    claim_only_one();
}

// ── code lookups ────────────────────────────────────────────────────────────

const NOW: u64 = 1_000;

#[test]
fn redeemable_when_nothing_is_set() {
    assert_eq!(classify_code_lookup(None, None, NOW + 1, NOW), CodeLookupOutcome::Redeemable);
}

#[test]
fn revoked_alone() {
    assert_eq!(classify_code_lookup(Some(NOW), None, NOW + 1, NOW), CodeLookupOutcome::Revoked);
}

#[test]
fn expired_alone() {
    assert_eq!(classify_code_lookup(None, None, NOW, NOW), CodeLookupOutcome::Expired);
    assert_eq!(classify_code_lookup(None, None, NOW - 1, NOW), CodeLookupOutcome::Expired);
}

#[test]
fn used_alone() {
    assert_eq!(classify_code_lookup(None, Some(NOW), NOW + 1, NOW), CodeLookupOutcome::Used);
}

#[test]
fn tests_revoked_and_expired_classifies_revoked() {
    assert_eq!(
        classify_code_lookup(Some(NOW), None, NOW, NOW),
        CodeLookupOutcome::Revoked,
        "revoked must win over expired"
    );
}

#[test]
fn revoked_and_used_classifies_revoked() {
    assert_eq!(
        classify_code_lookup(Some(NOW), Some(NOW), NOW + 1, NOW),
        CodeLookupOutcome::Revoked,
        "revoked must win over used"
    );
}

#[test]
fn expired_and_used_classifies_expired() {
    assert_eq!(
        classify_code_lookup(None, Some(NOW), NOW, NOW),
        CodeLookupOutcome::Expired,
        "expired must win over used when not revoked"
    );
}

#[test]
fn revoked_expired_and_used_classifies_revoked() {
    assert_eq!(
        classify_code_lookup(Some(NOW), Some(NOW), NOW, NOW),
        CodeLookupOutcome::Revoked,
        "revoked must win over every other combination"
    );
}

// ── sessions ────────────────────────────────────────────────────────────────

fn subject() -> SubjectId {
    SubjectId::new("user-42".to_string())
}

fn sid() -> SessionId {
    SessionId::new("sess-abc".to_string())
}

fn record(created_at: u64, expires_at: u64, last_seen_at: Option<u64>) -> ActiveSessionRecord {
    record_with_revocation(created_at, expires_at, last_seen_at, None)
}

fn record_with_revocation(
    created_at: u64,
    expires_at: u64,
    last_seen_at: Option<u64>,
    revoked_at: Option<u64>,
) -> ActiveSessionRecord {
    ActiveSessionRecord { id: sid(), subject: subject(), created_at, expires_at, last_seen_at, revoked_at }
}

#[test]
fn some_record_authenticates() {
    let out = classify_session(Some(record(0, 9_999_999, None)), None, 0);
    assert!(out.is_authenticated());
    assert_eq!(out.subject().unwrap().as_str(), "user-42");
}

#[test]
fn none_is_unauthenticated_not_found() {
    let out = classify_session(None, None, 0);
    assert_eq!(out, SessionValidationOutcome::Unauthenticated { reason: SessionFailure::NotFound });
    assert!(!out.is_authenticated());
    assert!(out.subject().is_none());
}

#[test]
fn authenticated_carries_session_id_and_expiry() {
    let out = classify_session(Some(record(0, 12_345, None)), None, 0);
    if let SessionValidationOutcome::Authenticated { session_id, expires_at, .. } = out {
        assert_eq!(session_id.as_str(), "sess-abc");
        assert_eq!(expires_at, 12_345);
    } else {
        panic!("expected Authenticated");
    }
}

#[test]
fn idle_timeout_none_ignores_last_seen() {
    let out = classify_session(Some(record(0, 9_999_999, None)), None, 5_000_000);
    assert!(out.is_authenticated());
}

#[test]
fn idle_timeout_enabled_expires_a_stale_session() {
    let idle_timeout = 1_800;
    let out = classify_session(Some(record(0, 9_999_999, None)), Some(idle_timeout), 1_800);
    assert_eq!(out, SessionValidationOutcome::Unauthenticated { reason: SessionFailure::IdleTimeout });
}

#[test]
fn idle_timeout_enabled_authenticates_a_recently_touched_session() {
    let idle_timeout = 1_800;
    let out = classify_session(Some(record(0, 9_999_999, Some(1_000))), Some(idle_timeout), 1_799);
    assert!(out.is_authenticated());
}

#[test]
fn idle_timeout_falls_back_to_created_at_when_never_touched() {
    let idle_timeout = 1_800;
    let out = classify_session(Some(record(100, 9_999_999, None)), Some(idle_timeout), 1_899);
    assert!(out.is_authenticated());
    let out = classify_session(Some(record(100, 9_999_999, None)), Some(idle_timeout), 1_900);
    assert_eq!(out, SessionValidationOutcome::Unauthenticated { reason: SessionFailure::IdleTimeout });
}

#[test]
fn a_record_with_an_unreached_expiry_and_recent_idle_activity_authenticates() {
    let idle_timeout = 1_800;
    let out = classify_session(Some(record(0, 100, Some(50))), Some(idle_timeout), 60);
    assert!(out.is_authenticated());
}

#[test]
fn revoked_alone_is_unauthenticated_revoked() {
    let out = classify_session(Some(record_with_revocation(0, 9_999_999, None, Some(5))), None, 10);
    assert_eq!(out, SessionValidationOutcome::Unauthenticated { reason: SessionFailure::Revoked });
}

#[test]
fn expired_alone_is_unauthenticated_expired() {
    let out = classify_session(Some(record(0, 100, None)), None, 100);
    assert_eq!(out, SessionValidationOutcome::Unauthenticated { reason: SessionFailure::Expired });
    let out = classify_session(Some(record(0, 100, None)), None, 99);
    assert!(out.is_authenticated());
}

#[test]
fn revoked_and_expired_classifies_revoked() {
    let out = classify_session(Some(record_with_revocation(0, 100, None, Some(50))), None, 100);
    assert_eq!(
        out,
        SessionValidationOutcome::Unauthenticated { reason: SessionFailure::Revoked },
        "revoked must win over expired"
    );
}

#[test]
fn absolute_expiry_wins_even_when_idle_check_would_pass() {
    let idle_timeout = 1_800;
    let out = classify_session(Some(record(0, 100, Some(99))), Some(idle_timeout), 100);
    assert_eq!(
        out,
        SessionValidationOutcome::Unauthenticated { reason: SessionFailure::Expired },
        "absolute expiry must win over a passing idle-timeout check"
    );
}

#[test]
fn revoked_wins_over_idle_timeout_too() {
    let idle_timeout = 1_800;
    let out = classify_session(Some(record_with_revocation(0, 9_999_999, Some(99), Some(5))), Some(idle_timeout), 100);
    assert_eq!(out, SessionValidationOutcome::Unauthenticated { reason: SessionFailure::Revoked });
}

#[test]
fn idle_check_is_saturating_when_last_seen_is_in_the_future() {
    let out = classify_session(Some(record(0, 9_999_999, Some(5_000))), Some(10), 100);
    assert!(out.is_authenticated());
}

// ── form tokens ─────────────────────────────────────────────────────────────

#[test]
fn consume_winner_proceeds() {
    assert_eq!(classify_token_consume(1, true, false, true), TokenConsumeOutcome::Proceed);
}

#[test]
fn consume_loser_of_race_sees_replay() {
    assert_eq!(classify_token_consume(0, true, true, true), TokenConsumeOutcome::Replay);
}

#[test]
fn consume_unknown_token_is_invalid() {
    assert_eq!(classify_token_consume(0, false, false, false), TokenConsumeOutcome::Invalid);
}

#[test]
fn consume_binding_mismatch_is_invalid() {
    assert_eq!(classify_token_consume(0, true, false, false), TokenConsumeOutcome::Invalid);
}

#[test]
fn consume_expired_unconsumed_is_invalid() {
    assert_eq!(classify_token_consume(0, true, false, true), TokenConsumeOutcome::Invalid);
}

#[test]
fn consume_never_double_proceeds() {
    for found in [false, true] {
        for consumed in [false, true] {
            for binding in [false, true] {
                assert_ne!(
                    classify_token_consume(0, found, consumed, binding),
                    TokenConsumeOutcome::Proceed,
                    "changed==0 must never proceed (found={found} consumed={consumed} binding={binding})"
                );
            }
        }
    }
}

#[test]
fn changed_greater_than_one_is_conservatively_invalid() {
    for bad in [2usize, 100] {
        assert_ne!(
            classify_token_consume(bad, true, false, true),
            TokenConsumeOutcome::Proceed,
            "changed={bad} must not Proceed"
        );
    }
}

#[test]
fn not_found_always_invalid_regardless_of_other_flags() {
    for consumed in [false, true] {
        for binding in [false, true] {
            assert_eq!(
                classify_token_consume(0, false, consumed, binding),
                TokenConsumeOutcome::Invalid,
                "not found must always be Invalid"
            );
        }
    }
}
