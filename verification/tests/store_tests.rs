use codlet::secret::{CodeId, SubjectId};
use codlet::store::code::expires_at_from_ttl;
use codlet::store::error::StoreError;
use codlet::store::ratelimit::{RateLimitKey, RateLimitPolicy, RateLimitUnavailable};
use codlet::store::token::TokenSubject;

#[test]
fn expires_at_from_ttl_adds_correctly() {
    assert_eq!(expires_at_from_ttl(1_000, 3600), 4_600);
    assert_eq!(expires_at_from_ttl(u64::MAX, 1), u64::MAX);
}

#[test]
fn default_policy_thresholds() {
    let p = RateLimitPolicy::default_invite();
    assert_eq!(p.max_failures, 10);
    assert!(!p.is_exceeded(9));
    assert!(p.is_exceeded(10));
    assert!(p.is_exceeded(11));
}

#[test]
fn fingerprint_is_prefix_not_full_key() {
    let k = RateLimitKey::new("abcdefghijklmnop");
    assert_eq!(k.fingerprint(), "abcdefgh");
    let short = RateLimitKey::new("ab");
    assert_eq!(short.fingerprint(), "ab");
}

#[test]
fn key_roundtrips() {
    let k = RateLimitKey::new("test-key");
    assert_eq!(k.as_str(), "test-key");
}

#[test]
fn default_policy_fails_closed_over_a_quarter_hour() {
    let p = RateLimitPolicy::default_invite();
    assert_eq!(p.window_secs, 900);
    assert_eq!(p.unavailable, RateLimitUnavailable::FailClosed);
}

#[test]
fn fingerprint_counts_characters_not_bytes() {
    assert_eq!(RateLimitKey::new("ééééééééé").fingerprint(), "éééééééé");
    assert_eq!(RateLimitKey::new("").fingerprint(), "");
}

#[test]
fn token_subject_binding_strings() {
    assert_eq!(TokenSubject::Anonymous.as_binding_str(), "anon");
    assert_eq!(TokenSubject::Authenticated(SubjectId::new("u1".into())).as_binding_str(), "auth:u1");
    assert_eq!(TokenSubject::Flow(CodeId::new("f9".into())).as_binding_str(), "flow:f9");
    assert!(!TokenSubject::Anonymous.same_as(&TokenSubject::Authenticated(SubjectId::new("anon".into()))));
}

#[test]
fn store_error_texts() {
    assert_eq!(StoreError::Backend("down".into()).display_text(), "store error: down");
    assert_eq!(StoreError::InvariantViolation("two rows".into()).display_text(), "store invariant violated: two rows");
}
