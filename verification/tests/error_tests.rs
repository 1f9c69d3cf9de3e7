use codlet::auth::{FormTokenError, RedeemError, SessionError};
use codlet::error::{
    CodeInputError, KeyError, PublicFormError, PublicRedemptionError, PublicSessionError, RedemptionFailReason,
};
use codlet::store::error::StoreError;

#[test]
fn public_mapping_collapses_enumeration_sensitive_reasons() {
    for r in [
        RedemptionFailReason::InvalidFormat,
        RedemptionFailReason::NotFound,
        RedemptionFailReason::Expired,
        RedemptionFailReason::Revoked,
        RedemptionFailReason::AlreadyUsed,
    ] {
        assert_eq!(PublicRedemptionError::from_reason(&r), PublicRedemptionError::InvalidOrExpired);
    }
    assert_eq!(PublicRedemptionError::from_reason(&RedemptionFailReason::RateLimited), PublicRedemptionError::RateLimited);
    assert_eq!(
        PublicRedemptionError::from_reason(&RedemptionFailReason::StoreUnavailable),
        PublicRedemptionError::TemporarilyUnavailable
    );
    assert_eq!(
        PublicRedemptionError::from_reason(&RedemptionFailReason::KeyFailure),
        PublicRedemptionError::TemporarilyUnavailable
    );
}

#[test]
fn public_messages() {
    assert_eq!(PublicRedemptionError::InvalidOrExpired.message(), "invalid or expired code");
    assert_eq!(PublicRedemptionError::RateLimited.message(), "too many attempts \u{2014} please wait and try again");
    assert_eq!(PublicSessionError::MissingOrExpired.message(), "session missing or expired \u{2014} please sign in again");
    assert_eq!(
        PublicFormError::ExpiredOrInvalid.message(),
        "form expired or invalid \u{2014} please reload the page and try again"
    );
}

#[test]
fn error_variants_and_texts() {
    let e = RedeemError::from_store(StoreError::InvariantViolation("x".into()));
    assert_eq!(*e.public(), PublicRedemptionError::TemporarilyUnavailable);
    assert_eq!(e.display_text(), "service temporarily unavailable");
    match e {
        RedeemError::Internal { cause, .. } => assert_eq!(cause, "store invariant violated: x"),
        _ => panic!("expected internal"),
    }
    let s = SessionError::from_key(KeyError::MissingKeyVersion);
    match &s {
        SessionError::Internal { cause, .. } => assert_eq!(cause, "key error: HMAC key version not available"),
        _ => panic!("expected internal"),
    }
    let nf = SessionError::NotFound { public: PublicSessionError::MissingOrExpired };
    assert_eq!(nf.display_text(), "session missing or expired \u{2014} please sign in again");
    let f = FormTokenError::from_key(KeyError::InvalidKeyMaterial);
    assert_eq!(*f.public(), PublicFormError::TemporarilyUnavailable);
    match f {
        FormTokenError::Internal { cause, .. } => assert_eq!(cause, "key error: HMAC key material is invalid"),
        _ => panic!("expected internal"),
    }
    let inv = FormTokenError::Invalid { public: PublicFormError::ExpiredOrInvalid };
    assert_eq!(*inv.public(), PublicFormError::ExpiredOrInvalid);
    assert_eq!(FormTokenError::from_store(StoreError::Backend("b".into())).display_text(), "service temporarily unavailable");
    assert_eq!(CodeInputError::TooLongRaw.message(), "code input exceeds maximum raw length");
    assert_eq!(KeyError::MissingActiveKey.message(), "no active HMAC key configured");
}
