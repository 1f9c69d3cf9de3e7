use codlet::code::{Alphabet, CodePolicy};
use codlet::error::PolicyError;

const HOUR: u64 = 3600;

fn entropy_bits(p: &CodePolicy) -> f64 {
    p.length() as f64 * (p.alphabet().len() as f64).log2()
}

#[test]
fn default_human_is_8_and_unambiguous() {
    let p = CodePolicy::default_human(HOUR).unwrap();
    assert_eq!(p.length(), 8);
    assert_eq!(p.alphabet().len(), 31);
    assert!((entropy_bits(&p) - 39.6).abs() < 0.2);
}

#[test]
fn new_rejects_below_minimum() {
    let err = CodePolicy::new(Alphabet::unambiguous(), 6, HOUR).unwrap_err();
    assert_eq!(err, PolicyError::LengthBelowMinimum { got: 6, min: 8 });
}

#[test]
fn short_compat_allows_six() {
    let p = CodePolicy::six_symbol(HOUR).unwrap();
    assert_eq!(p.length(), 6);
    assert!((entropy_bits(&p) - 29.7).abs() < 0.2);
}

#[test]
fn zero_length_and_zero_ttl_rejected() {
    assert_eq!(CodePolicy::short_compat(Alphabet::unambiguous(), 0, HOUR), Err(PolicyError::ZeroLength));
    assert_eq!(CodePolicy::default_human(0), Err(PolicyError::ZeroLength));
}

#[test]
fn policy_accessors_report_construction() {
    let p = CodePolicy::new(Alphabet::unambiguous(), 10, 120).unwrap();
    assert_eq!(p.length(), 10);
    assert_eq!(p.ttl(), 120);
    assert_eq!(p.max_raw_len(), 64);
    let long = CodePolicy::new(Alphabet::unambiguous(), 100, 120).unwrap();
    assert_eq!(long.max_raw_len(), 100);
}

#[test]
fn policy_error_texts() {
    assert_eq!(
        PolicyError::LengthBelowMinimum { got: 6, min: 8 }.display_text(),
        "code length 6 is below the secure minimum of 8"
    );
    assert_eq!(PolicyError::ZeroLength.display_text(), "code length must be non-zero");
}
