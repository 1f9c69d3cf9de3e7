use codlet::secret::{
    CodeId, FormTokenSecret, NormalizedCode, PlainCode, Purpose, ScopeKey, SecretString, SessionId, SessionSecret,
    SubjectId,
};

#[test]
fn secret_string_redacts_debug_and_display() {
    let s = SecretString::new("hunter2".to_string());
    assert_eq!(s.debug_text(), "SecretString(<redacted>)");
    assert_eq!(s.display_text(), "<redacted>");
    assert!(!s.debug_text().contains("hunter2"));
    assert!(!s.display_text().contains("hunter2"));
    assert_eq!(s.expose(), "hunter2");
}

#[test]
fn secret_newtypes_redact_debug() {
    let c = PlainCode::new("ABCD2345".to_string());
    let dbg = c.debug_text();
    assert!(!dbg.contains("ABCD2345"), "PlainCode Debug leaked plaintext: {dbg}");
    assert!(dbg.contains("<redacted>"));
    assert_eq!(c.expose(), "ABCD2345");
}

#[test]
fn id_newtype_displays_and_roundtrips() {
    let id = CodeId::new("abc123".to_string());
    assert_eq!(id.as_str(), "abc123");
    assert_eq!(id.display_text(), "abc123");
    assert_eq!(CodeId::from("x".to_string()).as_str(), "x");
}

#[test]
fn normalized_code_displays_plainly() {
    let n = NormalizedCode::new("ABCD2345".into());
    assert_eq!(n.display_text(), "ABCD2345");
    assert_eq!(n.as_str(), "ABCD2345");
}

fn purpose_check() {
    assert!(Purpose::new("").is_none());
    assert!(Purpose::new("logout").is_some());
}

fn scope_check() {
    let s = ScopeKey::new("community-42");
    assert_eq!(s.as_str(), "community-42");
    assert_eq!(s.display_text(), "community-42");
}

#[test]
fn secret_purpose_rejects_empty() {
    purpose_check();
}

#[test]
fn secret_scope_key_roundtrip() {
    scope_check();
}

#[test]
fn tests_purpose_rejects_empty() {
    purpose_check();
}

#[test]
fn tests_scope_key_roundtrip() {
    scope_check();
}

#[test]
fn other_secret_wrappers_redact_and_expose() {
    let s = SessionSecret::new("abc".into());
    assert_eq!(s.debug_text(), "SessionSecret(SecretString(<redacted>))");
    assert_eq!(s.expose(), "abc");
    let f = FormTokenSecret::new("tok".into());
    assert_eq!(f.debug_text(), "FormTokenSecret(SecretString(<redacted>))");
    assert_eq!(f.expose(), "tok");
    let sec = SecretString::new(String::new());
    assert!(sec.is_empty());
    assert_eq!(SecretString::new("xyz".into()).len(), 3);
}

#[test]
fn ids_compare_by_content() {
    assert!(SubjectId::new("u".into()).same_as(&SubjectId::from("u".to_string())));
    assert!(!SessionId::new("a".into()).same_as(&SessionId::new("b".into())));
    assert_eq!(Purpose::new("logout").unwrap().display_text(), "logout");
    assert_eq!(SessionId::new("s-1".into()).display_text(), "s-1");
}
