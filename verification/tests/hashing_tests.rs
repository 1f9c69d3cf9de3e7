use codlet::error::KeyError;
use codlet::hashing::{KeyProvider, KeyVersion, SecretDomain, SecretHasher, StaticKeyProvider, hex_lower};

fn hasher() -> SecretHasher<StaticKeyProvider> {
    let kp = StaticKeyProvider::single("v1", b"super-secret-key-material".to_vec()).unwrap();
    SecretHasher::new(kp)
}

#[test]
fn deterministic_same_inputs_same_key() {
    let h = hasher();
    let (a, va) = h.lookup_key(SecretDomain::Code, "ABCD2345").unwrap();
    let (b, vb) = h.lookup_key(SecretDomain::Code, "ABCD2345").unwrap();
    assert_eq!(a, b);
    assert_eq!(va, vb);
    assert_eq!(va.as_str(), "v1");
    assert_eq!(a.as_str().len(), 64);
    assert!(a.as_str().bytes().all(|c| c.is_ascii_hexdigit()));
}

#[test]
fn different_value_different_key() {
    let h = hasher();
    let (a, _) = h.lookup_key(SecretDomain::Code, "AAAAAAAA").unwrap();
    let (b, _) = h.lookup_key(SecretDomain::Code, "BBBBBBBB").unwrap();
    assert_ne!(a, b);
}

#[test]
fn domain_separation_distinguishes_same_value() {
    let h = hasher();
    let (code, _) = h.lookup_key(SecretDomain::Code, "SAME").unwrap();
    let (sess, _) = h.lookup_key(SecretDomain::Session, "SAME").unwrap();
    let (form, _) = h.lookup_key(SecretDomain::FormToken, "SAME").unwrap();
    let (flow, _) = h.lookup_key(SecretDomain::FlowTicket, "SAME").unwrap();
    let all = [&code, &sess, &form, &flow];
    for i in 0..all.len() {
        for j in (i + 1)..all.len() {
            assert_ne!(all[i], all[j], "domains {i},{j} collided");
        }
    }
}

#[test]
fn different_key_different_output() {
    let h1 = SecretHasher::new(StaticKeyProvider::single("v1", b"key-one".to_vec()).unwrap());
    let h2 = SecretHasher::new(StaticKeyProvider::single("v1", b"key-two".to_vec()).unwrap());
    let (a, _) = h1.lookup_key(SecretDomain::Code, "X").unwrap();
    let (b, _) = h2.lookup_key(SecretDomain::Code, "X").unwrap();
    assert_ne!(a, b);
}

#[test]
fn empty_key_rejected_at_construction() {
    assert_eq!(StaticKeyProvider::single("v1", Vec::new()).err(), Some(KeyError::InvalidKeyMaterial));
}

#[test]
fn key_version_round_trip_validation() {
    let kp = StaticKeyProvider::new("v2", b"key-two".to_vec(), vec![(KeyVersion::new("v1"), b"key-one".to_vec())])
        .unwrap();
    let h = SecretHasher::new(kp);
    let (active, av) = h.lookup_key(SecretDomain::Session, "tok").unwrap();
    assert_eq!(av.as_str(), "v2");
    let v1 = KeyVersion::new("v1");
    let prev = h.lookup_key_with_version(SecretDomain::Session, "tok", &v1).unwrap();
    assert_ne!(active, prev);
    let missing = KeyVersion::new("v9");
    assert_eq!(
        h.lookup_key_with_version(SecretDomain::Session, "tok", &missing).unwrap_err(),
        KeyError::MissingKeyVersion
    );
}

#[test]
fn lookup_key_ct_eq_matches_value_eq() {
    let h = hasher();
    let (a, _) = h.lookup_key(SecretDomain::Code, "ABCD2345").unwrap();
    let (b, _) = h.lookup_key(SecretDomain::Code, "ABCD2345").unwrap();
    let (c, _) = h.lookup_key(SecretDomain::Code, "DIFFEREN").unwrap();
    assert!(a.ct_eq(&b));
    assert!(!a.ct_eq(&c));
}

/// HMAC-SHA256 of "codlet/v1" "/" "lookup" 0x00 "code" 0x00 "ABCD2345"
/// under the key "super-secret-key-material", hex-encoded. A wrapper that
/// returned its message or key unchanged could not produce it.
#[test]
fn lookup_key_known_value() {
    let h = hasher();
    let (a, _) = h.lookup_key(SecretDomain::Code, "ABCD2345").unwrap();
    assert_eq!(a.as_str(), "61782054956aeb61f2e87d543fe47b0b9701585a541c40e8bbf427d6b6cf2bf5");
    assert_ne!(a.as_str(), hex_lower(b"ABCD2345"));
}

#[test]
fn candidates_cover_every_held_key_in_order() {
    let kp = StaticKeyProvider::new("v2", b"key-two".to_vec(), vec![(KeyVersion::new("v1"), b"key-one".to_vec())])
        .unwrap();
    let h = SecretHasher::new(kp);
    let cands = h.lookup_key_candidates(SecretDomain::Code, "X").unwrap();
    assert_eq!(cands.len(), 2);
    assert_eq!(cands[0].1.as_str(), "v2");
    assert_eq!(cands[1].1.as_str(), "v1");
    let (active, _) = h.lookup_key(SecretDomain::Code, "X").unwrap();
    let old = h.lookup_key_with_version(SecretDomain::Code, "X", &KeyVersion::new("v1")).unwrap();
    assert_eq!(cands[0].0, active);
    assert_eq!(cands[1].0, old);
}

#[test]
fn provider_hands_out_its_keys() {
    let kp = StaticKeyProvider::new("v2", b"key-two".to_vec(), vec![(KeyVersion::new("v1"), b"key-one".to_vec())])
        .unwrap();
    let active = kp.active_hmac_key().unwrap();
    assert_eq!(active.version.as_str(), "v2");
    assert_eq!(active.bytes, b"key-two");
    let old = kp.hmac_key_by_version(&KeyVersion::new("v1")).unwrap();
    assert_eq!(old.bytes, b"key-one");
    assert_eq!(kp.hmac_key_by_version(&KeyVersion::new("v3")).err(), Some(KeyError::MissingKeyVersion));
    assert_eq!(kp.all_hmac_keys().unwrap().len(), 2);
}

#[test]
fn hex_and_labels() {
    assert_eq!(hex_lower(&[0x00, 0x0f, 0xa5, 0xff]), "000fa5ff");
    assert_eq!(SecretDomain::Code.label(), "code");
    assert_eq!(SecretDomain::Session.label(), "session");
    assert_eq!(SecretDomain::FormToken.label(), "form_token");
    assert_eq!(SecretDomain::FlowTicket.label(), "flow_ticket");
}

#[test]
fn key_material_redacted_in_debug() {
    let kp = StaticKeyProvider::single("v1", b"secret-bytes".to_vec()).unwrap();
    let dbg = kp.debug_text();
    assert!(!dbg.contains("secret-bytes"), "key bytes leaked: {dbg}");
    assert!(dbg.contains("<redacted>"));
    let key = kp.active_hmac_key().unwrap();
    let kdbg = key.debug_text();
    assert!(!kdbg.contains("secret-bytes"));
}

#[test]
fn debug_texts_name_versions_only() {
    let kp = StaticKeyProvider::new("v2", b"k2".to_vec(), vec![(KeyVersion::new("v1"), b"k1".to_vec())]).unwrap();
    assert_eq!(kp.debug_text(), "StaticKeyProvider { active_version: v2, key_versions: 2, keys: <redacted> }");
    assert_eq!(kp.active_hmac_key().unwrap().debug_text(), "HmacKeyRef { version: v2, bytes: <redacted> }");
}

#[test]
fn missing_active_key_fails_closed() {
    // A provider whose active version points at no stored key.
    let kp = StaticKeyProvider::new("missing", b"retired".to_vec(), vec![(KeyVersion::new("v1"), b"k".to_vec())])
        .unwrap()
        .retire_active();
    let h = SecretHasher::new(kp);
    assert_eq!(h.lookup_key(SecretDomain::Code, "X").unwrap_err(), KeyError::MissingActiveKey);
    // The previous key still validates records written under it.
    assert!(h.lookup_key_with_version(SecretDomain::Code, "X", &KeyVersion::new("v1")).is_ok());
    assert_eq!(
        h.lookup_key_with_version(SecretDomain::Code, "X", &KeyVersion::new("missing")).unwrap_err(),
        KeyError::MissingKeyVersion
    );
}

#[test]
fn candidates_follow_the_key_list_and_match_versioned_lookups() {
    let kp = StaticKeyProvider::new("v2", b"key-two".to_vec(), vec![(KeyVersion::new("v1"), b"key-one".to_vec())])
        .unwrap();
    let h = SecretHasher::new(kp);
    let c = h.lookup_key_candidates(SecretDomain::Session, "tok").unwrap();
    assert_eq!(c.len(), 2);
    assert_eq!(c[0], h.lookup_key(SecretDomain::Session, "tok").unwrap());
    for (lk, v) in &c {
        assert_eq!(&h.lookup_key_with_version(SecretDomain::Session, "tok", v).unwrap(), lk);
    }
    assert_eq!(c[1].1.as_str(), "v1");
    let none = SecretHasher::new(
        StaticKeyProvider::new("v2", b"key-two".to_vec(), Vec::new()).unwrap().retire_active(),
    );
    assert_eq!(none.lookup_key_candidates(SecretDomain::Session, "tok").unwrap_err(), KeyError::MissingActiveKey);
}
