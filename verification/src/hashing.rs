//! Secret hashing, key providers, domain separation, and key versioning.
//!
//! Every persisted secret is stored only as a keyed lookup value, never in
//! plaintext. The lookup message is
//!
//! ```text
//! FORMAT_VERSION || "/" || "lookup" || 0x00 || domain_label || 0x00 || secret_bytes
//! ```
//!
//! and the lookup key is the lowercase hex of its HMAC-SHA256. The fixed
//! context and the `0x00` separators keep the domain label and the secret
//! apart, so two domains never share a message. Every derivation is tagged
//! with the version of the key that produced it, so keys can be rotated.

use vstd::prelude::*;
use crate::FORMAT_VERSION;
use crate::crypto::{hmac_sha256, hmac_sha256_bytes, ct_eq_bytes};
use crate::error::KeyError;
use crate::text::{decimal, push_bytes, push_char, push_str, u64_to_decimal};
use vstd::utf8::encode_utf8;

verus! {

/// Identifier of the key version that produced a lookup key. Not secret.
#[derive(Debug, PartialEq, Eq, Hash)]
pub struct KeyVersion(String);

impl View for KeyVersion {
    type V = Seq<char>;

    closed spec fn view(&self) -> Seq<char> {
        self.0@
    }
}

impl Clone for KeyVersion {
    fn clone(&self) -> (r: Self)
        ensures
            r@ == self@,
    {
        KeyVersion(self.0.clone())
    }
}

impl KeyVersion {
    /// Wrap a version label.
    pub fn new(value: &str) -> (r: Self)
        ensures
            r@ == value@,
    {
        KeyVersion(value.to_owned())
    }

    /// Borrow the version label.
    pub fn as_str(&self) -> (r: &str)
        ensures
            r@ == self@,
    {
        self.0.as_str()
    }

    /// The display rendering: the label itself.
    pub fn display_text(&self) -> (r: String)
        ensures
            r@ == self@,
    {
        self.0.clone()
    }

    /// Whether two versions are the same label.
    pub fn same_as(&self, other: &KeyVersion) -> (r: bool)
        ensures
            r == (self@ == other@),
    {
        self.0 == other.0
    }
}

/// A keyed lookup value: the lowercase-hex HMAC of a domain-separated message.
/// Contains no plaintext but is still the lookup index; compare with
/// [`LookupKey::ct_eq`] where timing could be observed.
#[derive(Debug, PartialEq, Eq, Hash)]
pub struct LookupKey(String);

impl View for LookupKey {
    type V = Seq<char>;

    closed spec fn view(&self) -> Seq<char> {
        self.0@
    }
}

impl Clone for LookupKey {
    fn clone(&self) -> (r: Self)
        ensures
            r@ == self@,
    {
        LookupKey(self.0.clone())
    }
}

impl LookupKey {
    /// Borrow the hex digest.
    pub fn as_str(&self) -> (r: &str)
        ensures
            r@ == self@,
    {
        self.0.as_str()
    }

    /// Constant-time equality over the hex bytes. Only the length may leak;
    /// lookup keys are fixed-width.
    pub fn ct_eq(&self, other: &LookupKey) -> (r: bool)
        ensures
            r == (self@ == other@),
    {
        let a = self.0.as_str().as_bytes();
        let b = other.0.as_str().as_bytes();
        proof {
            vstd::utf8::encode_utf8_decode_utf8(self@);
            vstd::utf8::encode_utf8_decode_utf8(other@);
        }
        if a.len() != b.len() {
            return false;
        }
        ct_eq_bytes(a, b)
    }
}

/// The role a secret plays. Part of the lookup message, so the same plaintext
/// in two roles derives two different keys.
#[derive(Debug, Clone, Copy, PartialEq, Eq, Hash, Structural)]
pub enum SecretDomain {
    /// One-time code lookup.
    Code,
    /// Session secret lookup.
    Session,
    /// Form-token lookup.
    FormToken,
    /// Pre-auth flow / join-ticket lookup.
    FlowTicket,
}

/// The stable wire label of a domain.
pub open spec fn domain_label(d: SecretDomain) -> Seq<char> {
    match d {
        SecretDomain::Code => "code"@,
        SecretDomain::Session => "session"@,
        SecretDomain::FormToken => "form_token"@,
        SecretDomain::FlowTicket => "flow_ticket"@,
    }
}

impl SecretDomain {
    /// The stable wire label embedded in the lookup message. Changing these
    /// strings changes every stored lookup key.
    pub fn label(self) -> (r: &'static str)
        ensures
            r@ == domain_label(self),
    {
        match self {
            SecretDomain::Code => "code",
            SecretDomain::Session => "session",
            SecretDomain::FormToken => "form_token",
            SecretDomain::FlowTicket => "flow_ticket",
        }
    }
}

/// The message whose HMAC is the lookup key of `value` in `domain`.
pub open spec fn lookup_message(domain: SecretDomain, value: Seq<char>) -> Seq<u8> {
    encode_utf8(FORMAT_VERSION@) + encode_utf8("/"@) + encode_utf8("lookup"@) + seq![0u8]
        + encode_utf8(domain_label(domain)) + seq![0u8] + encode_utf8(value)
}

/// The lowercase hex digit for a nibble `n < 16`.
pub open spec fn hex_digit(n: int) -> char {
    if n < 10 {
        (48 + n) as char
    } else {
        (87 + n) as char
    }
}

/// Lowercase hex encoding, two digits per byte, high nibble first.
pub open spec fn hex_lower_spec(bytes: Seq<u8>) -> Seq<char>
    decreases bytes.len(),
{
    if bytes.len() == 0 {
        Seq::empty()
    } else {
        hex_lower_spec(bytes.drop_last()) + seq![
            hex_digit(bytes.last() as int / 16),
            hex_digit(bytes.last() as int % 16),
        ]
    }
}

/// The lookup key of `value` in `domain` under key bytes `key`.
pub open spec fn derive_spec(key: Seq<u8>, domain: SecretDomain, value: Seq<char>) -> Seq<char> {
    hex_lower_spec(hmac_sha256(key, lookup_message(domain, value)))
}

fn hex_digit_exec(n: u8) -> (c: char)
    requires
        n < 16,
    ensures
        c == hex_digit(n as int),
{
    if n < 10 {
        (48 + n) as char
    } else {
        (87 + n) as char
    }
}

/// Lowercase hex encoding of `bytes`.
pub fn hex_lower(bytes: &[u8]) -> (r: String)
    ensures
        r@ == hex_lower_spec(bytes@),
{
    let mut s = String::new();
    let n = bytes.len();
    let mut i: usize = 0;
    while i < n
        invariant
            n == bytes@.len(),
            i <= n,
            s@ == hex_lower_spec(bytes@.take(i as int)),
        decreases n - i,
    {
        let b = bytes[i];
        let hi = b >> 4;
        let lo = b & 0x0f;
        assert(hi == b / 16 && lo == b % 16) by (bit_vector)
            requires
                hi == b >> 4,
                lo == b & 0x0f,
        ;
        push_char(&mut s, hex_digit_exec(hi));
        push_char(&mut s, hex_digit_exec(lo));
        proof {
            let t = bytes@.take(i + 1);
            assert(t.drop_last() == bytes@.take(i as int));
            assert(t.last() == b);
        }
        i = i + 1;
    }
    assert(bytes@.take(n as int) == bytes@);
    s
}

/// Whether `s` has the shape of a lookup key: 64 lowercase hex digits.
pub open spec fn is_lookup_key_text(s: Seq<char>) -> bool {
    s.len() == 64 && forall|i: int| 0 <= i < s.len() ==> is_lower_hex_char(#[trigger] s[i])
}

/// Derive the lookup key: lowercase hex of the HMAC-SHA256 of the lookup
/// message under `key_bytes`.
fn derive(key_bytes: &[u8], domain: SecretDomain, value: &str) -> (r: LookupKey)
    ensures
        r@ == derive_spec(key_bytes@, domain, value@),
        is_lookup_key_text(r@),
{
    let mut msg: Vec<u8> = Vec::new();
    push_bytes(&mut msg, FORMAT_VERSION.as_bytes());
    push_bytes(&mut msg, "/".as_bytes());
    push_bytes(&mut msg, "lookup".as_bytes());
    msg.push(0u8);
    push_bytes(&mut msg, domain.label().as_bytes());
    msg.push(0u8);
    push_bytes(&mut msg, value.as_bytes());
    assert(msg@ == lookup_message(domain, value@));
    let digest = hmac_sha256_bytes(key_bytes, msg.as_slice());
    proof {
        lemma_lookup_key_shape(key_bytes@, domain, value@);
    }
    LookupKey(hex_lower(digest.as_slice()))
}

/// A borrowed key plus the version that identifies it.
pub struct HmacKeyRef<'a> {
    /// The version label of this key.
    pub version: KeyVersion,
    /// The raw key bytes. Never logged or rendered.
    pub bytes: &'a [u8],
}

impl HmacKeyRef<'_> {
    /// A diagnostic rendering that names the version and never the key bytes.
    pub fn debug_text(&self) -> (r: String)
        ensures
            r@ == "HmacKeyRef { version: "@ + self.version@ + ", bytes: <redacted> }"@,
    {
        let mut s = "HmacKeyRef { version: ".to_owned();
        push_str(&mut s, self.version.as_str());
        push_str(&mut s, ", bytes: <redacted> }");
        s
    }
}

/// A key ring as the contracts see it: `(version, key bytes)` pairs in order.
pub type KeyRing = Seq<(Seq<char>, Seq<u8>)>;

/// The key ring a list of borrowed keys describes.
pub open spec fn key_refs_view(v: Seq<HmacKeyRef<'_>>) -> KeyRing {
    v.map_values(|k: HmacKeyRef<'_>| (k.version@, k.bytes@))
}

/// The bytes of the first key in `ring` labelled `version`, if any.
pub open spec fn key_lookup(ring: KeyRing, version: Seq<char>) -> Option<Seq<u8>>
    decreases ring.len(),
{
    if ring.len() == 0 {
        None
    } else if ring[0].0 == version {
        Some(ring[0].1)
    } else {
        key_lookup(ring.drop_first(), version)
    }
}

/// Supplies HMAC key material. Missing material is an error: no fallback key
/// exists.
pub trait KeyProvider {
    /// The active key as `(version, bytes)`, if one is configured.
    spec fn spec_active_key(&self) -> Option<(Seq<char>, Seq<u8>)>;

    /// The bytes of the key labelled `version`, if held.
    spec fn spec_key_for_version(&self, version: Seq<char>) -> Option<Seq<u8>>;

    /// Every held key, active first, if any is configured.
    spec fn spec_all_keys(&self) -> Option<KeyRing>;

    /// How the three descriptions of a provider's keys agree: the active key
    /// is the first of all held keys, a held key list is never empty, and the
    /// key of a version is the first held key with that version.
    proof fn lemma_keys_agree(&self)
        ensures
            self.spec_active_key() matches Some((v, b)) ==> (self.spec_all_keys() matches Some(ring)
                && ring.len() > 0 && ring[0] == (v, b)),
            self.spec_all_keys() matches Some(ring) ==> ring.len() > 0,
            forall|v: Seq<char>|
                #[trigger] self.spec_key_for_version(v) == match self.spec_all_keys() {
                    Some(ring) => key_lookup(ring, v),
                    None => None,
                },
    ;

    /// The active key used for new derivations; `MissingActiveKey` if none
    /// is configured.
    fn active_hmac_key(&self) -> (r: Result<HmacKeyRef<'_>, KeyError>)
        ensures
            r matches Ok(k) ==> self.spec_active_key() == Some((k.version@, k.bytes@)),
            r is Err ==> self.spec_active_key() is None,
            r matches Err(e) ==> e == KeyError::MissingActiveKey,
    ;

    /// A specific historical key, for records written under an older version;
    /// `MissingKeyVersion` if that version is not held (callers fail closed,
    /// no fallback).
    fn hmac_key_by_version(&self, version: &KeyVersion) -> (r: Result<HmacKeyRef<'_>, KeyError>)
        ensures
            r matches Ok(k) ==> k.version@ == version@ && self.spec_key_for_version(version@)
                == Some(k.bytes@),
            r is Err ==> self.spec_key_for_version(version@) is None,
            r matches Err(e) ==> e == KeyError::MissingKeyVersion,
    ;

    /// All held keys, active first, for verification candidates. Never empty
    /// when it succeeds; `MissingActiveKey` when no key is held.
    fn all_hmac_keys(&self) -> (r: Result<Vec<HmacKeyRef<'_>>, KeyError>)
        ensures
            r matches Ok(v) ==> self.spec_all_keys() == Some(key_refs_view(v@)) && v@.len() > 0,
            r is Err ==> self.spec_all_keys() is None,
            r matches Err(e) ==> e == KeyError::MissingActiveKey,
    ;
}

/// A key provider holding an active key and zero or more previous keys in
/// memory. There is no empty constructor: real key bytes are required.
pub struct StaticKeyProvider {
    active_version: KeyVersion,
    keys: Vec<(KeyVersion, Vec<u8>)>,
}

/// Whether a key list holds its active version first, or not at all.
pub open spec fn active_first_or_absent(ring: KeyRing, active: Seq<char>) -> bool {
    ring.len() == 0 || ring[0].0 == active || forall|i: int| 0 <= i < ring.len() ==> #[trigger] ring[i].0 != active
}

impl Clone for StaticKeyProvider {
    fn clone(&self) -> (r: Self)
        ensures
            r.ring() == self.ring(),
            r.active_version() == self.active_version(),
    {
        let mut keys: Vec<(KeyVersion, Vec<u8>)> = Vec::new();
        let n = self.keys.len();
        let mut i: usize = 0;
        while i < n
            invariant
                n == self.keys@.len(),
                i <= n,
                keys@.len() == i,
                forall|k: int| 0 <= k < i ==> (#[trigger] keys@[k]).0@ == self.keys@[k].0@ && keys@[k].1@
                    == self.keys@[k].1@,
            decreases n - i,
        {
            let v = self.keys[i].0.clone();
            let b = self.keys[i].1.clone();
            assert(b@ == self.keys@[i as int].1@);
            keys.push((v, b));
            i = i + 1;
        }
        proof {
            use_type_invariant(self);
        }
        let ghost ring = self.ring();
        let av = self.active_version.clone();
        assert(ring_view(keys@) =~= ring);
        let r = StaticKeyProvider { active_version: av, keys };
        r
    }
}

/// Looks up `version` in `keys` starting at `i`: the first match, if any.
fn find_key_index(keys: &Vec<(KeyVersion, Vec<u8>)>, version: &KeyVersion) -> (r: Option<usize>)
    ensures
        match r {
            Some(i) => i < keys@.len() && keys@[i as int].0@ == version@ && key_lookup(
                ring_view(keys@),
                version@,
            ) == Some(keys@[i as int].1@),
            None => key_lookup(ring_view(keys@), version@) is None,
        },
{
    let n = keys.len();
    let mut i: usize = 0;
    assert(ring_view(keys@).skip(0) == ring_view(keys@));
    while i < n
        invariant
            n == keys@.len(),
            i <= n,
            key_lookup(ring_view(keys@), version@) == key_lookup(
                ring_view(keys@).skip(i as int),
                version@,
            ),
        decreases n - i,
    {
        let ghost rest = ring_view(keys@).skip(i as int);
        assert(rest[0] == (keys@[i as int].0@, keys@[i as int].1@));
        if keys[i].0.same_as(version) {
            return Some(i);
        }
        assert(rest.drop_first() == ring_view(keys@).skip(i + 1));
        i = i + 1;
    }
    None
}

/// The ring a stored key list describes.
pub open spec fn ring_view(keys: Seq<(KeyVersion, Vec<u8>)>) -> KeyRing {
    keys.map_values(|e: (KeyVersion, Vec<u8>)| (e.0@, e.1@))
}

impl StaticKeyProvider {
    /// A diagnostic rendering: the active version and how many keys are
    /// held, never the key bytes.
    pub fn debug_text(&self) -> (r: String)
        ensures
            r@ == "StaticKeyProvider { active_version: "@ + self.active_version() + ", key_versions: "@
                + decimal(self.ring().len()) + ", keys: <redacted> }"@,
    {
        let mut s = "StaticKeyProvider { active_version: ".to_owned();
        push_str(&mut s, self.active_version.as_str());
        push_str(&mut s, ", key_versions: ");
        let n = u64_to_decimal(self.keys.len() as u64);
        push_str(&mut s, n.as_str());
        push_str(&mut s, ", keys: <redacted> }");
        s
    }

    /// The held keys, in order: active first, then previous versions.
    pub closed spec fn ring(&self) -> KeyRing {
        ring_view(self.keys@)
    }

    /// The version label of the active key.
    pub closed spec fn active_version(&self) -> Seq<char> {
        self.active_version@
    }

    /// The active version is held first, or not at all.
    #[verifier::type_invariant]
    closed spec fn inv(self) -> bool {
        active_first_or_absent(ring_view(self.keys@), self.active_version@)
    }

    /// Drop every key of the active version and keep the previous keys, for
    /// validating records written under them. The provider then derives no
    /// new lookup keys: asking for the active key fails closed.
    pub fn retire_active(self) -> (r: Self)
        ensures
            r.active_version() == self.active_version(),
            r.ring() == self.ring().filter(|e: (Seq<char>, Seq<u8>)| e.0 != self.active_version()),
            forall|i: int| 0 <= i < r.ring().len() ==> #[trigger] r.ring()[i].0 != r.active_version(),
    {
        let ghost ring = self.ring();
        let ghost active = self.active_version();
        let ghost pred = |e: (Seq<char>, Seq<u8>)| e.0 != active;
        let StaticKeyProvider { active_version, keys } = self;
        let mut kept: Vec<(KeyVersion, Vec<u8>)> = Vec::new();
        let n = keys.len();
        let mut i: usize = 0;
        while i < n
            invariant
                n == keys@.len(),
                i <= n,
                ring == ring_view(keys@),
                active == active_version@,
                pred == (|e: (Seq<char>, Seq<u8>)| e.0 != active),
                ring_view(kept@) == ring.take(i as int).filter(pred),
                forall|j: int| 0 <= j < kept@.len() ==> #[trigger] kept@[j].0@ != active,
            decreases n - i,
        {
            proof {
                assert(ring.take(i + 1) == ring.take(i as int).push(ring[i as int]));
                ring.take(i as int).lemma_filter_push(ring[i as int], pred);
            }
            if !keys[i].0.same_as(&active_version) {
                let v = keys[i].0.clone();
                let b = keys[i].1.clone();
                let ghost before = kept@;
                kept.push((v, b));
                assert(ring_view(kept@) == ring_view(before).push(ring[i as int]));
            }
            i = i + 1;
        }
        assert(ring.take(n as int) == ring);
        let r = StaticKeyProvider { active_version, keys: kept };
        assert forall|j: int| 0 <= j < r.ring().len() implies #[trigger] r.ring()[j].0 != r.active_version() by {
            assert(r.ring()[j].0 == kept@[j].0@);
        }
        r
    }

    /// Construct from an active version and key plus previous versions.
    /// Fails with `InvalidKeyMaterial` when the active key is empty.
    pub fn new(active_version: &str, active_key: Vec<u8>, previous: Vec<(KeyVersion, Vec<u8>)>) -> (r:
        Result<Self, KeyError>)
        ensures
            active_key@.len() == 0 ==> r == Err::<Self, KeyError>(KeyError::InvalidKeyMaterial),
            active_key@.len() > 0 ==> (r matches Ok(p) && p.active_version() == active_version@
                && p.ring() == seq![(active_version@, active_key@)] + ring_view(previous@)),
    {
        if active_key.len() == 0 {
            return Err(KeyError::InvalidKeyMaterial);
        }
        let version = KeyVersion::new(active_version);
        let mut keys: Vec<(KeyVersion, Vec<u8>)> = Vec::new();
        keys.push((version.clone(), active_key));
        let mut previous = previous;
        let ghost prev = previous@;
        keys.append(&mut previous);
        let ghost ring = ring_view(keys@);
        assert(ring == seq![(active_version@, active_key@)] + ring_view(prev));
        assert(ring[0].0 == version@);
        let r = StaticKeyProvider { active_version: version, keys };
        Ok(r)
    }

    /// Convenience constructor with a single key and no previous versions.
    pub fn single(version: &str, key: Vec<u8>) -> (r: Result<Self, KeyError>)
        ensures
            key@.len() == 0 ==> r == Err::<Self, KeyError>(KeyError::InvalidKeyMaterial),
            key@.len() > 0 ==> (r matches Ok(p) && p.active_version() == version@ && p.ring()
                == seq![(version@, key@)]),
    {
        let r = Self::new(version, key, Vec::new());
        proof {
            if key@.len() > 0 {
                assert(ring_view(Seq::<(KeyVersion, Vec<u8>)>::empty()) == Seq::<(Seq<char>, Seq<u8>)>::empty());
                assert(seq![(version@, key@)] + Seq::<(Seq<char>, Seq<u8>)>::empty() == seq![(version@, key@)]);
            }
        }
        r
    }
}

impl KeyProvider for StaticKeyProvider {
    open spec fn spec_active_key(&self) -> Option<(Seq<char>, Seq<u8>)> {
        if self.ring().len() > 0 && self.ring()[0].0 == self.active_version() {
            Some((self.active_version(), self.ring()[0].1))
        } else {
            None
        }
    }

    open spec fn spec_key_for_version(&self, version: Seq<char>) -> Option<Seq<u8>> {
        key_lookup(self.ring(), version)
    }

    proof fn lemma_keys_agree(&self) {
    }

    open spec fn spec_all_keys(&self) -> Option<KeyRing> {
        if self.ring().len() == 0 {
            None
        } else {
            Some(self.ring())
        }
    }

    fn active_hmac_key(&self) -> (r: Result<HmacKeyRef<'_>, KeyError>) {
        proof {
            use_type_invariant(self);
        }
        match find_key_index(&self.keys, &self.active_version) {
            Some(i) => {
                proof {
                    let ring = self.ring();
                    assert(ring[i as int] == (self.keys@[i as int].0@, self.keys@[i as int].1@));
                    assert(ring[i as int].0 == self.active_version());
                    assert(ring[0].0 == self.active_version());
                    assert(key_lookup(ring, self.active_version()) == Some(ring[0].1));
                }
                Ok(HmacKeyRef { version: self.keys[i].0.clone(), bytes: self.keys[i].1.as_slice() })
            },
            None => Err(KeyError::MissingActiveKey),
        }
    }

    fn hmac_key_by_version(&self, version: &KeyVersion) -> (r: Result<HmacKeyRef<'_>, KeyError>) {
        match find_key_index(&self.keys, version) {
            Some(i) => Ok(HmacKeyRef { version: self.keys[i].0.clone(), bytes: self.keys[i].1.as_slice() }),
            None => Err(KeyError::MissingKeyVersion),
        }
    }

    fn all_hmac_keys(&self) -> (r: Result<Vec<HmacKeyRef<'_>>, KeyError>)
        ensures
            r matches Err(e) ==> e == KeyError::MissingActiveKey,
    {
        let n = self.keys.len();
        if n == 0 {
            return Err(KeyError::MissingActiveKey);
        }
        let mut out: Vec<HmacKeyRef<'_>> = Vec::new();
        let mut i: usize = 0;
        while i < n
            invariant
                n == self.keys@.len(),
                i <= n,
                key_refs_view(out@) == self.ring().take(i as int),
            decreases n - i,
        {
            let ghost before = out@;
            out.push(HmacKeyRef { version: self.keys[i].0.clone(), bytes: self.keys[i].1.as_slice() });
            assert(key_refs_view(out@) == key_refs_view(before).push(
                (self.keys@[i as int].0@, self.keys@[i as int].1@),
            ));
            assert(self.ring().take(i + 1) == self.ring().take(i as int).push(self.ring()[i as int]));
            i = i + 1;
        }
        assert(self.ring().take(n as int) == self.ring());
        Ok(out)
    }
}

/// The lookup keys of `value` in `domain` under each key of `ring`, in order.
pub open spec fn candidates_for(ring: KeyRing, domain: SecretDomain, value: Seq<char>) -> Seq<Seq<char>> {
    ring.map_values(|k: (Seq<char>, Seq<u8>)| derive_spec(k.1, domain, value))
}

/// Derives lookup keys from secrets using a key provider.
pub struct SecretHasher<K> {
    key_provider: K,
}

impl<K: KeyProvider> SecretHasher<K> {
    /// The underlying key provider.
    pub closed spec fn provider(&self) -> K {
        self.key_provider
    }

    /// Wrap a key provider.
    pub fn new(key_provider: K) -> (r: Self)
        ensures
            r.provider() == key_provider,
    {
        SecretHasher { key_provider }
    }

    /// Borrow the underlying key provider.
    pub fn key_provider(&self) -> (r: &K)
        ensures
            *r == self.provider(),
    {
        &self.key_provider
    }

    /// Derive the lookup key for `value` in `domain` with the active key,
    /// returned with the active version to store beside it.
    pub fn lookup_key(&self, domain: SecretDomain, value: &str) -> (r: Result<(LookupKey, KeyVersion), KeyError>)
        ensures
            match self.provider().spec_active_key() {
                Some((v, b)) => r matches Ok((lk, kv)) && lk@ == derive_spec(b, domain, value@) && kv@ == v
                    && is_lookup_key_text(lk@),
                None => r == Err::<(LookupKey, KeyVersion), KeyError>(KeyError::MissingActiveKey),
            },
    {
        let key = self.key_provider.active_hmac_key()?;
        let lk = derive(key.bytes, domain, value);
        Ok((lk, key.version))
    }

    /// Derive one lookup-key candidate per held key, active first, so records
    /// written under any held key stay reachable during key rotation.
    pub fn lookup_key_candidates(&self, domain: SecretDomain, value: &str) -> (r: Result<
        Vec<(LookupKey, KeyVersion)>,
        KeyError,
    >)
        ensures
            match self.provider().spec_all_keys() {
                Some(ring) => r matches Ok(v) && v@.len() == ring.len() && ring.len() > 0 && forall|i: int|
                    0 <= i < ring.len() ==> (#[trigger] v@[i]).0@ == derive_spec(ring[i].1, domain, value@)
                        && v@[i].1@ == ring[i].0 && is_lookup_key_text(v@[i].0@),
                None => r == Err::<Vec<(LookupKey, KeyVersion)>, KeyError>(KeyError::MissingActiveKey),
            },
            self.provider().spec_active_key() matches Some((av, ab)) ==> (r matches Ok(v) && v@[0].0@
                == derive_spec(ab, domain, value@) && v@[0].1@ == av),
    {
        proof {
            self.provider().lemma_keys_agree();
        }
        let keys = self.key_provider.all_hmac_keys()?;
        let ghost ring = key_refs_view(keys@);
        let n = keys.len();
        let mut out: Vec<(LookupKey, KeyVersion)> = Vec::new();
        let mut i: usize = 0;
        while i < n
            invariant
                n == keys@.len(),
                ring == key_refs_view(keys@),
                i <= n,
                out@.len() == i,
                forall|k: int| 0 <= k < i ==> (#[trigger] out@[k]).0@ == derive_spec(ring[k].1, domain, value@)
                    && out@[k].1@ == ring[k].0 && is_lookup_key_text(out@[k].0@),
            decreases n - i,
        {
            let lk = derive(keys[i].bytes, domain, value);
            out.push((lk, keys[i].version.clone()));
            i = i + 1;
        }
        Ok(out)
    }

    /// The lookup-key candidates alone, without their versions.
    pub(crate) fn candidate_keys(&self, domain: SecretDomain, value: &str) -> (r: Result<Vec<LookupKey>, KeyError>)
        ensures
            match self.provider().spec_all_keys() {
                Some(ring) => r matches Ok(v) && v@.map_values(|c: LookupKey| c@) == candidates_for(
                    ring,
                    domain,
                    value@,
                ) && v@.len() > 0,
                None => r == Err::<Vec<LookupKey>, KeyError>(KeyError::MissingActiveKey),
            },
    {
        let pairs = self.lookup_key_candidates(domain, value)?;
        let ghost ring = self.provider().spec_all_keys()->Some_0;
        let n = pairs.len();
        let mut out: Vec<LookupKey> = Vec::new();
        let mut i: usize = 0;
        while i < n
            invariant
                n == pairs@.len(),
                n == ring.len(),
                i <= n,
                forall|k: int| 0 <= k < n ==> (#[trigger] pairs@[k]).0@ == derive_spec(ring[k].1, domain, value@),
                out@.map_values(|c: LookupKey| c@) == candidates_for(ring, domain, value@).take(i as int),
            decreases n - i,
        {
            out.push(pairs[i].0.clone());
            assert(candidates_for(ring, domain, value@).take(i + 1) == candidates_for(ring, domain, value@).take(
                i as int,
            ).push(pairs@[i as int].0@));
            i = i + 1;
        }
        assert(candidates_for(ring, domain, value@).take(n as int) == candidates_for(ring, domain, value@));
        Ok(out)
    }

    /// Derive the lookup key for `value` in `domain` with the key labelled
    /// `version`, to re-derive candidates for records written under it.
    pub fn lookup_key_with_version(&self, domain: SecretDomain, value: &str, version: &KeyVersion) -> (r:
        Result<LookupKey, KeyError>)
        ensures
            match self.provider().spec_key_for_version(version@) {
                Some(b) => r matches Ok(lk) && lk@ == derive_spec(b, domain, value@) && is_lookup_key_text(lk@),
                None => r == Err::<LookupKey, KeyError>(KeyError::MissingKeyVersion),
            },
    {
        let key = self.key_provider.hmac_key_by_version(version)?;
        Ok(derive(key.bytes, domain, value))
    }
}

/// The fixed part of every lookup message, up to and including the first
/// separator.
pub open spec fn lookup_prefix() -> Seq<u8> {
    encode_utf8(FORMAT_VERSION@) + encode_utf8("/"@) + encode_utf8("lookup"@) + seq![0u8]
}

proof fn lemma_ascii_literal(s: Seq<char>)
    requires
        vstd::utf8::is_ascii_chars(s),
    ensures
        encode_utf8(s).len() == s.len(),
        forall|i: int| 0 <= i < s.len() ==> #[trigger] encode_utf8(s)[i] == s[i] as u8,
{
    vstd::utf8::is_ascii_chars_encode_utf8(s);
}

proof fn lemma_message_layout(d: SecretDomain, v: Seq<char>)
    ensures
        lookup_prefix().len() == 17,
        encode_utf8(domain_label(d)).len() == domain_label(d).len(),
        domain_label(d).len() >= 4,
        lookup_message(d, v) == lookup_prefix() + encode_utf8(domain_label(d)) + seq![0u8]
            + encode_utf8(v),
        lookup_message(d, v)[17] == domain_label(d)[0] as u8,
        lookup_message(d, v)[18] == domain_label(d)[1] as u8,
{
    reveal_strlit("codlet/v1");
    reveal_strlit("/");
    reveal_strlit("lookup");
    reveal_strlit("code");
    reveal_strlit("session");
    reveal_strlit("form_token");
    reveal_strlit("flow_ticket");
    lemma_ascii_literal("codlet/v1"@);
    lemma_ascii_literal("/"@);
    lemma_ascii_literal("lookup"@);
    lemma_ascii_literal(domain_label(d));
    let m = lookup_message(d, v);
    let p = lookup_prefix();
    let l = encode_utf8(domain_label(d));
    assert(m == p + l + seq![0u8] + encode_utf8(v));
    assert(m[17] == l[0]);
    assert(m[18] == l[1]);
}

/// Domain separation: two different domains never produce the same lookup
/// message, whatever the two secret values are.
pub proof fn lemma_domain_separation(d1: SecretDomain, d2: SecretDomain, v1: Seq<char>, v2: Seq<char>)
    requires
        d1 != d2,
    ensures
        lookup_message(d1, v1) != lookup_message(d2, v2),
{
    lemma_message_layout(d1, v1);
    lemma_message_layout(d2, v2);
    reveal_strlit("code");
    reveal_strlit("session");
    reveal_strlit("form_token");
    reveal_strlit("flow_ticket");
}

/// Within one domain, the lookup message determines the secret value.
pub proof fn lemma_lookup_message_injective(d: SecretDomain, v1: Seq<char>, v2: Seq<char>)
    requires
        lookup_message(d, v1) == lookup_message(d, v2),
    ensures
        v1 == v2,
{
    lemma_message_layout(d, v1);
    lemma_message_layout(d, v2);
    let head = lookup_prefix() + encode_utf8(domain_label(d)) + seq![0u8];
    let m1 = lookup_message(d, v1);
    let m2 = lookup_message(d, v2);
    assert(m1.skip(head.len() as int) == encode_utf8(v1));
    assert(m2.skip(head.len() as int) == encode_utf8(v2));
    vstd::utf8::encode_utf8_decode_utf8(v1);
    vstd::utf8::encode_utf8_decode_utf8(v2);
}

/// Lookup keys are 64 lowercase hex digits: hex encoding of 32 bytes yields 64
/// characters, each a digit or a letter `a`-`f`.
pub proof fn lemma_hex_shape(bytes: Seq<u8>)
    ensures
        hex_lower_spec(bytes).len() == 2 * bytes.len(),
        forall|i: int| 0 <= i < hex_lower_spec(bytes).len() ==> is_lower_hex_char(
            #[trigger] hex_lower_spec(bytes)[i],
        ),
    decreases bytes.len(),
{
    if bytes.len() > 0 {
        lemma_hex_shape(bytes.drop_last());
        let prev = hex_lower_spec(bytes.drop_last());
        let cur = hex_lower_spec(bytes);
        let hi = bytes.last() as int / 16;
        let lo = bytes.last() as int % 16;
        assert(cur == prev + seq![hex_digit(hi), hex_digit(lo)]);
        assert forall|i: int| 0 <= i < cur.len() implies is_lower_hex_char(#[trigger] cur[i]) by {
            if i < prev.len() {
                assert(cur[i] == prev[i]);
            } else if i == prev.len() {
                assert(cur[i] == hex_digit(hi));
            } else {
                assert(cur[i] == hex_digit(lo));
            }
        }
    }
}

/// A lowercase hexadecimal digit: `0`-`9` or `a`-`f`.
pub open spec fn is_lower_hex_char(c: char) -> bool {
    ('0' <= c && c <= '9') || ('a' <= c && c <= 'f')
}

/// Every derived lookup key is 64 lowercase hex digits.
pub proof fn lemma_lookup_key_shape(key: Seq<u8>, domain: SecretDomain, value: Seq<char>)
    requires
        hmac_sha256(key, lookup_message(domain, value)).len() == 32,
    ensures
        derive_spec(key, domain, value).len() == 64,
        forall|i: int| 0 <= i < 64 ==> is_lower_hex_char(#[trigger] derive_spec(key, domain, value)[i]),
{
    lemma_hex_shape(hmac_sha256(key, lookup_message(domain, value)));
}

/// Every held key yields a lookup candidate: whatever version a record was
/// written under, the candidates derived from the same secret include its
/// lookup key, so rotation never strands a record while its key is held.
pub proof fn lemma_held_key_is_candidate(ring: KeyRing, version: Seq<char>, domain: SecretDomain, value: Seq<char>)
    requires
        key_lookup(ring, version) is Some,
    ensures
        candidates_for(ring, domain, value).contains(derive_spec(key_lookup(ring, version)->Some_0, domain, value)),
    decreases ring.len(),
{
    let c = candidates_for(ring, domain, value);
    if ring[0].0 == version {
        assert(c[0] == derive_spec(ring[0].1, domain, value));
    } else {
        let rest = ring.drop_first();
        lemma_held_key_is_candidate(rest, version, domain, value);
        let cr = candidates_for(rest, domain, value);
        let i = choose|i: int| 0 <= i < cr.len() && cr[i] == derive_spec(key_lookup(rest, version)->Some_0, domain, value);
        assert(c[i + 1] == cr[i]);
    }
}

/// What a provider writes with, it finds with: the lookup key derived under
/// the active key is the first of the candidates derived from the same
/// secret.
pub proof fn lemma_active_key_is_candidate<K: KeyProvider>(keys: K, domain: SecretDomain, value: Seq<char>)
    requires
        keys.spec_active_key() is Some,
    ensures
        keys.spec_all_keys() matches Some(ring) && candidates_for(ring, domain, value).len() > 0
            && candidates_for(ring, domain, value)[0] == derive_spec(
            keys.spec_active_key()->Some_0.1,
            domain,
            value,
        ) && candidates_for(ring, domain, value).contains(
            derive_spec(keys.spec_active_key()->Some_0.1, domain, value),
        ),
{
    keys.lemma_keys_agree();
    let ring = keys.spec_all_keys()->Some_0;
    assert(candidates_for(ring, domain, value)[0] == derive_spec(ring[0].1, domain, value));
}

/// With distinct versions, the key of each held version is the held key at
/// its position, so each candidate equals the lookup under its own version.
pub proof fn lemma_distinct_versions_lookup(ring: KeyRing, i: int)
    requires
        0 <= i < ring.len(),
        forall|a: int, b: int| 0 <= a < b < ring.len() ==> ring[a].0 != ring[b].0,
    ensures
        key_lookup(ring, ring[i].0) == Some(ring[i].1),
    decreases i,
{
    if i > 0 {
        let rest = ring.drop_first();
        assert(ring[0].0 != ring[i].0);
        assert forall|a: int, b: int| 0 <= a < b < rest.len() implies rest[a].0 != rest[b].0 by {
            assert(rest[a] == ring[a + 1] && rest[b] == ring[b + 1]);
        }
        lemma_distinct_versions_lookup(rest, i - 1);
        assert(rest[i - 1] == ring[i]);
    }
}

} // verus!
