//! Secret-bearing and opaque-identifier newtypes.
//!
//! Secret types never render their plaintext: their only textual renderings
//! are redaction markers, and the plaintext is reachable only through an
//! explicit `expose` call, which is easy to find in review.

use vstd::prelude::*;

verus! {

/// A string holding a sensitive value whose renderings never show it.
///
/// Equality is provided for tests and bookkeeping; it is not constant-time.
#[derive(PartialEq, Eq)]
pub struct SecretString(String);

impl View for SecretString {
    type V = Seq<char>;

    closed spec fn view(&self) -> Seq<char> {
        self.0@
    }
}

impl Clone for SecretString {
    fn clone(&self) -> (r: Self)
        ensures
            r@ == self@,
    {
        SecretString(self.0.clone())
    }
}

impl SecretString {
    /// Wrap a value as a secret.
    pub fn new(value: String) -> (r: Self)
        ensures
            r@ == value@,
    {
        SecretString(value)
    }

    /// Borrow the plaintext. Callers must not log or persist it.
    pub fn expose(&self) -> (r: &str)
        ensures
            r@ == self@,
    {
        self.0.as_str()
    }

    /// Number of bytes of the UTF-8 encoding of the value.
    pub fn len(&self) -> (r: usize)
        ensures
            r == vstd::utf8::encode_utf8(self@).len() as usize,
    {
        self.0.as_str().len()
    }

    /// Whether the value is empty.
    pub fn is_empty(&self) -> (r: bool)
        ensures
            r == (self@.len() == 0),
    {
        self.0.as_str().is_empty()
    }

    /// The debug rendering: a fixed redaction marker.
    pub fn debug_text(&self) -> (r: String)
        ensures
            r@ == "SecretString(<redacted>)"@,
    {
        "SecretString(<redacted>)".to_owned()
    }

    /// The display rendering: a fixed redaction marker.
    pub fn display_text(&self) -> (r: String)
        ensures
            r@ == "<redacted>"@,
    {
        "<redacted>".to_owned()
    }
}

/// A one-time code in plaintext, freshly generated for one-time display or
/// received as user input. Never persisted.
#[derive(PartialEq, Eq)]
pub struct PlainCode(SecretString);

/// A session secret in plaintext. Lives only in the cookie.
#[derive(PartialEq, Eq)]
pub struct SessionSecret(SecretString);

/// A form-token secret in plaintext. Lives only in the rendered form.
#[derive(PartialEq, Eq)]
pub struct FormTokenSecret(SecretString);

impl View for PlainCode {
    type V = Seq<char>;

    closed spec fn view(&self) -> Seq<char> {
        self.0@
    }
}

impl View for SessionSecret {
    type V = Seq<char>;

    closed spec fn view(&self) -> Seq<char> {
        self.0@
    }
}

impl View for FormTokenSecret {
    type V = Seq<char>;

    closed spec fn view(&self) -> Seq<char> {
        self.0@
    }
}

impl Clone for PlainCode {
    fn clone(&self) -> (r: Self)
        ensures
            r@ == self@,
    {
        PlainCode(self.0.clone())
    }
}

impl Clone for SessionSecret {
    fn clone(&self) -> (r: Self)
        ensures
            r@ == self@,
    {
        SessionSecret(self.0.clone())
    }
}

impl Clone for FormTokenSecret {
    fn clone(&self) -> (r: Self)
        ensures
            r@ == self@,
    {
        FormTokenSecret(self.0.clone())
    }
}

impl PlainCode {
    /// Wrap an already-generated or received plaintext value.
    pub fn new(value: String) -> (r: Self)
        ensures
            r@ == value@,
    {
        PlainCode(SecretString::new(value))
    }

    /// Borrow the plaintext.
    pub fn expose(&self) -> (r: &str)
        ensures
            r@ == self@,
    {
        self.0.expose()
    }

    /// Borrow the inner secret string.
    pub fn as_secret(&self) -> (r: &SecretString)
        ensures
            r@ == self@,
    {
        &self.0
    }

    /// The debug rendering: a fixed redaction marker.
    pub fn debug_text(&self) -> (r: String)
        ensures
            r@ == "PlainCode(SecretString(<redacted>))"@,
    {
        "PlainCode(SecretString(<redacted>))".to_owned()
    }
}

impl SessionSecret {
    /// Wrap an already-generated or received plaintext value.
    pub fn new(value: String) -> (r: Self)
        ensures
            r@ == value@,
    {
        SessionSecret(SecretString::new(value))
    }

    /// Borrow the plaintext.
    pub fn expose(&self) -> (r: &str)
        ensures
            r@ == self@,
    {
        self.0.expose()
    }

    /// Borrow the inner secret string.
    pub fn as_secret(&self) -> (r: &SecretString)
        ensures
            r@ == self@,
    {
        &self.0
    }

    /// The debug rendering: a fixed redaction marker.
    pub fn debug_text(&self) -> (r: String)
        ensures
            r@ == "SessionSecret(SecretString(<redacted>))"@,
    {
        "SessionSecret(SecretString(<redacted>))".to_owned()
    }
}

impl FormTokenSecret {
    /// Wrap an already-generated or received plaintext value.
    pub fn new(value: String) -> (r: Self)
        ensures
            r@ == value@,
    {
        FormTokenSecret(SecretString::new(value))
    }

    /// Borrow the plaintext.
    pub fn expose(&self) -> (r: &str)
        ensures
            r@ == self@,
    {
        self.0.expose()
    }

    /// Borrow the inner secret string.
    pub fn as_secret(&self) -> (r: &SecretString)
        ensures
            r@ == self@,
    {
        &self.0
    }

    /// The debug rendering: a fixed redaction marker.
    pub fn debug_text(&self) -> (r: String)
        ensures
            r@ == "FormTokenSecret(SecretString(<redacted>))"@,
    {
        "FormTokenSecret(SecretString(<redacted>))".to_owned()
    }
}

/// Identifier of a code record. Not a secret; safe to log and display.
#[derive(PartialEq, Eq, Hash, Debug)]
pub struct CodeId(String);

/// Host-owned identity anchor returned after authentication.
#[derive(PartialEq, Eq, Hash, Debug)]
pub struct SubjectId(String);

/// Identifier of a session record. Not a bearer credential on its own.
#[derive(PartialEq, Eq, Hash, Debug)]
pub struct SessionId(String);

impl View for CodeId {
    type V = Seq<char>;

    closed spec fn view(&self) -> Seq<char> {
        self.0@
    }
}

impl View for SubjectId {
    type V = Seq<char>;

    closed spec fn view(&self) -> Seq<char> {
        self.0@
    }
}

impl View for SessionId {
    type V = Seq<char>;

    closed spec fn view(&self) -> Seq<char> {
        self.0@
    }
}

impl Clone for CodeId {
    fn clone(&self) -> (r: Self)
        ensures
            r@ == self@,
    {
        CodeId(self.0.clone())
    }
}

impl Clone for SubjectId {
    fn clone(&self) -> (r: Self)
        ensures
            r@ == self@,
    {
        SubjectId(self.0.clone())
    }
}

impl Clone for SessionId {
    fn clone(&self) -> (r: Self)
        ensures
            r@ == self@,
    {
        SessionId(self.0.clone())
    }
}

impl CodeId {
    /// Wrap a host- or store-provided identifier.
    pub fn new(value: String) -> (r: Self)
        ensures
            r@ == value@,
    {
        CodeId(value)
    }

    /// Borrow the identifier.
    pub fn as_str(&self) -> (r: &str)
        ensures
            r@ == self@,
    {
        self.0.as_str()
    }

    /// The display rendering: the identifier itself.
    pub fn display_text(&self) -> (r: String)
        ensures
            r@ == self@,
    {
        self.0.clone()
    }

    /// Whether two identifiers are equal.
    pub fn same_as(&self, other: &CodeId) -> (r: bool)
        ensures
            r == (self@ == other@),
    {
        self.0 == other.0
    }
}

impl SubjectId {
    /// Wrap a host- or store-provided identifier.
    pub fn new(value: String) -> (r: Self)
        ensures
            r@ == value@,
    {
        SubjectId(value)
    }

    /// Borrow the identifier.
    pub fn as_str(&self) -> (r: &str)
        ensures
            r@ == self@,
    {
        self.0.as_str()
    }

    /// The display rendering: the identifier itself.
    pub fn display_text(&self) -> (r: String)
        ensures
            r@ == self@,
    {
        self.0.clone()
    }

    /// Whether two identifiers are equal.
    pub fn same_as(&self, other: &SubjectId) -> (r: bool)
        ensures
            r == (self@ == other@),
    {
        self.0 == other.0
    }
}

impl SessionId {
    /// Wrap a host- or store-provided identifier.
    pub fn new(value: String) -> (r: Self)
        ensures
            r@ == value@,
    {
        SessionId(value)
    }

    /// Borrow the identifier.
    pub fn as_str(&self) -> (r: &str)
        ensures
            r@ == self@,
    {
        self.0.as_str()
    }

    /// The display rendering: the identifier itself.
    pub fn display_text(&self) -> (r: String)
        ensures
            r@ == self@,
    {
        self.0.clone()
    }

    /// Whether two identifiers are equal.
    pub fn same_as(&self, other: &SessionId) -> (r: bool)
        ensures
            r == (self@ == other@),
    {
        self.0 == other.0
    }
}

impl From<String> for CodeId {
    fn from(value: String) -> (r: Self) {
        CodeId(value)
    }
}

impl vstd::std_specs::convert::FromSpecImpl<String> for CodeId {
    open spec fn obeys_from_spec() -> bool {
        true
    }

    closed spec fn from_spec(v: String) -> Self {
        CodeId(v)
    }
}

impl From<String> for SubjectId {
    fn from(value: String) -> (r: Self) {
        SubjectId(value)
    }
}

impl vstd::std_specs::convert::FromSpecImpl<String> for SubjectId {
    open spec fn obeys_from_spec() -> bool {
        true
    }

    closed spec fn from_spec(v: String) -> Self {
        SubjectId(v)
    }
}

impl From<String> for SessionId {
    fn from(value: String) -> (r: Self) {
        SessionId(value)
    }
}

impl vstd::std_specs::convert::FromSpecImpl<String> for SessionId {
    open spec fn obeys_from_spec() -> bool {
        true
    }

    closed spec fn from_spec(v: String) -> Self {
        SessionId(v)
    }
}

/// A one-time code after normalization (separators stripped, uppercased). Not
/// a secret: it is the index form used for lookup.
#[derive(PartialEq, Eq, Debug)]
pub struct NormalizedCode(String);

impl View for NormalizedCode {
    type V = Seq<char>;

    closed spec fn view(&self) -> Seq<char> {
        self.0@
    }
}

impl Clone for NormalizedCode {
    fn clone(&self) -> (r: Self)
        ensures
            r@ == self@,
    {
        NormalizedCode(self.0.clone())
    }
}

impl NormalizedCode {
    /// Wrap a value already known to be normalized.
    pub fn new(value: String) -> (r: Self)
        ensures
            r@ == value@,
    {
        NormalizedCode(value)
    }

    /// Borrow the normalized code.
    pub fn as_str(&self) -> (r: &str)
        ensures
            r@ == self@,
    {
        self.0.as_str()
    }

    /// The display rendering: the normalized code itself.
    pub fn display_text(&self) -> (r: String)
        ensures
            r@ == self@,
    {
        self.0.clone()
    }
}

/// A validated, non-empty purpose label for a code or form token.
#[derive(PartialEq, Eq, Hash, Debug)]
pub struct Purpose(String);

impl View for Purpose {
    type V = Seq<char>;

    closed spec fn view(&self) -> Seq<char> {
        self.0@
    }
}

impl Clone for Purpose {
    fn clone(&self) -> (r: Self)
        ensures
            r@ == self@,
    {
        Purpose(self.0.clone())
    }
}

impl Purpose {
    /// Wrap a purpose string; `None` when it is empty.
    pub fn new(value: &str) -> (r: Option<Self>)
        ensures
            value@.len() == 0 <==> r is None,
            r matches Some(p) ==> p@ == value@,
    {
        if value.is_empty() {
            None
        } else {
            Some(Purpose(value.to_owned()))
        }
    }

    /// Borrow the purpose string.
    pub fn as_str(&self) -> (r: &str)
        ensures
            r@ == self@,
    {
        self.0.as_str()
    }

    /// The display rendering: the purpose itself.
    pub fn display_text(&self) -> (r: String)
        ensures
            r@ == self@,
    {
        self.0.clone()
    }
}

/// An optional host-owned boundary label (community, tenant, ...) used to
/// restrict code lookup and revocation. Not a secret.
#[derive(PartialEq, Eq, Hash, Debug)]
pub struct ScopeKey(String);

impl View for ScopeKey {
    type V = Seq<char>;

    closed spec fn view(&self) -> Seq<char> {
        self.0@
    }
}

impl Clone for ScopeKey {
    fn clone(&self) -> (r: Self)
        ensures
            r@ == self@,
    {
        ScopeKey(self.0.clone())
    }
}

impl ScopeKey {
    /// Wrap a scope key string.
    pub fn new(value: &str) -> (r: Self)
        ensures
            r@ == value@,
    {
        ScopeKey(value.to_owned())
    }

    /// Borrow the scope key string.
    pub fn as_str(&self) -> (r: &str)
        ensures
            r@ == self@,
    {
        self.0.as_str()
    }

    /// The display rendering: the scope key itself.
    pub fn display_text(&self) -> (r: String)
        ensures
            r@ == self@,
    {
        self.0.clone()
    }
}

} // verus!
