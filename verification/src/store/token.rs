//! Form-token records and the subject binding of a token.

use vstd::prelude::*;
use crate::hashing::{KeyVersion, LookupKey};
use crate::secret::{CodeId, SubjectId};
use crate::text::push_str;

verus! {

/// The subject binding of a form token. Explicit variants rule out an empty
/// string standing for "anonymous".
#[derive(Debug, PartialEq, Eq)]
pub enum TokenSubject {
    /// Token issued before authentication (e.g. a join form).
    Anonymous,
    /// Token issued for an authenticated subject.
    Authenticated(SubjectId),
    /// Token bound to a transient flow ID (e.g. a multi-step join ticket).
    Flow(CodeId),
}

/// A token subject as the contracts see it.
pub enum TokenSubjectView {
    /// Before authentication.
    Anonymous,
    /// An authenticated subject.
    Authenticated(Seq<char>),
    /// A transient flow.
    Flow(Seq<char>),
}

impl View for TokenSubject {
    type V = TokenSubjectView;

    open spec fn view(&self) -> TokenSubjectView {
        match *self {
            TokenSubject::Anonymous => TokenSubjectView::Anonymous,
            TokenSubject::Authenticated(s) => TokenSubjectView::Authenticated(s@),
            TokenSubject::Flow(f) => TokenSubjectView::Flow(f@),
        }
    }
}

impl Clone for TokenSubject {
    fn clone(&self) -> (r: Self)
        ensures
            r@ == self@,
    {
        match self {
            TokenSubject::Anonymous => TokenSubject::Anonymous,
            TokenSubject::Authenticated(s) => TokenSubject::Authenticated(s.clone()),
            TokenSubject::Flow(f) => TokenSubject::Flow(f.clone()),
        }
    }
}

/// The persisted binding string of a subject.
pub open spec fn binding_string(s: TokenSubjectView) -> Seq<char> {
    match s {
        TokenSubjectView::Anonymous => "anon"@,
        TokenSubjectView::Authenticated(id) => "auth:"@ + id,
        TokenSubjectView::Flow(id) => "flow:"@ + id,
    }
}

impl TokenSubject {
    /// The stable string persisted in the store: `anon`, `auth:<subject>` or
    /// `flow:<flow id>`. Not a security boundary on its own.
    pub fn as_binding_str(&self) -> (r: String)
        ensures
            r@ == binding_string(self@),
    {
        match self {
            TokenSubject::Anonymous => "anon".to_owned(),
            TokenSubject::Authenticated(s) => {
                let mut out = "auth:".to_owned();
                push_str(&mut out, s.as_str());
                out
            },
            TokenSubject::Flow(f) => {
                let mut out = "flow:".to_owned();
                push_str(&mut out, f.as_str());
                out
            },
        }
    }

    /// Whether two bindings are the same.
    pub fn same_as(&self, other: &TokenSubject) -> (r: bool)
        ensures
            r == (self@ == other@),
    {
        match (self, other) {
            (TokenSubject::Anonymous, TokenSubject::Anonymous) => true,
            (TokenSubject::Authenticated(a), TokenSubject::Authenticated(b)) => a.same_as(b),
            (TokenSubject::Flow(a), TokenSubject::Flow(b)) => a.same_as(b),
            _ => false,
        }
    }
}

/// A consumed token record with an optional replay reference.
#[derive(Debug)]
pub struct ConsumedTokenRecord {
    /// Whether the token has been consumed.
    pub consumed: bool,
    /// Optional result reference for idempotent replay.
    pub result_ref: Option<String>,
    /// Whether the binding checked by the consume matched.
    pub binding_ok: bool,
}

/// Parameters for inserting a new form token.
#[derive(Debug)]
pub struct FormTokenRecord {
    /// Domain-separated lookup key of the token secret.
    pub lookup_key: LookupKey,
    /// Key version that produced `lookup_key`.
    pub key_version: KeyVersion,
    /// Subject binding.
    pub subject: TokenSubject,
    /// Purpose label, stable across the token's lifetime.
    pub purpose: String,
    /// Optional bound resource.
    pub bound_resource: Option<String>,
    /// Issuance time, Unix seconds (UTC).
    pub issued_at: u64,
    /// Expiry, Unix seconds (UTC).
    pub expires_at: u64,
}

} // verus!
