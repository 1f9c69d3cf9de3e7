//! Secure cookie construction.
//!
//! `HttpOnly` is emitted by every profile and cannot be turned off; `Secure`
//! is emitted by both production profiles; `SameSite=Strict` is the default.
//! Header values are plain strings so any HTTP framework can send them.
//! Max-age is in whole seconds.

use vstd::prelude::*;
use crate::text::{push_str, u64_to_decimal, decimal, opt_view, opt_str_to_string, clone_opt_string};

verus! {

/// SameSite cookie attribute values.
#[derive(Debug, Clone, Copy, PartialEq, Eq, Default, Structural)]
pub enum SameSitePolicy {
    /// `SameSite=Strict`: sent only in same-site requests. The default.
    #[default]
    Strict,
    /// `SameSite=Lax`: also sent on top-level cross-site navigation.
    Lax,
    /// `SameSite=None`: must always be accompanied by `Secure`. No built-in
    /// profile emits it.
    Unrestricted,
}

/// The attribute text of a SameSite policy.
pub open spec fn same_site_attr(s: SameSitePolicy) -> Seq<char> {
    match s {
        SameSitePolicy::Strict => "SameSite=Strict"@,
        SameSitePolicy::Lax => "SameSite=Lax"@,
        SameSitePolicy::Unrestricted => "SameSite=None"@,
    }
}

impl SameSitePolicy {
    /// The attribute string fragment, without the leading `; `.
    pub fn attr(self) -> (r: &'static str)
        ensures
            r@ == same_site_attr(self),
    {
        match self {
            SameSitePolicy::Strict => "SameSite=Strict",
            SameSitePolicy::Lax => "SameSite=Lax",
            SameSitePolicy::Unrestricted => "SameSite=None",
        }
    }
}

/// Named cookie profiles.
#[derive(Debug, Clone, Copy, PartialEq, Eq, Default, Structural)]
pub enum CookieProfile {
    /// `Secure; HttpOnly; SameSite=Strict`. The default.
    #[default]
    ProductionStrict,
    /// `Secure; HttpOnly; SameSite=Lax`.
    ProductionLax,
    /// `HttpOnly; SameSite=Lax` without `Secure`. Development only.
    LocalDevelopment,
}

/// The content of a cookie policy.
pub struct CookiePolicyView {
    /// Cookie name.
    pub name: Seq<char>,
    /// `Path` attribute.
    pub path: Seq<char>,
    /// `Max-Age` in seconds.
    pub max_age_secs: u64,
    /// `SameSite` attribute.
    pub same_site: SameSitePolicy,
    /// Whether `Secure` is emitted.
    pub secure: bool,
    /// `Domain` attribute, if any.
    pub domain: Option<Seq<char>>,
}

/// Policy governing cookie construction.
#[derive(Debug, PartialEq, Eq)]
pub struct CookiePolicy {
    name: String,
    path: String,
    max_age: u64,
    same_site: SameSitePolicy,
    secure: bool,
    domain: Option<String>,
}

impl View for CookiePolicy {
    type V = CookiePolicyView;

    closed spec fn view(&self) -> CookiePolicyView {
        CookiePolicyView {
            name: self.name@,
            path: self.path@,
            max_age_secs: self.max_age,
            same_site: self.same_site,
            secure: self.secure,
            domain: opt_view(self.domain),
        }
    }
}

impl Clone for CookiePolicy {
    fn clone(&self) -> (r: Self)
        ensures
            r@ == self@,
    {
        CookiePolicy {
            name: self.name.clone(),
            path: self.path.clone(),
            max_age: self.max_age,
            same_site: self.same_site,
            secure: self.secure,
            domain: clone_opt_string(&self.domain),
        }
    }
}

/// The attributes after `SameSite`: `; Secure` when secure, then
/// `; Domain=<domain>` when a domain is set.
pub open spec fn trailing_attrs(p: CookiePolicyView) -> Seq<char> {
    (if p.secure {
        "; Secure"@
    } else {
        Seq::empty()
    }) + match p.domain {
        Some(d) => "; Domain="@ + d,
        None => Seq::empty(),
    }
}

/// The `Set-Cookie` value delivering `secret`.
pub open spec fn set_cookie_value(p: CookiePolicyView, secret: Seq<char>) -> Seq<char> {
    p.name + "="@ + secret + "; Max-Age="@ + decimal(p.max_age_secs as nat) + "; Path="@ + p.path
        + "; HttpOnly; "@ + same_site_attr(p.same_site) + trailing_attrs(p)
}

/// The `Set-Cookie` value clearing the cookie: same name, path and domain,
/// empty value, `Max-Age=0`.
pub open spec fn clear_cookie_value(p: CookiePolicyView) -> Seq<char> {
    p.name + "=; Max-Age=0; Path="@ + p.path + "; HttpOnly; "@ + same_site_attr(p.same_site)
        + trailing_attrs(p)
}

/// A policy with the given name, max-age, SameSite and Secure settings,
/// `Path=/` and no domain.
pub open spec fn profile_view(name: Seq<char>, max_age_secs: u64, same_site: SameSitePolicy, secure: bool) -> CookiePolicyView {
    CookiePolicyView { name, path: "/"@, max_age_secs, same_site, secure, domain: None }
}

impl CookiePolicy {
    /// Standard production policy: `HttpOnly; Secure; SameSite=Strict; Path=/`,
    /// host-only (no `Domain`).
    pub fn production_strict(name: &str, max_age_secs: u64) -> (r: Self)
        ensures
            r@ == profile_view(name@, max_age_secs, SameSitePolicy::Strict, true),
    {
        CookiePolicy {
            name: name.to_owned(),
            path: "/".to_owned(),
            max_age: max_age_secs,
            same_site: SameSitePolicy::Strict,
            secure: true,
            domain: None,
        }
    }

    /// Production policy with `SameSite=Lax` for cross-site top-level flows.
    pub fn production_lax(name: &str, max_age_secs: u64) -> (r: Self)
        ensures
            r@ == profile_view(name@, max_age_secs, SameSitePolicy::Lax, true),
    {
        CookiePolicy {
            name: name.to_owned(),
            path: "/".to_owned(),
            max_age: max_age_secs,
            same_site: SameSitePolicy::Lax,
            secure: true,
            domain: None,
        }
    }

    /// Development-only policy: no `Secure`, `SameSite=Lax`.
    pub fn local_development(name: &str, max_age_secs: u64) -> (r: Self)
        ensures
            r@ == profile_view(name@, max_age_secs, SameSitePolicy::Lax, false),
    {
        CookiePolicy {
            name: name.to_owned(),
            path: "/".to_owned(),
            max_age: max_age_secs,
            same_site: SameSitePolicy::Lax,
            secure: false,
            domain: None,
        }
    }

    /// Override `Path` (default `/`).
    pub fn with_path(self, path: &str) -> (r: Self)
        ensures
            r@ == (CookiePolicyView { path: path@, ..self@ }),
    {
        let mut p = self;
        p.path = path.to_owned();
        p
    }

    /// Set or clear an explicit `Domain`. `None` gives a host-only cookie (the
    /// default and recommended choice).
    pub fn with_domain(self, domain: Option<&str>) -> (r: Self)
        ensures
            r@ == (CookiePolicyView {
                domain: match domain {
                    Some(d) => Some(d@),
                    None => None,
                },
                ..self@
            }),
    {
        let mut p = self;
        p.domain = opt_str_to_string(domain);
        p
    }

    /// The configured cookie name.
    pub fn name(&self) -> (r: &str)
        ensures
            r@ == self@.name,
    {
        self.name.as_str()
    }

    /// The configured max-age, in seconds.
    pub fn max_age_duration(&self) -> (r: u64)
        ensures
            r == self@.max_age_secs,
    {
        self.max_age
    }

    /// Whether this policy emits `Secure`.
    pub fn is_secure(&self) -> (r: bool)
        ensures
            r == self@.secure,
    {
        self.secure
    }

    fn push_trailing(&self, parts: &mut String)
        ensures
            final(parts)@ == old(parts)@ + trailing_attrs(self@),
    {
        if self.secure {
            push_str(parts, "; Secure");
        }
        match &self.domain {
            Some(d) => {
                push_str(parts, "; Domain=");
                push_str(parts, d.as_str());
            },
            None => {},
        }
    }

    /// Build a `Set-Cookie` value delivering `secret`, the plaintext session
    /// or token secret. The caller must not log the returned string.
    pub fn build_set_cookie(&self, secret: &str) -> (r: String)
        ensures
            r@ == set_cookie_value(self@, secret@),
    {
        let mut parts = self.name.clone();
        push_str(&mut parts, "=");
        push_str(&mut parts, secret);
        push_str(&mut parts, "; Max-Age=");
        let age = u64_to_decimal(self.max_age);
        push_str(&mut parts, age.as_str());
        push_str(&mut parts, "; Path=");
        push_str(&mut parts, self.path.as_str());
        push_str(&mut parts, "; HttpOnly; ");
        push_str(&mut parts, self.same_site.attr());
        self.push_trailing(&mut parts);
        parts
    }

    /// Build a `Set-Cookie` value that clears this cookie (e.g. on logout):
    /// `Max-Age=0` with the same name, path and domain.
    pub fn build_clear_cookie(&self) -> (r: String)
        ensures
            r@ == clear_cookie_value(self@),
    {
        let mut parts = self.name.clone();
        push_str(&mut parts, "=; Max-Age=0; Path=");
        push_str(&mut parts, self.path.as_str());
        push_str(&mut parts, "; HttpOnly; ");
        push_str(&mut parts, self.same_site.attr());
        self.push_trailing(&mut parts);
        parts
    }
}

} // verus!
