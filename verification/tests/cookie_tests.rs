use codlet::cookie::{CookiePolicy, SameSitePolicy};

const HOUR: u64 = 3_600;

fn p() -> CookiePolicy {
    CookiePolicy::production_strict("test_sid", HOUR)
}

#[test]
fn set_cookie_contains_required_attributes() {
    let c = p().build_set_cookie("mysecret");
    assert!(c.contains("HttpOnly"), "missing HttpOnly");
    assert!(c.contains("Secure"), "missing Secure");
    assert!(c.contains("SameSite=Strict"), "missing SameSite=Strict");
    assert!(c.contains("Path=/"), "missing Path=/");
    assert!(c.contains("Max-Age=3600"), "missing Max-Age");
    assert!(c.starts_with("test_sid=mysecret"), "wrong name=value");
}

#[test]
fn clear_cookie_uses_max_age_zero() {
    let c = p().build_clear_cookie();
    assert!(c.contains("Max-Age=0"), "clear must use Max-Age=0");
    assert!(c.contains("HttpOnly"), "missing HttpOnly");
    assert!(c.contains("Secure"), "missing Secure");
    assert!(c.contains("SameSite=Strict"));
    assert!(c.starts_with("test_sid=;"), "wrong name on clear");
}

#[test]
fn domain_omitted_by_default() {
    let c = p().build_set_cookie("s");
    assert!(!c.contains("Domain="), "default must omit Domain");
}

#[test]
fn explicit_domain_is_emitted() {
    let c = p().with_domain(Some("example.com")).build_set_cookie("s");
    assert!(c.contains("Domain=example.com"), "explicit domain missing");
}

#[test]
fn clear_cookie_mirrors_path_and_domain() {
    let policy = CookiePolicy::production_strict("sid", HOUR).with_path("/app").with_domain(Some("example.com"));
    let set = policy.build_set_cookie("s");
    let clear = policy.build_clear_cookie();
    assert!(set.contains("Path=/app"));
    assert!(clear.contains("Path=/app"));
    assert!(set.contains("Domain=example.com"));
    assert!(clear.contains("Domain=example.com"));
}

#[test]
fn local_development_omits_secure() {
    let c = CookiePolicy::local_development("dev_sid", HOUR).build_set_cookie("s");
    assert!(!c.contains("; Secure"), "dev profile must not set Secure");
    assert!(c.contains("HttpOnly"), "HttpOnly always required");
}

#[test]
fn lax_profile_uses_lax_samesite() {
    let c = CookiePolicy::production_lax("sid", HOUR).build_set_cookie("s");
    assert!(c.contains("SameSite=Lax"));
    assert!(c.contains("; Secure"));
}

#[test]
fn secret_not_duplicated_elsewhere_in_value() {
    let c = p().build_set_cookie("hunter2");
    let count = c.matches("hunter2").count();
    assert_eq!(count, 1, "secret appeared {count} times in {c:?}");
}

#[test]
fn exact_cookie_strings() {
    assert_eq!(
        p().build_set_cookie("abc"),
        "test_sid=abc; Max-Age=3600; Path=/; HttpOnly; SameSite=Strict; Secure"
    );
    assert_eq!(p().build_clear_cookie(), "test_sid=; Max-Age=0; Path=/; HttpOnly; SameSite=Strict; Secure");
    let dev = CookiePolicy::local_development("d", 5).with_domain(Some("x.test"));
    assert_eq!(dev.build_set_cookie("v"), "d=v; Max-Age=5; Path=/; HttpOnly; SameSite=Lax; Domain=x.test");
}

#[test]
fn accessors_and_same_site_attrs() {
    let c = CookiePolicy::production_lax("n", 42);
    assert_eq!(c.name(), "n");
    assert_eq!(c.max_age_duration(), 42);
    assert!(c.is_secure());
    assert!(!CookiePolicy::local_development("n", 1).is_secure());
    assert_eq!(SameSitePolicy::Strict.attr(), "SameSite=Strict");
    assert_eq!(SameSitePolicy::Lax.attr(), "SameSite=Lax");
    assert_eq!(SameSitePolicy::Unrestricted.attr(), "SameSite=None");
    let cleared = c.with_domain(Some("a.b")).with_domain(None);
    assert!(!cleared.build_set_cookie("s").contains("Domain="));
}
