use codlet::clock::{Clock, FixedClock, MutableClock, SystemClock};

#[test]
fn system_clock_is_positive() {
    let t = SystemClock::new().unix_now();
    // 2024-01-01T00:00:00Z = 1_704_067_200
    assert!(t > 1_704_067_200, "clock looks wrong: {t}");
}

#[test]
fn fixed_clock_is_deterministic() {
    let c = FixedClock::at(1_000_000);
    assert_eq!(c.unix_now(), 1_000_000);
    assert_eq!(c.unix_now(), 1_000_000);
}

#[test]
fn unix_now_plus_offsets_correctly() {
    let c = FixedClock::at(1_000);
    assert_eq!(c.unix_now_plus(100), 1_100);
}

#[test]
fn advance_produces_later_clock() {
    let c = FixedClock::at(1_000).advance(60);
    assert_eq!(c.unix_now(), 1_060);
}

#[test]
fn fixed_clock_advance_saturates() {
    let c = FixedClock::at(u64::MAX - 1).advance(10);
    assert_eq!(c.unix_now(), u64::MAX);
    assert_eq!(FixedClock::at(u64::MAX).unix_now_plus(5), u64::MAX);
}

#[test]
fn mutable_clock_is_shared_between_clones() {
    let c = MutableClock::at(500);
    let other = c.clone();
    c.advance(25);
    assert_eq!(other.unix_now(), 525);
    other.set(10);
    assert_eq!(c.unix_now(), 10);
    c.set(u64::MAX);
    c.advance(1);
    assert_eq!(c.unix_now(), u64::MAX);
}
