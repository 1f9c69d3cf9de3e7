use codlet::error::RandomError;
use codlet::rng::{AlwaysFailRandom, FixedBytesRandom, RandomSource};

#[test]
fn always_fail_random_errors() {
    let mut r = AlwaysFailRandom;
    let mut buf = [0u8; 4];
    assert_eq!(r.fill_bytes(&mut buf), Err(RandomError));
}

#[test]
fn fixed_bytes_random_is_deterministic() {
    let mut r = FixedBytesRandom::new(vec![1, 2, 3]);
    let mut buf = [0u8; 5];
    r.fill_bytes(&mut buf).unwrap();
    assert_eq!(buf, [1, 2, 3, 1, 2]);
}

#[test]
fn fixed_bytes_random_continues_where_it_stopped() {
    let mut r = FixedBytesRandom::new(vec![1, 2, 3]);
    let mut a = [0u8; 2];
    let mut b = [0u8; 4];
    r.fill_bytes(&mut a).unwrap();
    r.fill_bytes(&mut b).unwrap();
    assert_eq!(a, [1, 2]);
    assert_eq!(b, [3, 1, 2, 3]);
}

#[test]
fn fixed_bytes_random_with_empty_pattern_fails() {
    let mut r = FixedBytesRandom::new(Vec::new());
    let mut buf = [9u8; 3];
    assert_eq!(r.fill_bytes(&mut buf), Err(RandomError));
    assert_eq!(buf, [9, 9, 9]);
    assert_eq!(RandomError.message(), "secure randomness unavailable");
}
