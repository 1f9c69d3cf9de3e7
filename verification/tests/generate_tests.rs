use codlet::code::generate::{code_from_draws, sample_byte};
use codlet::code::{Alphabet, CodePolicy, generate_code, normalize, validate_code_input};
use codlet::error::{CodeInputError, RandomError};
use codlet::rng::{AlwaysFailRandom, FixedBytesRandom, RandomSource};
use std::collections::hash_map::RandomState;
use std::hash::{BuildHasher, Hasher};

/// Unpredictable bytes from the standard library's randomly seeded hasher.
struct SeededRandom {
    state: RandomState,
    counter: u64,
}

impl SeededRandom {
    fn new() -> Self {
        SeededRandom { state: RandomState::new(), counter: 0 }
    }
}

impl RandomSource for SeededRandom {
    fn fill_bytes(&mut self, buf: &mut [u8]) -> Result<(), RandomError> {
        for b in buf.iter_mut() {
            let mut h = self.state.build_hasher();
            h.write_u64(self.counter);
            self.counter += 1;
            *b = (h.finish() >> 24) as u8;
        }
        Ok(())
    }
}

fn human() -> CodePolicy {
    CodePolicy::default_human(3600).unwrap()
}

#[test]
fn generated_code_matches_policy_length_and_alphabet() {
    let policy = human();
    let mut rng = SeededRandom::new();
    let code = generate_code(&policy, &mut rng).unwrap();
    assert_eq!(code.expose().chars().count(), policy.length());
    let alpha = policy.alphabet();
    assert!(code.expose().bytes().all(|b| alpha.contains(b)));
}

#[test]
fn rng_failure_fails_closed() {
    let policy = human();
    let mut rng = AlwaysFailRandom;
    assert!(generate_code(&policy, &mut rng) == Err(RandomError));
}

#[test]
fn rejection_sampling_discards_bytes_at_or_above_ceiling() {
    let policy = CodePolicy::six_symbol(3600).unwrap();
    let alpha = Alphabet::unambiguous();
    assert_eq!(alpha.unbiased_ceiling(), 248);
    let mut rng = FixedBytesRandom::new(vec![248, 0]);
    let code = generate_code(&policy, &mut rng).unwrap();
    let first = alpha.symbols()[0] as char;
    assert_eq!(code.expose(), &first.to_string().repeat(6));
}

#[test]
fn validate_accepts_normalizes_and_rejects() {
    let policy = human();
    assert_eq!(validate_code_input("abcd-2345", &policy).unwrap(), "ABCD2345");
    assert_eq!(validate_code_input("", &policy), Err(CodeInputError::Empty));
    assert_eq!(validate_code_input("ABCD234", &policy), Err(CodeInputError::WrongLength));
    assert_eq!(validate_code_input("ABCD2340", &policy), Err(CodeInputError::UnsupportedCharacters));
    let long = "A".repeat(policy.max_raw_len() + 1);
    assert_eq!(validate_code_input(&long, &policy), Err(CodeInputError::TooLongRaw));
}

#[test]
fn p6_every_byte_at_or_above_ceiling_is_rejected_never_mapped() {
    let alphabet = Alphabet::unambiguous();
    let ceiling = alphabet.unbiased_ceiling();
    let len = alphabet.len();
    let policy = CodePolicy::short_compat(alphabet.clone(), 1, 3600).unwrap();

    for rejected in ceiling..256 {
        let rejected = rejected as u8;
        let rejected_residue = rejected as usize % len;
        let accepted = ((rejected_residue + 1) % len) as u8;
        assert!((accepted as usize) < ceiling, "test construction error: accepted byte must itself be < ceiling");

        let mut rng = FixedBytesRandom::new(vec![rejected, accepted]);
        let code = generate_code(&policy, &mut rng).unwrap();
        let expected = alphabet.symbol_for_byte(accepted) as char;
        assert_eq!(code.expose(), &expected.to_string(), "byte {rejected} (>= ceiling {ceiling}) was not rejected");
    }
}

#[test]
fn generated_code_validates_to_itself() {
    let policy = human();
    let mut rng = FixedBytesRandom::new(vec![7, 200, 13, 99]);
    let code = generate_code(&policy, &mut rng).unwrap();
    let plain = code.expose().to_string();
    assert_eq!(normalize(&plain), plain);
    assert_eq!(validate_code_input(&plain, &policy).unwrap(), plain);
}

#[test]
fn generation_maps_bytes_by_residue() {
    // 0 -> "2", 1 -> "3", 31 -> "2" again (31 % 31 == 0), 40 -> "B" (40 % 31 == 9).
    let policy = CodePolicy::default_human(60).unwrap();
    let mut rng = FixedBytesRandom::new(vec![0, 1, 31, 40]);
    let code = generate_code(&policy, &mut rng).unwrap();
    assert_eq!(code.expose(), "232B232B");
}

#[test]
fn empty_pattern_source_fails_closed() {
    let policy = human();
    let mut rng = FixedBytesRandom::new(Vec::new());
    assert!(generate_code(&policy, &mut rng) == Err(RandomError));
}

#[test]
fn whitespace_is_stripped_before_length_check() {
    let policy = human();
    assert_eq!(validate_code_input(" \tab cd 23 45\n", &policy).unwrap(), "ABCD2345");
    assert_eq!(validate_code_input("  --  ", &policy), Err(CodeInputError::Empty));
}

#[test]
fn sampling_takes_symbols_below_the_ceiling_only() {
    let a = Alphabet::unambiguous();
    assert_eq!(sample_byte(&a, 0), Some(b'2'));
    assert_eq!(sample_byte(&a, 40), Some(b'B'));
    assert_eq!(sample_byte(&a, 247), Some(a.symbols()[247 % 31]));
    assert_eq!(sample_byte(&a, 248), None);
    assert_eq!(sample_byte(&a, 255), None);
}

#[test]
fn sampling_over_given_draws_matches_generation() {
    let policy = CodePolicy::default_human(60).unwrap();
    let draws: Vec<Option<u8>> = vec![Some(0), Some(255), Some(1), Some(31), Some(248), Some(40), Some(0), Some(1), Some(31), Some(40)];
    let code = code_from_draws(&policy, &draws).unwrap().unwrap();
    assert_eq!(code.expose(), "232B232B");
    let bytes: Vec<u8> = draws.iter().map(|d| d.unwrap()).collect();
    let mut rng = FixedBytesRandom::new(bytes);
    assert_eq!(generate_code(&policy, &mut rng).unwrap().expose(), code.expose());
}

#[test]
fn sampling_over_given_draws_fails_at_a_failed_draw_and_waits_for_more() {
    let policy = CodePolicy::default_human(60).unwrap();
    assert!(code_from_draws(&policy, &[Some(0), None, Some(1)]) == Some(Err(RandomError)));
    assert!(code_from_draws(&policy, &[Some(0), Some(1), Some(250)]).is_none());
    assert!(code_from_draws(&policy, &[]).is_none());
    // A failure after the code is complete is never reached.
    let mut draws: Vec<Option<u8>> = vec![Some(2); 8];
    draws.push(None);
    assert_eq!(code_from_draws(&policy, &draws).unwrap().unwrap().expose(), "44444444");
}
