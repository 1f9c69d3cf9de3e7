use codlet::code::Alphabet;
use codlet::error::PolicyError;
use std::collections::HashMap;

#[test]
fn default_excludes_ambiguous_characters() {
    let a = Alphabet::unambiguous();
    for &c in b"01OIL" {
        assert!(!a.contains(c), "default alphabet contains ambiguous '{}'", c as char);
    }
    assert_eq!(a.len(), 31);
}

#[test]
fn ceiling_is_248_for_default() {
    assert_eq!(Alphabet::unambiguous().unbiased_ceiling(), 248);
}

#[test]
fn all_accepted_bytes_map_into_alphabet() {
    let a = Alphabet::unambiguous();
    for b in 0..a.unbiased_ceiling() {
        let sym = a.symbol_for_byte(b as u8);
        assert!(a.contains(sym));
    }
}

#[test]
fn rejects_small_duplicate_and_non_ascii() {
    assert_eq!(Alphabet::new(b"A"), Err(PolicyError::AlphabetTooSmall));
    assert_eq!(Alphabet::new(b"AAB"), Err(PolicyError::AlphabetNotUnique));
    assert_eq!(Alphabet::new(&[b'A', 0x80]), Err(PolicyError::AlphabetNotAscii));
    assert!(Alphabet::new(b"AB").is_ok());
}

/// Every length an alphabet can have (2 to 128 distinct ASCII bytes): the
/// ceiling is the largest multiple of the length that is at most 256.
#[test]
fn p7_ceiling_is_the_largest_multiple_of_len_up_to_256() {
    for len in 2..=128usize {
        let symbols: Vec<u8> = (0..len as u8).collect();
        let a = Alphabet::new(&symbols).unwrap();
        let ceiling = a.unbiased_ceiling();
        assert!(ceiling <= 256, "ceiling {ceiling} exceeds 256 for len {len}");
        assert_eq!(ceiling % len, 0, "ceiling {ceiling} is not a multiple of len {len}");
        assert!(ceiling + len > 256, "ceiling {ceiling} is not the largest multiple of {len} that is <= 256");
    }
}

#[test]
fn p5_exact_uniformity_for_default_alphabet() {
    let a = Alphabet::unambiguous();
    let ceiling = a.unbiased_ceiling();
    let len = a.len();
    let expected_per_symbol = ceiling / len;

    let mut counts = HashMap::new();
    for b in 0u16..256 {
        let byte = b as u8;
        if (byte as usize) < ceiling {
            let sym = a.symbol_for_byte(byte);
            assert!(a.contains(sym), "accepted byte {byte} mapped to {sym:#x}, outside the alphabet");
            *counts.entry(sym).or_insert(0usize) += 1;
        }
    }
    assert_eq!(counts.len(), len, "not every symbol in the alphabet was reached by an accepted byte");
    for (&sym, &count) in &counts {
        assert_eq!(count, expected_per_symbol, "symbol {:?} reached by {count} bytes", sym as char);
    }
}

#[test]
fn default_alphabet_has_the_documented_symbols() {
    let a = Alphabet::unambiguous();
    assert_eq!(a.symbols(), b"23456789ABCDEFGHJKMNPQRSTUVWXYZ");
}

#[test]
fn alphabet_error_order_is_small_then_ascii_then_unique() {
    assert_eq!(Alphabet::new(b""), Err(PolicyError::AlphabetTooSmall));
    assert_eq!(Alphabet::new(&[0x80, 0x80]), Err(PolicyError::AlphabetNotAscii));
    assert_eq!(Alphabet::new(b"ABCA"), Err(PolicyError::AlphabetNotUnique));
}
