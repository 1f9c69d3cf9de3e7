//! Code normalization.
//!
//! Normalization must be identical on the issue path and the redeem path, and
//! idempotent, or valid codes fail to match their stored lookup key. It strips
//! ASCII whitespace and hyphens and uppercases ASCII letters, and nothing else: in
//! particular it does not drop the visually ambiguous characters `0 1 O I L`
//! (those are only excluded from the generation alphabet).

use vstd::prelude::*;
use crate::text::push_char;

verus! {

/// ASCII whitespace, the set `char::is_ascii_whitespace` tests: space,
/// tab, line feed, form feed and carriage return.
pub open spec fn is_ascii_whitespace_char(c: char) -> bool {
    c == ' ' || c == '\t' || c == '\n' || c == '\u{c}' || c == '\r'
}

/// The characters that normalization strips.
pub open spec fn is_separator(c: char) -> bool {
    is_ascii_whitespace_char(c) || c == '-'
}

/// Whether `c` is a lowercase ASCII letter.
pub open spec fn is_ascii_lower(c: char) -> bool {
    'a' <= c && c <= 'z'
}

/// ASCII uppercasing: lowercase ASCII letters map to uppercase, every other
/// character is unchanged.
pub open spec fn ascii_upper(c: char) -> char {
    if is_ascii_lower(c) {
        ((c as u32) - 32) as char
    } else {
        c
    }
}

/// The canonical form of a character sequence: separators removed, ASCII
/// letters uppercased, everything else untouched.
pub open spec fn normalize_chars(s: Seq<char>) -> Seq<char>
    decreases s.len(),
{
    if s.len() == 0 {
        Seq::empty()
    } else {
        let init = normalize_chars(s.drop_last());
        if is_separator(s.last()) {
            init
        } else {
            init.push(ascii_upper(s.last()))
        }
    }
}

/// Normalization is a filter and a map: the characters that are not
/// separators, in order, each uppercased.
pub proof fn lemma_normalize_filter_map(s: Seq<char>)
    ensures
        normalize_chars(s) == s.filter(|c: char| !is_separator(c)).map_values(|c: char| ascii_upper(c)),
    decreases s.len(),
{
    let keep = |c: char| !is_separator(c);
    if s.len() == 0 {
        assert(s.filter(keep) == Seq::<char>::empty());
    } else {
        let init = s.drop_last();
        lemma_normalize_filter_map(init);
        assert(init.push(s.last()) == s);
        init.lemma_filter_push(s.last(), keep);
    }
}

/// ASCII lowercasing: uppercase ASCII letters map to lowercase, every other
/// character is unchanged.
pub open spec fn ascii_lower(c: char) -> char {
    if 'A' <= c && c <= 'Z' {
        ((c as u32) + 32) as char
    } else {
        c
    }
}

/// A character that normalization leaves in place.
pub open spec fn is_canonical_char(c: char) -> bool {
    !is_separator(c) && !is_ascii_lower(c)
}

fn is_separator_exec(c: char) -> (r: bool)
    ensures
        r == is_separator(c),
{
    c == ' ' || c == '\t' || c == '\n' || c == '\u{c}' || c == '\r' || c == '-'
}

fn to_ascii_upper(c: char) -> (r: char)
    ensures
        r == ascii_upper(c),
{
    if 'a' <= c && c <= 'z' {
        let v: u32 = c as u32;
        let b: u8 = v as u8;
        let u: u8 = b - 32;
        u as char
    } else {
        c
    }
}

/// Normalize raw code input into its canonical form. Total on arbitrary
/// Unicode input: non-ASCII characters are preserved for validation to reject.
pub fn normalize(raw: &str) -> (r: String)
    ensures
        r@ == normalize_chars(raw@),
{
    let mut out = String::new();
    for c in it: raw.chars()
        invariant
            it.seq() == raw@,
            out@ == normalize_chars(it.seq().take(it.index() as int)),
    {
        let ghost prefix = it.seq().take(it.index() as int + 1);
        assert(prefix.drop_last() == it.seq().take(it.index() as int));
        if !is_separator_exec(c) {
            push_char(&mut out, to_ascii_upper(c));
        }
    }
    assert(raw@.take(raw@.len() as int) == raw@);
    out
}

proof fn lemma_upper_is_canonical(c: char)
    requires
        !is_separator(c),
    ensures
        is_canonical_char(ascii_upper(c)),
        ascii_upper(ascii_upper(c)) == ascii_upper(c),
{
    if is_ascii_lower(c) {
        let u = ((c as u32) - 32) as char;
        assert(u as u32 == (c as u32) - 32);
    }
}

/// Every character of a normalized sequence is canonical: no whitespace, no
/// hyphen, no lowercase ASCII letter.
pub proof fn lemma_normalize_output_canonical(s: Seq<char>)
    ensures
        forall|i: int| 0 <= i < normalize_chars(s).len() ==> is_canonical_char(
            #[trigger] normalize_chars(s)[i],
        ),
    decreases s.len(),
{
    if s.len() > 0 {
        let init = normalize_chars(s.drop_last());
        lemma_normalize_output_canonical(s.drop_last());
        if !is_separator(s.last()) {
            lemma_upper_is_canonical(s.last());
            let full = init.push(ascii_upper(s.last()));
            assert forall|i: int| 0 <= i < full.len() implies is_canonical_char(#[trigger] full[i]) by {
                if i < init.len() {
                    assert(full[i] == init[i]);
                }
            }
        }
    }
}

/// A sequence made only of canonical characters is its own normal form.
pub proof fn lemma_normalize_fixed_point(s: Seq<char>)
    requires
        forall|i: int| 0 <= i < s.len() ==> is_canonical_char(#[trigger] s[i]),
    ensures
        normalize_chars(s) == s,
    decreases s.len(),
{
    if s.len() > 0 {
        let init = s.drop_last();
        assert forall|i: int| 0 <= i < init.len() implies is_canonical_char(#[trigger] init[i]) by {
            assert(init[i] == s[i]);
        }
        lemma_normalize_fixed_point(init);
        assert(is_canonical_char(s[s.len() - 1]));
        assert(init.push(s.last()) == s);
    }
}

/// Normalization is idempotent: `normalize(normalize(x)) == normalize(x)`.
pub proof fn lemma_normalize_idempotent(s: Seq<char>)
    ensures
        normalize_chars(normalize_chars(s)) == normalize_chars(s),
{
    lemma_normalize_output_canonical(s);
    lemma_normalize_fixed_point(normalize_chars(s));
}

/// Typing a canonical code in lowercase does not change what it normalizes
/// to.
pub proof fn lemma_normalize_lowered(s: Seq<char>)
    requires
        forall|i: int| 0 <= i < s.len() ==> is_canonical_char(#[trigger] s[i]),
    ensures
        normalize_chars(s.map_values(|c: char| ascii_lower(c))) == s,
    decreases s.len(),
{
    if s.len() > 0 {
        let init = s.drop_last();
        assert forall|i: int| 0 <= i < init.len() implies is_canonical_char(#[trigger] init[i]) by {
            assert(init[i] == s[i]);
        }
        lemma_normalize_lowered(init);
        let low = s.map_values(|c: char| ascii_lower(c));
        assert(low.drop_last() == init.map_values(|c: char| ascii_lower(c)));
        let c = s.last();
        assert(is_canonical_char(s[s.len() - 1]));
        assert(low.last() == ascii_lower(c));
        assert(!is_separator(ascii_lower(c)));
        assert(ascii_upper(ascii_lower(c)) == c);
        assert(init.push(c) == s);
    }
}

} // verus!
