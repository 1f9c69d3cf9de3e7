//! Code generation by rejection sampling, and validation of user input.
//!
//! Generation reads one random byte per attempt, accepts it only below the
//! alphabet's unbiased ceiling, and maps it to `alphabet[byte % len]`; bytes at
//! or above the ceiling are discarded and redrawn. A failing random source
//! fails the whole generation: no partial or deterministic code is produced.

use vstd::prelude::*;
use crate::code::alphabet::{Alphabet, ceiling_for, valid_symbols};
use crate::code::normalize::{
    ascii_lower, is_canonical_char, lemma_normalize_fixed_point, lemma_normalize_lowered, normalize, normalize_chars,
};
use crate::code::policy::{CodePolicy, PolicyView};
use crate::error::{CodeInputError, RandomError};
use crate::rng::RandomSource;
use crate::secret::PlainCode;
use crate::text::push_char;

verus! {

/// Whether character `c` is one of the (ASCII) alphabet symbols.
pub open spec fn char_in_alphabet(alphabet: Seq<u8>, c: char) -> bool {
    exists|j: int| 0 <= j < alphabet.len() && (#[trigger] alphabet[j]) as char == c
}

/// Whether `c` is the character of one of the alphabet's symbols.
fn alphabet_has_char(alphabet: &Alphabet, c: char) -> (r: bool)
    ensures
        r == char_in_alphabet(alphabet@, c),
{
    let syms = alphabet.symbols();
    let n = syms.len();
    let mut i: usize = 0;
    while i < n
        invariant
            n == syms@.len(),
            syms@ == alphabet@,
            i <= n,
            forall|k: int| 0 <= k < i ==> (#[trigger] syms@[k]) as char != c,
        decreases n - i,
    {
        if syms[i] as char == c {
            return true;
        }
        i = i + 1;
    }
    false
}

/// Whether every character of `s` is an alphabet symbol.
pub open spec fn all_in_alphabet(alphabet: Seq<u8>, s: Seq<char>) -> bool {
    forall|i: int| 0 <= i < s.len() ==> char_in_alphabet(alphabet, #[trigger] s[i])
}

/// Whether `s` has the shape of a code under policy `p`: the policy's length,
/// every character an alphabet symbol.
pub open spec fn is_code_for(p: PolicyView, s: Seq<char>) -> bool {
    s.len() == p.length && all_in_alphabet(p.alphabet, s)
}

/// The outcome of validating raw input `raw` under policy `p`. The checks run
/// in this order: empty input, raw byte length, empty after normalization,
/// normalized length, alphabet membership.
pub open spec fn validation_result(raw: Seq<char>, p: PolicyView) -> Result<Seq<char>, CodeInputError> {
    let n = normalize_chars(raw);
    if raw.len() == 0 {
        Err(CodeInputError::Empty)
    } else if vstd::utf8::encode_utf8(raw).len() > p.max_raw_len {
        Err(CodeInputError::TooLongRaw)
    } else if n.len() == 0 {
        Err(CodeInputError::Empty)
    } else if n.len() != p.length {
        Err(CodeInputError::WrongLength)
    } else if !all_in_alphabet(p.alphabet, n) {
        Err(CodeInputError::UnsupportedCharacters)
    } else {
        Ok(n)
    }
}

/// The symbol rejection sampling takes for one drawn byte: the alphabet
/// symbol at `byte % len` for a byte below the unbiased ceiling, none for a
/// byte at or above it (which is discarded and redrawn).
pub open spec fn sample_of(alphabet: Seq<u8>, b: u8) -> Option<u8> {
    if (b as int) < ceiling_for(alphabet.len() as int) {
        Some(alphabet[(b as int) % (alphabet.len() as int)])
    } else {
        None
    }
}

/// The rejection-sampling decision for one drawn byte.
pub fn sample_byte(alphabet: &Alphabet, b: u8) -> (r: Option<u8>)
    ensures
        r == sample_of(alphabet@, b),
{
    if (b as usize) < alphabet.unbiased_ceiling() {
        Some(alphabet.symbol_for_byte(b))
    } else {
        None
    }
}

/// Where rejection sampling stands after a run of draws: still drawing with
/// the symbols kept so far, done with a full code, or failed because a draw
/// failed.
pub enum Sampling {
    Drawing(Seq<char>),
    Done(Seq<char>),
    Failed,
}

/// The state before any draw: a zero-length code is already done.
pub open spec fn sampling_start(length: nat) -> Sampling {
    if length == 0 {
        Sampling::Done(Seq::empty())
    } else {
        Sampling::Drawing(Seq::empty())
    }
}

/// One draw applied to a sampling state. A failed draw fails the run; a byte
/// that [`sample_of`] rejects is discarded; an accepted byte appends its
/// symbol, finishing the code once it has `length` symbols. Finished and
/// failed runs ignore further draws.
pub open spec fn sampling_step(alphabet: Seq<u8>, length: nat, st: Sampling, draw: Option<u8>) -> Sampling {
    match st {
        Sampling::Drawing(s) => match draw {
            None => Sampling::Failed,
            Some(b) => match sample_of(alphabet, b) {
                None => Sampling::Drawing(s),
                Some(sym) => if s.len() + 1 >= length {
                    Sampling::Done(s.push(sym as char))
                } else {
                    Sampling::Drawing(s.push(sym as char))
                },
            },
        },
        _ => st,
    }
}

/// The sampling state after the draws `draws`, taken in order, where `None`
/// stands for a draw that failed.
pub open spec fn sample_run(alphabet: Seq<u8>, length: nat, draws: Seq<Option<u8>>) -> Sampling
    decreases draws.len(),
{
    if draws.len() == 0 {
        sampling_start(length)
    } else {
        sampling_step(alphabet, length, sample_run(alphabet, length, draws.drop_last()), draws.last())
    }
}

/// The first `n` draws a predictable source will hand out.
pub open spec fn forecast<R: RandomSource>(src: R, n: nat) -> Seq<Option<u8>> {
    Seq::new(n, |k: int| src.upcoming(k))
}

/// Whether sampling under `p` from source `src` reaches state `st` within
/// the draw budget of `u64::MAX` draws.
pub open spec fn sampled_to<R: RandomSource>(p: PolicyView, src: R, st: Sampling) -> bool {
    exists|n: nat| n <= u64::MAX && sample_run(p.alphabet, p.length, #[trigger] forecast(src, n)) == st
}

/// Once a run has finished or failed, more draws change nothing.
pub proof fn lemma_sampling_settles(
    alphabet: Seq<u8>,
    length: nat,
    draws: Seq<Option<u8>>,
    more: Seq<Option<u8>>,
)
    requires
        !(sample_run(alphabet, length, draws) is Drawing),
    ensures
        sample_run(alphabet, length, draws + more) == sample_run(alphabet, length, draws),
    decreases more.len(),
{
    if more.len() > 0 {
        let shorter = more.drop_last();
        lemma_sampling_settles(alphabet, length, draws, shorter);
        assert((draws + more).drop_last() == draws + shorter);
    } else {
        assert(draws + more == draws);
    }
}

/// Sampling fails only at a failed draw: a run of draws that all succeed
/// never ends in the failed state.
pub proof fn lemma_sampling_fails_only_on_failed_draw(alphabet: Seq<u8>, length: nat, draws: Seq<Option<u8>>)
    requires
        forall|i: int| 0 <= i < draws.len() ==> (#[trigger] draws[i]) is Some,
    ensures
        !(sample_run(alphabet, length, draws) is Failed),
    decreases draws.len(),
{
    if draws.len() > 0 {
        let shorter = draws.drop_last();
        assert forall|i: int| 0 <= i < shorter.len() implies (#[trigger] shorter[i]) is Some by {
            assert(shorter[i] == draws[i]);
        }
        lemma_sampling_fails_only_on_failed_draw(alphabet, length, shorter);
        assert(draws.last() == draws[draws.len() - 1]);
    }
}

/// A run from a predictable source that has finished or failed after `n1`
/// draws is in the same state after any later number of draws.
pub proof fn lemma_forecast_settles<R: RandomSource>(p: PolicyView, src: R, n1: nat, n2: nat)
    requires
        n1 <= n2,
        !(sample_run(p.alphabet, p.length, forecast(src, n1)) is Drawing),
    ensures
        sample_run(p.alphabet, p.length, forecast(src, n2)) == sample_run(
            p.alphabet,
            p.length,
            forecast(src, n1),
        ),
{
    let more = Seq::new((n2 - n1) as nat, |k: int| src.upcoming(k + n1));
    assert(forecast(src, n1) + more == forecast(src, n2));
    lemma_sampling_settles(p.alphabet, p.length, forecast(src, n1), more);
}

/// Rejection sampling from a predictable source has one outcome: two numbers
/// of draws after which the run has finished or failed lead to the same
/// state.
pub proof fn lemma_sampling_outcome_unique<R: RandomSource>(p: PolicyView, src: R, n1: nat, n2: nat)
    requires
        !(sample_run(p.alphabet, p.length, forecast(src, n1)) is Drawing),
        !(sample_run(p.alphabet, p.length, forecast(src, n2)) is Drawing),
    ensures
        sample_run(p.alphabet, p.length, forecast(src, n1)) == sample_run(
            p.alphabet,
            p.length,
            forecast(src, n2),
        ),
{
    if n1 <= n2 {
        lemma_forecast_settles(p, src, n1, n2);
    } else {
        lemma_forecast_settles(p, src, n2, n1);
    }
}

/// Rejection sampling over a given run of draws under `policy`: `None` while
/// the draws end before the code is complete, `Some(Ok(code))` once it is,
/// and `Some(Err(RandomError))` at the first failed draw before that.
pub fn code_from_draws(policy: &CodePolicy, draws: &[Option<u8>]) -> (r: Option<
    Result<PlainCode, RandomError>,
>)
    ensures
        match sample_run(policy@.alphabet, policy@.length, draws@) {
            Sampling::Drawing(_) => r is None,
            Sampling::Done(s) => r matches Some(Ok(code)) && code@ == s,
            Sampling::Failed => r == Some(Err::<PlainCode, RandomError>(RandomError)),
        },
{
    let alphabet = policy.alphabet();
    let length = policy.length();
    let mut out = String::new();
    let mut produced: usize = 0;
    let mut i: usize = 0;
    proof {
        use_type_invariant(policy);
        CodePolicy::lemma_inv(*policy);
        assert(draws@.take(0) == Seq::<Option<u8>>::empty());
    }
    while i < draws.len()
        invariant
            alphabet@ == policy@.alphabet,
            length == policy@.length,
            i <= draws@.len(),
            out@.len() == produced,
            produced < length,
            sample_run(alphabet@, length as nat, draws@.take(i as int)) == Sampling::Drawing(out@),
        decreases draws.len() - i,
    {
        assert(draws@.take(i + 1).drop_last() == draws@.take(i as int));
        match draws[i] {
            None => {
                proof {
                    lemma_sampling_settles(
                        alphabet@,
                        length as nat,
                        draws@.take(i + 1),
                        draws@.skip(i + 1),
                    );
                    assert(draws@.take(i + 1) + draws@.skip(i + 1) == draws@);
                }
                return Some(Err(RandomError));
            },
            Some(b) => {
                if let Some(sym) = sample_byte(alphabet, b) {
                    push_char(&mut out, sym as char);
                    produced = produced + 1;
                    if produced >= length {
                        proof {
                            lemma_sampling_settles(
                                alphabet@,
                                length as nat,
                                draws@.take(i + 1),
                                draws@.skip(i + 1),
                            );
                            assert(draws@.take(i + 1) + draws@.skip(i + 1) == draws@);
                        }
                        return Some(Ok(PlainCode::new(out)));
                    }
                }
            },
        }
        i = i + 1;
    }
    assert(draws@.take(draws@.len() as int) == draws@);
    None
}

/// Generate a fresh plaintext code under `policy`, drawing randomness from
/// `rng` one byte at a time and keeping the symbols [`sample_byte`] takes,
/// until the code has the policy's length.
///
/// Fails with [`RandomError`] as soon as the source fails; no code is
/// produced then. The number of draws is bounded by `u64::MAX`, which a
/// working source never approaches; exhausting it also fails closed.
///
/// Whatever the source, a code that comes back has the policy's shape. For a
/// predictable source the result is the outcome of [`sample_run`] over the
/// bytes the source hands out: the code it finishes with, or an error where
/// a draw fails first (or the draw budget runs out while still drawing).
pub fn generate_code<R: RandomSource>(policy: &CodePolicy, rng: &mut R) -> (r: Result<
    PlainCode,
    RandomError,
>)
    ensures
        r matches Ok(code) ==> is_code_for(policy@, code@),
        old(rng).predictable() ==> match r {
            Ok(code) => sampled_to(policy@, *old(rng), Sampling::Done(code@)),
            Err(_) => sampled_to(policy@, *old(rng), Sampling::Failed) || sample_run(
                policy@.alphabet,
                policy@.length,
                forecast(*old(rng), u64::MAX as nat),
            ) is Drawing,
        },
{
    let alphabet = policy.alphabet();
    let length = policy.length();
    proof {
        use_type_invariant(alphabet);
        Alphabet::lemma_inv(*alphabet);
    }
    let ghost src: R = *rng;
    let ghost mut consumed: nat = 0;
    let mut out = String::new();
    let mut produced: usize = 0;
    let mut budget: u64 = u64::MAX;
    proof {
        assert(forecast(src, 0) == Seq::<Option<u8>>::empty());
        assert forall|k: int| k >= 0 implies #[trigger] rng.upcoming(k) == src.upcoming(
            k + consumed,
        ) by {}
    }
    while produced < length
        invariant
            valid_symbols(alphabet@),
            alphabet@ == policy@.alphabet,
            length == policy@.length,
            produced <= length,
            out@.len() == produced,
            all_in_alphabet(alphabet@, out@),
            consumed + budget == u64::MAX,
            src == *old(rng),
            src.predictable() ==> {
                &&& rng.predictable()
                &&& forall|k: int| k >= 0 ==> #[trigger] rng.upcoming(k) == src.upcoming(k + consumed)
                &&& sample_run(alphabet@, length as nat, forecast(src, consumed)) == if produced
                    < length {
                    Sampling::Drawing(out@)
                } else {
                    Sampling::Done(out@)
                }
            },
        decreases budget,
    {
        if budget == 0 {
            proof {
                if src.predictable() {
                    assert(consumed == u64::MAX as nat);
                }
            }
            return Err(RandomError);
        }
        budget = budget - 1;
        let mut buf = [0u8; 1];
        let ghost before: R = *rng;
        match rng.fill_bytes(&mut buf) {
            Ok(()) => {},
            Err(e) => {
                proof {
                    if src.predictable() {
                        assert(before.upcoming(0) is None);
                        assert(forecast(src, consumed + 1).drop_last() == forecast(src, consumed));
                        assert(forecast(src, consumed + 1).last() == src.upcoming(consumed as int));
                        assert(sample_run(alphabet@, length as nat, forecast(src, consumed + 1))
                            == Sampling::Failed);
                    }
                }
                return Err(e);
            },
        }
        let b = buf[0];
        proof {
            if src.predictable() {
                assert(before.upcoming(0) is Some);
                assert(b == before.upcoming(0)->Some_0);
                assert(forecast(src, consumed + 1).drop_last() == forecast(src, consumed));
                assert(forecast(src, consumed + 1).last() == Some(b));
            }
        }
        let ghost prev = out@;
        if let Some(sym) = sample_byte(alphabet, b) {
            let ghost idx = (b as int) % (alphabet@.len() as int);
            assert(0 <= idx < alphabet@.len());
            assert(alphabet@[idx] == sym);
            let c = sym as char;
            push_char(&mut out, c);
            assert forall|i: int| 0 <= i < out@.len() implies char_in_alphabet(
                alphabet@,
                #[trigger] out@[i],
            ) by {
                if i < prev.len() {
                    assert(out@[i] == prev[i]);
                } else {
                    assert(out@[i] == c);
                    assert(alphabet@[idx] as char == c);
                }
            }
            produced = produced + 1;
        }
        proof {
            if src.predictable() {
                assert forall|k: int| k >= 0 implies #[trigger] rng.upcoming(k) == src.upcoming(
                    k + (consumed + 1),
                ) by {
                    assert(rng.upcoming(k) == before.upcoming(k + 1));
                }
            }
            consumed = consumed + 1;
        }
    }
    proof {
        if src.predictable() {
            assert(sample_run(alphabet@, length as nat, forecast(src, consumed)) == Sampling::Done(
                out@,
            ));
        }
    }
    Ok(PlainCode::new(out))
}

/// Validate and normalize raw user-supplied code input under `policy`.
///
/// Runs before any storage lookup so malformed input never reaches a store.
/// All errors are meant to collapse to one public message; the distinction is
/// for internal diagnostics only.
pub fn validate_code_input(raw: &str, policy: &CodePolicy) -> (r: Result<String, CodeInputError>)
    ensures
        r matches Ok(s) ==> validation_result(raw@, policy@) == Ok::<Seq<char>, CodeInputError>(
            s@,
        ),
        r matches Err(e) ==> validation_result(raw@, policy@) == Err::<Seq<char>, CodeInputError>(
            e,
        ),
{
    if raw.is_empty() {
        return Err(CodeInputError::Empty);
    }
    let raw_bytes = raw.as_bytes();
    if raw_bytes.len() > policy.max_raw_len() {
        return Err(CodeInputError::TooLongRaw);
    }
    let normalized = normalize(raw);
    if normalized.as_str().is_empty() {
        return Err(CodeInputError::Empty);
    }
    let mut count: usize = 0;
    let alphabet = policy.alphabet();
    let mut all_ok = true;
    let ghost ns = normalized@;
    proof {
        lemma_normalize_shrinks(raw@);
        lemma_chars_le_bytes(raw@);
    }
    let blen = raw_bytes.len();
    for c in it: normalized.as_str().chars()
        invariant
            it.seq() == ns,
            ns.len() <= blen,
            count == it.index(),
            all_ok == all_in_alphabet(alphabet@, ns.take(it.index() as int)),
            alphabet@ == policy@.alphabet,
    {
        let ghost k = it.index() as int;
        let ok_c = alphabet_has_char(alphabet, c);
        assert(ok_c == char_in_alphabet(alphabet@, c));
        proof {
            let pre = ns.take(k);
            let post = ns.take(k + 1);
            assert(post == pre.push(c));
            if all_in_alphabet(alphabet@, post) {
                assert forall|i: int| 0 <= i < pre.len() implies char_in_alphabet(
                    alphabet@,
                    #[trigger] pre[i],
                ) by {
                    assert(post[i] == pre[i]);
                }
                assert(post[k] == c);
            }
            if all_in_alphabet(alphabet@, pre) && ok_c {
                assert forall|i: int| 0 <= i < post.len() implies char_in_alphabet(
                    alphabet@,
                    #[trigger] post[i],
                ) by {
                    if i < k {
                        assert(post[i] == pre[i]);
                    }
                }
            }
        }
        all_ok = all_ok && ok_c;
        count = count + 1;
    }
    assert(ns.take(ns.len() as int) == ns);
    if count != policy.length() {
        return Err(CodeInputError::WrongLength);
    }
    if !all_ok {
        return Err(CodeInputError::UnsupportedCharacters);
    }
    Ok(normalized)
}

/// An ASCII byte that normalization leaves in place: not ASCII whitespace,
/// not a hyphen, not a lowercase letter.
pub open spec fn is_canonical_byte(b: u8) -> bool {
    !(b == 9 || b == 10 || b == 12 || b == 13 || b == 32 || b == 45 || 97 <= b <= 122)
}

/// Normalization never lengthens its input.
proof fn lemma_normalize_shrinks(s: Seq<char>)
    ensures
        normalize_chars(s).len() <= s.len(),
    decreases s.len(),
{
    if s.len() > 0 {
        lemma_normalize_shrinks(s.drop_last());
    }
}

/// A character sequence has at least as many UTF-8 bytes as characters.
proof fn lemma_chars_le_bytes(s: Seq<char>)
    ensures
        s.len() <= vstd::utf8::encode_utf8(s).len(),
    decreases s.len(),
{
    if s.len() > 0 {
        lemma_chars_le_bytes(s.drop_first());
    }
}

/// Issue and redeem paths agree: a code generated under a policy whose symbols
/// normalization leaves in place validates to itself, typed as issued or in
/// lowercase.
pub proof fn lemma_generated_code_validates(p: PolicyView, code: Seq<char>)
    requires
        is_code_for(p, code),
        valid_symbols(p.alphabet),
        p.length > 0,
        p.max_raw_len >= p.length,
        forall|i: int| 0 <= i < p.alphabet.len() ==> is_canonical_byte(#[trigger] p.alphabet[i]),
    ensures
        validation_result(code, p) == Ok::<Seq<char>, CodeInputError>(code),
        validation_result(code.map_values(|c: char| ascii_lower(c)), p) == Ok::<Seq<char>, CodeInputError>(
            code,
        ),
        normalize_chars(code) == code,
{
    assert forall|i: int| 0 <= i < code.len() implies is_canonical_char(#[trigger] code[i]) by {
        let c = code[i];
        assert(char_in_alphabet(p.alphabet, c));
        let j = choose|j: int| 0 <= j < p.alphabet.len() && (#[trigger] p.alphabet[j]) as char == c;
        assert(is_canonical_byte(p.alphabet[j]));
    }
    lemma_normalize_fixed_point(code);
    assert(vstd::utf8::is_ascii_chars(code)) by {
        assert forall|i: int| 0 <= i < code.len() implies '\0' <= #[trigger] code[i] <= '\u{7f}' by {
            let c = code[i];
            assert(char_in_alphabet(p.alphabet, c));
            let j = choose|j: int| 0 <= j < p.alphabet.len() && (#[trigger] p.alphabet[j]) as char == c;
            assert(p.alphabet[j] < 128);
        }
    }
    vstd::utf8::is_ascii_chars_encode_utf8(code);
    let low = code.map_values(|c: char| ascii_lower(c));
    lemma_normalize_lowered(code);
    assert(vstd::utf8::is_ascii_chars(low)) by {
        assert forall|i: int| 0 <= i < low.len() implies '\0' <= #[trigger] low[i] <= '\u{7f}' by {
            assert(low[i] == ascii_lower(code[i]));
            assert('\0' <= code[i] <= '\u{7f}');
        }
    }
    vstd::utf8::is_ascii_chars_encode_utf8(low);
}

} // verus!
