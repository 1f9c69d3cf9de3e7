//! The symbol alphabet used for code generation.
//!
//! An alphabet is a set of at least two distinct ASCII bytes. Generation maps a
//! random byte `b` to `symbols[b % len]`, accepting only bytes below the
//! *unbiased ceiling* (the largest multiple of `len` that is at most 256), so
//! every symbol is equally likely.

use vstd::prelude::*;
use crate::error::PolicyError;

verus! {

/// At least two symbols, all ASCII, pairwise distinct.
pub open spec fn valid_symbols(s: Seq<u8>) -> bool {
    &&& s.len() >= 2
    &&& forall|i: int| 0 <= i < s.len() ==> #[trigger] s[i] < 128
    &&& forall|i: int, j: int| 0 <= i < j < s.len() ==> s[i] != s[j]
}

/// Whether some symbol position holds a byte at or above 128.
pub open spec fn has_non_ascii(s: Seq<u8>) -> bool {
    exists|i: int| 0 <= i < s.len() && #[trigger] s[i] >= 128
}

/// Whether two symbol positions hold the same byte.
pub open spec fn has_duplicate(s: Seq<u8>) -> bool {
    exists|i: int, j: int| 0 <= i < j < s.len() && #[trigger] s[i] == #[trigger] s[j]
}

/// The largest multiple of `len` that is at most 256.
pub open spec fn ceiling_for(len: int) -> int {
    256 - 256int % len
}

/// The `i`-th symbol of the unambiguous alphabet: the digits `2`-`9` and the
/// letters `A`-`Z` without `I`, `L` and `O`, in ascending byte order.
pub open spec fn unambiguous_symbol(i: int) -> u8 {
    if i < 8 {
        (50 + i) as u8
    } else if i < 16 {
        (57 + i) as u8
    } else if i < 18 {
        (58 + i) as u8
    } else if i < 20 {
        (59 + i) as u8
    } else {
        (60 + i) as u8
    }
}

/// The 31 symbols of the unambiguous alphabet.
pub open spec fn unambiguous_symbols() -> Seq<u8> {
    Seq::new(31, |i: int| unambiguous_symbol(i))
}

/// A validated generation alphabet.
#[derive(Debug, PartialEq, Eq)]
pub struct Alphabet {
    symbols: Vec<u8>,
}

impl View for Alphabet {
    type V = Seq<u8>;

    closed spec fn view(&self) -> Seq<u8> {
        self.symbols@
    }
}

impl Clone for Alphabet {
    fn clone(&self) -> (r: Self)
        ensures
            r@ == self@,
    {
        proof {
            use_type_invariant(self);
        }
        Alphabet { symbols: self.symbols.clone() }
    }
}

fn unambiguous_symbol_exec(i: u8) -> (r: u8)
    requires
        i < 31,
    ensures
        r == unambiguous_symbol(i as int),
{
    if i < 8 {
        50 + i
    } else if i < 16 {
        57 + i
    } else if i < 18 {
        58 + i
    } else if i < 20 {
        59 + i
    } else {
        60 + i
    }
}

impl Alphabet {
    /// The shape every alphabet keeps.
    #[verifier::type_invariant]
    pub closed spec fn inv(self) -> bool {
        valid_symbols(self.symbols@)
    }

    /// What the type invariant states, over the view.
    pub proof fn lemma_inv(a: Alphabet)
        requires
            a.inv(),
        ensures
            valid_symbols(a@),
    {
    }

    /// The default alphabet: 31 symbols with no visually ambiguous characters
    /// (`0 1 O I L` are excluded).
    pub fn unambiguous() -> (r: Self)
        ensures
            r@ == unambiguous_symbols(),
    {
        let mut v: Vec<u8> = Vec::new();
        let mut i: u8 = 0;
        while i < 31
            invariant
                i <= 31,
                v@ == unambiguous_symbols().take(i as int),
            decreases 31 - i,
        {
            v.push(unambiguous_symbol_exec(i));
            assert(unambiguous_symbols().take(i + 1) == unambiguous_symbols().take(i as int).push(
                unambiguous_symbol(i as int),
            ));
            i = i + 1;
        }
        assert(unambiguous_symbols().take(31) == unambiguous_symbols());
        Alphabet { symbols: v }
    }

    /// Build an alphabet from raw symbols.
    ///
    /// Rejects fewer than two symbols, then any non-ASCII byte, then any
    /// duplicate.
    pub fn new(symbols: &[u8]) -> (r: Result<Self, PolicyError>)
        ensures
            symbols@.len() < 2 ==> r == Err::<Self, PolicyError>(PolicyError::AlphabetTooSmall),
            symbols@.len() >= 2 && has_non_ascii(symbols@) ==> r == Err::<Self, PolicyError>(
                PolicyError::AlphabetNotAscii,
            ),
            symbols@.len() >= 2 && !has_non_ascii(symbols@) && has_duplicate(symbols@) ==> r
                == Err::<Self, PolicyError>(PolicyError::AlphabetNotUnique),
            r is Ok <==> valid_symbols(symbols@),
            r matches Ok(a) ==> a@ == symbols@,
    {
        let n = symbols.len();
        if n < 2 {
            return Err(PolicyError::AlphabetTooSmall);
        }
        let mut i: usize = 0;
        while i < n
            invariant
                n == symbols@.len(),
                n >= 2,
                i <= n,
                forall|k: int| 0 <= k < i ==> #[trigger] symbols@[k] < 128,
            decreases n - i,
        {
            if symbols[i] >= 128 {
                return Err(PolicyError::AlphabetNotAscii);
            }
            i = i + 1;
        }
        let mut i: usize = 0;
        while i < n
            invariant
                n == symbols@.len(),
                n >= 2,
                i <= n,
                forall|k: int| 0 <= k < n ==> #[trigger] symbols@[k] < 128,
                forall|a: int, b: int| 0 <= a < b < n && a < i ==> symbols@[a] != symbols@[b],
            decreases n - i,
        {
            let mut j: usize = i + 1;
            while j < n
                invariant
                    n == symbols@.len(),
                    n >= 2,
                    forall|k: int| 0 <= k < n ==> #[trigger] symbols@[k] < 128,
                    i < n,
                    i + 1 <= j <= n,
                    forall|b: int| i < b < j ==> symbols@[i as int] != #[trigger] symbols@[b],
                decreases n - j,
            {
                if symbols[i] == symbols[j] {
                    return Err(PolicyError::AlphabetNotUnique);
                }
                j = j + 1;
            }
            i = i + 1;
        }
        let mut v: Vec<u8> = Vec::new();
        let mut k: usize = 0;
        while k < n
            invariant
                n == symbols@.len(),
                k <= n,
                v@ == symbols@.take(k as int),
            decreases n - k,
        {
            v.push(symbols[k]);
            assert(symbols@.take(k + 1) == symbols@.take(k as int).push(symbols@[k as int]));
            k = k + 1;
        }
        assert(symbols@.take(n as int) == symbols@);
        Ok(Alphabet { symbols: v })
    }

    /// Number of symbols.
    pub fn len(&self) -> (r: usize)
        ensures
            r == self@.len(),
    {
        self.symbols.len()
    }

    /// Borrow the symbols.
    pub fn symbols(&self) -> (r: &[u8])
        ensures
            r@ == self@,
    {
        self.symbols.as_slice()
    }

    /// Whether `b` is one of the symbols.
    pub fn contains(&self, b: u8) -> (r: bool)
        ensures
            r == self@.contains(b),
    {
        let n = self.symbols.len();
        let mut i: usize = 0;
        while i < n
            invariant
                n == self@.len(),
                i <= n,
                forall|k: int| 0 <= k < i ==> self@[k] != b,
            decreases n - i,
        {
            if self.symbols[i] == b {
                return true;
            }
            i = i + 1;
        }
        false
    }

    /// The largest multiple of the alphabet length that is at most 256. Bytes
    /// below it are accepted; the rest are rejected and redrawn.
    pub fn unbiased_ceiling(&self) -> (r: usize)
        ensures
            r == ceiling_for(self@.len() as int),
    {
        proof {
            use_type_invariant(self);
        }
        let n = self.symbols.len();
        proof {
            vstd::arithmetic::div_mod::lemma_mod_decreases(256, n as nat);
        }
        256 - 256 % n
    }

    /// The symbol for an accepted random byte: `symbols[b % len]`.
    pub fn symbol_for_byte(&self, b: u8) -> (r: u8)
        ensures
            r == self@[(b as int) % (self@.len() as int)],
    {
        proof {
            use_type_invariant(self);
        }
        let n = self.symbols.len();
        self.symbols[(b as usize) % n]
    }
}

/// The unambiguous alphabet is a valid alphabet of 31 symbols, none of which
/// is `0`, `1`, `O`, `I` or `L`.
pub proof fn lemma_unambiguous_shape()
    ensures
        valid_symbols(unambiguous_symbols()),
        unambiguous_symbols().len() == 31,
        !unambiguous_symbols().contains(48u8),
        !unambiguous_symbols().contains(49u8),
        !unambiguous_symbols().contains(79u8),
        !unambiguous_symbols().contains(73u8),
        !unambiguous_symbols().contains(76u8),
{
    let s = unambiguous_symbols();
    assert forall|i: int, j: int| 0 <= i < j < s.len() implies s[i] != s[j] by {
        assert(s[i] < s[j]);
    }
}

/// The unbiased ceiling is the largest multiple of `len` that is at most 256,
/// for every length from 2 to 256.
pub proof fn lemma_ceiling_is_largest_multiple(len: int)
    requires
        2 <= len <= 256,
    ensures
        ceiling_for(len) <= 256,
        ceiling_for(len) % len == 0,
        ceiling_for(len) + len > 256,
        ceiling_for(len) >= len,
{
    vstd::arithmetic::div_mod::lemma_fundamental_div_mod(256, len);
    assert(ceiling_for(len) == len * (256int / len));
    vstd::arithmetic::div_mod::lemma_mod_multiples_basic(256int / len, len);
    assert((256int / len) * len == len * (256int / len)) by (nonlinear_arith);
    assert(256int / len >= 1) by {
        vstd::arithmetic::div_mod::lemma_div_non_zero(256, len);
    }
    assert(len * (256int / len) >= len) by (nonlinear_arith)
        requires
            256int / len >= 1,
            len >= 2,
    ;
}

/// Exact uniformity: the accepted bytes that map to symbol position `i` are
/// exactly `k * len + i` for `k` below `ceiling / len`, so every symbol has the
/// same number of preimages.
pub proof fn lemma_uniform_preimages(len: int, b: int, i: int, k: int)
    requires
        2 <= len <= 256,
        0 <= i < len,
    ensures
        0 <= b < ceiling_for(len) ==> (b % len == i <==> b == (b / len) * len + i && 0 <= b / len
            < ceiling_for(len) / len),
        0 <= k < ceiling_for(len) / len ==> 0 <= k * len + i < ceiling_for(len) && (k * len + i)
            % len == i,
{
    lemma_ceiling_is_largest_multiple(len);
    let c = ceiling_for(len);
    let q = c / len;
    vstd::arithmetic::div_mod::lemma_fundamental_div_mod(c, len);
    assert(c == len * q);
    if 0 <= b < c {
        vstd::arithmetic::div_mod::lemma_fundamental_div_mod(b, len);
        vstd::arithmetic::div_mod::lemma_div_pos_is_pos(b, len);
        assert(b / len < q) by {
            vstd::arithmetic::div_mod::lemma_div_is_ordered(b, c - 1, len);
            vstd::arithmetic::div_mod::lemma_fundamental_div_mod(c - 1, len);
            vstd::arithmetic::div_mod::lemma_div_multiples_vanish(q, len);
            vstd::arithmetic::div_mod::lemma_div_by_multiple_is_strongly_ordered(c - 1, c, q, len);
        }
        assert((b / len) * len == len * (b / len)) by (nonlinear_arith);
    }
    if 0 <= k < q {
        vstd::arithmetic::div_mod::lemma_mod_multiples_vanish(k, i, len);
        assert(k * len + i < c) by (nonlinear_arith)
            requires
                0 <= k < q,
                0 <= i < len,
                c == len * q,
        ;
        assert(k * len >= 0) by (nonlinear_arith)
            requires
                k >= 0,
                len >= 0,
        ;
        vstd::arithmetic::div_mod::lemma_small_mod(i as nat, len as nat);
        assert((len * k + i) % len == i);
        assert(len * k == k * len) by (nonlinear_arith);
    }
}

} // verus!
