//! Sources of randomness.
//!
//! Generation takes its randomness through [`RandomSource`] and fails closed
//! when the source fails. Two deterministic sources serve tests: one that
//! always fails and one that replays a fixed byte pattern.

use vstd::prelude::*;
use crate::error::RandomError;

verus! {

/// A source of random bytes. Production sources must be cryptographically
/// secure; a failing source makes every caller fail closed.
pub trait RandomSource {
    /// Whether what the source hands out is known in advance (as for the
    /// deterministic test sources). Nothing is claimed of the output of a
    /// source that is not predictable.
    open spec fn predictable(&self) -> bool {
        false
    }

    /// For a predictable source, the byte it hands out `k` draws from now,
    /// or `None` where that draw fails.
    open spec fn upcoming(&self, k: int) -> Option<u8> {
        None
    }

    /// Fill `buf` with random bytes, or report that randomness is
    /// unavailable. A predictable source fills a non-empty buffer with its
    /// upcoming bytes and moves past them when none of those draws fails, and
    /// fails when one does.
    fn fill_bytes(&mut self, buf: &mut [u8]) -> (r: Result<(), RandomError>)
        ensures
            final(buf)@.len() == old(buf)@.len(),
            old(self).predictable() && old(buf)@.len() > 0 && (forall|k: int|
                0 <= k < old(buf)@.len() ==> (#[trigger] old(self).upcoming(k)) is Some) ==> {
                &&& r is Ok
                &&& final(self).predictable()
                &&& forall|k: int| 0 <= k < old(buf)@.len() ==> #[trigger] final(buf)@[k] == old(self).upcoming(
                    k,
                )->Some_0
                &&& forall|k: int| k >= 0 ==> #[trigger] final(self).upcoming(k) == old(self).upcoming(
                    k + old(buf)@.len(),
                )
            },
            old(self).predictable() && (exists|k: int|
                0 <= k < old(buf)@.len() && (#[trigger] old(self).upcoming(k)) is None) ==> r is Err,
    ;
}

/// A source that always fails; exercises the fail-closed paths.
#[derive(Debug, Clone, Copy)]
pub struct AlwaysFailRandom;

impl RandomSource for AlwaysFailRandom {
    open spec fn predictable(&self) -> bool {
        true
    }

    open spec fn upcoming(&self, k: int) -> Option<u8> {
        None
    }

    fn fill_bytes(&mut self, buf: &mut [u8]) -> (r: Result<(), RandomError>)
        ensures
            r is Err,
            final(buf)@ == old(buf)@,
    {
        assert(self.upcoming(0) is None);
        Err(RandomError)
    }
}

/// A deterministic source that replays a fixed byte pattern cyclically.
/// For tests only; an empty pattern fails like an unavailable source.
#[derive(Debug)]
pub struct FixedBytesRandom {
    bytes: Vec<u8>,
    pos: usize,
}

/// Stepping a position one place forward wraps at the modulus.
proof fn lemma_mod_succ(a: int, m: int)
    requires
        m > 0,
        a >= 0,
    ensures
        (a + 1) % m == if a % m + 1 == m {
            0
        } else {
            a % m + 1
        },
{
    let q = a / m;
    let r = a % m;
    vstd::arithmetic::div_mod::lemma_fundamental_div_mod(a, m);
    assert(a == q * m + r) by (nonlinear_arith)
        requires
            a == m * q + r,
    ;
    if r + 1 == m {
        assert(a + 1 == (q + 1) * m + 0) by (nonlinear_arith)
            requires
                a == q * m + r,
                r + 1 == m,
        ;
        vstd::arithmetic::div_mod::lemma_fundamental_div_mod_converse(a + 1, m, q + 1, 0);
    } else {
        vstd::arithmetic::div_mod::lemma_fundamental_div_mod_converse(a + 1, m, q, r + 1);
    }
}

/// The byte the pattern yields at absolute position `k`.
pub open spec fn pattern_at(pattern: Seq<u8>, k: int) -> u8 {
    pattern[k % (pattern.len() as int)]
}

impl FixedBytesRandom {
    /// The replayed pattern.
    pub closed spec fn pattern(&self) -> Seq<u8> {
        self.bytes@
    }

    /// The position of the next byte within the pattern.
    pub closed spec fn position(&self) -> nat {
        self.pos as nat
    }

    /// The position never leaves the pattern.
    #[verifier::type_invariant]
    pub closed spec fn inv(self) -> bool {
        self.bytes@.len() == 0 || self.pos < self.bytes@.len()
    }

    /// A source replaying `bytes` from its start.
    pub fn new(bytes: Vec<u8>) -> (r: Self)
        ensures
            r.pattern() == bytes@,
            r.position() == 0,
    {
        FixedBytesRandom { bytes, pos: 0 }
    }
}

impl RandomSource for FixedBytesRandom {
    open spec fn predictable(&self) -> bool {
        true
    }

    open spec fn upcoming(&self, k: int) -> Option<u8> {
        if self.pattern().len() == 0 {
            None
        } else {
            Some(pattern_at(self.pattern(), self.position() + k))
        }
    }

    fn fill_bytes(&mut self, buf: &mut [u8]) -> (r: Result<(), RandomError>)
        ensures
            old(self).pattern().len() == 0 ==> r is Err && final(buf)@ == old(buf)@,
            old(self).pattern().len() > 0 ==> {
                &&& r is Ok
                &&& final(self).pattern() == old(self).pattern()
                &&& final(self).position() == (old(self).position() + old(buf)@.len()) % old(
                    self,
                ).pattern().len()
                &&& forall|i: int|
                    0 <= i < old(buf)@.len() ==> #[trigger] final(buf)@[i] == pattern_at(
                        old(self).pattern(),
                        old(self).position() + i,
                    )
            },
    {
        proof {
            use_type_invariant(&*self);
        }
        let m = self.bytes.len();
        if m == 0 {
            assert(self.upcoming(0) is None);
            return Err(RandomError);
        }
        let n = buf.len();
        let ghost start = self.pos as int;
        let mut pos = self.pos;
        proof {
            vstd::arithmetic::div_mod::lemma_small_mod(start as nat, m as nat);
        }
        let mut i: usize = 0;
        while i < n
            invariant
                n == buf@.len(),
                n == old(buf)@.len(),
                m == self.bytes@.len(),
                m > 0,
                0 <= start < m,
                i <= n,
                pos < m,
                pos as int == (start + i) % (m as int),
                forall|k: int| 0 <= k < i ==> #[trigger] buf@[k] == pattern_at(self.bytes@, start + k),
            decreases n - i,
        {
            buf[i] = self.bytes[pos];
            proof {
                lemma_mod_succ(start + i, m as int);
            }
            pos = if pos + 1 == m {
                0
            } else {
                pos + 1
            };
            i = i + 1;
        }
        self.pos = pos;
        proof {
            let mi = m as int;
            assert forall|k: int| k >= 0 implies #[trigger] self.upcoming(k) == old(self).upcoming(
                k + n as int,
            ) by {
                vstd::arithmetic::div_mod::lemma_add_mod_noop(start + n, k, mi);
                vstd::arithmetic::div_mod::lemma_add_mod_noop(pos as int, k, mi);
                vstd::arithmetic::div_mod::lemma_mod_twice(start + n, mi);
                assert(start + (k + n) == (start + n) + k);
                assert(pos as int == (start + n) % mi);
            }
        }
        Ok(())
    }
}

} // verus!
