//! Unsigned 256-bit ledger quantities (token amounts, job identifiers,
//! timestamps) held as two 128-bit halves.

use vstd::prelude::*;

verus! {

/// 256^n.
pub open spec fn pow256(n: nat) -> nat
    decreases n,
{
    if n == 0 {
        1
    } else {
        256 * pow256((n - 1) as nat)
    }
}

/// The number that a sequence of bytes spells in big-endian order.
pub open spec fn be_value(s: Seq<u8>) -> nat
    decreases s.len(),
{
    if s.len() == 0 {
        0
    } else {
        be_value(s.drop_last()) * 256 + s.last() as nat
    }
}

/// 2^128, the weight of the high half.
pub open spec fn half_base() -> nat {
    u128::MAX as nat + 1
}

pub proof fn lemma_pow256_monotone(a: nat, b: nat)
    requires
        a <= b,
    ensures
        pow256(a) <= pow256(b),
    decreases b,
{
    if a < b {
        lemma_pow256_monotone(a, (b - 1) as nat);
    }
}

pub proof fn lemma_pow256_sixteen()
    ensures
        pow256(16) == half_base(),
{
    reveal_with_fuel(pow256, 17);
}

pub proof fn lemma_be_value_bound(s: Seq<u8>)
    ensures
        be_value(s) < pow256(s.len()),
    decreases s.len(),
{
    if s.len() > 0 {
        let p = pow256((s.len() - 1) as nat);
        let x = be_value(s.drop_last());
        let b = s.last() as nat;
        lemma_be_value_bound(s.drop_last());
        assert(x * 256 + b < 256 * p) by (nonlinear_arith)
            requires
                x < p,
                b < 256,
        ;
    }
}

pub proof fn lemma_be_value_append(a: Seq<u8>, b: Seq<u8>)
    ensures
        be_value(a + b) == be_value(a) * pow256(b.len()) + be_value(b),
    decreases b.len(),
{
    if b.len() == 0 {
        assert(a + b =~= a);
        assert(be_value(b) == 0);
        assert(pow256(0) == 1);
    } else {
        let c = b.drop_last();
        assert((a + b).drop_last() =~= a + c);
        assert((a + b).last() == b.last());
        lemma_be_value_append(a, c);
        let va = be_value(a);
        let vc = be_value(c);
        let p = pow256(c.len());
        let l = b.last() as nat;
        assert(be_value(a + b) == be_value(a + c) * 256 + l);
        assert(be_value(b) == vc * 256 + l);
        assert(pow256(b.len()) == 256 * p);
        assert((va * p + vc) * 256 + l == va * (256 * p) + (vc * 256 + l)) by (nonlinear_arith);
    }
}

/// An unsigned 256-bit number: `hi * 2^128 + lo`.
#[derive(Clone, Copy, Debug, PartialEq, Eq, Structural)]
pub struct Word256 {
    pub hi: u128,
    pub lo: u128,
}

impl Word256 {
    pub open spec fn value(self) -> nat {
        self.hi as nat * half_base() + self.lo as nat
    }

    pub fn from_u128(n: u128) -> (r: Word256)
        ensures
            r.value() == n,
    {
        Word256 { hi: 0, lo: n }
    }

    /// The number spelled by 32 big-endian bytes (a ledger word or topic).
    pub fn from_be_bytes(bytes: &[u8; 32]) -> (r: Word256)
        ensures
            r.value() == be_value(bytes@),
    {
        proof {
            lemma_pow256_sixteen();
        }
        let mut hi: u128 = 0;
        let mut i: usize = 0;
        while i < 16
            invariant
                i <= 16,
                bytes@.len() == 32,
                hi == be_value(bytes@.subrange(0, i as int)),
                pow256(16) == half_base(),
            decreases 16 - i,
        {
            proof {
                lemma_be_value_bound(bytes@.subrange(0, i as int));
                lemma_pow256_monotone((i + 1) as nat, 16);
                assert(bytes@.subrange(0, i + 1).drop_last() =~= bytes@.subrange(0, i as int));
            }
            let b = bytes[i];
            assert((hi as nat) * 256 + (b as nat) < 256 * pow256(i as nat)) by (nonlinear_arith)
                requires
                    (hi as nat) < pow256(i as nat),
                    b < 256,
            ;
            hi = hi * 256 + b as u128;
            i = i + 1;
        }
        let mut lo: u128 = 0;
        let mut j: usize = 16;
        while j < 32
            invariant
                16 <= j <= 32,
                bytes@.len() == 32,
                lo == be_value(bytes@.subrange(16, j as int)),
                pow256(16) == half_base(),
            decreases 32 - j,
        {
            proof {
                lemma_be_value_bound(bytes@.subrange(16, j as int));
                lemma_pow256_monotone((j - 16 + 1) as nat, 16);
                assert(bytes@.subrange(16, j + 1).drop_last() =~= bytes@.subrange(16, j as int));
            }
            let b = bytes[j];
            assert((lo as nat) * 256 + (b as nat) < 256 * pow256((j - 16) as nat)) by (nonlinear_arith)
                requires
                    (lo as nat) < pow256((j - 16) as nat),
                    b < 256,
            ;
            lo = lo * 256 + b as u128;
            j = j + 1;
        }
        proof {
            lemma_be_value_append(bytes@.subrange(0, 16), bytes@.subrange(16, 32));
            assert(bytes@.subrange(0, 16) + bytes@.subrange(16, 32) =~= bytes@);
        }
        Word256 { hi, lo }
    }

    /// Strict numeric order.
    pub fn lt(&self, other: &Word256) -> (r: bool)
        ensures
            r == (self.value() < other.value()),
    {
        proof {
            let a = self.hi as nat;
            let b = other.hi as nat;
            let x = self.lo as nat;
            let y = other.lo as nat;
            assert(a < b ==> a * half_base() + x < b * half_base() + y) by (nonlinear_arith)
                requires
                    x < half_base(),
                    y < half_base(),
            ;
            assert(b < a ==> b * half_base() + y < a * half_base() + x) by (nonlinear_arith)
                requires
                    x < half_base(),
                    y < half_base(),
            ;
        }
        self.hi < other.hi || (self.hi == other.hi && self.lo < other.lo)
    }
}

} // verus!
