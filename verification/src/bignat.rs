//! Unbounded natural numbers as little-endian sequences of 32-bit limbs.
//!
//! The experience curve takes an integer tenth root of numbers far wider
//! than 128 bits, so the few operations that computation needs are
//! implemented here: building from a machine word, multiplying by a
//! machine word, and comparing.

use vstd::prelude::*;

verus! {

use vstd::arithmetic::power::pow;
use vstd::arithmetic::power2::pow2;
use vstd::arithmetic::power2::lemma_pow2_adds;
use vstd::arithmetic::power2::lemma2_to64;
use vstd::arithmetic::div_mod::lemma_fundamental_div_mod;

pub const LIMB_BASE: u64 = 0x1_0000_0000;

/// The natural number that a little-endian limb sequence stands for.
pub open spec fn limbs_value(s: Seq<u32>) -> nat
    decreases s.len(),
{
    if s.len() == 0 {
        0
    } else {
        limbs_value(s.drop_last()) + s.last() as nat * pow2((32 * (s.len() - 1)) as nat)
    }
}

/// Appending a limb adds its value at the next power of the base.
pub proof fn lemma_limbs_value_push(s: Seq<u32>, x: u32)
    ensures
        limbs_value(s.push(x)) == limbs_value(s) + x as nat * pow2((32 * s.len()) as nat),
{
    assert(s.push(x).drop_last() =~= s);
    assert(s.push(x).last() == x);
}

/// A limb sequence is bounded by the base raised to its length.
pub proof fn lemma_limbs_value_bound(s: Seq<u32>)
    ensures
        limbs_value(s) < pow2((32 * s.len()) as nat),
    decreases s.len(),
{
    if s.len() == 0 {
        assert(pow2(0) == 1) by {
            lemma2_to64();
        }
    } else {
        let n = s.len();
        let p: nat = pow2((32 * (n - 1)) as nat);
        lemma_limbs_value_bound(s.drop_last());
        assert(pow2(32) == 0x1_0000_0000) by {
            lemma2_to64();
        }
        lemma_pow2_adds((32 * (n - 1)) as nat, 32);
        assert(s.last() as nat * p <= 0xFFFF_FFFF * p) by (nonlinear_arith)
            requires
                s.last() <= 0xFFFF_FFFFu32,
                p >= 0,
        ;
        assert(limbs_value(s) <= limbs_value(s.drop_last()) + 0xFFFF_FFFF * p);
        assert(limbs_value(s.drop_last()) + 0xFFFF_FFFF * p < p + 0xFFFF_FFFF * p);
        assert(p + 0xFFFF_FFFF * p == 0x1_0000_0000 * p);
    }
}

/// The number a machine word denotes, as two limbs.
pub fn big_from_u64(x: u64) -> (r: Vec<u32>)
    ensures
        limbs_value(r@) == x,
{
    proof {
        assert(x / 0x1_0000_0000u64 < 0x1_0000_0000) by (nonlinear_arith);
    }
    let lo: u32 = (x % LIMB_BASE) as u32;
    let hi: u32 = (x / LIMB_BASE) as u32;
    let mut r: Vec<u32> = Vec::new();
    r.push(lo);
    r.push(hi);
    proof {
        let s0 = Seq::<u32>::empty();
        lemma_limbs_value_push(s0, lo);
        lemma_limbs_value_push(s0.push(lo), hi);
        assert(r@ =~= s0.push(lo).push(hi));
        assert(pow2(0) == 1 && pow2(32) == 0x1_0000_0000) by {
            lemma2_to64();
        }
        lemma_fundamental_div_mod(x as int, LIMB_BASE as int);
        assert(x == 0x1_0000_0000 * ((x as int) / 0x1_0000_0000) + (x as int) % 0x1_0000_0000);
        assert(lo == (x as int) % 0x1_0000_0000);
        assert(hi == (x as int) / 0x1_0000_0000);
        assert(limbs_value(r@) == lo as nat * pow2(0) + hi as nat * pow2(32));
        assert(lo as nat * 1 == lo as nat) by (nonlinear_arith);
        assert(hi as nat * 0x1_0000_0000 == 0x1_0000_0000 * (hi as int)) by (nonlinear_arith);
    }
    r
}

/// Multiplication by a machine word, with a running carry.
pub fn big_mul_u64(a: &Vec<u32>, m: u64) -> (r: Vec<u32>)
    ensures
        limbs_value(r@) == limbs_value(a@) * m,
{
    let ghost av = a@;
    let mut r: Vec<u32> = Vec::new();
    let mut carry: u64 = 0;
    let mut i: usize = 0;
    proof {
        assert(av.subrange(0, 0) =~= Seq::<u32>::empty());
        assert(limbs_value(Seq::<u32>::empty()) * m == 0) by (nonlinear_arith);
    }
    while i < a.len()
        invariant
            i <= a.len(),
            a@ == av,
            carry <= m,
            r@.len() == i,
            limbs_value(r@) + carry as nat * pow2((32 * i) as nat) == limbs_value(
                av.subrange(0, i as int),
            ) * m,
        decreases a.len() - i,
    {
        let ai: u32 = a[i];
        proof {
            assert((ai as int) * (m as int) + (carry as int) <= 0x1_0000_0000 * (m as int)
                < 0x1_0000_0000_0000_0000_0000_0000) by (nonlinear_arith)
                requires
                    ai <= 0xFFFF_FFFFu32,
                    carry <= m,
                    m < 0x1_0000_0000_0000_0000u128,
            ;
        }
        let t: u128 = (ai as u128) * (m as u128) + (carry as u128);
        let lo: u32 = (t % 0x1_0000_0000u128) as u32;
        let c2u: u128 = t / 0x1_0000_0000u128;
        proof {
            assert(c2u <= m) by (nonlinear_arith)
                requires
                    t <= 0x1_0000_0000u128 * (m as u128),
                    c2u == t / 0x1_0000_0000u128,
            ;
        }
        let c2: u64 = c2u as u64;
        proof {
            let p: nat = pow2((32 * i) as nat);
            let p1: nat = pow2((32 * (i + 1)) as nat);
            lemma_pow2_adds((32 * i) as nat, 32);
            assert(pow2(32) == 0x1_0000_0000) by {
                lemma2_to64();
            }
            assert(p1 == p * 0x1_0000_0000);
            lemma_fundamental_div_mod(t as int, 0x1_0000_0000);
            assert(t == 0x1_0000_0000 * (c2 as int) + lo);
            lemma_limbs_value_push(r@, lo);
            assert(av.subrange(0, i + 1).drop_last() =~= av.subrange(0, i as int));
            assert(limbs_value(av.subrange(0, i + 1)) == limbs_value(av.subrange(0, i as int))
                + ai as nat * p);
            assert(limbs_value(r@.push(lo)) + c2 as nat * p1 == limbs_value(av.subrange(0, i + 1))
                * m) by (nonlinear_arith)
                requires
                    limbs_value(r@.push(lo)) == limbs_value(r@) + lo as nat * p,
                    p1 == p * 0x1_0000_0000,
                    t == 0x1_0000_0000 * (c2 as int) + lo,
                    t == (ai as int) * (m as int) + carry,
                    limbs_value(r@) + carry as nat * p == limbs_value(av.subrange(0, i as int))
                        * m,
                    limbs_value(av.subrange(0, i + 1)) == limbs_value(av.subrange(0, i as int))
                        + ai as nat * p,
            ;
        }
        r.push(lo);
        carry = c2;
        i += 1;
    }
    proof {
        assert(av.subrange(0, av.len() as int) =~= av);
    }
    let clo: u32 = (carry % LIMB_BASE) as u32;
    let chi: u32 = (carry / LIMB_BASE) as u32;
    proof {
        let n = a@.len();
        let p: nat = pow2((32 * n) as nat);
        let p1: nat = pow2((32 * (n + 1)) as nat);
        lemma_pow2_adds((32 * n) as nat, 32);
        assert(pow2(32) == 0x1_0000_0000) by {
            lemma2_to64();
        }
        lemma_fundamental_div_mod(carry as int, LIMB_BASE as int);
        lemma_limbs_value_push(r@, clo);
        lemma_limbs_value_push(r@.push(clo), chi);
        assert(limbs_value(r@.push(clo).push(chi)) == limbs_value(r@) + carry as nat * p)
            by (nonlinear_arith)
            requires
                limbs_value(r@.push(clo).push(chi)) == limbs_value(r@) + clo as nat * p
                    + chi as nat * p1,
                p1 == p * 0x1_0000_0000,
                carry == 0x1_0000_0000 * (chi as int) + clo,
        ;
    }
    r.push(clo);
    r.push(chi);
    r
}

/// The power of a machine word, as limbs.
pub fn big_pow_u64(base: u64, e: u32) -> (r: Vec<u32>)
    ensures
        limbs_value(r@) == pow(base as int, e as nat),
{
    let mut r = big_from_u64(1);
    let mut i: u32 = 0;
    proof {
        vstd::arithmetic::power::lemma_pow0(base as int);
    }
    while i < e
        invariant
            i <= e,
            limbs_value(r@) == pow(base as int, i as nat),
        decreases e - i,
    {
        r = big_mul_u64(&r, base);
        proof {
            assert(pow(base as int, (i + 1) as nat) == pow(base as int, i as nat) * base) by {
                vstd::arithmetic::power::lemma_pow_adds(base as int, i as nat, 1);
                vstd::arithmetic::power::lemma_pow1(base as int);
            }
        }
        i += 1;
    }
    r
}

/// If two equally long sequences agree above position `k` and differ at it,
/// the one with the smaller limb stands for the smaller number.
proof fn lemma_limbs_value_lt(x: Seq<u32>, y: Seq<u32>, k: int)
    requires
        x.len() == y.len(),
        0 <= k < x.len(),
        x[k] < y[k],
        forall|j: int| k < j < x.len() ==> x[j] == y[j],
    ensures
        limbs_value(x) < limbs_value(y),
    decreases x.len(),
{
    let n = x.len();
    let p: nat = pow2((32 * (n - 1)) as nat);
    if k == n - 1 {
        lemma_limbs_value_bound(x.drop_last());
        assert(limbs_value(x) < p + x[k] as nat * p);
        assert(p + x[k] as nat * p == (x[k] + 1) as nat * p) by (nonlinear_arith);
        assert((x[k] + 1) as nat * p <= y[k] as nat * p) by (nonlinear_arith)
            requires
                x[k] < y[k],
                p >= 0,
        ;
        assert(limbs_value(y) >= y[k] as nat * p);
    } else {
        assert(x.last() == y.last());
        lemma_limbs_value_lt(x.drop_last(), y.drop_last(), k);
    }
}

/// Copy of a limb vector.
fn big_copy(a: &Vec<u32>) -> (r: Vec<u32>)
    ensures
        r@ == a@,
{
    let mut r: Vec<u32> = Vec::new();
    let mut i: usize = 0;
    while i < a.len()
        invariant
            i <= a.len(),
            r@ == a@.subrange(0, i as int),
        decreases a.len() - i,
    {
        r.push(a[i]);
        proof {
            assert(a@.subrange(0, i + 1) =~= a@.subrange(0, i as int).push(a@[i as int]));
        }
        i += 1;
    }
    proof {
        assert(a@.subrange(0, a@.len() as int) =~= a@);
    }
    r
}

/// Comparison of the numbers two limb vectors stand for.
pub fn big_le(a: &Vec<u32>, b: &Vec<u32>) -> (r: bool)
    ensures
        r == (limbs_value(a@) <= limbs_value(b@)),
{
    let mut x = big_copy(a);
    let mut y = big_copy(b);
    while x.len() < y.len()
        invariant
            limbs_value(x@) == limbs_value(a@),
            limbs_value(y@) == limbs_value(b@),
        decreases y.len() - x.len(),
    {
        proof {
            lemma_limbs_value_push(x@, 0);
        }
        x.push(0);
    }
    while y.len() < x.len()
        invariant
            y.len() <= x.len(),
            limbs_value(x@) == limbs_value(a@),
            limbs_value(y@) == limbs_value(b@),
        decreases x.len() - y.len(),
    {
        proof {
            lemma_limbs_value_push(y@, 0);
        }
        y.push(0);
    }
    let n = x.len();
    let mut i: usize = n;
    while i > 0
        invariant
            i <= n,
            x@.len() == n,
            y@.len() == n,
            limbs_value(x@) == limbs_value(a@),
            limbs_value(y@) == limbs_value(b@),
            forall|j: int| i <= j < n ==> x@[j] == y@[j],
        decreases i,
    {
        i = i - 1;
        if x[i] < y[i] {
            proof {
                lemma_limbs_value_lt(x@, y@, i as int);
            }
            return true;
        }
        if x[i] > y[i] {
            proof {
                lemma_limbs_value_lt(y@, x@, i as int);
            }
            return false;
        }
    }
    proof {
        assert(x@ =~= y@);
    }
    true
}

} // verus!
