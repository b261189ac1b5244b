//! The experience curve: the cost, in experience points, of leaving a level.
//!
//! The cost of level `L` is `floor(1000 * L^1.3 + 1.7 * L)`, evaluated
//! exactly over the reals.  Multiplying the quantity under the floor by ten
//! gives `10000 * L^(13/10) + 17 * L`, whose floor is
//! `iroot10(10^40 * L^13) + 17 * L` where `iroot10` is the integer tenth
//! root; dividing that by ten (integer division) recovers the original
//! floor.  The computation therefore needs only integer arithmetic, done on
//! limb sequences from `bignat`.

use vstd::prelude::*;

verus! {

use vstd::arithmetic::power::pow;
use vstd::arithmetic::power::lemma_pow0;
use vstd::arithmetic::power::lemma_pow1;
use vstd::arithmetic::power::lemma1_pow;
use vstd::arithmetic::power::lemma_pow_positive;
use vstd::arithmetic::power::lemma_pow_adds;
use vstd::arithmetic::power::lemma_pow_multiplies;
use vstd::arithmetic::power::lemma_pow_strictly_increases;
use vstd::arithmetic::power2::pow2;
use vstd::arithmetic::power2::lemma_pow2;
use vstd::arithmetic::power2::lemma2_to64;
use vstd::arithmetic::div_mod::lemma_div_is_ordered;
use vstd::arithmetic::div_mod::lemma_div_plus_one;
use crate::bignat::limbs_value;
use crate::bignat::big_pow_u64;
use crate::bignat::big_mul_u64;
use crate::bignat::big_le;

/// `r` is the integer tenth root of `n`.
pub open spec fn is_tenth_root(n: nat, r: nat) -> bool {
    pow(r as int, 10) <= n < pow((r + 1) as int, 10)
}

/// The integer tenth root.
pub closed spec fn tenth_root(n: nat) -> nat {
    choose|r: nat| is_tenth_root(n, r)
}

/// The number whose tenth root scales the curve: `10^40 * level^13`.
pub open spec fn curve_radicand(level: nat) -> nat {
    (pow(10, 40) * pow(level as int, 13)) as nat
}

/// The cost of leaving `level`: `floor(1000 * level^1.3 + 1.7 * level)`.
pub open spec fn xp_required_spec(level: nat) -> nat {
    ((tenth_root(curve_radicand(level)) + 17 * level) / 10) as nat
}

/// Raising both of two ordered bases to a power keeps the order.
pub proof fn lemma_pow_base_le(a: nat, b: nat, e: nat)
    requires
        a <= b,
    ensures
        pow(a as int, e) <= pow(b as int, e),
    decreases e,
{
    reveal(pow);
    if e == 0 {
    } else if b == 0 {
        assert(a == 0);
    } else if a == 0 {
        vstd::arithmetic::power::lemma0_pow(e);
        lemma_pow_positive(b as int, e);
    } else {
        lemma_pow_base_le(a, b, (e - 1) as nat);
        lemma_pow_positive(a as int, (e - 1) as nat);
        lemma_pow_positive(b as int, (e - 1) as nat);
        assert((a as int) * pow(a as int, (e - 1) as nat) <= (b as int) * pow(
            b as int,
            (e - 1) as nat,
        )) by (nonlinear_arith)
            requires
                0 < a <= b,
                0 < pow(a as int, (e - 1) as nat) <= pow(b as int, (e - 1) as nat),
        ;
    }
}

/// A power of a natural number is not negative.
pub proof fn lemma_pow_nonneg(b: nat, e: nat)
    ensures
        0 <= pow(b as int, e),
{
    reveal(pow);
    if b == 0 {
        if e == 0 {
        } else {
            vstd::arithmetic::power::lemma0_pow(e);
        }
    } else {
        lemma_pow_positive(b as int, e);
    }
}

/// Raising both of two strictly ordered bases to a positive power keeps the
/// strict order.
pub proof fn lemma_pow_base_lt(a: nat, b: nat, e: nat)
    requires
        a < b,
        e >= 1,
    ensures
        pow(a as int, e) < pow(b as int, e),
{
    reveal(pow);
    lemma_pow_base_le(a, b, (e - 1) as nat);
    lemma_pow_positive(b as int, (e - 1) as nat);
    lemma_pow_nonneg(a, (e - 1) as nat);
    if a == 0 {
        vstd::arithmetic::power::lemma0_pow(e);
        lemma_pow_positive(b as int, e);
    } else {
        lemma_pow_positive(a as int, (e - 1) as nat);
        assert((a as int) * pow(a as int, (e - 1) as nat) < (b as int) * pow(
            b as int,
            (e - 1) as nat,
        )) by (nonlinear_arith)
            requires
                0 < a < b,
                0 < pow(b as int, (e - 1) as nat),
                0 < pow(a as int, (e - 1) as nat) <= pow(b as int, (e - 1) as nat),
        ;
    }
}

/// Every natural number has an integer tenth root.
proof fn tenth_root_witness(n: nat) -> (r: nat)
    ensures
        is_tenth_root(n, r),
    decreases n,
{
    if n == 0 {
        lemma0_pow_ten();
        lemma1_pow(10);
        0
    } else {
        let p = tenth_root_witness((n - 1) as nat);
        if pow((p + 1) as int, 10) <= n {
            lemma_pow_base_lt(p + 1, p + 2, 10);
            p + 1
        } else {
            p
        }
    }
}

proof fn lemma0_pow_ten()
    ensures
        pow(0, 10) == 0,
{
    vstd::arithmetic::power::lemma0_pow(10);
}

/// The tenth root of a number is whichever `r` satisfies `is_tenth_root`.
pub proof fn lemma_tenth_root_is(n: nat, r: nat)
    requires
        is_tenth_root(n, r),
    ensures
        tenth_root(n) == r,
{
    let rc = tenth_root(n);
    assert(is_tenth_root(n, rc)) by {
        assert(is_tenth_root(n, r));
    }
    if rc < r {
        lemma_pow_base_le(rc + 1, r, 10);
        assert(false);
    }
    if r < rc {
        lemma_pow_base_le(r + 1, rc, 10);
        assert(false);
    }
}

/// The tenth root characterization holds of `tenth_root` itself.
pub proof fn lemma_tenth_root_ensures(n: nat)
    ensures
        is_tenth_root(n, tenth_root(n)),
{
    let r = tenth_root_witness(n);
    lemma_tenth_root_is(n, r);
}

/// The integer tenth root of the number a limb sequence stands for,
/// by binary search.
fn tenth_root_exec(n: &Vec<u32>) -> (r: u64)
    requires
        limbs_value(n@) < pow(2, 560),
    ensures
        r as nat == tenth_root(limbs_value(n@)),
        is_tenth_root(limbs_value(n@), r as nat),
        r < 0x100_0000_0000_0000u64,
{
    let nv: Ghost<nat> = Ghost(limbs_value(n@));
    let mut lo: u64 = 0;
    let mut hi: u64 = 1u64 << 56;
    proof {
        assert(1u64 << 56 == 0x100_0000_0000_0000u64) by (bit_vector);
        lemma_pow2(56);
        vstd::arithmetic::power2::lemma2_to64_rest();
        assert(pow2(56) == 0x100_0000_0000_0000);
        assert(pow(2, 56) == 0x100_0000_0000_0000);
        lemma_pow_multiplies(2, 56, 10);
        assert(pow(pow(2, 56), 10) == pow(2, 560));
        lemma0_pow_ten();
    }
    while hi - lo > 1
        invariant
            lo < hi,
            hi <= 0x100_0000_0000_0000u64,
            nv@ == limbs_value(n@),
            pow(lo as int, 10) <= nv@ < pow(hi as int, 10),
        decreases hi - lo,
    {
        let mid: u64 = lo + (hi - lo) / 2;
        let mp = big_pow_u64(mid, 10);
        if big_le(&mp, n) {
            lo = mid;
        } else {
            hi = mid;
        }
    }
    proof {
        lemma_tenth_root_is(nv@, lo as nat);
    }
    lo
}

/// `10^40 < 2^134`, through `1000 < 1024`.
proof fn lemma_ten_pow_forty_bound()
    ensures
        pow(10, 40) < pow(2, 134),
{
    lemma_pow_multiplies(10, 3, 13);
    assert(pow(10, 3) == 1000) by {
        reveal_with_fuel(pow, 4);
    }
    assert(pow(2, 10) == 1024) by {
        reveal_with_fuel(pow, 11);
    }
    lemma_pow_base_le(1000, 1024, 13);
    lemma_pow_multiplies(2, 10, 13);
    assert(pow(pow(10, 3), 13) == pow(10, 39));
    assert(pow(10, 39) <= pow(2, 130));
    assert(pow(10, 40) == pow(10, 39) * pow(10, 1)) by {
        lemma_pow_adds(10, 39, 1);
    }
    lemma_pow1(10);
    assert(pow(2, 134) == pow(2, 130) * pow(2, 4)) by {
        lemma_pow_adds(2, 130, 4);
    }
    assert(pow(2, 4) == 16) by {
        reveal_with_fuel(pow, 5);
    }
    lemma_pow_positive(2, 130);
    lemma_pow_positive(10, 39);
    assert(pow(10, 39) * 10 < pow(2, 130) * 16) by (nonlinear_arith)
        requires
            0 < pow(10, 39) <= pow(2, 130),
    ;
}

/// The radicand of any 32-bit level fits under `2^560`.
proof fn lemma_radicand_bound(level: nat)
    requires
        level < 0x1_0000_0000,
    ensures
        curve_radicand(level) < pow(2, 560),
{
    lemma_ten_pow_forty_bound();
    lemma_pow_base_le(level, 0x1_0000_0000, 13);
    lemma_pow2(32);
    lemma2_to64();
    lemma_pow_multiplies(2, 32, 13);
    assert(pow(0x1_0000_0000, 13) == pow(2, 416));
    lemma_pow_positive(2, 416);
    lemma_pow_positive(10, 40);
    lemma_pow_nonneg(level, 13);
    assert(pow(10, 40) * pow(level as int, 13) < pow(2, 134) * pow(2, 416)) by (nonlinear_arith)
        requires
            0 < pow(10, 40) < pow(2, 134),
            0 <= pow(level as int, 13) <= pow(2, 416),
            0 < pow(2, 416),
    ;
    assert(pow(2, 134) * pow(2, 416) == pow(2, 550)) by {
        lemma_pow_adds(2, 134, 416);
    }
    assert(pow(2, 550) < pow(2, 560)) by {
        lemma_pow_strictly_increases(2, 550, 560);
    }
}

/// The cost of leaving `level`, computed exactly.
pub fn xp_required(level: u32) -> (r: u64)
    ensures
        r as nat == xp_required_spec(level as nat),
{
    let mut acc = big_pow_u64(10, 40);
    proof {
        lemma_pow0(level as int);
        assert(pow(10, 40) * 1 == pow(10, 40)) by (nonlinear_arith);
    }
    let mut i: u32 = 0;
    while i < 13
        invariant
            i <= 13,
            limbs_value(acc@) == pow(10, 40) * pow(level as int, i as nat),
        decreases 13 - i,
    {
        acc = big_mul_u64(&acc, level as u64);
        proof {
            lemma_pow_adds(level as int, i as nat, 1);
            lemma_pow1(level as int);
            assert((pow(10, 40) * pow(level as int, i as nat)) * (level as int) == pow(10, 40) * (
            pow(level as int, i as nat) * (level as int))) by (nonlinear_arith);
        }
        i += 1;
    }
    proof {
        lemma_radicand_bound(level as nat);
        lemma_pow_positive(10, 40);
        lemma_pow_nonneg(level as nat, 13);
    }
    let root = tenth_root_exec(&acc);
    proof {
        assert(root + 17 * (level as u64) < 0x200_0000_0000_0000);
    }
    (root + 17 * (level as u64)) / 10
}

/// The cost of leaving level one is 1001.
pub proof fn lemma_xp_required_at_one()
    ensures
        xp_required_spec(1) == 1001,
{
    lemma1_pow(13);
    lemma_pow_positive(10, 40);
    assert(pow(10, 40) * pow(1, 13) == pow(10, 40)) by (nonlinear_arith)
        requires
            pow(1, 13) == 1,
    ;
    assert(curve_radicand(1) == pow(10, 40));
    lemma_pow_multiplies(10, 4, 10);
    assert(pow(10, 4) == 10000) by {
        reveal_with_fuel(pow, 5);
    }
    assert(pow(10000, 10) == pow(10, 40));
    lemma_pow_base_lt(10000, 10001, 10);
    assert(is_tenth_root(pow(10, 40) as nat, 10000));
    lemma_tenth_root_is(pow(10, 40) as nat, 10000);
}

/// Monotonic curve: the cost of leaving a level strictly grows with the
/// level.
pub proof fn lemma_xp_required_strictly_increases(level: nat)
    requires
        level >= 1,
    ensures
        xp_required_spec(level) < xp_required_spec(level + 1),
{
    let n1 = curve_radicand(level);
    let n2 = curve_radicand(level + 1);
    lemma_pow_base_le(level, level + 1, 13);
    lemma_pow_positive(10, 40);
    lemma_pow_nonneg(level, 13);
    lemma_pow_nonneg(level + 1, 13);
    assert(pow(10, 40) * pow(level as int, 13) <= pow(10, 40) * pow(
        (level + 1) as int,
        13,
    )) by (nonlinear_arith)
        requires
            0 < pow(10, 40),
            0 <= pow(level as int, 13) <= pow((level + 1) as int, 13),
    ;
    lemma_tenth_root_ensures(n1);
    lemma_tenth_root_ensures(n2);
    let r1 = tenth_root(n1);
    let r2 = tenth_root(n2);
    if r2 < r1 {
        lemma_pow_base_le(r2 + 1, r1, 10);
        assert(false);
    }
    let a = r1 + 17 * level;
    let b = r2 + 17 * (level + 1);
    assert(b >= a + 17);
    lemma_div_plus_one(a as int, 10);
    lemma_div_is_ordered((a + 10) as int, b as int, 10);
    lemma_div_is_ordered(a as int, a as int, 10);
}

/// The cost of leaving any level of at least one is at least 1001.
pub proof fn lemma_xp_required_at_least(level: nat)
    requires
        level >= 1,
    ensures
        xp_required_spec(level) >= 1001,
    decreases level,
{
    if level == 1 {
        lemma_xp_required_at_one();
    } else {
        lemma_xp_required_at_least((level - 1) as nat);
        lemma_xp_required_strictly_increases((level - 1) as nat);
    }
}

/// Anything with a level has a cost of leaving it, shared by every leveled
/// attribute so that one `level -> cost` relationship governs the whole
/// game.
pub trait XpCurve {
    /// The level the curve is evaluated at.
    spec fn curve_level(&self) -> nat;

    /// The cost, in experience points, of leaving the current level.
    fn xp_to_next_level(&self) -> (r: u64)
        ensures
            r as nat == xp_required_spec(self.curve_level()),
    ;
}

/// The optional variant, for attributes that may not carry a level.
pub trait XpCurveOption {
    /// The level the curve is evaluated at, where there is one.
    spec fn curve_level_option(&self) -> Option<nat>;

    /// The cost of leaving the current level, where there is a level.
    fn xp_to_next_level(&self) -> (r: Option<u64>)
        ensures
            match self.curve_level_option() {
                Some(l) => r matches Some(x) && x as nat == xp_required_spec(l),
                None => r is None,
            },
    ;
}

impl<T: XpCurve> XpCurveOption for T {
    open spec fn curve_level_option(&self) -> Option<nat> {
        Some(self.curve_level())
    }

    fn xp_to_next_level(&self) -> (r: Option<u64>) {
        Some(XpCurve::xp_to_next_level(self))
    }
}

} // verus!
