//! A software binary floating-point number.
//!
//! A value is `(-1)^neg * man * 2^exp` with a normalized 64-bit mantissa:
//! either `man == 0` (the canonical zero) or `2^63 <= man < 2^64`.  The
//! exponent is kept inside `[-EXP_LIMIT, EXP_LIMIT]`; results beyond that
//! range saturate to the largest magnitude or flush to zero.
//!
//! Every executable operation is deterministic and mirrored by a spec
//! function that pins its result exactly, so formulas built from these
//! operations have exact contracts.

use vstd::prelude::*;
use vstd::arithmetic::power2::*;
use vstd::arithmetic::div_mod::*;
use vstd::arithmetic::mul::*;

verus! {

/// 2^63, the smallest normalized mantissa.
pub const MAN_LO: u64 = 0x8000_0000_0000_0000;
/// 2^63 as a u128.
pub const MAN_LO_128: u128 = 0x8000_0000_0000_0000;
/// 2^64 as a u128, one past the largest mantissa.
pub const MAN_HI_128: u128 = 0x1_0000_0000_0000_0000;
/// Largest exponent a normalized value may carry.
pub const EXP_LIMIT: i64 = 0x1_0000_0000;

#[derive(Clone, Copy, Debug, PartialEq, Eq, Structural)]
pub struct Fp {
    pub neg: bool,
    pub man: u64,
    pub exp: i64,
}

impl Fp {
    /// Well-formedness: zero is canonical, anything else is normalized with
    /// a bounded exponent.
    pub open spec fn wf(self) -> bool {
        if self.man == 0 {
            !self.neg && self.exp == 0
        } else {
            self.man >= MAN_LO && -EXP_LIMIT <= self.exp <= EXP_LIMIT
        }
    }

    /// The canonical zero.
    pub open spec fn spec_zero() -> Fp {
        Fp { neg: false, man: 0, exp: 0 }
    }

    /// One is 2^63 * 2^-63.
    pub open spec fn spec_one() -> Fp {
        Fp { neg: false, man: MAN_LO, exp: -63i64 }
    }

    /// The saturation value: largest representable magnitude.
    pub open spec fn spec_sat(neg: bool) -> Fp {
        Fp { neg, man: 0xFFFF_FFFF_FFFF_FFFF, exp: EXP_LIMIT }
    }

    pub fn zero() -> (r: Fp)
        ensures
            r == Fp::spec_zero(),
            r.wf(),
    {
        Fp { neg: false, man: 0, exp: 0 }
    }

    pub fn one() -> (r: Fp)
        ensures
            r == Fp::spec_one(),
            r.wf(),
    {
        Fp { neg: false, man: MAN_LO, exp: -63 }
    }

    /// The raw fields; the value is `(-1)^neg * man * 2^exp`.
    pub fn parts(&self) -> (r: (bool, u64, i64))
        ensures
            r == (self.neg, self.man, self.exp),
    {
        (self.neg, self.man, self.exp)
    }

    pub open spec fn spec_negate(self) -> Fp {
        if self.man == 0 {
            self
        } else {
            Fp { neg: !self.neg, man: self.man, exp: self.exp }
        }
    }

    pub fn negate(self) -> (r: Fp)
        requires
            self.wf(),
        ensures
            r == self.spec_negate(),
            r.wf(),
    {
        if self.man == 0 {
            self
        } else {
            Fp { neg: !self.neg, man: self.man, exp: self.exp }
        }
    }

    pub open spec fn spec_abs_fp(self) -> Fp {
        Fp { neg: false, man: self.man, exp: self.exp }
    }

    pub fn abs(self) -> (r: Fp)
        requires
            self.wf(),
        ensures
            r == self.spec_abs_fp(),
            r.wf(),
    {
        Fp { neg: false, man: self.man, exp: self.exp }
    }
}

// ----------------------------------------------------------------------
// Powers of two
// ----------------------------------------------------------------------

proof fn lemma_pow2_le(e1: nat, e2: nat)
    requires
        e1 <= e2,
    ensures
        pow2(e1) <= pow2(e2),
{
    if e1 < e2 {
        lemma_pow2_strictly_increases(e1, e2);
    }
}

proof fn lemma_pow2_values()
    ensures
        pow2(63) == MAN_LO_128,
        pow2(64) == MAN_HI_128,
        pow2(127) == 0x8000_0000_0000_0000_0000_0000_0000_0000u128,
        pow2(0) == 1,
{
    lemma2_to64();
    lemma2_to64_rest();
    lemma_pow2_adds(63, 64);
}

/// 2^k as a u128.
fn pow2_u128(k: u64) -> (r: u128)
    requires
        k <= 127,
    ensures
        r == pow2(k as nat),
{
    let mut r: u128 = 1;
    let mut i: u64 = 0;
    proof {
        lemma_pow2_values();
    }
    while i < k
        invariant
            i <= k,
            k <= 127,
            r == pow2(i as nat),
        decreases k - i,
    {
        proof {
            lemma_pow2_unfold((i + 1) as nat);
            lemma_pow2_le((i + 1) as nat, 127);
            lemma_pow2_values();
        }
        r = r * 2;
        i = i + 1;
    }
    r
}

// ----------------------------------------------------------------------
// Normalization: bring an extended mantissa into [2^63, 2^64), rounding
// to nearest with ties to even, then clamp the exponent.
// ----------------------------------------------------------------------

/// Dividing `m` by `2^k` lands in the normalized mantissa range.
pub open spec fn shifted_down(m: nat, k: nat) -> bool {
    pow2((k + 63) as nat) <= m < pow2((k + 64) as nat)
}

/// Multiplying `m` by `2^k` lands in the normalized mantissa range.
pub open spec fn shifted_up(m: nat, k: nat) -> bool {
    pow2(63) <= m * pow2(k) < pow2(64)
}

/// The down-shift that normalizes `m`; unique when one exists.
pub open spec fn down_k(m: nat) -> nat {
    choose|k: nat| shifted_down(m, k)
}

/// The up-shift that normalizes `m`; unique when one exists.
pub open spec fn up_k(m: nat) -> nat {
    choose|k: nat| shifted_up(m, k)
}

proof fn lemma_shifted_down_unique(m: nat, k1: nat, k2: nat)
    requires
        shifted_down(m, k1),
        shifted_down(m, k2),
    ensures
        k1 == k2,
{
    if k1 < k2 {
        lemma_pow2_le((k1 + 64) as nat, (k2 + 63) as nat);
    }
    if k2 < k1 {
        lemma_pow2_le((k2 + 64) as nat, (k1 + 63) as nat);
    }
}

proof fn lemma_shifted_up_unique(m: nat, k1: nat, k2: nat)
    requires
        shifted_up(m, k1),
        shifted_up(m, k2),
    ensures
        k1 == k2,
{
    if k1 < k2 {
        lemma_shifted_up_gap(m, k1, k2);
    }
    if k2 < k1 {
        lemma_shifted_up_gap(m, k2, k1);
    }
}

proof fn lemma_shifted_up_gap(m: nat, ka: nat, kb: nat)
    requires
        shifted_up(m, ka),
        ka < kb,
    ensures
        !shifted_up(m, kb),
{
    lemma_pow2_pos(63);
    lemma_pow2_adds(ka, (kb - ka) as nat);
    lemma_pow2_le(1, (kb - ka) as nat);
    lemma_pow2_unfold(1);
    lemma_pow2_values();
    assert(m * pow2(kb) == (m * pow2(ka)) * pow2((kb - ka) as nat)) by {
        lemma_mul_is_associative(m as int, pow2(ka) as int, pow2((kb - ka) as nat) as int);
    }
    assert((m * pow2(ka)) * 2 <= (m * pow2(ka)) * pow2((kb - ka) as nat)) by {
        lemma_mul_left_inequality((m * pow2(ka)) as int, 2, pow2((kb - ka) as nat) as int);
    }
    assert(pow2(63) * 2 <= (m * pow2(ka)) * 2) by {
        lemma_mul_inequality(pow2(63) as int, (m * pow2(ka)) as int, 2);
    }
    lemma_pow2_unfold(64);
}

/// Clamp a normalized mantissa/exponent pair into the representable range.
pub open spec fn spec_finish(neg: bool, man: u64, e: int) -> Fp {
    if man == 0 {
        Fp::spec_zero()
    } else if e > EXP_LIMIT {
        Fp::spec_sat(neg)
    } else if e < -EXP_LIMIT {
        Fp::spec_zero()
    } else {
        Fp { neg, man, exp: e as i64 }
    }
}

fn fp_finish(neg: bool, man: u64, e: i64) -> (r: Fp)
    requires
        man == 0 || man >= MAN_LO,
    ensures
        r == spec_finish(neg, man, e as int),
        r.wf(),
{
    if man == 0 {
        Fp::zero()
    } else if e > EXP_LIMIT {
        Fp { neg, man: 0xFFFF_FFFF_FFFF_FFFF, exp: EXP_LIMIT }
    } else if e < -EXP_LIMIT {
        Fp::zero()
    } else {
        Fp { neg, man, exp: e }
    }
}

/// The normalized, rounded-to-nearest-even value `(-1)^neg * m * 2^e`.
/// `sticky` records that bits strictly below `m` were already discarded;
/// it only matters when `m` itself must be shifted down.
pub open spec fn spec_norm_def(neg: bool, m: nat, e: int, sticky: bool) -> Fp {
    if m == 0 {
        Fp::spec_zero()
    } else if m < MAN_LO_128 {
        let k = up_k(m);
        spec_finish(neg, (m * pow2(k)) as u64, e - k)
    } else if m < MAN_HI_128 {
        spec_finish(neg, m as u64, e)
    } else {
        let k = down_k(m);
        let q = m / pow2(k);
        let rem = m % pow2(k);
        let half = pow2((k - 1) as nat);
        let up = rem > half || (rem == half && (sticky || q % 2 == 1));
        if up && q + 1 == MAN_HI_128 {
            spec_finish(neg, MAN_LO, e + k + 1)
        } else if up {
            spec_finish(neg, (q + 1) as u64, e + k)
        } else {
            spec_finish(neg, q as u64, e + k)
        }
    }
}

/// The same normalization, kept opaque so that formulas built from the
/// arithmetic operations stay at the function-symbol level.
#[verifier::opaque]
pub open spec fn spec_norm(neg: bool, m: nat, e: int, sticky: bool) -> Fp {
    spec_norm_def(neg, m, e, sticky)
}

/// Normalize and round `(-1)^neg * m * 2^e`.
pub(crate) fn fp_norm(neg: bool, m: u128, e: i64, sticky: bool) -> (r: Fp)
    requires
        -3 * EXP_LIMIT <= e <= 3 * EXP_LIMIT,
    ensures
        r == spec_norm(neg, m as nat, e as int, sticky),
        r.wf(),
{
    let r = fp_norm_impl(neg, m, e, sticky);
    proof {
        reveal(spec_norm);
        assert(r == spec_norm(neg, m as nat, e as int, sticky));
    }
    r
}

fn fp_norm_impl(neg: bool, m: u128, e: i64, sticky: bool) -> (r: Fp)
    requires
        -3 * EXP_LIMIT <= e <= 3 * EXP_LIMIT,
    ensures
        r == spec_norm_def(neg, m as nat, e as int, sticky),
        r.wf(),
{
    proof {
        lemma_pow2_values();
    }
    if m == 0 {
        Fp::zero()
    } else if m < MAN_LO_128 {
        let mut t: u128 = m;
        let mut k: u64 = 0;
        while t < MAN_LO_128
            invariant
                1 <= t < MAN_HI_128,
                t == m as nat * pow2(k as nat),
                pow2(k as nat) <= t,
                k <= 63,
            decreases MAN_HI_128 - t,
        {
            proof {
                lemma_pow2_values();
                lemma_pow2_unfold((k + 1) as nat);
                lemma_mul_is_associative(m as int, pow2(k as nat) as int, 2);
                lemma_mul_inequality(1, m as int, pow2((k + 1) as nat) as int);
                if k + 1 > 63 {
                    lemma_pow2_le(64, (k + 1) as nat);
                }
            }
            t = t * 2;
            k = k + 1;
        }
        proof {
            assert(shifted_up(m as nat, k as nat));
            assert(shifted_up(m as nat, up_k(m as nat))) by {
                assert(exists|kk: nat| shifted_up(m as nat, kk));
            }
            lemma_shifted_up_unique(m as nat, k as nat, up_k(m as nat));
        }
        fp_finish(neg, t as u64, e - k as i64)
    } else if m < MAN_HI_128 {
        fp_finish(neg, m as u64, e)
    } else {
        let mut t: u128 = m;
        let mut k: u64 = 0;
        proof {
            lemma_div_basics(m as int);
        }
        while t >= MAN_HI_128
            invariant
                MAN_LO_128 <= t,
                t == m as nat / pow2(k as nat),
                pow2(k as nat) * MAN_LO_128 <= m,
                k <= 64,
            decreases t,
        {
            proof {
                lemma_pow2_values();
                lemma_pow2_unfold((k + 1) as nat);
                lemma_pow2_pos(k as nat);
                lemma_div_denominator(m as int, pow2(k as nat) as int, 2);
                lemma_mul_is_commutative(pow2(k as nat) as int, 2);
                // m >= pow2(k+1) * 2^63 since t >= 2^64
                lemma_fundamental_div_mod(m as int, pow2(k as nat) as int);
                lemma_mul_inequality(
                    MAN_HI_128 as int,
                    t as int,
                    pow2(k as nat) as int,
                );
                assert(pow2((k + 1) as nat) * MAN_LO_128 == pow2(k as nat) * MAN_HI_128) by {
                    lemma_pow2_values();
                    lemma_pow2_unfold((k + 1) as nat);
                    lemma_mul_is_associative(2, pow2(k as nat) as int, MAN_LO_128 as int);
                    lemma_mul_is_commutative(2, pow2(k as nat) as int);
                    lemma_mul_is_associative(pow2(k as nat) as int, 2, MAN_LO_128 as int);
                }
                if k + 1 > 64 {
                    lemma_pow2_le(65, (k + 1) as nat);
                    lemma_pow2_adds(64, 1);
                    lemma_pow2_values();
                    lemma_mul_inequality(
                        pow2(65) as int,
                        pow2((k + 1) as nat) as int,
                        MAN_LO_128 as int,
                    );
                }
                lemma_div_is_ordered(MAN_HI_128 as int, t as int, 2);
            }
            t = t / 2;
            k = k + 1;
        }
        proof {
            // t in [2^63, 2^64), t == m / 2^k, so 2^(k+63) <= m < 2^(k+64)
            lemma_pow2_pos(k as nat);
            lemma_fundamental_div_mod(m as int, pow2(k as nat) as int);
            lemma_pow2_adds(k as nat, 63);
            lemma_pow2_adds(k as nat, 64);
            lemma_pow2_values();
            assert(pow2(k as nat) * (t as nat) >= pow2(k as nat) * MAN_LO_128) by {
                lemma_mul_left_inequality(pow2(k as nat) as int, MAN_LO_128 as int, t as int);
            }
            assert(pow2(k as nat) * MAN_LO_128 == pow2((k + 63) as nat)) by {
                lemma_mul_is_commutative(pow2(k as nat) as int, MAN_LO_128 as int);
            }
            assert(m < pow2(k as nat) * (t as nat + 1)) by {
                lemma_mul_is_distributive_add(pow2(k as nat) as int, t as int, 1);
            }
            assert(pow2(k as nat) * (t as nat + 1) <= pow2(k as nat) * MAN_HI_128) by {
                lemma_mul_left_inequality(pow2(k as nat) as int, t as int + 1, MAN_HI_128 as int);
            }
            assert(shifted_down(m as nat, k as nat));
            assert(shifted_down(m as nat, down_k(m as nat))) by {
                assert(exists|kk: nat| shifted_down(m as nat, kk));
            }
            lemma_shifted_down_unique(m as nat, k as nat, down_k(m as nat));
            assert(k >= 1) by {
                if k == 0 {
                    lemma_pow2_values();
                }
            }
        }
        let p2: u128 = pow2_u128(k);
        let rem: u128 = m % p2;
        let half: u128 = p2 / 2;
        proof {
            lemma_pow2_unfold(k as nat);
            lemma_div_by_multiple(pow2((k - 1) as nat) as int, 2);
            lemma_mul_is_commutative(pow2((k - 1) as nat) as int, 2);
        }
        let up: bool = rem > half || (rem == half && (sticky || t % 2 == 1));
        if up {
            if t == 0xFFFF_FFFF_FFFF_FFFFu128 {
                fp_finish(neg, MAN_LO, e + k as i64 + 1)
            } else {
                fp_finish(neg, (t + 1) as u64, e + k as i64)
            }
        } else {
            fp_finish(neg, t as u64, e + k as i64)
        }
    }
}

// ----------------------------------------------------------------------
// Arithmetic
// ----------------------------------------------------------------------

/// Product: multiply mantissas exactly, then round.
pub open spec fn spec_fp_mul(a: Fp, b: Fp) -> Fp {
    if a.man == 0 || b.man == 0 {
        Fp::spec_zero()
    } else {
        spec_norm(a.neg != b.neg, a.man as nat * b.man as nat, a.exp + b.exp, false)
    }
}

pub fn fp_mul(a: Fp, b: Fp) -> (r: Fp)
    requires
        a.wf(),
        b.wf(),
    ensures
        r == spec_fp_mul(a, b),
        r.wf(),
{
    if a.man == 0 || b.man == 0 {
        Fp::zero()
    } else {
        proof {
            lemma_mul_upper_bound(
                a.man as int,
                0xFFFF_FFFF_FFFF_FFFFu64 as int,
                b.man as int,
                0xFFFF_FFFF_FFFF_FFFFu64 as int,
            );
        }
        let p: u128 = (a.man as u128) * (b.man as u128);
        fp_norm(a.neg != b.neg, p, a.exp + b.exp, false)
    }
}

/// Quotient: `(a.man * 2^63) / b.man`, truncated below the last kept bit.
/// Division by zero saturates to the largest magnitude.
pub open spec fn spec_fp_div(a: Fp, b: Fp) -> Fp {
    if b.man == 0 {
        Fp::spec_sat(a.neg != b.neg)
    } else if a.man == 0 {
        Fp::spec_zero()
    } else {
        let num = a.man as nat * (MAN_LO_128 as nat);
        spec_norm(
            a.neg != b.neg,
            num / b.man as nat,
            a.exp - b.exp - 63,
            num % b.man as nat != 0,
        )
    }
}

pub fn fp_div(a: Fp, b: Fp) -> (r: Fp)
    requires
        a.wf(),
        b.wf(),
    ensures
        r == spec_fp_div(a, b),
        r.wf(),
{
    if b.man == 0 {
        Fp { neg: a.neg != b.neg, man: 0xFFFF_FFFF_FFFF_FFFF, exp: EXP_LIMIT }
    } else if a.man == 0 {
        Fp::zero()
    } else {
        proof {
            lemma_mul_upper_bound(
                a.man as int,
                0xFFFF_FFFF_FFFF_FFFFu64 as int,
                MAN_LO_128 as int,
                MAN_LO_128 as int,
            );
        }
        let num: u128 = (a.man as u128) * MAN_LO_128;
        let q: u128 = num / (b.man as u128);
        let rem: u128 = num % (b.man as u128);
        fp_norm(a.neg != b.neg, q, a.exp - b.exp - 63, rem != 0)
    }
}

/// Is the magnitude of `a` at least that of `b`?  (Both normalized, so the
/// exponent decides, then the mantissa.)
pub open spec fn abs_ge(a: Fp, b: Fp) -> bool {
    a.exp > b.exp || (a.exp == b.exp && a.man >= b.man)
}

/// The aligned low mantissa `sm * 2^63 / 2^d`, and whether bits were lost.
pub open spec fn align_q(sm: nat, d: nat) -> nat {
    if d >= 128 {
        0
    } else {
        (sm * (MAN_LO_128 as nat)) / pow2(d)
    }
}

pub open spec fn align_lost(sm: nat, d: nat) -> bool {
    if d >= 128 {
        true
    } else {
        (sm * (MAN_LO_128 as nat)) % pow2(d) != 0
    }
}

/// Sum, rounded to nearest even.  The operand of larger magnitude sets the
/// scale; the other is aligned to it, and lost low bits feed the rounding.
pub open spec fn spec_fp_add(a: Fp, b: Fp) -> Fp {
    if a.man == 0 {
        b
    } else if b.man == 0 {
        a
    } else {
        let big = if abs_ge(a, b) { a } else { b };
        let small = if abs_ge(a, b) { b } else { a };
        let d = (big.exp - small.exp) as nat;
        let qs = align_q(small.man as nat, d);
        let lost = align_lost(small.man as nat, d);
        let hi = big.man as nat * (MAN_LO_128 as nat);
        if big.neg == small.neg {
            spec_norm(big.neg, hi + qs, big.exp - 63, lost)
        } else {
            if lost {
                spec_norm(big.neg, (hi - qs - 1) as nat, big.exp - 63, true)
            } else {
                spec_norm(big.neg, (hi - qs) as nat, big.exp - 63, false)
            }
        }
    }
}

pub open spec fn spec_fp_sub(a: Fp, b: Fp) -> Fp {
    spec_fp_add(a, b.spec_negate())
}

pub fn fp_add(a: Fp, b: Fp) -> (r: Fp)
    requires
        a.wf(),
        b.wf(),
    ensures
        r == spec_fp_add(a, b),
        r.wf(),
{
    if a.man == 0 {
        return b;
    }
    if b.man == 0 {
        return a;
    }
    let take_a = a.exp > b.exp || (a.exp == b.exp && a.man >= b.man);
    let big = if take_a { a } else { b };
    let small = if take_a { b } else { a };
    proof {
        assert(abs_ge(a, b) == take_a);
    }
    let d_wide: i64 = big.exp - small.exp;
    proof {
        lemma_mul_upper_bound(
            big.man as int,
            0xFFFF_FFFF_FFFF_FFFFu64 as int,
            MAN_LO_128 as int,
            MAN_LO_128 as int,
        );
        lemma_mul_upper_bound(
            small.man as int,
            0xFFFF_FFFF_FFFF_FFFFu64 as int,
            MAN_LO_128 as int,
            MAN_LO_128 as int,
        );
    }
    let hi: u128 = (big.man as u128) * MAN_LO_128;
    let qs: u128;
    let lost: bool;
    if d_wide >= 128 {
        qs = 0;
        lost = true;
    } else {
        let p2d: u128 = pow2_u128(d_wide as u64);
        let num: u128 = (small.man as u128) * MAN_LO_128;
        proof {
            lemma_pow2_pos(d_wide as nat);
        }
        qs = num / p2d;
        lost = num % p2d != 0;
        proof {
            lemma_div_nonincreasing(num as int, p2d as int);
        }
    }
    if big.neg == small.neg {
        fp_norm(big.neg, hi + qs, big.exp - 63, lost)
    } else {
        proof {
            if d_wide == 0 {
                lemma_pow2_values();
                assert(qs == (small.man as u128) * MAN_LO_128) by {
                    lemma_div_basics(((small.man as u128) * MAN_LO_128) as int);
                }
                lemma_mul_inequality(small.man as int, big.man as int, MAN_LO_128 as int);
            } else {
                // d >= 1: the aligned small part is strictly below hi
                assert(qs < hi) by {
                    if d_wide >= 128 {
                    } else {
                        lemma_pow2_pos(d_wide as nat);
                        lemma_pow2_le(1, d_wide as nat);
                        lemma_pow2_unfold(1);
                        lemma_pow2_values();
                        lemma_div_is_ordered_by_denominator(
                            ((small.man as u128) * MAN_LO_128) as int,
                            2,
                            pow2(d_wide as nat) as int,
                        );
                        lemma_div_strict_bound_small(small.man as nat, big.man as nat);
                    }
                }
            }
        }
        if lost {
            fp_norm(big.neg, hi - qs - 1, big.exp - 63, true)
        } else {
            fp_norm(big.neg, hi - qs, big.exp - 63, false)
        }
    }
}

/// Helper: `(sm * 2^63) / 2 < bm * 2^63` when `sm < 2^64 <= 2 * bm`.
proof fn lemma_div_strict_bound_small(sm: nat, bm: nat)
    requires
        sm < MAN_HI_128,
        bm >= MAN_LO,
    ensures
        (sm * MAN_LO_128) / 2 < bm * (MAN_LO_128 as nat),
{
    lemma_mul_inequality(sm as int, (MAN_HI_128 - 1) as int, MAN_LO_128 as int);
    lemma_mul_inequality(MAN_LO as int, bm as int, MAN_LO_128 as int);
    assert((sm * MAN_LO_128) / 2 <= ((MAN_HI_128 - 1) * MAN_LO_128) / 2) by {
        lemma_div_is_ordered(
            (sm * MAN_LO_128) as int,
            ((MAN_HI_128 - 1) * MAN_LO_128) as int,
            2,
        );
    }
    assert(((MAN_HI_128 - 1) * (MAN_LO_128 as nat)) / 2 < (MAN_LO as nat) * (MAN_LO_128 as nat));
}

pub fn fp_sub(a: Fp, b: Fp) -> (r: Fp)
    requires
        a.wf(),
        b.wf(),
    ensures
        r == spec_fp_sub(a, b),
        r.wf(),
{
    fp_add(a, b.negate())
}

// ----------------------------------------------------------------------
// Comparisons
// ----------------------------------------------------------------------

/// Strict order on values.  Representations are canonical, so equality of
/// values is structural equality.
pub open spec fn spec_fp_lt(a: Fp, b: Fp) -> bool {
    if a.man == 0 && b.man == 0 {
        false
    } else if a.man == 0 {
        !b.neg
    } else if b.man == 0 {
        a.neg
    } else if a.neg != b.neg {
        a.neg
    } else if a.neg {
        abs_ge(a, b) && a != b
    } else {
        !abs_ge(a, b)
    }
}

pub open spec fn spec_fp_le(a: Fp, b: Fp) -> bool {
    a == b || spec_fp_lt(a, b)
}

pub fn fp_lt(a: Fp, b: Fp) -> (r: bool)
    requires
        a.wf(),
        b.wf(),
    ensures
        r == spec_fp_lt(a, b),
{
    if a.man == 0 && b.man == 0 {
        false
    } else if a.man == 0 {
        !b.neg
    } else if b.man == 0 {
        a.neg
    } else if a.neg != b.neg {
        a.neg
    } else if a.neg {
        (a.exp > b.exp || (a.exp == b.exp && a.man >= b.man)) && !(a.exp == b.exp && a.man
            == b.man)
    } else {
        !(a.exp > b.exp || (a.exp == b.exp && a.man >= b.man))
    }
}

pub fn fp_le(a: Fp, b: Fp) -> (r: bool)
    requires
        a.wf(),
        b.wf(),
    ensures
        r == spec_fp_le(a, b),
{
    if a.man == b.man && a.exp == b.exp && a.neg == b.neg {
        true
    } else {
        fp_lt(a, b)
    }
}

// ----------------------------------------------------------------------
// Conversions
// ----------------------------------------------------------------------

pub open spec fn spec_from_u64(v: u64) -> Fp {
    spec_norm(false, v as nat, 0, false)
}

pub fn fp_from_u64(v: u64) -> (r: Fp)
    ensures
        r == spec_from_u64(v),
        r.wf(),
{
    fp_norm(false, v as u128, 0, false)
}

pub open spec fn spec_from_i64(v: i64) -> Fp {
    if v >= 0 {
        spec_norm(false, v as nat, 0, false)
    } else {
        spec_norm(true, (-(v as int)) as nat, 0, false)
    }
}

pub fn fp_from_i64(v: i64) -> (r: Fp)
    ensures
        r == spec_from_i64(v),
        r.wf(),
{
    if v >= 0 {
        fp_norm(false, v as u128, 0, false)
    } else if v == i64::MIN {
        proof {
            assert((-(i64::MIN as int)) as nat == MAN_LO_128 as nat);
        }
        fp_norm(true, MAN_LO_128, 0, false)
    } else {
        fp_norm(true, (-v) as u128, 0, false)
    }
}

// ----------------------------------------------------------------------
// Integer powers and decimal constants
// ----------------------------------------------------------------------

pub open spec fn spec_pow_nat(x: Fp, n: nat) -> Fp
    decreases n,
{
    if n == 0 {
        Fp::spec_one()
    } else {
        spec_fp_mul(spec_pow_nat(x, (n - 1) as nat), x)
    }
}

/// `x^n` by repeated multiplication; a negative power is the reciprocal of
/// the positive one.
pub open spec fn spec_fp_powi(x: Fp, n: int) -> Fp {
    if n >= 0 {
        spec_pow_nat(x, n as nat)
    } else {
        spec_fp_div(Fp::spec_one(), spec_pow_nat(x, (-n) as nat))
    }
}

pub fn fp_powi(x: Fp, n: i64) -> (r: Fp)
    requires
        x.wf(),
    ensures
        r == spec_fp_powi(x, n as int),
        r.wf(),
{
    let m: u64 = if n < 0 {
        if n == i64::MIN {
            0x8000_0000_0000_0000u64
        } else {
            (-n) as u64
        }
    } else {
        n as u64
    };
    let mut acc: Fp = Fp::one();
    let mut i: u64 = 0;
    while i < m
        invariant
            x.wf(),
            acc.wf(),
            i <= m,
            acc == spec_pow_nat(x, i as nat),
        decreases m - i,
    {
        acc = fp_mul(acc, x);
        i = i + 1;
    }
    if n < 0 {
        fp_div(Fp::one(), acc)
    } else {
        acc
    }
}

/// The value `(-1)^neg * digits * 10^e10`, for writing decimal constants.
pub open spec fn spec_from_decimal(neg: bool, digits: u64, e10: int) -> Fp {
    let mag = spec_fp_mul(spec_from_u64(digits), spec_fp_powi(spec_from_u64(10), e10));
    if neg {
        mag.spec_negate()
    } else {
        mag
    }
}

pub fn fp_from_decimal(neg: bool, digits: u64, e10: i64) -> (r: Fp)
    ensures
        r == spec_from_decimal(neg, digits, e10 as int),
        r.wf(),
{
    let mag = fp_mul(fp_from_u64(digits), fp_powi(fp_from_u64(10), e10));
    if neg {
        mag.negate()
    } else {
        mag
    }
}

// ----------------------------------------------------------------------
// Square root
// ----------------------------------------------------------------------

/// `r` is the integer square root of `x`.
pub open spec fn is_isqrt(x: nat, r: nat) -> bool {
    r * r <= x && x < (r + 1) * (r + 1)
}

/// The integer square root, unique root of `r^2 <= x < (r+1)^2`.
pub open spec fn isqrt_s(x: nat) -> nat {
    choose|r: nat| is_isqrt(x, r)
}

proof fn lemma_isqrt_unique(x: nat, r1: nat, r2: nat)
    requires
        is_isqrt(x, r1),
        is_isqrt(x, r2),
    ensures
        r1 == r2,
{
    assert(!(r1 < r2)) by (nonlinear_arith)
        requires
            r1 * r1 <= x < (r1 + 1) * (r1 + 1),
            r2 * r2 <= x,
    ;
    assert(!(r2 < r1)) by (nonlinear_arith)
        requires
            r2 * r2 <= x < (r2 + 1) * (r2 + 1),
            r1 * r1 <= x,
    ;
}

fn isqrt_u128(x: u128) -> (r: u128)
    ensures
        r * r <= x < (r + 1) * (r + 1),
        r < MAN_HI_128,
{
    let mut r: u128 = 0;
    let mut j: u64 = 64;
    proof {
        lemma_pow2_values();
        lemma_pow2_adds(64, 64);
        assert(x < (0 + pow2(64)) * (0 + pow2(64)));
    }
    let mut res: u128 = 0;
    while j > 0
        invariant
            j <= 64,
            r * r <= x,
            x < (r + pow2(j as nat)) * (r + pow2(j as nat)),
            r < MAN_HI_128,
        decreases j,
    {
        j = j - 1;
        let add: u128 = pow2_u128(j);
        proof {
            lemma_pow2_values();
            lemma_pow2_le(j as nat, 63);
        }
        let t: u128 = r + add;
        let mut ok: bool = false;
        if t <= 0xFFFF_FFFF_FFFF_FFFF {
            proof {
                lemma_mul_upper_bound(
                    t as int,
                    0xFFFF_FFFF_FFFF_FFFFu128 as int,
                    t as int,
                    0xFFFF_FFFF_FFFF_FFFFu128 as int,
                );
            }
            ok = t * t <= x;
        }
        if ok {
            proof {
                lemma_pow2_unfold((j + 1) as nat);
            }
            r = t;
        } else {
            proof {
                lemma_pow2_unfold((j + 1) as nat);
                if t > 0xFFFF_FFFF_FFFF_FFFF {
                    lemma_mul_inequality(MAN_HI_128 as int, t as int, MAN_HI_128 as int);
                    lemma_mul_left_inequality(t as int, MAN_HI_128 as int, t as int);
                    lemma_pow2_adds(64, 64);
                    lemma_pow2_values();
                }
            }
        }
    }
    proof {
        lemma_pow2_values();
    }
    r
}

/// Truncated square root.  A negative or zero argument gives zero.
pub open spec fn spec_fp_sqrt_def(x: Fp) -> Fp {
    if x.man == 0 || x.neg {
        Fp::spec_zero()
    } else {
        let p: int = if x.exp % 2 == 0 {
            0
        } else {
            1
        };
        let lo = x.man as nat * pow2((62 + p) as nat);
        let eh = (x.exp - p - 62) / 2;
        if isqrt_s(lo) >= MAN_LO {
            spec_finish(false, isqrt_s(lo) as u64, eh)
        } else {
            spec_finish(false, isqrt_s((x.man as nat * pow2((64 + p) as nat))) as u64, eh - 1)
        }
    }
}

/// Opaque face of the square root for use in formulas.
#[verifier::opaque]
pub open spec fn spec_fp_sqrt(x: Fp) -> Fp {
    spec_fp_sqrt_def(x)
}

pub fn fp_sqrt(x: Fp) -> (r: Fp)
    requires
        x.wf(),
    ensures
        r == spec_fp_sqrt(x),
        r.wf(),
{
    let r = fp_sqrt_impl(x);
    proof {
        reveal(spec_fp_sqrt);
        assert(r == spec_fp_sqrt(x));
    }
    r
}

#[verifier::rlimit(100)]
fn fp_sqrt_impl(x: Fp) -> (r: Fp)
    requires
        x.wf(),
    ensures
        r == spec_fp_sqrt_def(x),
        r.wf(),
{
    if x.man == 0 || x.neg {
        return Fp::zero();
    }
    let p: i64 = if x.exp % 2 == 0 {
        0
    } else {
        1
    };
    proof {
        lemma_pow2_values();
        lemma_pow2_adds(62, 1);
        lemma_pow2_adds(63, 1);
        lemma_pow2_adds(64, 1);
        lemma_pow2_le((62 + p) as nat, 63);
        lemma_pow2_pos((62 + p) as nat);
        lemma_mul_upper_bound(
            x.man as int,
            0xFFFF_FFFF_FFFF_FFFFu64 as int,
            pow2((62 + p) as nat) as int,
            pow2(63) as int,
        );
    }
    let scale: u128 = pow2_u128((62 + p) as u64);
    let lo: u128 = (x.man as u128) * scale;
    let eh: i64 = (x.exp - p - 62) / 2;
    let s0: u128 = isqrt_u128(lo);
    proof {
        assert(is_isqrt(lo as nat, s0 as nat));
        assert(is_isqrt(lo as nat, isqrt_s(lo as nat))) by {
            assert(exists|rr: nat| is_isqrt(lo as nat, rr));
        }
        lemma_isqrt_unique(lo as nat, s0 as nat, isqrt_s(lo as nat));
    }
    if s0 >= MAN_LO as u128 {
        fp_finish(false, s0 as u64, eh)
    } else {
        proof {
            lemma_mul_upper_bound(
                x.man as int,
                0xFFFF_FFFF_FFFF_FFFFu64 as int,
                pow2((64 + p) as nat) as int,
                pow2(65) as int,
            );
            lemma_pow2_adds(64, 1);
            lemma_pow2_adds(63, 2);
            lemma_pow2_values();
        }
        let sc2: u128 = pow2_u128((64 + p) as u64);
        proof {
            // `s0 < 2^63` bounds `lo` below 2^126, so the wider product fits.
            assert((s0 + 1) * (s0 + 1) <= MAN_LO_128 * MAN_LO_128) by {
                lemma_mul_inequality(s0 as int + 1, MAN_LO_128 as int, s0 as int + 1);
                lemma_mul_left_inequality(MAN_LO_128 as int, s0 as int + 1, MAN_LO_128 as int);
            }
            assert(MAN_LO_128 * MAN_LO_128 == pow2(126)) by {
                lemma_pow2_adds(63, 63);
                lemma_pow2_values();
            }
            assert(x.man as nat * pow2((64 + p) as nat) == 4 * (lo as nat)) by {
                lemma_pow2_unfold((64 + p) as nat);
                lemma_pow2_unfold((63 + p) as nat);
                lemma_mul_is_associative(x.man as int, 4, pow2((62 + p) as nat) as int);
                lemma_mul_is_commutative(x.man as int, 4);
                lemma_mul_is_associative(4, x.man as int, pow2((62 + p) as nat) as int);
            }
            assert(4 * (lo as nat) < pow2(128)) by {
                lemma_pow2_adds(2, 126);
                lemma2_to64();
            }
            assert(pow2(128) == 2 * pow2(127)) by {
                lemma_pow2_unfold(128);
            }
            lemma_pow2_values();
        }
        let hi: u128 = (x.man as u128) * sc2;
        let s1: u128 = isqrt_u128(hi);
        proof {
            assert(is_isqrt(hi as nat, s1 as nat));
            assert(is_isqrt(hi as nat, isqrt_s(hi as nat))) by {
                assert(exists|rr: nat| is_isqrt(hi as nat, rr));
            }
            lemma_isqrt_unique(hi as nat, s1 as nat, isqrt_s(hi as nat));
            // hi == 4 * lo, so the root at least doubles: s1 >= 2^63
            assert(hi == 4 * lo) by {
                lemma_pow2_unfold((64 + p) as nat);
                lemma_pow2_unfold((63 + p) as nat);
                lemma_mul_is_associative(x.man as int, 4, pow2((62 + p) as nat) as int);
                lemma_mul_is_commutative(x.man as int, 4);
                lemma_mul_is_associative(4, x.man as int, pow2((62 + p) as nat) as int);
            }
            assert(lo >= MAN_LO_128 * pow2(62)) by {
                lemma_mul_inequality(MAN_LO as int, x.man as int, pow2((62 + p) as nat) as int);
                lemma_pow2_le(62, (62 + p) as nat);
                lemma_mul_left_inequality(MAN_LO_128 as int, pow2(62) as int, pow2(
                    (62 + p) as nat) as int);
            }
            assert(MAN_LO_128 * pow2(62) == pow2(125)) by {
                lemma_pow2_adds(63, 62);
                lemma_pow2_values();
            }
            // lo >= 2^125 means hi >= 2^127, so s1 >= 2^63
            assert(s1 >= MAN_LO_128) by {
                lemma_pow2_adds(63, 64);
                lemma_pow2_values();
                if s1 < MAN_LO_128 {
                    assert((s1 + 1) * (s1 + 1) <= MAN_LO_128 * MAN_LO_128) by {
                        lemma_mul_inequality(s1 as int + 1, MAN_LO_128 as int, s1 as int + 1);
                        lemma_mul_left_inequality(MAN_LO_128 as int, s1 as int + 1,
                            MAN_LO_128 as int);
                    }
                    assert(MAN_LO_128 * MAN_LO_128 == pow2(126)) by {
                        lemma_pow2_adds(63, 63);
                        lemma_pow2_values();
                    }
                    assert(4 * lo >= 4 * (MAN_LO_128 * pow2(62)));
                    assert((4 * (MAN_LO_128 * pow2(62))) == pow2(127)) by {
                        lemma_pow2_adds(63, 62);
                        lemma_pow2_adds(2, 125);
                        lemma2_to64();
                        lemma_pow2_values();
                    }
                    lemma_pow2_strictly_increases(126, 127);
                }
            }
        }
        fp_finish(false, s1 as u64, eh - 1)
    }
}

// ----------------------------------------------------------------------
// Natural logarithm
// ----------------------------------------------------------------------

/// floor(2^63 * sqrt(2)).  A mantissa at or above this is reduced into
/// [sqrt(1/2), sqrt(2)) by one extra halving.
pub const SQRT2_MAN: u64 = 13043817825332782212;

/// Terms of the artanh series used by the logarithm; with the argument
/// reduced as above the next term is already below the last kept bit.
pub const LN_TERMS: u64 = 13;

/// The running (sum, power) pair of the series
/// `z + z^3/3 + z^5/5 + ...` after `k` added terms beyond the first.
pub open spec fn spec_ln_iter(z: Fp, zz: Fp, k: nat) -> (Fp, Fp)
    decreases k,
{
    if k == 0 {
        (z, z)
    } else {
        let prev = spec_ln_iter(z, zz, (k - 1) as nat);
        let pw = spec_fp_mul(prev.1, zz);
        (spec_fp_add(prev.0, spec_fp_div(pw, spec_from_u64((2 * k + 1) as u64))), pw)
    }
}

/// ln 2 to 19 decimal digits.
pub open spec fn spec_ln2() -> Fp {
    spec_from_decimal(false, 6931471805599453094, -19)
}

/// Natural logarithm: reduce to `y` in [sqrt(1/2), sqrt(2)) with
/// `x = y * 2^c`, sum the artanh series for `ln y`, then add `c * ln 2`.
/// A zero or negative argument saturates to the most negative value.
pub open spec fn spec_fp_ln_def(x: Fp) -> Fp {
    if x.man == 0 || x.neg {
        Fp::spec_sat(true)
    } else {
        let shift: int = if x.man >= SQRT2_MAN {
            64
        } else {
            63
        };
        let y = Fp { neg: false, man: x.man, exp: (-shift) as i64 };
        let c = x.exp + shift;
        let z = spec_fp_div(spec_fp_sub(y, Fp::spec_one()), spec_fp_add(y, Fp::spec_one()));
        let zz = spec_fp_mul(z, z);
        let s = spec_ln_iter(z, zz, LN_TERMS as nat).0;
        spec_fp_add(
            spec_fp_mul(spec_from_u64(2), s),
            spec_fp_mul(spec_from_i64(c as i64), spec_ln2()),
        )
    }
}

/// Opaque face of the logarithm for use in formulas.
#[verifier::opaque]
pub open spec fn spec_fp_ln(x: Fp) -> Fp {
    spec_fp_ln_def(x)
}

pub fn fp_ln(x: Fp) -> (r: Fp)
    requires
        x.wf(),
    ensures
        r == spec_fp_ln(x),
        r.wf(),
{
    let r = fp_ln_impl(x);
    proof {
        reveal(spec_fp_ln);
        assert(r == spec_fp_ln(x));
    }
    r
}

fn fp_ln_impl(x: Fp) -> (r: Fp)
    requires
        x.wf(),
    ensures
        r == spec_fp_ln_def(x),
        r.wf(),
{
    if x.man == 0 || x.neg {
        return Fp { neg: true, man: 0xFFFF_FFFF_FFFF_FFFF, exp: EXP_LIMIT };
    }
    let shift: i64 = if x.man >= SQRT2_MAN {
        64
    } else {
        63
    };
    let y = Fp { neg: false, man: x.man, exp: -shift };
    let c: i64 = x.exp + shift;
    let one = Fp::one();
    let z = fp_div(fp_sub(y, one), fp_add(y, one));
    let zz = fp_mul(z, z);
    let mut acc: Fp = z;
    let mut pw: Fp = z;
    let mut k: u64 = 0;
    while k < LN_TERMS
        invariant
            z.wf(),
            zz.wf(),
            acc.wf(),
            pw.wf(),
            k <= LN_TERMS,
            (acc, pw) == spec_ln_iter(z, zz, k as nat),
        decreases LN_TERMS - k,
    {
        pw = fp_mul(pw, zz);
        let term = fp_div(pw, fp_from_u64(2 * (k + 1) + 1));
        acc = fp_add(acc, term);
        k = k + 1;
    }
    fp_add(fp_mul(fp_from_u64(2), acc), fp_mul(fp_from_i64(c), ln2_value()))
}

fn ln2_value() -> (r: Fp)
    ensures
        r == spec_ln2(),
        r.wf(),
{
    fp_from_decimal(false, 6931471805599453094, -19)
}

} // verus!
