//! Bit-level construction of the IEEE-754 single-precision scale factors that
//! the viewport transform needs.
//!
//! For a pixel dimension `d >= 1` the transform holds `1.0 / (d as f32 / 2.0)`.
//! Floating point stays out of the verified core, so this module computes the
//! exact 32-bit pattern of that value with integer arithmetic alone: convert
//! `d` to its nearest single-precision value (round to nearest, ties to even),
//! halve it (exact, an exponent step), and take the correctly rounded
//! reciprocal. A dimension of zero is degenerate but legal for the caller; the
//! float formula then yields positive infinity, and this module returns the
//! infinity bit pattern for it.

use vstd::prelude::*;
use vstd::arithmetic::power2::{
    pow2, lemma2_to64, lemma2_to64_rest, lemma_pow2_adds, lemma_pow2_pos,
    lemma_pow2_strictly_increases, lemma_pow2_subtracts, lemma_pow2_unfold,
};
use vstd::arithmetic::div_mod::{
    lemma_div_is_ordered, lemma_div_is_ordered_by_denominator, lemma_fundamental_div_mod,
};
use vstd::arithmetic::mul::{lemma_mul_inequality, lemma_mul_is_commutative};
use vstd::bits::{lemma_u64_pow2_no_overflow, lemma_u64_shl_is_mul};

verus! {

/// The bit pattern of `f32` positive infinity, the degenerate scale for a
/// zero dimension.
pub const INFINITY_BITS: u32 = 0x7f80_0000;

/// `n / d` rounded to the nearest integer, ties going to the even candidate:
/// the rounding rule of IEEE-754 round-to-nearest-even, stated on integers.
pub open spec fn rne_div(n: int, d: int) -> int
    recommends
        0 <= n,
        0 < d,
{
    let q = n / d;
    let r = n % d;
    if 2 * r < d {
        q
    } else if 2 * r > d {
        q + 1
    } else if q % 2 == 0 {
        q
    } else {
        q + 1
    }
}

/// The position of the highest set bit: `pow2(ilog2(w)) <= w < pow2(ilog2(w) + 1)`
/// for `w >= 1`.
pub open spec fn ilog2(w: int) -> int
    recommends
        w >= 1,
    decreases w,
{
    if w < 2 {
        0
    } else {
        1 + ilog2(w / 2)
    }
}

/// The significand of `w as f32` before renormalization: `w` scaled or rounded
/// to 24 bits. For `1 <= w < 2^32` it lies in `[2^23, 2^24]`, with `2^24`
/// meaning the rounding overflowed into the next binade.
pub open spec fn f32_sig_raw(w: int) -> int
    recommends
        w >= 1,
{
    let p = ilog2(w);
    if p <= 23 {
        w * pow2((23 - p) as nat)
    } else {
        rne_div(w, pow2((p - 23) as nat) as int)
    }
}

/// The significand of `w as f32`, in `[2^23, 2^24)`: the raw significand,
/// renormalized when rounding carried out of 24 bits.
pub open spec fn f32_sig(w: int) -> int
    recommends
        w >= 1,
{
    if f32_sig_raw(w) == pow2(24) {
        pow2(23) as int
    } else {
        f32_sig_raw(w)
    }
}

/// The binary exponent of `w as f32`: `w as f32 == f32_sig(w) * pow2(f32_exp(w) - 23)`.
pub open spec fn f32_exp(w: int) -> int
    recommends
        w >= 1,
{
    if f32_sig_raw(w) == pow2(24) {
        ilog2(w) + 1
    } else {
        ilog2(w)
    }
}

/// The bit pattern of `1.0f32 / (w as f32 / 2.0f32)` for `w >= 1`.
///
/// Writing `w as f32` as `q * 2^(p - 23)` with `q = f32_sig(w)` and
/// `p = f32_exp(w)`, the exact reciprocal of its half is `2^(24 - p) / q`.
/// When `q == 2^23` that is the power of two `2^(1 - p)`, biased exponent
/// field `128 - p` and zero fraction. Otherwise the correctly rounded
/// significand is `rne_div(2^47, q)`, which stays strictly inside
/// `(2^23, 2^24)`, so the biased exponent field is `127 - p`.
pub open spec fn spec_recip_half_bits(w: int) -> int
    recommends
        1 <= w < 0x1_0000_0000,
{
    let q = f32_sig(w);
    let p = f32_exp(w);
    if q == pow2(23) {
        (128 - p) * pow2(23)
    } else {
        (127 - p) * pow2(23) + rne_div(pow2(47) as int, q) - pow2(23)
    }
}

/// The scale entry of the transform for one pixel dimension: the bits of
/// `1.0 / (v as f32 / 2.0)`, or of positive infinity when `v == 0`.
pub open spec fn spec_scale_bits(v: u32) -> u32 {
    if v == 0 {
        INFINITY_BITS
    } else {
        spec_recip_half_bits(v as int) as u32
    }
}

/// Rounding to nearest lands within half a divisor of the exact quotient:
/// `|rne_div(n, d) * d - n| * 2 <= d`. This is what makes `rne_div` the
/// round-to-nearest rule and gives the significands below their meaning.
pub proof fn lemma_rne_div_error(n: int, d: int)
    requires
        0 <= n,
        0 < d,
    ensures
        2 * (rne_div(n, d) * d - n) <= d,
        2 * (n - rne_div(n, d) * d) <= d,
{
    lemma_fundamental_div_mod(n, d);
    let q = n / d;
    assert(q * d == d * q) by (nonlinear_arith);
    assert((q + 1) * d == q * d + d) by (nonlinear_arith);
}

/// The significand of `w as f32` lies in the normal range `[2^23, 2^24)`.
pub proof fn lemma_f32_sig_in_range(w: int)
    requires
        w >= 1,
    ensures
        pow2(23) <= f32_sig(w) < pow2(24),
{
    let p = ilog2(w);
    lemma_ilog2_bounds(w);
    lemma_pow2_strictly_increases(23, 24);
    if f32_sig_raw(w) == pow2(24) {
    } else if p <= 23 {
        let m = pow2((23 - p) as nat) as int;
        lemma_pow2_pos((23 - p) as nat);
        lemma_pow2_adds(p as nat, (23 - p) as nat);
        lemma_pow2_adds((p + 1) as nat, (23 - p) as nat);
        lemma_mul_inequality(pow2(p as nat) as int, w, m);
        lemma_mul_inequality(w, pow2((p + 1) as nat) - 1, m);
        assert((pow2((p + 1) as nat) - 1) * m == pow2((p + 1) as nat) * m - m)
            by (nonlinear_arith);
    } else {
        let d = pow2((p - 23) as nat) as int;
        lemma_pow2_pos((p - 23) as nat);
        lemma_fundamental_div_mod(w, d);
        lemma_pow2_subtracts((p - 23) as nat, p as nat);
        lemma_div_is_ordered(pow2(p as nat) as int, w, d);
        if w / d >= pow2(24) {
            lemma_mul_inequality(pow2(24) as int, w / d, d);
            lemma_mul_is_commutative(w / d, d);
            lemma_pow2_adds(24, (p - 23) as nat);
            assert(false);
        }
    }
}

/// Converting a dimension to 24 significant bits is exact up to `2^24`
/// (there `f32_sig_raw(w) == w * pow2(23 - ilog2(w))` by definition) and
/// above that loses at most half a unit in the last place: with
/// `p = ilog2(w) > 23`, the raw significand satisfies
/// `2 * |f32_sig_raw(w) * pow2(p - 23) - w| <= pow2(p - 23)`.
pub proof fn lemma_sig_half_ulp(w: int)
    requires
        w >= 1,
        ilog2(w) > 23,
    ensures
        2 * (f32_sig_raw(w) * pow2((ilog2(w) - 23) as nat) - w) <= pow2((ilog2(w) - 23) as nat),
        2 * (w - f32_sig_raw(w) * pow2((ilog2(w) - 23) as nat)) <= pow2((ilog2(w) - 23) as nat),
{
    lemma_pow2_pos((ilog2(w) - 23) as nat);
    lemma_rne_div_error(w, pow2((ilog2(w) - 23) as nat) as int);
}

/// The reciprocal's significand is correctly rounded. Writing `w as f32` as
/// `q * 2^(p - 23)` with `q = f32_sig(w)`, the exact reciprocal of its half
/// is `2^47 / q` in units of `2^(-23 - p)`; the rounded significand
/// `rne_div(pow2(47), q)` sits within half such a unit of it:
/// `2 * |rne_div(pow2(47), q) * q - pow2(47)| <= q`.
pub proof fn lemma_recip_half_ulp(w: int)
    requires
        w >= 1,
    ensures
        2 * (rne_div(pow2(47) as int, f32_sig(w)) * f32_sig(w) - pow2(47)) <= f32_sig(w),
        2 * (pow2(47) - rne_div(pow2(47) as int, f32_sig(w)) * f32_sig(w)) <= f32_sig(w),
{
    lemma_f32_sig_in_range(w);
    lemma_pow2_pos(23);
    lemma_pow2_pos(47);
    lemma_rne_div_error(pow2(47) as int, f32_sig(w));
}

/// `ilog2` finds the highest set bit: `pow2(ilog2(w)) <= w < pow2(ilog2(w) + 1)`.
pub proof fn lemma_ilog2_bounds(w: int)
    requires
        w >= 1,
    ensures
        0 <= ilog2(w),
        pow2(ilog2(w) as nat) <= w,
        w < pow2((ilog2(w) + 1) as nat),
    decreases w,
{
    if w < 2 {
        lemma2_to64();
    } else {
        lemma_ilog2_bounds(w / 2);
        let k = ilog2(w / 2);
        lemma_fundamental_div_mod(w, 2);
        lemma_pow2_unfold((k + 1) as nat);
        lemma_pow2_unfold((k + 2) as nat);
    }
}

/// For `w < 2^32` the highest set bit is below position 32.
pub proof fn lemma_ilog2_le_31(w: int)
    requires
        1 <= w < 0x1_0000_0000,
    ensures
        0 <= ilog2(w) <= 31,
{
    lemma_ilog2_bounds(w);
    lemma2_to64();
    if ilog2(w) > 31 {
        if ilog2(w) > 32 {
            lemma_pow2_strictly_increases(32, ilog2(w) as nat);
        }
        assert(pow2(32) <= pow2(ilog2(w) as nat));
    }
}

/// `pow2(e)` as a machine word.
fn pow2_u64(e: u64) -> (r: u64)
    requires
        e < 64,
    ensures
        r == pow2(e as nat),
{
    proof {
        lemma_u64_pow2_no_overflow(e as nat);
        lemma_u64_shl_is_mul(1u64, e);
    }
    1u64 << e
}

/// The position of the highest set bit of `w`, executable form of `ilog2`.
fn ilog2_u32(w: u32) -> (r: u64)
    requires
        w >= 1,
    ensures
        r == ilog2(w as int),
        r <= 31,
{
    proof {
        lemma_ilog2_le_31(w as int);
    }
    let mut v: u32 = w;
    let mut p: u64 = 0;
    while v >= 2
        invariant
            1 <= v,
            ilog2(w as int) == p + ilog2(v as int),
            ilog2(w as int) <= 31,
            p <= 31,
        decreases v,
    {
        proof {
            lemma_ilog2_bounds(v as int);
            lemma_ilog2_bounds(v as int / 2);
        }
        v = v / 2;
        p = p + 1;
    }
    p
}

/// The bits of `1.0f32 / (v as f32 / 2.0f32)`, computed in integer
/// arithmetic; the bits of positive infinity when `v == 0`.
pub fn recip_half_bits(v: u32) -> (r: u32)
    ensures
        r == spec_scale_bits(v),
{
    if v == 0 {
        return INFINITY_BITS;
    }
    let w: u64 = v as u64;
    let p: u64 = ilog2_u32(v);
    proof {
        lemma_ilog2_bounds(v as int);
        lemma2_to64();
        lemma2_to64_rest();
    }
    let mut q: u64;
    let mut pe: u64;
    if p <= 23 {
        let m = pow2_u64(23 - p);
        proof {
            lemma_pow2_adds(p as nat, (23 - p) as nat);
            lemma_pow2_adds((p + 1) as nat, (23 - p) as nat);
            lemma_mul_inequality(pow2(p as nat) as int, w as int, m as int);
            lemma_mul_inequality(w as int, pow2((p + 1) as nat) - 1, m as int);
            assert((pow2((p + 1) as nat) - 1) * m == pow2((p + 1) as nat) * m - m)
                by (nonlinear_arith);
            assert(pow2(24) == pow2((p + 1) as nat) * pow2((23 - p) as nat)) by {
                lemma_pow2_adds((p + 1) as nat, (23 - p) as nat);
            }
        }
        q = w * m;
        pe = p;
        proof {
            assert(pow2(23) <= q < pow2(24));
            assert(q == f32_sig_raw(v as int));
        }
    } else {
        let sh = p - 23;
        let d = pow2_u64(sh);
        proof {
            lemma_fundamental_div_mod(w as int, d as int);
            lemma_pow2_subtracts(sh as nat, p as nat);
            lemma_div_is_ordered(pow2(p as nat) as int, w as int, d as int);
            assert(pow2(p as nat) as int / (d as int) == pow2((p - sh) as nat));
            // An upper bound on the quotient: past 2^24 the product would
            // already exceed the binade that holds w.
            if w / d >= pow2(24) {
                lemma_mul_inequality(pow2(24) as int, (w / d) as int, d as int);
                lemma_mul_is_commutative((w / d) as int, d as int);
                lemma_pow2_adds(24, sh as nat);
                assert(pow2(24 + sh as nat) == pow2((p + 1) as nat));
                assert(false);
            }
        }
        let q0 = w / d;
        let r0 = w % d;
        if 2 * r0 < d {
            q = q0;
        } else if 2 * r0 > d {
            q = q0 + 1;
        } else if q0 % 2 == 0 {
            q = q0;
        } else {
            q = q0 + 1;
        }
        pe = p;
        proof {
            assert(q == f32_sig_raw(v as int));
            assert(pow2(23) <= q <= pow2(24));
        }
        if q == 0x100_0000 {
            q = 0x80_0000;
            pe = p + 1;
        }
    }
    proof {
        assert(q == f32_sig(v as int));
        assert(pe == f32_exp(v as int));
        assert(pow2(23) <= q < pow2(24));
        assert(pe <= 32);
        assert(q != 0x80_0000 ==> pe <= 31);
    }
    if q == 0x80_0000 {
        let bits = (128 - pe) * 0x80_0000;
        proof {
            lemma_mul_inequality((128 - pe) as int, 128, 0x80_0000);
        }
        bits as u32
    } else {
        proof {
            lemma_div_is_ordered_by_denominator(
                0x8000_0000_0000,
                0x80_0000,
                q as int,
            );
            lemma_pow2_subtracts(23, 47);
            lemma_fundamental_div_mod(0x8000_0000_0000, q as int);
        }
        let t0 = 0x8000_0000_0000u64 / q;
        let r1 = 0x8000_0000_0000u64 % q;
        let t: u64;
        if 2 * r1 < q {
            t = t0;
        } else if 2 * r1 > q {
            t = t0 + 1;
        } else if t0 % 2 == 0 {
            t = t0;
        } else {
            t = t0 + 1;
        }
        proof {
            assert(t == rne_div(pow2(47) as int, q as int));
            assert(t <= pow2(24) + 1);
            lemma_mul_inequality(96, (127 - pe) as int, 0x80_0000);
            lemma_mul_inequality((127 - pe) as int, 127, 0x80_0000);
        }
        let bits = (127 - pe) * 0x80_0000 + t - 0x80_0000;
        bits as u32
    }
}

} // verus!
