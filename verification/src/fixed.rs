//! Fixed-point scalars.
//!
//! Every coordinate, colour channel and material parameter in this crate is a
//! real number represented as an `i64` holding the value times `SCALE`.
//! All arithmetic saturates at the `i64` range; multiplication and division
//! truncate toward zero, exactly as the specification functions below state.

use vstd::prelude::*;

verus! {

/// A real value `x` is stored as the integer `x * SCALE`, rounded toward zero.
pub const SCALE: i64 = 10_000_000;

/// `1.0` in fixed-point form.
pub const FX_ONE: i64 = 10_000_000;

pub open spec fn iabs(x: int) -> int {
    if x < 0 {
        -x
    } else {
        x
    }
}

/// Saturate a mathematical integer into the `i64` range.
pub open spec fn sat(x: int) -> int {
    if x > i64::MAX as int {
        i64::MAX as int
    } else if x < i64::MIN as int {
        i64::MIN as int
    } else {
        x
    }
}

/// Division truncating toward zero (the rounding Rust's `/` uses),
/// defined for any non-zero divisor.
pub open spec fn tdiv(a: int, b: int) -> int {
    if (a < 0) == (b < 0) {
        iabs(a) / iabs(b)
    } else {
        -(iabs(a) / iabs(b))
    }
}

/// Fixed-point addition.
pub open spec fn fadd(a: i64, b: i64) -> i64 {
    sat(a + b) as i64
}

/// Fixed-point subtraction.
pub open spec fn fsub(a: i64, b: i64) -> i64 {
    sat(a - b) as i64
}

/// Fixed-point negation.
pub open spec fn fneg(a: i64) -> i64 {
    sat(-(a as int)) as i64
}

/// Fixed-point multiplication: the scaled product, truncated toward zero.
pub open spec fn fmul(a: i64, b: i64) -> i64 {
    sat(tdiv((a as int) * (b as int), SCALE as int)) as i64
}

/// Fixed-point division: `a / b` in real terms, truncated toward zero.
/// (Total as a specification; executable code never divides by zero.)
pub open spec fn fdiv(a: i64, b: i64) -> i64 {
    if b == 0 {
        0
    } else {
        sat(tdiv((a as int) * (SCALE as int), b as int)) as i64
    }
}

/// The largest integer at or below the real value `x / SCALE`.
pub open spec fn ffloor(x: i64) -> i64 {
    ((x as int) / (SCALE as int)) as i64
}

/// The fractional part `x - floor(x)`, in fixed-point form; always in `[0, SCALE)`.
pub open spec fn ffrac(x: i64) -> i64 {
    ((x as int) % (SCALE as int)) as i64
}

pub open spec fn fabs(a: i64) -> i64 {
    sat(iabs(a as int)) as i64
}

/// `r` is the integer square root of `n`.
pub open spec fn is_sqrt_of(n: int, r: int) -> bool {
    r >= 0 && r * r <= n && n < (r + 1) * (r + 1)
}

/// The integer square root, as chosen by its defining property.
pub open spec fn sqrt_floor(n: int) -> int {
    choose|r: int| is_sqrt_of(n, r)
}

/// Fixed-point square root of a non-negative value (zero below zero).
pub open spec fn fsqrt(x: i64) -> i64 {
    if x < 0 {
        0
    } else {
        sqrt_floor((x as int) * (SCALE as int)) as i64
    }
}

pub proof fn lemma_sqrt_unique(n: int, r: int)
    requires
        is_sqrt_of(n, r),
    ensures
        sqrt_floor(n) == r,
{
    assert(is_sqrt_of(n, sqrt_floor(n))) by {
        assert(exists|q: int| is_sqrt_of(n, q)) by {
            assert(is_sqrt_of(n, r));
        }
    }
    let s = sqrt_floor(n);
    assert(s == r) by (nonlinear_arith)
        requires
            is_sqrt_of(n, r),
            is_sqrt_of(n, s),
    {
    }
}

/// Magnitude of an `i64` as a `u64`.
fn mag64(a: i64) -> (m: u64)
    ensures
        m as int == iabs(a as int),
{
    if a >= 0 {
        a as u64
    } else {
        (-(a as i128)) as u64
    }
}

/// Clamp a mathematical value held in an `i128` into the `i64` range.
fn clamp128(s: i128) -> (r: i64)
    ensures
        r as int == sat(s as int),
{
    if s > i64::MAX as i128 {
        i64::MAX
    } else if s < i64::MIN as i128 {
        i64::MIN
    } else {
        s as i64
    }
}

pub fn fx_add(a: i64, b: i64) -> (r: i64)
    ensures
        r == fadd(a, b),
{
    clamp128(a as i128 + b as i128)
}

pub fn fx_sub(a: i64, b: i64) -> (r: i64)
    ensures
        r == fsub(a, b),
{
    clamp128(a as i128 - b as i128)
}

pub fn fx_neg(a: i64) -> (r: i64)
    ensures
        r == fneg(a),
{
    clamp128(-(a as i128))
}

pub fn fx_abs(a: i64) -> (r: i64)
    ensures
        r == fabs(a),
{
    if a >= 0 {
        a
    } else {
        clamp128(-(a as i128))
    }
}

/// Saturate the non-negative quotient `q`, negated when `neg` holds.
fn apply_sign(q: u128, neg: bool) -> (r: i64)
    ensures
        r as int == sat(if neg { -(q as int) } else { q as int }),
{
    if neg {
        if q >= 9223372036854775808u128 {
            i64::MIN
        } else {
            -(q as i64)
        }
    } else {
        if q > i64::MAX as u128 {
            i64::MAX
        } else {
            q as i64
        }
    }
}

pub fn fx_mul(a: i64, b: i64) -> (r: i64)
    ensures
        r == fmul(a, b),
{
    let neg: bool = (a < 0) != (b < 0);
    let ma: u64 = mag64(a);
    let mb: u64 = mag64(b);
    proof {
        assert((ma as int) * (mb as int) <= (u128::MAX as int)) by (nonlinear_arith)
            requires
                0 <= (ma as int) <= 0x8000000000000000,
                0 <= (mb as int) <= 0x8000000000000000,
        {
        }
    }
    let p: u128 = (ma as u128) * (mb as u128);
    let q: u128 = p / (SCALE as u128);
    proof {
        assert(p as int == iabs(a as int) * iabs(b as int));
        assert(iabs(a as int) * iabs(b as int) == iabs((a as int) * (b as int))) by (nonlinear_arith);
        assert(q as int == iabs((a as int) * (b as int)) / (SCALE as int));
        if (a as int) * (b as int) == 0 {
            assert(q == 0);
        } else {
            assert(((a < 0) != (b < 0)) <==> ((a as int) * (b as int) < 0)) by (nonlinear_arith)
                requires
                    ((a as int) * (b as int)) != 0,
            {
            }
        }
    }
    apply_sign(q, neg)
}

pub fn fx_div(a: i64, b: i64) -> (r: i64)
    requires
        b != 0,
    ensures
        r == fdiv(a, b),
{
    let neg: bool = (a < 0) != (b < 0);
    let ma: u64 = mag64(a);
    let mb: u64 = mag64(b);
    proof {
        assert((ma as int) * (SCALE as int) <= (u128::MAX as int)) by (nonlinear_arith)
            requires
                0 <= (ma as int) <= 0x8000000000000000,
                (SCALE as int) == 10_000_000,
        {
        }
    }
    let p: u128 = (ma as u128) * (SCALE as u128);
    let q: u128 = p / (mb as u128);
    proof {
        assert(p as int == iabs(a as int) * (SCALE as int));
        assert(iabs(a as int) * (SCALE as int) == iabs((a as int) * (SCALE as int))) by (nonlinear_arith);
        assert(q as int == iabs((a as int) * (SCALE as int)) / iabs(b as int));
        if a == 0 {
            assert(q == 0);
        } else {
            assert((a < 0) <==> ((a as int) * (SCALE as int) < 0)) by (nonlinear_arith)
                requires
                    a != 0,
                    (SCALE as int) > 0,
            {
            }
        }
    }
    apply_sign(q, neg)
}

/// Division that hands back zero for a zero divisor, as the specification
/// function `fdiv` does.
pub fn fx_div_total(a: i64, b: i64) -> (r: i64)
    ensures
        r == fdiv(a, b),
{
    if b == 0 {
        0
    } else {
        fx_div(a, b)
    }
}

pub fn fx_floor(x: i64) -> (r: i64)
    ensures
        r == ffloor(x),
        -922_337_203_686 <= r <= 922_337_203_686,
{
    if x >= 0 {
        let q: u64 = (x as u64) / (SCALE as u64);
        proof {
            vstd::arithmetic::div_mod::lemma_fundamental_div_mod(x as int, SCALE as int);
            assert((q as int) <= 922_337_203_686) by (nonlinear_arith)
                requires
                    (x as int) == (SCALE as int) * ((x as int) / (SCALE as int)) + (x as int) % (
                    SCALE as int),
                    0 <= (x as int) % (SCALE as int),
                    (q as int) == (x as int) / (SCALE as int),
                    0 <= (x as int) <= (i64::MAX as int),
                    (SCALE as int) == 10_000_000,
            {
            }
        }
        q as i64
    } else {
        let m: u128 = (-(x as i128)) as u128;
        let q: u128 = m / (SCALE as u128);
        let rem: u128 = m % (SCALE as u128);
        proof {
            vstd::arithmetic::div_mod::lemma_fundamental_div_mod(m as int, SCALE as int);
            assert(rem == 0 ==> (x as int) / (SCALE as int) == -(q as int)) by (nonlinear_arith)
                requires
                    (m as int) == -(x as int),
                    (m as int) == (SCALE as int) * ((m as int) / (SCALE as int)) + (m as int) % (
                    SCALE as int),
                    (q as int) == (m as int) / (SCALE as int),
                    (rem as int) == (m as int) % (SCALE as int),
                    (SCALE as int) == 10_000_000,
            {
            }
            assert(rem != 0 ==> (x as int) / (SCALE as int) == -(q as int) - 1) by (nonlinear_arith)
                requires
                    (m as int) == -(x as int),
                    (m as int) == (SCALE as int) * ((m as int) / (SCALE as int)) + (m as int) % (
                    SCALE as int),
                    (q as int) == (m as int) / (SCALE as int),
                    (rem as int) == (m as int) % (SCALE as int),
                    0 <= (rem as int) < (SCALE as int),
                    (SCALE as int) == 10_000_000,
            {
            }
        }
        proof {
            assert((q as int) <= 922_337_203_685) by (nonlinear_arith)
                requires
                    (m as int) == (SCALE as int) * ((m as int) / (SCALE as int)) + (m as int) % (
                    SCALE as int),
                    0 <= (m as int) % (SCALE as int),
                    (q as int) == (m as int) / (SCALE as int),
                    0 <= (m as int) <= 9223372036854775808,
                    (SCALE as int) == 10_000_000,
            {
            }
        }
        if rem == 0 {
            -(q as i64)
        } else {
            -(q as i64) - 1
        }
    }
}

pub fn fx_frac(x: i64) -> (r: i64)
    ensures
        r == ffrac(x),
        0 <= r < SCALE,
{
    let f: i64 = fx_floor(x);
    proof {
        vstd::arithmetic::div_mod::lemma_fundamental_div_mod(x as int, SCALE as int);
        vstd::arithmetic::div_mod::lemma_mod_bound(x as int, SCALE as int);
        assert((f as int) * (SCALE as int) == (SCALE as int) * ((x as int) / (SCALE as int)))
            by (nonlinear_arith)
            requires
                (f as int) == (x as int) / (SCALE as int),
        {
        }
    }
    (x as i128 - (f as i128) * (SCALE as i128)) as i64
}

/// Integer square root of a `u128`, by bisection.
fn isqrt_u128(n: u128) -> (r: u128)
    ensures
        is_sqrt_of(n as int, r as int),
{
    let mut lo: u128 = 0;
    let mut hi: u128 = 18446744073709551616u128;  // 2^64: hi * hi > u128::MAX >= n
    proof {
        assert((18446744073709551616 as int) * (18446744073709551616 as int) > u128::MAX as int)
            by (nonlinear_arith);
    }
    while hi - lo > 1
        invariant
            lo < hi,
            (lo as int) * (lo as int) <= n as int,
            (hi as int) * (hi as int) > n as int,
            hi <= 18446744073709551616u128,
        decreases hi - lo,
    {
        let mid: u128 = lo + (hi - lo) / 2;
        proof {
            assert((mid as int) * (mid as int) <= (u128::MAX as int)) by (nonlinear_arith)
                requires
                    0 <= (mid as int) < 18446744073709551616,
            {
            }
        }
        if mid * mid <= n {
            lo = mid;
        } else {
            hi = mid;
        }
    }
    lo
}

pub fn fx_sqrt(x: i64) -> (r: i64)
    ensures
        r == fsqrt(x),
        r >= 0,
{
    if x < 0 {
        return 0;
    }
    proof {
        assert((x as int) * (SCALE as int) <= (u128::MAX as int)) by (nonlinear_arith)
            requires
                0 <= (x as int) <= (i64::MAX as int),
                (SCALE as int) == 10_000_000,
        {
        }
    }
    let n: u128 = (x as u128) * (SCALE as u128);
    let s: u128 = isqrt_u128(n);
    proof {
        lemma_sqrt_unique(n as int, s as int);
        assert((s as int) * (s as int) <= (n as int));
        assert((s as int) <= 9_700_000_000_000) by (nonlinear_arith)
            requires
                (s as int) * (s as int) <= (n as int),
                (n as int) <= (i64::MAX as int) * (SCALE as int),
                (s as int) >= 0,
        {
        }
    }
    s as i64
}

/// Clamp into `[lo, hi]`.
pub open spec fn fclamp(x: i64, lo: i64, hi: i64) -> i64 {
    if x < lo {
        lo
    } else if x > hi {
        hi
    } else {
        x
    }
}

pub fn fx_clamp(x: i64, lo: i64, hi: i64) -> (r: i64)
    requires
        lo <= hi,
    ensures
        r == fclamp(x, lo, hi),
{
    if x < lo {
        lo
    } else if x > hi {
        hi
    } else {
        x
    }
}

/// `b` raised to a whole-number power, in fixed-point form.
pub open spec fn fpow(b: i64, e: nat) -> i64
    decreases e,
{
    if e == 0 {
        FX_ONE
    } else {
        fmul(b, fpow(b, (e - 1) as nat))
    }
}

pub fn fx_pow(b: i64, e: u32) -> (r: i64)
    ensures
        r == fpow(b, e as nat),
{
    let mut acc: i64 = FX_ONE;
    let mut i: u32 = 0;
    while i < e
        invariant
            i <= e,
            acc == fpow(b, i as nat),
        decreases e - i,
    {
        proof {
            assert(fpow(b, (i + 1) as nat) == fmul(b, fpow(b, i as nat)));
        }
        acc = fx_mul(b, acc);
        i = i + 1;
    }
    acc
}


/// Pi, two pi and half pi in fixed-point form.
pub const PI_FX: i64 = 31_415_927;

pub const TWO_PI_FX: i64 = 62_831_853;

pub const HALF_PI_FX: i64 = 15_707_963;

/// Reciprocals used by the sine polynomial: 1/6, 1/20, 1/42 and 1/72.
pub const INV6_FX: i64 = 1_666_667;

pub const INV20_FX: i64 = 500_000;

pub const INV42_FX: i64 = 238_095;

pub const INV72_FX: i64 = 138_889;

/// The angle congruent to `a` modulo two pi that lies in the reduction window
/// `[-PI_FX, TWO_PI_FX - PI_FX)`.
pub open spec fn freduce(a: i64) -> i64 {
    (((a + PI_FX) % (TWO_PI_FX as int)) - PI_FX) as i64
}

/// Fold a reduced angle into `[-HALF_PI_FX, HALF_PI_FX]` using the symmetry
/// of the sine about a quarter turn.
pub open spec fn ffold(x: i64) -> i64 {
    if x > HALF_PI_FX {
        (PI_FX - x) as i64
    } else if x < -HALF_PI_FX {
        (-PI_FX - x) as i64
    } else {
        x
    }
}

/// Degree-nine polynomial approximation of the sine on the folded window.
pub open spec fn fsin_poly(x: i64) -> i64 {
    let s = fmul(x, x);
    let t3 = fsub(FX_ONE, fmul(s, INV72_FX));
    let t2 = fsub(FX_ONE, fmul(fmul(s, INV42_FX), t3));
    let t1 = fsub(FX_ONE, fmul(fmul(s, INV20_FX), t2));
    let t0 = fsub(FX_ONE, fmul(fmul(s, INV6_FX), t1));
    fmul(x, t0)
}

/// Fixed-point sine: the polynomial on the reduced, folded angle.
pub open spec fn fsin(a: i64) -> i64 {
    fsin_poly(ffold(freduce(a)))
}

/// Fixed-point cosine: the sine a quarter turn along.
pub open spec fn fcos(a: i64) -> i64 {
    fsin((freduce(a) + HALF_PI_FX) as i64)
}

/// Fixed-point tangent.
pub open spec fn ftan(a: i64) -> i64 {
    fdiv(fsin(a), fcos(a))
}

/// Bring an angle into the reduction window by whole turns.
fn reduce_angle(a: i64) -> (r: i64)
    ensures
        r == freduce(a),
        -PI_FX <= r < TWO_PI_FX - PI_FX,
{
    let mut x: i64 = a;
    while x >= TWO_PI_FX - PI_FX
        invariant
            (x as int + PI_FX) % (TWO_PI_FX as int) == (a as int + PI_FX) % (TWO_PI_FX as int),
        decreases x as int + PI_FX,
    {
        proof {
            vstd::arithmetic::div_mod::lemma_mod_sub_multiples_vanish(
                x as int + PI_FX,
                TWO_PI_FX as int,
            );
        }
        x = x - TWO_PI_FX;
    }
    while x < -PI_FX
        invariant
            (x as int + PI_FX) % (TWO_PI_FX as int) == (a as int + PI_FX) % (TWO_PI_FX as int),
            x < TWO_PI_FX - PI_FX,
        decreases iabs(x as int),
    {
        proof {
            vstd::arithmetic::div_mod::lemma_mod_add_multiples_vanish(
                x as int + PI_FX,
                TWO_PI_FX as int,
            );
        }
        x = x + TWO_PI_FX;
    }
    proof {
        vstd::arithmetic::div_mod::lemma_small_mod((x + PI_FX) as nat, TWO_PI_FX as nat);
    }
    x
}

pub fn fx_sin(a: i64) -> (r: i64)
    ensures
        r == fsin(a),
{
    let red: i64 = reduce_angle(a);
    let x: i64 = if red > HALF_PI_FX {
        PI_FX - red
    } else if red < -HALF_PI_FX {
        -PI_FX - red
    } else {
        red
    };
    let s: i64 = fx_mul(x, x);
    let t3: i64 = fx_sub(FX_ONE, fx_mul(s, INV72_FX));
    let t2: i64 = fx_sub(FX_ONE, fx_mul(fx_mul(s, INV42_FX), t3));
    let t1: i64 = fx_sub(FX_ONE, fx_mul(fx_mul(s, INV20_FX), t2));
    let t0: i64 = fx_sub(FX_ONE, fx_mul(fx_mul(s, INV6_FX), t1));
    fx_mul(x, t0)
}

pub fn fx_cos(a: i64) -> (r: i64)
    ensures
        r == fcos(a),
{
    let red: i64 = reduce_angle(a);
    fx_sin(red + HALF_PI_FX)
}

pub fn fx_tan(a: i64) -> (r: i64)
    requires
        fcos(a) != 0,
    ensures
        r == ftan(a),
{
    let s: i64 = fx_sin(a);
    let c: i64 = fx_cos(a);
    fx_div(s, c)
}


/// Whether an integer count is even (in the Euclidean sense used by
/// specification arithmetic).
pub fn is_even(n: i64) -> (r: bool)
    ensures
        r == ((n as int) % 2 == 0),
{
    if n >= 0 {
        proof {
            vstd::arithmetic::div_mod::lemma_fundamental_div_mod(n as int, 2);
        }
        (n as u64) % 2 == 0
    } else {
        let m: u64 = (-(n as i128)) as u64;
        proof {
            vstd::arithmetic::div_mod::lemma_fundamental_div_mod(n as int, 2);
            vstd::arithmetic::div_mod::lemma_fundamental_div_mod(m as int, 2);
            vstd::arithmetic::div_mod::lemma_mod_bound(n as int, 2);
            vstd::arithmetic::div_mod::lemma_mod_bound(m as int, 2);
        }
        m % 2 == 0
    }
}


/// Multiplying by one is exact.
pub proof fn lemma_fmul_one(a: i64)
    ensures
        fmul(FX_ONE, a) == a,
        fmul(a, FX_ONE) == a,
{
    assert(iabs((FX_ONE as int) * (a as int)) == (SCALE as int) * iabs(a as int))
        by (nonlinear_arith);
    assert(iabs((a as int) * (FX_ONE as int)) == (SCALE as int) * iabs(a as int))
        by (nonlinear_arith);
    vstd::arithmetic::div_mod::lemma_div_multiples_vanish(iabs(a as int), SCALE as int);
}

/// Multiplying by zero gives zero.
pub proof fn lemma_fmul_zero(a: i64)
    ensures
        fmul(0, a) == 0,
        fmul(a, 0) == 0,
{
    assert(iabs(0 * (a as int)) == 0) by (nonlinear_arith);
    assert(iabs((a as int) * 0) == 0) by (nonlinear_arith);
    assert(0int / (SCALE as int) == 0) by (nonlinear_arith);
}

/// The two facts above, over every scalar at once.
pub proof fn lemma_fmul_unit_auto()
    ensures
        forall|a: i64| #[trigger] fmul(FX_ONE, a) == a,
        forall|a: i64| #[trigger] fmul(a, FX_ONE) == a,
        forall|a: i64| #[trigger] fmul(0, a) == 0,
        forall|a: i64| #[trigger] fmul(a, 0) == 0,
{
    assert forall|a: i64| #[trigger] fmul(FX_ONE, a) == a by {
        lemma_fmul_one(a);
    }
    assert forall|a: i64| #[trigger] fmul(a, FX_ONE) == a by {
        lemma_fmul_one(a);
    }
    assert forall|a: i64| #[trigger] fmul(0, a) == 0 by {
        lemma_fmul_zero(a);
    }
    assert forall|a: i64| #[trigger] fmul(a, 0) == 0 by {
        lemma_fmul_zero(a);
    }
}

} // verus!



