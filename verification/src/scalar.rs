//! Fixed-point numbers.
//!
//! Every coordinate, factor and threshold of the editor is a [`Scalar`]: a
//! signed 64-bit count of millionths, so that [`ONE`] stands for 1. All
//! arithmetic saturates at the ends of the 64-bit range instead of wrapping
//! or trapping, which makes every operation total.
use vstd::prelude::*;

verus! {

/// A number in fixed point, counted in millionths.
pub type Scalar = i64;

/// The scalar that stands for 1.
pub const ONE: i64 = 1_000_000;

/// The integer `v`, moved to the nearest end of the 64-bit range when it lies
/// outside of it.
pub open spec fn clamp(v: int) -> i64 {
    if v > i64::MAX {
        i64::MAX
    } else if v < i64::MIN {
        i64::MIN
    } else {
        v as i64
    }
}

/// The distance of `v` from zero.
pub open spec fn abs_int(v: int) -> int {
    if v < 0 {
        -v
    } else {
        v
    }
}

/// The quotient `a / b` rounded towards zero (`b` is not zero).
#[verifier::opaque]
pub open spec fn trunc_div(a: int, b: int) -> int {
    let q = abs_int(a) / abs_int(b);
    if (a < 0) != (b < 0) {
        -q
    } else {
        q
    }
}

/// The quotient `a / b` rounded to the nearest integer, a tie going away from
/// zero (`b` is not zero).
#[verifier::opaque]
pub open spec fn round_div(a: int, b: int) -> int {
    let q = (2 * abs_int(a) + abs_int(b)) / (2 * abs_int(b));
    if (a < 0) != (b < 0) {
        -q
    } else {
        q
    }
}

/// `a + b`, saturating.
pub open spec fn sum(a: i64, b: i64) -> i64 {
    clamp(a + b)
}

/// `a - b`, saturating.
pub open spec fn diff(a: i64, b: i64) -> i64 {
    clamp(a - b)
}

/// `-a`, saturating.
pub open spec fn neg(a: i64) -> i64 {
    clamp(-a)
}

/// `|a|`, saturating.
pub open spec fn mag(a: i64) -> i64 {
    clamp(abs_int(a as int))
}

/// The fixed-point product of `a` and `b`, rounded towards zero, saturating.
pub open spec fn prod(a: i64, b: i64) -> i64 {
    clamp(trunc_div(a * b, ONE as int))
}

/// The fixed-point quotient of `a` by `b`, rounded towards zero, saturating.
/// A division by zero saturates in the direction of `a`; zero by zero is zero.
pub open spec fn quot(a: i64, b: i64) -> i64 {
    if b == 0 {
        if a > 0 {
            i64::MAX
        } else if a < 0 {
            i64::MIN
        } else {
            0
        }
    } else {
        clamp(trunc_div(a * ONE, b as int))
    }
}

/// The point halfway between `a` and `b`, rounded towards zero.
pub open spec fn mid(a: i64, b: i64) -> i64 {
    trunc_div(a + b, 2) as i64
}

/// Half of `a`, rounded towards zero.
pub open spec fn half(a: i64) -> i64 {
    trunc_div(a as int, 2) as i64
}

/// The smaller of two scalars.
pub open spec fn lesser(a: i64, b: i64) -> i64 {
    if a <= b {
        a
    } else {
        b
    }
}

/// The larger of two scalars.
pub open spec fn greater(a: i64, b: i64) -> i64 {
    if a >= b {
        a
    } else {
        b
    }
}

/// The multiple of `grid` nearest to `v`, a tie going away from zero,
/// saturating. With a grid of zero there is nothing to snap to and `v` stays.
pub open spec fn snapped(v: i64, grid: i64) -> i64 {
    if grid == 0 {
        v
    } else {
        clamp(round_div(v as int, grid as int) * grid)
    }
}

/// Whether `a` and `b` lie less than `threshold` apart.
pub open spec fn within(a: i64, b: i64, threshold: i64) -> bool {
    abs_int(a - b) < threshold
}

/// Whether `r` is the square root of `n` rounded down.
pub open spec fn is_floor_sqrt(n: int, r: int) -> bool {
    0 <= r && r * r <= n < (r + 1) * (r + 1)
}

/// The square root of `n` rounded down (`n` is not negative).
pub open spec fn floor_sqrt(n: int) -> int {
    choose|r: int| is_floor_sqrt(n, r)
}

/// Squaring is strictly monotone on the non-negative integers.
proof fn lemma_square_monotone(a: int, b: int)
    requires
        0 <= a < b,
    ensures
        a * a < b * b,
        (a + 1) * (a + 1) <= b * b,
{
    assert(a * a < b * b) by (nonlinear_arith)
        requires
            0 <= a < b,
    ;
    assert((a + 1) * (a + 1) <= b * b) by (nonlinear_arith)
        requires
            0 <= a + 1 <= b,
    ;
}

/// Every natural number has a rounded-down square root.
pub proof fn lemma_floor_sqrt_exists(n: nat)
    ensures
        is_floor_sqrt(n as int, floor_sqrt(n as int)),
    decreases n,
{
    if n == 0 {
        assert(is_floor_sqrt(0, 0));
    } else {
        lemma_floor_sqrt_exists((n - 1) as nat);
        let r = floor_sqrt(n - 1);
        if (r + 1) * (r + 1) <= n {
            assert((r + 1) * (r + 1) < (r + 2) * (r + 2)) by (nonlinear_arith)
                requires
                    0 <= r,
            ;
            assert(is_floor_sqrt(n as int, r + 1));
        } else {
            assert(is_floor_sqrt(n as int, r));
        }
    }
}

/// The rounded-down square root does not shrink when the number grows.
pub proof fn lemma_floor_sqrt_monotone(a: nat, b: nat)
    requires
        a <= b,
    ensures
        floor_sqrt(a as int) <= floor_sqrt(b as int),
{
    lemma_floor_sqrt_exists(a);
    lemma_floor_sqrt_exists(b);
    let ra = floor_sqrt(a as int);
    let rb = floor_sqrt(b as int);
    if rb < ra {
        lemma_square_monotone(rb, ra);
    }
}

/// A number has one rounded-down square root only.
pub proof fn lemma_floor_sqrt_unique(n: int, r: int)
    requires
        is_floor_sqrt(n, r),
    ensures
        floor_sqrt(n) == r,
{
    let s = floor_sqrt(n);
    assert(is_floor_sqrt(n, s));
    if s < r {
        lemma_square_monotone(s, r);
    } else if r < s {
        lemma_square_monotone(r, s);
    }
}

/// Multiplying by one changes nothing.
pub proof fn lemma_prod_one(a: i64)
    ensures
        prod(a, ONE) == a,
        prod(ONE, a) == a,
{
    reveal(trunc_div);
    assert(abs_int(a * ONE) == abs_int(a as int) * 1_000_000) by (nonlinear_arith)
        requires
            ONE == 1_000_000,
    ;
    assert(abs_int(ONE * a) == abs_int(a as int) * 1_000_000) by (nonlinear_arith)
        requires
            ONE == 1_000_000,
    ;
    assert((abs_int(a as int) * 1_000_000) / 1_000_000 == abs_int(a as int)) by (nonlinear_arith);
    assert((a * ONE < 0) == (a < 0)) by (nonlinear_arith)
        requires
            ONE == 1_000_000,
    ;
    assert((ONE * a < 0) == (a < 0)) by (nonlinear_arith)
        requires
            ONE == 1_000_000,
    ;
}

/// Multiplying by zero gives zero.
pub proof fn lemma_prod_zero(a: i64)
    ensures
        prod(a, 0) == 0,
        prod(0, a) == 0,
{
    reveal(trunc_div);
    assert(a * 0 == 0 && 0 * a == 0) by (nonlinear_arith);
}

/// Half of a non-negative scalar lies between zero and the scalar.
pub proof fn lemma_half_bounds(a: i64)
    requires
        a >= 0,
    ensures
        0 <= half(a) <= a,
{
    reveal(trunc_div);
}

/// The magnitude of a product depends on the magnitudes of the factors only.
pub proof fn lemma_prod_mag(a: i64, b: i64, c: i64, d: i64)
    requires
        abs_int(a as int) == abs_int(c as int),
        abs_int(b as int) == abs_int(d as int),
    ensures
        mag(prod(a, b)) == mag(prod(c, d)),
{
    reveal(trunc_div);
    assert(abs_int(a * b) == abs_int(a as int) * abs_int(b as int)) by (nonlinear_arith);
    assert(abs_int(c * d) == abs_int(c as int) * abs_int(d as int)) by (nonlinear_arith);
    let q = abs_int(a * b) / 1_000_000;
    assert(q >= 0) by (nonlinear_arith)
        requires
            q == abs_int(a * b) / 1_000_000,
            abs_int(a * b) >= 0,
    ;
    assert(trunc_div(a * b, ONE as int) == q || trunc_div(a * b, ONE as int) == -q);
    assert(trunc_div(c * d, ONE as int) == q || trunc_div(c * d, ONE as int) == -q);
}

fn clamp_wide(v: i128) -> (r: Scalar)
    ensures
        r == clamp(v as int),
{
    if v > i64::MAX as i128 {
        i64::MAX
    } else if v < i64::MIN as i128 {
        i64::MIN
    } else {
        v as i64
    }
}

fn magnitude_wide(v: i128) -> (r: u128)
    requires
        v > i128::MIN,
    ensures
        r == abs_int(v as int),
{
    if v < 0 {
        (-v) as u128
    } else {
        v as u128
    }
}

/// Gives `m` the sign asked for and saturates.
fn clamp_signed(negative: bool, m: u128) -> (r: Scalar)
    ensures
        r == clamp(
            if negative {
                -(m as int)
            } else {
                m as int
            },
        ),
{
    if negative {
        if m >= 0x8000_0000_0000_0000u128 {
            i64::MIN
        } else {
            -(m as i64)
        }
    } else {
        if m > 0x7fff_ffff_ffff_ffffu128 {
            i64::MAX
        } else {
            m as i64
        }
    }
}

/// `a + b`, saturating.
pub fn add_sat(a: Scalar, b: Scalar) -> (r: Scalar)
    ensures
        r == sum(a, b),
{
    clamp_wide(a as i128 + b as i128)
}

/// `a - b`, saturating.
pub fn sub_sat(a: Scalar, b: Scalar) -> (r: Scalar)
    ensures
        r == diff(a, b),
{
    clamp_wide(a as i128 - b as i128)
}

/// `-a`, saturating.
pub fn neg_sat(a: Scalar) -> (r: Scalar)
    ensures
        r == neg(a),
{
    clamp_wide(-(a as i128))
}

/// `|a|`, saturating.
pub fn abs_sat(a: Scalar) -> (r: Scalar)
    ensures
        r == mag(a),
{
    clamp_signed(false, magnitude_wide(a as i128))
}

/// The fixed-point product of two scalars.
pub fn mul_fixed(a: Scalar, b: Scalar) -> (r: Scalar)
    ensures
        r == prod(a, b),
{
    proof {
        reveal(trunc_div);
    }
    let ma: u128 = magnitude_wide(a as i128);
    let mb: u128 = magnitude_wide(b as i128);
    assert(ma * mb <= 0x8000_0000_0000_0000 * 0x8000_0000_0000_0000) by (nonlinear_arith)
        requires
            0 <= ma <= 0x8000_0000_0000_0000,
            0 <= mb <= 0x8000_0000_0000_0000,
    ;
    let m: u128 = ma * mb;
    assert(m == abs_int(a * b)) by (nonlinear_arith)
        requires
            m == ma * mb,
            ma == abs_int(a as int),
            mb == abs_int(b as int),
    ;
    assert((a * b < 0) == ((a < 0) != (b < 0)) || a * b == 0) by (nonlinear_arith);
    let q: u128 = m / 1_000_000u128;
    clamp_signed((a < 0) != (b < 0), q)
}

/// The fixed-point quotient of two scalars.
pub fn div_fixed(a: Scalar, b: Scalar) -> (r: Scalar)
    ensures
        r == quot(a, b),
{
    proof {
        reveal(trunc_div);
    }
    if b == 0 {
        if a > 0 {
            i64::MAX
        } else if a < 0 {
            i64::MIN
        } else {
            0
        }
    } else {
        let ma: u128 = magnitude_wide(a as i128);
        let mb: u128 = magnitude_wide(b as i128);
        let m: u128 = ma * 1_000_000u128;
        assert(m == abs_int(a * ONE));
        let q: u128 = m / mb;
        clamp_signed((a < 0) != (b < 0), q)
    }
}

/// The point halfway between two scalars.
pub fn midpoint(a: Scalar, b: Scalar) -> (r: Scalar)
    ensures
        r == mid(a, b),
{
    proof {
        reveal(trunc_div);
    }
    let s: i128 = a as i128 + b as i128;
    let m: u128 = magnitude_wide(s);
    let h: u128 = m / 2;
    clamp_signed(s < 0, h)
}

/// Half of a scalar.
pub fn halve(a: Scalar) -> (r: Scalar)
    ensures
        r == half(a),
{
    proof {
        reveal(trunc_div);
    }
    let m: u128 = magnitude_wide(a as i128);
    clamp_signed(a < 0, m / 2)
}

/// The smaller of two scalars.
pub fn min_of(a: Scalar, b: Scalar) -> (r: Scalar)
    ensures
        r == lesser(a, b),
{
    if a <= b {
        a
    } else {
        b
    }
}

/// The larger of two scalars.
pub fn max_of(a: Scalar, b: Scalar) -> (r: Scalar)
    ensures
        r == greater(a, b),
{
    if a >= b {
        a
    } else {
        b
    }
}

/// The multiple of `grid` nearest to `v`.
pub fn snap_to_multiple(v: Scalar, grid: Scalar) -> (r: Scalar)
    ensures
        r == snapped(v, grid),
{
    proof {
        reveal(round_div);
    }
    if grid == 0 {
        v
    } else {
        let mv: u128 = magnitude_wide(v as i128);
        let mg: u128 = magnitude_wide(grid as i128);
        let q: u128 = (2 * mv + mg) / (2 * mg);
        assert(q * mg <= 2 * mv + mg) by (nonlinear_arith)
            requires
                q == (2 * mv + mg) / (2 * mg),
                mg > 0,
                mv >= 0,
        ;
        let m: u128 = q * mg;
        let negative = v < 0;
        proof {
            let rd = round_div(v as int, grid as int);
            let g = grid as int;
            assert(rd == q || rd == -q);
            assert(g == mg || g == -mg);
            assert(rd * g == (if negative {
                -(m as int)
            } else {
                m as int
            })) by (nonlinear_arith)
                requires
                    m == q * mg,
                    (rd == q && g == mg && !negative) || (rd == -q && g == mg && (negative || q
                        == 0)) || (rd == q && g == -mg && (negative || q == 0)) || (rd == -q && g
                        == -mg && !negative),
            ;
        }
        clamp_signed(negative, m)
    }
}

/// Whether two scalars lie less than `threshold` apart.
pub fn is_within(a: Scalar, b: Scalar, threshold: Scalar) -> (r: bool)
    ensures
        r == within(a, b, threshold),
{
    let d: i128 = a as i128 - b as i128;
    let m: u128 = magnitude_wide(d);
    threshold > 0 && m < threshold as u128
}

/// The square root of `n`, rounded down.
pub fn isqrt(n: u128) -> (r: u64)
    ensures
        r == floor_sqrt(n as int),
{
    let mut lo: u128 = 0;
    let mut hi: u128 = 0x1_0000_0000_0000_0000u128;
    assert(n < hi * hi) by (nonlinear_arith)
        requires
            hi == 0x1_0000_0000_0000_0000u128,
            n <= u128::MAX,
    ;
    while hi - lo > 1
        invariant
            lo < hi <= 0x1_0000_0000_0000_0000u128,
            lo * lo <= n,
            n < hi * hi,
        decreases hi - lo,
    {
        let m: u128 = lo + (hi - lo) / 2;
        assert(m * m <= 0xffff_ffff_ffff_ffff * 0xffff_ffff_ffff_ffff) by (nonlinear_arith)
            requires
                0 <= m <= 0xffff_ffff_ffff_ffff,
        ;
        if m * m <= n {
            lo = m;
        } else {
            hi = m;
        }
    }
    proof {
        lemma_floor_sqrt_unique(n as int, lo as int);
    }
    lo as u64
}

} // verus!
