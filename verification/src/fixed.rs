//! Fixed-point arithmetic kernel.
//!
//! Every scalar quantity in this crate is an `i64` holding a count of
//! `1/SCALE` units, so the real value `x` is stored as the integer
//! `x * SCALE`.  All arithmetic is exact integer arithmetic followed by a
//! single floor-rounding step, which the contracts state precisely.

use vstd::prelude::*;

verus! {

use vstd::arithmetic::div_mod::{lemma_fundamental_div_mod, lemma_fundamental_div_mod_converse};

/// Number of fixed-point units in 1.0: scalars are counts of millionths.
pub const SCALE: i64 = 1_000_000;

/// Largest magnitude (in units) that may enter a two-factor product
/// whose rounded result must still fit in an `i64`.
pub const MUL_MAX: i64 = 1_000_000_000_000;

/// Largest magnitude (in units) of matrix entries and coordinates on the
/// determinant / inverse / intersection paths, so that the exact degree-4
/// cofactor polynomials fit in an `i128`.
pub const COORD_MAX: i64 = 300_000_000;

/// Largest magnitude (in units) of an object-space ray component entering
/// the sphere quadratic, so that the exact discriminant fits in an `i128`.
pub const QUAD_MAX: i64 = 1_000_000_000;

/// Largest magnitude (in units) of a ray parameter `t`.
pub const T_MAX: i64 = 10_000_000_000_000_000;

/// Largest magnitude (in units) of a component entering a plain sum.
pub const ADD_MAX: i64 = 4_000_000_000_000_000_000;

/// Largest magnitude (in units) of a component entering a length or
/// normalization, so that the exact squared length fits the square-root
/// range.
pub const NORM_MAX: i64 = 10_000_000_000_000_000;

/// True when `v` lies within `[-b, b]`.
pub open spec fn within(v: int, b: int) -> bool {
    -b <= v && v <= b
}

/// Mathematical floor of `n / d` for nonzero `d` (Euclidean division by a
/// positive divisor is exactly the floor).
pub open spec fn div_floor(n: int, d: int) -> int {
    if d > 0 {
        n / d
    } else {
        (-n) / (-d)
    }
}

/// Exact product of `a` and `b` in units, floored back to the unit grid:
/// the fixed-point product.
pub open spec fn fx_mul_s(a: int, b: int) -> int {
    div_floor(a * b, SCALE as int)
}

/// Fixed-point quotient: the exact rational `a / b` scaled to units and
/// floored.
pub open spec fn fx_div_s(a: int, b: int) -> int {
    div_floor(a * (SCALE as int), b)
}

/// Floor of the real square root of `n` (zero for negative `n`).
pub open spec fn sqrt_floor(n: int) -> int
    decreases n,
{
    if n <= 0 {
        0
    } else {
        let r = sqrt_floor(n - 1);
        if (r + 1) * (r + 1) <= n {
            r + 1
        } else {
            r
        }
    }
}

/// `sqrt_floor(n)` is the integer whose square brackets `n`.
pub proof fn lemma_sqrt_floor_props(n: int)
    requires
        0 <= n,
    ensures
        0 <= sqrt_floor(n),
        sqrt_floor(n) * sqrt_floor(n) <= n,
        n < (sqrt_floor(n) + 1) * (sqrt_floor(n) + 1),
    decreases n,
{
    if n > 0 {
        lemma_sqrt_floor_props(n - 1);
        let r = sqrt_floor(n - 1);
        if (r + 1) * (r + 1) <= n {
            assert(n < (r + 2) * (r + 2)) by (nonlinear_arith)
                requires
                    0 <= r,
                    n - 1 < (r + 1) * (r + 1),
                    (r + 1) * (r + 1) <= n,
            ;
        }
    }
}

/// Any nonnegative integer whose square brackets `n` is `sqrt_floor(n)`.
pub proof fn lemma_sqrt_floor_unique(n: int, r: int)
    requires
        0 <= r,
        r * r <= n,
        n < (r + 1) * (r + 1),
    ensures
        r == sqrt_floor(n),
{
    lemma_sqrt_floor_props(n);
    let s = sqrt_floor(n);
    assert(r == s) by (nonlinear_arith)
        requires
            0 <= r,
            0 <= s,
            r * r <= n,
            n < (r + 1) * (r + 1),
            s * s <= n,
            n < (s + 1) * (s + 1),
    ;
}

/// Floor division of `n` by a positive divisor.
pub fn floor_div(n: i128, d: i128) -> (q: i128)
    requires
        0 < d,
        -0x7fff_ffff_ffff_ffff_ffff_ffff_ffff_ffff <= n,
    ensures
        q == (n as int) / (d as int),
{
    let neg: bool = n < 0;
    let na: u128 = if neg {
        (-n) as u128
    } else {
        n as u128
    };
    let da: u128 = d as u128;
    let qa: u128 = na / da;
    let ra: u128 = na % da;
    proof {
        lemma_fundamental_div_mod(na as int, da as int);
    }
    if neg {
        if ra == 0 {
            let q: i128 = -(qa as i128);
            proof {
                assert(n as int == (-(qa as int)) * (da as int) + 0) by (nonlinear_arith)
                    requires
                        na as int == (da as int) * ((na as int) / (da as int)) + (na as int) % (
                        da as int),
                        qa as int == (na as int) / (da as int),
                        ra as int == (na as int) % (da as int),
                        ra == 0,
                        n as int == -(na as int),
                ;
                lemma_fundamental_div_mod_converse(n as int, da as int, -(qa as int), 0);
            }
            q
        } else {
            let q: i128 = -(qa as i128) - 1;
            proof {
                assert(n as int == (-(qa as int) - 1) * (da as int) + ((da as int) - (
                ra as int))) by (nonlinear_arith)
                    requires
                        na as int == (da as int) * ((na as int) / (da as int)) + (na as int) % (
                        da as int),
                        qa as int == (na as int) / (da as int),
                        ra as int == (na as int) % (da as int),
                        n as int == -(na as int),
                ;
                lemma_fundamental_div_mod_converse(
                    n as int,
                    da as int,
                    -(qa as int) - 1,
                    (da as int) - (ra as int),
                );
            }
            q
        }
    } else {
        qa as i128
    }
}

/// Floor of the square root of `n`, by bisection.
pub fn isqrt(n: u128) -> (r: u128)
    requires
        n < 0x4000_0000_0000_0000_0000_0000_0000_0000,
    ensures
        (r as int) * (r as int) <= n as int,
        (n as int) < ((r as int) + 1) * ((r as int) + 1),
        r < 0x8000_0000_0000_0000,
{
    let mut lo: u128 = 0;
    let mut hi: u128 = 0x8000_0000_0000_0000;
    proof {
        assert((hi as int) * (hi as int) == 0x4000_0000_0000_0000_0000_0000_0000_0000int)
            by (nonlinear_arith)
            requires
                hi == 0x8000_0000_0000_0000u128,
        ;
    }
    while hi - lo > 1
        invariant
            lo < hi,
            hi <= 0x8000_0000_0000_0000,
            (lo as int) * (lo as int) <= n as int,
            (n as int) < (hi as int) * (hi as int),
        decreases hi - lo,
    {
        let mid: u128 = lo + (hi - lo) / 2;
        proof {
            assert((mid as int) * (mid as int)
                <= 0x4000_0000_0000_0000_0000_0000_0000_0000int) by (nonlinear_arith)
                requires
                    mid <= 0x8000_0000_0000_0000u128,
            ;
        }
        if mid * mid <= n {
            lo = mid;
        } else {
            hi = mid;
        }
    }
    lo
}

/// Fixed-point product with a single floor rounding.
pub fn fx_mul(a: i64, b: i64) -> (r: i64)
    requires
        within(a as int, MUL_MAX as int),
        within(b as int, MUL_MAX as int),
    ensures
        r as int == fx_mul_s(a as int, b as int),
        within(r as int, 1_000_000_000_000_000_000),
{
    proof {
        assert(within((a as int) * (b as int), 0x4000_0000_0000_0000_0000_0000_0000_0000int))
            by (nonlinear_arith)
            requires
                within(a as int, 0x8000_0000_0000_0000int),
                within(b as int, 0x8000_0000_0000_0000int),
        ;
    }
    let p: i128 = (a as i128) * (b as i128);
    proof {
        assert(within(p as int, 1_000_000_000_000_000_000_000_000int)) by (nonlinear_arith)
            requires
                p == (a as int) * (b as int),
                within(a as int, MUL_MAX as int),
                within(b as int, MUL_MAX as int),
        ;
        lemma_div_floor_bounded(p as int, SCALE as int, 1_000_000_000_000_000_000_000_000int);
    }
    let q: i128 = floor_div(p, SCALE as i128);
    q as i64
}

/// Exact four-term dot product in units, floored once back to the unit
/// grid: the fixed-point row-by-column product.
pub open spec fn fx_dot4_s(
    ax: int,
    ay: int,
    az: int,
    aw: int,
    bx: int,
    by: int,
    bz: int,
    bw: int,
) -> int {
    div_floor(ax * bx + ay * by + az * bz + aw * bw, SCALE as int)
}

/// Four-term dot product with a single floor rounding.
#[allow(clippy::too_many_arguments)]
pub fn fx_dot4(ax: i64, ay: i64, az: i64, aw: i64, bx: i64, by: i64, bz: i64, bw: i64) -> (r: i64)
    requires
        within(ax as int, MUL_MAX as int),
        within(ay as int, MUL_MAX as int),
        within(az as int, MUL_MAX as int),
        within(aw as int, MUL_MAX as int),
        within(bx as int, MUL_MAX as int),
        within(by as int, MUL_MAX as int),
        within(bz as int, MUL_MAX as int),
        within(bw as int, MUL_MAX as int),
    ensures
        r as int == fx_dot4_s(
            ax as int,
            ay as int,
            az as int,
            aw as int,
            bx as int,
            by as int,
            bz as int,
            bw as int,
        ),
        within(r as int, 4_000_000_000_000_000_000),
{
    proof {
        lemma_mul_bounded(ax as int, bx as int, MUL_MAX as int, MUL_MAX as int);
        lemma_mul_bounded(ay as int, by as int, MUL_MAX as int, MUL_MAX as int);
        lemma_mul_bounded(az as int, bz as int, MUL_MAX as int, MUL_MAX as int);
        lemma_mul_bounded(aw as int, bw as int, MUL_MAX as int, MUL_MAX as int);
    }
    let p: i128 = (ax as i128) * (bx as i128) + (ay as i128) * (by as i128) + (az as i128) * (
    bz as i128) + (aw as i128) * (bw as i128);
    proof {
        lemma_div_floor_bounded(p as int, SCALE as int, 4_000_000_000_000_000_000_000_000int);
    }
    let q: i128 = floor_div(p, SCALE as i128);
    q as i64
}

/// Fixed-point quotient with a single floor rounding.
pub fn fx_div(a: i64, b: i64) -> (r: i64)
    requires
        b != 0,
        within(a as int, MUL_MAX as int),
    ensures
        r as int == fx_div_s(a as int, b as int),
        within(r as int, 1_000_000_000_000_000_000),
{
    let p: i128 = (a as i128) * (SCALE as i128);
    proof {
        assert(within(p as int, 1_000_000_000_000_000_000int)) by (nonlinear_arith)
            requires
                within(a as int, 1_000_000_000_000int),
                p as int == (a as int) * 1_000_000int,
        ;
    }
    if b > 0 {
        proof {
            lemma_div_floor_bounded(p as int, b as int, 1_000_000_000_000_000_000int);
        }
        let q: i128 = floor_div(p, b as i128);
        q as i64
    } else {
        proof {
            lemma_div_floor_bounded(-(p as int), -(b as int), 1_000_000_000_000_000_000int);
        }
        let q: i128 = floor_div(-p, -(b as i128));
        q as i64
    }
}

/// A floor quotient of a bounded dividend by a positive divisor stays
/// within the dividend's bound.
pub proof fn lemma_div_floor_bounded(n: int, d: int, b: int)
    requires
        0 < d,
        0 <= b,
        within(n, b),
    ensures
        within(n / d, b),
{
    lemma_fundamental_div_mod(n, d);
    assert(within(n / d, b)) by (nonlinear_arith)
        requires
            0 < d,
            0 <= b,
            within(n, b),
            n == d * (n / d) + n % d,
            0 <= n % d < d,
    ;
}

/// A floor quotient of a bounded dividend shrinks with the divisor.
pub proof fn lemma_div_floor_mag(n: int, d: int, b: int)
    requires
        0 < d,
        0 <= b,
        within(n, b),
    ensures
        within(n / d, b / d + 1),
{
    lemma_fundamental_div_mod(n, d);
    lemma_fundamental_div_mod(b, d);
    assert(within(n / d, b / d + 1)) by (nonlinear_arith)
        requires
            0 < d,
            0 <= b,
            within(n, b),
            n == d * (n / d) + n % d,
            0 <= n % d < d,
            b == d * (b / d) + b % d,
            0 <= b % d < d,
    ;
}

/// A floor quotient of a dividend bounded by an exact multiple of the
/// divisor stays within the corresponding multiple.
pub proof fn lemma_div_floor_exact_bound(n: int, d: int, k: int)
    requires
        0 < d,
        0 <= k,
        within(n, k * d),
    ensures
        within(n / d, k),
{
    lemma_fundamental_div_mod(n, d);
    assert(within(n / d, k)) by (nonlinear_arith)
        requires
            0 < d,
            0 <= k,
            within(n, k * d),
            n == d * (n / d) + n % d,
            0 <= n % d < d,
    ;
}

/// Magnitude bound for a product of bounded factors.
pub proof fn lemma_mul_bounded(a: int, b: int, ba: int, bb: int)
    by (nonlinear_arith)
    requires
        within(a, ba),
        within(b, bb),
        0 <= ba,
        0 <= bb,
    ensures
        within(a * b, ba * bb),
{
}

/// Magnitude bound for a fixed-point product of bounded factors.
pub proof fn lemma_fx_mul_s_bound(a: int, b: int, ba: int, bb: int)
    requires
        within(a, ba),
        within(b, bb),
        0 <= ba,
        0 <= bb,
    ensures
        within(fx_mul_s(a, b), (ba * bb) / (SCALE as int) + 1),
{
    lemma_mul_bounded(a, b, ba, bb);
    lemma_div_floor_mag(a * b, SCALE as int, ba * bb);
}

/// Magnitude bound for a fixed-point dot product of bounded factors.
#[allow(clippy::too_many_arguments)]
pub proof fn lemma_fx_dot4_s_bound(
    ax: int,
    ay: int,
    az: int,
    aw: int,
    bx: int,
    by: int,
    bz: int,
    bw: int,
    ba: int,
    bb: int,
)
    requires
        within(ax, ba),
        within(ay, ba),
        within(az, ba),
        within(aw, ba),
        within(bx, bb),
        within(by, bb),
        within(bz, bb),
        within(bw, bb),
        0 <= ba,
        0 <= bb,
    ensures
        within(fx_dot4_s(ax, ay, az, aw, bx, by, bz, bw), (4 * (ba * bb)) / (SCALE as int) + 1),
{
    lemma_mul_bounded(ax, bx, ba, bb);
    lemma_mul_bounded(ay, by, ba, bb);
    lemma_mul_bounded(az, bz, ba, bb);
    lemma_mul_bounded(aw, bw, ba, bb);
    lemma_div_floor_mag(ax * bx + ay * by + az * bz + aw * bw, SCALE as int, 4 * (ba * bb));
}

} // verus!
