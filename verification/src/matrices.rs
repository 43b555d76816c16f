//! Fixed 4x4 (and working 3x3 / 2x2) matrix kernel: transpose,
//! submatrices, cofactor-expansion determinants and inversion by the
//! adjugate, every result a single floor rounding away from the exact
//! rational value, which the contracts state entry by entry.

use vstd::prelude::*;

verus! {

use vstd::arithmetic::div_mod::lemma_div_multiples_vanish;
use crate::comparison::approx_eq::{approx_eq_epsilon, approx_eq_s};
use crate::comparison::epsilon::EPSILON;
use crate::fixed::{
    div_floor, floor_div, fx_dot4, fx_dot4_s, lemma_div_floor_mag, lemma_mul_bounded, within,
    COORD_MAX, MUL_MAX,
    SCALE,
};
use crate::tuple::{tuple_within, Tuple};

/// `SCALE * SCALE`: the scale of a two-factor product of units.
pub const SCALE_SQ: i64 = 1_000_000_000_000;

/// `SCALE^3`: the scale of a three-factor product of units.
pub const SCALE_CUBE: i64 = 1_000_000_000_000_000_000;

/// Largest magnitude an `i64` entry can carry: the only ceiling on an
/// inverse entry is that it be representable at all.
pub const ENTRY_MAX: i64 = 9_223_372_036_854_775_807;

/// A 4x4 matrix of fixed-point scalars, row major.
#[derive(Clone, Copy, Debug)]
pub struct Matrix4 {
    pub m00: i64,
    pub m01: i64,
    pub m02: i64,
    pub m03: i64,
    pub m10: i64,
    pub m11: i64,
    pub m12: i64,
    pub m13: i64,
    pub m20: i64,
    pub m21: i64,
    pub m22: i64,
    pub m23: i64,
    pub m30: i64,
    pub m31: i64,
    pub m32: i64,
    pub m33: i64,
}

/// A working 3x3 matrix, row major.
#[derive(Clone, Copy, Debug)]
pub struct Matrix3 {
    pub m00: i64,
    pub m01: i64,
    pub m02: i64,
    pub m10: i64,
    pub m11: i64,
    pub m12: i64,
    pub m20: i64,
    pub m21: i64,
    pub m22: i64,
}

/// A working 2x2 matrix, row major.
#[derive(Clone, Copy, Debug)]
pub struct Matrix2 {
    pub m00: i64,
    pub m01: i64,
    pub m10: i64,
    pub m11: i64,
}

/// Entry of a 4x4 matrix at `(r, c)` as a mathematical integer.
pub open spec fn spec_at4(m: Matrix4, r: int, c: int) -> int {
    if r == 0 {
        if c == 0 {
            m.m00 as int
        } else if c == 1 {
            m.m01 as int
        } else if c == 2 {
            m.m02 as int
        } else {
            m.m03 as int
        }
    } else if r == 1 {
        if c == 0 {
            m.m10 as int
        } else if c == 1 {
            m.m11 as int
        } else if c == 2 {
            m.m12 as int
        } else {
            m.m13 as int
        }
    } else if r == 2 {
        if c == 0 {
            m.m20 as int
        } else if c == 1 {
            m.m21 as int
        } else if c == 2 {
            m.m22 as int
        } else {
            m.m23 as int
        }
    } else {
        if c == 0 {
            m.m30 as int
        } else if c == 1 {
            m.m31 as int
        } else if c == 2 {
            m.m32 as int
        } else {
            m.m33 as int
        }
    }
}

/// Entry of a 3x3 matrix at `(r, c)` as a mathematical integer.
pub open spec fn spec_at3(m: Matrix3, r: int, c: int) -> int {
    if r == 0 {
        if c == 0 {
            m.m00 as int
        } else if c == 1 {
            m.m01 as int
        } else {
            m.m02 as int
        }
    } else if r == 1 {
        if c == 0 {
            m.m10 as int
        } else if c == 1 {
            m.m11 as int
        } else {
            m.m12 as int
        }
    } else {
        if c == 0 {
            m.m20 as int
        } else if c == 1 {
            m.m21 as int
        } else {
            m.m22 as int
        }
    }
}

/// Index into the surviving rows or columns after one is removed.
pub open spec fn spec_skip(k: int, removed: int) -> int {
    if k < removed {
        k
    } else {
        k + 1
    }
}

/// Closed-form 2x2 determinant `a*d - b*c`, exact.
pub open spec fn spec_det2x(a: int, b: int, c: int, d: int) -> int {
    a * d - b * c
}

/// 3x3 determinant by cofactor expansion along the first row, exact.
#[allow(clippy::too_many_arguments)]
pub open spec fn spec_det3x(
    e00: int,
    e01: int,
    e02: int,
    e10: int,
    e11: int,
    e12: int,
    e20: int,
    e21: int,
    e22: int,
) -> int {
    e00 * spec_det2x(e11, e12, e21, e22) - e01 * spec_det2x(e10, e12, e20, e22) + e02
        * spec_det2x(e10, e11, e20, e21)
}

/// Exact numerator (in `SCALE^3` units) of the minor at `(r, c)` of a
/// 4x4 matrix: the determinant of the submatrix that drops row `r` and
/// column `c`.
pub open spec fn spec_minor4_num(m: Matrix4, r: int, c: int) -> int {
    spec_det3x(
        spec_at4(m, spec_skip(0, r), spec_skip(0, c)),
        spec_at4(m, spec_skip(0, r), spec_skip(1, c)),
        spec_at4(m, spec_skip(0, r), spec_skip(2, c)),
        spec_at4(m, spec_skip(1, r), spec_skip(0, c)),
        spec_at4(m, spec_skip(1, r), spec_skip(1, c)),
        spec_at4(m, spec_skip(1, r), spec_skip(2, c)),
        spec_at4(m, spec_skip(2, r), spec_skip(0, c)),
        spec_at4(m, spec_skip(2, r), spec_skip(1, c)),
        spec_at4(m, spec_skip(2, r), spec_skip(2, c)),
    )
}

/// Exact numerator of the cofactor at `(r, c)`: the minor, negated
/// when `r + c` is odd.
pub open spec fn spec_cof4_num(m: Matrix4, r: int, c: int) -> int {
    if (r + c) % 2 == 0 {
        spec_minor4_num(m, r, c)
    } else {
        -spec_minor4_num(m, r, c)
    }
}

/// Exact numerator (in `SCALE^4` units) of the 4x4 determinant, by
/// cofactor expansion along the first row.
pub open spec fn spec_det4_num(m: Matrix4) -> int {
    spec_at4(m, 0, 0) * spec_cof4_num(m, 0, 0) + spec_at4(m, 0, 1) * spec_cof4_num(m, 0, 1) + spec_at4(m, 0, 2) * spec_cof4_num(m, 0, 2)
        + spec_at4(m, 0, 3) * spec_cof4_num(m, 0, 3)
}

/// The determinant as a fixed-point scalar: the exact numerator
/// floored back to the unit grid.
pub open spec fn spec_det4_scaled(m: Matrix4) -> int {
    div_floor(spec_det4_num(m), SCALE_CUBE as int)
}

/// The minor at `(r, c)` as a fixed-point scalar.
pub open spec fn spec_minor4_scaled(m: Matrix4, r: int, c: int) -> int {
    div_floor(spec_minor4_num(m, r, c), SCALE_SQ as int)
}

/// The cofactor at `(r, c)` as a fixed-point scalar: the scaled minor,
/// negated when `r + c` is odd.
pub open spec fn spec_cof4_scaled(m: Matrix4, r: int, c: int) -> int {
    if (r + c) % 2 == 0 {
        spec_minor4_scaled(m, r, c)
    } else {
        -spec_minor4_scaled(m, r, c)
    }
}

/// A matrix counts as invertible when its determinant is not within
/// the standard tolerance of zero.
pub open spec fn spec_invertible(m: Matrix4) -> bool {
    !approx_eq_s(spec_det4_scaled(m), 0, EPSILON as int)
}

/// Entry `(i, j)` of the inverse: cofactor of the transposed position
/// over the determinant, as one exact rational floored to units.
pub open spec fn spec_inv_entry(m: Matrix4, i: int, j: int) -> int {
    div_floor(spec_cof4_num(m, j, i) * (SCALE_SQ as int), spec_det4_num(m))
}

/// All sixteen inverse entries are representable as `i64` unit counts.
pub open spec fn spec_inv_within(m: Matrix4) -> bool {
    &&& within(spec_inv_entry(m, 0, 0), ENTRY_MAX as int)
    &&& within(spec_inv_entry(m, 0, 1), ENTRY_MAX as int)
    &&& within(spec_inv_entry(m, 0, 2), ENTRY_MAX as int)
    &&& within(spec_inv_entry(m, 0, 3), ENTRY_MAX as int)
    &&& within(spec_inv_entry(m, 1, 0), ENTRY_MAX as int)
    &&& within(spec_inv_entry(m, 1, 1), ENTRY_MAX as int)
    &&& within(spec_inv_entry(m, 1, 2), ENTRY_MAX as int)
    &&& within(spec_inv_entry(m, 1, 3), ENTRY_MAX as int)
    &&& within(spec_inv_entry(m, 2, 0), ENTRY_MAX as int)
    &&& within(spec_inv_entry(m, 2, 1), ENTRY_MAX as int)
    &&& within(spec_inv_entry(m, 2, 2), ENTRY_MAX as int)
    &&& within(spec_inv_entry(m, 2, 3), ENTRY_MAX as int)
    &&& within(spec_inv_entry(m, 3, 0), ENTRY_MAX as int)
    &&& within(spec_inv_entry(m, 3, 1), ENTRY_MAX as int)
    &&& within(spec_inv_entry(m, 3, 2), ENTRY_MAX as int)
    &&& within(spec_inv_entry(m, 3, 3), ENTRY_MAX as int)
}

/// Every entry lies within `[-b, b]` units.
pub open spec fn spec_entries_within4(m: Matrix4, b: int) -> bool {
    &&& within(m.m00 as int, b)
    &&& within(m.m01 as int, b)
    &&& within(m.m02 as int, b)
    &&& within(m.m03 as int, b)
    &&& within(m.m10 as int, b)
    &&& within(m.m11 as int, b)
    &&& within(m.m12 as int, b)
    &&& within(m.m13 as int, b)
    &&& within(m.m20 as int, b)
    &&& within(m.m21 as int, b)
    &&& within(m.m22 as int, b)
    &&& within(m.m23 as int, b)
    &&& within(m.m30 as int, b)
    &&& within(m.m31 as int, b)
    &&& within(m.m32 as int, b)
    &&& within(m.m33 as int, b)
}

/// Every entry lies within `[-b, b]` units.
pub open spec fn spec_entries_within3(m: Matrix3, b: int) -> bool {
    &&& within(m.m00 as int, b)
    &&& within(m.m01 as int, b)
    &&& within(m.m02 as int, b)
    &&& within(m.m10 as int, b)
    &&& within(m.m11 as int, b)
    &&& within(m.m12 as int, b)
    &&& within(m.m20 as int, b)
    &&& within(m.m21 as int, b)
    &&& within(m.m22 as int, b)
}

/// Every entry lies within `[-b, b]` units.
pub open spec fn spec_entries_within2(m: Matrix2, b: int) -> bool {
    &&& within(m.m00 as int, b)
    &&& within(m.m01 as int, b)
    &&& within(m.m10 as int, b)
    &&& within(m.m11 as int, b)
}

/// The multiplicative identity: ones (one `SCALE`) on the diagonal.
pub open spec fn spec_identity() -> Matrix4 {
    Matrix4 {
        m00: SCALE,
        m01: 0,
        m02: 0,
        m03: 0,
        m10: 0,
        m11: SCALE,
        m12: 0,
        m13: 0,
        m20: 0,
        m21: 0,
        m22: SCALE,
        m23: 0,
        m30: 0,
        m31: 0,
        m32: 0,
        m33: SCALE,
    }
}

/// The transpose: rows and columns exchanged, no arithmetic.
pub open spec fn spec_transpose4(m: Matrix4) -> Matrix4 {
    Matrix4 {
        m00: m.m00,
        m01: m.m10,
        m02: m.m20,
        m03: m.m30,
        m10: m.m01,
        m11: m.m11,
        m12: m.m21,
        m13: m.m31,
        m20: m.m02,
        m21: m.m12,
        m22: m.m22,
        m23: m.m32,
        m30: m.m03,
        m31: m.m13,
        m32: m.m23,
        m33: m.m33,
    }
}

/// The whole matrix product, entry by entry.
pub open spec fn spec_matmul(a: Matrix4, b: Matrix4) -> Matrix4 {
    Matrix4 {
        m00: spec_mul_entry(a, b, 0, 0) as i64,
        m01: spec_mul_entry(a, b, 0, 1) as i64,
        m02: spec_mul_entry(a, b, 0, 2) as i64,
        m03: spec_mul_entry(a, b, 0, 3) as i64,
        m10: spec_mul_entry(a, b, 1, 0) as i64,
        m11: spec_mul_entry(a, b, 1, 1) as i64,
        m12: spec_mul_entry(a, b, 1, 2) as i64,
        m13: spec_mul_entry(a, b, 1, 3) as i64,
        m20: spec_mul_entry(a, b, 2, 0) as i64,
        m21: spec_mul_entry(a, b, 2, 1) as i64,
        m22: spec_mul_entry(a, b, 2, 2) as i64,
        m23: spec_mul_entry(a, b, 2, 3) as i64,
        m30: spec_mul_entry(a, b, 3, 0) as i64,
        m31: spec_mul_entry(a, b, 3, 1) as i64,
        m32: spec_mul_entry(a, b, 3, 2) as i64,
        m33: spec_mul_entry(a, b, 3, 3) as i64,
    }
}

/// The whole matrix-tuple product, component by component.
pub open spec fn spec_mat_tuple(m: Matrix4, t: Tuple) -> Tuple {
    Tuple {
        x: spec_mv(m, t, 0) as i64,
        y: spec_mv(m, t, 1) as i64,
        z: spec_mv(m, t, 2) as i64,
        w: spec_mv(m, t, 3) as i64,
    }
}

/// The inverse matrix in the model, entry by entry.
pub open spec fn spec_inverse4(m: Matrix4) -> Matrix4 {
    Matrix4 {
        m00: spec_inv_entry(m, 0, 0) as i64,
        m01: spec_inv_entry(m, 0, 1) as i64,
        m02: spec_inv_entry(m, 0, 2) as i64,
        m03: spec_inv_entry(m, 0, 3) as i64,
        m10: spec_inv_entry(m, 1, 0) as i64,
        m11: spec_inv_entry(m, 1, 1) as i64,
        m12: spec_inv_entry(m, 1, 2) as i64,
        m13: spec_inv_entry(m, 1, 3) as i64,
        m20: spec_inv_entry(m, 2, 0) as i64,
        m21: spec_inv_entry(m, 2, 1) as i64,
        m22: spec_inv_entry(m, 2, 2) as i64,
        m23: spec_inv_entry(m, 2, 3) as i64,
        m30: spec_inv_entry(m, 3, 0) as i64,
        m31: spec_inv_entry(m, 3, 1) as i64,
        m32: spec_inv_entry(m, 3, 2) as i64,
        m33: spec_inv_entry(m, 3, 3) as i64,
    }
}

/// Entry `(i, j)` of a matrix product: the fixed-point row-by-column
/// dot product.
pub open spec fn spec_mul_entry(a: Matrix4, b: Matrix4, i: int, j: int) -> int {
    fx_dot4_s(
        spec_at4(a, i, 0),
        spec_at4(a, i, 1),
        spec_at4(a, i, 2),
        spec_at4(a, i, 3),
        spec_at4(b, 0, j),
        spec_at4(b, 1, j),
        spec_at4(b, 2, j),
        spec_at4(b, 3, j),
    )
}

/// Component `i` of a matrix-tuple product, as a fixed-point scalar.
pub open spec fn spec_mv(m: Matrix4, t: Tuple, i: int) -> int {
    fx_dot4_s(
        spec_at4(m, i, 0),
        spec_at4(m, i, 1),
        spec_at4(m, i, 2),
        spec_at4(m, i, 3),
        t.x as int,
        t.y as int,
        t.z as int,
        t.w as int,
    )
}

/// All four exact (pre-cast) components of a matrix-tuple product lie
/// within `[-b, b]`.
pub open spec fn spec_mv_within(m: Matrix4, t: Tuple, b: int) -> bool {
    &&& within(spec_mv(m, t, 0), b)
    &&& within(spec_mv(m, t, 1), b)
    &&& within(spec_mv(m, t, 2), b)
    &&& within(spec_mv(m, t, 3), b)
}

/// Component `i` of a tuple, as a mathematical integer.
pub open spec fn spec_comp(t: Tuple, i: int) -> int {
    if i == 0 {
        t.x as int
    } else if i == 1 {
        t.y as int
    } else if i == 2 {
        t.z as int
    } else {
        t.w as int
    }
}

/// Exact (pre-rounding) component `i` of `M * T`.
pub open spec fn spec_mv_num(m: Matrix4, t: Tuple, i: int) -> int {
    spec_at4(m, i, 0) * (t.x as int) + spec_at4(m, i, 1) * (t.y as int) + spec_at4(m, i, 2) * (
    t.z as int) + spec_at4(m, i, 3) * (t.w as int)
}

/// Entry `(i, j)` of (adjugate of `m`) times `m`, exactly: the sums
/// whose collapse to `det * identity` underpins inversion.
pub open spec fn spec_adj_mul_entry(m: Matrix4, i: int, j: int) -> int {
    spec_cof4_num(m, 0, i) * spec_at4(m, 0, j) + spec_cof4_num(m, 1, i) * spec_at4(m, 1, j) + spec_cof4_num(m, 2, i) * spec_at4(m, 2, j) + spec_cof4_num(m, 3, i) * spec_at4(m, 3, j)
}

/// Exact component `i` of the adjugate applied to `M * T`.
pub open spec fn spec_rt_num(m: Matrix4, t: Tuple, i: int) -> int {
    spec_cof4_num(m, 0, i) * spec_mv_num(m, t, 0) + spec_cof4_num(m, 1, i) * spec_mv_num(m, t, 1) + spec_cof4_num(m, 2, i) * spec_mv_num(m, t, 2)
        + spec_cof4_num(m, 3, i) * spec_mv_num(m, t, 3)
}

/// Any in-range entry of an in-range matrix is in range.
proof fn lemma_at4_bounded(m: Matrix4, r: int, c: int, b: int)
    requires
        spec_entries_within4(m, b),
    ensures
        within(spec_at4(m, r, c), b),
{
}

/// Exact 3x3 determinant over `i128` numerators.
#[allow(clippy::too_many_arguments)]
fn det3i(
    e00: i128,
    e01: i128,
    e02: i128,
    e10: i128,
    e11: i128,
    e12: i128,
    e20: i128,
    e21: i128,
    e22: i128,
) -> (r: i128)
    requires
        within(e00 as int, COORD_MAX as int),
        within(e01 as int, COORD_MAX as int),
        within(e02 as int, COORD_MAX as int),
        within(e10 as int, COORD_MAX as int),
        within(e11 as int, COORD_MAX as int),
        within(e12 as int, COORD_MAX as int),
        within(e20 as int, COORD_MAX as int),
        within(e21 as int, COORD_MAX as int),
        within(e22 as int, COORD_MAX as int),
    ensures
        r as int == spec_det3x(
            e00 as int,
            e01 as int,
            e02 as int,
            e10 as int,
            e11 as int,
            e12 as int,
            e20 as int,
            e21 as int,
            e22 as int,
        ),
        within(r as int, 162_000_000_000_000_000_000_000_000),
{
    proof {
        lemma_mul_bounded(e11 as int, e22 as int, COORD_MAX as int, COORD_MAX as int);
        lemma_mul_bounded(e12 as int, e21 as int, COORD_MAX as int, COORD_MAX as int);
        lemma_mul_bounded(e10 as int, e22 as int, COORD_MAX as int, COORD_MAX as int);
        lemma_mul_bounded(e12 as int, e20 as int, COORD_MAX as int, COORD_MAX as int);
        lemma_mul_bounded(e10 as int, e21 as int, COORD_MAX as int, COORD_MAX as int);
        lemma_mul_bounded(e11 as int, e20 as int, COORD_MAX as int, COORD_MAX as int);
        lemma_mul_bounded(
            e00 as int,
            e11 as int * e22 as int - e12 as int * e21 as int,
            COORD_MAX as int,
            180_000_000_000_000_000,
        );
        lemma_mul_bounded(
            e01 as int,
            e10 as int * e22 as int - e12 as int * e20 as int,
            COORD_MAX as int,
            180_000_000_000_000_000,
        );
        lemma_mul_bounded(
            e02 as int,
            e10 as int * e21 as int - e11 as int * e20 as int,
            COORD_MAX as int,
            180_000_000_000_000_000,
        );
    }
    e00 * (e11 * e22 - e12 * e21) - e01 * (e10 * e22 - e12 * e20) + e02 * (e10 * e21 - e11
        * e20)
}

impl Matrix2 {
    pub fn new() -> (r: Self)
        ensures
            r == (Matrix2 { m00: 0, m01: 0, m10: 0, m11: 0 }),
    {
        Matrix2 { m00: 0, m01: 0, m10: 0, m11: 0 }
    }

    /// Closed-form 2x2 determinant `a*d - b*c`, floored once.
    pub fn determinant(&self) -> (r: i64)
        requires
            spec_entries_within2(*self, MUL_MAX as int),
        ensures
            r as int == div_floor(
                spec_det2x(self.m00 as int, self.m01 as int, self.m10 as int, self.m11 as int),
                SCALE as int,
            ),
            within(r as int, 2_000_000_000_000_000_001),
    {
        proof {
            assert({
                &&& within(self.m00 as int * self.m11 as int, 1_000_000_000_000_000_000_000_000)
                &&& within(self.m01 as int * self.m10 as int, 1_000_000_000_000_000_000_000_000)
                &&& within(
                    self.m00 as int * self.m11 as int - self.m01 as int * self.m10 as int,
                    2_000_000_000_000_000_000_000_000,
                )
            }) by (nonlinear_arith)
                requires
                    within(self.m00 as int, 1_000_000_000_000int),
                    within(self.m01 as int, 1_000_000_000_000int),
                    within(self.m10 as int, 1_000_000_000_000int),
                    within(self.m11 as int, 1_000_000_000_000int),
            ;
            lemma_div_floor_mag(
                self.m00 as int * self.m11 as int - self.m01 as int * self.m10 as int,
                SCALE as int,
                2_000_000_000_000_000_000_000_000,
            );
        }
        let d: i128 = (self.m00 as i128) * (self.m11 as i128) - (self.m01 as i128) * (
        self.m10 as i128);
        let q: i128 = floor_div(d, SCALE as i128);
        q as i64
    }
}

impl Matrix3 {
    pub fn new() -> (r: Self)
        ensures
            r == (Matrix3 { m00: 0, m01: 0, m02: 0, m10: 0, m11: 0, m12: 0, m20: 0, m21: 0, m22: 0 }),
    {
        Matrix3 { m00: 0, m01: 0, m02: 0, m10: 0, m11: 0, m12: 0, m20: 0, m21: 0, m22: 0 }
    }

    /// The 2x2 matrix left after deleting one row and one column.
    pub fn submatrix(&self, row_to_remove: usize, col_to_remove: usize) -> (r: Matrix2)
        requires
            row_to_remove < 3,
            col_to_remove < 3,
        ensures
            r.m00 as int == spec_at3(
                *self,
                spec_skip(0, row_to_remove as int),
                spec_skip(0, col_to_remove as int),
            ),
            r.m01 as int == spec_at3(
                *self,
                spec_skip(0, row_to_remove as int),
                spec_skip(1, col_to_remove as int),
            ),
            r.m10 as int == spec_at3(
                *self,
                spec_skip(1, row_to_remove as int),
                spec_skip(0, col_to_remove as int),
            ),
            r.m11 as int == spec_at3(
                *self,
                spec_skip(1, row_to_remove as int),
                spec_skip(1, col_to_remove as int),
            ),
    {
        if row_to_remove == 0 {
            if col_to_remove == 0 {
                Matrix2 { m00: self.m11, m01: self.m12, m10: self.m21, m11: self.m22 }
            } else if col_to_remove == 1 {
                Matrix2 { m00: self.m10, m01: self.m12, m10: self.m20, m11: self.m22 }
            } else {
                Matrix2 { m00: self.m10, m01: self.m11, m10: self.m20, m11: self.m21 }
            }
        } else if row_to_remove == 1 {
            if col_to_remove == 0 {
                Matrix2 { m00: self.m01, m01: self.m02, m10: self.m21, m11: self.m22 }
            } else if col_to_remove == 1 {
                Matrix2 { m00: self.m00, m01: self.m02, m10: self.m20, m11: self.m22 }
            } else {
                Matrix2 { m00: self.m00, m01: self.m01, m10: self.m20, m11: self.m21 }
            }
        } else {
            if col_to_remove == 0 {
                Matrix2 { m00: self.m01, m01: self.m02, m10: self.m11, m11: self.m12 }
            } else if col_to_remove == 1 {
                Matrix2 { m00: self.m00, m01: self.m02, m10: self.m10, m11: self.m12 }
            } else {
                Matrix2 { m00: self.m00, m01: self.m01, m10: self.m10, m11: self.m11 }
            }
        }
    }

    /// Determinant of the submatrix at `(row, col)`, floored once.
    pub fn minor(&self, row: usize, col: usize) -> (r: i64)
        requires
            row < 3,
            col < 3,
            spec_entries_within3(*self, COORD_MAX as int),
        ensures
            r as int == div_floor(
                spec_det2x(
                    spec_at3(*self, spec_skip(0, row as int), spec_skip(0, col as int)),
                    spec_at3(*self, spec_skip(0, row as int), spec_skip(1, col as int)),
                    spec_at3(*self, spec_skip(1, row as int), spec_skip(0, col as int)),
                    spec_at3(*self, spec_skip(1, row as int), spec_skip(1, col as int)),
                ),
                SCALE as int,
            ),
            within(r as int, 2_000_000_000_000_000_001),
    {
        let s = self.submatrix(row, col);
        s.determinant()
    }

    /// The minor at `(row, col)`, negated when `row + col` is odd.
    pub fn cofactor(&self, row: usize, col: usize) -> (r: i64)
        requires
            row < 3,
            col < 3,
            spec_entries_within3(*self, COORD_MAX as int),
        ensures
            ({
                let mn = div_floor(
                    spec_det2x(
                        spec_at3(*self, spec_skip(0, row as int), spec_skip(0, col as int)),
                        spec_at3(*self, spec_skip(0, row as int), spec_skip(1, col as int)),
                        spec_at3(*self, spec_skip(1, row as int), spec_skip(0, col as int)),
                        spec_at3(*self, spec_skip(1, row as int), spec_skip(1, col as int)),
                    ),
                    SCALE as int,
                );
                r as int == if (row as int + col as int) % 2 == 0 {
                    mn
                } else {
                    -mn
                }
            }),
    {
        let mn = self.minor(row, col);
        if (row + col) % 2 == 0 {
            mn
        } else {
            -mn
        }
    }

    /// 3x3 determinant by cofactor expansion, floored once.
    pub fn determinant(&self) -> (r: i64)
        requires
            spec_entries_within3(*self, COORD_MAX as int),
        ensures
            r as int == div_floor(
                spec_det3x(
                    self.m00 as int,
                    self.m01 as int,
                    self.m02 as int,
                    self.m10 as int,
                    self.m11 as int,
                    self.m12 as int,
                    self.m20 as int,
                    self.m21 as int,
                    self.m22 as int,
                ),
                SCALE_SQ as int,
            ),
            within(r as int, 162_000_000_000_001),
    {
        let d: i128 = det3i(
            self.m00 as i128,
            self.m01 as i128,
            self.m02 as i128,
            self.m10 as i128,
            self.m11 as i128,
            self.m12 as i128,
            self.m20 as i128,
            self.m21 as i128,
            self.m22 as i128,
        );
        proof {
            lemma_div_floor_mag(d as int, SCALE_SQ as int, 162_000_000_000_000_000_000_000_000);
        }
        let q: i128 = floor_div(d, SCALE_SQ as i128);
        q as i64
    }
}

impl Matrix4 {
    pub fn new() -> (r: Self)
        ensures
            forall|i: int, j: int| 0 <= i < 4 && 0 <= j < 4 ==> #[trigger] spec_at4(r, i, j) == 0,
    {
        Matrix4 { m00: 0, m01: 0, m02: 0, m03: 0, m10: 0, m11: 0, m12: 0, m13: 0, m20: 0, m21: 0, m22: 0, m23: 0, m30: 0, m31: 0, m32: 0, m33: 0 }
    }

    /// The multiplicative identity.
    pub fn identity_matrix() -> (r: Self)
        ensures
            r == spec_identity(),
    {
        Matrix4 {
            m00: SCALE,
            m01: 0,
            m02: 0,
            m03: 0,
            m10: 0,
            m11: SCALE,
            m12: 0,
            m13: 0,
            m20: 0,
            m21: 0,
            m22: SCALE,
            m23: 0,
            m30: 0,
            m31: 0,
            m32: 0,
            m33: SCALE,
        }
    }

    /// Rows and columns exchanged; no arithmetic, hence exact.
    pub fn transpose(&self) -> (r: Self)
        ensures
            r == spec_transpose4(*self),
    {
        Matrix4 {
            m00: self.m00,
            m01: self.m10,
            m02: self.m20,
            m03: self.m30,
            m10: self.m01,
            m11: self.m11,
            m12: self.m21,
            m13: self.m31,
            m20: self.m02,
            m21: self.m12,
            m22: self.m22,
            m23: self.m32,
            m30: self.m03,
            m31: self.m13,
            m32: self.m23,
            m33: self.m33,
        }
    }

    /// In-place transpose.
    pub fn transpose_mut(&mut self)
        ensures
            *final(self) == spec_transpose4(*old(self)),
    {
        let t = Matrix4 {
            m00: self.m00,
            m01: self.m10,
            m02: self.m20,
            m03: self.m30,
            m10: self.m01,
            m11: self.m11,
            m12: self.m21,
            m13: self.m31,
            m20: self.m02,
            m21: self.m12,
            m22: self.m22,
            m23: self.m32,
            m30: self.m03,
            m31: self.m13,
            m32: self.m23,
            m33: self.m33,
        };
        *self = t;
    }

    /// The 3x3 matrix left after deleting one row and one column.
    pub fn submatrix(&self, row_to_remove: usize, col_to_remove: usize) -> (r: Matrix3)
        requires
            row_to_remove < 4,
            col_to_remove < 4,
        ensures
            r.m00 as int == spec_at4(
                *self,
                spec_skip(0, row_to_remove as int),
                spec_skip(0, col_to_remove as int),
            ),
            r.m01 as int == spec_at4(
                *self,
                spec_skip(0, row_to_remove as int),
                spec_skip(1, col_to_remove as int),
            ),
            r.m02 as int == spec_at4(
                *self,
                spec_skip(0, row_to_remove as int),
                spec_skip(2, col_to_remove as int),
            ),
            r.m10 as int == spec_at4(
                *self,
                spec_skip(1, row_to_remove as int),
                spec_skip(0, col_to_remove as int),
            ),
            r.m11 as int == spec_at4(
                *self,
                spec_skip(1, row_to_remove as int),
                spec_skip(1, col_to_remove as int),
            ),
            r.m12 as int == spec_at4(
                *self,
                spec_skip(1, row_to_remove as int),
                spec_skip(2, col_to_remove as int),
            ),
            r.m20 as int == spec_at4(
                *self,
                spec_skip(2, row_to_remove as int),
                spec_skip(0, col_to_remove as int),
            ),
            r.m21 as int == spec_at4(
                *self,
                spec_skip(2, row_to_remove as int),
                spec_skip(1, col_to_remove as int),
            ),
            r.m22 as int == spec_at4(
                *self,
                spec_skip(2, row_to_remove as int),
                spec_skip(2, col_to_remove as int),
            ),
    {
        if row_to_remove == 0 {
            if col_to_remove == 0 {
                Matrix3 { m00: self.m11, m01: self.m12, m02: self.m13, m10: self.m21, m11: self.m22, m12: self.m23, m20: self.m31, m21: self.m32, m22: self.m33 }
            } else if col_to_remove == 1 {
                Matrix3 { m00: self.m10, m01: self.m12, m02: self.m13, m10: self.m20, m11: self.m22, m12: self.m23, m20: self.m30, m21: self.m32, m22: self.m33 }
            } else if col_to_remove == 2 {
                Matrix3 { m00: self.m10, m01: self.m11, m02: self.m13, m10: self.m20, m11: self.m21, m12: self.m23, m20: self.m30, m21: self.m31, m22: self.m33 }
            } else {
                Matrix3 { m00: self.m10, m01: self.m11, m02: self.m12, m10: self.m20, m11: self.m21, m12: self.m22, m20: self.m30, m21: self.m31, m22: self.m32 }
            }
        } else if row_to_remove == 1 {
            if col_to_remove == 0 {
                Matrix3 { m00: self.m01, m01: self.m02, m02: self.m03, m10: self.m21, m11: self.m22, m12: self.m23, m20: self.m31, m21: self.m32, m22: self.m33 }
            } else if col_to_remove == 1 {
                Matrix3 { m00: self.m00, m01: self.m02, m02: self.m03, m10: self.m20, m11: self.m22, m12: self.m23, m20: self.m30, m21: self.m32, m22: self.m33 }
            } else if col_to_remove == 2 {
                Matrix3 { m00: self.m00, m01: self.m01, m02: self.m03, m10: self.m20, m11: self.m21, m12: self.m23, m20: self.m30, m21: self.m31, m22: self.m33 }
            } else {
                Matrix3 { m00: self.m00, m01: self.m01, m02: self.m02, m10: self.m20, m11: self.m21, m12: self.m22, m20: self.m30, m21: self.m31, m22: self.m32 }
            }
        } else if row_to_remove == 2 {
            if col_to_remove == 0 {
                Matrix3 { m00: self.m01, m01: self.m02, m02: self.m03, m10: self.m11, m11: self.m12, m12: self.m13, m20: self.m31, m21: self.m32, m22: self.m33 }
            } else if col_to_remove == 1 {
                Matrix3 { m00: self.m00, m01: self.m02, m02: self.m03, m10: self.m10, m11: self.m12, m12: self.m13, m20: self.m30, m21: self.m32, m22: self.m33 }
            } else if col_to_remove == 2 {
                Matrix3 { m00: self.m00, m01: self.m01, m02: self.m03, m10: self.m10, m11: self.m11, m12: self.m13, m20: self.m30, m21: self.m31, m22: self.m33 }
            } else {
                Matrix3 { m00: self.m00, m01: self.m01, m02: self.m02, m10: self.m10, m11: self.m11, m12: self.m12, m20: self.m30, m21: self.m31, m22: self.m32 }
            }
        } else {
            if col_to_remove == 0 {
                Matrix3 { m00: self.m01, m01: self.m02, m02: self.m03, m10: self.m11, m11: self.m12, m12: self.m13, m20: self.m21, m21: self.m22, m22: self.m23 }
            } else if col_to_remove == 1 {
                Matrix3 { m00: self.m00, m01: self.m02, m02: self.m03, m10: self.m10, m11: self.m12, m12: self.m13, m20: self.m20, m21: self.m22, m22: self.m23 }
            } else if col_to_remove == 2 {
                Matrix3 { m00: self.m00, m01: self.m01, m02: self.m03, m10: self.m10, m11: self.m11, m12: self.m13, m20: self.m20, m21: self.m21, m22: self.m23 }
            } else {
                Matrix3 { m00: self.m00, m01: self.m01, m02: self.m02, m10: self.m10, m11: self.m11, m12: self.m12, m20: self.m20, m21: self.m21, m22: self.m22 }
            }
        }
    }

    /// Determinant of the submatrix at `(row, col)`, floored once.
    pub fn minor(&self, row: usize, col: usize) -> (r: i64)
        requires
            row < 4,
            col < 4,
            spec_entries_within4(*self, COORD_MAX as int),
        ensures
            r as int == spec_minor4_scaled(*self, row as int, col as int),
            within(r as int, 162_000_000_000_001),
    {
        let s = self.submatrix(row, col);
        proof {
            lemma_at4_bounded(
                *self,
                spec_skip(0, row as int),
                spec_skip(0, col as int),
                COORD_MAX as int,
            );
            lemma_at4_bounded(
                *self,
                spec_skip(0, row as int),
                spec_skip(1, col as int),
                COORD_MAX as int,
            );
            lemma_at4_bounded(
                *self,
                spec_skip(0, row as int),
                spec_skip(2, col as int),
                COORD_MAX as int,
            );
            lemma_at4_bounded(
                *self,
                spec_skip(1, row as int),
                spec_skip(0, col as int),
                COORD_MAX as int,
            );
            lemma_at4_bounded(
                *self,
                spec_skip(1, row as int),
                spec_skip(1, col as int),
                COORD_MAX as int,
            );
            lemma_at4_bounded(
                *self,
                spec_skip(1, row as int),
                spec_skip(2, col as int),
                COORD_MAX as int,
            );
            lemma_at4_bounded(
                *self,
                spec_skip(2, row as int),
                spec_skip(0, col as int),
                COORD_MAX as int,
            );
            lemma_at4_bounded(
                *self,
                spec_skip(2, row as int),
                spec_skip(1, col as int),
                COORD_MAX as int,
            );
            lemma_at4_bounded(
                *self,
                spec_skip(2, row as int),
                spec_skip(2, col as int),
                COORD_MAX as int,
            );
        }
        let d = s.determinant();
        proof {
            assert(spec_det3x(
                s.m00 as int,
                s.m01 as int,
                s.m02 as int,
                s.m10 as int,
                s.m11 as int,
                s.m12 as int,
                s.m20 as int,
                s.m21 as int,
                s.m22 as int,
            ) == spec_minor4_num(*self, row as int, col as int));
        }
        d
    }

    /// The minor at `(row, col)`, negated when `row + col` is odd.
    pub fn cofactor(&self, row: usize, col: usize) -> (r: i64)
        requires
            row < 4,
            col < 4,
            spec_entries_within4(*self, COORD_MAX as int),
        ensures
            r as int == spec_cof4_scaled(*self, row as int, col as int),
    {
        let mn = self.minor(row, col);
        if (row + col) % 2 == 0 {
            mn
        } else {
            -mn
        }
    }

    /// Exact determinant numerator over `i128`.
    fn det_num(&self) -> (r: i128)
        requires
            spec_entries_within4(*self, COORD_MAX as int),
        ensures
            r as int == spec_det4_num(*self),
            within(r as int, 200_000_000_000_000_000_000_000_000_000_000_000),
    {
        let c0: i128 = self.cof4n(0, 0);
        let c1: i128 = self.cof4n(0, 1);
        let c2: i128 = self.cof4n(0, 2);
        let c3: i128 = self.cof4n(0, 3);
        proof {
            assert({
                &&& within(self.m00 as int * c0 as int, 48_600_000_000_000_000_000_000_000_000_000_000)
                &&& within(self.m01 as int * c1 as int, 48_600_000_000_000_000_000_000_000_000_000_000)
                &&& within(self.m02 as int * c2 as int, 48_600_000_000_000_000_000_000_000_000_000_000)
                &&& within(self.m03 as int * c3 as int, 48_600_000_000_000_000_000_000_000_000_000_000)
            }) by (nonlinear_arith)
                requires
                    within(self.m00 as int, 300_000_000int),
                    within(c0 as int, 162_000_000_000_000_000_000_000_000int),
                    within(self.m01 as int, 300_000_000int),
                    within(c1 as int, 162_000_000_000_000_000_000_000_000int),
                    within(self.m02 as int, 300_000_000int),
                    within(c2 as int, 162_000_000_000_000_000_000_000_000int),
                    within(self.m03 as int, 300_000_000int),
                    within(c3 as int, 162_000_000_000_000_000_000_000_000int),
            ;
        }
        (self.m00 as i128) * c0 + (self.m01 as i128) * c1 + (self.m02 as i128) * c2 + (
        self.m03 as i128) * c3
    }

    /// Determinant by first-row cofactor expansion, floored once.
    pub fn determinant(&self) -> (r: i64)
        requires
            spec_entries_within4(*self, COORD_MAX as int),
        ensures
            r as int == spec_det4_scaled(*self),
            within(r as int, 200_000_000_000_000_001),
    {
        let d = self.det_num();
        proof {
            lemma_div_floor_mag(
                d as int,
                SCALE_CUBE as int,
                200_000_000_000_000_000_000_000_000_000_000_000,
            );
        }
        let q: i128 = floor_div(d, SCALE_CUBE as i128);
        q as i64
    }

    /// Exact cofactor numerator at `(row, col)` over `i128`.
    fn cof4n(&self, row: usize, col: usize) -> (r: i128)
        requires
            row < 4,
            col < 4,
            spec_entries_within4(*self, COORD_MAX as int),
        ensures
            r as int == spec_cof4_num(*self, row as int, col as int),
            within(r as int, 162_000_000_000_000_000_000_000_000),
    {
        if row == 0 {
            if col == 0 {
                det3i(
                    self.m11 as i128,
                    self.m12 as i128,
                    self.m13 as i128,
                    self.m21 as i128,
                    self.m22 as i128,
                    self.m23 as i128,
                    self.m31 as i128,
                    self.m32 as i128,
                    self.m33 as i128,
                )
            } else if col == 1 {
                -det3i(
                    self.m10 as i128,
                    self.m12 as i128,
                    self.m13 as i128,
                    self.m20 as i128,
                    self.m22 as i128,
                    self.m23 as i128,
                    self.m30 as i128,
                    self.m32 as i128,
                    self.m33 as i128,
                )
            } else if col == 2 {
                det3i(
                    self.m10 as i128,
                    self.m11 as i128,
                    self.m13 as i128,
                    self.m20 as i128,
                    self.m21 as i128,
                    self.m23 as i128,
                    self.m30 as i128,
                    self.m31 as i128,
                    self.m33 as i128,
                )
            } else {
                -det3i(
                    self.m10 as i128,
                    self.m11 as i128,
                    self.m12 as i128,
                    self.m20 as i128,
                    self.m21 as i128,
                    self.m22 as i128,
                    self.m30 as i128,
                    self.m31 as i128,
                    self.m32 as i128,
                )
            }
        } else if row == 1 {
            if col == 0 {
                -det3i(
                    self.m01 as i128,
                    self.m02 as i128,
                    self.m03 as i128,
                    self.m21 as i128,
                    self.m22 as i128,
                    self.m23 as i128,
                    self.m31 as i128,
                    self.m32 as i128,
                    self.m33 as i128,
                )
            } else if col == 1 {
                det3i(
                    self.m00 as i128,
                    self.m02 as i128,
                    self.m03 as i128,
                    self.m20 as i128,
                    self.m22 as i128,
                    self.m23 as i128,
                    self.m30 as i128,
                    self.m32 as i128,
                    self.m33 as i128,
                )
            } else if col == 2 {
                -det3i(
                    self.m00 as i128,
                    self.m01 as i128,
                    self.m03 as i128,
                    self.m20 as i128,
                    self.m21 as i128,
                    self.m23 as i128,
                    self.m30 as i128,
                    self.m31 as i128,
                    self.m33 as i128,
                )
            } else {
                det3i(
                    self.m00 as i128,
                    self.m01 as i128,
                    self.m02 as i128,
                    self.m20 as i128,
                    self.m21 as i128,
                    self.m22 as i128,
                    self.m30 as i128,
                    self.m31 as i128,
                    self.m32 as i128,
                )
            }
        } else if row == 2 {
            if col == 0 {
                det3i(
                    self.m01 as i128,
                    self.m02 as i128,
                    self.m03 as i128,
                    self.m11 as i128,
                    self.m12 as i128,
                    self.m13 as i128,
                    self.m31 as i128,
                    self.m32 as i128,
                    self.m33 as i128,
                )
            } else if col == 1 {
                -det3i(
                    self.m00 as i128,
                    self.m02 as i128,
                    self.m03 as i128,
                    self.m10 as i128,
                    self.m12 as i128,
                    self.m13 as i128,
                    self.m30 as i128,
                    self.m32 as i128,
                    self.m33 as i128,
                )
            } else if col == 2 {
                det3i(
                    self.m00 as i128,
                    self.m01 as i128,
                    self.m03 as i128,
                    self.m10 as i128,
                    self.m11 as i128,
                    self.m13 as i128,
                    self.m30 as i128,
                    self.m31 as i128,
                    self.m33 as i128,
                )
            } else {
                -det3i(
                    self.m00 as i128,
                    self.m01 as i128,
                    self.m02 as i128,
                    self.m10 as i128,
                    self.m11 as i128,
                    self.m12 as i128,
                    self.m30 as i128,
                    self.m31 as i128,
                    self.m32 as i128,
                )
            }
        } else {
            if col == 0 {
                -det3i(
                    self.m01 as i128,
                    self.m02 as i128,
                    self.m03 as i128,
                    self.m11 as i128,
                    self.m12 as i128,
                    self.m13 as i128,
                    self.m21 as i128,
                    self.m22 as i128,
                    self.m23 as i128,
                )
            } else if col == 1 {
                det3i(
                    self.m00 as i128,
                    self.m02 as i128,
                    self.m03 as i128,
                    self.m10 as i128,
                    self.m12 as i128,
                    self.m13 as i128,
                    self.m20 as i128,
                    self.m22 as i128,
                    self.m23 as i128,
                )
            } else if col == 2 {
                -det3i(
                    self.m00 as i128,
                    self.m01 as i128,
                    self.m03 as i128,
                    self.m10 as i128,
                    self.m11 as i128,
                    self.m13 as i128,
                    self.m20 as i128,
                    self.m21 as i128,
                    self.m23 as i128,
                )
            } else {
                det3i(
                    self.m00 as i128,
                    self.m01 as i128,
                    self.m02 as i128,
                    self.m10 as i128,
                    self.m11 as i128,
                    self.m12 as i128,
                    self.m20 as i128,
                    self.m21 as i128,
                    self.m22 as i128,
                )
            }
        }
    }

    /// Inverse by the adjugate: entry `(i, j)` is the cofactor at
    /// `(j, i)` over the determinant, each entry one exact rational
    /// floored to units.  `None` exactly when the determinant is within
    /// tolerance of zero, or -- a pure machine limit -- when an entry's
    /// unit count does not fit an `i64`.
    pub fn inverse(&self) -> (r: Option<Matrix4>)
        requires
            spec_entries_within4(*self, COORD_MAX as int),
        ensures
            match r {
                None => !spec_invertible(*self) || !spec_inv_within(*self),
                Some(inv) => {
                    &&& spec_invertible(*self)
                    &&& spec_inv_within(*self)
                    &&& inv.m00 as int == spec_inv_entry(*self, 0, 0)
                    &&& inv.m01 as int == spec_inv_entry(*self, 0, 1)
                    &&& inv.m02 as int == spec_inv_entry(*self, 0, 2)
                    &&& inv.m03 as int == spec_inv_entry(*self, 0, 3)
                    &&& inv.m10 as int == spec_inv_entry(*self, 1, 0)
                    &&& inv.m11 as int == spec_inv_entry(*self, 1, 1)
                    &&& inv.m12 as int == spec_inv_entry(*self, 1, 2)
                    &&& inv.m13 as int == spec_inv_entry(*self, 1, 3)
                    &&& inv.m20 as int == spec_inv_entry(*self, 2, 0)
                    &&& inv.m21 as int == spec_inv_entry(*self, 2, 1)
                    &&& inv.m22 as int == spec_inv_entry(*self, 2, 2)
                    &&& inv.m23 as int == spec_inv_entry(*self, 2, 3)
                    &&& inv.m30 as int == spec_inv_entry(*self, 3, 0)
                    &&& inv.m31 as int == spec_inv_entry(*self, 3, 1)
                    &&& inv.m32 as int == spec_inv_entry(*self, 3, 2)
                    &&& inv.m33 as int == spec_inv_entry(*self, 3, 3)
                    &&& spec_entries_within4(inv, ENTRY_MAX as int)
                    &&& inv == spec_inverse4(*self)
                },
            },
    {
        let d = self.det_num();
        proof {
            lemma_div_floor_mag(
                d as int,
                SCALE_CUBE as int,
                200_000_000_000_000_000_000_000_000_000_000_000,
            );
        }
        let ds: i64 = floor_div(d, SCALE_CUBE as i128) as i64;
        if -EPSILON <= ds && ds <= EPSILON {
            return None;
        }
        let c00: i128 = self.cof4n(0, 0);
        proof {
            assert(within(c00 as int * (SCALE_SQ as int),
                170_000_000_000_000_000_000_000_000_000_000_000_000int)) by (nonlinear_arith)
                requires
                    within(c00 as int, 162_000_000_000_000_000_000_000_000int),
                    SCALE_SQ == 1_000_000_000_000i64,
            ;
        }
        let q00: i128 = if d > 0 {
            floor_div(c00 * (SCALE_SQ as i128), d)
        } else {
            floor_div(-(c00 * (SCALE_SQ as i128)), -d)
        };
        if q00 < -(ENTRY_MAX as i128) || q00 > ENTRY_MAX as i128 {
            return None;
        }
        let c01: i128 = self.cof4n(1, 0);
        proof {
            assert(within(c01 as int * (SCALE_SQ as int),
                170_000_000_000_000_000_000_000_000_000_000_000_000int)) by (nonlinear_arith)
                requires
                    within(c01 as int, 162_000_000_000_000_000_000_000_000int),
                    SCALE_SQ == 1_000_000_000_000i64,
            ;
        }
        let q01: i128 = if d > 0 {
            floor_div(c01 * (SCALE_SQ as i128), d)
        } else {
            floor_div(-(c01 * (SCALE_SQ as i128)), -d)
        };
        if q01 < -(ENTRY_MAX as i128) || q01 > ENTRY_MAX as i128 {
            return None;
        }
        let c02: i128 = self.cof4n(2, 0);
        proof {
            assert(within(c02 as int * (SCALE_SQ as int),
                170_000_000_000_000_000_000_000_000_000_000_000_000int)) by (nonlinear_arith)
                requires
                    within(c02 as int, 162_000_000_000_000_000_000_000_000int),
                    SCALE_SQ == 1_000_000_000_000i64,
            ;
        }
        let q02: i128 = if d > 0 {
            floor_div(c02 * (SCALE_SQ as i128), d)
        } else {
            floor_div(-(c02 * (SCALE_SQ as i128)), -d)
        };
        if q02 < -(ENTRY_MAX as i128) || q02 > ENTRY_MAX as i128 {
            return None;
        }
        let c03: i128 = self.cof4n(3, 0);
        proof {
            assert(within(c03 as int * (SCALE_SQ as int),
                170_000_000_000_000_000_000_000_000_000_000_000_000int)) by (nonlinear_arith)
                requires
                    within(c03 as int, 162_000_000_000_000_000_000_000_000int),
                    SCALE_SQ == 1_000_000_000_000i64,
            ;
        }
        let q03: i128 = if d > 0 {
            floor_div(c03 * (SCALE_SQ as i128), d)
        } else {
            floor_div(-(c03 * (SCALE_SQ as i128)), -d)
        };
        if q03 < -(ENTRY_MAX as i128) || q03 > ENTRY_MAX as i128 {
            return None;
        }
        let c10: i128 = self.cof4n(0, 1);
        proof {
            assert(within(c10 as int * (SCALE_SQ as int),
                170_000_000_000_000_000_000_000_000_000_000_000_000int)) by (nonlinear_arith)
                requires
                    within(c10 as int, 162_000_000_000_000_000_000_000_000int),
                    SCALE_SQ == 1_000_000_000_000i64,
            ;
        }
        let q10: i128 = if d > 0 {
            floor_div(c10 * (SCALE_SQ as i128), d)
        } else {
            floor_div(-(c10 * (SCALE_SQ as i128)), -d)
        };
        if q10 < -(ENTRY_MAX as i128) || q10 > ENTRY_MAX as i128 {
            return None;
        }
        let c11: i128 = self.cof4n(1, 1);
        proof {
            assert(within(c11 as int * (SCALE_SQ as int),
                170_000_000_000_000_000_000_000_000_000_000_000_000int)) by (nonlinear_arith)
                requires
                    within(c11 as int, 162_000_000_000_000_000_000_000_000int),
                    SCALE_SQ == 1_000_000_000_000i64,
            ;
        }
        let q11: i128 = if d > 0 {
            floor_div(c11 * (SCALE_SQ as i128), d)
        } else {
            floor_div(-(c11 * (SCALE_SQ as i128)), -d)
        };
        if q11 < -(ENTRY_MAX as i128) || q11 > ENTRY_MAX as i128 {
            return None;
        }
        let c12: i128 = self.cof4n(2, 1);
        proof {
            assert(within(c12 as int * (SCALE_SQ as int),
                170_000_000_000_000_000_000_000_000_000_000_000_000int)) by (nonlinear_arith)
                requires
                    within(c12 as int, 162_000_000_000_000_000_000_000_000int),
                    SCALE_SQ == 1_000_000_000_000i64,
            ;
        }
        let q12: i128 = if d > 0 {
            floor_div(c12 * (SCALE_SQ as i128), d)
        } else {
            floor_div(-(c12 * (SCALE_SQ as i128)), -d)
        };
        if q12 < -(ENTRY_MAX as i128) || q12 > ENTRY_MAX as i128 {
            return None;
        }
        let c13: i128 = self.cof4n(3, 1);
        proof {
            assert(within(c13 as int * (SCALE_SQ as int),
                170_000_000_000_000_000_000_000_000_000_000_000_000int)) by (nonlinear_arith)
                requires
                    within(c13 as int, 162_000_000_000_000_000_000_000_000int),
                    SCALE_SQ == 1_000_000_000_000i64,
            ;
        }
        let q13: i128 = if d > 0 {
            floor_div(c13 * (SCALE_SQ as i128), d)
        } else {
            floor_div(-(c13 * (SCALE_SQ as i128)), -d)
        };
        if q13 < -(ENTRY_MAX as i128) || q13 > ENTRY_MAX as i128 {
            return None;
        }
        let c20: i128 = self.cof4n(0, 2);
        proof {
            assert(within(c20 as int * (SCALE_SQ as int),
                170_000_000_000_000_000_000_000_000_000_000_000_000int)) by (nonlinear_arith)
                requires
                    within(c20 as int, 162_000_000_000_000_000_000_000_000int),
                    SCALE_SQ == 1_000_000_000_000i64,
            ;
        }
        let q20: i128 = if d > 0 {
            floor_div(c20 * (SCALE_SQ as i128), d)
        } else {
            floor_div(-(c20 * (SCALE_SQ as i128)), -d)
        };
        if q20 < -(ENTRY_MAX as i128) || q20 > ENTRY_MAX as i128 {
            return None;
        }
        let c21: i128 = self.cof4n(1, 2);
        proof {
            assert(within(c21 as int * (SCALE_SQ as int),
                170_000_000_000_000_000_000_000_000_000_000_000_000int)) by (nonlinear_arith)
                requires
                    within(c21 as int, 162_000_000_000_000_000_000_000_000int),
                    SCALE_SQ == 1_000_000_000_000i64,
            ;
        }
        let q21: i128 = if d > 0 {
            floor_div(c21 * (SCALE_SQ as i128), d)
        } else {
            floor_div(-(c21 * (SCALE_SQ as i128)), -d)
        };
        if q21 < -(ENTRY_MAX as i128) || q21 > ENTRY_MAX as i128 {
            return None;
        }
        let c22: i128 = self.cof4n(2, 2);
        proof {
            assert(within(c22 as int * (SCALE_SQ as int),
                170_000_000_000_000_000_000_000_000_000_000_000_000int)) by (nonlinear_arith)
                requires
                    within(c22 as int, 162_000_000_000_000_000_000_000_000int),
                    SCALE_SQ == 1_000_000_000_000i64,
            ;
        }
        let q22: i128 = if d > 0 {
            floor_div(c22 * (SCALE_SQ as i128), d)
        } else {
            floor_div(-(c22 * (SCALE_SQ as i128)), -d)
        };
        if q22 < -(ENTRY_MAX as i128) || q22 > ENTRY_MAX as i128 {
            return None;
        }
        let c23: i128 = self.cof4n(3, 2);
        proof {
            assert(within(c23 as int * (SCALE_SQ as int),
                170_000_000_000_000_000_000_000_000_000_000_000_000int)) by (nonlinear_arith)
                requires
                    within(c23 as int, 162_000_000_000_000_000_000_000_000int),
                    SCALE_SQ == 1_000_000_000_000i64,
            ;
        }
        let q23: i128 = if d > 0 {
            floor_div(c23 * (SCALE_SQ as i128), d)
        } else {
            floor_div(-(c23 * (SCALE_SQ as i128)), -d)
        };
        if q23 < -(ENTRY_MAX as i128) || q23 > ENTRY_MAX as i128 {
            return None;
        }
        let c30: i128 = self.cof4n(0, 3);
        proof {
            assert(within(c30 as int * (SCALE_SQ as int),
                170_000_000_000_000_000_000_000_000_000_000_000_000int)) by (nonlinear_arith)
                requires
                    within(c30 as int, 162_000_000_000_000_000_000_000_000int),
                    SCALE_SQ == 1_000_000_000_000i64,
            ;
        }
        let q30: i128 = if d > 0 {
            floor_div(c30 * (SCALE_SQ as i128), d)
        } else {
            floor_div(-(c30 * (SCALE_SQ as i128)), -d)
        };
        if q30 < -(ENTRY_MAX as i128) || q30 > ENTRY_MAX as i128 {
            return None;
        }
        let c31: i128 = self.cof4n(1, 3);
        proof {
            assert(within(c31 as int * (SCALE_SQ as int),
                170_000_000_000_000_000_000_000_000_000_000_000_000int)) by (nonlinear_arith)
                requires
                    within(c31 as int, 162_000_000_000_000_000_000_000_000int),
                    SCALE_SQ == 1_000_000_000_000i64,
            ;
        }
        let q31: i128 = if d > 0 {
            floor_div(c31 * (SCALE_SQ as i128), d)
        } else {
            floor_div(-(c31 * (SCALE_SQ as i128)), -d)
        };
        if q31 < -(ENTRY_MAX as i128) || q31 > ENTRY_MAX as i128 {
            return None;
        }
        let c32: i128 = self.cof4n(2, 3);
        proof {
            assert(within(c32 as int * (SCALE_SQ as int),
                170_000_000_000_000_000_000_000_000_000_000_000_000int)) by (nonlinear_arith)
                requires
                    within(c32 as int, 162_000_000_000_000_000_000_000_000int),
                    SCALE_SQ == 1_000_000_000_000i64,
            ;
        }
        let q32: i128 = if d > 0 {
            floor_div(c32 * (SCALE_SQ as i128), d)
        } else {
            floor_div(-(c32 * (SCALE_SQ as i128)), -d)
        };
        if q32 < -(ENTRY_MAX as i128) || q32 > ENTRY_MAX as i128 {
            return None;
        }
        let c33: i128 = self.cof4n(3, 3);
        proof {
            assert(within(c33 as int * (SCALE_SQ as int),
                170_000_000_000_000_000_000_000_000_000_000_000_000int)) by (nonlinear_arith)
                requires
                    within(c33 as int, 162_000_000_000_000_000_000_000_000int),
                    SCALE_SQ == 1_000_000_000_000i64,
            ;
        }
        let q33: i128 = if d > 0 {
            floor_div(c33 * (SCALE_SQ as i128), d)
        } else {
            floor_div(-(c33 * (SCALE_SQ as i128)), -d)
        };
        if q33 < -(ENTRY_MAX as i128) || q33 > ENTRY_MAX as i128 {
            return None;
        }
        Some(
            Matrix4 {
                m00: q00 as i64,
                m01: q01 as i64,
                m02: q02 as i64,
                m03: q03 as i64,
                m10: q10 as i64,
                m11: q11 as i64,
                m12: q12 as i64,
                m13: q13 as i64,
                m20: q20 as i64,
                m21: q21 as i64,
                m22: q22 as i64,
                m23: q23 as i64,
                m30: q30 as i64,
                m31: q31 as i64,
                m32: q32 as i64,
                m33: q33 as i64,
            },
        )
    }

    /// Matrix product: each entry is a fixed-point row-by-column dot
    /// product with a single floor rounding.
    pub fn multiply(&self, rhs: &Matrix4) -> (r: Matrix4)
        requires
            spec_entries_within4(*self, MUL_MAX as int),
            spec_entries_within4(*rhs, MUL_MAX as int),
        ensures
            r.m00 as int == spec_mul_entry(*self, *rhs, 0, 0),
            r.m01 as int == spec_mul_entry(*self, *rhs, 0, 1),
            r.m02 as int == spec_mul_entry(*self, *rhs, 0, 2),
            r.m03 as int == spec_mul_entry(*self, *rhs, 0, 3),
            r.m10 as int == spec_mul_entry(*self, *rhs, 1, 0),
            r.m11 as int == spec_mul_entry(*self, *rhs, 1, 1),
            r.m12 as int == spec_mul_entry(*self, *rhs, 1, 2),
            r.m13 as int == spec_mul_entry(*self, *rhs, 1, 3),
            r.m20 as int == spec_mul_entry(*self, *rhs, 2, 0),
            r.m21 as int == spec_mul_entry(*self, *rhs, 2, 1),
            r.m22 as int == spec_mul_entry(*self, *rhs, 2, 2),
            r.m23 as int == spec_mul_entry(*self, *rhs, 2, 3),
            r.m30 as int == spec_mul_entry(*self, *rhs, 3, 0),
            r.m31 as int == spec_mul_entry(*self, *rhs, 3, 1),
            r.m32 as int == spec_mul_entry(*self, *rhs, 3, 2),
            r.m33 as int == spec_mul_entry(*self, *rhs, 3, 3),
            r == spec_matmul(*self, *rhs),
    {
        Matrix4 {
            m00: fx_dot4(self.m00, self.m01, self.m02, self.m03, rhs.m00, rhs.m10, rhs.m20, rhs.m30),
            m01: fx_dot4(self.m00, self.m01, self.m02, self.m03, rhs.m01, rhs.m11, rhs.m21, rhs.m31),
            m02: fx_dot4(self.m00, self.m01, self.m02, self.m03, rhs.m02, rhs.m12, rhs.m22, rhs.m32),
            m03: fx_dot4(self.m00, self.m01, self.m02, self.m03, rhs.m03, rhs.m13, rhs.m23, rhs.m33),
            m10: fx_dot4(self.m10, self.m11, self.m12, self.m13, rhs.m00, rhs.m10, rhs.m20, rhs.m30),
            m11: fx_dot4(self.m10, self.m11, self.m12, self.m13, rhs.m01, rhs.m11, rhs.m21, rhs.m31),
            m12: fx_dot4(self.m10, self.m11, self.m12, self.m13, rhs.m02, rhs.m12, rhs.m22, rhs.m32),
            m13: fx_dot4(self.m10, self.m11, self.m12, self.m13, rhs.m03, rhs.m13, rhs.m23, rhs.m33),
            m20: fx_dot4(self.m20, self.m21, self.m22, self.m23, rhs.m00, rhs.m10, rhs.m20, rhs.m30),
            m21: fx_dot4(self.m20, self.m21, self.m22, self.m23, rhs.m01, rhs.m11, rhs.m21, rhs.m31),
            m22: fx_dot4(self.m20, self.m21, self.m22, self.m23, rhs.m02, rhs.m12, rhs.m22, rhs.m32),
            m23: fx_dot4(self.m20, self.m21, self.m22, self.m23, rhs.m03, rhs.m13, rhs.m23, rhs.m33),
            m30: fx_dot4(self.m30, self.m31, self.m32, self.m33, rhs.m00, rhs.m10, rhs.m20, rhs.m30),
            m31: fx_dot4(self.m30, self.m31, self.m32, self.m33, rhs.m01, rhs.m11, rhs.m21, rhs.m31),
            m32: fx_dot4(self.m30, self.m31, self.m32, self.m33, rhs.m02, rhs.m12, rhs.m22, rhs.m32),
            m33: fx_dot4(self.m30, self.m31, self.m32, self.m33, rhs.m03, rhs.m13, rhs.m23, rhs.m33),
        }
    }

    /// Matrix-tuple product: each component is a fixed-point dot
    /// product of a row with the tuple.
    pub fn mul_tuple(&self, rhs: &Tuple) -> (r: Tuple)
        requires
            spec_entries_within4(*self, MUL_MAX as int),
            tuple_within(*rhs, MUL_MAX as int),
        ensures
            r.x as int == spec_mv(*self, *rhs, 0),
            r.y as int == spec_mv(*self, *rhs, 1),
            r.z as int == spec_mv(*self, *rhs, 2),
            r.w as int == spec_mv(*self, *rhs, 3),
            r == spec_mat_tuple(*self, *rhs),
    {
        Tuple {
            x: fx_dot4(self.m00, self.m01, self.m02, self.m03, rhs.x, rhs.y, rhs.z, rhs.w),
            y: fx_dot4(self.m10, self.m11, self.m12, self.m13, rhs.x, rhs.y, rhs.z, rhs.w),
            z: fx_dot4(self.m20, self.m21, self.m22, self.m23, rhs.x, rhs.y, rhs.z, rhs.w),
            w: fx_dot4(self.m30, self.m31, self.m32, self.m33, rhs.x, rhs.y, rhs.z, rhs.w),
        }
    }

    /// One row of a wide matrix-tuple product: exact `i128` arithmetic,
    /// one floor, and an explicit range check instead of a truncating
    /// cast.
    fn row_dot_wide(a0: i64, a1: i64, a2: i64, a3: i64, rhs: &Tuple, bound: i64) -> (r: Option<
        i64,
    >)
        requires
            tuple_within(*rhs, MUL_MAX as int),
            0 <= bound,
        ensures
            match r {
                Some(v) => within(
                    fx_dot4_s(
                        a0 as int,
                        a1 as int,
                        a2 as int,
                        a3 as int,
                        rhs.x as int,
                        rhs.y as int,
                        rhs.z as int,
                        rhs.w as int,
                    ),
                    bound as int,
                ) && v as int == fx_dot4_s(
                    a0 as int,
                    a1 as int,
                    a2 as int,
                    a3 as int,
                    rhs.x as int,
                    rhs.y as int,
                    rhs.z as int,
                    rhs.w as int,
                ),
                None => !within(
                    fx_dot4_s(
                        a0 as int,
                        a1 as int,
                        a2 as int,
                        a3 as int,
                        rhs.x as int,
                        rhs.y as int,
                        rhs.z as int,
                        rhs.w as int,
                    ),
                    bound as int,
                ),
            },
    {
        proof {
            crate::fixed::lemma_mul_bounded(
                a0 as int,
                rhs.x as int,
                9_223_372_036_854_775_808,
                MUL_MAX as int,
            );
            crate::fixed::lemma_mul_bounded(
                a1 as int,
                rhs.y as int,
                9_223_372_036_854_775_808,
                MUL_MAX as int,
            );
            crate::fixed::lemma_mul_bounded(
                a2 as int,
                rhs.z as int,
                9_223_372_036_854_775_808,
                MUL_MAX as int,
            );
            crate::fixed::lemma_mul_bounded(
                a3 as int,
                rhs.w as int,
                9_223_372_036_854_775_808,
                MUL_MAX as int,
            );
        }
        let p: i128 = (a0 as i128) * (rhs.x as i128) + (a1 as i128) * (rhs.y as i128) + (
        a2 as i128) * (rhs.z as i128) + (a3 as i128) * (rhs.w as i128);
        proof {
            lemma_div_floor_mag(
                p as int,
                SCALE as int,
                36_893_488_147_419_103_232_000_000_000_000,
            );
        }
        let q: i128 = floor_div(p, SCALE as i128);
        if q < -(bound as i128) || q > bound as i128 {
            None
        } else {
            Some(q as i64)
        }
    }

    /// Matrix-tuple product for entries of any magnitude, such as an
    /// inverse: `Some` exactly when every component's exact value stays
    /// within `bound` units, so nothing is silently truncated.
    pub fn mul_tuple_checked(&self, rhs: &Tuple, bound: i64) -> (r: Option<Tuple>)
        requires
            tuple_within(*rhs, MUL_MAX as int),
            0 <= bound,
        ensures
            match r {
                Some(u) => {
                    &&& spec_mv_within(*self, *rhs, bound as int)
                    &&& u == spec_mat_tuple(*self, *rhs)
                    &&& tuple_within(u, bound as int)
                },
                None => !spec_mv_within(*self, *rhs, bound as int),
            },
    {
        let x = match Self::row_dot_wide(self.m00, self.m01, self.m02, self.m03, rhs, bound) {
            Some(v) => v,
            None => {
                return None;
            },
        };
        let y = match Self::row_dot_wide(self.m10, self.m11, self.m12, self.m13, rhs, bound) {
            Some(v) => v,
            None => {
                return None;
            },
        };
        let z = match Self::row_dot_wide(self.m20, self.m21, self.m22, self.m23, rhs, bound) {
            Some(v) => v,
            None => {
                return None;
            },
        };
        let w = match Self::row_dot_wide(self.m30, self.m31, self.m32, self.m33, rhs, bound) {
            Some(v) => v,
            None => {
                return None;
            },
        };
        Some(Tuple { x, y, z, w })
    }

    /// Runtime check that every entry lies within `[-bound, bound]`.
    pub fn entries_within(&self, bound: i64) -> (r: bool)
        requires
            0 <= bound,
        ensures
            r == spec_entries_within4(*self, bound as int),
    {
        -bound <= self.m00 && self.m00 <= bound && -bound <= self.m01 && self.m01 <= bound && -bound <= self.m02 && self.m02 <= bound && -bound <= self.m03 && self.m03 <= bound && -bound <= self.m10 && self.m10 <= bound && -bound <= self.m11 && self.m11 <= bound && -bound <= self.m12 && self.m12 <= bound && -bound <= self.m13 && self.m13 <= bound && -bound <= self.m20 && self.m20 <= bound && -bound <= self.m21 && self.m21 <= bound && -bound <= self.m22 && self.m22 <= bound && -bound <= self.m23 && self.m23 <= bound && -bound <= self.m30 && self.m30 <= bound && -bound <= self.m31 && self.m31 <= bound && -bound <= self.m32 && self.m32 <= bound && -bound <= self.m33 && self.m33 <= bound
    }
}

/// Entry-wise approximate equality at the standard tolerance.
pub open spec fn spec_matrix_approx_eq(a: Matrix4, b: Matrix4) -> bool {
    &&& approx_eq_s(a.m00 as int, b.m00 as int, EPSILON as int)
    &&& approx_eq_s(a.m01 as int, b.m01 as int, EPSILON as int)
    &&& approx_eq_s(a.m02 as int, b.m02 as int, EPSILON as int)
    &&& approx_eq_s(a.m03 as int, b.m03 as int, EPSILON as int)
    &&& approx_eq_s(a.m10 as int, b.m10 as int, EPSILON as int)
    &&& approx_eq_s(a.m11 as int, b.m11 as int, EPSILON as int)
    &&& approx_eq_s(a.m12 as int, b.m12 as int, EPSILON as int)
    &&& approx_eq_s(a.m13 as int, b.m13 as int, EPSILON as int)
    &&& approx_eq_s(a.m20 as int, b.m20 as int, EPSILON as int)
    &&& approx_eq_s(a.m21 as int, b.m21 as int, EPSILON as int)
    &&& approx_eq_s(a.m22 as int, b.m22 as int, EPSILON as int)
    &&& approx_eq_s(a.m23 as int, b.m23 as int, EPSILON as int)
    &&& approx_eq_s(a.m30 as int, b.m30 as int, EPSILON as int)
    &&& approx_eq_s(a.m31 as int, b.m31 as int, EPSILON as int)
    &&& approx_eq_s(a.m32 as int, b.m32 as int, EPSILON as int)
    &&& approx_eq_s(a.m33 as int, b.m33 as int, EPSILON as int)
}

impl PartialEq for Matrix2 {
    /// Approximate equality, entry by entry, at the standard tolerance.
    fn eq(&self, other: &Self) -> (r: bool) {
        approx_eq_epsilon(self.m00, other.m00, EPSILON) && approx_eq_epsilon(
            self.m01,
            other.m01,
            EPSILON,
        ) && approx_eq_epsilon(self.m10, other.m10, EPSILON) && approx_eq_epsilon(
            self.m11,
            other.m11,
            EPSILON,
        )
    }
}

impl vstd::std_specs::cmp::PartialEqSpecImpl for Matrix2 {
    open spec fn obeys_eq_spec() -> bool {
        true
    }

    open spec fn eq_spec(&self, other: &Matrix2) -> bool {
        approx_eq_s(self.m00 as int, other.m00 as int, EPSILON as int) && approx_eq_s(
            self.m01 as int,
            other.m01 as int,
            EPSILON as int,
        ) && approx_eq_s(self.m10 as int, other.m10 as int, EPSILON as int) && approx_eq_s(
            self.m11 as int,
            other.m11 as int,
            EPSILON as int,
        )
    }
}

impl PartialEq for Matrix4 {
    /// Approximate equality, entry by entry, at the standard tolerance.
    fn eq(&self, other: &Self) -> (r: bool) {
        approx_eq_epsilon(self.m00, other.m00, EPSILON) && approx_eq_epsilon(self.m01, other.m01, EPSILON)
            && approx_eq_epsilon(self.m02, other.m02, EPSILON) && approx_eq_epsilon(self.m03, other.m03, EPSILON)
            && approx_eq_epsilon(self.m10, other.m10, EPSILON) && approx_eq_epsilon(self.m11, other.m11, EPSILON)
            && approx_eq_epsilon(self.m12, other.m12, EPSILON) && approx_eq_epsilon(self.m13, other.m13, EPSILON)
            && approx_eq_epsilon(self.m20, other.m20, EPSILON) && approx_eq_epsilon(self.m21, other.m21, EPSILON)
            && approx_eq_epsilon(self.m22, other.m22, EPSILON) && approx_eq_epsilon(self.m23, other.m23, EPSILON)
            && approx_eq_epsilon(self.m30, other.m30, EPSILON) && approx_eq_epsilon(self.m31, other.m31, EPSILON)
            && approx_eq_epsilon(self.m32, other.m32, EPSILON) && approx_eq_epsilon(self.m33, other.m33, EPSILON)
    }
}

impl vstd::std_specs::cmp::PartialEqSpecImpl for Matrix4 {
    open spec fn obeys_eq_spec() -> bool {
        true
    }

    open spec fn eq_spec(&self, other: &Matrix4) -> bool {
        spec_matrix_approx_eq(*self, *other)
    }
}

/// Multiplying by the identity, on either side, returns the matrix
/// unchanged, rounding included: each entry's dot product collapses to
/// `entry * SCALE / SCALE`.
pub proof fn lemma_identity_fixed_point(m: Matrix4)
    ensures
        forall|i: int, j: int|
            0 <= i < 4 && 0 <= j < 4 ==> #[trigger] spec_mul_entry(m, spec_identity(), i, j)
                == spec_at4(m, i, j),
        forall|i: int, j: int|
            0 <= i < 4 && 0 <= j < 4 ==> #[trigger] spec_mul_entry(spec_identity(), m, i, j)
                == spec_at4(m, i, j),
{
    assert(SCALE == 1_000_000);
    assert forall|i: int, j: int| 0 <= i < 4 && 0 <= j < 4 implies #[trigger] spec_mul_entry(
        m,
        spec_identity(),
        i,
        j,
    ) == spec_at4(m, i, j) by {
        if i == 0 {
            if j == 0 {
                assert(spec_at4(spec_identity(), 0, 0) == 1_000_000);
                assert(spec_at4(spec_identity(), 1, 0) == 0);
                assert(spec_at4(spec_identity(), 2, 0) == 0);
                assert(spec_at4(spec_identity(), 3, 0) == 0);
                lemma_div_multiples_vanish(m.m00 as int, 1_000_000);
                assert(spec_mul_entry(m, spec_identity(), 0, 0) == div_floor(
                    (m.m00 as int) * 1_000_000,
                    1_000_000,
                ));
                assert(spec_mul_entry(m, spec_identity(), 0, 0) == m.m00 as int);
            } else if j == 1 {
                assert(spec_at4(spec_identity(), 0, 1) == 0);
                assert(spec_at4(spec_identity(), 1, 1) == 1_000_000);
                assert(spec_at4(spec_identity(), 2, 1) == 0);
                assert(spec_at4(spec_identity(), 3, 1) == 0);
                lemma_div_multiples_vanish(m.m01 as int, 1_000_000);
                assert(spec_mul_entry(m, spec_identity(), 0, 1) == div_floor(
                    (m.m01 as int) * 1_000_000,
                    1_000_000,
                ));
                assert(spec_mul_entry(m, spec_identity(), 0, 1) == m.m01 as int);
            } else if j == 2 {
                assert(spec_at4(spec_identity(), 0, 2) == 0);
                assert(spec_at4(spec_identity(), 1, 2) == 0);
                assert(spec_at4(spec_identity(), 2, 2) == 1_000_000);
                assert(spec_at4(spec_identity(), 3, 2) == 0);
                lemma_div_multiples_vanish(m.m02 as int, 1_000_000);
                assert(spec_mul_entry(m, spec_identity(), 0, 2) == div_floor(
                    (m.m02 as int) * 1_000_000,
                    1_000_000,
                ));
                assert(spec_mul_entry(m, spec_identity(), 0, 2) == m.m02 as int);
            } else {
                assert(spec_at4(spec_identity(), 0, 3) == 0);
                assert(spec_at4(spec_identity(), 1, 3) == 0);
                assert(spec_at4(spec_identity(), 2, 3) == 0);
                assert(spec_at4(spec_identity(), 3, 3) == 1_000_000);
                lemma_div_multiples_vanish(m.m03 as int, 1_000_000);
                assert(spec_mul_entry(m, spec_identity(), 0, 3) == div_floor(
                    (m.m03 as int) * 1_000_000,
                    1_000_000,
                ));
                assert(spec_mul_entry(m, spec_identity(), 0, 3) == m.m03 as int);
            }
        } else if i == 1 {
            if j == 0 {
                assert(spec_at4(spec_identity(), 0, 0) == 1_000_000);
                assert(spec_at4(spec_identity(), 1, 0) == 0);
                assert(spec_at4(spec_identity(), 2, 0) == 0);
                assert(spec_at4(spec_identity(), 3, 0) == 0);
                lemma_div_multiples_vanish(m.m10 as int, 1_000_000);
                assert(spec_mul_entry(m, spec_identity(), 1, 0) == div_floor(
                    (m.m10 as int) * 1_000_000,
                    1_000_000,
                ));
                assert(spec_mul_entry(m, spec_identity(), 1, 0) == m.m10 as int);
            } else if j == 1 {
                assert(spec_at4(spec_identity(), 0, 1) == 0);
                assert(spec_at4(spec_identity(), 1, 1) == 1_000_000);
                assert(spec_at4(spec_identity(), 2, 1) == 0);
                assert(spec_at4(spec_identity(), 3, 1) == 0);
                lemma_div_multiples_vanish(m.m11 as int, 1_000_000);
                assert(spec_mul_entry(m, spec_identity(), 1, 1) == div_floor(
                    (m.m11 as int) * 1_000_000,
                    1_000_000,
                ));
                assert(spec_mul_entry(m, spec_identity(), 1, 1) == m.m11 as int);
            } else if j == 2 {
                assert(spec_at4(spec_identity(), 0, 2) == 0);
                assert(spec_at4(spec_identity(), 1, 2) == 0);
                assert(spec_at4(spec_identity(), 2, 2) == 1_000_000);
                assert(spec_at4(spec_identity(), 3, 2) == 0);
                lemma_div_multiples_vanish(m.m12 as int, 1_000_000);
                assert(spec_mul_entry(m, spec_identity(), 1, 2) == div_floor(
                    (m.m12 as int) * 1_000_000,
                    1_000_000,
                ));
                assert(spec_mul_entry(m, spec_identity(), 1, 2) == m.m12 as int);
            } else {
                assert(spec_at4(spec_identity(), 0, 3) == 0);
                assert(spec_at4(spec_identity(), 1, 3) == 0);
                assert(spec_at4(spec_identity(), 2, 3) == 0);
                assert(spec_at4(spec_identity(), 3, 3) == 1_000_000);
                lemma_div_multiples_vanish(m.m13 as int, 1_000_000);
                assert(spec_mul_entry(m, spec_identity(), 1, 3) == div_floor(
                    (m.m13 as int) * 1_000_000,
                    1_000_000,
                ));
                assert(spec_mul_entry(m, spec_identity(), 1, 3) == m.m13 as int);
            }
        } else if i == 2 {
            if j == 0 {
                assert(spec_at4(spec_identity(), 0, 0) == 1_000_000);
                assert(spec_at4(spec_identity(), 1, 0) == 0);
                assert(spec_at4(spec_identity(), 2, 0) == 0);
                assert(spec_at4(spec_identity(), 3, 0) == 0);
                lemma_div_multiples_vanish(m.m20 as int, 1_000_000);
                assert(spec_mul_entry(m, spec_identity(), 2, 0) == div_floor(
                    (m.m20 as int) * 1_000_000,
                    1_000_000,
                ));
                assert(spec_mul_entry(m, spec_identity(), 2, 0) == m.m20 as int);
            } else if j == 1 {
                assert(spec_at4(spec_identity(), 0, 1) == 0);
                assert(spec_at4(spec_identity(), 1, 1) == 1_000_000);
                assert(spec_at4(spec_identity(), 2, 1) == 0);
                assert(spec_at4(spec_identity(), 3, 1) == 0);
                lemma_div_multiples_vanish(m.m21 as int, 1_000_000);
                assert(spec_mul_entry(m, spec_identity(), 2, 1) == div_floor(
                    (m.m21 as int) * 1_000_000,
                    1_000_000,
                ));
                assert(spec_mul_entry(m, spec_identity(), 2, 1) == m.m21 as int);
            } else if j == 2 {
                assert(spec_at4(spec_identity(), 0, 2) == 0);
                assert(spec_at4(spec_identity(), 1, 2) == 0);
                assert(spec_at4(spec_identity(), 2, 2) == 1_000_000);
                assert(spec_at4(spec_identity(), 3, 2) == 0);
                lemma_div_multiples_vanish(m.m22 as int, 1_000_000);
                assert(spec_mul_entry(m, spec_identity(), 2, 2) == div_floor(
                    (m.m22 as int) * 1_000_000,
                    1_000_000,
                ));
                assert(spec_mul_entry(m, spec_identity(), 2, 2) == m.m22 as int);
            } else {
                assert(spec_at4(spec_identity(), 0, 3) == 0);
                assert(spec_at4(spec_identity(), 1, 3) == 0);
                assert(spec_at4(spec_identity(), 2, 3) == 0);
                assert(spec_at4(spec_identity(), 3, 3) == 1_000_000);
                lemma_div_multiples_vanish(m.m23 as int, 1_000_000);
                assert(spec_mul_entry(m, spec_identity(), 2, 3) == div_floor(
                    (m.m23 as int) * 1_000_000,
                    1_000_000,
                ));
                assert(spec_mul_entry(m, spec_identity(), 2, 3) == m.m23 as int);
            }
        } else {
            if j == 0 {
                assert(spec_at4(spec_identity(), 0, 0) == 1_000_000);
                assert(spec_at4(spec_identity(), 1, 0) == 0);
                assert(spec_at4(spec_identity(), 2, 0) == 0);
                assert(spec_at4(spec_identity(), 3, 0) == 0);
                lemma_div_multiples_vanish(m.m30 as int, 1_000_000);
                assert(spec_mul_entry(m, spec_identity(), 3, 0) == div_floor(
                    (m.m30 as int) * 1_000_000,
                    1_000_000,
                ));
                assert(spec_mul_entry(m, spec_identity(), 3, 0) == m.m30 as int);
            } else if j == 1 {
                assert(spec_at4(spec_identity(), 0, 1) == 0);
                assert(spec_at4(spec_identity(), 1, 1) == 1_000_000);
                assert(spec_at4(spec_identity(), 2, 1) == 0);
                assert(spec_at4(spec_identity(), 3, 1) == 0);
                lemma_div_multiples_vanish(m.m31 as int, 1_000_000);
                assert(spec_mul_entry(m, spec_identity(), 3, 1) == div_floor(
                    (m.m31 as int) * 1_000_000,
                    1_000_000,
                ));
                assert(spec_mul_entry(m, spec_identity(), 3, 1) == m.m31 as int);
            } else if j == 2 {
                assert(spec_at4(spec_identity(), 0, 2) == 0);
                assert(spec_at4(spec_identity(), 1, 2) == 0);
                assert(spec_at4(spec_identity(), 2, 2) == 1_000_000);
                assert(spec_at4(spec_identity(), 3, 2) == 0);
                lemma_div_multiples_vanish(m.m32 as int, 1_000_000);
                assert(spec_mul_entry(m, spec_identity(), 3, 2) == div_floor(
                    (m.m32 as int) * 1_000_000,
                    1_000_000,
                ));
                assert(spec_mul_entry(m, spec_identity(), 3, 2) == m.m32 as int);
            } else {
                assert(spec_at4(spec_identity(), 0, 3) == 0);
                assert(spec_at4(spec_identity(), 1, 3) == 0);
                assert(spec_at4(spec_identity(), 2, 3) == 0);
                assert(spec_at4(spec_identity(), 3, 3) == 1_000_000);
                lemma_div_multiples_vanish(m.m33 as int, 1_000_000);
                assert(spec_mul_entry(m, spec_identity(), 3, 3) == div_floor(
                    (m.m33 as int) * 1_000_000,
                    1_000_000,
                ));
                assert(spec_mul_entry(m, spec_identity(), 3, 3) == m.m33 as int);
            }
        }
    }
    assert forall|i: int, j: int| 0 <= i < 4 && 0 <= j < 4 implies #[trigger] spec_mul_entry(
        spec_identity(),
        m,
        i,
        j,
    ) == spec_at4(m, i, j) by {
        if i == 0 {
            if j == 0 {
                assert(spec_at4(spec_identity(), 0, 0) == 1_000_000);
                assert(spec_at4(spec_identity(), 0, 1) == 0);
                assert(spec_at4(spec_identity(), 0, 2) == 0);
                assert(spec_at4(spec_identity(), 0, 3) == 0);
                lemma_div_multiples_vanish(m.m00 as int, 1_000_000);
                assert(spec_mul_entry(spec_identity(), m, 0, 0) == div_floor(
                    1_000_000 * (m.m00 as int),
                    1_000_000,
                ));
                assert(spec_mul_entry(spec_identity(), m, 0, 0) == m.m00 as int);
            } else if j == 1 {
                assert(spec_at4(spec_identity(), 0, 0) == 1_000_000);
                assert(spec_at4(spec_identity(), 0, 1) == 0);
                assert(spec_at4(spec_identity(), 0, 2) == 0);
                assert(spec_at4(spec_identity(), 0, 3) == 0);
                lemma_div_multiples_vanish(m.m01 as int, 1_000_000);
                assert(spec_mul_entry(spec_identity(), m, 0, 1) == div_floor(
                    1_000_000 * (m.m01 as int),
                    1_000_000,
                ));
                assert(spec_mul_entry(spec_identity(), m, 0, 1) == m.m01 as int);
            } else if j == 2 {
                assert(spec_at4(spec_identity(), 0, 0) == 1_000_000);
                assert(spec_at4(spec_identity(), 0, 1) == 0);
                assert(spec_at4(spec_identity(), 0, 2) == 0);
                assert(spec_at4(spec_identity(), 0, 3) == 0);
                lemma_div_multiples_vanish(m.m02 as int, 1_000_000);
                assert(spec_mul_entry(spec_identity(), m, 0, 2) == div_floor(
                    1_000_000 * (m.m02 as int),
                    1_000_000,
                ));
                assert(spec_mul_entry(spec_identity(), m, 0, 2) == m.m02 as int);
            } else {
                assert(spec_at4(spec_identity(), 0, 0) == 1_000_000);
                assert(spec_at4(spec_identity(), 0, 1) == 0);
                assert(spec_at4(spec_identity(), 0, 2) == 0);
                assert(spec_at4(spec_identity(), 0, 3) == 0);
                lemma_div_multiples_vanish(m.m03 as int, 1_000_000);
                assert(spec_mul_entry(spec_identity(), m, 0, 3) == div_floor(
                    1_000_000 * (m.m03 as int),
                    1_000_000,
                ));
                assert(spec_mul_entry(spec_identity(), m, 0, 3) == m.m03 as int);
            }
        } else if i == 1 {
            if j == 0 {
                assert(spec_at4(spec_identity(), 1, 0) == 0);
                assert(spec_at4(spec_identity(), 1, 1) == 1_000_000);
                assert(spec_at4(spec_identity(), 1, 2) == 0);
                assert(spec_at4(spec_identity(), 1, 3) == 0);
                lemma_div_multiples_vanish(m.m10 as int, 1_000_000);
                assert(spec_mul_entry(spec_identity(), m, 1, 0) == div_floor(
                    1_000_000 * (m.m10 as int),
                    1_000_000,
                ));
                assert(spec_mul_entry(spec_identity(), m, 1, 0) == m.m10 as int);
            } else if j == 1 {
                assert(spec_at4(spec_identity(), 1, 0) == 0);
                assert(spec_at4(spec_identity(), 1, 1) == 1_000_000);
                assert(spec_at4(spec_identity(), 1, 2) == 0);
                assert(spec_at4(spec_identity(), 1, 3) == 0);
                lemma_div_multiples_vanish(m.m11 as int, 1_000_000);
                assert(spec_mul_entry(spec_identity(), m, 1, 1) == div_floor(
                    1_000_000 * (m.m11 as int),
                    1_000_000,
                ));
                assert(spec_mul_entry(spec_identity(), m, 1, 1) == m.m11 as int);
            } else if j == 2 {
                assert(spec_at4(spec_identity(), 1, 0) == 0);
                assert(spec_at4(spec_identity(), 1, 1) == 1_000_000);
                assert(spec_at4(spec_identity(), 1, 2) == 0);
                assert(spec_at4(spec_identity(), 1, 3) == 0);
                lemma_div_multiples_vanish(m.m12 as int, 1_000_000);
                assert(spec_mul_entry(spec_identity(), m, 1, 2) == div_floor(
                    1_000_000 * (m.m12 as int),
                    1_000_000,
                ));
                assert(spec_mul_entry(spec_identity(), m, 1, 2) == m.m12 as int);
            } else {
                assert(spec_at4(spec_identity(), 1, 0) == 0);
                assert(spec_at4(spec_identity(), 1, 1) == 1_000_000);
                assert(spec_at4(spec_identity(), 1, 2) == 0);
                assert(spec_at4(spec_identity(), 1, 3) == 0);
                lemma_div_multiples_vanish(m.m13 as int, 1_000_000);
                assert(spec_mul_entry(spec_identity(), m, 1, 3) == div_floor(
                    1_000_000 * (m.m13 as int),
                    1_000_000,
                ));
                assert(spec_mul_entry(spec_identity(), m, 1, 3) == m.m13 as int);
            }
        } else if i == 2 {
            if j == 0 {
                assert(spec_at4(spec_identity(), 2, 0) == 0);
                assert(spec_at4(spec_identity(), 2, 1) == 0);
                assert(spec_at4(spec_identity(), 2, 2) == 1_000_000);
                assert(spec_at4(spec_identity(), 2, 3) == 0);
                lemma_div_multiples_vanish(m.m20 as int, 1_000_000);
                assert(spec_mul_entry(spec_identity(), m, 2, 0) == div_floor(
                    1_000_000 * (m.m20 as int),
                    1_000_000,
                ));
                assert(spec_mul_entry(spec_identity(), m, 2, 0) == m.m20 as int);
            } else if j == 1 {
                assert(spec_at4(spec_identity(), 2, 0) == 0);
                assert(spec_at4(spec_identity(), 2, 1) == 0);
                assert(spec_at4(spec_identity(), 2, 2) == 1_000_000);
                assert(spec_at4(spec_identity(), 2, 3) == 0);
                lemma_div_multiples_vanish(m.m21 as int, 1_000_000);
                assert(spec_mul_entry(spec_identity(), m, 2, 1) == div_floor(
                    1_000_000 * (m.m21 as int),
                    1_000_000,
                ));
                assert(spec_mul_entry(spec_identity(), m, 2, 1) == m.m21 as int);
            } else if j == 2 {
                assert(spec_at4(spec_identity(), 2, 0) == 0);
                assert(spec_at4(spec_identity(), 2, 1) == 0);
                assert(spec_at4(spec_identity(), 2, 2) == 1_000_000);
                assert(spec_at4(spec_identity(), 2, 3) == 0);
                lemma_div_multiples_vanish(m.m22 as int, 1_000_000);
                assert(spec_mul_entry(spec_identity(), m, 2, 2) == div_floor(
                    1_000_000 * (m.m22 as int),
                    1_000_000,
                ));
                assert(spec_mul_entry(spec_identity(), m, 2, 2) == m.m22 as int);
            } else {
                assert(spec_at4(spec_identity(), 2, 0) == 0);
                assert(spec_at4(spec_identity(), 2, 1) == 0);
                assert(spec_at4(spec_identity(), 2, 2) == 1_000_000);
                assert(spec_at4(spec_identity(), 2, 3) == 0);
                lemma_div_multiples_vanish(m.m23 as int, 1_000_000);
                assert(spec_mul_entry(spec_identity(), m, 2, 3) == div_floor(
                    1_000_000 * (m.m23 as int),
                    1_000_000,
                ));
                assert(spec_mul_entry(spec_identity(), m, 2, 3) == m.m23 as int);
            }
        } else {
            if j == 0 {
                assert(spec_at4(spec_identity(), 3, 0) == 0);
                assert(spec_at4(spec_identity(), 3, 1) == 0);
                assert(spec_at4(spec_identity(), 3, 2) == 0);
                assert(spec_at4(spec_identity(), 3, 3) == 1_000_000);
                lemma_div_multiples_vanish(m.m30 as int, 1_000_000);
                assert(spec_mul_entry(spec_identity(), m, 3, 0) == div_floor(
                    1_000_000 * (m.m30 as int),
                    1_000_000,
                ));
                assert(spec_mul_entry(spec_identity(), m, 3, 0) == m.m30 as int);
            } else if j == 1 {
                assert(spec_at4(spec_identity(), 3, 0) == 0);
                assert(spec_at4(spec_identity(), 3, 1) == 0);
                assert(spec_at4(spec_identity(), 3, 2) == 0);
                assert(spec_at4(spec_identity(), 3, 3) == 1_000_000);
                lemma_div_multiples_vanish(m.m31 as int, 1_000_000);
                assert(spec_mul_entry(spec_identity(), m, 3, 1) == div_floor(
                    1_000_000 * (m.m31 as int),
                    1_000_000,
                ));
                assert(spec_mul_entry(spec_identity(), m, 3, 1) == m.m31 as int);
            } else if j == 2 {
                assert(spec_at4(spec_identity(), 3, 0) == 0);
                assert(spec_at4(spec_identity(), 3, 1) == 0);
                assert(spec_at4(spec_identity(), 3, 2) == 0);
                assert(spec_at4(spec_identity(), 3, 3) == 1_000_000);
                lemma_div_multiples_vanish(m.m32 as int, 1_000_000);
                assert(spec_mul_entry(spec_identity(), m, 3, 2) == div_floor(
                    1_000_000 * (m.m32 as int),
                    1_000_000,
                ));
                assert(spec_mul_entry(spec_identity(), m, 3, 2) == m.m32 as int);
            } else {
                assert(spec_at4(spec_identity(), 3, 0) == 0);
                assert(spec_at4(spec_identity(), 3, 1) == 0);
                assert(spec_at4(spec_identity(), 3, 2) == 0);
                assert(spec_at4(spec_identity(), 3, 3) == 1_000_000);
                lemma_div_multiples_vanish(m.m33 as int, 1_000_000);
                assert(spec_mul_entry(spec_identity(), m, 3, 3) == div_floor(
                    1_000_000 * (m.m33 as int),
                    1_000_000,
                ));
                assert(spec_mul_entry(spec_identity(), m, 3, 3) == m.m33 as int);
            }
        }
    }
}

/// Transposing twice returns the original matrix.
pub proof fn lemma_transpose_self_inverse(m: Matrix4)
    ensures
        spec_transpose4(spec_transpose4(m)) == m,
{
}

proof fn lemma_adj_entry_0_0(m: Matrix4)
    ensures
        spec_adj_mul_entry(m, 0, 0) == spec_det4_num(m),
{
    let a00 = m.m00 as int;
    let a01 = m.m01 as int;
    let a02 = m.m02 as int;
    let a03 = m.m03 as int;
    let a10 = m.m10 as int;
    let a11 = m.m11 as int;
    let a12 = m.m12 as int;
    let a13 = m.m13 as int;
    let a20 = m.m20 as int;
    let a21 = m.m21 as int;
    let a22 = m.m22 as int;
    let a23 = m.m23 as int;
    let a30 = m.m30 as int;
    let a31 = m.m31 as int;
    let a32 = m.m32 as int;
    let a33 = m.m33 as int;
    let c0 = spec_cof4_num(m, 0, 0);
    let t0x1 = a11 * (a22 * a33);
    let t0x2 = a11 * (a23 * a32);
    assert(a11 * (a22 * a33 - a23 * a32) == t0x1
        - t0x2) by (nonlinear_arith)
        requires
            t0x1 == a11 * (a22 * a33),
            t0x2 == a11 * (a23 * a32),
    ;
    let t0x3 = a12 * (a21 * a33);
    let t0x4 = a12 * (a23 * a31);
    assert(a12 * (a21 * a33 - a23 * a31) == t0x3
        - t0x4) by (nonlinear_arith)
        requires
            t0x3 == a12 * (a21 * a33),
            t0x4 == a12 * (a23 * a31),
    ;
    let t0x5 = a13 * (a21 * a32);
    let t0x6 = a13 * (a22 * a31);
    assert(a13 * (a21 * a32 - a22 * a31) == t0x5
        - t0x6) by (nonlinear_arith)
        requires
            t0x5 == a13 * (a21 * a32),
            t0x6 == a13 * (a22 * a31),
    ;
    assert(c0 == t0x1 - t0x2 - t0x3 + t0x4 + t0x5 - t0x6);
    let s0x1 = t0x1 * a00;
    let s0x2 = t0x2 * a00;
    let s0x3 = t0x3 * a00;
    let s0x4 = t0x4 * a00;
    let s0x5 = t0x5 * a00;
    let s0x6 = t0x6 * a00;
    assert(c0 * a00 == s0x1 - s0x2 - s0x3 + s0x4 + s0x5 - s0x6) by (nonlinear_arith)
        requires
            c0 == t0x1 - t0x2 - t0x3 + t0x4 + t0x5 - t0x6,
            s0x1 == t0x1 * a00,
            s0x2 == t0x2 * a00,
            s0x3 == t0x3 * a00,
            s0x4 == t0x4 * a00,
            s0x5 == t0x5 * a00,
            s0x6 == t0x6 * a00,
    ;
    assert(s0x1 == a00 * a11 * a22 * a33) by (nonlinear_arith)
        requires
            s0x1 == t0x1 * a00,
            t0x1 == a11 * (a22 * a33),
    ;
    assert(s0x2 == a00 * a11 * a23 * a32) by (nonlinear_arith)
        requires
            s0x2 == t0x2 * a00,
            t0x2 == a11 * (a23 * a32),
    ;
    assert(s0x3 == a00 * a12 * a21 * a33) by (nonlinear_arith)
        requires
            s0x3 == t0x3 * a00,
            t0x3 == a12 * (a21 * a33),
    ;
    assert(s0x4 == a00 * a12 * a23 * a31) by (nonlinear_arith)
        requires
            s0x4 == t0x4 * a00,
            t0x4 == a12 * (a23 * a31),
    ;
    assert(s0x5 == a00 * a13 * a21 * a32) by (nonlinear_arith)
        requires
            s0x5 == t0x5 * a00,
            t0x5 == a13 * (a21 * a32),
    ;
    assert(s0x6 == a00 * a13 * a22 * a31) by (nonlinear_arith)
        requires
            s0x6 == t0x6 * a00,
            t0x6 == a13 * (a22 * a31),
    ;
    let c1 = spec_cof4_num(m, 1, 0);
    let t1x1 = a01 * (a22 * a33);
    let t1x2 = a01 * (a23 * a32);
    assert(a01 * (a22 * a33 - a23 * a32) == t1x1
        - t1x2) by (nonlinear_arith)
        requires
            t1x1 == a01 * (a22 * a33),
            t1x2 == a01 * (a23 * a32),
    ;
    let t1x3 = a02 * (a21 * a33);
    let t1x4 = a02 * (a23 * a31);
    assert(a02 * (a21 * a33 - a23 * a31) == t1x3
        - t1x4) by (nonlinear_arith)
        requires
            t1x3 == a02 * (a21 * a33),
            t1x4 == a02 * (a23 * a31),
    ;
    let t1x5 = a03 * (a21 * a32);
    let t1x6 = a03 * (a22 * a31);
    assert(a03 * (a21 * a32 - a22 * a31) == t1x5
        - t1x6) by (nonlinear_arith)
        requires
            t1x5 == a03 * (a21 * a32),
            t1x6 == a03 * (a22 * a31),
    ;
    assert(c1 == -(t1x1 - t1x2 - t1x3 + t1x4 + t1x5 - t1x6));
    let s1x1 = t1x1 * a10;
    let s1x2 = t1x2 * a10;
    let s1x3 = t1x3 * a10;
    let s1x4 = t1x4 * a10;
    let s1x5 = t1x5 * a10;
    let s1x6 = t1x6 * a10;
    assert(c1 * a10 == -(s1x1 - s1x2 - s1x3 + s1x4 + s1x5 - s1x6)) by (nonlinear_arith)
        requires
            c1 == -(t1x1 - t1x2 - t1x3 + t1x4 + t1x5 - t1x6),
            s1x1 == t1x1 * a10,
            s1x2 == t1x2 * a10,
            s1x3 == t1x3 * a10,
            s1x4 == t1x4 * a10,
            s1x5 == t1x5 * a10,
            s1x6 == t1x6 * a10,
    ;
    assert(s1x1 == a01 * a10 * a22 * a33) by (nonlinear_arith)
        requires
            s1x1 == t1x1 * a10,
            t1x1 == a01 * (a22 * a33),
    ;
    assert(s1x2 == a01 * a10 * a23 * a32) by (nonlinear_arith)
        requires
            s1x2 == t1x2 * a10,
            t1x2 == a01 * (a23 * a32),
    ;
    assert(s1x3 == a02 * a10 * a21 * a33) by (nonlinear_arith)
        requires
            s1x3 == t1x3 * a10,
            t1x3 == a02 * (a21 * a33),
    ;
    assert(s1x4 == a02 * a10 * a23 * a31) by (nonlinear_arith)
        requires
            s1x4 == t1x4 * a10,
            t1x4 == a02 * (a23 * a31),
    ;
    assert(s1x5 == a03 * a10 * a21 * a32) by (nonlinear_arith)
        requires
            s1x5 == t1x5 * a10,
            t1x5 == a03 * (a21 * a32),
    ;
    assert(s1x6 == a03 * a10 * a22 * a31) by (nonlinear_arith)
        requires
            s1x6 == t1x6 * a10,
            t1x6 == a03 * (a22 * a31),
    ;
    let c2 = spec_cof4_num(m, 2, 0);
    let t2x1 = a01 * (a12 * a33);
    let t2x2 = a01 * (a13 * a32);
    assert(a01 * (a12 * a33 - a13 * a32) == t2x1
        - t2x2) by (nonlinear_arith)
        requires
            t2x1 == a01 * (a12 * a33),
            t2x2 == a01 * (a13 * a32),
    ;
    let t2x3 = a02 * (a11 * a33);
    let t2x4 = a02 * (a13 * a31);
    assert(a02 * (a11 * a33 - a13 * a31) == t2x3
        - t2x4) by (nonlinear_arith)
        requires
            t2x3 == a02 * (a11 * a33),
            t2x4 == a02 * (a13 * a31),
    ;
    let t2x5 = a03 * (a11 * a32);
    let t2x6 = a03 * (a12 * a31);
    assert(a03 * (a11 * a32 - a12 * a31) == t2x5
        - t2x6) by (nonlinear_arith)
        requires
            t2x5 == a03 * (a11 * a32),
            t2x6 == a03 * (a12 * a31),
    ;
    assert(c2 == t2x1 - t2x2 - t2x3 + t2x4 + t2x5 - t2x6);
    let s2x1 = t2x1 * a20;
    let s2x2 = t2x2 * a20;
    let s2x3 = t2x3 * a20;
    let s2x4 = t2x4 * a20;
    let s2x5 = t2x5 * a20;
    let s2x6 = t2x6 * a20;
    assert(c2 * a20 == s2x1 - s2x2 - s2x3 + s2x4 + s2x5 - s2x6) by (nonlinear_arith)
        requires
            c2 == t2x1 - t2x2 - t2x3 + t2x4 + t2x5 - t2x6,
            s2x1 == t2x1 * a20,
            s2x2 == t2x2 * a20,
            s2x3 == t2x3 * a20,
            s2x4 == t2x4 * a20,
            s2x5 == t2x5 * a20,
            s2x6 == t2x6 * a20,
    ;
    assert(s2x1 == a01 * a12 * a20 * a33) by (nonlinear_arith)
        requires
            s2x1 == t2x1 * a20,
            t2x1 == a01 * (a12 * a33),
    ;
    assert(s2x2 == a01 * a13 * a20 * a32) by (nonlinear_arith)
        requires
            s2x2 == t2x2 * a20,
            t2x2 == a01 * (a13 * a32),
    ;
    assert(s2x3 == a02 * a11 * a20 * a33) by (nonlinear_arith)
        requires
            s2x3 == t2x3 * a20,
            t2x3 == a02 * (a11 * a33),
    ;
    assert(s2x4 == a02 * a13 * a20 * a31) by (nonlinear_arith)
        requires
            s2x4 == t2x4 * a20,
            t2x4 == a02 * (a13 * a31),
    ;
    assert(s2x5 == a03 * a11 * a20 * a32) by (nonlinear_arith)
        requires
            s2x5 == t2x5 * a20,
            t2x5 == a03 * (a11 * a32),
    ;
    assert(s2x6 == a03 * a12 * a20 * a31) by (nonlinear_arith)
        requires
            s2x6 == t2x6 * a20,
            t2x6 == a03 * (a12 * a31),
    ;
    let c3 = spec_cof4_num(m, 3, 0);
    let t3x1 = a01 * (a12 * a23);
    let t3x2 = a01 * (a13 * a22);
    assert(a01 * (a12 * a23 - a13 * a22) == t3x1
        - t3x2) by (nonlinear_arith)
        requires
            t3x1 == a01 * (a12 * a23),
            t3x2 == a01 * (a13 * a22),
    ;
    let t3x3 = a02 * (a11 * a23);
    let t3x4 = a02 * (a13 * a21);
    assert(a02 * (a11 * a23 - a13 * a21) == t3x3
        - t3x4) by (nonlinear_arith)
        requires
            t3x3 == a02 * (a11 * a23),
            t3x4 == a02 * (a13 * a21),
    ;
    let t3x5 = a03 * (a11 * a22);
    let t3x6 = a03 * (a12 * a21);
    assert(a03 * (a11 * a22 - a12 * a21) == t3x5
        - t3x6) by (nonlinear_arith)
        requires
            t3x5 == a03 * (a11 * a22),
            t3x6 == a03 * (a12 * a21),
    ;
    assert(c3 == -(t3x1 - t3x2 - t3x3 + t3x4 + t3x5 - t3x6));
    let s3x1 = t3x1 * a30;
    let s3x2 = t3x2 * a30;
    let s3x3 = t3x3 * a30;
    let s3x4 = t3x4 * a30;
    let s3x5 = t3x5 * a30;
    let s3x6 = t3x6 * a30;
    assert(c3 * a30 == -(s3x1 - s3x2 - s3x3 + s3x4 + s3x5 - s3x6)) by (nonlinear_arith)
        requires
            c3 == -(t3x1 - t3x2 - t3x3 + t3x4 + t3x5 - t3x6),
            s3x1 == t3x1 * a30,
            s3x2 == t3x2 * a30,
            s3x3 == t3x3 * a30,
            s3x4 == t3x4 * a30,
            s3x5 == t3x5 * a30,
            s3x6 == t3x6 * a30,
    ;
    assert(s3x1 == a01 * a12 * a23 * a30) by (nonlinear_arith)
        requires
            s3x1 == t3x1 * a30,
            t3x1 == a01 * (a12 * a23),
    ;
    assert(s3x2 == a01 * a13 * a22 * a30) by (nonlinear_arith)
        requires
            s3x2 == t3x2 * a30,
            t3x2 == a01 * (a13 * a22),
    ;
    assert(s3x3 == a02 * a11 * a23 * a30) by (nonlinear_arith)
        requires
            s3x3 == t3x3 * a30,
            t3x3 == a02 * (a11 * a23),
    ;
    assert(s3x4 == a02 * a13 * a21 * a30) by (nonlinear_arith)
        requires
            s3x4 == t3x4 * a30,
            t3x4 == a02 * (a13 * a21),
    ;
    assert(s3x5 == a03 * a11 * a22 * a30) by (nonlinear_arith)
        requires
            s3x5 == t3x5 * a30,
            t3x5 == a03 * (a11 * a22),
    ;
    assert(s3x6 == a03 * a12 * a21 * a30) by (nonlinear_arith)
        requires
            s3x6 == t3x6 * a30,
            t3x6 == a03 * (a12 * a21),
    ;
    let d = spec_det4_num(m);
    let b0 = spec_cof4_num(m, 0, 0);
    let u0x1 = a11 * (a22 * a33);
    let u0x2 = a11 * (a23 * a32);
    assert(a11 * (a22 * a33 - a23 * a32) == u0x1
        - u0x2) by (nonlinear_arith)
        requires
            u0x1 == a11 * (a22 * a33),
            u0x2 == a11 * (a23 * a32),
    ;
    let u0x3 = a12 * (a21 * a33);
    let u0x4 = a12 * (a23 * a31);
    assert(a12 * (a21 * a33 - a23 * a31) == u0x3
        - u0x4) by (nonlinear_arith)
        requires
            u0x3 == a12 * (a21 * a33),
            u0x4 == a12 * (a23 * a31),
    ;
    let u0x5 = a13 * (a21 * a32);
    let u0x6 = a13 * (a22 * a31);
    assert(a13 * (a21 * a32 - a22 * a31) == u0x5
        - u0x6) by (nonlinear_arith)
        requires
            u0x5 == a13 * (a21 * a32),
            u0x6 == a13 * (a22 * a31),
    ;
    assert(b0 == u0x1 - u0x2 - u0x3 + u0x4 + u0x5 - u0x6);
    let v0x1 = u0x1 * a00;
    let v0x2 = u0x2 * a00;
    let v0x3 = u0x3 * a00;
    let v0x4 = u0x4 * a00;
    let v0x5 = u0x5 * a00;
    let v0x6 = u0x6 * a00;
    assert(a00 * b0 == v0x1 - v0x2 - v0x3 + v0x4 + v0x5 - v0x6) by (nonlinear_arith)
        requires
            b0 == u0x1 - u0x2 - u0x3 + u0x4 + u0x5 - u0x6,
            v0x1 == u0x1 * a00,
            v0x2 == u0x2 * a00,
            v0x3 == u0x3 * a00,
            v0x4 == u0x4 * a00,
            v0x5 == u0x5 * a00,
            v0x6 == u0x6 * a00,
    ;
    assert(v0x1 == a00 * a11 * a22 * a33) by (nonlinear_arith)
        requires
            v0x1 == u0x1 * a00,
            u0x1 == a11 * (a22 * a33),
    ;
    assert(v0x2 == a00 * a11 * a23 * a32) by (nonlinear_arith)
        requires
            v0x2 == u0x2 * a00,
            u0x2 == a11 * (a23 * a32),
    ;
    assert(v0x3 == a00 * a12 * a21 * a33) by (nonlinear_arith)
        requires
            v0x3 == u0x3 * a00,
            u0x3 == a12 * (a21 * a33),
    ;
    assert(v0x4 == a00 * a12 * a23 * a31) by (nonlinear_arith)
        requires
            v0x4 == u0x4 * a00,
            u0x4 == a12 * (a23 * a31),
    ;
    assert(v0x5 == a00 * a13 * a21 * a32) by (nonlinear_arith)
        requires
            v0x5 == u0x5 * a00,
            u0x5 == a13 * (a21 * a32),
    ;
    assert(v0x6 == a00 * a13 * a22 * a31) by (nonlinear_arith)
        requires
            v0x6 == u0x6 * a00,
            u0x6 == a13 * (a22 * a31),
    ;
    let b1 = spec_cof4_num(m, 0, 1);
    let u1x1 = a10 * (a22 * a33);
    let u1x2 = a10 * (a23 * a32);
    assert(a10 * (a22 * a33 - a23 * a32) == u1x1
        - u1x2) by (nonlinear_arith)
        requires
            u1x1 == a10 * (a22 * a33),
            u1x2 == a10 * (a23 * a32),
    ;
    let u1x3 = a12 * (a20 * a33);
    let u1x4 = a12 * (a23 * a30);
    assert(a12 * (a20 * a33 - a23 * a30) == u1x3
        - u1x4) by (nonlinear_arith)
        requires
            u1x3 == a12 * (a20 * a33),
            u1x4 == a12 * (a23 * a30),
    ;
    let u1x5 = a13 * (a20 * a32);
    let u1x6 = a13 * (a22 * a30);
    assert(a13 * (a20 * a32 - a22 * a30) == u1x5
        - u1x6) by (nonlinear_arith)
        requires
            u1x5 == a13 * (a20 * a32),
            u1x6 == a13 * (a22 * a30),
    ;
    assert(b1 == -(u1x1 - u1x2 - u1x3 + u1x4 + u1x5 - u1x6));
    let v1x1 = u1x1 * a01;
    let v1x2 = u1x2 * a01;
    let v1x3 = u1x3 * a01;
    let v1x4 = u1x4 * a01;
    let v1x5 = u1x5 * a01;
    let v1x6 = u1x6 * a01;
    assert(a01 * b1 == -(v1x1 - v1x2 - v1x3 + v1x4 + v1x5 - v1x6)) by (nonlinear_arith)
        requires
            b1 == -(u1x1 - u1x2 - u1x3 + u1x4 + u1x5 - u1x6),
            v1x1 == u1x1 * a01,
            v1x2 == u1x2 * a01,
            v1x3 == u1x3 * a01,
            v1x4 == u1x4 * a01,
            v1x5 == u1x5 * a01,
            v1x6 == u1x6 * a01,
    ;
    assert(v1x1 == a01 * a10 * a22 * a33) by (nonlinear_arith)
        requires
            v1x1 == u1x1 * a01,
            u1x1 == a10 * (a22 * a33),
    ;
    assert(v1x2 == a01 * a10 * a23 * a32) by (nonlinear_arith)
        requires
            v1x2 == u1x2 * a01,
            u1x2 == a10 * (a23 * a32),
    ;
    assert(v1x3 == a01 * a12 * a20 * a33) by (nonlinear_arith)
        requires
            v1x3 == u1x3 * a01,
            u1x3 == a12 * (a20 * a33),
    ;
    assert(v1x4 == a01 * a12 * a23 * a30) by (nonlinear_arith)
        requires
            v1x4 == u1x4 * a01,
            u1x4 == a12 * (a23 * a30),
    ;
    assert(v1x5 == a01 * a13 * a20 * a32) by (nonlinear_arith)
        requires
            v1x5 == u1x5 * a01,
            u1x5 == a13 * (a20 * a32),
    ;
    assert(v1x6 == a01 * a13 * a22 * a30) by (nonlinear_arith)
        requires
            v1x6 == u1x6 * a01,
            u1x6 == a13 * (a22 * a30),
    ;
    let b2 = spec_cof4_num(m, 0, 2);
    let u2x1 = a10 * (a21 * a33);
    let u2x2 = a10 * (a23 * a31);
    assert(a10 * (a21 * a33 - a23 * a31) == u2x1
        - u2x2) by (nonlinear_arith)
        requires
            u2x1 == a10 * (a21 * a33),
            u2x2 == a10 * (a23 * a31),
    ;
    let u2x3 = a11 * (a20 * a33);
    let u2x4 = a11 * (a23 * a30);
    assert(a11 * (a20 * a33 - a23 * a30) == u2x3
        - u2x4) by (nonlinear_arith)
        requires
            u2x3 == a11 * (a20 * a33),
            u2x4 == a11 * (a23 * a30),
    ;
    let u2x5 = a13 * (a20 * a31);
    let u2x6 = a13 * (a21 * a30);
    assert(a13 * (a20 * a31 - a21 * a30) == u2x5
        - u2x6) by (nonlinear_arith)
        requires
            u2x5 == a13 * (a20 * a31),
            u2x6 == a13 * (a21 * a30),
    ;
    assert(b2 == u2x1 - u2x2 - u2x3 + u2x4 + u2x5 - u2x6);
    let v2x1 = u2x1 * a02;
    let v2x2 = u2x2 * a02;
    let v2x3 = u2x3 * a02;
    let v2x4 = u2x4 * a02;
    let v2x5 = u2x5 * a02;
    let v2x6 = u2x6 * a02;
    assert(a02 * b2 == v2x1 - v2x2 - v2x3 + v2x4 + v2x5 - v2x6) by (nonlinear_arith)
        requires
            b2 == u2x1 - u2x2 - u2x3 + u2x4 + u2x5 - u2x6,
            v2x1 == u2x1 * a02,
            v2x2 == u2x2 * a02,
            v2x3 == u2x3 * a02,
            v2x4 == u2x4 * a02,
            v2x5 == u2x5 * a02,
            v2x6 == u2x6 * a02,
    ;
    assert(v2x1 == a02 * a10 * a21 * a33) by (nonlinear_arith)
        requires
            v2x1 == u2x1 * a02,
            u2x1 == a10 * (a21 * a33),
    ;
    assert(v2x2 == a02 * a10 * a23 * a31) by (nonlinear_arith)
        requires
            v2x2 == u2x2 * a02,
            u2x2 == a10 * (a23 * a31),
    ;
    assert(v2x3 == a02 * a11 * a20 * a33) by (nonlinear_arith)
        requires
            v2x3 == u2x3 * a02,
            u2x3 == a11 * (a20 * a33),
    ;
    assert(v2x4 == a02 * a11 * a23 * a30) by (nonlinear_arith)
        requires
            v2x4 == u2x4 * a02,
            u2x4 == a11 * (a23 * a30),
    ;
    assert(v2x5 == a02 * a13 * a20 * a31) by (nonlinear_arith)
        requires
            v2x5 == u2x5 * a02,
            u2x5 == a13 * (a20 * a31),
    ;
    assert(v2x6 == a02 * a13 * a21 * a30) by (nonlinear_arith)
        requires
            v2x6 == u2x6 * a02,
            u2x6 == a13 * (a21 * a30),
    ;
    let b3 = spec_cof4_num(m, 0, 3);
    let u3x1 = a10 * (a21 * a32);
    let u3x2 = a10 * (a22 * a31);
    assert(a10 * (a21 * a32 - a22 * a31) == u3x1
        - u3x2) by (nonlinear_arith)
        requires
            u3x1 == a10 * (a21 * a32),
            u3x2 == a10 * (a22 * a31),
    ;
    let u3x3 = a11 * (a20 * a32);
    let u3x4 = a11 * (a22 * a30);
    assert(a11 * (a20 * a32 - a22 * a30) == u3x3
        - u3x4) by (nonlinear_arith)
        requires
            u3x3 == a11 * (a20 * a32),
            u3x4 == a11 * (a22 * a30),
    ;
    let u3x5 = a12 * (a20 * a31);
    let u3x6 = a12 * (a21 * a30);
    assert(a12 * (a20 * a31 - a21 * a30) == u3x5
        - u3x6) by (nonlinear_arith)
        requires
            u3x5 == a12 * (a20 * a31),
            u3x6 == a12 * (a21 * a30),
    ;
    assert(b3 == -(u3x1 - u3x2 - u3x3 + u3x4 + u3x5 - u3x6));
    let v3x1 = u3x1 * a03;
    let v3x2 = u3x2 * a03;
    let v3x3 = u3x3 * a03;
    let v3x4 = u3x4 * a03;
    let v3x5 = u3x5 * a03;
    let v3x6 = u3x6 * a03;
    assert(a03 * b3 == -(v3x1 - v3x2 - v3x3 + v3x4 + v3x5 - v3x6)) by (nonlinear_arith)
        requires
            b3 == -(u3x1 - u3x2 - u3x3 + u3x4 + u3x5 - u3x6),
            v3x1 == u3x1 * a03,
            v3x2 == u3x2 * a03,
            v3x3 == u3x3 * a03,
            v3x4 == u3x4 * a03,
            v3x5 == u3x5 * a03,
            v3x6 == u3x6 * a03,
    ;
    assert(v3x1 == a03 * a10 * a21 * a32) by (nonlinear_arith)
        requires
            v3x1 == u3x1 * a03,
            u3x1 == a10 * (a21 * a32),
    ;
    assert(v3x2 == a03 * a10 * a22 * a31) by (nonlinear_arith)
        requires
            v3x2 == u3x2 * a03,
            u3x2 == a10 * (a22 * a31),
    ;
    assert(v3x3 == a03 * a11 * a20 * a32) by (nonlinear_arith)
        requires
            v3x3 == u3x3 * a03,
            u3x3 == a11 * (a20 * a32),
    ;
    assert(v3x4 == a03 * a11 * a22 * a30) by (nonlinear_arith)
        requires
            v3x4 == u3x4 * a03,
            u3x4 == a11 * (a22 * a30),
    ;
    assert(v3x5 == a03 * a12 * a20 * a31) by (nonlinear_arith)
        requires
            v3x5 == u3x5 * a03,
            u3x5 == a12 * (a20 * a31),
    ;
    assert(v3x6 == a03 * a12 * a21 * a30) by (nonlinear_arith)
        requires
            v3x6 == u3x6 * a03,
            u3x6 == a12 * (a21 * a30),
    ;
    assert(d == a00 * b0 + a01 * b1 + a02 * b2 + a03 * b3);
    assert(c0 * a00 + c1 * a10 + c2 * a20 + c3 * a30 == d);
    assert(spec_adj_mul_entry(m, 0, 0) == c0 * a00 + c1 * a10 + c2 * a20 + c3 * a30);
}

proof fn lemma_adj_entry_0_1(m: Matrix4)
    ensures
        spec_adj_mul_entry(m, 0, 1) == 0,
{
    let a00 = m.m00 as int;
    let a01 = m.m01 as int;
    let a02 = m.m02 as int;
    let a03 = m.m03 as int;
    let a10 = m.m10 as int;
    let a11 = m.m11 as int;
    let a12 = m.m12 as int;
    let a13 = m.m13 as int;
    let a20 = m.m20 as int;
    let a21 = m.m21 as int;
    let a22 = m.m22 as int;
    let a23 = m.m23 as int;
    let a30 = m.m30 as int;
    let a31 = m.m31 as int;
    let a32 = m.m32 as int;
    let a33 = m.m33 as int;
    let c0 = spec_cof4_num(m, 0, 0);
    let t0x1 = a11 * (a22 * a33);
    let t0x2 = a11 * (a23 * a32);
    assert(a11 * (a22 * a33 - a23 * a32) == t0x1
        - t0x2) by (nonlinear_arith)
        requires
            t0x1 == a11 * (a22 * a33),
            t0x2 == a11 * (a23 * a32),
    ;
    let t0x3 = a12 * (a21 * a33);
    let t0x4 = a12 * (a23 * a31);
    assert(a12 * (a21 * a33 - a23 * a31) == t0x3
        - t0x4) by (nonlinear_arith)
        requires
            t0x3 == a12 * (a21 * a33),
            t0x4 == a12 * (a23 * a31),
    ;
    let t0x5 = a13 * (a21 * a32);
    let t0x6 = a13 * (a22 * a31);
    assert(a13 * (a21 * a32 - a22 * a31) == t0x5
        - t0x6) by (nonlinear_arith)
        requires
            t0x5 == a13 * (a21 * a32),
            t0x6 == a13 * (a22 * a31),
    ;
    assert(c0 == t0x1 - t0x2 - t0x3 + t0x4 + t0x5 - t0x6);
    let s0x1 = t0x1 * a01;
    let s0x2 = t0x2 * a01;
    let s0x3 = t0x3 * a01;
    let s0x4 = t0x4 * a01;
    let s0x5 = t0x5 * a01;
    let s0x6 = t0x6 * a01;
    assert(c0 * a01 == s0x1 - s0x2 - s0x3 + s0x4 + s0x5 - s0x6) by (nonlinear_arith)
        requires
            c0 == t0x1 - t0x2 - t0x3 + t0x4 + t0x5 - t0x6,
            s0x1 == t0x1 * a01,
            s0x2 == t0x2 * a01,
            s0x3 == t0x3 * a01,
            s0x4 == t0x4 * a01,
            s0x5 == t0x5 * a01,
            s0x6 == t0x6 * a01,
    ;
    assert(s0x1 == a01 * a11 * a22 * a33) by (nonlinear_arith)
        requires
            s0x1 == t0x1 * a01,
            t0x1 == a11 * (a22 * a33),
    ;
    assert(s0x2 == a01 * a11 * a23 * a32) by (nonlinear_arith)
        requires
            s0x2 == t0x2 * a01,
            t0x2 == a11 * (a23 * a32),
    ;
    assert(s0x3 == a01 * a12 * a21 * a33) by (nonlinear_arith)
        requires
            s0x3 == t0x3 * a01,
            t0x3 == a12 * (a21 * a33),
    ;
    assert(s0x4 == a01 * a12 * a23 * a31) by (nonlinear_arith)
        requires
            s0x4 == t0x4 * a01,
            t0x4 == a12 * (a23 * a31),
    ;
    assert(s0x5 == a01 * a13 * a21 * a32) by (nonlinear_arith)
        requires
            s0x5 == t0x5 * a01,
            t0x5 == a13 * (a21 * a32),
    ;
    assert(s0x6 == a01 * a13 * a22 * a31) by (nonlinear_arith)
        requires
            s0x6 == t0x6 * a01,
            t0x6 == a13 * (a22 * a31),
    ;
    let c1 = spec_cof4_num(m, 1, 0);
    let t1x1 = a01 * (a22 * a33);
    let t1x2 = a01 * (a23 * a32);
    assert(a01 * (a22 * a33 - a23 * a32) == t1x1
        - t1x2) by (nonlinear_arith)
        requires
            t1x1 == a01 * (a22 * a33),
            t1x2 == a01 * (a23 * a32),
    ;
    let t1x3 = a02 * (a21 * a33);
    let t1x4 = a02 * (a23 * a31);
    assert(a02 * (a21 * a33 - a23 * a31) == t1x3
        - t1x4) by (nonlinear_arith)
        requires
            t1x3 == a02 * (a21 * a33),
            t1x4 == a02 * (a23 * a31),
    ;
    let t1x5 = a03 * (a21 * a32);
    let t1x6 = a03 * (a22 * a31);
    assert(a03 * (a21 * a32 - a22 * a31) == t1x5
        - t1x6) by (nonlinear_arith)
        requires
            t1x5 == a03 * (a21 * a32),
            t1x6 == a03 * (a22 * a31),
    ;
    assert(c1 == -(t1x1 - t1x2 - t1x3 + t1x4 + t1x5 - t1x6));
    let s1x1 = t1x1 * a11;
    let s1x2 = t1x2 * a11;
    let s1x3 = t1x3 * a11;
    let s1x4 = t1x4 * a11;
    let s1x5 = t1x5 * a11;
    let s1x6 = t1x6 * a11;
    assert(c1 * a11 == -(s1x1 - s1x2 - s1x3 + s1x4 + s1x5 - s1x6)) by (nonlinear_arith)
        requires
            c1 == -(t1x1 - t1x2 - t1x3 + t1x4 + t1x5 - t1x6),
            s1x1 == t1x1 * a11,
            s1x2 == t1x2 * a11,
            s1x3 == t1x3 * a11,
            s1x4 == t1x4 * a11,
            s1x5 == t1x5 * a11,
            s1x6 == t1x6 * a11,
    ;
    assert(s1x1 == a01 * a11 * a22 * a33) by (nonlinear_arith)
        requires
            s1x1 == t1x1 * a11,
            t1x1 == a01 * (a22 * a33),
    ;
    assert(s1x2 == a01 * a11 * a23 * a32) by (nonlinear_arith)
        requires
            s1x2 == t1x2 * a11,
            t1x2 == a01 * (a23 * a32),
    ;
    assert(s1x3 == a02 * a11 * a21 * a33) by (nonlinear_arith)
        requires
            s1x3 == t1x3 * a11,
            t1x3 == a02 * (a21 * a33),
    ;
    assert(s1x4 == a02 * a11 * a23 * a31) by (nonlinear_arith)
        requires
            s1x4 == t1x4 * a11,
            t1x4 == a02 * (a23 * a31),
    ;
    assert(s1x5 == a03 * a11 * a21 * a32) by (nonlinear_arith)
        requires
            s1x5 == t1x5 * a11,
            t1x5 == a03 * (a21 * a32),
    ;
    assert(s1x6 == a03 * a11 * a22 * a31) by (nonlinear_arith)
        requires
            s1x6 == t1x6 * a11,
            t1x6 == a03 * (a22 * a31),
    ;
    let c2 = spec_cof4_num(m, 2, 0);
    let t2x1 = a01 * (a12 * a33);
    let t2x2 = a01 * (a13 * a32);
    assert(a01 * (a12 * a33 - a13 * a32) == t2x1
        - t2x2) by (nonlinear_arith)
        requires
            t2x1 == a01 * (a12 * a33),
            t2x2 == a01 * (a13 * a32),
    ;
    let t2x3 = a02 * (a11 * a33);
    let t2x4 = a02 * (a13 * a31);
    assert(a02 * (a11 * a33 - a13 * a31) == t2x3
        - t2x4) by (nonlinear_arith)
        requires
            t2x3 == a02 * (a11 * a33),
            t2x4 == a02 * (a13 * a31),
    ;
    let t2x5 = a03 * (a11 * a32);
    let t2x6 = a03 * (a12 * a31);
    assert(a03 * (a11 * a32 - a12 * a31) == t2x5
        - t2x6) by (nonlinear_arith)
        requires
            t2x5 == a03 * (a11 * a32),
            t2x6 == a03 * (a12 * a31),
    ;
    assert(c2 == t2x1 - t2x2 - t2x3 + t2x4 + t2x5 - t2x6);
    let s2x1 = t2x1 * a21;
    let s2x2 = t2x2 * a21;
    let s2x3 = t2x3 * a21;
    let s2x4 = t2x4 * a21;
    let s2x5 = t2x5 * a21;
    let s2x6 = t2x6 * a21;
    assert(c2 * a21 == s2x1 - s2x2 - s2x3 + s2x4 + s2x5 - s2x6) by (nonlinear_arith)
        requires
            c2 == t2x1 - t2x2 - t2x3 + t2x4 + t2x5 - t2x6,
            s2x1 == t2x1 * a21,
            s2x2 == t2x2 * a21,
            s2x3 == t2x3 * a21,
            s2x4 == t2x4 * a21,
            s2x5 == t2x5 * a21,
            s2x6 == t2x6 * a21,
    ;
    assert(s2x1 == a01 * a12 * a21 * a33) by (nonlinear_arith)
        requires
            s2x1 == t2x1 * a21,
            t2x1 == a01 * (a12 * a33),
    ;
    assert(s2x2 == a01 * a13 * a21 * a32) by (nonlinear_arith)
        requires
            s2x2 == t2x2 * a21,
            t2x2 == a01 * (a13 * a32),
    ;
    assert(s2x3 == a02 * a11 * a21 * a33) by (nonlinear_arith)
        requires
            s2x3 == t2x3 * a21,
            t2x3 == a02 * (a11 * a33),
    ;
    assert(s2x4 == a02 * a13 * a21 * a31) by (nonlinear_arith)
        requires
            s2x4 == t2x4 * a21,
            t2x4 == a02 * (a13 * a31),
    ;
    assert(s2x5 == a03 * a11 * a21 * a32) by (nonlinear_arith)
        requires
            s2x5 == t2x5 * a21,
            t2x5 == a03 * (a11 * a32),
    ;
    assert(s2x6 == a03 * a12 * a21 * a31) by (nonlinear_arith)
        requires
            s2x6 == t2x6 * a21,
            t2x6 == a03 * (a12 * a31),
    ;
    let c3 = spec_cof4_num(m, 3, 0);
    let t3x1 = a01 * (a12 * a23);
    let t3x2 = a01 * (a13 * a22);
    assert(a01 * (a12 * a23 - a13 * a22) == t3x1
        - t3x2) by (nonlinear_arith)
        requires
            t3x1 == a01 * (a12 * a23),
            t3x2 == a01 * (a13 * a22),
    ;
    let t3x3 = a02 * (a11 * a23);
    let t3x4 = a02 * (a13 * a21);
    assert(a02 * (a11 * a23 - a13 * a21) == t3x3
        - t3x4) by (nonlinear_arith)
        requires
            t3x3 == a02 * (a11 * a23),
            t3x4 == a02 * (a13 * a21),
    ;
    let t3x5 = a03 * (a11 * a22);
    let t3x6 = a03 * (a12 * a21);
    assert(a03 * (a11 * a22 - a12 * a21) == t3x5
        - t3x6) by (nonlinear_arith)
        requires
            t3x5 == a03 * (a11 * a22),
            t3x6 == a03 * (a12 * a21),
    ;
    assert(c3 == -(t3x1 - t3x2 - t3x3 + t3x4 + t3x5 - t3x6));
    let s3x1 = t3x1 * a31;
    let s3x2 = t3x2 * a31;
    let s3x3 = t3x3 * a31;
    let s3x4 = t3x4 * a31;
    let s3x5 = t3x5 * a31;
    let s3x6 = t3x6 * a31;
    assert(c3 * a31 == -(s3x1 - s3x2 - s3x3 + s3x4 + s3x5 - s3x6)) by (nonlinear_arith)
        requires
            c3 == -(t3x1 - t3x2 - t3x3 + t3x4 + t3x5 - t3x6),
            s3x1 == t3x1 * a31,
            s3x2 == t3x2 * a31,
            s3x3 == t3x3 * a31,
            s3x4 == t3x4 * a31,
            s3x5 == t3x5 * a31,
            s3x6 == t3x6 * a31,
    ;
    assert(s3x1 == a01 * a12 * a23 * a31) by (nonlinear_arith)
        requires
            s3x1 == t3x1 * a31,
            t3x1 == a01 * (a12 * a23),
    ;
    assert(s3x2 == a01 * a13 * a22 * a31) by (nonlinear_arith)
        requires
            s3x2 == t3x2 * a31,
            t3x2 == a01 * (a13 * a22),
    ;
    assert(s3x3 == a02 * a11 * a23 * a31) by (nonlinear_arith)
        requires
            s3x3 == t3x3 * a31,
            t3x3 == a02 * (a11 * a23),
    ;
    assert(s3x4 == a02 * a13 * a21 * a31) by (nonlinear_arith)
        requires
            s3x4 == t3x4 * a31,
            t3x4 == a02 * (a13 * a21),
    ;
    assert(s3x5 == a03 * a11 * a22 * a31) by (nonlinear_arith)
        requires
            s3x5 == t3x5 * a31,
            t3x5 == a03 * (a11 * a22),
    ;
    assert(s3x6 == a03 * a12 * a21 * a31) by (nonlinear_arith)
        requires
            s3x6 == t3x6 * a31,
            t3x6 == a03 * (a12 * a21),
    ;
    assert(c0 * a01 + c1 * a11 + c2 * a21 + c3 * a31 == 0);
    assert(spec_adj_mul_entry(m, 0, 1) == c0 * a01 + c1 * a11 + c2 * a21 + c3 * a31);
}

proof fn lemma_adj_entry_0_2(m: Matrix4)
    ensures
        spec_adj_mul_entry(m, 0, 2) == 0,
{
    let a00 = m.m00 as int;
    let a01 = m.m01 as int;
    let a02 = m.m02 as int;
    let a03 = m.m03 as int;
    let a10 = m.m10 as int;
    let a11 = m.m11 as int;
    let a12 = m.m12 as int;
    let a13 = m.m13 as int;
    let a20 = m.m20 as int;
    let a21 = m.m21 as int;
    let a22 = m.m22 as int;
    let a23 = m.m23 as int;
    let a30 = m.m30 as int;
    let a31 = m.m31 as int;
    let a32 = m.m32 as int;
    let a33 = m.m33 as int;
    let c0 = spec_cof4_num(m, 0, 0);
    let t0x1 = a11 * (a22 * a33);
    let t0x2 = a11 * (a23 * a32);
    assert(a11 * (a22 * a33 - a23 * a32) == t0x1
        - t0x2) by (nonlinear_arith)
        requires
            t0x1 == a11 * (a22 * a33),
            t0x2 == a11 * (a23 * a32),
    ;
    let t0x3 = a12 * (a21 * a33);
    let t0x4 = a12 * (a23 * a31);
    assert(a12 * (a21 * a33 - a23 * a31) == t0x3
        - t0x4) by (nonlinear_arith)
        requires
            t0x3 == a12 * (a21 * a33),
            t0x4 == a12 * (a23 * a31),
    ;
    let t0x5 = a13 * (a21 * a32);
    let t0x6 = a13 * (a22 * a31);
    assert(a13 * (a21 * a32 - a22 * a31) == t0x5
        - t0x6) by (nonlinear_arith)
        requires
            t0x5 == a13 * (a21 * a32),
            t0x6 == a13 * (a22 * a31),
    ;
    assert(c0 == t0x1 - t0x2 - t0x3 + t0x4 + t0x5 - t0x6);
    let s0x1 = t0x1 * a02;
    let s0x2 = t0x2 * a02;
    let s0x3 = t0x3 * a02;
    let s0x4 = t0x4 * a02;
    let s0x5 = t0x5 * a02;
    let s0x6 = t0x6 * a02;
    assert(c0 * a02 == s0x1 - s0x2 - s0x3 + s0x4 + s0x5 - s0x6) by (nonlinear_arith)
        requires
            c0 == t0x1 - t0x2 - t0x3 + t0x4 + t0x5 - t0x6,
            s0x1 == t0x1 * a02,
            s0x2 == t0x2 * a02,
            s0x3 == t0x3 * a02,
            s0x4 == t0x4 * a02,
            s0x5 == t0x5 * a02,
            s0x6 == t0x6 * a02,
    ;
    assert(s0x1 == a02 * a11 * a22 * a33) by (nonlinear_arith)
        requires
            s0x1 == t0x1 * a02,
            t0x1 == a11 * (a22 * a33),
    ;
    assert(s0x2 == a02 * a11 * a23 * a32) by (nonlinear_arith)
        requires
            s0x2 == t0x2 * a02,
            t0x2 == a11 * (a23 * a32),
    ;
    assert(s0x3 == a02 * a12 * a21 * a33) by (nonlinear_arith)
        requires
            s0x3 == t0x3 * a02,
            t0x3 == a12 * (a21 * a33),
    ;
    assert(s0x4 == a02 * a12 * a23 * a31) by (nonlinear_arith)
        requires
            s0x4 == t0x4 * a02,
            t0x4 == a12 * (a23 * a31),
    ;
    assert(s0x5 == a02 * a13 * a21 * a32) by (nonlinear_arith)
        requires
            s0x5 == t0x5 * a02,
            t0x5 == a13 * (a21 * a32),
    ;
    assert(s0x6 == a02 * a13 * a22 * a31) by (nonlinear_arith)
        requires
            s0x6 == t0x6 * a02,
            t0x6 == a13 * (a22 * a31),
    ;
    let c1 = spec_cof4_num(m, 1, 0);
    let t1x1 = a01 * (a22 * a33);
    let t1x2 = a01 * (a23 * a32);
    assert(a01 * (a22 * a33 - a23 * a32) == t1x1
        - t1x2) by (nonlinear_arith)
        requires
            t1x1 == a01 * (a22 * a33),
            t1x2 == a01 * (a23 * a32),
    ;
    let t1x3 = a02 * (a21 * a33);
    let t1x4 = a02 * (a23 * a31);
    assert(a02 * (a21 * a33 - a23 * a31) == t1x3
        - t1x4) by (nonlinear_arith)
        requires
            t1x3 == a02 * (a21 * a33),
            t1x4 == a02 * (a23 * a31),
    ;
    let t1x5 = a03 * (a21 * a32);
    let t1x6 = a03 * (a22 * a31);
    assert(a03 * (a21 * a32 - a22 * a31) == t1x5
        - t1x6) by (nonlinear_arith)
        requires
            t1x5 == a03 * (a21 * a32),
            t1x6 == a03 * (a22 * a31),
    ;
    assert(c1 == -(t1x1 - t1x2 - t1x3 + t1x4 + t1x5 - t1x6));
    let s1x1 = t1x1 * a12;
    let s1x2 = t1x2 * a12;
    let s1x3 = t1x3 * a12;
    let s1x4 = t1x4 * a12;
    let s1x5 = t1x5 * a12;
    let s1x6 = t1x6 * a12;
    assert(c1 * a12 == -(s1x1 - s1x2 - s1x3 + s1x4 + s1x5 - s1x6)) by (nonlinear_arith)
        requires
            c1 == -(t1x1 - t1x2 - t1x3 + t1x4 + t1x5 - t1x6),
            s1x1 == t1x1 * a12,
            s1x2 == t1x2 * a12,
            s1x3 == t1x3 * a12,
            s1x4 == t1x4 * a12,
            s1x5 == t1x5 * a12,
            s1x6 == t1x6 * a12,
    ;
    assert(s1x1 == a01 * a12 * a22 * a33) by (nonlinear_arith)
        requires
            s1x1 == t1x1 * a12,
            t1x1 == a01 * (a22 * a33),
    ;
    assert(s1x2 == a01 * a12 * a23 * a32) by (nonlinear_arith)
        requires
            s1x2 == t1x2 * a12,
            t1x2 == a01 * (a23 * a32),
    ;
    assert(s1x3 == a02 * a12 * a21 * a33) by (nonlinear_arith)
        requires
            s1x3 == t1x3 * a12,
            t1x3 == a02 * (a21 * a33),
    ;
    assert(s1x4 == a02 * a12 * a23 * a31) by (nonlinear_arith)
        requires
            s1x4 == t1x4 * a12,
            t1x4 == a02 * (a23 * a31),
    ;
    assert(s1x5 == a03 * a12 * a21 * a32) by (nonlinear_arith)
        requires
            s1x5 == t1x5 * a12,
            t1x5 == a03 * (a21 * a32),
    ;
    assert(s1x6 == a03 * a12 * a22 * a31) by (nonlinear_arith)
        requires
            s1x6 == t1x6 * a12,
            t1x6 == a03 * (a22 * a31),
    ;
    let c2 = spec_cof4_num(m, 2, 0);
    let t2x1 = a01 * (a12 * a33);
    let t2x2 = a01 * (a13 * a32);
    assert(a01 * (a12 * a33 - a13 * a32) == t2x1
        - t2x2) by (nonlinear_arith)
        requires
            t2x1 == a01 * (a12 * a33),
            t2x2 == a01 * (a13 * a32),
    ;
    let t2x3 = a02 * (a11 * a33);
    let t2x4 = a02 * (a13 * a31);
    assert(a02 * (a11 * a33 - a13 * a31) == t2x3
        - t2x4) by (nonlinear_arith)
        requires
            t2x3 == a02 * (a11 * a33),
            t2x4 == a02 * (a13 * a31),
    ;
    let t2x5 = a03 * (a11 * a32);
    let t2x6 = a03 * (a12 * a31);
    assert(a03 * (a11 * a32 - a12 * a31) == t2x5
        - t2x6) by (nonlinear_arith)
        requires
            t2x5 == a03 * (a11 * a32),
            t2x6 == a03 * (a12 * a31),
    ;
    assert(c2 == t2x1 - t2x2 - t2x3 + t2x4 + t2x5 - t2x6);
    let s2x1 = t2x1 * a22;
    let s2x2 = t2x2 * a22;
    let s2x3 = t2x3 * a22;
    let s2x4 = t2x4 * a22;
    let s2x5 = t2x5 * a22;
    let s2x6 = t2x6 * a22;
    assert(c2 * a22 == s2x1 - s2x2 - s2x3 + s2x4 + s2x5 - s2x6) by (nonlinear_arith)
        requires
            c2 == t2x1 - t2x2 - t2x3 + t2x4 + t2x5 - t2x6,
            s2x1 == t2x1 * a22,
            s2x2 == t2x2 * a22,
            s2x3 == t2x3 * a22,
            s2x4 == t2x4 * a22,
            s2x5 == t2x5 * a22,
            s2x6 == t2x6 * a22,
    ;
    assert(s2x1 == a01 * a12 * a22 * a33) by (nonlinear_arith)
        requires
            s2x1 == t2x1 * a22,
            t2x1 == a01 * (a12 * a33),
    ;
    assert(s2x2 == a01 * a13 * a22 * a32) by (nonlinear_arith)
        requires
            s2x2 == t2x2 * a22,
            t2x2 == a01 * (a13 * a32),
    ;
    assert(s2x3 == a02 * a11 * a22 * a33) by (nonlinear_arith)
        requires
            s2x3 == t2x3 * a22,
            t2x3 == a02 * (a11 * a33),
    ;
    assert(s2x4 == a02 * a13 * a22 * a31) by (nonlinear_arith)
        requires
            s2x4 == t2x4 * a22,
            t2x4 == a02 * (a13 * a31),
    ;
    assert(s2x5 == a03 * a11 * a22 * a32) by (nonlinear_arith)
        requires
            s2x5 == t2x5 * a22,
            t2x5 == a03 * (a11 * a32),
    ;
    assert(s2x6 == a03 * a12 * a22 * a31) by (nonlinear_arith)
        requires
            s2x6 == t2x6 * a22,
            t2x6 == a03 * (a12 * a31),
    ;
    let c3 = spec_cof4_num(m, 3, 0);
    let t3x1 = a01 * (a12 * a23);
    let t3x2 = a01 * (a13 * a22);
    assert(a01 * (a12 * a23 - a13 * a22) == t3x1
        - t3x2) by (nonlinear_arith)
        requires
            t3x1 == a01 * (a12 * a23),
            t3x2 == a01 * (a13 * a22),
    ;
    let t3x3 = a02 * (a11 * a23);
    let t3x4 = a02 * (a13 * a21);
    assert(a02 * (a11 * a23 - a13 * a21) == t3x3
        - t3x4) by (nonlinear_arith)
        requires
            t3x3 == a02 * (a11 * a23),
            t3x4 == a02 * (a13 * a21),
    ;
    let t3x5 = a03 * (a11 * a22);
    let t3x6 = a03 * (a12 * a21);
    assert(a03 * (a11 * a22 - a12 * a21) == t3x5
        - t3x6) by (nonlinear_arith)
        requires
            t3x5 == a03 * (a11 * a22),
            t3x6 == a03 * (a12 * a21),
    ;
    assert(c3 == -(t3x1 - t3x2 - t3x3 + t3x4 + t3x5 - t3x6));
    let s3x1 = t3x1 * a32;
    let s3x2 = t3x2 * a32;
    let s3x3 = t3x3 * a32;
    let s3x4 = t3x4 * a32;
    let s3x5 = t3x5 * a32;
    let s3x6 = t3x6 * a32;
    assert(c3 * a32 == -(s3x1 - s3x2 - s3x3 + s3x4 + s3x5 - s3x6)) by (nonlinear_arith)
        requires
            c3 == -(t3x1 - t3x2 - t3x3 + t3x4 + t3x5 - t3x6),
            s3x1 == t3x1 * a32,
            s3x2 == t3x2 * a32,
            s3x3 == t3x3 * a32,
            s3x4 == t3x4 * a32,
            s3x5 == t3x5 * a32,
            s3x6 == t3x6 * a32,
    ;
    assert(s3x1 == a01 * a12 * a23 * a32) by (nonlinear_arith)
        requires
            s3x1 == t3x1 * a32,
            t3x1 == a01 * (a12 * a23),
    ;
    assert(s3x2 == a01 * a13 * a22 * a32) by (nonlinear_arith)
        requires
            s3x2 == t3x2 * a32,
            t3x2 == a01 * (a13 * a22),
    ;
    assert(s3x3 == a02 * a11 * a23 * a32) by (nonlinear_arith)
        requires
            s3x3 == t3x3 * a32,
            t3x3 == a02 * (a11 * a23),
    ;
    assert(s3x4 == a02 * a13 * a21 * a32) by (nonlinear_arith)
        requires
            s3x4 == t3x4 * a32,
            t3x4 == a02 * (a13 * a21),
    ;
    assert(s3x5 == a03 * a11 * a22 * a32) by (nonlinear_arith)
        requires
            s3x5 == t3x5 * a32,
            t3x5 == a03 * (a11 * a22),
    ;
    assert(s3x6 == a03 * a12 * a21 * a32) by (nonlinear_arith)
        requires
            s3x6 == t3x6 * a32,
            t3x6 == a03 * (a12 * a21),
    ;
    assert(c0 * a02 + c1 * a12 + c2 * a22 + c3 * a32 == 0);
    assert(spec_adj_mul_entry(m, 0, 2) == c0 * a02 + c1 * a12 + c2 * a22 + c3 * a32);
}

proof fn lemma_adj_entry_0_3(m: Matrix4)
    ensures
        spec_adj_mul_entry(m, 0, 3) == 0,
{
    let a00 = m.m00 as int;
    let a01 = m.m01 as int;
    let a02 = m.m02 as int;
    let a03 = m.m03 as int;
    let a10 = m.m10 as int;
    let a11 = m.m11 as int;
    let a12 = m.m12 as int;
    let a13 = m.m13 as int;
    let a20 = m.m20 as int;
    let a21 = m.m21 as int;
    let a22 = m.m22 as int;
    let a23 = m.m23 as int;
    let a30 = m.m30 as int;
    let a31 = m.m31 as int;
    let a32 = m.m32 as int;
    let a33 = m.m33 as int;
    let c0 = spec_cof4_num(m, 0, 0);
    let t0x1 = a11 * (a22 * a33);
    let t0x2 = a11 * (a23 * a32);
    assert(a11 * (a22 * a33 - a23 * a32) == t0x1
        - t0x2) by (nonlinear_arith)
        requires
            t0x1 == a11 * (a22 * a33),
            t0x2 == a11 * (a23 * a32),
    ;
    let t0x3 = a12 * (a21 * a33);
    let t0x4 = a12 * (a23 * a31);
    assert(a12 * (a21 * a33 - a23 * a31) == t0x3
        - t0x4) by (nonlinear_arith)
        requires
            t0x3 == a12 * (a21 * a33),
            t0x4 == a12 * (a23 * a31),
    ;
    let t0x5 = a13 * (a21 * a32);
    let t0x6 = a13 * (a22 * a31);
    assert(a13 * (a21 * a32 - a22 * a31) == t0x5
        - t0x6) by (nonlinear_arith)
        requires
            t0x5 == a13 * (a21 * a32),
            t0x6 == a13 * (a22 * a31),
    ;
    assert(c0 == t0x1 - t0x2 - t0x3 + t0x4 + t0x5 - t0x6);
    let s0x1 = t0x1 * a03;
    let s0x2 = t0x2 * a03;
    let s0x3 = t0x3 * a03;
    let s0x4 = t0x4 * a03;
    let s0x5 = t0x5 * a03;
    let s0x6 = t0x6 * a03;
    assert(c0 * a03 == s0x1 - s0x2 - s0x3 + s0x4 + s0x5 - s0x6) by (nonlinear_arith)
        requires
            c0 == t0x1 - t0x2 - t0x3 + t0x4 + t0x5 - t0x6,
            s0x1 == t0x1 * a03,
            s0x2 == t0x2 * a03,
            s0x3 == t0x3 * a03,
            s0x4 == t0x4 * a03,
            s0x5 == t0x5 * a03,
            s0x6 == t0x6 * a03,
    ;
    assert(s0x1 == a03 * a11 * a22 * a33) by (nonlinear_arith)
        requires
            s0x1 == t0x1 * a03,
            t0x1 == a11 * (a22 * a33),
    ;
    assert(s0x2 == a03 * a11 * a23 * a32) by (nonlinear_arith)
        requires
            s0x2 == t0x2 * a03,
            t0x2 == a11 * (a23 * a32),
    ;
    assert(s0x3 == a03 * a12 * a21 * a33) by (nonlinear_arith)
        requires
            s0x3 == t0x3 * a03,
            t0x3 == a12 * (a21 * a33),
    ;
    assert(s0x4 == a03 * a12 * a23 * a31) by (nonlinear_arith)
        requires
            s0x4 == t0x4 * a03,
            t0x4 == a12 * (a23 * a31),
    ;
    assert(s0x5 == a03 * a13 * a21 * a32) by (nonlinear_arith)
        requires
            s0x5 == t0x5 * a03,
            t0x5 == a13 * (a21 * a32),
    ;
    assert(s0x6 == a03 * a13 * a22 * a31) by (nonlinear_arith)
        requires
            s0x6 == t0x6 * a03,
            t0x6 == a13 * (a22 * a31),
    ;
    let c1 = spec_cof4_num(m, 1, 0);
    let t1x1 = a01 * (a22 * a33);
    let t1x2 = a01 * (a23 * a32);
    assert(a01 * (a22 * a33 - a23 * a32) == t1x1
        - t1x2) by (nonlinear_arith)
        requires
            t1x1 == a01 * (a22 * a33),
            t1x2 == a01 * (a23 * a32),
    ;
    let t1x3 = a02 * (a21 * a33);
    let t1x4 = a02 * (a23 * a31);
    assert(a02 * (a21 * a33 - a23 * a31) == t1x3
        - t1x4) by (nonlinear_arith)
        requires
            t1x3 == a02 * (a21 * a33),
            t1x4 == a02 * (a23 * a31),
    ;
    let t1x5 = a03 * (a21 * a32);
    let t1x6 = a03 * (a22 * a31);
    assert(a03 * (a21 * a32 - a22 * a31) == t1x5
        - t1x6) by (nonlinear_arith)
        requires
            t1x5 == a03 * (a21 * a32),
            t1x6 == a03 * (a22 * a31),
    ;
    assert(c1 == -(t1x1 - t1x2 - t1x3 + t1x4 + t1x5 - t1x6));
    let s1x1 = t1x1 * a13;
    let s1x2 = t1x2 * a13;
    let s1x3 = t1x3 * a13;
    let s1x4 = t1x4 * a13;
    let s1x5 = t1x5 * a13;
    let s1x6 = t1x6 * a13;
    assert(c1 * a13 == -(s1x1 - s1x2 - s1x3 + s1x4 + s1x5 - s1x6)) by (nonlinear_arith)
        requires
            c1 == -(t1x1 - t1x2 - t1x3 + t1x4 + t1x5 - t1x6),
            s1x1 == t1x1 * a13,
            s1x2 == t1x2 * a13,
            s1x3 == t1x3 * a13,
            s1x4 == t1x4 * a13,
            s1x5 == t1x5 * a13,
            s1x6 == t1x6 * a13,
    ;
    assert(s1x1 == a01 * a13 * a22 * a33) by (nonlinear_arith)
        requires
            s1x1 == t1x1 * a13,
            t1x1 == a01 * (a22 * a33),
    ;
    assert(s1x2 == a01 * a13 * a23 * a32) by (nonlinear_arith)
        requires
            s1x2 == t1x2 * a13,
            t1x2 == a01 * (a23 * a32),
    ;
    assert(s1x3 == a02 * a13 * a21 * a33) by (nonlinear_arith)
        requires
            s1x3 == t1x3 * a13,
            t1x3 == a02 * (a21 * a33),
    ;
    assert(s1x4 == a02 * a13 * a23 * a31) by (nonlinear_arith)
        requires
            s1x4 == t1x4 * a13,
            t1x4 == a02 * (a23 * a31),
    ;
    assert(s1x5 == a03 * a13 * a21 * a32) by (nonlinear_arith)
        requires
            s1x5 == t1x5 * a13,
            t1x5 == a03 * (a21 * a32),
    ;
    assert(s1x6 == a03 * a13 * a22 * a31) by (nonlinear_arith)
        requires
            s1x6 == t1x6 * a13,
            t1x6 == a03 * (a22 * a31),
    ;
    let c2 = spec_cof4_num(m, 2, 0);
    let t2x1 = a01 * (a12 * a33);
    let t2x2 = a01 * (a13 * a32);
    assert(a01 * (a12 * a33 - a13 * a32) == t2x1
        - t2x2) by (nonlinear_arith)
        requires
            t2x1 == a01 * (a12 * a33),
            t2x2 == a01 * (a13 * a32),
    ;
    let t2x3 = a02 * (a11 * a33);
    let t2x4 = a02 * (a13 * a31);
    assert(a02 * (a11 * a33 - a13 * a31) == t2x3
        - t2x4) by (nonlinear_arith)
        requires
            t2x3 == a02 * (a11 * a33),
            t2x4 == a02 * (a13 * a31),
    ;
    let t2x5 = a03 * (a11 * a32);
    let t2x6 = a03 * (a12 * a31);
    assert(a03 * (a11 * a32 - a12 * a31) == t2x5
        - t2x6) by (nonlinear_arith)
        requires
            t2x5 == a03 * (a11 * a32),
            t2x6 == a03 * (a12 * a31),
    ;
    assert(c2 == t2x1 - t2x2 - t2x3 + t2x4 + t2x5 - t2x6);
    let s2x1 = t2x1 * a23;
    let s2x2 = t2x2 * a23;
    let s2x3 = t2x3 * a23;
    let s2x4 = t2x4 * a23;
    let s2x5 = t2x5 * a23;
    let s2x6 = t2x6 * a23;
    assert(c2 * a23 == s2x1 - s2x2 - s2x3 + s2x4 + s2x5 - s2x6) by (nonlinear_arith)
        requires
            c2 == t2x1 - t2x2 - t2x3 + t2x4 + t2x5 - t2x6,
            s2x1 == t2x1 * a23,
            s2x2 == t2x2 * a23,
            s2x3 == t2x3 * a23,
            s2x4 == t2x4 * a23,
            s2x5 == t2x5 * a23,
            s2x6 == t2x6 * a23,
    ;
    assert(s2x1 == a01 * a12 * a23 * a33) by (nonlinear_arith)
        requires
            s2x1 == t2x1 * a23,
            t2x1 == a01 * (a12 * a33),
    ;
    assert(s2x2 == a01 * a13 * a23 * a32) by (nonlinear_arith)
        requires
            s2x2 == t2x2 * a23,
            t2x2 == a01 * (a13 * a32),
    ;
    assert(s2x3 == a02 * a11 * a23 * a33) by (nonlinear_arith)
        requires
            s2x3 == t2x3 * a23,
            t2x3 == a02 * (a11 * a33),
    ;
    assert(s2x4 == a02 * a13 * a23 * a31) by (nonlinear_arith)
        requires
            s2x4 == t2x4 * a23,
            t2x4 == a02 * (a13 * a31),
    ;
    assert(s2x5 == a03 * a11 * a23 * a32) by (nonlinear_arith)
        requires
            s2x5 == t2x5 * a23,
            t2x5 == a03 * (a11 * a32),
    ;
    assert(s2x6 == a03 * a12 * a23 * a31) by (nonlinear_arith)
        requires
            s2x6 == t2x6 * a23,
            t2x6 == a03 * (a12 * a31),
    ;
    let c3 = spec_cof4_num(m, 3, 0);
    let t3x1 = a01 * (a12 * a23);
    let t3x2 = a01 * (a13 * a22);
    assert(a01 * (a12 * a23 - a13 * a22) == t3x1
        - t3x2) by (nonlinear_arith)
        requires
            t3x1 == a01 * (a12 * a23),
            t3x2 == a01 * (a13 * a22),
    ;
    let t3x3 = a02 * (a11 * a23);
    let t3x4 = a02 * (a13 * a21);
    assert(a02 * (a11 * a23 - a13 * a21) == t3x3
        - t3x4) by (nonlinear_arith)
        requires
            t3x3 == a02 * (a11 * a23),
            t3x4 == a02 * (a13 * a21),
    ;
    let t3x5 = a03 * (a11 * a22);
    let t3x6 = a03 * (a12 * a21);
    assert(a03 * (a11 * a22 - a12 * a21) == t3x5
        - t3x6) by (nonlinear_arith)
        requires
            t3x5 == a03 * (a11 * a22),
            t3x6 == a03 * (a12 * a21),
    ;
    assert(c3 == -(t3x1 - t3x2 - t3x3 + t3x4 + t3x5 - t3x6));
    let s3x1 = t3x1 * a33;
    let s3x2 = t3x2 * a33;
    let s3x3 = t3x3 * a33;
    let s3x4 = t3x4 * a33;
    let s3x5 = t3x5 * a33;
    let s3x6 = t3x6 * a33;
    assert(c3 * a33 == -(s3x1 - s3x2 - s3x3 + s3x4 + s3x5 - s3x6)) by (nonlinear_arith)
        requires
            c3 == -(t3x1 - t3x2 - t3x3 + t3x4 + t3x5 - t3x6),
            s3x1 == t3x1 * a33,
            s3x2 == t3x2 * a33,
            s3x3 == t3x3 * a33,
            s3x4 == t3x4 * a33,
            s3x5 == t3x5 * a33,
            s3x6 == t3x6 * a33,
    ;
    assert(s3x1 == a01 * a12 * a23 * a33) by (nonlinear_arith)
        requires
            s3x1 == t3x1 * a33,
            t3x1 == a01 * (a12 * a23),
    ;
    assert(s3x2 == a01 * a13 * a22 * a33) by (nonlinear_arith)
        requires
            s3x2 == t3x2 * a33,
            t3x2 == a01 * (a13 * a22),
    ;
    assert(s3x3 == a02 * a11 * a23 * a33) by (nonlinear_arith)
        requires
            s3x3 == t3x3 * a33,
            t3x3 == a02 * (a11 * a23),
    ;
    assert(s3x4 == a02 * a13 * a21 * a33) by (nonlinear_arith)
        requires
            s3x4 == t3x4 * a33,
            t3x4 == a02 * (a13 * a21),
    ;
    assert(s3x5 == a03 * a11 * a22 * a33) by (nonlinear_arith)
        requires
            s3x5 == t3x5 * a33,
            t3x5 == a03 * (a11 * a22),
    ;
    assert(s3x6 == a03 * a12 * a21 * a33) by (nonlinear_arith)
        requires
            s3x6 == t3x6 * a33,
            t3x6 == a03 * (a12 * a21),
    ;
    assert(c0 * a03 + c1 * a13 + c2 * a23 + c3 * a33 == 0);
    assert(spec_adj_mul_entry(m, 0, 3) == c0 * a03 + c1 * a13 + c2 * a23 + c3 * a33);
}

proof fn lemma_adj_entry_1_0(m: Matrix4)
    ensures
        spec_adj_mul_entry(m, 1, 0) == 0,
{
    let a00 = m.m00 as int;
    let a01 = m.m01 as int;
    let a02 = m.m02 as int;
    let a03 = m.m03 as int;
    let a10 = m.m10 as int;
    let a11 = m.m11 as int;
    let a12 = m.m12 as int;
    let a13 = m.m13 as int;
    let a20 = m.m20 as int;
    let a21 = m.m21 as int;
    let a22 = m.m22 as int;
    let a23 = m.m23 as int;
    let a30 = m.m30 as int;
    let a31 = m.m31 as int;
    let a32 = m.m32 as int;
    let a33 = m.m33 as int;
    let c0 = spec_cof4_num(m, 0, 1);
    let t0x1 = a10 * (a22 * a33);
    let t0x2 = a10 * (a23 * a32);
    assert(a10 * (a22 * a33 - a23 * a32) == t0x1
        - t0x2) by (nonlinear_arith)
        requires
            t0x1 == a10 * (a22 * a33),
            t0x2 == a10 * (a23 * a32),
    ;
    let t0x3 = a12 * (a20 * a33);
    let t0x4 = a12 * (a23 * a30);
    assert(a12 * (a20 * a33 - a23 * a30) == t0x3
        - t0x4) by (nonlinear_arith)
        requires
            t0x3 == a12 * (a20 * a33),
            t0x4 == a12 * (a23 * a30),
    ;
    let t0x5 = a13 * (a20 * a32);
    let t0x6 = a13 * (a22 * a30);
    assert(a13 * (a20 * a32 - a22 * a30) == t0x5
        - t0x6) by (nonlinear_arith)
        requires
            t0x5 == a13 * (a20 * a32),
            t0x6 == a13 * (a22 * a30),
    ;
    assert(c0 == -(t0x1 - t0x2 - t0x3 + t0x4 + t0x5 - t0x6));
    let s0x1 = t0x1 * a00;
    let s0x2 = t0x2 * a00;
    let s0x3 = t0x3 * a00;
    let s0x4 = t0x4 * a00;
    let s0x5 = t0x5 * a00;
    let s0x6 = t0x6 * a00;
    assert(c0 * a00 == -(s0x1 - s0x2 - s0x3 + s0x4 + s0x5 - s0x6)) by (nonlinear_arith)
        requires
            c0 == -(t0x1 - t0x2 - t0x3 + t0x4 + t0x5 - t0x6),
            s0x1 == t0x1 * a00,
            s0x2 == t0x2 * a00,
            s0x3 == t0x3 * a00,
            s0x4 == t0x4 * a00,
            s0x5 == t0x5 * a00,
            s0x6 == t0x6 * a00,
    ;
    assert(s0x1 == a00 * a10 * a22 * a33) by (nonlinear_arith)
        requires
            s0x1 == t0x1 * a00,
            t0x1 == a10 * (a22 * a33),
    ;
    assert(s0x2 == a00 * a10 * a23 * a32) by (nonlinear_arith)
        requires
            s0x2 == t0x2 * a00,
            t0x2 == a10 * (a23 * a32),
    ;
    assert(s0x3 == a00 * a12 * a20 * a33) by (nonlinear_arith)
        requires
            s0x3 == t0x3 * a00,
            t0x3 == a12 * (a20 * a33),
    ;
    assert(s0x4 == a00 * a12 * a23 * a30) by (nonlinear_arith)
        requires
            s0x4 == t0x4 * a00,
            t0x4 == a12 * (a23 * a30),
    ;
    assert(s0x5 == a00 * a13 * a20 * a32) by (nonlinear_arith)
        requires
            s0x5 == t0x5 * a00,
            t0x5 == a13 * (a20 * a32),
    ;
    assert(s0x6 == a00 * a13 * a22 * a30) by (nonlinear_arith)
        requires
            s0x6 == t0x6 * a00,
            t0x6 == a13 * (a22 * a30),
    ;
    let c1 = spec_cof4_num(m, 1, 1);
    let t1x1 = a00 * (a22 * a33);
    let t1x2 = a00 * (a23 * a32);
    assert(a00 * (a22 * a33 - a23 * a32) == t1x1
        - t1x2) by (nonlinear_arith)
        requires
            t1x1 == a00 * (a22 * a33),
            t1x2 == a00 * (a23 * a32),
    ;
    let t1x3 = a02 * (a20 * a33);
    let t1x4 = a02 * (a23 * a30);
    assert(a02 * (a20 * a33 - a23 * a30) == t1x3
        - t1x4) by (nonlinear_arith)
        requires
            t1x3 == a02 * (a20 * a33),
            t1x4 == a02 * (a23 * a30),
    ;
    let t1x5 = a03 * (a20 * a32);
    let t1x6 = a03 * (a22 * a30);
    assert(a03 * (a20 * a32 - a22 * a30) == t1x5
        - t1x6) by (nonlinear_arith)
        requires
            t1x5 == a03 * (a20 * a32),
            t1x6 == a03 * (a22 * a30),
    ;
    assert(c1 == t1x1 - t1x2 - t1x3 + t1x4 + t1x5 - t1x6);
    let s1x1 = t1x1 * a10;
    let s1x2 = t1x2 * a10;
    let s1x3 = t1x3 * a10;
    let s1x4 = t1x4 * a10;
    let s1x5 = t1x5 * a10;
    let s1x6 = t1x6 * a10;
    assert(c1 * a10 == s1x1 - s1x2 - s1x3 + s1x4 + s1x5 - s1x6) by (nonlinear_arith)
        requires
            c1 == t1x1 - t1x2 - t1x3 + t1x4 + t1x5 - t1x6,
            s1x1 == t1x1 * a10,
            s1x2 == t1x2 * a10,
            s1x3 == t1x3 * a10,
            s1x4 == t1x4 * a10,
            s1x5 == t1x5 * a10,
            s1x6 == t1x6 * a10,
    ;
    assert(s1x1 == a00 * a10 * a22 * a33) by (nonlinear_arith)
        requires
            s1x1 == t1x1 * a10,
            t1x1 == a00 * (a22 * a33),
    ;
    assert(s1x2 == a00 * a10 * a23 * a32) by (nonlinear_arith)
        requires
            s1x2 == t1x2 * a10,
            t1x2 == a00 * (a23 * a32),
    ;
    assert(s1x3 == a02 * a10 * a20 * a33) by (nonlinear_arith)
        requires
            s1x3 == t1x3 * a10,
            t1x3 == a02 * (a20 * a33),
    ;
    assert(s1x4 == a02 * a10 * a23 * a30) by (nonlinear_arith)
        requires
            s1x4 == t1x4 * a10,
            t1x4 == a02 * (a23 * a30),
    ;
    assert(s1x5 == a03 * a10 * a20 * a32) by (nonlinear_arith)
        requires
            s1x5 == t1x5 * a10,
            t1x5 == a03 * (a20 * a32),
    ;
    assert(s1x6 == a03 * a10 * a22 * a30) by (nonlinear_arith)
        requires
            s1x6 == t1x6 * a10,
            t1x6 == a03 * (a22 * a30),
    ;
    let c2 = spec_cof4_num(m, 2, 1);
    let t2x1 = a00 * (a12 * a33);
    let t2x2 = a00 * (a13 * a32);
    assert(a00 * (a12 * a33 - a13 * a32) == t2x1
        - t2x2) by (nonlinear_arith)
        requires
            t2x1 == a00 * (a12 * a33),
            t2x2 == a00 * (a13 * a32),
    ;
    let t2x3 = a02 * (a10 * a33);
    let t2x4 = a02 * (a13 * a30);
    assert(a02 * (a10 * a33 - a13 * a30) == t2x3
        - t2x4) by (nonlinear_arith)
        requires
            t2x3 == a02 * (a10 * a33),
            t2x4 == a02 * (a13 * a30),
    ;
    let t2x5 = a03 * (a10 * a32);
    let t2x6 = a03 * (a12 * a30);
    assert(a03 * (a10 * a32 - a12 * a30) == t2x5
        - t2x6) by (nonlinear_arith)
        requires
            t2x5 == a03 * (a10 * a32),
            t2x6 == a03 * (a12 * a30),
    ;
    assert(c2 == -(t2x1 - t2x2 - t2x3 + t2x4 + t2x5 - t2x6));
    let s2x1 = t2x1 * a20;
    let s2x2 = t2x2 * a20;
    let s2x3 = t2x3 * a20;
    let s2x4 = t2x4 * a20;
    let s2x5 = t2x5 * a20;
    let s2x6 = t2x6 * a20;
    assert(c2 * a20 == -(s2x1 - s2x2 - s2x3 + s2x4 + s2x5 - s2x6)) by (nonlinear_arith)
        requires
            c2 == -(t2x1 - t2x2 - t2x3 + t2x4 + t2x5 - t2x6),
            s2x1 == t2x1 * a20,
            s2x2 == t2x2 * a20,
            s2x3 == t2x3 * a20,
            s2x4 == t2x4 * a20,
            s2x5 == t2x5 * a20,
            s2x6 == t2x6 * a20,
    ;
    assert(s2x1 == a00 * a12 * a20 * a33) by (nonlinear_arith)
        requires
            s2x1 == t2x1 * a20,
            t2x1 == a00 * (a12 * a33),
    ;
    assert(s2x2 == a00 * a13 * a20 * a32) by (nonlinear_arith)
        requires
            s2x2 == t2x2 * a20,
            t2x2 == a00 * (a13 * a32),
    ;
    assert(s2x3 == a02 * a10 * a20 * a33) by (nonlinear_arith)
        requires
            s2x3 == t2x3 * a20,
            t2x3 == a02 * (a10 * a33),
    ;
    assert(s2x4 == a02 * a13 * a20 * a30) by (nonlinear_arith)
        requires
            s2x4 == t2x4 * a20,
            t2x4 == a02 * (a13 * a30),
    ;
    assert(s2x5 == a03 * a10 * a20 * a32) by (nonlinear_arith)
        requires
            s2x5 == t2x5 * a20,
            t2x5 == a03 * (a10 * a32),
    ;
    assert(s2x6 == a03 * a12 * a20 * a30) by (nonlinear_arith)
        requires
            s2x6 == t2x6 * a20,
            t2x6 == a03 * (a12 * a30),
    ;
    let c3 = spec_cof4_num(m, 3, 1);
    let t3x1 = a00 * (a12 * a23);
    let t3x2 = a00 * (a13 * a22);
    assert(a00 * (a12 * a23 - a13 * a22) == t3x1
        - t3x2) by (nonlinear_arith)
        requires
            t3x1 == a00 * (a12 * a23),
            t3x2 == a00 * (a13 * a22),
    ;
    let t3x3 = a02 * (a10 * a23);
    let t3x4 = a02 * (a13 * a20);
    assert(a02 * (a10 * a23 - a13 * a20) == t3x3
        - t3x4) by (nonlinear_arith)
        requires
            t3x3 == a02 * (a10 * a23),
            t3x4 == a02 * (a13 * a20),
    ;
    let t3x5 = a03 * (a10 * a22);
    let t3x6 = a03 * (a12 * a20);
    assert(a03 * (a10 * a22 - a12 * a20) == t3x5
        - t3x6) by (nonlinear_arith)
        requires
            t3x5 == a03 * (a10 * a22),
            t3x6 == a03 * (a12 * a20),
    ;
    assert(c3 == t3x1 - t3x2 - t3x3 + t3x4 + t3x5 - t3x6);
    let s3x1 = t3x1 * a30;
    let s3x2 = t3x2 * a30;
    let s3x3 = t3x3 * a30;
    let s3x4 = t3x4 * a30;
    let s3x5 = t3x5 * a30;
    let s3x6 = t3x6 * a30;
    assert(c3 * a30 == s3x1 - s3x2 - s3x3 + s3x4 + s3x5 - s3x6) by (nonlinear_arith)
        requires
            c3 == t3x1 - t3x2 - t3x3 + t3x4 + t3x5 - t3x6,
            s3x1 == t3x1 * a30,
            s3x2 == t3x2 * a30,
            s3x3 == t3x3 * a30,
            s3x4 == t3x4 * a30,
            s3x5 == t3x5 * a30,
            s3x6 == t3x6 * a30,
    ;
    assert(s3x1 == a00 * a12 * a23 * a30) by (nonlinear_arith)
        requires
            s3x1 == t3x1 * a30,
            t3x1 == a00 * (a12 * a23),
    ;
    assert(s3x2 == a00 * a13 * a22 * a30) by (nonlinear_arith)
        requires
            s3x2 == t3x2 * a30,
            t3x2 == a00 * (a13 * a22),
    ;
    assert(s3x3 == a02 * a10 * a23 * a30) by (nonlinear_arith)
        requires
            s3x3 == t3x3 * a30,
            t3x3 == a02 * (a10 * a23),
    ;
    assert(s3x4 == a02 * a13 * a20 * a30) by (nonlinear_arith)
        requires
            s3x4 == t3x4 * a30,
            t3x4 == a02 * (a13 * a20),
    ;
    assert(s3x5 == a03 * a10 * a22 * a30) by (nonlinear_arith)
        requires
            s3x5 == t3x5 * a30,
            t3x5 == a03 * (a10 * a22),
    ;
    assert(s3x6 == a03 * a12 * a20 * a30) by (nonlinear_arith)
        requires
            s3x6 == t3x6 * a30,
            t3x6 == a03 * (a12 * a20),
    ;
    assert(c0 * a00 + c1 * a10 + c2 * a20 + c3 * a30 == 0);
    assert(spec_adj_mul_entry(m, 1, 0) == c0 * a00 + c1 * a10 + c2 * a20 + c3 * a30);
}

proof fn lemma_adj_entry_1_1(m: Matrix4)
    ensures
        spec_adj_mul_entry(m, 1, 1) == spec_det4_num(m),
{
    let a00 = m.m00 as int;
    let a01 = m.m01 as int;
    let a02 = m.m02 as int;
    let a03 = m.m03 as int;
    let a10 = m.m10 as int;
    let a11 = m.m11 as int;
    let a12 = m.m12 as int;
    let a13 = m.m13 as int;
    let a20 = m.m20 as int;
    let a21 = m.m21 as int;
    let a22 = m.m22 as int;
    let a23 = m.m23 as int;
    let a30 = m.m30 as int;
    let a31 = m.m31 as int;
    let a32 = m.m32 as int;
    let a33 = m.m33 as int;
    let c0 = spec_cof4_num(m, 0, 1);
    let t0x1 = a10 * (a22 * a33);
    let t0x2 = a10 * (a23 * a32);
    assert(a10 * (a22 * a33 - a23 * a32) == t0x1
        - t0x2) by (nonlinear_arith)
        requires
            t0x1 == a10 * (a22 * a33),
            t0x2 == a10 * (a23 * a32),
    ;
    let t0x3 = a12 * (a20 * a33);
    let t0x4 = a12 * (a23 * a30);
    assert(a12 * (a20 * a33 - a23 * a30) == t0x3
        - t0x4) by (nonlinear_arith)
        requires
            t0x3 == a12 * (a20 * a33),
            t0x4 == a12 * (a23 * a30),
    ;
    let t0x5 = a13 * (a20 * a32);
    let t0x6 = a13 * (a22 * a30);
    assert(a13 * (a20 * a32 - a22 * a30) == t0x5
        - t0x6) by (nonlinear_arith)
        requires
            t0x5 == a13 * (a20 * a32),
            t0x6 == a13 * (a22 * a30),
    ;
    assert(c0 == -(t0x1 - t0x2 - t0x3 + t0x4 + t0x5 - t0x6));
    let s0x1 = t0x1 * a01;
    let s0x2 = t0x2 * a01;
    let s0x3 = t0x3 * a01;
    let s0x4 = t0x4 * a01;
    let s0x5 = t0x5 * a01;
    let s0x6 = t0x6 * a01;
    assert(c0 * a01 == -(s0x1 - s0x2 - s0x3 + s0x4 + s0x5 - s0x6)) by (nonlinear_arith)
        requires
            c0 == -(t0x1 - t0x2 - t0x3 + t0x4 + t0x5 - t0x6),
            s0x1 == t0x1 * a01,
            s0x2 == t0x2 * a01,
            s0x3 == t0x3 * a01,
            s0x4 == t0x4 * a01,
            s0x5 == t0x5 * a01,
            s0x6 == t0x6 * a01,
    ;
    assert(s0x1 == a01 * a10 * a22 * a33) by (nonlinear_arith)
        requires
            s0x1 == t0x1 * a01,
            t0x1 == a10 * (a22 * a33),
    ;
    assert(s0x2 == a01 * a10 * a23 * a32) by (nonlinear_arith)
        requires
            s0x2 == t0x2 * a01,
            t0x2 == a10 * (a23 * a32),
    ;
    assert(s0x3 == a01 * a12 * a20 * a33) by (nonlinear_arith)
        requires
            s0x3 == t0x3 * a01,
            t0x3 == a12 * (a20 * a33),
    ;
    assert(s0x4 == a01 * a12 * a23 * a30) by (nonlinear_arith)
        requires
            s0x4 == t0x4 * a01,
            t0x4 == a12 * (a23 * a30),
    ;
    assert(s0x5 == a01 * a13 * a20 * a32) by (nonlinear_arith)
        requires
            s0x5 == t0x5 * a01,
            t0x5 == a13 * (a20 * a32),
    ;
    assert(s0x6 == a01 * a13 * a22 * a30) by (nonlinear_arith)
        requires
            s0x6 == t0x6 * a01,
            t0x6 == a13 * (a22 * a30),
    ;
    let c1 = spec_cof4_num(m, 1, 1);
    let t1x1 = a00 * (a22 * a33);
    let t1x2 = a00 * (a23 * a32);
    assert(a00 * (a22 * a33 - a23 * a32) == t1x1
        - t1x2) by (nonlinear_arith)
        requires
            t1x1 == a00 * (a22 * a33),
            t1x2 == a00 * (a23 * a32),
    ;
    let t1x3 = a02 * (a20 * a33);
    let t1x4 = a02 * (a23 * a30);
    assert(a02 * (a20 * a33 - a23 * a30) == t1x3
        - t1x4) by (nonlinear_arith)
        requires
            t1x3 == a02 * (a20 * a33),
            t1x4 == a02 * (a23 * a30),
    ;
    let t1x5 = a03 * (a20 * a32);
    let t1x6 = a03 * (a22 * a30);
    assert(a03 * (a20 * a32 - a22 * a30) == t1x5
        - t1x6) by (nonlinear_arith)
        requires
            t1x5 == a03 * (a20 * a32),
            t1x6 == a03 * (a22 * a30),
    ;
    assert(c1 == t1x1 - t1x2 - t1x3 + t1x4 + t1x5 - t1x6);
    let s1x1 = t1x1 * a11;
    let s1x2 = t1x2 * a11;
    let s1x3 = t1x3 * a11;
    let s1x4 = t1x4 * a11;
    let s1x5 = t1x5 * a11;
    let s1x6 = t1x6 * a11;
    assert(c1 * a11 == s1x1 - s1x2 - s1x3 + s1x4 + s1x5 - s1x6) by (nonlinear_arith)
        requires
            c1 == t1x1 - t1x2 - t1x3 + t1x4 + t1x5 - t1x6,
            s1x1 == t1x1 * a11,
            s1x2 == t1x2 * a11,
            s1x3 == t1x3 * a11,
            s1x4 == t1x4 * a11,
            s1x5 == t1x5 * a11,
            s1x6 == t1x6 * a11,
    ;
    assert(s1x1 == a00 * a11 * a22 * a33) by (nonlinear_arith)
        requires
            s1x1 == t1x1 * a11,
            t1x1 == a00 * (a22 * a33),
    ;
    assert(s1x2 == a00 * a11 * a23 * a32) by (nonlinear_arith)
        requires
            s1x2 == t1x2 * a11,
            t1x2 == a00 * (a23 * a32),
    ;
    assert(s1x3 == a02 * a11 * a20 * a33) by (nonlinear_arith)
        requires
            s1x3 == t1x3 * a11,
            t1x3 == a02 * (a20 * a33),
    ;
    assert(s1x4 == a02 * a11 * a23 * a30) by (nonlinear_arith)
        requires
            s1x4 == t1x4 * a11,
            t1x4 == a02 * (a23 * a30),
    ;
    assert(s1x5 == a03 * a11 * a20 * a32) by (nonlinear_arith)
        requires
            s1x5 == t1x5 * a11,
            t1x5 == a03 * (a20 * a32),
    ;
    assert(s1x6 == a03 * a11 * a22 * a30) by (nonlinear_arith)
        requires
            s1x6 == t1x6 * a11,
            t1x6 == a03 * (a22 * a30),
    ;
    let c2 = spec_cof4_num(m, 2, 1);
    let t2x1 = a00 * (a12 * a33);
    let t2x2 = a00 * (a13 * a32);
    assert(a00 * (a12 * a33 - a13 * a32) == t2x1
        - t2x2) by (nonlinear_arith)
        requires
            t2x1 == a00 * (a12 * a33),
            t2x2 == a00 * (a13 * a32),
    ;
    let t2x3 = a02 * (a10 * a33);
    let t2x4 = a02 * (a13 * a30);
    assert(a02 * (a10 * a33 - a13 * a30) == t2x3
        - t2x4) by (nonlinear_arith)
        requires
            t2x3 == a02 * (a10 * a33),
            t2x4 == a02 * (a13 * a30),
    ;
    let t2x5 = a03 * (a10 * a32);
    let t2x6 = a03 * (a12 * a30);
    assert(a03 * (a10 * a32 - a12 * a30) == t2x5
        - t2x6) by (nonlinear_arith)
        requires
            t2x5 == a03 * (a10 * a32),
            t2x6 == a03 * (a12 * a30),
    ;
    assert(c2 == -(t2x1 - t2x2 - t2x3 + t2x4 + t2x5 - t2x6));
    let s2x1 = t2x1 * a21;
    let s2x2 = t2x2 * a21;
    let s2x3 = t2x3 * a21;
    let s2x4 = t2x4 * a21;
    let s2x5 = t2x5 * a21;
    let s2x6 = t2x6 * a21;
    assert(c2 * a21 == -(s2x1 - s2x2 - s2x3 + s2x4 + s2x5 - s2x6)) by (nonlinear_arith)
        requires
            c2 == -(t2x1 - t2x2 - t2x3 + t2x4 + t2x5 - t2x6),
            s2x1 == t2x1 * a21,
            s2x2 == t2x2 * a21,
            s2x3 == t2x3 * a21,
            s2x4 == t2x4 * a21,
            s2x5 == t2x5 * a21,
            s2x6 == t2x6 * a21,
    ;
    assert(s2x1 == a00 * a12 * a21 * a33) by (nonlinear_arith)
        requires
            s2x1 == t2x1 * a21,
            t2x1 == a00 * (a12 * a33),
    ;
    assert(s2x2 == a00 * a13 * a21 * a32) by (nonlinear_arith)
        requires
            s2x2 == t2x2 * a21,
            t2x2 == a00 * (a13 * a32),
    ;
    assert(s2x3 == a02 * a10 * a21 * a33) by (nonlinear_arith)
        requires
            s2x3 == t2x3 * a21,
            t2x3 == a02 * (a10 * a33),
    ;
    assert(s2x4 == a02 * a13 * a21 * a30) by (nonlinear_arith)
        requires
            s2x4 == t2x4 * a21,
            t2x4 == a02 * (a13 * a30),
    ;
    assert(s2x5 == a03 * a10 * a21 * a32) by (nonlinear_arith)
        requires
            s2x5 == t2x5 * a21,
            t2x5 == a03 * (a10 * a32),
    ;
    assert(s2x6 == a03 * a12 * a21 * a30) by (nonlinear_arith)
        requires
            s2x6 == t2x6 * a21,
            t2x6 == a03 * (a12 * a30),
    ;
    let c3 = spec_cof4_num(m, 3, 1);
    let t3x1 = a00 * (a12 * a23);
    let t3x2 = a00 * (a13 * a22);
    assert(a00 * (a12 * a23 - a13 * a22) == t3x1
        - t3x2) by (nonlinear_arith)
        requires
            t3x1 == a00 * (a12 * a23),
            t3x2 == a00 * (a13 * a22),
    ;
    let t3x3 = a02 * (a10 * a23);
    let t3x4 = a02 * (a13 * a20);
    assert(a02 * (a10 * a23 - a13 * a20) == t3x3
        - t3x4) by (nonlinear_arith)
        requires
            t3x3 == a02 * (a10 * a23),
            t3x4 == a02 * (a13 * a20),
    ;
    let t3x5 = a03 * (a10 * a22);
    let t3x6 = a03 * (a12 * a20);
    assert(a03 * (a10 * a22 - a12 * a20) == t3x5
        - t3x6) by (nonlinear_arith)
        requires
            t3x5 == a03 * (a10 * a22),
            t3x6 == a03 * (a12 * a20),
    ;
    assert(c3 == t3x1 - t3x2 - t3x3 + t3x4 + t3x5 - t3x6);
    let s3x1 = t3x1 * a31;
    let s3x2 = t3x2 * a31;
    let s3x3 = t3x3 * a31;
    let s3x4 = t3x4 * a31;
    let s3x5 = t3x5 * a31;
    let s3x6 = t3x6 * a31;
    assert(c3 * a31 == s3x1 - s3x2 - s3x3 + s3x4 + s3x5 - s3x6) by (nonlinear_arith)
        requires
            c3 == t3x1 - t3x2 - t3x3 + t3x4 + t3x5 - t3x6,
            s3x1 == t3x1 * a31,
            s3x2 == t3x2 * a31,
            s3x3 == t3x3 * a31,
            s3x4 == t3x4 * a31,
            s3x5 == t3x5 * a31,
            s3x6 == t3x6 * a31,
    ;
    assert(s3x1 == a00 * a12 * a23 * a31) by (nonlinear_arith)
        requires
            s3x1 == t3x1 * a31,
            t3x1 == a00 * (a12 * a23),
    ;
    assert(s3x2 == a00 * a13 * a22 * a31) by (nonlinear_arith)
        requires
            s3x2 == t3x2 * a31,
            t3x2 == a00 * (a13 * a22),
    ;
    assert(s3x3 == a02 * a10 * a23 * a31) by (nonlinear_arith)
        requires
            s3x3 == t3x3 * a31,
            t3x3 == a02 * (a10 * a23),
    ;
    assert(s3x4 == a02 * a13 * a20 * a31) by (nonlinear_arith)
        requires
            s3x4 == t3x4 * a31,
            t3x4 == a02 * (a13 * a20),
    ;
    assert(s3x5 == a03 * a10 * a22 * a31) by (nonlinear_arith)
        requires
            s3x5 == t3x5 * a31,
            t3x5 == a03 * (a10 * a22),
    ;
    assert(s3x6 == a03 * a12 * a20 * a31) by (nonlinear_arith)
        requires
            s3x6 == t3x6 * a31,
            t3x6 == a03 * (a12 * a20),
    ;
    let d = spec_det4_num(m);
    let b0 = spec_cof4_num(m, 0, 0);
    let u0x1 = a11 * (a22 * a33);
    let u0x2 = a11 * (a23 * a32);
    assert(a11 * (a22 * a33 - a23 * a32) == u0x1
        - u0x2) by (nonlinear_arith)
        requires
            u0x1 == a11 * (a22 * a33),
            u0x2 == a11 * (a23 * a32),
    ;
    let u0x3 = a12 * (a21 * a33);
    let u0x4 = a12 * (a23 * a31);
    assert(a12 * (a21 * a33 - a23 * a31) == u0x3
        - u0x4) by (nonlinear_arith)
        requires
            u0x3 == a12 * (a21 * a33),
            u0x4 == a12 * (a23 * a31),
    ;
    let u0x5 = a13 * (a21 * a32);
    let u0x6 = a13 * (a22 * a31);
    assert(a13 * (a21 * a32 - a22 * a31) == u0x5
        - u0x6) by (nonlinear_arith)
        requires
            u0x5 == a13 * (a21 * a32),
            u0x6 == a13 * (a22 * a31),
    ;
    assert(b0 == u0x1 - u0x2 - u0x3 + u0x4 + u0x5 - u0x6);
    let v0x1 = u0x1 * a00;
    let v0x2 = u0x2 * a00;
    let v0x3 = u0x3 * a00;
    let v0x4 = u0x4 * a00;
    let v0x5 = u0x5 * a00;
    let v0x6 = u0x6 * a00;
    assert(a00 * b0 == v0x1 - v0x2 - v0x3 + v0x4 + v0x5 - v0x6) by (nonlinear_arith)
        requires
            b0 == u0x1 - u0x2 - u0x3 + u0x4 + u0x5 - u0x6,
            v0x1 == u0x1 * a00,
            v0x2 == u0x2 * a00,
            v0x3 == u0x3 * a00,
            v0x4 == u0x4 * a00,
            v0x5 == u0x5 * a00,
            v0x6 == u0x6 * a00,
    ;
    assert(v0x1 == a00 * a11 * a22 * a33) by (nonlinear_arith)
        requires
            v0x1 == u0x1 * a00,
            u0x1 == a11 * (a22 * a33),
    ;
    assert(v0x2 == a00 * a11 * a23 * a32) by (nonlinear_arith)
        requires
            v0x2 == u0x2 * a00,
            u0x2 == a11 * (a23 * a32),
    ;
    assert(v0x3 == a00 * a12 * a21 * a33) by (nonlinear_arith)
        requires
            v0x3 == u0x3 * a00,
            u0x3 == a12 * (a21 * a33),
    ;
    assert(v0x4 == a00 * a12 * a23 * a31) by (nonlinear_arith)
        requires
            v0x4 == u0x4 * a00,
            u0x4 == a12 * (a23 * a31),
    ;
    assert(v0x5 == a00 * a13 * a21 * a32) by (nonlinear_arith)
        requires
            v0x5 == u0x5 * a00,
            u0x5 == a13 * (a21 * a32),
    ;
    assert(v0x6 == a00 * a13 * a22 * a31) by (nonlinear_arith)
        requires
            v0x6 == u0x6 * a00,
            u0x6 == a13 * (a22 * a31),
    ;
    let b1 = spec_cof4_num(m, 0, 1);
    let u1x1 = a10 * (a22 * a33);
    let u1x2 = a10 * (a23 * a32);
    assert(a10 * (a22 * a33 - a23 * a32) == u1x1
        - u1x2) by (nonlinear_arith)
        requires
            u1x1 == a10 * (a22 * a33),
            u1x2 == a10 * (a23 * a32),
    ;
    let u1x3 = a12 * (a20 * a33);
    let u1x4 = a12 * (a23 * a30);
    assert(a12 * (a20 * a33 - a23 * a30) == u1x3
        - u1x4) by (nonlinear_arith)
        requires
            u1x3 == a12 * (a20 * a33),
            u1x4 == a12 * (a23 * a30),
    ;
    let u1x5 = a13 * (a20 * a32);
    let u1x6 = a13 * (a22 * a30);
    assert(a13 * (a20 * a32 - a22 * a30) == u1x5
        - u1x6) by (nonlinear_arith)
        requires
            u1x5 == a13 * (a20 * a32),
            u1x6 == a13 * (a22 * a30),
    ;
    assert(b1 == -(u1x1 - u1x2 - u1x3 + u1x4 + u1x5 - u1x6));
    let v1x1 = u1x1 * a01;
    let v1x2 = u1x2 * a01;
    let v1x3 = u1x3 * a01;
    let v1x4 = u1x4 * a01;
    let v1x5 = u1x5 * a01;
    let v1x6 = u1x6 * a01;
    assert(a01 * b1 == -(v1x1 - v1x2 - v1x3 + v1x4 + v1x5 - v1x6)) by (nonlinear_arith)
        requires
            b1 == -(u1x1 - u1x2 - u1x3 + u1x4 + u1x5 - u1x6),
            v1x1 == u1x1 * a01,
            v1x2 == u1x2 * a01,
            v1x3 == u1x3 * a01,
            v1x4 == u1x4 * a01,
            v1x5 == u1x5 * a01,
            v1x6 == u1x6 * a01,
    ;
    assert(v1x1 == a01 * a10 * a22 * a33) by (nonlinear_arith)
        requires
            v1x1 == u1x1 * a01,
            u1x1 == a10 * (a22 * a33),
    ;
    assert(v1x2 == a01 * a10 * a23 * a32) by (nonlinear_arith)
        requires
            v1x2 == u1x2 * a01,
            u1x2 == a10 * (a23 * a32),
    ;
    assert(v1x3 == a01 * a12 * a20 * a33) by (nonlinear_arith)
        requires
            v1x3 == u1x3 * a01,
            u1x3 == a12 * (a20 * a33),
    ;
    assert(v1x4 == a01 * a12 * a23 * a30) by (nonlinear_arith)
        requires
            v1x4 == u1x4 * a01,
            u1x4 == a12 * (a23 * a30),
    ;
    assert(v1x5 == a01 * a13 * a20 * a32) by (nonlinear_arith)
        requires
            v1x5 == u1x5 * a01,
            u1x5 == a13 * (a20 * a32),
    ;
    assert(v1x6 == a01 * a13 * a22 * a30) by (nonlinear_arith)
        requires
            v1x6 == u1x6 * a01,
            u1x6 == a13 * (a22 * a30),
    ;
    let b2 = spec_cof4_num(m, 0, 2);
    let u2x1 = a10 * (a21 * a33);
    let u2x2 = a10 * (a23 * a31);
    assert(a10 * (a21 * a33 - a23 * a31) == u2x1
        - u2x2) by (nonlinear_arith)
        requires
            u2x1 == a10 * (a21 * a33),
            u2x2 == a10 * (a23 * a31),
    ;
    let u2x3 = a11 * (a20 * a33);
    let u2x4 = a11 * (a23 * a30);
    assert(a11 * (a20 * a33 - a23 * a30) == u2x3
        - u2x4) by (nonlinear_arith)
        requires
            u2x3 == a11 * (a20 * a33),
            u2x4 == a11 * (a23 * a30),
    ;
    let u2x5 = a13 * (a20 * a31);
    let u2x6 = a13 * (a21 * a30);
    assert(a13 * (a20 * a31 - a21 * a30) == u2x5
        - u2x6) by (nonlinear_arith)
        requires
            u2x5 == a13 * (a20 * a31),
            u2x6 == a13 * (a21 * a30),
    ;
    assert(b2 == u2x1 - u2x2 - u2x3 + u2x4 + u2x5 - u2x6);
    let v2x1 = u2x1 * a02;
    let v2x2 = u2x2 * a02;
    let v2x3 = u2x3 * a02;
    let v2x4 = u2x4 * a02;
    let v2x5 = u2x5 * a02;
    let v2x6 = u2x6 * a02;
    assert(a02 * b2 == v2x1 - v2x2 - v2x3 + v2x4 + v2x5 - v2x6) by (nonlinear_arith)
        requires
            b2 == u2x1 - u2x2 - u2x3 + u2x4 + u2x5 - u2x6,
            v2x1 == u2x1 * a02,
            v2x2 == u2x2 * a02,
            v2x3 == u2x3 * a02,
            v2x4 == u2x4 * a02,
            v2x5 == u2x5 * a02,
            v2x6 == u2x6 * a02,
    ;
    assert(v2x1 == a02 * a10 * a21 * a33) by (nonlinear_arith)
        requires
            v2x1 == u2x1 * a02,
            u2x1 == a10 * (a21 * a33),
    ;
    assert(v2x2 == a02 * a10 * a23 * a31) by (nonlinear_arith)
        requires
            v2x2 == u2x2 * a02,
            u2x2 == a10 * (a23 * a31),
    ;
    assert(v2x3 == a02 * a11 * a20 * a33) by (nonlinear_arith)
        requires
            v2x3 == u2x3 * a02,
            u2x3 == a11 * (a20 * a33),
    ;
    assert(v2x4 == a02 * a11 * a23 * a30) by (nonlinear_arith)
        requires
            v2x4 == u2x4 * a02,
            u2x4 == a11 * (a23 * a30),
    ;
    assert(v2x5 == a02 * a13 * a20 * a31) by (nonlinear_arith)
        requires
            v2x5 == u2x5 * a02,
            u2x5 == a13 * (a20 * a31),
    ;
    assert(v2x6 == a02 * a13 * a21 * a30) by (nonlinear_arith)
        requires
            v2x6 == u2x6 * a02,
            u2x6 == a13 * (a21 * a30),
    ;
    let b3 = spec_cof4_num(m, 0, 3);
    let u3x1 = a10 * (a21 * a32);
    let u3x2 = a10 * (a22 * a31);
    assert(a10 * (a21 * a32 - a22 * a31) == u3x1
        - u3x2) by (nonlinear_arith)
        requires
            u3x1 == a10 * (a21 * a32),
            u3x2 == a10 * (a22 * a31),
    ;
    let u3x3 = a11 * (a20 * a32);
    let u3x4 = a11 * (a22 * a30);
    assert(a11 * (a20 * a32 - a22 * a30) == u3x3
        - u3x4) by (nonlinear_arith)
        requires
            u3x3 == a11 * (a20 * a32),
            u3x4 == a11 * (a22 * a30),
    ;
    let u3x5 = a12 * (a20 * a31);
    let u3x6 = a12 * (a21 * a30);
    assert(a12 * (a20 * a31 - a21 * a30) == u3x5
        - u3x6) by (nonlinear_arith)
        requires
            u3x5 == a12 * (a20 * a31),
            u3x6 == a12 * (a21 * a30),
    ;
    assert(b3 == -(u3x1 - u3x2 - u3x3 + u3x4 + u3x5 - u3x6));
    let v3x1 = u3x1 * a03;
    let v3x2 = u3x2 * a03;
    let v3x3 = u3x3 * a03;
    let v3x4 = u3x4 * a03;
    let v3x5 = u3x5 * a03;
    let v3x6 = u3x6 * a03;
    assert(a03 * b3 == -(v3x1 - v3x2 - v3x3 + v3x4 + v3x5 - v3x6)) by (nonlinear_arith)
        requires
            b3 == -(u3x1 - u3x2 - u3x3 + u3x4 + u3x5 - u3x6),
            v3x1 == u3x1 * a03,
            v3x2 == u3x2 * a03,
            v3x3 == u3x3 * a03,
            v3x4 == u3x4 * a03,
            v3x5 == u3x5 * a03,
            v3x6 == u3x6 * a03,
    ;
    assert(v3x1 == a03 * a10 * a21 * a32) by (nonlinear_arith)
        requires
            v3x1 == u3x1 * a03,
            u3x1 == a10 * (a21 * a32),
    ;
    assert(v3x2 == a03 * a10 * a22 * a31) by (nonlinear_arith)
        requires
            v3x2 == u3x2 * a03,
            u3x2 == a10 * (a22 * a31),
    ;
    assert(v3x3 == a03 * a11 * a20 * a32) by (nonlinear_arith)
        requires
            v3x3 == u3x3 * a03,
            u3x3 == a11 * (a20 * a32),
    ;
    assert(v3x4 == a03 * a11 * a22 * a30) by (nonlinear_arith)
        requires
            v3x4 == u3x4 * a03,
            u3x4 == a11 * (a22 * a30),
    ;
    assert(v3x5 == a03 * a12 * a20 * a31) by (nonlinear_arith)
        requires
            v3x5 == u3x5 * a03,
            u3x5 == a12 * (a20 * a31),
    ;
    assert(v3x6 == a03 * a12 * a21 * a30) by (nonlinear_arith)
        requires
            v3x6 == u3x6 * a03,
            u3x6 == a12 * (a21 * a30),
    ;
    assert(d == a00 * b0 + a01 * b1 + a02 * b2 + a03 * b3);
    assert(c0 * a01 + c1 * a11 + c2 * a21 + c3 * a31 == d);
    assert(spec_adj_mul_entry(m, 1, 1) == c0 * a01 + c1 * a11 + c2 * a21 + c3 * a31);
}

proof fn lemma_adj_entry_1_2(m: Matrix4)
    ensures
        spec_adj_mul_entry(m, 1, 2) == 0,
{
    let a00 = m.m00 as int;
    let a01 = m.m01 as int;
    let a02 = m.m02 as int;
    let a03 = m.m03 as int;
    let a10 = m.m10 as int;
    let a11 = m.m11 as int;
    let a12 = m.m12 as int;
    let a13 = m.m13 as int;
    let a20 = m.m20 as int;
    let a21 = m.m21 as int;
    let a22 = m.m22 as int;
    let a23 = m.m23 as int;
    let a30 = m.m30 as int;
    let a31 = m.m31 as int;
    let a32 = m.m32 as int;
    let a33 = m.m33 as int;
    let c0 = spec_cof4_num(m, 0, 1);
    let t0x1 = a10 * (a22 * a33);
    let t0x2 = a10 * (a23 * a32);
    assert(a10 * (a22 * a33 - a23 * a32) == t0x1
        - t0x2) by (nonlinear_arith)
        requires
            t0x1 == a10 * (a22 * a33),
            t0x2 == a10 * (a23 * a32),
    ;
    let t0x3 = a12 * (a20 * a33);
    let t0x4 = a12 * (a23 * a30);
    assert(a12 * (a20 * a33 - a23 * a30) == t0x3
        - t0x4) by (nonlinear_arith)
        requires
            t0x3 == a12 * (a20 * a33),
            t0x4 == a12 * (a23 * a30),
    ;
    let t0x5 = a13 * (a20 * a32);
    let t0x6 = a13 * (a22 * a30);
    assert(a13 * (a20 * a32 - a22 * a30) == t0x5
        - t0x6) by (nonlinear_arith)
        requires
            t0x5 == a13 * (a20 * a32),
            t0x6 == a13 * (a22 * a30),
    ;
    assert(c0 == -(t0x1 - t0x2 - t0x3 + t0x4 + t0x5 - t0x6));
    let s0x1 = t0x1 * a02;
    let s0x2 = t0x2 * a02;
    let s0x3 = t0x3 * a02;
    let s0x4 = t0x4 * a02;
    let s0x5 = t0x5 * a02;
    let s0x6 = t0x6 * a02;
    assert(c0 * a02 == -(s0x1 - s0x2 - s0x3 + s0x4 + s0x5 - s0x6)) by (nonlinear_arith)
        requires
            c0 == -(t0x1 - t0x2 - t0x3 + t0x4 + t0x5 - t0x6),
            s0x1 == t0x1 * a02,
            s0x2 == t0x2 * a02,
            s0x3 == t0x3 * a02,
            s0x4 == t0x4 * a02,
            s0x5 == t0x5 * a02,
            s0x6 == t0x6 * a02,
    ;
    assert(s0x1 == a02 * a10 * a22 * a33) by (nonlinear_arith)
        requires
            s0x1 == t0x1 * a02,
            t0x1 == a10 * (a22 * a33),
    ;
    assert(s0x2 == a02 * a10 * a23 * a32) by (nonlinear_arith)
        requires
            s0x2 == t0x2 * a02,
            t0x2 == a10 * (a23 * a32),
    ;
    assert(s0x3 == a02 * a12 * a20 * a33) by (nonlinear_arith)
        requires
            s0x3 == t0x3 * a02,
            t0x3 == a12 * (a20 * a33),
    ;
    assert(s0x4 == a02 * a12 * a23 * a30) by (nonlinear_arith)
        requires
            s0x4 == t0x4 * a02,
            t0x4 == a12 * (a23 * a30),
    ;
    assert(s0x5 == a02 * a13 * a20 * a32) by (nonlinear_arith)
        requires
            s0x5 == t0x5 * a02,
            t0x5 == a13 * (a20 * a32),
    ;
    assert(s0x6 == a02 * a13 * a22 * a30) by (nonlinear_arith)
        requires
            s0x6 == t0x6 * a02,
            t0x6 == a13 * (a22 * a30),
    ;
    let c1 = spec_cof4_num(m, 1, 1);
    let t1x1 = a00 * (a22 * a33);
    let t1x2 = a00 * (a23 * a32);
    assert(a00 * (a22 * a33 - a23 * a32) == t1x1
        - t1x2) by (nonlinear_arith)
        requires
            t1x1 == a00 * (a22 * a33),
            t1x2 == a00 * (a23 * a32),
    ;
    let t1x3 = a02 * (a20 * a33);
    let t1x4 = a02 * (a23 * a30);
    assert(a02 * (a20 * a33 - a23 * a30) == t1x3
        - t1x4) by (nonlinear_arith)
        requires
            t1x3 == a02 * (a20 * a33),
            t1x4 == a02 * (a23 * a30),
    ;
    let t1x5 = a03 * (a20 * a32);
    let t1x6 = a03 * (a22 * a30);
    assert(a03 * (a20 * a32 - a22 * a30) == t1x5
        - t1x6) by (nonlinear_arith)
        requires
            t1x5 == a03 * (a20 * a32),
            t1x6 == a03 * (a22 * a30),
    ;
    assert(c1 == t1x1 - t1x2 - t1x3 + t1x4 + t1x5 - t1x6);
    let s1x1 = t1x1 * a12;
    let s1x2 = t1x2 * a12;
    let s1x3 = t1x3 * a12;
    let s1x4 = t1x4 * a12;
    let s1x5 = t1x5 * a12;
    let s1x6 = t1x6 * a12;
    assert(c1 * a12 == s1x1 - s1x2 - s1x3 + s1x4 + s1x5 - s1x6) by (nonlinear_arith)
        requires
            c1 == t1x1 - t1x2 - t1x3 + t1x4 + t1x5 - t1x6,
            s1x1 == t1x1 * a12,
            s1x2 == t1x2 * a12,
            s1x3 == t1x3 * a12,
            s1x4 == t1x4 * a12,
            s1x5 == t1x5 * a12,
            s1x6 == t1x6 * a12,
    ;
    assert(s1x1 == a00 * a12 * a22 * a33) by (nonlinear_arith)
        requires
            s1x1 == t1x1 * a12,
            t1x1 == a00 * (a22 * a33),
    ;
    assert(s1x2 == a00 * a12 * a23 * a32) by (nonlinear_arith)
        requires
            s1x2 == t1x2 * a12,
            t1x2 == a00 * (a23 * a32),
    ;
    assert(s1x3 == a02 * a12 * a20 * a33) by (nonlinear_arith)
        requires
            s1x3 == t1x3 * a12,
            t1x3 == a02 * (a20 * a33),
    ;
    assert(s1x4 == a02 * a12 * a23 * a30) by (nonlinear_arith)
        requires
            s1x4 == t1x4 * a12,
            t1x4 == a02 * (a23 * a30),
    ;
    assert(s1x5 == a03 * a12 * a20 * a32) by (nonlinear_arith)
        requires
            s1x5 == t1x5 * a12,
            t1x5 == a03 * (a20 * a32),
    ;
    assert(s1x6 == a03 * a12 * a22 * a30) by (nonlinear_arith)
        requires
            s1x6 == t1x6 * a12,
            t1x6 == a03 * (a22 * a30),
    ;
    let c2 = spec_cof4_num(m, 2, 1);
    let t2x1 = a00 * (a12 * a33);
    let t2x2 = a00 * (a13 * a32);
    assert(a00 * (a12 * a33 - a13 * a32) == t2x1
        - t2x2) by (nonlinear_arith)
        requires
            t2x1 == a00 * (a12 * a33),
            t2x2 == a00 * (a13 * a32),
    ;
    let t2x3 = a02 * (a10 * a33);
    let t2x4 = a02 * (a13 * a30);
    assert(a02 * (a10 * a33 - a13 * a30) == t2x3
        - t2x4) by (nonlinear_arith)
        requires
            t2x3 == a02 * (a10 * a33),
            t2x4 == a02 * (a13 * a30),
    ;
    let t2x5 = a03 * (a10 * a32);
    let t2x6 = a03 * (a12 * a30);
    assert(a03 * (a10 * a32 - a12 * a30) == t2x5
        - t2x6) by (nonlinear_arith)
        requires
            t2x5 == a03 * (a10 * a32),
            t2x6 == a03 * (a12 * a30),
    ;
    assert(c2 == -(t2x1 - t2x2 - t2x3 + t2x4 + t2x5 - t2x6));
    let s2x1 = t2x1 * a22;
    let s2x2 = t2x2 * a22;
    let s2x3 = t2x3 * a22;
    let s2x4 = t2x4 * a22;
    let s2x5 = t2x5 * a22;
    let s2x6 = t2x6 * a22;
    assert(c2 * a22 == -(s2x1 - s2x2 - s2x3 + s2x4 + s2x5 - s2x6)) by (nonlinear_arith)
        requires
            c2 == -(t2x1 - t2x2 - t2x3 + t2x4 + t2x5 - t2x6),
            s2x1 == t2x1 * a22,
            s2x2 == t2x2 * a22,
            s2x3 == t2x3 * a22,
            s2x4 == t2x4 * a22,
            s2x5 == t2x5 * a22,
            s2x6 == t2x6 * a22,
    ;
    assert(s2x1 == a00 * a12 * a22 * a33) by (nonlinear_arith)
        requires
            s2x1 == t2x1 * a22,
            t2x1 == a00 * (a12 * a33),
    ;
    assert(s2x2 == a00 * a13 * a22 * a32) by (nonlinear_arith)
        requires
            s2x2 == t2x2 * a22,
            t2x2 == a00 * (a13 * a32),
    ;
    assert(s2x3 == a02 * a10 * a22 * a33) by (nonlinear_arith)
        requires
            s2x3 == t2x3 * a22,
            t2x3 == a02 * (a10 * a33),
    ;
    assert(s2x4 == a02 * a13 * a22 * a30) by (nonlinear_arith)
        requires
            s2x4 == t2x4 * a22,
            t2x4 == a02 * (a13 * a30),
    ;
    assert(s2x5 == a03 * a10 * a22 * a32) by (nonlinear_arith)
        requires
            s2x5 == t2x5 * a22,
            t2x5 == a03 * (a10 * a32),
    ;
    assert(s2x6 == a03 * a12 * a22 * a30) by (nonlinear_arith)
        requires
            s2x6 == t2x6 * a22,
            t2x6 == a03 * (a12 * a30),
    ;
    let c3 = spec_cof4_num(m, 3, 1);
    let t3x1 = a00 * (a12 * a23);
    let t3x2 = a00 * (a13 * a22);
    assert(a00 * (a12 * a23 - a13 * a22) == t3x1
        - t3x2) by (nonlinear_arith)
        requires
            t3x1 == a00 * (a12 * a23),
            t3x2 == a00 * (a13 * a22),
    ;
    let t3x3 = a02 * (a10 * a23);
    let t3x4 = a02 * (a13 * a20);
    assert(a02 * (a10 * a23 - a13 * a20) == t3x3
        - t3x4) by (nonlinear_arith)
        requires
            t3x3 == a02 * (a10 * a23),
            t3x4 == a02 * (a13 * a20),
    ;
    let t3x5 = a03 * (a10 * a22);
    let t3x6 = a03 * (a12 * a20);
    assert(a03 * (a10 * a22 - a12 * a20) == t3x5
        - t3x6) by (nonlinear_arith)
        requires
            t3x5 == a03 * (a10 * a22),
            t3x6 == a03 * (a12 * a20),
    ;
    assert(c3 == t3x1 - t3x2 - t3x3 + t3x4 + t3x5 - t3x6);
    let s3x1 = t3x1 * a32;
    let s3x2 = t3x2 * a32;
    let s3x3 = t3x3 * a32;
    let s3x4 = t3x4 * a32;
    let s3x5 = t3x5 * a32;
    let s3x6 = t3x6 * a32;
    assert(c3 * a32 == s3x1 - s3x2 - s3x3 + s3x4 + s3x5 - s3x6) by (nonlinear_arith)
        requires
            c3 == t3x1 - t3x2 - t3x3 + t3x4 + t3x5 - t3x6,
            s3x1 == t3x1 * a32,
            s3x2 == t3x2 * a32,
            s3x3 == t3x3 * a32,
            s3x4 == t3x4 * a32,
            s3x5 == t3x5 * a32,
            s3x6 == t3x6 * a32,
    ;
    assert(s3x1 == a00 * a12 * a23 * a32) by (nonlinear_arith)
        requires
            s3x1 == t3x1 * a32,
            t3x1 == a00 * (a12 * a23),
    ;
    assert(s3x2 == a00 * a13 * a22 * a32) by (nonlinear_arith)
        requires
            s3x2 == t3x2 * a32,
            t3x2 == a00 * (a13 * a22),
    ;
    assert(s3x3 == a02 * a10 * a23 * a32) by (nonlinear_arith)
        requires
            s3x3 == t3x3 * a32,
            t3x3 == a02 * (a10 * a23),
    ;
    assert(s3x4 == a02 * a13 * a20 * a32) by (nonlinear_arith)
        requires
            s3x4 == t3x4 * a32,
            t3x4 == a02 * (a13 * a20),
    ;
    assert(s3x5 == a03 * a10 * a22 * a32) by (nonlinear_arith)
        requires
            s3x5 == t3x5 * a32,
            t3x5 == a03 * (a10 * a22),
    ;
    assert(s3x6 == a03 * a12 * a20 * a32) by (nonlinear_arith)
        requires
            s3x6 == t3x6 * a32,
            t3x6 == a03 * (a12 * a20),
    ;
    assert(c0 * a02 + c1 * a12 + c2 * a22 + c3 * a32 == 0);
    assert(spec_adj_mul_entry(m, 1, 2) == c0 * a02 + c1 * a12 + c2 * a22 + c3 * a32);
}

proof fn lemma_adj_entry_1_3(m: Matrix4)
    ensures
        spec_adj_mul_entry(m, 1, 3) == 0,
{
    let a00 = m.m00 as int;
    let a01 = m.m01 as int;
    let a02 = m.m02 as int;
    let a03 = m.m03 as int;
    let a10 = m.m10 as int;
    let a11 = m.m11 as int;
    let a12 = m.m12 as int;
    let a13 = m.m13 as int;
    let a20 = m.m20 as int;
    let a21 = m.m21 as int;
    let a22 = m.m22 as int;
    let a23 = m.m23 as int;
    let a30 = m.m30 as int;
    let a31 = m.m31 as int;
    let a32 = m.m32 as int;
    let a33 = m.m33 as int;
    let c0 = spec_cof4_num(m, 0, 1);
    let t0x1 = a10 * (a22 * a33);
    let t0x2 = a10 * (a23 * a32);
    assert(a10 * (a22 * a33 - a23 * a32) == t0x1
        - t0x2) by (nonlinear_arith)
        requires
            t0x1 == a10 * (a22 * a33),
            t0x2 == a10 * (a23 * a32),
    ;
    let t0x3 = a12 * (a20 * a33);
    let t0x4 = a12 * (a23 * a30);
    assert(a12 * (a20 * a33 - a23 * a30) == t0x3
        - t0x4) by (nonlinear_arith)
        requires
            t0x3 == a12 * (a20 * a33),
            t0x4 == a12 * (a23 * a30),
    ;
    let t0x5 = a13 * (a20 * a32);
    let t0x6 = a13 * (a22 * a30);
    assert(a13 * (a20 * a32 - a22 * a30) == t0x5
        - t0x6) by (nonlinear_arith)
        requires
            t0x5 == a13 * (a20 * a32),
            t0x6 == a13 * (a22 * a30),
    ;
    assert(c0 == -(t0x1 - t0x2 - t0x3 + t0x4 + t0x5 - t0x6));
    let s0x1 = t0x1 * a03;
    let s0x2 = t0x2 * a03;
    let s0x3 = t0x3 * a03;
    let s0x4 = t0x4 * a03;
    let s0x5 = t0x5 * a03;
    let s0x6 = t0x6 * a03;
    assert(c0 * a03 == -(s0x1 - s0x2 - s0x3 + s0x4 + s0x5 - s0x6)) by (nonlinear_arith)
        requires
            c0 == -(t0x1 - t0x2 - t0x3 + t0x4 + t0x5 - t0x6),
            s0x1 == t0x1 * a03,
            s0x2 == t0x2 * a03,
            s0x3 == t0x3 * a03,
            s0x4 == t0x4 * a03,
            s0x5 == t0x5 * a03,
            s0x6 == t0x6 * a03,
    ;
    assert(s0x1 == a03 * a10 * a22 * a33) by (nonlinear_arith)
        requires
            s0x1 == t0x1 * a03,
            t0x1 == a10 * (a22 * a33),
    ;
    assert(s0x2 == a03 * a10 * a23 * a32) by (nonlinear_arith)
        requires
            s0x2 == t0x2 * a03,
            t0x2 == a10 * (a23 * a32),
    ;
    assert(s0x3 == a03 * a12 * a20 * a33) by (nonlinear_arith)
        requires
            s0x3 == t0x3 * a03,
            t0x3 == a12 * (a20 * a33),
    ;
    assert(s0x4 == a03 * a12 * a23 * a30) by (nonlinear_arith)
        requires
            s0x4 == t0x4 * a03,
            t0x4 == a12 * (a23 * a30),
    ;
    assert(s0x5 == a03 * a13 * a20 * a32) by (nonlinear_arith)
        requires
            s0x5 == t0x5 * a03,
            t0x5 == a13 * (a20 * a32),
    ;
    assert(s0x6 == a03 * a13 * a22 * a30) by (nonlinear_arith)
        requires
            s0x6 == t0x6 * a03,
            t0x6 == a13 * (a22 * a30),
    ;
    let c1 = spec_cof4_num(m, 1, 1);
    let t1x1 = a00 * (a22 * a33);
    let t1x2 = a00 * (a23 * a32);
    assert(a00 * (a22 * a33 - a23 * a32) == t1x1
        - t1x2) by (nonlinear_arith)
        requires
            t1x1 == a00 * (a22 * a33),
            t1x2 == a00 * (a23 * a32),
    ;
    let t1x3 = a02 * (a20 * a33);
    let t1x4 = a02 * (a23 * a30);
    assert(a02 * (a20 * a33 - a23 * a30) == t1x3
        - t1x4) by (nonlinear_arith)
        requires
            t1x3 == a02 * (a20 * a33),
            t1x4 == a02 * (a23 * a30),
    ;
    let t1x5 = a03 * (a20 * a32);
    let t1x6 = a03 * (a22 * a30);
    assert(a03 * (a20 * a32 - a22 * a30) == t1x5
        - t1x6) by (nonlinear_arith)
        requires
            t1x5 == a03 * (a20 * a32),
            t1x6 == a03 * (a22 * a30),
    ;
    assert(c1 == t1x1 - t1x2 - t1x3 + t1x4 + t1x5 - t1x6);
    let s1x1 = t1x1 * a13;
    let s1x2 = t1x2 * a13;
    let s1x3 = t1x3 * a13;
    let s1x4 = t1x4 * a13;
    let s1x5 = t1x5 * a13;
    let s1x6 = t1x6 * a13;
    assert(c1 * a13 == s1x1 - s1x2 - s1x3 + s1x4 + s1x5 - s1x6) by (nonlinear_arith)
        requires
            c1 == t1x1 - t1x2 - t1x3 + t1x4 + t1x5 - t1x6,
            s1x1 == t1x1 * a13,
            s1x2 == t1x2 * a13,
            s1x3 == t1x3 * a13,
            s1x4 == t1x4 * a13,
            s1x5 == t1x5 * a13,
            s1x6 == t1x6 * a13,
    ;
    assert(s1x1 == a00 * a13 * a22 * a33) by (nonlinear_arith)
        requires
            s1x1 == t1x1 * a13,
            t1x1 == a00 * (a22 * a33),
    ;
    assert(s1x2 == a00 * a13 * a23 * a32) by (nonlinear_arith)
        requires
            s1x2 == t1x2 * a13,
            t1x2 == a00 * (a23 * a32),
    ;
    assert(s1x3 == a02 * a13 * a20 * a33) by (nonlinear_arith)
        requires
            s1x3 == t1x3 * a13,
            t1x3 == a02 * (a20 * a33),
    ;
    assert(s1x4 == a02 * a13 * a23 * a30) by (nonlinear_arith)
        requires
            s1x4 == t1x4 * a13,
            t1x4 == a02 * (a23 * a30),
    ;
    assert(s1x5 == a03 * a13 * a20 * a32) by (nonlinear_arith)
        requires
            s1x5 == t1x5 * a13,
            t1x5 == a03 * (a20 * a32),
    ;
    assert(s1x6 == a03 * a13 * a22 * a30) by (nonlinear_arith)
        requires
            s1x6 == t1x6 * a13,
            t1x6 == a03 * (a22 * a30),
    ;
    let c2 = spec_cof4_num(m, 2, 1);
    let t2x1 = a00 * (a12 * a33);
    let t2x2 = a00 * (a13 * a32);
    assert(a00 * (a12 * a33 - a13 * a32) == t2x1
        - t2x2) by (nonlinear_arith)
        requires
            t2x1 == a00 * (a12 * a33),
            t2x2 == a00 * (a13 * a32),
    ;
    let t2x3 = a02 * (a10 * a33);
    let t2x4 = a02 * (a13 * a30);
    assert(a02 * (a10 * a33 - a13 * a30) == t2x3
        - t2x4) by (nonlinear_arith)
        requires
            t2x3 == a02 * (a10 * a33),
            t2x4 == a02 * (a13 * a30),
    ;
    let t2x5 = a03 * (a10 * a32);
    let t2x6 = a03 * (a12 * a30);
    assert(a03 * (a10 * a32 - a12 * a30) == t2x5
        - t2x6) by (nonlinear_arith)
        requires
            t2x5 == a03 * (a10 * a32),
            t2x6 == a03 * (a12 * a30),
    ;
    assert(c2 == -(t2x1 - t2x2 - t2x3 + t2x4 + t2x5 - t2x6));
    let s2x1 = t2x1 * a23;
    let s2x2 = t2x2 * a23;
    let s2x3 = t2x3 * a23;
    let s2x4 = t2x4 * a23;
    let s2x5 = t2x5 * a23;
    let s2x6 = t2x6 * a23;
    assert(c2 * a23 == -(s2x1 - s2x2 - s2x3 + s2x4 + s2x5 - s2x6)) by (nonlinear_arith)
        requires
            c2 == -(t2x1 - t2x2 - t2x3 + t2x4 + t2x5 - t2x6),
            s2x1 == t2x1 * a23,
            s2x2 == t2x2 * a23,
            s2x3 == t2x3 * a23,
            s2x4 == t2x4 * a23,
            s2x5 == t2x5 * a23,
            s2x6 == t2x6 * a23,
    ;
    assert(s2x1 == a00 * a12 * a23 * a33) by (nonlinear_arith)
        requires
            s2x1 == t2x1 * a23,
            t2x1 == a00 * (a12 * a33),
    ;
    assert(s2x2 == a00 * a13 * a23 * a32) by (nonlinear_arith)
        requires
            s2x2 == t2x2 * a23,
            t2x2 == a00 * (a13 * a32),
    ;
    assert(s2x3 == a02 * a10 * a23 * a33) by (nonlinear_arith)
        requires
            s2x3 == t2x3 * a23,
            t2x3 == a02 * (a10 * a33),
    ;
    assert(s2x4 == a02 * a13 * a23 * a30) by (nonlinear_arith)
        requires
            s2x4 == t2x4 * a23,
            t2x4 == a02 * (a13 * a30),
    ;
    assert(s2x5 == a03 * a10 * a23 * a32) by (nonlinear_arith)
        requires
            s2x5 == t2x5 * a23,
            t2x5 == a03 * (a10 * a32),
    ;
    assert(s2x6 == a03 * a12 * a23 * a30) by (nonlinear_arith)
        requires
            s2x6 == t2x6 * a23,
            t2x6 == a03 * (a12 * a30),
    ;
    let c3 = spec_cof4_num(m, 3, 1);
    let t3x1 = a00 * (a12 * a23);
    let t3x2 = a00 * (a13 * a22);
    assert(a00 * (a12 * a23 - a13 * a22) == t3x1
        - t3x2) by (nonlinear_arith)
        requires
            t3x1 == a00 * (a12 * a23),
            t3x2 == a00 * (a13 * a22),
    ;
    let t3x3 = a02 * (a10 * a23);
    let t3x4 = a02 * (a13 * a20);
    assert(a02 * (a10 * a23 - a13 * a20) == t3x3
        - t3x4) by (nonlinear_arith)
        requires
            t3x3 == a02 * (a10 * a23),
            t3x4 == a02 * (a13 * a20),
    ;
    let t3x5 = a03 * (a10 * a22);
    let t3x6 = a03 * (a12 * a20);
    assert(a03 * (a10 * a22 - a12 * a20) == t3x5
        - t3x6) by (nonlinear_arith)
        requires
            t3x5 == a03 * (a10 * a22),
            t3x6 == a03 * (a12 * a20),
    ;
    assert(c3 == t3x1 - t3x2 - t3x3 + t3x4 + t3x5 - t3x6);
    let s3x1 = t3x1 * a33;
    let s3x2 = t3x2 * a33;
    let s3x3 = t3x3 * a33;
    let s3x4 = t3x4 * a33;
    let s3x5 = t3x5 * a33;
    let s3x6 = t3x6 * a33;
    assert(c3 * a33 == s3x1 - s3x2 - s3x3 + s3x4 + s3x5 - s3x6) by (nonlinear_arith)
        requires
            c3 == t3x1 - t3x2 - t3x3 + t3x4 + t3x5 - t3x6,
            s3x1 == t3x1 * a33,
            s3x2 == t3x2 * a33,
            s3x3 == t3x3 * a33,
            s3x4 == t3x4 * a33,
            s3x5 == t3x5 * a33,
            s3x6 == t3x6 * a33,
    ;
    assert(s3x1 == a00 * a12 * a23 * a33) by (nonlinear_arith)
        requires
            s3x1 == t3x1 * a33,
            t3x1 == a00 * (a12 * a23),
    ;
    assert(s3x2 == a00 * a13 * a22 * a33) by (nonlinear_arith)
        requires
            s3x2 == t3x2 * a33,
            t3x2 == a00 * (a13 * a22),
    ;
    assert(s3x3 == a02 * a10 * a23 * a33) by (nonlinear_arith)
        requires
            s3x3 == t3x3 * a33,
            t3x3 == a02 * (a10 * a23),
    ;
    assert(s3x4 == a02 * a13 * a20 * a33) by (nonlinear_arith)
        requires
            s3x4 == t3x4 * a33,
            t3x4 == a02 * (a13 * a20),
    ;
    assert(s3x5 == a03 * a10 * a22 * a33) by (nonlinear_arith)
        requires
            s3x5 == t3x5 * a33,
            t3x5 == a03 * (a10 * a22),
    ;
    assert(s3x6 == a03 * a12 * a20 * a33) by (nonlinear_arith)
        requires
            s3x6 == t3x6 * a33,
            t3x6 == a03 * (a12 * a20),
    ;
    assert(c0 * a03 + c1 * a13 + c2 * a23 + c3 * a33 == 0);
    assert(spec_adj_mul_entry(m, 1, 3) == c0 * a03 + c1 * a13 + c2 * a23 + c3 * a33);
}

proof fn lemma_adj_entry_2_0(m: Matrix4)
    ensures
        spec_adj_mul_entry(m, 2, 0) == 0,
{
    let a00 = m.m00 as int;
    let a01 = m.m01 as int;
    let a02 = m.m02 as int;
    let a03 = m.m03 as int;
    let a10 = m.m10 as int;
    let a11 = m.m11 as int;
    let a12 = m.m12 as int;
    let a13 = m.m13 as int;
    let a20 = m.m20 as int;
    let a21 = m.m21 as int;
    let a22 = m.m22 as int;
    let a23 = m.m23 as int;
    let a30 = m.m30 as int;
    let a31 = m.m31 as int;
    let a32 = m.m32 as int;
    let a33 = m.m33 as int;
    let c0 = spec_cof4_num(m, 0, 2);
    let t0x1 = a10 * (a21 * a33);
    let t0x2 = a10 * (a23 * a31);
    assert(a10 * (a21 * a33 - a23 * a31) == t0x1
        - t0x2) by (nonlinear_arith)
        requires
            t0x1 == a10 * (a21 * a33),
            t0x2 == a10 * (a23 * a31),
    ;
    let t0x3 = a11 * (a20 * a33);
    let t0x4 = a11 * (a23 * a30);
    assert(a11 * (a20 * a33 - a23 * a30) == t0x3
        - t0x4) by (nonlinear_arith)
        requires
            t0x3 == a11 * (a20 * a33),
            t0x4 == a11 * (a23 * a30),
    ;
    let t0x5 = a13 * (a20 * a31);
    let t0x6 = a13 * (a21 * a30);
    assert(a13 * (a20 * a31 - a21 * a30) == t0x5
        - t0x6) by (nonlinear_arith)
        requires
            t0x5 == a13 * (a20 * a31),
            t0x6 == a13 * (a21 * a30),
    ;
    assert(c0 == t0x1 - t0x2 - t0x3 + t0x4 + t0x5 - t0x6);
    let s0x1 = t0x1 * a00;
    let s0x2 = t0x2 * a00;
    let s0x3 = t0x3 * a00;
    let s0x4 = t0x4 * a00;
    let s0x5 = t0x5 * a00;
    let s0x6 = t0x6 * a00;
    assert(c0 * a00 == s0x1 - s0x2 - s0x3 + s0x4 + s0x5 - s0x6) by (nonlinear_arith)
        requires
            c0 == t0x1 - t0x2 - t0x3 + t0x4 + t0x5 - t0x6,
            s0x1 == t0x1 * a00,
            s0x2 == t0x2 * a00,
            s0x3 == t0x3 * a00,
            s0x4 == t0x4 * a00,
            s0x5 == t0x5 * a00,
            s0x6 == t0x6 * a00,
    ;
    assert(s0x1 == a00 * a10 * a21 * a33) by (nonlinear_arith)
        requires
            s0x1 == t0x1 * a00,
            t0x1 == a10 * (a21 * a33),
    ;
    assert(s0x2 == a00 * a10 * a23 * a31) by (nonlinear_arith)
        requires
            s0x2 == t0x2 * a00,
            t0x2 == a10 * (a23 * a31),
    ;
    assert(s0x3 == a00 * a11 * a20 * a33) by (nonlinear_arith)
        requires
            s0x3 == t0x3 * a00,
            t0x3 == a11 * (a20 * a33),
    ;
    assert(s0x4 == a00 * a11 * a23 * a30) by (nonlinear_arith)
        requires
            s0x4 == t0x4 * a00,
            t0x4 == a11 * (a23 * a30),
    ;
    assert(s0x5 == a00 * a13 * a20 * a31) by (nonlinear_arith)
        requires
            s0x5 == t0x5 * a00,
            t0x5 == a13 * (a20 * a31),
    ;
    assert(s0x6 == a00 * a13 * a21 * a30) by (nonlinear_arith)
        requires
            s0x6 == t0x6 * a00,
            t0x6 == a13 * (a21 * a30),
    ;
    let c1 = spec_cof4_num(m, 1, 2);
    let t1x1 = a00 * (a21 * a33);
    let t1x2 = a00 * (a23 * a31);
    assert(a00 * (a21 * a33 - a23 * a31) == t1x1
        - t1x2) by (nonlinear_arith)
        requires
            t1x1 == a00 * (a21 * a33),
            t1x2 == a00 * (a23 * a31),
    ;
    let t1x3 = a01 * (a20 * a33);
    let t1x4 = a01 * (a23 * a30);
    assert(a01 * (a20 * a33 - a23 * a30) == t1x3
        - t1x4) by (nonlinear_arith)
        requires
            t1x3 == a01 * (a20 * a33),
            t1x4 == a01 * (a23 * a30),
    ;
    let t1x5 = a03 * (a20 * a31);
    let t1x6 = a03 * (a21 * a30);
    assert(a03 * (a20 * a31 - a21 * a30) == t1x5
        - t1x6) by (nonlinear_arith)
        requires
            t1x5 == a03 * (a20 * a31),
            t1x6 == a03 * (a21 * a30),
    ;
    assert(c1 == -(t1x1 - t1x2 - t1x3 + t1x4 + t1x5 - t1x6));
    let s1x1 = t1x1 * a10;
    let s1x2 = t1x2 * a10;
    let s1x3 = t1x3 * a10;
    let s1x4 = t1x4 * a10;
    let s1x5 = t1x5 * a10;
    let s1x6 = t1x6 * a10;
    assert(c1 * a10 == -(s1x1 - s1x2 - s1x3 + s1x4 + s1x5 - s1x6)) by (nonlinear_arith)
        requires
            c1 == -(t1x1 - t1x2 - t1x3 + t1x4 + t1x5 - t1x6),
            s1x1 == t1x1 * a10,
            s1x2 == t1x2 * a10,
            s1x3 == t1x3 * a10,
            s1x4 == t1x4 * a10,
            s1x5 == t1x5 * a10,
            s1x6 == t1x6 * a10,
    ;
    assert(s1x1 == a00 * a10 * a21 * a33) by (nonlinear_arith)
        requires
            s1x1 == t1x1 * a10,
            t1x1 == a00 * (a21 * a33),
    ;
    assert(s1x2 == a00 * a10 * a23 * a31) by (nonlinear_arith)
        requires
            s1x2 == t1x2 * a10,
            t1x2 == a00 * (a23 * a31),
    ;
    assert(s1x3 == a01 * a10 * a20 * a33) by (nonlinear_arith)
        requires
            s1x3 == t1x3 * a10,
            t1x3 == a01 * (a20 * a33),
    ;
    assert(s1x4 == a01 * a10 * a23 * a30) by (nonlinear_arith)
        requires
            s1x4 == t1x4 * a10,
            t1x4 == a01 * (a23 * a30),
    ;
    assert(s1x5 == a03 * a10 * a20 * a31) by (nonlinear_arith)
        requires
            s1x5 == t1x5 * a10,
            t1x5 == a03 * (a20 * a31),
    ;
    assert(s1x6 == a03 * a10 * a21 * a30) by (nonlinear_arith)
        requires
            s1x6 == t1x6 * a10,
            t1x6 == a03 * (a21 * a30),
    ;
    let c2 = spec_cof4_num(m, 2, 2);
    let t2x1 = a00 * (a11 * a33);
    let t2x2 = a00 * (a13 * a31);
    assert(a00 * (a11 * a33 - a13 * a31) == t2x1
        - t2x2) by (nonlinear_arith)
        requires
            t2x1 == a00 * (a11 * a33),
            t2x2 == a00 * (a13 * a31),
    ;
    let t2x3 = a01 * (a10 * a33);
    let t2x4 = a01 * (a13 * a30);
    assert(a01 * (a10 * a33 - a13 * a30) == t2x3
        - t2x4) by (nonlinear_arith)
        requires
            t2x3 == a01 * (a10 * a33),
            t2x4 == a01 * (a13 * a30),
    ;
    let t2x5 = a03 * (a10 * a31);
    let t2x6 = a03 * (a11 * a30);
    assert(a03 * (a10 * a31 - a11 * a30) == t2x5
        - t2x6) by (nonlinear_arith)
        requires
            t2x5 == a03 * (a10 * a31),
            t2x6 == a03 * (a11 * a30),
    ;
    assert(c2 == t2x1 - t2x2 - t2x3 + t2x4 + t2x5 - t2x6);
    let s2x1 = t2x1 * a20;
    let s2x2 = t2x2 * a20;
    let s2x3 = t2x3 * a20;
    let s2x4 = t2x4 * a20;
    let s2x5 = t2x5 * a20;
    let s2x6 = t2x6 * a20;
    assert(c2 * a20 == s2x1 - s2x2 - s2x3 + s2x4 + s2x5 - s2x6) by (nonlinear_arith)
        requires
            c2 == t2x1 - t2x2 - t2x3 + t2x4 + t2x5 - t2x6,
            s2x1 == t2x1 * a20,
            s2x2 == t2x2 * a20,
            s2x3 == t2x3 * a20,
            s2x4 == t2x4 * a20,
            s2x5 == t2x5 * a20,
            s2x6 == t2x6 * a20,
    ;
    assert(s2x1 == a00 * a11 * a20 * a33) by (nonlinear_arith)
        requires
            s2x1 == t2x1 * a20,
            t2x1 == a00 * (a11 * a33),
    ;
    assert(s2x2 == a00 * a13 * a20 * a31) by (nonlinear_arith)
        requires
            s2x2 == t2x2 * a20,
            t2x2 == a00 * (a13 * a31),
    ;
    assert(s2x3 == a01 * a10 * a20 * a33) by (nonlinear_arith)
        requires
            s2x3 == t2x3 * a20,
            t2x3 == a01 * (a10 * a33),
    ;
    assert(s2x4 == a01 * a13 * a20 * a30) by (nonlinear_arith)
        requires
            s2x4 == t2x4 * a20,
            t2x4 == a01 * (a13 * a30),
    ;
    assert(s2x5 == a03 * a10 * a20 * a31) by (nonlinear_arith)
        requires
            s2x5 == t2x5 * a20,
            t2x5 == a03 * (a10 * a31),
    ;
    assert(s2x6 == a03 * a11 * a20 * a30) by (nonlinear_arith)
        requires
            s2x6 == t2x6 * a20,
            t2x6 == a03 * (a11 * a30),
    ;
    let c3 = spec_cof4_num(m, 3, 2);
    let t3x1 = a00 * (a11 * a23);
    let t3x2 = a00 * (a13 * a21);
    assert(a00 * (a11 * a23 - a13 * a21) == t3x1
        - t3x2) by (nonlinear_arith)
        requires
            t3x1 == a00 * (a11 * a23),
            t3x2 == a00 * (a13 * a21),
    ;
    let t3x3 = a01 * (a10 * a23);
    let t3x4 = a01 * (a13 * a20);
    assert(a01 * (a10 * a23 - a13 * a20) == t3x3
        - t3x4) by (nonlinear_arith)
        requires
            t3x3 == a01 * (a10 * a23),
            t3x4 == a01 * (a13 * a20),
    ;
    let t3x5 = a03 * (a10 * a21);
    let t3x6 = a03 * (a11 * a20);
    assert(a03 * (a10 * a21 - a11 * a20) == t3x5
        - t3x6) by (nonlinear_arith)
        requires
            t3x5 == a03 * (a10 * a21),
            t3x6 == a03 * (a11 * a20),
    ;
    assert(c3 == -(t3x1 - t3x2 - t3x3 + t3x4 + t3x5 - t3x6));
    let s3x1 = t3x1 * a30;
    let s3x2 = t3x2 * a30;
    let s3x3 = t3x3 * a30;
    let s3x4 = t3x4 * a30;
    let s3x5 = t3x5 * a30;
    let s3x6 = t3x6 * a30;
    assert(c3 * a30 == -(s3x1 - s3x2 - s3x3 + s3x4 + s3x5 - s3x6)) by (nonlinear_arith)
        requires
            c3 == -(t3x1 - t3x2 - t3x3 + t3x4 + t3x5 - t3x6),
            s3x1 == t3x1 * a30,
            s3x2 == t3x2 * a30,
            s3x3 == t3x3 * a30,
            s3x4 == t3x4 * a30,
            s3x5 == t3x5 * a30,
            s3x6 == t3x6 * a30,
    ;
    assert(s3x1 == a00 * a11 * a23 * a30) by (nonlinear_arith)
        requires
            s3x1 == t3x1 * a30,
            t3x1 == a00 * (a11 * a23),
    ;
    assert(s3x2 == a00 * a13 * a21 * a30) by (nonlinear_arith)
        requires
            s3x2 == t3x2 * a30,
            t3x2 == a00 * (a13 * a21),
    ;
    assert(s3x3 == a01 * a10 * a23 * a30) by (nonlinear_arith)
        requires
            s3x3 == t3x3 * a30,
            t3x3 == a01 * (a10 * a23),
    ;
    assert(s3x4 == a01 * a13 * a20 * a30) by (nonlinear_arith)
        requires
            s3x4 == t3x4 * a30,
            t3x4 == a01 * (a13 * a20),
    ;
    assert(s3x5 == a03 * a10 * a21 * a30) by (nonlinear_arith)
        requires
            s3x5 == t3x5 * a30,
            t3x5 == a03 * (a10 * a21),
    ;
    assert(s3x6 == a03 * a11 * a20 * a30) by (nonlinear_arith)
        requires
            s3x6 == t3x6 * a30,
            t3x6 == a03 * (a11 * a20),
    ;
    assert(c0 * a00 + c1 * a10 + c2 * a20 + c3 * a30 == 0);
    assert(spec_adj_mul_entry(m, 2, 0) == c0 * a00 + c1 * a10 + c2 * a20 + c3 * a30);
}

proof fn lemma_adj_entry_2_1(m: Matrix4)
    ensures
        spec_adj_mul_entry(m, 2, 1) == 0,
{
    let a00 = m.m00 as int;
    let a01 = m.m01 as int;
    let a02 = m.m02 as int;
    let a03 = m.m03 as int;
    let a10 = m.m10 as int;
    let a11 = m.m11 as int;
    let a12 = m.m12 as int;
    let a13 = m.m13 as int;
    let a20 = m.m20 as int;
    let a21 = m.m21 as int;
    let a22 = m.m22 as int;
    let a23 = m.m23 as int;
    let a30 = m.m30 as int;
    let a31 = m.m31 as int;
    let a32 = m.m32 as int;
    let a33 = m.m33 as int;
    let c0 = spec_cof4_num(m, 0, 2);
    let t0x1 = a10 * (a21 * a33);
    let t0x2 = a10 * (a23 * a31);
    assert(a10 * (a21 * a33 - a23 * a31) == t0x1
        - t0x2) by (nonlinear_arith)
        requires
            t0x1 == a10 * (a21 * a33),
            t0x2 == a10 * (a23 * a31),
    ;
    let t0x3 = a11 * (a20 * a33);
    let t0x4 = a11 * (a23 * a30);
    assert(a11 * (a20 * a33 - a23 * a30) == t0x3
        - t0x4) by (nonlinear_arith)
        requires
            t0x3 == a11 * (a20 * a33),
            t0x4 == a11 * (a23 * a30),
    ;
    let t0x5 = a13 * (a20 * a31);
    let t0x6 = a13 * (a21 * a30);
    assert(a13 * (a20 * a31 - a21 * a30) == t0x5
        - t0x6) by (nonlinear_arith)
        requires
            t0x5 == a13 * (a20 * a31),
            t0x6 == a13 * (a21 * a30),
    ;
    assert(c0 == t0x1 - t0x2 - t0x3 + t0x4 + t0x5 - t0x6);
    let s0x1 = t0x1 * a01;
    let s0x2 = t0x2 * a01;
    let s0x3 = t0x3 * a01;
    let s0x4 = t0x4 * a01;
    let s0x5 = t0x5 * a01;
    let s0x6 = t0x6 * a01;
    assert(c0 * a01 == s0x1 - s0x2 - s0x3 + s0x4 + s0x5 - s0x6) by (nonlinear_arith)
        requires
            c0 == t0x1 - t0x2 - t0x3 + t0x4 + t0x5 - t0x6,
            s0x1 == t0x1 * a01,
            s0x2 == t0x2 * a01,
            s0x3 == t0x3 * a01,
            s0x4 == t0x4 * a01,
            s0x5 == t0x5 * a01,
            s0x6 == t0x6 * a01,
    ;
    assert(s0x1 == a01 * a10 * a21 * a33) by (nonlinear_arith)
        requires
            s0x1 == t0x1 * a01,
            t0x1 == a10 * (a21 * a33),
    ;
    assert(s0x2 == a01 * a10 * a23 * a31) by (nonlinear_arith)
        requires
            s0x2 == t0x2 * a01,
            t0x2 == a10 * (a23 * a31),
    ;
    assert(s0x3 == a01 * a11 * a20 * a33) by (nonlinear_arith)
        requires
            s0x3 == t0x3 * a01,
            t0x3 == a11 * (a20 * a33),
    ;
    assert(s0x4 == a01 * a11 * a23 * a30) by (nonlinear_arith)
        requires
            s0x4 == t0x4 * a01,
            t0x4 == a11 * (a23 * a30),
    ;
    assert(s0x5 == a01 * a13 * a20 * a31) by (nonlinear_arith)
        requires
            s0x5 == t0x5 * a01,
            t0x5 == a13 * (a20 * a31),
    ;
    assert(s0x6 == a01 * a13 * a21 * a30) by (nonlinear_arith)
        requires
            s0x6 == t0x6 * a01,
            t0x6 == a13 * (a21 * a30),
    ;
    let c1 = spec_cof4_num(m, 1, 2);
    let t1x1 = a00 * (a21 * a33);
    let t1x2 = a00 * (a23 * a31);
    assert(a00 * (a21 * a33 - a23 * a31) == t1x1
        - t1x2) by (nonlinear_arith)
        requires
            t1x1 == a00 * (a21 * a33),
            t1x2 == a00 * (a23 * a31),
    ;
    let t1x3 = a01 * (a20 * a33);
    let t1x4 = a01 * (a23 * a30);
    assert(a01 * (a20 * a33 - a23 * a30) == t1x3
        - t1x4) by (nonlinear_arith)
        requires
            t1x3 == a01 * (a20 * a33),
            t1x4 == a01 * (a23 * a30),
    ;
    let t1x5 = a03 * (a20 * a31);
    let t1x6 = a03 * (a21 * a30);
    assert(a03 * (a20 * a31 - a21 * a30) == t1x5
        - t1x6) by (nonlinear_arith)
        requires
            t1x5 == a03 * (a20 * a31),
            t1x6 == a03 * (a21 * a30),
    ;
    assert(c1 == -(t1x1 - t1x2 - t1x3 + t1x4 + t1x5 - t1x6));
    let s1x1 = t1x1 * a11;
    let s1x2 = t1x2 * a11;
    let s1x3 = t1x3 * a11;
    let s1x4 = t1x4 * a11;
    let s1x5 = t1x5 * a11;
    let s1x6 = t1x6 * a11;
    assert(c1 * a11 == -(s1x1 - s1x2 - s1x3 + s1x4 + s1x5 - s1x6)) by (nonlinear_arith)
        requires
            c1 == -(t1x1 - t1x2 - t1x3 + t1x4 + t1x5 - t1x6),
            s1x1 == t1x1 * a11,
            s1x2 == t1x2 * a11,
            s1x3 == t1x3 * a11,
            s1x4 == t1x4 * a11,
            s1x5 == t1x5 * a11,
            s1x6 == t1x6 * a11,
    ;
    assert(s1x1 == a00 * a11 * a21 * a33) by (nonlinear_arith)
        requires
            s1x1 == t1x1 * a11,
            t1x1 == a00 * (a21 * a33),
    ;
    assert(s1x2 == a00 * a11 * a23 * a31) by (nonlinear_arith)
        requires
            s1x2 == t1x2 * a11,
            t1x2 == a00 * (a23 * a31),
    ;
    assert(s1x3 == a01 * a11 * a20 * a33) by (nonlinear_arith)
        requires
            s1x3 == t1x3 * a11,
            t1x3 == a01 * (a20 * a33),
    ;
    assert(s1x4 == a01 * a11 * a23 * a30) by (nonlinear_arith)
        requires
            s1x4 == t1x4 * a11,
            t1x4 == a01 * (a23 * a30),
    ;
    assert(s1x5 == a03 * a11 * a20 * a31) by (nonlinear_arith)
        requires
            s1x5 == t1x5 * a11,
            t1x5 == a03 * (a20 * a31),
    ;
    assert(s1x6 == a03 * a11 * a21 * a30) by (nonlinear_arith)
        requires
            s1x6 == t1x6 * a11,
            t1x6 == a03 * (a21 * a30),
    ;
    let c2 = spec_cof4_num(m, 2, 2);
    let t2x1 = a00 * (a11 * a33);
    let t2x2 = a00 * (a13 * a31);
    assert(a00 * (a11 * a33 - a13 * a31) == t2x1
        - t2x2) by (nonlinear_arith)
        requires
            t2x1 == a00 * (a11 * a33),
            t2x2 == a00 * (a13 * a31),
    ;
    let t2x3 = a01 * (a10 * a33);
    let t2x4 = a01 * (a13 * a30);
    assert(a01 * (a10 * a33 - a13 * a30) == t2x3
        - t2x4) by (nonlinear_arith)
        requires
            t2x3 == a01 * (a10 * a33),
            t2x4 == a01 * (a13 * a30),
    ;
    let t2x5 = a03 * (a10 * a31);
    let t2x6 = a03 * (a11 * a30);
    assert(a03 * (a10 * a31 - a11 * a30) == t2x5
        - t2x6) by (nonlinear_arith)
        requires
            t2x5 == a03 * (a10 * a31),
            t2x6 == a03 * (a11 * a30),
    ;
    assert(c2 == t2x1 - t2x2 - t2x3 + t2x4 + t2x5 - t2x6);
    let s2x1 = t2x1 * a21;
    let s2x2 = t2x2 * a21;
    let s2x3 = t2x3 * a21;
    let s2x4 = t2x4 * a21;
    let s2x5 = t2x5 * a21;
    let s2x6 = t2x6 * a21;
    assert(c2 * a21 == s2x1 - s2x2 - s2x3 + s2x4 + s2x5 - s2x6) by (nonlinear_arith)
        requires
            c2 == t2x1 - t2x2 - t2x3 + t2x4 + t2x5 - t2x6,
            s2x1 == t2x1 * a21,
            s2x2 == t2x2 * a21,
            s2x3 == t2x3 * a21,
            s2x4 == t2x4 * a21,
            s2x5 == t2x5 * a21,
            s2x6 == t2x6 * a21,
    ;
    assert(s2x1 == a00 * a11 * a21 * a33) by (nonlinear_arith)
        requires
            s2x1 == t2x1 * a21,
            t2x1 == a00 * (a11 * a33),
    ;
    assert(s2x2 == a00 * a13 * a21 * a31) by (nonlinear_arith)
        requires
            s2x2 == t2x2 * a21,
            t2x2 == a00 * (a13 * a31),
    ;
    assert(s2x3 == a01 * a10 * a21 * a33) by (nonlinear_arith)
        requires
            s2x3 == t2x3 * a21,
            t2x3 == a01 * (a10 * a33),
    ;
    assert(s2x4 == a01 * a13 * a21 * a30) by (nonlinear_arith)
        requires
            s2x4 == t2x4 * a21,
            t2x4 == a01 * (a13 * a30),
    ;
    assert(s2x5 == a03 * a10 * a21 * a31) by (nonlinear_arith)
        requires
            s2x5 == t2x5 * a21,
            t2x5 == a03 * (a10 * a31),
    ;
    assert(s2x6 == a03 * a11 * a21 * a30) by (nonlinear_arith)
        requires
            s2x6 == t2x6 * a21,
            t2x6 == a03 * (a11 * a30),
    ;
    let c3 = spec_cof4_num(m, 3, 2);
    let t3x1 = a00 * (a11 * a23);
    let t3x2 = a00 * (a13 * a21);
    assert(a00 * (a11 * a23 - a13 * a21) == t3x1
        - t3x2) by (nonlinear_arith)
        requires
            t3x1 == a00 * (a11 * a23),
            t3x2 == a00 * (a13 * a21),
    ;
    let t3x3 = a01 * (a10 * a23);
    let t3x4 = a01 * (a13 * a20);
    assert(a01 * (a10 * a23 - a13 * a20) == t3x3
        - t3x4) by (nonlinear_arith)
        requires
            t3x3 == a01 * (a10 * a23),
            t3x4 == a01 * (a13 * a20),
    ;
    let t3x5 = a03 * (a10 * a21);
    let t3x6 = a03 * (a11 * a20);
    assert(a03 * (a10 * a21 - a11 * a20) == t3x5
        - t3x6) by (nonlinear_arith)
        requires
            t3x5 == a03 * (a10 * a21),
            t3x6 == a03 * (a11 * a20),
    ;
    assert(c3 == -(t3x1 - t3x2 - t3x3 + t3x4 + t3x5 - t3x6));
    let s3x1 = t3x1 * a31;
    let s3x2 = t3x2 * a31;
    let s3x3 = t3x3 * a31;
    let s3x4 = t3x4 * a31;
    let s3x5 = t3x5 * a31;
    let s3x6 = t3x6 * a31;
    assert(c3 * a31 == -(s3x1 - s3x2 - s3x3 + s3x4 + s3x5 - s3x6)) by (nonlinear_arith)
        requires
            c3 == -(t3x1 - t3x2 - t3x3 + t3x4 + t3x5 - t3x6),
            s3x1 == t3x1 * a31,
            s3x2 == t3x2 * a31,
            s3x3 == t3x3 * a31,
            s3x4 == t3x4 * a31,
            s3x5 == t3x5 * a31,
            s3x6 == t3x6 * a31,
    ;
    assert(s3x1 == a00 * a11 * a23 * a31) by (nonlinear_arith)
        requires
            s3x1 == t3x1 * a31,
            t3x1 == a00 * (a11 * a23),
    ;
    assert(s3x2 == a00 * a13 * a21 * a31) by (nonlinear_arith)
        requires
            s3x2 == t3x2 * a31,
            t3x2 == a00 * (a13 * a21),
    ;
    assert(s3x3 == a01 * a10 * a23 * a31) by (nonlinear_arith)
        requires
            s3x3 == t3x3 * a31,
            t3x3 == a01 * (a10 * a23),
    ;
    assert(s3x4 == a01 * a13 * a20 * a31) by (nonlinear_arith)
        requires
            s3x4 == t3x4 * a31,
            t3x4 == a01 * (a13 * a20),
    ;
    assert(s3x5 == a03 * a10 * a21 * a31) by (nonlinear_arith)
        requires
            s3x5 == t3x5 * a31,
            t3x5 == a03 * (a10 * a21),
    ;
    assert(s3x6 == a03 * a11 * a20 * a31) by (nonlinear_arith)
        requires
            s3x6 == t3x6 * a31,
            t3x6 == a03 * (a11 * a20),
    ;
    assert(c0 * a01 + c1 * a11 + c2 * a21 + c3 * a31 == 0);
    assert(spec_adj_mul_entry(m, 2, 1) == c0 * a01 + c1 * a11 + c2 * a21 + c3 * a31);
}

proof fn lemma_adj_entry_2_2(m: Matrix4)
    ensures
        spec_adj_mul_entry(m, 2, 2) == spec_det4_num(m),
{
    let a00 = m.m00 as int;
    let a01 = m.m01 as int;
    let a02 = m.m02 as int;
    let a03 = m.m03 as int;
    let a10 = m.m10 as int;
    let a11 = m.m11 as int;
    let a12 = m.m12 as int;
    let a13 = m.m13 as int;
    let a20 = m.m20 as int;
    let a21 = m.m21 as int;
    let a22 = m.m22 as int;
    let a23 = m.m23 as int;
    let a30 = m.m30 as int;
    let a31 = m.m31 as int;
    let a32 = m.m32 as int;
    let a33 = m.m33 as int;
    let c0 = spec_cof4_num(m, 0, 2);
    let t0x1 = a10 * (a21 * a33);
    let t0x2 = a10 * (a23 * a31);
    assert(a10 * (a21 * a33 - a23 * a31) == t0x1
        - t0x2) by (nonlinear_arith)
        requires
            t0x1 == a10 * (a21 * a33),
            t0x2 == a10 * (a23 * a31),
    ;
    let t0x3 = a11 * (a20 * a33);
    let t0x4 = a11 * (a23 * a30);
    assert(a11 * (a20 * a33 - a23 * a30) == t0x3
        - t0x4) by (nonlinear_arith)
        requires
            t0x3 == a11 * (a20 * a33),
            t0x4 == a11 * (a23 * a30),
    ;
    let t0x5 = a13 * (a20 * a31);
    let t0x6 = a13 * (a21 * a30);
    assert(a13 * (a20 * a31 - a21 * a30) == t0x5
        - t0x6) by (nonlinear_arith)
        requires
            t0x5 == a13 * (a20 * a31),
            t0x6 == a13 * (a21 * a30),
    ;
    assert(c0 == t0x1 - t0x2 - t0x3 + t0x4 + t0x5 - t0x6);
    let s0x1 = t0x1 * a02;
    let s0x2 = t0x2 * a02;
    let s0x3 = t0x3 * a02;
    let s0x4 = t0x4 * a02;
    let s0x5 = t0x5 * a02;
    let s0x6 = t0x6 * a02;
    assert(c0 * a02 == s0x1 - s0x2 - s0x3 + s0x4 + s0x5 - s0x6) by (nonlinear_arith)
        requires
            c0 == t0x1 - t0x2 - t0x3 + t0x4 + t0x5 - t0x6,
            s0x1 == t0x1 * a02,
            s0x2 == t0x2 * a02,
            s0x3 == t0x3 * a02,
            s0x4 == t0x4 * a02,
            s0x5 == t0x5 * a02,
            s0x6 == t0x6 * a02,
    ;
    assert(s0x1 == a02 * a10 * a21 * a33) by (nonlinear_arith)
        requires
            s0x1 == t0x1 * a02,
            t0x1 == a10 * (a21 * a33),
    ;
    assert(s0x2 == a02 * a10 * a23 * a31) by (nonlinear_arith)
        requires
            s0x2 == t0x2 * a02,
            t0x2 == a10 * (a23 * a31),
    ;
    assert(s0x3 == a02 * a11 * a20 * a33) by (nonlinear_arith)
        requires
            s0x3 == t0x3 * a02,
            t0x3 == a11 * (a20 * a33),
    ;
    assert(s0x4 == a02 * a11 * a23 * a30) by (nonlinear_arith)
        requires
            s0x4 == t0x4 * a02,
            t0x4 == a11 * (a23 * a30),
    ;
    assert(s0x5 == a02 * a13 * a20 * a31) by (nonlinear_arith)
        requires
            s0x5 == t0x5 * a02,
            t0x5 == a13 * (a20 * a31),
    ;
    assert(s0x6 == a02 * a13 * a21 * a30) by (nonlinear_arith)
        requires
            s0x6 == t0x6 * a02,
            t0x6 == a13 * (a21 * a30),
    ;
    let c1 = spec_cof4_num(m, 1, 2);
    let t1x1 = a00 * (a21 * a33);
    let t1x2 = a00 * (a23 * a31);
    assert(a00 * (a21 * a33 - a23 * a31) == t1x1
        - t1x2) by (nonlinear_arith)
        requires
            t1x1 == a00 * (a21 * a33),
            t1x2 == a00 * (a23 * a31),
    ;
    let t1x3 = a01 * (a20 * a33);
    let t1x4 = a01 * (a23 * a30);
    assert(a01 * (a20 * a33 - a23 * a30) == t1x3
        - t1x4) by (nonlinear_arith)
        requires
            t1x3 == a01 * (a20 * a33),
            t1x4 == a01 * (a23 * a30),
    ;
    let t1x5 = a03 * (a20 * a31);
    let t1x6 = a03 * (a21 * a30);
    assert(a03 * (a20 * a31 - a21 * a30) == t1x5
        - t1x6) by (nonlinear_arith)
        requires
            t1x5 == a03 * (a20 * a31),
            t1x6 == a03 * (a21 * a30),
    ;
    assert(c1 == -(t1x1 - t1x2 - t1x3 + t1x4 + t1x5 - t1x6));
    let s1x1 = t1x1 * a12;
    let s1x2 = t1x2 * a12;
    let s1x3 = t1x3 * a12;
    let s1x4 = t1x4 * a12;
    let s1x5 = t1x5 * a12;
    let s1x6 = t1x6 * a12;
    assert(c1 * a12 == -(s1x1 - s1x2 - s1x3 + s1x4 + s1x5 - s1x6)) by (nonlinear_arith)
        requires
            c1 == -(t1x1 - t1x2 - t1x3 + t1x4 + t1x5 - t1x6),
            s1x1 == t1x1 * a12,
            s1x2 == t1x2 * a12,
            s1x3 == t1x3 * a12,
            s1x4 == t1x4 * a12,
            s1x5 == t1x5 * a12,
            s1x6 == t1x6 * a12,
    ;
    assert(s1x1 == a00 * a12 * a21 * a33) by (nonlinear_arith)
        requires
            s1x1 == t1x1 * a12,
            t1x1 == a00 * (a21 * a33),
    ;
    assert(s1x2 == a00 * a12 * a23 * a31) by (nonlinear_arith)
        requires
            s1x2 == t1x2 * a12,
            t1x2 == a00 * (a23 * a31),
    ;
    assert(s1x3 == a01 * a12 * a20 * a33) by (nonlinear_arith)
        requires
            s1x3 == t1x3 * a12,
            t1x3 == a01 * (a20 * a33),
    ;
    assert(s1x4 == a01 * a12 * a23 * a30) by (nonlinear_arith)
        requires
            s1x4 == t1x4 * a12,
            t1x4 == a01 * (a23 * a30),
    ;
    assert(s1x5 == a03 * a12 * a20 * a31) by (nonlinear_arith)
        requires
            s1x5 == t1x5 * a12,
            t1x5 == a03 * (a20 * a31),
    ;
    assert(s1x6 == a03 * a12 * a21 * a30) by (nonlinear_arith)
        requires
            s1x6 == t1x6 * a12,
            t1x6 == a03 * (a21 * a30),
    ;
    let c2 = spec_cof4_num(m, 2, 2);
    let t2x1 = a00 * (a11 * a33);
    let t2x2 = a00 * (a13 * a31);
    assert(a00 * (a11 * a33 - a13 * a31) == t2x1
        - t2x2) by (nonlinear_arith)
        requires
            t2x1 == a00 * (a11 * a33),
            t2x2 == a00 * (a13 * a31),
    ;
    let t2x3 = a01 * (a10 * a33);
    let t2x4 = a01 * (a13 * a30);
    assert(a01 * (a10 * a33 - a13 * a30) == t2x3
        - t2x4) by (nonlinear_arith)
        requires
            t2x3 == a01 * (a10 * a33),
            t2x4 == a01 * (a13 * a30),
    ;
    let t2x5 = a03 * (a10 * a31);
    let t2x6 = a03 * (a11 * a30);
    assert(a03 * (a10 * a31 - a11 * a30) == t2x5
        - t2x6) by (nonlinear_arith)
        requires
            t2x5 == a03 * (a10 * a31),
            t2x6 == a03 * (a11 * a30),
    ;
    assert(c2 == t2x1 - t2x2 - t2x3 + t2x4 + t2x5 - t2x6);
    let s2x1 = t2x1 * a22;
    let s2x2 = t2x2 * a22;
    let s2x3 = t2x3 * a22;
    let s2x4 = t2x4 * a22;
    let s2x5 = t2x5 * a22;
    let s2x6 = t2x6 * a22;
    assert(c2 * a22 == s2x1 - s2x2 - s2x3 + s2x4 + s2x5 - s2x6) by (nonlinear_arith)
        requires
            c2 == t2x1 - t2x2 - t2x3 + t2x4 + t2x5 - t2x6,
            s2x1 == t2x1 * a22,
            s2x2 == t2x2 * a22,
            s2x3 == t2x3 * a22,
            s2x4 == t2x4 * a22,
            s2x5 == t2x5 * a22,
            s2x6 == t2x6 * a22,
    ;
    assert(s2x1 == a00 * a11 * a22 * a33) by (nonlinear_arith)
        requires
            s2x1 == t2x1 * a22,
            t2x1 == a00 * (a11 * a33),
    ;
    assert(s2x2 == a00 * a13 * a22 * a31) by (nonlinear_arith)
        requires
            s2x2 == t2x2 * a22,
            t2x2 == a00 * (a13 * a31),
    ;
    assert(s2x3 == a01 * a10 * a22 * a33) by (nonlinear_arith)
        requires
            s2x3 == t2x3 * a22,
            t2x3 == a01 * (a10 * a33),
    ;
    assert(s2x4 == a01 * a13 * a22 * a30) by (nonlinear_arith)
        requires
            s2x4 == t2x4 * a22,
            t2x4 == a01 * (a13 * a30),
    ;
    assert(s2x5 == a03 * a10 * a22 * a31) by (nonlinear_arith)
        requires
            s2x5 == t2x5 * a22,
            t2x5 == a03 * (a10 * a31),
    ;
    assert(s2x6 == a03 * a11 * a22 * a30) by (nonlinear_arith)
        requires
            s2x6 == t2x6 * a22,
            t2x6 == a03 * (a11 * a30),
    ;
    let c3 = spec_cof4_num(m, 3, 2);
    let t3x1 = a00 * (a11 * a23);
    let t3x2 = a00 * (a13 * a21);
    assert(a00 * (a11 * a23 - a13 * a21) == t3x1
        - t3x2) by (nonlinear_arith)
        requires
            t3x1 == a00 * (a11 * a23),
            t3x2 == a00 * (a13 * a21),
    ;
    let t3x3 = a01 * (a10 * a23);
    let t3x4 = a01 * (a13 * a20);
    assert(a01 * (a10 * a23 - a13 * a20) == t3x3
        - t3x4) by (nonlinear_arith)
        requires
            t3x3 == a01 * (a10 * a23),
            t3x4 == a01 * (a13 * a20),
    ;
    let t3x5 = a03 * (a10 * a21);
    let t3x6 = a03 * (a11 * a20);
    assert(a03 * (a10 * a21 - a11 * a20) == t3x5
        - t3x6) by (nonlinear_arith)
        requires
            t3x5 == a03 * (a10 * a21),
            t3x6 == a03 * (a11 * a20),
    ;
    assert(c3 == -(t3x1 - t3x2 - t3x3 + t3x4 + t3x5 - t3x6));
    let s3x1 = t3x1 * a32;
    let s3x2 = t3x2 * a32;
    let s3x3 = t3x3 * a32;
    let s3x4 = t3x4 * a32;
    let s3x5 = t3x5 * a32;
    let s3x6 = t3x6 * a32;
    assert(c3 * a32 == -(s3x1 - s3x2 - s3x3 + s3x4 + s3x5 - s3x6)) by (nonlinear_arith)
        requires
            c3 == -(t3x1 - t3x2 - t3x3 + t3x4 + t3x5 - t3x6),
            s3x1 == t3x1 * a32,
            s3x2 == t3x2 * a32,
            s3x3 == t3x3 * a32,
            s3x4 == t3x4 * a32,
            s3x5 == t3x5 * a32,
            s3x6 == t3x6 * a32,
    ;
    assert(s3x1 == a00 * a11 * a23 * a32) by (nonlinear_arith)
        requires
            s3x1 == t3x1 * a32,
            t3x1 == a00 * (a11 * a23),
    ;
    assert(s3x2 == a00 * a13 * a21 * a32) by (nonlinear_arith)
        requires
            s3x2 == t3x2 * a32,
            t3x2 == a00 * (a13 * a21),
    ;
    assert(s3x3 == a01 * a10 * a23 * a32) by (nonlinear_arith)
        requires
            s3x3 == t3x3 * a32,
            t3x3 == a01 * (a10 * a23),
    ;
    assert(s3x4 == a01 * a13 * a20 * a32) by (nonlinear_arith)
        requires
            s3x4 == t3x4 * a32,
            t3x4 == a01 * (a13 * a20),
    ;
    assert(s3x5 == a03 * a10 * a21 * a32) by (nonlinear_arith)
        requires
            s3x5 == t3x5 * a32,
            t3x5 == a03 * (a10 * a21),
    ;
    assert(s3x6 == a03 * a11 * a20 * a32) by (nonlinear_arith)
        requires
            s3x6 == t3x6 * a32,
            t3x6 == a03 * (a11 * a20),
    ;
    let d = spec_det4_num(m);
    let b0 = spec_cof4_num(m, 0, 0);
    let u0x1 = a11 * (a22 * a33);
    let u0x2 = a11 * (a23 * a32);
    assert(a11 * (a22 * a33 - a23 * a32) == u0x1
        - u0x2) by (nonlinear_arith)
        requires
            u0x1 == a11 * (a22 * a33),
            u0x2 == a11 * (a23 * a32),
    ;
    let u0x3 = a12 * (a21 * a33);
    let u0x4 = a12 * (a23 * a31);
    assert(a12 * (a21 * a33 - a23 * a31) == u0x3
        - u0x4) by (nonlinear_arith)
        requires
            u0x3 == a12 * (a21 * a33),
            u0x4 == a12 * (a23 * a31),
    ;
    let u0x5 = a13 * (a21 * a32);
    let u0x6 = a13 * (a22 * a31);
    assert(a13 * (a21 * a32 - a22 * a31) == u0x5
        - u0x6) by (nonlinear_arith)
        requires
            u0x5 == a13 * (a21 * a32),
            u0x6 == a13 * (a22 * a31),
    ;
    assert(b0 == u0x1 - u0x2 - u0x3 + u0x4 + u0x5 - u0x6);
    let v0x1 = u0x1 * a00;
    let v0x2 = u0x2 * a00;
    let v0x3 = u0x3 * a00;
    let v0x4 = u0x4 * a00;
    let v0x5 = u0x5 * a00;
    let v0x6 = u0x6 * a00;
    assert(a00 * b0 == v0x1 - v0x2 - v0x3 + v0x4 + v0x5 - v0x6) by (nonlinear_arith)
        requires
            b0 == u0x1 - u0x2 - u0x3 + u0x4 + u0x5 - u0x6,
            v0x1 == u0x1 * a00,
            v0x2 == u0x2 * a00,
            v0x3 == u0x3 * a00,
            v0x4 == u0x4 * a00,
            v0x5 == u0x5 * a00,
            v0x6 == u0x6 * a00,
    ;
    assert(v0x1 == a00 * a11 * a22 * a33) by (nonlinear_arith)
        requires
            v0x1 == u0x1 * a00,
            u0x1 == a11 * (a22 * a33),
    ;
    assert(v0x2 == a00 * a11 * a23 * a32) by (nonlinear_arith)
        requires
            v0x2 == u0x2 * a00,
            u0x2 == a11 * (a23 * a32),
    ;
    assert(v0x3 == a00 * a12 * a21 * a33) by (nonlinear_arith)
        requires
            v0x3 == u0x3 * a00,
            u0x3 == a12 * (a21 * a33),
    ;
    assert(v0x4 == a00 * a12 * a23 * a31) by (nonlinear_arith)
        requires
            v0x4 == u0x4 * a00,
            u0x4 == a12 * (a23 * a31),
    ;
    assert(v0x5 == a00 * a13 * a21 * a32) by (nonlinear_arith)
        requires
            v0x5 == u0x5 * a00,
            u0x5 == a13 * (a21 * a32),
    ;
    assert(v0x6 == a00 * a13 * a22 * a31) by (nonlinear_arith)
        requires
            v0x6 == u0x6 * a00,
            u0x6 == a13 * (a22 * a31),
    ;
    let b1 = spec_cof4_num(m, 0, 1);
    let u1x1 = a10 * (a22 * a33);
    let u1x2 = a10 * (a23 * a32);
    assert(a10 * (a22 * a33 - a23 * a32) == u1x1
        - u1x2) by (nonlinear_arith)
        requires
            u1x1 == a10 * (a22 * a33),
            u1x2 == a10 * (a23 * a32),
    ;
    let u1x3 = a12 * (a20 * a33);
    let u1x4 = a12 * (a23 * a30);
    assert(a12 * (a20 * a33 - a23 * a30) == u1x3
        - u1x4) by (nonlinear_arith)
        requires
            u1x3 == a12 * (a20 * a33),
            u1x4 == a12 * (a23 * a30),
    ;
    let u1x5 = a13 * (a20 * a32);
    let u1x6 = a13 * (a22 * a30);
    assert(a13 * (a20 * a32 - a22 * a30) == u1x5
        - u1x6) by (nonlinear_arith)
        requires
            u1x5 == a13 * (a20 * a32),
            u1x6 == a13 * (a22 * a30),
    ;
    assert(b1 == -(u1x1 - u1x2 - u1x3 + u1x4 + u1x5 - u1x6));
    let v1x1 = u1x1 * a01;
    let v1x2 = u1x2 * a01;
    let v1x3 = u1x3 * a01;
    let v1x4 = u1x4 * a01;
    let v1x5 = u1x5 * a01;
    let v1x6 = u1x6 * a01;
    assert(a01 * b1 == -(v1x1 - v1x2 - v1x3 + v1x4 + v1x5 - v1x6)) by (nonlinear_arith)
        requires
            b1 == -(u1x1 - u1x2 - u1x3 + u1x4 + u1x5 - u1x6),
            v1x1 == u1x1 * a01,
            v1x2 == u1x2 * a01,
            v1x3 == u1x3 * a01,
            v1x4 == u1x4 * a01,
            v1x5 == u1x5 * a01,
            v1x6 == u1x6 * a01,
    ;
    assert(v1x1 == a01 * a10 * a22 * a33) by (nonlinear_arith)
        requires
            v1x1 == u1x1 * a01,
            u1x1 == a10 * (a22 * a33),
    ;
    assert(v1x2 == a01 * a10 * a23 * a32) by (nonlinear_arith)
        requires
            v1x2 == u1x2 * a01,
            u1x2 == a10 * (a23 * a32),
    ;
    assert(v1x3 == a01 * a12 * a20 * a33) by (nonlinear_arith)
        requires
            v1x3 == u1x3 * a01,
            u1x3 == a12 * (a20 * a33),
    ;
    assert(v1x4 == a01 * a12 * a23 * a30) by (nonlinear_arith)
        requires
            v1x4 == u1x4 * a01,
            u1x4 == a12 * (a23 * a30),
    ;
    assert(v1x5 == a01 * a13 * a20 * a32) by (nonlinear_arith)
        requires
            v1x5 == u1x5 * a01,
            u1x5 == a13 * (a20 * a32),
    ;
    assert(v1x6 == a01 * a13 * a22 * a30) by (nonlinear_arith)
        requires
            v1x6 == u1x6 * a01,
            u1x6 == a13 * (a22 * a30),
    ;
    let b2 = spec_cof4_num(m, 0, 2);
    let u2x1 = a10 * (a21 * a33);
    let u2x2 = a10 * (a23 * a31);
    assert(a10 * (a21 * a33 - a23 * a31) == u2x1
        - u2x2) by (nonlinear_arith)
        requires
            u2x1 == a10 * (a21 * a33),
            u2x2 == a10 * (a23 * a31),
    ;
    let u2x3 = a11 * (a20 * a33);
    let u2x4 = a11 * (a23 * a30);
    assert(a11 * (a20 * a33 - a23 * a30) == u2x3
        - u2x4) by (nonlinear_arith)
        requires
            u2x3 == a11 * (a20 * a33),
            u2x4 == a11 * (a23 * a30),
    ;
    let u2x5 = a13 * (a20 * a31);
    let u2x6 = a13 * (a21 * a30);
    assert(a13 * (a20 * a31 - a21 * a30) == u2x5
        - u2x6) by (nonlinear_arith)
        requires
            u2x5 == a13 * (a20 * a31),
            u2x6 == a13 * (a21 * a30),
    ;
    assert(b2 == u2x1 - u2x2 - u2x3 + u2x4 + u2x5 - u2x6);
    let v2x1 = u2x1 * a02;
    let v2x2 = u2x2 * a02;
    let v2x3 = u2x3 * a02;
    let v2x4 = u2x4 * a02;
    let v2x5 = u2x5 * a02;
    let v2x6 = u2x6 * a02;
    assert(a02 * b2 == v2x1 - v2x2 - v2x3 + v2x4 + v2x5 - v2x6) by (nonlinear_arith)
        requires
            b2 == u2x1 - u2x2 - u2x3 + u2x4 + u2x5 - u2x6,
            v2x1 == u2x1 * a02,
            v2x2 == u2x2 * a02,
            v2x3 == u2x3 * a02,
            v2x4 == u2x4 * a02,
            v2x5 == u2x5 * a02,
            v2x6 == u2x6 * a02,
    ;
    assert(v2x1 == a02 * a10 * a21 * a33) by (nonlinear_arith)
        requires
            v2x1 == u2x1 * a02,
            u2x1 == a10 * (a21 * a33),
    ;
    assert(v2x2 == a02 * a10 * a23 * a31) by (nonlinear_arith)
        requires
            v2x2 == u2x2 * a02,
            u2x2 == a10 * (a23 * a31),
    ;
    assert(v2x3 == a02 * a11 * a20 * a33) by (nonlinear_arith)
        requires
            v2x3 == u2x3 * a02,
            u2x3 == a11 * (a20 * a33),
    ;
    assert(v2x4 == a02 * a11 * a23 * a30) by (nonlinear_arith)
        requires
            v2x4 == u2x4 * a02,
            u2x4 == a11 * (a23 * a30),
    ;
    assert(v2x5 == a02 * a13 * a20 * a31) by (nonlinear_arith)
        requires
            v2x5 == u2x5 * a02,
            u2x5 == a13 * (a20 * a31),
    ;
    assert(v2x6 == a02 * a13 * a21 * a30) by (nonlinear_arith)
        requires
            v2x6 == u2x6 * a02,
            u2x6 == a13 * (a21 * a30),
    ;
    let b3 = spec_cof4_num(m, 0, 3);
    let u3x1 = a10 * (a21 * a32);
    let u3x2 = a10 * (a22 * a31);
    assert(a10 * (a21 * a32 - a22 * a31) == u3x1
        - u3x2) by (nonlinear_arith)
        requires
            u3x1 == a10 * (a21 * a32),
            u3x2 == a10 * (a22 * a31),
    ;
    let u3x3 = a11 * (a20 * a32);
    let u3x4 = a11 * (a22 * a30);
    assert(a11 * (a20 * a32 - a22 * a30) == u3x3
        - u3x4) by (nonlinear_arith)
        requires
            u3x3 == a11 * (a20 * a32),
            u3x4 == a11 * (a22 * a30),
    ;
    let u3x5 = a12 * (a20 * a31);
    let u3x6 = a12 * (a21 * a30);
    assert(a12 * (a20 * a31 - a21 * a30) == u3x5
        - u3x6) by (nonlinear_arith)
        requires
            u3x5 == a12 * (a20 * a31),
            u3x6 == a12 * (a21 * a30),
    ;
    assert(b3 == -(u3x1 - u3x2 - u3x3 + u3x4 + u3x5 - u3x6));
    let v3x1 = u3x1 * a03;
    let v3x2 = u3x2 * a03;
    let v3x3 = u3x3 * a03;
    let v3x4 = u3x4 * a03;
    let v3x5 = u3x5 * a03;
    let v3x6 = u3x6 * a03;
    assert(a03 * b3 == -(v3x1 - v3x2 - v3x3 + v3x4 + v3x5 - v3x6)) by (nonlinear_arith)
        requires
            b3 == -(u3x1 - u3x2 - u3x3 + u3x4 + u3x5 - u3x6),
            v3x1 == u3x1 * a03,
            v3x2 == u3x2 * a03,
            v3x3 == u3x3 * a03,
            v3x4 == u3x4 * a03,
            v3x5 == u3x5 * a03,
            v3x6 == u3x6 * a03,
    ;
    assert(v3x1 == a03 * a10 * a21 * a32) by (nonlinear_arith)
        requires
            v3x1 == u3x1 * a03,
            u3x1 == a10 * (a21 * a32),
    ;
    assert(v3x2 == a03 * a10 * a22 * a31) by (nonlinear_arith)
        requires
            v3x2 == u3x2 * a03,
            u3x2 == a10 * (a22 * a31),
    ;
    assert(v3x3 == a03 * a11 * a20 * a32) by (nonlinear_arith)
        requires
            v3x3 == u3x3 * a03,
            u3x3 == a11 * (a20 * a32),
    ;
    assert(v3x4 == a03 * a11 * a22 * a30) by (nonlinear_arith)
        requires
            v3x4 == u3x4 * a03,
            u3x4 == a11 * (a22 * a30),
    ;
    assert(v3x5 == a03 * a12 * a20 * a31) by (nonlinear_arith)
        requires
            v3x5 == u3x5 * a03,
            u3x5 == a12 * (a20 * a31),
    ;
    assert(v3x6 == a03 * a12 * a21 * a30) by (nonlinear_arith)
        requires
            v3x6 == u3x6 * a03,
            u3x6 == a12 * (a21 * a30),
    ;
    assert(d == a00 * b0 + a01 * b1 + a02 * b2 + a03 * b3);
    assert(c0 * a02 + c1 * a12 + c2 * a22 + c3 * a32 == d);
    assert(spec_adj_mul_entry(m, 2, 2) == c0 * a02 + c1 * a12 + c2 * a22 + c3 * a32);
}

proof fn lemma_adj_entry_2_3(m: Matrix4)
    ensures
        spec_adj_mul_entry(m, 2, 3) == 0,
{
    let a00 = m.m00 as int;
    let a01 = m.m01 as int;
    let a02 = m.m02 as int;
    let a03 = m.m03 as int;
    let a10 = m.m10 as int;
    let a11 = m.m11 as int;
    let a12 = m.m12 as int;
    let a13 = m.m13 as int;
    let a20 = m.m20 as int;
    let a21 = m.m21 as int;
    let a22 = m.m22 as int;
    let a23 = m.m23 as int;
    let a30 = m.m30 as int;
    let a31 = m.m31 as int;
    let a32 = m.m32 as int;
    let a33 = m.m33 as int;
    let c0 = spec_cof4_num(m, 0, 2);
    let t0x1 = a10 * (a21 * a33);
    let t0x2 = a10 * (a23 * a31);
    assert(a10 * (a21 * a33 - a23 * a31) == t0x1
        - t0x2) by (nonlinear_arith)
        requires
            t0x1 == a10 * (a21 * a33),
            t0x2 == a10 * (a23 * a31),
    ;
    let t0x3 = a11 * (a20 * a33);
    let t0x4 = a11 * (a23 * a30);
    assert(a11 * (a20 * a33 - a23 * a30) == t0x3
        - t0x4) by (nonlinear_arith)
        requires
            t0x3 == a11 * (a20 * a33),
            t0x4 == a11 * (a23 * a30),
    ;
    let t0x5 = a13 * (a20 * a31);
    let t0x6 = a13 * (a21 * a30);
    assert(a13 * (a20 * a31 - a21 * a30) == t0x5
        - t0x6) by (nonlinear_arith)
        requires
            t0x5 == a13 * (a20 * a31),
            t0x6 == a13 * (a21 * a30),
    ;
    assert(c0 == t0x1 - t0x2 - t0x3 + t0x4 + t0x5 - t0x6);
    let s0x1 = t0x1 * a03;
    let s0x2 = t0x2 * a03;
    let s0x3 = t0x3 * a03;
    let s0x4 = t0x4 * a03;
    let s0x5 = t0x5 * a03;
    let s0x6 = t0x6 * a03;
    assert(c0 * a03 == s0x1 - s0x2 - s0x3 + s0x4 + s0x5 - s0x6) by (nonlinear_arith)
        requires
            c0 == t0x1 - t0x2 - t0x3 + t0x4 + t0x5 - t0x6,
            s0x1 == t0x1 * a03,
            s0x2 == t0x2 * a03,
            s0x3 == t0x3 * a03,
            s0x4 == t0x4 * a03,
            s0x5 == t0x5 * a03,
            s0x6 == t0x6 * a03,
    ;
    assert(s0x1 == a03 * a10 * a21 * a33) by (nonlinear_arith)
        requires
            s0x1 == t0x1 * a03,
            t0x1 == a10 * (a21 * a33),
    ;
    assert(s0x2 == a03 * a10 * a23 * a31) by (nonlinear_arith)
        requires
            s0x2 == t0x2 * a03,
            t0x2 == a10 * (a23 * a31),
    ;
    assert(s0x3 == a03 * a11 * a20 * a33) by (nonlinear_arith)
        requires
            s0x3 == t0x3 * a03,
            t0x3 == a11 * (a20 * a33),
    ;
    assert(s0x4 == a03 * a11 * a23 * a30) by (nonlinear_arith)
        requires
            s0x4 == t0x4 * a03,
            t0x4 == a11 * (a23 * a30),
    ;
    assert(s0x5 == a03 * a13 * a20 * a31) by (nonlinear_arith)
        requires
            s0x5 == t0x5 * a03,
            t0x5 == a13 * (a20 * a31),
    ;
    assert(s0x6 == a03 * a13 * a21 * a30) by (nonlinear_arith)
        requires
            s0x6 == t0x6 * a03,
            t0x6 == a13 * (a21 * a30),
    ;
    let c1 = spec_cof4_num(m, 1, 2);
    let t1x1 = a00 * (a21 * a33);
    let t1x2 = a00 * (a23 * a31);
    assert(a00 * (a21 * a33 - a23 * a31) == t1x1
        - t1x2) by (nonlinear_arith)
        requires
            t1x1 == a00 * (a21 * a33),
            t1x2 == a00 * (a23 * a31),
    ;
    let t1x3 = a01 * (a20 * a33);
    let t1x4 = a01 * (a23 * a30);
    assert(a01 * (a20 * a33 - a23 * a30) == t1x3
        - t1x4) by (nonlinear_arith)
        requires
            t1x3 == a01 * (a20 * a33),
            t1x4 == a01 * (a23 * a30),
    ;
    let t1x5 = a03 * (a20 * a31);
    let t1x6 = a03 * (a21 * a30);
    assert(a03 * (a20 * a31 - a21 * a30) == t1x5
        - t1x6) by (nonlinear_arith)
        requires
            t1x5 == a03 * (a20 * a31),
            t1x6 == a03 * (a21 * a30),
    ;
    assert(c1 == -(t1x1 - t1x2 - t1x3 + t1x4 + t1x5 - t1x6));
    let s1x1 = t1x1 * a13;
    let s1x2 = t1x2 * a13;
    let s1x3 = t1x3 * a13;
    let s1x4 = t1x4 * a13;
    let s1x5 = t1x5 * a13;
    let s1x6 = t1x6 * a13;
    assert(c1 * a13 == -(s1x1 - s1x2 - s1x3 + s1x4 + s1x5 - s1x6)) by (nonlinear_arith)
        requires
            c1 == -(t1x1 - t1x2 - t1x3 + t1x4 + t1x5 - t1x6),
            s1x1 == t1x1 * a13,
            s1x2 == t1x2 * a13,
            s1x3 == t1x3 * a13,
            s1x4 == t1x4 * a13,
            s1x5 == t1x5 * a13,
            s1x6 == t1x6 * a13,
    ;
    assert(s1x1 == a00 * a13 * a21 * a33) by (nonlinear_arith)
        requires
            s1x1 == t1x1 * a13,
            t1x1 == a00 * (a21 * a33),
    ;
    assert(s1x2 == a00 * a13 * a23 * a31) by (nonlinear_arith)
        requires
            s1x2 == t1x2 * a13,
            t1x2 == a00 * (a23 * a31),
    ;
    assert(s1x3 == a01 * a13 * a20 * a33) by (nonlinear_arith)
        requires
            s1x3 == t1x3 * a13,
            t1x3 == a01 * (a20 * a33),
    ;
    assert(s1x4 == a01 * a13 * a23 * a30) by (nonlinear_arith)
        requires
            s1x4 == t1x4 * a13,
            t1x4 == a01 * (a23 * a30),
    ;
    assert(s1x5 == a03 * a13 * a20 * a31) by (nonlinear_arith)
        requires
            s1x5 == t1x5 * a13,
            t1x5 == a03 * (a20 * a31),
    ;
    assert(s1x6 == a03 * a13 * a21 * a30) by (nonlinear_arith)
        requires
            s1x6 == t1x6 * a13,
            t1x6 == a03 * (a21 * a30),
    ;
    let c2 = spec_cof4_num(m, 2, 2);
    let t2x1 = a00 * (a11 * a33);
    let t2x2 = a00 * (a13 * a31);
    assert(a00 * (a11 * a33 - a13 * a31) == t2x1
        - t2x2) by (nonlinear_arith)
        requires
            t2x1 == a00 * (a11 * a33),
            t2x2 == a00 * (a13 * a31),
    ;
    let t2x3 = a01 * (a10 * a33);
    let t2x4 = a01 * (a13 * a30);
    assert(a01 * (a10 * a33 - a13 * a30) == t2x3
        - t2x4) by (nonlinear_arith)
        requires
            t2x3 == a01 * (a10 * a33),
            t2x4 == a01 * (a13 * a30),
    ;
    let t2x5 = a03 * (a10 * a31);
    let t2x6 = a03 * (a11 * a30);
    assert(a03 * (a10 * a31 - a11 * a30) == t2x5
        - t2x6) by (nonlinear_arith)
        requires
            t2x5 == a03 * (a10 * a31),
            t2x6 == a03 * (a11 * a30),
    ;
    assert(c2 == t2x1 - t2x2 - t2x3 + t2x4 + t2x5 - t2x6);
    let s2x1 = t2x1 * a23;
    let s2x2 = t2x2 * a23;
    let s2x3 = t2x3 * a23;
    let s2x4 = t2x4 * a23;
    let s2x5 = t2x5 * a23;
    let s2x6 = t2x6 * a23;
    assert(c2 * a23 == s2x1 - s2x2 - s2x3 + s2x4 + s2x5 - s2x6) by (nonlinear_arith)
        requires
            c2 == t2x1 - t2x2 - t2x3 + t2x4 + t2x5 - t2x6,
            s2x1 == t2x1 * a23,
            s2x2 == t2x2 * a23,
            s2x3 == t2x3 * a23,
            s2x4 == t2x4 * a23,
            s2x5 == t2x5 * a23,
            s2x6 == t2x6 * a23,
    ;
    assert(s2x1 == a00 * a11 * a23 * a33) by (nonlinear_arith)
        requires
            s2x1 == t2x1 * a23,
            t2x1 == a00 * (a11 * a33),
    ;
    assert(s2x2 == a00 * a13 * a23 * a31) by (nonlinear_arith)
        requires
            s2x2 == t2x2 * a23,
            t2x2 == a00 * (a13 * a31),
    ;
    assert(s2x3 == a01 * a10 * a23 * a33) by (nonlinear_arith)
        requires
            s2x3 == t2x3 * a23,
            t2x3 == a01 * (a10 * a33),
    ;
    assert(s2x4 == a01 * a13 * a23 * a30) by (nonlinear_arith)
        requires
            s2x4 == t2x4 * a23,
            t2x4 == a01 * (a13 * a30),
    ;
    assert(s2x5 == a03 * a10 * a23 * a31) by (nonlinear_arith)
        requires
            s2x5 == t2x5 * a23,
            t2x5 == a03 * (a10 * a31),
    ;
    assert(s2x6 == a03 * a11 * a23 * a30) by (nonlinear_arith)
        requires
            s2x6 == t2x6 * a23,
            t2x6 == a03 * (a11 * a30),
    ;
    let c3 = spec_cof4_num(m, 3, 2);
    let t3x1 = a00 * (a11 * a23);
    let t3x2 = a00 * (a13 * a21);
    assert(a00 * (a11 * a23 - a13 * a21) == t3x1
        - t3x2) by (nonlinear_arith)
        requires
            t3x1 == a00 * (a11 * a23),
            t3x2 == a00 * (a13 * a21),
    ;
    let t3x3 = a01 * (a10 * a23);
    let t3x4 = a01 * (a13 * a20);
    assert(a01 * (a10 * a23 - a13 * a20) == t3x3
        - t3x4) by (nonlinear_arith)
        requires
            t3x3 == a01 * (a10 * a23),
            t3x4 == a01 * (a13 * a20),
    ;
    let t3x5 = a03 * (a10 * a21);
    let t3x6 = a03 * (a11 * a20);
    assert(a03 * (a10 * a21 - a11 * a20) == t3x5
        - t3x6) by (nonlinear_arith)
        requires
            t3x5 == a03 * (a10 * a21),
            t3x6 == a03 * (a11 * a20),
    ;
    assert(c3 == -(t3x1 - t3x2 - t3x3 + t3x4 + t3x5 - t3x6));
    let s3x1 = t3x1 * a33;
    let s3x2 = t3x2 * a33;
    let s3x3 = t3x3 * a33;
    let s3x4 = t3x4 * a33;
    let s3x5 = t3x5 * a33;
    let s3x6 = t3x6 * a33;
    assert(c3 * a33 == -(s3x1 - s3x2 - s3x3 + s3x4 + s3x5 - s3x6)) by (nonlinear_arith)
        requires
            c3 == -(t3x1 - t3x2 - t3x3 + t3x4 + t3x5 - t3x6),
            s3x1 == t3x1 * a33,
            s3x2 == t3x2 * a33,
            s3x3 == t3x3 * a33,
            s3x4 == t3x4 * a33,
            s3x5 == t3x5 * a33,
            s3x6 == t3x6 * a33,
    ;
    assert(s3x1 == a00 * a11 * a23 * a33) by (nonlinear_arith)
        requires
            s3x1 == t3x1 * a33,
            t3x1 == a00 * (a11 * a23),
    ;
    assert(s3x2 == a00 * a13 * a21 * a33) by (nonlinear_arith)
        requires
            s3x2 == t3x2 * a33,
            t3x2 == a00 * (a13 * a21),
    ;
    assert(s3x3 == a01 * a10 * a23 * a33) by (nonlinear_arith)
        requires
            s3x3 == t3x3 * a33,
            t3x3 == a01 * (a10 * a23),
    ;
    assert(s3x4 == a01 * a13 * a20 * a33) by (nonlinear_arith)
        requires
            s3x4 == t3x4 * a33,
            t3x4 == a01 * (a13 * a20),
    ;
    assert(s3x5 == a03 * a10 * a21 * a33) by (nonlinear_arith)
        requires
            s3x5 == t3x5 * a33,
            t3x5 == a03 * (a10 * a21),
    ;
    assert(s3x6 == a03 * a11 * a20 * a33) by (nonlinear_arith)
        requires
            s3x6 == t3x6 * a33,
            t3x6 == a03 * (a11 * a20),
    ;
    assert(c0 * a03 + c1 * a13 + c2 * a23 + c3 * a33 == 0);
    assert(spec_adj_mul_entry(m, 2, 3) == c0 * a03 + c1 * a13 + c2 * a23 + c3 * a33);
}

proof fn lemma_adj_entry_3_0(m: Matrix4)
    ensures
        spec_adj_mul_entry(m, 3, 0) == 0,
{
    let a00 = m.m00 as int;
    let a01 = m.m01 as int;
    let a02 = m.m02 as int;
    let a03 = m.m03 as int;
    let a10 = m.m10 as int;
    let a11 = m.m11 as int;
    let a12 = m.m12 as int;
    let a13 = m.m13 as int;
    let a20 = m.m20 as int;
    let a21 = m.m21 as int;
    let a22 = m.m22 as int;
    let a23 = m.m23 as int;
    let a30 = m.m30 as int;
    let a31 = m.m31 as int;
    let a32 = m.m32 as int;
    let a33 = m.m33 as int;
    let c0 = spec_cof4_num(m, 0, 3);
    let t0x1 = a10 * (a21 * a32);
    let t0x2 = a10 * (a22 * a31);
    assert(a10 * (a21 * a32 - a22 * a31) == t0x1
        - t0x2) by (nonlinear_arith)
        requires
            t0x1 == a10 * (a21 * a32),
            t0x2 == a10 * (a22 * a31),
    ;
    let t0x3 = a11 * (a20 * a32);
    let t0x4 = a11 * (a22 * a30);
    assert(a11 * (a20 * a32 - a22 * a30) == t0x3
        - t0x4) by (nonlinear_arith)
        requires
            t0x3 == a11 * (a20 * a32),
            t0x4 == a11 * (a22 * a30),
    ;
    let t0x5 = a12 * (a20 * a31);
    let t0x6 = a12 * (a21 * a30);
    assert(a12 * (a20 * a31 - a21 * a30) == t0x5
        - t0x6) by (nonlinear_arith)
        requires
            t0x5 == a12 * (a20 * a31),
            t0x6 == a12 * (a21 * a30),
    ;
    assert(c0 == -(t0x1 - t0x2 - t0x3 + t0x4 + t0x5 - t0x6));
    let s0x1 = t0x1 * a00;
    let s0x2 = t0x2 * a00;
    let s0x3 = t0x3 * a00;
    let s0x4 = t0x4 * a00;
    let s0x5 = t0x5 * a00;
    let s0x6 = t0x6 * a00;
    assert(c0 * a00 == -(s0x1 - s0x2 - s0x3 + s0x4 + s0x5 - s0x6)) by (nonlinear_arith)
        requires
            c0 == -(t0x1 - t0x2 - t0x3 + t0x4 + t0x5 - t0x6),
            s0x1 == t0x1 * a00,
            s0x2 == t0x2 * a00,
            s0x3 == t0x3 * a00,
            s0x4 == t0x4 * a00,
            s0x5 == t0x5 * a00,
            s0x6 == t0x6 * a00,
    ;
    assert(s0x1 == a00 * a10 * a21 * a32) by (nonlinear_arith)
        requires
            s0x1 == t0x1 * a00,
            t0x1 == a10 * (a21 * a32),
    ;
    assert(s0x2 == a00 * a10 * a22 * a31) by (nonlinear_arith)
        requires
            s0x2 == t0x2 * a00,
            t0x2 == a10 * (a22 * a31),
    ;
    assert(s0x3 == a00 * a11 * a20 * a32) by (nonlinear_arith)
        requires
            s0x3 == t0x3 * a00,
            t0x3 == a11 * (a20 * a32),
    ;
    assert(s0x4 == a00 * a11 * a22 * a30) by (nonlinear_arith)
        requires
            s0x4 == t0x4 * a00,
            t0x4 == a11 * (a22 * a30),
    ;
    assert(s0x5 == a00 * a12 * a20 * a31) by (nonlinear_arith)
        requires
            s0x5 == t0x5 * a00,
            t0x5 == a12 * (a20 * a31),
    ;
    assert(s0x6 == a00 * a12 * a21 * a30) by (nonlinear_arith)
        requires
            s0x6 == t0x6 * a00,
            t0x6 == a12 * (a21 * a30),
    ;
    let c1 = spec_cof4_num(m, 1, 3);
    let t1x1 = a00 * (a21 * a32);
    let t1x2 = a00 * (a22 * a31);
    assert(a00 * (a21 * a32 - a22 * a31) == t1x1
        - t1x2) by (nonlinear_arith)
        requires
            t1x1 == a00 * (a21 * a32),
            t1x2 == a00 * (a22 * a31),
    ;
    let t1x3 = a01 * (a20 * a32);
    let t1x4 = a01 * (a22 * a30);
    assert(a01 * (a20 * a32 - a22 * a30) == t1x3
        - t1x4) by (nonlinear_arith)
        requires
            t1x3 == a01 * (a20 * a32),
            t1x4 == a01 * (a22 * a30),
    ;
    let t1x5 = a02 * (a20 * a31);
    let t1x6 = a02 * (a21 * a30);
    assert(a02 * (a20 * a31 - a21 * a30) == t1x5
        - t1x6) by (nonlinear_arith)
        requires
            t1x5 == a02 * (a20 * a31),
            t1x6 == a02 * (a21 * a30),
    ;
    assert(c1 == t1x1 - t1x2 - t1x3 + t1x4 + t1x5 - t1x6);
    let s1x1 = t1x1 * a10;
    let s1x2 = t1x2 * a10;
    let s1x3 = t1x3 * a10;
    let s1x4 = t1x4 * a10;
    let s1x5 = t1x5 * a10;
    let s1x6 = t1x6 * a10;
    assert(c1 * a10 == s1x1 - s1x2 - s1x3 + s1x4 + s1x5 - s1x6) by (nonlinear_arith)
        requires
            c1 == t1x1 - t1x2 - t1x3 + t1x4 + t1x5 - t1x6,
            s1x1 == t1x1 * a10,
            s1x2 == t1x2 * a10,
            s1x3 == t1x3 * a10,
            s1x4 == t1x4 * a10,
            s1x5 == t1x5 * a10,
            s1x6 == t1x6 * a10,
    ;
    assert(s1x1 == a00 * a10 * a21 * a32) by (nonlinear_arith)
        requires
            s1x1 == t1x1 * a10,
            t1x1 == a00 * (a21 * a32),
    ;
    assert(s1x2 == a00 * a10 * a22 * a31) by (nonlinear_arith)
        requires
            s1x2 == t1x2 * a10,
            t1x2 == a00 * (a22 * a31),
    ;
    assert(s1x3 == a01 * a10 * a20 * a32) by (nonlinear_arith)
        requires
            s1x3 == t1x3 * a10,
            t1x3 == a01 * (a20 * a32),
    ;
    assert(s1x4 == a01 * a10 * a22 * a30) by (nonlinear_arith)
        requires
            s1x4 == t1x4 * a10,
            t1x4 == a01 * (a22 * a30),
    ;
    assert(s1x5 == a02 * a10 * a20 * a31) by (nonlinear_arith)
        requires
            s1x5 == t1x5 * a10,
            t1x5 == a02 * (a20 * a31),
    ;
    assert(s1x6 == a02 * a10 * a21 * a30) by (nonlinear_arith)
        requires
            s1x6 == t1x6 * a10,
            t1x6 == a02 * (a21 * a30),
    ;
    let c2 = spec_cof4_num(m, 2, 3);
    let t2x1 = a00 * (a11 * a32);
    let t2x2 = a00 * (a12 * a31);
    assert(a00 * (a11 * a32 - a12 * a31) == t2x1
        - t2x2) by (nonlinear_arith)
        requires
            t2x1 == a00 * (a11 * a32),
            t2x2 == a00 * (a12 * a31),
    ;
    let t2x3 = a01 * (a10 * a32);
    let t2x4 = a01 * (a12 * a30);
    assert(a01 * (a10 * a32 - a12 * a30) == t2x3
        - t2x4) by (nonlinear_arith)
        requires
            t2x3 == a01 * (a10 * a32),
            t2x4 == a01 * (a12 * a30),
    ;
    let t2x5 = a02 * (a10 * a31);
    let t2x6 = a02 * (a11 * a30);
    assert(a02 * (a10 * a31 - a11 * a30) == t2x5
        - t2x6) by (nonlinear_arith)
        requires
            t2x5 == a02 * (a10 * a31),
            t2x6 == a02 * (a11 * a30),
    ;
    assert(c2 == -(t2x1 - t2x2 - t2x3 + t2x4 + t2x5 - t2x6));
    let s2x1 = t2x1 * a20;
    let s2x2 = t2x2 * a20;
    let s2x3 = t2x3 * a20;
    let s2x4 = t2x4 * a20;
    let s2x5 = t2x5 * a20;
    let s2x6 = t2x6 * a20;
    assert(c2 * a20 == -(s2x1 - s2x2 - s2x3 + s2x4 + s2x5 - s2x6)) by (nonlinear_arith)
        requires
            c2 == -(t2x1 - t2x2 - t2x3 + t2x4 + t2x5 - t2x6),
            s2x1 == t2x1 * a20,
            s2x2 == t2x2 * a20,
            s2x3 == t2x3 * a20,
            s2x4 == t2x4 * a20,
            s2x5 == t2x5 * a20,
            s2x6 == t2x6 * a20,
    ;
    assert(s2x1 == a00 * a11 * a20 * a32) by (nonlinear_arith)
        requires
            s2x1 == t2x1 * a20,
            t2x1 == a00 * (a11 * a32),
    ;
    assert(s2x2 == a00 * a12 * a20 * a31) by (nonlinear_arith)
        requires
            s2x2 == t2x2 * a20,
            t2x2 == a00 * (a12 * a31),
    ;
    assert(s2x3 == a01 * a10 * a20 * a32) by (nonlinear_arith)
        requires
            s2x3 == t2x3 * a20,
            t2x3 == a01 * (a10 * a32),
    ;
    assert(s2x4 == a01 * a12 * a20 * a30) by (nonlinear_arith)
        requires
            s2x4 == t2x4 * a20,
            t2x4 == a01 * (a12 * a30),
    ;
    assert(s2x5 == a02 * a10 * a20 * a31) by (nonlinear_arith)
        requires
            s2x5 == t2x5 * a20,
            t2x5 == a02 * (a10 * a31),
    ;
    assert(s2x6 == a02 * a11 * a20 * a30) by (nonlinear_arith)
        requires
            s2x6 == t2x6 * a20,
            t2x6 == a02 * (a11 * a30),
    ;
    let c3 = spec_cof4_num(m, 3, 3);
    let t3x1 = a00 * (a11 * a22);
    let t3x2 = a00 * (a12 * a21);
    assert(a00 * (a11 * a22 - a12 * a21) == t3x1
        - t3x2) by (nonlinear_arith)
        requires
            t3x1 == a00 * (a11 * a22),
            t3x2 == a00 * (a12 * a21),
    ;
    let t3x3 = a01 * (a10 * a22);
    let t3x4 = a01 * (a12 * a20);
    assert(a01 * (a10 * a22 - a12 * a20) == t3x3
        - t3x4) by (nonlinear_arith)
        requires
            t3x3 == a01 * (a10 * a22),
            t3x4 == a01 * (a12 * a20),
    ;
    let t3x5 = a02 * (a10 * a21);
    let t3x6 = a02 * (a11 * a20);
    assert(a02 * (a10 * a21 - a11 * a20) == t3x5
        - t3x6) by (nonlinear_arith)
        requires
            t3x5 == a02 * (a10 * a21),
            t3x6 == a02 * (a11 * a20),
    ;
    assert(c3 == t3x1 - t3x2 - t3x3 + t3x4 + t3x5 - t3x6);
    let s3x1 = t3x1 * a30;
    let s3x2 = t3x2 * a30;
    let s3x3 = t3x3 * a30;
    let s3x4 = t3x4 * a30;
    let s3x5 = t3x5 * a30;
    let s3x6 = t3x6 * a30;
    assert(c3 * a30 == s3x1 - s3x2 - s3x3 + s3x4 + s3x5 - s3x6) by (nonlinear_arith)
        requires
            c3 == t3x1 - t3x2 - t3x3 + t3x4 + t3x5 - t3x6,
            s3x1 == t3x1 * a30,
            s3x2 == t3x2 * a30,
            s3x3 == t3x3 * a30,
            s3x4 == t3x4 * a30,
            s3x5 == t3x5 * a30,
            s3x6 == t3x6 * a30,
    ;
    assert(s3x1 == a00 * a11 * a22 * a30) by (nonlinear_arith)
        requires
            s3x1 == t3x1 * a30,
            t3x1 == a00 * (a11 * a22),
    ;
    assert(s3x2 == a00 * a12 * a21 * a30) by (nonlinear_arith)
        requires
            s3x2 == t3x2 * a30,
            t3x2 == a00 * (a12 * a21),
    ;
    assert(s3x3 == a01 * a10 * a22 * a30) by (nonlinear_arith)
        requires
            s3x3 == t3x3 * a30,
            t3x3 == a01 * (a10 * a22),
    ;
    assert(s3x4 == a01 * a12 * a20 * a30) by (nonlinear_arith)
        requires
            s3x4 == t3x4 * a30,
            t3x4 == a01 * (a12 * a20),
    ;
    assert(s3x5 == a02 * a10 * a21 * a30) by (nonlinear_arith)
        requires
            s3x5 == t3x5 * a30,
            t3x5 == a02 * (a10 * a21),
    ;
    assert(s3x6 == a02 * a11 * a20 * a30) by (nonlinear_arith)
        requires
            s3x6 == t3x6 * a30,
            t3x6 == a02 * (a11 * a20),
    ;
    assert(c0 * a00 + c1 * a10 + c2 * a20 + c3 * a30 == 0);
    assert(spec_adj_mul_entry(m, 3, 0) == c0 * a00 + c1 * a10 + c2 * a20 + c3 * a30);
}

proof fn lemma_adj_entry_3_1(m: Matrix4)
    ensures
        spec_adj_mul_entry(m, 3, 1) == 0,
{
    let a00 = m.m00 as int;
    let a01 = m.m01 as int;
    let a02 = m.m02 as int;
    let a03 = m.m03 as int;
    let a10 = m.m10 as int;
    let a11 = m.m11 as int;
    let a12 = m.m12 as int;
    let a13 = m.m13 as int;
    let a20 = m.m20 as int;
    let a21 = m.m21 as int;
    let a22 = m.m22 as int;
    let a23 = m.m23 as int;
    let a30 = m.m30 as int;
    let a31 = m.m31 as int;
    let a32 = m.m32 as int;
    let a33 = m.m33 as int;
    let c0 = spec_cof4_num(m, 0, 3);
    let t0x1 = a10 * (a21 * a32);
    let t0x2 = a10 * (a22 * a31);
    assert(a10 * (a21 * a32 - a22 * a31) == t0x1
        - t0x2) by (nonlinear_arith)
        requires
            t0x1 == a10 * (a21 * a32),
            t0x2 == a10 * (a22 * a31),
    ;
    let t0x3 = a11 * (a20 * a32);
    let t0x4 = a11 * (a22 * a30);
    assert(a11 * (a20 * a32 - a22 * a30) == t0x3
        - t0x4) by (nonlinear_arith)
        requires
            t0x3 == a11 * (a20 * a32),
            t0x4 == a11 * (a22 * a30),
    ;
    let t0x5 = a12 * (a20 * a31);
    let t0x6 = a12 * (a21 * a30);
    assert(a12 * (a20 * a31 - a21 * a30) == t0x5
        - t0x6) by (nonlinear_arith)
        requires
            t0x5 == a12 * (a20 * a31),
            t0x6 == a12 * (a21 * a30),
    ;
    assert(c0 == -(t0x1 - t0x2 - t0x3 + t0x4 + t0x5 - t0x6));
    let s0x1 = t0x1 * a01;
    let s0x2 = t0x2 * a01;
    let s0x3 = t0x3 * a01;
    let s0x4 = t0x4 * a01;
    let s0x5 = t0x5 * a01;
    let s0x6 = t0x6 * a01;
    assert(c0 * a01 == -(s0x1 - s0x2 - s0x3 + s0x4 + s0x5 - s0x6)) by (nonlinear_arith)
        requires
            c0 == -(t0x1 - t0x2 - t0x3 + t0x4 + t0x5 - t0x6),
            s0x1 == t0x1 * a01,
            s0x2 == t0x2 * a01,
            s0x3 == t0x3 * a01,
            s0x4 == t0x4 * a01,
            s0x5 == t0x5 * a01,
            s0x6 == t0x6 * a01,
    ;
    assert(s0x1 == a01 * a10 * a21 * a32) by (nonlinear_arith)
        requires
            s0x1 == t0x1 * a01,
            t0x1 == a10 * (a21 * a32),
    ;
    assert(s0x2 == a01 * a10 * a22 * a31) by (nonlinear_arith)
        requires
            s0x2 == t0x2 * a01,
            t0x2 == a10 * (a22 * a31),
    ;
    assert(s0x3 == a01 * a11 * a20 * a32) by (nonlinear_arith)
        requires
            s0x3 == t0x3 * a01,
            t0x3 == a11 * (a20 * a32),
    ;
    assert(s0x4 == a01 * a11 * a22 * a30) by (nonlinear_arith)
        requires
            s0x4 == t0x4 * a01,
            t0x4 == a11 * (a22 * a30),
    ;
    assert(s0x5 == a01 * a12 * a20 * a31) by (nonlinear_arith)
        requires
            s0x5 == t0x5 * a01,
            t0x5 == a12 * (a20 * a31),
    ;
    assert(s0x6 == a01 * a12 * a21 * a30) by (nonlinear_arith)
        requires
            s0x6 == t0x6 * a01,
            t0x6 == a12 * (a21 * a30),
    ;
    let c1 = spec_cof4_num(m, 1, 3);
    let t1x1 = a00 * (a21 * a32);
    let t1x2 = a00 * (a22 * a31);
    assert(a00 * (a21 * a32 - a22 * a31) == t1x1
        - t1x2) by (nonlinear_arith)
        requires
            t1x1 == a00 * (a21 * a32),
            t1x2 == a00 * (a22 * a31),
    ;
    let t1x3 = a01 * (a20 * a32);
    let t1x4 = a01 * (a22 * a30);
    assert(a01 * (a20 * a32 - a22 * a30) == t1x3
        - t1x4) by (nonlinear_arith)
        requires
            t1x3 == a01 * (a20 * a32),
            t1x4 == a01 * (a22 * a30),
    ;
    let t1x5 = a02 * (a20 * a31);
    let t1x6 = a02 * (a21 * a30);
    assert(a02 * (a20 * a31 - a21 * a30) == t1x5
        - t1x6) by (nonlinear_arith)
        requires
            t1x5 == a02 * (a20 * a31),
            t1x6 == a02 * (a21 * a30),
    ;
    assert(c1 == t1x1 - t1x2 - t1x3 + t1x4 + t1x5 - t1x6);
    let s1x1 = t1x1 * a11;
    let s1x2 = t1x2 * a11;
    let s1x3 = t1x3 * a11;
    let s1x4 = t1x4 * a11;
    let s1x5 = t1x5 * a11;
    let s1x6 = t1x6 * a11;
    assert(c1 * a11 == s1x1 - s1x2 - s1x3 + s1x4 + s1x5 - s1x6) by (nonlinear_arith)
        requires
            c1 == t1x1 - t1x2 - t1x3 + t1x4 + t1x5 - t1x6,
            s1x1 == t1x1 * a11,
            s1x2 == t1x2 * a11,
            s1x3 == t1x3 * a11,
            s1x4 == t1x4 * a11,
            s1x5 == t1x5 * a11,
            s1x6 == t1x6 * a11,
    ;
    assert(s1x1 == a00 * a11 * a21 * a32) by (nonlinear_arith)
        requires
            s1x1 == t1x1 * a11,
            t1x1 == a00 * (a21 * a32),
    ;
    assert(s1x2 == a00 * a11 * a22 * a31) by (nonlinear_arith)
        requires
            s1x2 == t1x2 * a11,
            t1x2 == a00 * (a22 * a31),
    ;
    assert(s1x3 == a01 * a11 * a20 * a32) by (nonlinear_arith)
        requires
            s1x3 == t1x3 * a11,
            t1x3 == a01 * (a20 * a32),
    ;
    assert(s1x4 == a01 * a11 * a22 * a30) by (nonlinear_arith)
        requires
            s1x4 == t1x4 * a11,
            t1x4 == a01 * (a22 * a30),
    ;
    assert(s1x5 == a02 * a11 * a20 * a31) by (nonlinear_arith)
        requires
            s1x5 == t1x5 * a11,
            t1x5 == a02 * (a20 * a31),
    ;
    assert(s1x6 == a02 * a11 * a21 * a30) by (nonlinear_arith)
        requires
            s1x6 == t1x6 * a11,
            t1x6 == a02 * (a21 * a30),
    ;
    let c2 = spec_cof4_num(m, 2, 3);
    let t2x1 = a00 * (a11 * a32);
    let t2x2 = a00 * (a12 * a31);
    assert(a00 * (a11 * a32 - a12 * a31) == t2x1
        - t2x2) by (nonlinear_arith)
        requires
            t2x1 == a00 * (a11 * a32),
            t2x2 == a00 * (a12 * a31),
    ;
    let t2x3 = a01 * (a10 * a32);
    let t2x4 = a01 * (a12 * a30);
    assert(a01 * (a10 * a32 - a12 * a30) == t2x3
        - t2x4) by (nonlinear_arith)
        requires
            t2x3 == a01 * (a10 * a32),
            t2x4 == a01 * (a12 * a30),
    ;
    let t2x5 = a02 * (a10 * a31);
    let t2x6 = a02 * (a11 * a30);
    assert(a02 * (a10 * a31 - a11 * a30) == t2x5
        - t2x6) by (nonlinear_arith)
        requires
            t2x5 == a02 * (a10 * a31),
            t2x6 == a02 * (a11 * a30),
    ;
    assert(c2 == -(t2x1 - t2x2 - t2x3 + t2x4 + t2x5 - t2x6));
    let s2x1 = t2x1 * a21;
    let s2x2 = t2x2 * a21;
    let s2x3 = t2x3 * a21;
    let s2x4 = t2x4 * a21;
    let s2x5 = t2x5 * a21;
    let s2x6 = t2x6 * a21;
    assert(c2 * a21 == -(s2x1 - s2x2 - s2x3 + s2x4 + s2x5 - s2x6)) by (nonlinear_arith)
        requires
            c2 == -(t2x1 - t2x2 - t2x3 + t2x4 + t2x5 - t2x6),
            s2x1 == t2x1 * a21,
            s2x2 == t2x2 * a21,
            s2x3 == t2x3 * a21,
            s2x4 == t2x4 * a21,
            s2x5 == t2x5 * a21,
            s2x6 == t2x6 * a21,
    ;
    assert(s2x1 == a00 * a11 * a21 * a32) by (nonlinear_arith)
        requires
            s2x1 == t2x1 * a21,
            t2x1 == a00 * (a11 * a32),
    ;
    assert(s2x2 == a00 * a12 * a21 * a31) by (nonlinear_arith)
        requires
            s2x2 == t2x2 * a21,
            t2x2 == a00 * (a12 * a31),
    ;
    assert(s2x3 == a01 * a10 * a21 * a32) by (nonlinear_arith)
        requires
            s2x3 == t2x3 * a21,
            t2x3 == a01 * (a10 * a32),
    ;
    assert(s2x4 == a01 * a12 * a21 * a30) by (nonlinear_arith)
        requires
            s2x4 == t2x4 * a21,
            t2x4 == a01 * (a12 * a30),
    ;
    assert(s2x5 == a02 * a10 * a21 * a31) by (nonlinear_arith)
        requires
            s2x5 == t2x5 * a21,
            t2x5 == a02 * (a10 * a31),
    ;
    assert(s2x6 == a02 * a11 * a21 * a30) by (nonlinear_arith)
        requires
            s2x6 == t2x6 * a21,
            t2x6 == a02 * (a11 * a30),
    ;
    let c3 = spec_cof4_num(m, 3, 3);
    let t3x1 = a00 * (a11 * a22);
    let t3x2 = a00 * (a12 * a21);
    assert(a00 * (a11 * a22 - a12 * a21) == t3x1
        - t3x2) by (nonlinear_arith)
        requires
            t3x1 == a00 * (a11 * a22),
            t3x2 == a00 * (a12 * a21),
    ;
    let t3x3 = a01 * (a10 * a22);
    let t3x4 = a01 * (a12 * a20);
    assert(a01 * (a10 * a22 - a12 * a20) == t3x3
        - t3x4) by (nonlinear_arith)
        requires
            t3x3 == a01 * (a10 * a22),
            t3x4 == a01 * (a12 * a20),
    ;
    let t3x5 = a02 * (a10 * a21);
    let t3x6 = a02 * (a11 * a20);
    assert(a02 * (a10 * a21 - a11 * a20) == t3x5
        - t3x6) by (nonlinear_arith)
        requires
            t3x5 == a02 * (a10 * a21),
            t3x6 == a02 * (a11 * a20),
    ;
    assert(c3 == t3x1 - t3x2 - t3x3 + t3x4 + t3x5 - t3x6);
    let s3x1 = t3x1 * a31;
    let s3x2 = t3x2 * a31;
    let s3x3 = t3x3 * a31;
    let s3x4 = t3x4 * a31;
    let s3x5 = t3x5 * a31;
    let s3x6 = t3x6 * a31;
    assert(c3 * a31 == s3x1 - s3x2 - s3x3 + s3x4 + s3x5 - s3x6) by (nonlinear_arith)
        requires
            c3 == t3x1 - t3x2 - t3x3 + t3x4 + t3x5 - t3x6,
            s3x1 == t3x1 * a31,
            s3x2 == t3x2 * a31,
            s3x3 == t3x3 * a31,
            s3x4 == t3x4 * a31,
            s3x5 == t3x5 * a31,
            s3x6 == t3x6 * a31,
    ;
    assert(s3x1 == a00 * a11 * a22 * a31) by (nonlinear_arith)
        requires
            s3x1 == t3x1 * a31,
            t3x1 == a00 * (a11 * a22),
    ;
    assert(s3x2 == a00 * a12 * a21 * a31) by (nonlinear_arith)
        requires
            s3x2 == t3x2 * a31,
            t3x2 == a00 * (a12 * a21),
    ;
    assert(s3x3 == a01 * a10 * a22 * a31) by (nonlinear_arith)
        requires
            s3x3 == t3x3 * a31,
            t3x3 == a01 * (a10 * a22),
    ;
    assert(s3x4 == a01 * a12 * a20 * a31) by (nonlinear_arith)
        requires
            s3x4 == t3x4 * a31,
            t3x4 == a01 * (a12 * a20),
    ;
    assert(s3x5 == a02 * a10 * a21 * a31) by (nonlinear_arith)
        requires
            s3x5 == t3x5 * a31,
            t3x5 == a02 * (a10 * a21),
    ;
    assert(s3x6 == a02 * a11 * a20 * a31) by (nonlinear_arith)
        requires
            s3x6 == t3x6 * a31,
            t3x6 == a02 * (a11 * a20),
    ;
    assert(c0 * a01 + c1 * a11 + c2 * a21 + c3 * a31 == 0);
    assert(spec_adj_mul_entry(m, 3, 1) == c0 * a01 + c1 * a11 + c2 * a21 + c3 * a31);
}

proof fn lemma_adj_entry_3_2(m: Matrix4)
    ensures
        spec_adj_mul_entry(m, 3, 2) == 0,
{
    let a00 = m.m00 as int;
    let a01 = m.m01 as int;
    let a02 = m.m02 as int;
    let a03 = m.m03 as int;
    let a10 = m.m10 as int;
    let a11 = m.m11 as int;
    let a12 = m.m12 as int;
    let a13 = m.m13 as int;
    let a20 = m.m20 as int;
    let a21 = m.m21 as int;
    let a22 = m.m22 as int;
    let a23 = m.m23 as int;
    let a30 = m.m30 as int;
    let a31 = m.m31 as int;
    let a32 = m.m32 as int;
    let a33 = m.m33 as int;
    let c0 = spec_cof4_num(m, 0, 3);
    let t0x1 = a10 * (a21 * a32);
    let t0x2 = a10 * (a22 * a31);
    assert(a10 * (a21 * a32 - a22 * a31) == t0x1
        - t0x2) by (nonlinear_arith)
        requires
            t0x1 == a10 * (a21 * a32),
            t0x2 == a10 * (a22 * a31),
    ;
    let t0x3 = a11 * (a20 * a32);
    let t0x4 = a11 * (a22 * a30);
    assert(a11 * (a20 * a32 - a22 * a30) == t0x3
        - t0x4) by (nonlinear_arith)
        requires
            t0x3 == a11 * (a20 * a32),
            t0x4 == a11 * (a22 * a30),
    ;
    let t0x5 = a12 * (a20 * a31);
    let t0x6 = a12 * (a21 * a30);
    assert(a12 * (a20 * a31 - a21 * a30) == t0x5
        - t0x6) by (nonlinear_arith)
        requires
            t0x5 == a12 * (a20 * a31),
            t0x6 == a12 * (a21 * a30),
    ;
    assert(c0 == -(t0x1 - t0x2 - t0x3 + t0x4 + t0x5 - t0x6));
    let s0x1 = t0x1 * a02;
    let s0x2 = t0x2 * a02;
    let s0x3 = t0x3 * a02;
    let s0x4 = t0x4 * a02;
    let s0x5 = t0x5 * a02;
    let s0x6 = t0x6 * a02;
    assert(c0 * a02 == -(s0x1 - s0x2 - s0x3 + s0x4 + s0x5 - s0x6)) by (nonlinear_arith)
        requires
            c0 == -(t0x1 - t0x2 - t0x3 + t0x4 + t0x5 - t0x6),
            s0x1 == t0x1 * a02,
            s0x2 == t0x2 * a02,
            s0x3 == t0x3 * a02,
            s0x4 == t0x4 * a02,
            s0x5 == t0x5 * a02,
            s0x6 == t0x6 * a02,
    ;
    assert(s0x1 == a02 * a10 * a21 * a32) by (nonlinear_arith)
        requires
            s0x1 == t0x1 * a02,
            t0x1 == a10 * (a21 * a32),
    ;
    assert(s0x2 == a02 * a10 * a22 * a31) by (nonlinear_arith)
        requires
            s0x2 == t0x2 * a02,
            t0x2 == a10 * (a22 * a31),
    ;
    assert(s0x3 == a02 * a11 * a20 * a32) by (nonlinear_arith)
        requires
            s0x3 == t0x3 * a02,
            t0x3 == a11 * (a20 * a32),
    ;
    assert(s0x4 == a02 * a11 * a22 * a30) by (nonlinear_arith)
        requires
            s0x4 == t0x4 * a02,
            t0x4 == a11 * (a22 * a30),
    ;
    assert(s0x5 == a02 * a12 * a20 * a31) by (nonlinear_arith)
        requires
            s0x5 == t0x5 * a02,
            t0x5 == a12 * (a20 * a31),
    ;
    assert(s0x6 == a02 * a12 * a21 * a30) by (nonlinear_arith)
        requires
            s0x6 == t0x6 * a02,
            t0x6 == a12 * (a21 * a30),
    ;
    let c1 = spec_cof4_num(m, 1, 3);
    let t1x1 = a00 * (a21 * a32);
    let t1x2 = a00 * (a22 * a31);
    assert(a00 * (a21 * a32 - a22 * a31) == t1x1
        - t1x2) by (nonlinear_arith)
        requires
            t1x1 == a00 * (a21 * a32),
            t1x2 == a00 * (a22 * a31),
    ;
    let t1x3 = a01 * (a20 * a32);
    let t1x4 = a01 * (a22 * a30);
    assert(a01 * (a20 * a32 - a22 * a30) == t1x3
        - t1x4) by (nonlinear_arith)
        requires
            t1x3 == a01 * (a20 * a32),
            t1x4 == a01 * (a22 * a30),
    ;
    let t1x5 = a02 * (a20 * a31);
    let t1x6 = a02 * (a21 * a30);
    assert(a02 * (a20 * a31 - a21 * a30) == t1x5
        - t1x6) by (nonlinear_arith)
        requires
            t1x5 == a02 * (a20 * a31),
            t1x6 == a02 * (a21 * a30),
    ;
    assert(c1 == t1x1 - t1x2 - t1x3 + t1x4 + t1x5 - t1x6);
    let s1x1 = t1x1 * a12;
    let s1x2 = t1x2 * a12;
    let s1x3 = t1x3 * a12;
    let s1x4 = t1x4 * a12;
    let s1x5 = t1x5 * a12;
    let s1x6 = t1x6 * a12;
    assert(c1 * a12 == s1x1 - s1x2 - s1x3 + s1x4 + s1x5 - s1x6) by (nonlinear_arith)
        requires
            c1 == t1x1 - t1x2 - t1x3 + t1x4 + t1x5 - t1x6,
            s1x1 == t1x1 * a12,
            s1x2 == t1x2 * a12,
            s1x3 == t1x3 * a12,
            s1x4 == t1x4 * a12,
            s1x5 == t1x5 * a12,
            s1x6 == t1x6 * a12,
    ;
    assert(s1x1 == a00 * a12 * a21 * a32) by (nonlinear_arith)
        requires
            s1x1 == t1x1 * a12,
            t1x1 == a00 * (a21 * a32),
    ;
    assert(s1x2 == a00 * a12 * a22 * a31) by (nonlinear_arith)
        requires
            s1x2 == t1x2 * a12,
            t1x2 == a00 * (a22 * a31),
    ;
    assert(s1x3 == a01 * a12 * a20 * a32) by (nonlinear_arith)
        requires
            s1x3 == t1x3 * a12,
            t1x3 == a01 * (a20 * a32),
    ;
    assert(s1x4 == a01 * a12 * a22 * a30) by (nonlinear_arith)
        requires
            s1x4 == t1x4 * a12,
            t1x4 == a01 * (a22 * a30),
    ;
    assert(s1x5 == a02 * a12 * a20 * a31) by (nonlinear_arith)
        requires
            s1x5 == t1x5 * a12,
            t1x5 == a02 * (a20 * a31),
    ;
    assert(s1x6 == a02 * a12 * a21 * a30) by (nonlinear_arith)
        requires
            s1x6 == t1x6 * a12,
            t1x6 == a02 * (a21 * a30),
    ;
    let c2 = spec_cof4_num(m, 2, 3);
    let t2x1 = a00 * (a11 * a32);
    let t2x2 = a00 * (a12 * a31);
    assert(a00 * (a11 * a32 - a12 * a31) == t2x1
        - t2x2) by (nonlinear_arith)
        requires
            t2x1 == a00 * (a11 * a32),
            t2x2 == a00 * (a12 * a31),
    ;
    let t2x3 = a01 * (a10 * a32);
    let t2x4 = a01 * (a12 * a30);
    assert(a01 * (a10 * a32 - a12 * a30) == t2x3
        - t2x4) by (nonlinear_arith)
        requires
            t2x3 == a01 * (a10 * a32),
            t2x4 == a01 * (a12 * a30),
    ;
    let t2x5 = a02 * (a10 * a31);
    let t2x6 = a02 * (a11 * a30);
    assert(a02 * (a10 * a31 - a11 * a30) == t2x5
        - t2x6) by (nonlinear_arith)
        requires
            t2x5 == a02 * (a10 * a31),
            t2x6 == a02 * (a11 * a30),
    ;
    assert(c2 == -(t2x1 - t2x2 - t2x3 + t2x4 + t2x5 - t2x6));
    let s2x1 = t2x1 * a22;
    let s2x2 = t2x2 * a22;
    let s2x3 = t2x3 * a22;
    let s2x4 = t2x4 * a22;
    let s2x5 = t2x5 * a22;
    let s2x6 = t2x6 * a22;
    assert(c2 * a22 == -(s2x1 - s2x2 - s2x3 + s2x4 + s2x5 - s2x6)) by (nonlinear_arith)
        requires
            c2 == -(t2x1 - t2x2 - t2x3 + t2x4 + t2x5 - t2x6),
            s2x1 == t2x1 * a22,
            s2x2 == t2x2 * a22,
            s2x3 == t2x3 * a22,
            s2x4 == t2x4 * a22,
            s2x5 == t2x5 * a22,
            s2x6 == t2x6 * a22,
    ;
    assert(s2x1 == a00 * a11 * a22 * a32) by (nonlinear_arith)
        requires
            s2x1 == t2x1 * a22,
            t2x1 == a00 * (a11 * a32),
    ;
    assert(s2x2 == a00 * a12 * a22 * a31) by (nonlinear_arith)
        requires
            s2x2 == t2x2 * a22,
            t2x2 == a00 * (a12 * a31),
    ;
    assert(s2x3 == a01 * a10 * a22 * a32) by (nonlinear_arith)
        requires
            s2x3 == t2x3 * a22,
            t2x3 == a01 * (a10 * a32),
    ;
    assert(s2x4 == a01 * a12 * a22 * a30) by (nonlinear_arith)
        requires
            s2x4 == t2x4 * a22,
            t2x4 == a01 * (a12 * a30),
    ;
    assert(s2x5 == a02 * a10 * a22 * a31) by (nonlinear_arith)
        requires
            s2x5 == t2x5 * a22,
            t2x5 == a02 * (a10 * a31),
    ;
    assert(s2x6 == a02 * a11 * a22 * a30) by (nonlinear_arith)
        requires
            s2x6 == t2x6 * a22,
            t2x6 == a02 * (a11 * a30),
    ;
    let c3 = spec_cof4_num(m, 3, 3);
    let t3x1 = a00 * (a11 * a22);
    let t3x2 = a00 * (a12 * a21);
    assert(a00 * (a11 * a22 - a12 * a21) == t3x1
        - t3x2) by (nonlinear_arith)
        requires
            t3x1 == a00 * (a11 * a22),
            t3x2 == a00 * (a12 * a21),
    ;
    let t3x3 = a01 * (a10 * a22);
    let t3x4 = a01 * (a12 * a20);
    assert(a01 * (a10 * a22 - a12 * a20) == t3x3
        - t3x4) by (nonlinear_arith)
        requires
            t3x3 == a01 * (a10 * a22),
            t3x4 == a01 * (a12 * a20),
    ;
    let t3x5 = a02 * (a10 * a21);
    let t3x6 = a02 * (a11 * a20);
    assert(a02 * (a10 * a21 - a11 * a20) == t3x5
        - t3x6) by (nonlinear_arith)
        requires
            t3x5 == a02 * (a10 * a21),
            t3x6 == a02 * (a11 * a20),
    ;
    assert(c3 == t3x1 - t3x2 - t3x3 + t3x4 + t3x5 - t3x6);
    let s3x1 = t3x1 * a32;
    let s3x2 = t3x2 * a32;
    let s3x3 = t3x3 * a32;
    let s3x4 = t3x4 * a32;
    let s3x5 = t3x5 * a32;
    let s3x6 = t3x6 * a32;
    assert(c3 * a32 == s3x1 - s3x2 - s3x3 + s3x4 + s3x5 - s3x6) by (nonlinear_arith)
        requires
            c3 == t3x1 - t3x2 - t3x3 + t3x4 + t3x5 - t3x6,
            s3x1 == t3x1 * a32,
            s3x2 == t3x2 * a32,
            s3x3 == t3x3 * a32,
            s3x4 == t3x4 * a32,
            s3x5 == t3x5 * a32,
            s3x6 == t3x6 * a32,
    ;
    assert(s3x1 == a00 * a11 * a22 * a32) by (nonlinear_arith)
        requires
            s3x1 == t3x1 * a32,
            t3x1 == a00 * (a11 * a22),
    ;
    assert(s3x2 == a00 * a12 * a21 * a32) by (nonlinear_arith)
        requires
            s3x2 == t3x2 * a32,
            t3x2 == a00 * (a12 * a21),
    ;
    assert(s3x3 == a01 * a10 * a22 * a32) by (nonlinear_arith)
        requires
            s3x3 == t3x3 * a32,
            t3x3 == a01 * (a10 * a22),
    ;
    assert(s3x4 == a01 * a12 * a20 * a32) by (nonlinear_arith)
        requires
            s3x4 == t3x4 * a32,
            t3x4 == a01 * (a12 * a20),
    ;
    assert(s3x5 == a02 * a10 * a21 * a32) by (nonlinear_arith)
        requires
            s3x5 == t3x5 * a32,
            t3x5 == a02 * (a10 * a21),
    ;
    assert(s3x6 == a02 * a11 * a20 * a32) by (nonlinear_arith)
        requires
            s3x6 == t3x6 * a32,
            t3x6 == a02 * (a11 * a20),
    ;
    assert(c0 * a02 + c1 * a12 + c2 * a22 + c3 * a32 == 0);
    assert(spec_adj_mul_entry(m, 3, 2) == c0 * a02 + c1 * a12 + c2 * a22 + c3 * a32);
}

proof fn lemma_adj_entry_3_3(m: Matrix4)
    ensures
        spec_adj_mul_entry(m, 3, 3) == spec_det4_num(m),
{
    let a00 = m.m00 as int;
    let a01 = m.m01 as int;
    let a02 = m.m02 as int;
    let a03 = m.m03 as int;
    let a10 = m.m10 as int;
    let a11 = m.m11 as int;
    let a12 = m.m12 as int;
    let a13 = m.m13 as int;
    let a20 = m.m20 as int;
    let a21 = m.m21 as int;
    let a22 = m.m22 as int;
    let a23 = m.m23 as int;
    let a30 = m.m30 as int;
    let a31 = m.m31 as int;
    let a32 = m.m32 as int;
    let a33 = m.m33 as int;
    let c0 = spec_cof4_num(m, 0, 3);
    let t0x1 = a10 * (a21 * a32);
    let t0x2 = a10 * (a22 * a31);
    assert(a10 * (a21 * a32 - a22 * a31) == t0x1
        - t0x2) by (nonlinear_arith)
        requires
            t0x1 == a10 * (a21 * a32),
            t0x2 == a10 * (a22 * a31),
    ;
    let t0x3 = a11 * (a20 * a32);
    let t0x4 = a11 * (a22 * a30);
    assert(a11 * (a20 * a32 - a22 * a30) == t0x3
        - t0x4) by (nonlinear_arith)
        requires
            t0x3 == a11 * (a20 * a32),
            t0x4 == a11 * (a22 * a30),
    ;
    let t0x5 = a12 * (a20 * a31);
    let t0x6 = a12 * (a21 * a30);
    assert(a12 * (a20 * a31 - a21 * a30) == t0x5
        - t0x6) by (nonlinear_arith)
        requires
            t0x5 == a12 * (a20 * a31),
            t0x6 == a12 * (a21 * a30),
    ;
    assert(c0 == -(t0x1 - t0x2 - t0x3 + t0x4 + t0x5 - t0x6));
    let s0x1 = t0x1 * a03;
    let s0x2 = t0x2 * a03;
    let s0x3 = t0x3 * a03;
    let s0x4 = t0x4 * a03;
    let s0x5 = t0x5 * a03;
    let s0x6 = t0x6 * a03;
    assert(c0 * a03 == -(s0x1 - s0x2 - s0x3 + s0x4 + s0x5 - s0x6)) by (nonlinear_arith)
        requires
            c0 == -(t0x1 - t0x2 - t0x3 + t0x4 + t0x5 - t0x6),
            s0x1 == t0x1 * a03,
            s0x2 == t0x2 * a03,
            s0x3 == t0x3 * a03,
            s0x4 == t0x4 * a03,
            s0x5 == t0x5 * a03,
            s0x6 == t0x6 * a03,
    ;
    assert(s0x1 == a03 * a10 * a21 * a32) by (nonlinear_arith)
        requires
            s0x1 == t0x1 * a03,
            t0x1 == a10 * (a21 * a32),
    ;
    assert(s0x2 == a03 * a10 * a22 * a31) by (nonlinear_arith)
        requires
            s0x2 == t0x2 * a03,
            t0x2 == a10 * (a22 * a31),
    ;
    assert(s0x3 == a03 * a11 * a20 * a32) by (nonlinear_arith)
        requires
            s0x3 == t0x3 * a03,
            t0x3 == a11 * (a20 * a32),
    ;
    assert(s0x4 == a03 * a11 * a22 * a30) by (nonlinear_arith)
        requires
            s0x4 == t0x4 * a03,
            t0x4 == a11 * (a22 * a30),
    ;
    assert(s0x5 == a03 * a12 * a20 * a31) by (nonlinear_arith)
        requires
            s0x5 == t0x5 * a03,
            t0x5 == a12 * (a20 * a31),
    ;
    assert(s0x6 == a03 * a12 * a21 * a30) by (nonlinear_arith)
        requires
            s0x6 == t0x6 * a03,
            t0x6 == a12 * (a21 * a30),
    ;
    let c1 = spec_cof4_num(m, 1, 3);
    let t1x1 = a00 * (a21 * a32);
    let t1x2 = a00 * (a22 * a31);
    assert(a00 * (a21 * a32 - a22 * a31) == t1x1
        - t1x2) by (nonlinear_arith)
        requires
            t1x1 == a00 * (a21 * a32),
            t1x2 == a00 * (a22 * a31),
    ;
    let t1x3 = a01 * (a20 * a32);
    let t1x4 = a01 * (a22 * a30);
    assert(a01 * (a20 * a32 - a22 * a30) == t1x3
        - t1x4) by (nonlinear_arith)
        requires
            t1x3 == a01 * (a20 * a32),
            t1x4 == a01 * (a22 * a30),
    ;
    let t1x5 = a02 * (a20 * a31);
    let t1x6 = a02 * (a21 * a30);
    assert(a02 * (a20 * a31 - a21 * a30) == t1x5
        - t1x6) by (nonlinear_arith)
        requires
            t1x5 == a02 * (a20 * a31),
            t1x6 == a02 * (a21 * a30),
    ;
    assert(c1 == t1x1 - t1x2 - t1x3 + t1x4 + t1x5 - t1x6);
    let s1x1 = t1x1 * a13;
    let s1x2 = t1x2 * a13;
    let s1x3 = t1x3 * a13;
    let s1x4 = t1x4 * a13;
    let s1x5 = t1x5 * a13;
    let s1x6 = t1x6 * a13;
    assert(c1 * a13 == s1x1 - s1x2 - s1x3 + s1x4 + s1x5 - s1x6) by (nonlinear_arith)
        requires
            c1 == t1x1 - t1x2 - t1x3 + t1x4 + t1x5 - t1x6,
            s1x1 == t1x1 * a13,
            s1x2 == t1x2 * a13,
            s1x3 == t1x3 * a13,
            s1x4 == t1x4 * a13,
            s1x5 == t1x5 * a13,
            s1x6 == t1x6 * a13,
    ;
    assert(s1x1 == a00 * a13 * a21 * a32) by (nonlinear_arith)
        requires
            s1x1 == t1x1 * a13,
            t1x1 == a00 * (a21 * a32),
    ;
    assert(s1x2 == a00 * a13 * a22 * a31) by (nonlinear_arith)
        requires
            s1x2 == t1x2 * a13,
            t1x2 == a00 * (a22 * a31),
    ;
    assert(s1x3 == a01 * a13 * a20 * a32) by (nonlinear_arith)
        requires
            s1x3 == t1x3 * a13,
            t1x3 == a01 * (a20 * a32),
    ;
    assert(s1x4 == a01 * a13 * a22 * a30) by (nonlinear_arith)
        requires
            s1x4 == t1x4 * a13,
            t1x4 == a01 * (a22 * a30),
    ;
    assert(s1x5 == a02 * a13 * a20 * a31) by (nonlinear_arith)
        requires
            s1x5 == t1x5 * a13,
            t1x5 == a02 * (a20 * a31),
    ;
    assert(s1x6 == a02 * a13 * a21 * a30) by (nonlinear_arith)
        requires
            s1x6 == t1x6 * a13,
            t1x6 == a02 * (a21 * a30),
    ;
    let c2 = spec_cof4_num(m, 2, 3);
    let t2x1 = a00 * (a11 * a32);
    let t2x2 = a00 * (a12 * a31);
    assert(a00 * (a11 * a32 - a12 * a31) == t2x1
        - t2x2) by (nonlinear_arith)
        requires
            t2x1 == a00 * (a11 * a32),
            t2x2 == a00 * (a12 * a31),
    ;
    let t2x3 = a01 * (a10 * a32);
    let t2x4 = a01 * (a12 * a30);
    assert(a01 * (a10 * a32 - a12 * a30) == t2x3
        - t2x4) by (nonlinear_arith)
        requires
            t2x3 == a01 * (a10 * a32),
            t2x4 == a01 * (a12 * a30),
    ;
    let t2x5 = a02 * (a10 * a31);
    let t2x6 = a02 * (a11 * a30);
    assert(a02 * (a10 * a31 - a11 * a30) == t2x5
        - t2x6) by (nonlinear_arith)
        requires
            t2x5 == a02 * (a10 * a31),
            t2x6 == a02 * (a11 * a30),
    ;
    assert(c2 == -(t2x1 - t2x2 - t2x3 + t2x4 + t2x5 - t2x6));
    let s2x1 = t2x1 * a23;
    let s2x2 = t2x2 * a23;
    let s2x3 = t2x3 * a23;
    let s2x4 = t2x4 * a23;
    let s2x5 = t2x5 * a23;
    let s2x6 = t2x6 * a23;
    assert(c2 * a23 == -(s2x1 - s2x2 - s2x3 + s2x4 + s2x5 - s2x6)) by (nonlinear_arith)
        requires
            c2 == -(t2x1 - t2x2 - t2x3 + t2x4 + t2x5 - t2x6),
            s2x1 == t2x1 * a23,
            s2x2 == t2x2 * a23,
            s2x3 == t2x3 * a23,
            s2x4 == t2x4 * a23,
            s2x5 == t2x5 * a23,
            s2x6 == t2x6 * a23,
    ;
    assert(s2x1 == a00 * a11 * a23 * a32) by (nonlinear_arith)
        requires
            s2x1 == t2x1 * a23,
            t2x1 == a00 * (a11 * a32),
    ;
    assert(s2x2 == a00 * a12 * a23 * a31) by (nonlinear_arith)
        requires
            s2x2 == t2x2 * a23,
            t2x2 == a00 * (a12 * a31),
    ;
    assert(s2x3 == a01 * a10 * a23 * a32) by (nonlinear_arith)
        requires
            s2x3 == t2x3 * a23,
            t2x3 == a01 * (a10 * a32),
    ;
    assert(s2x4 == a01 * a12 * a23 * a30) by (nonlinear_arith)
        requires
            s2x4 == t2x4 * a23,
            t2x4 == a01 * (a12 * a30),
    ;
    assert(s2x5 == a02 * a10 * a23 * a31) by (nonlinear_arith)
        requires
            s2x5 == t2x5 * a23,
            t2x5 == a02 * (a10 * a31),
    ;
    assert(s2x6 == a02 * a11 * a23 * a30) by (nonlinear_arith)
        requires
            s2x6 == t2x6 * a23,
            t2x6 == a02 * (a11 * a30),
    ;
    let c3 = spec_cof4_num(m, 3, 3);
    let t3x1 = a00 * (a11 * a22);
    let t3x2 = a00 * (a12 * a21);
    assert(a00 * (a11 * a22 - a12 * a21) == t3x1
        - t3x2) by (nonlinear_arith)
        requires
            t3x1 == a00 * (a11 * a22),
            t3x2 == a00 * (a12 * a21),
    ;
    let t3x3 = a01 * (a10 * a22);
    let t3x4 = a01 * (a12 * a20);
    assert(a01 * (a10 * a22 - a12 * a20) == t3x3
        - t3x4) by (nonlinear_arith)
        requires
            t3x3 == a01 * (a10 * a22),
            t3x4 == a01 * (a12 * a20),
    ;
    let t3x5 = a02 * (a10 * a21);
    let t3x6 = a02 * (a11 * a20);
    assert(a02 * (a10 * a21 - a11 * a20) == t3x5
        - t3x6) by (nonlinear_arith)
        requires
            t3x5 == a02 * (a10 * a21),
            t3x6 == a02 * (a11 * a20),
    ;
    assert(c3 == t3x1 - t3x2 - t3x3 + t3x4 + t3x5 - t3x6);
    let s3x1 = t3x1 * a33;
    let s3x2 = t3x2 * a33;
    let s3x3 = t3x3 * a33;
    let s3x4 = t3x4 * a33;
    let s3x5 = t3x5 * a33;
    let s3x6 = t3x6 * a33;
    assert(c3 * a33 == s3x1 - s3x2 - s3x3 + s3x4 + s3x5 - s3x6) by (nonlinear_arith)
        requires
            c3 == t3x1 - t3x2 - t3x3 + t3x4 + t3x5 - t3x6,
            s3x1 == t3x1 * a33,
            s3x2 == t3x2 * a33,
            s3x3 == t3x3 * a33,
            s3x4 == t3x4 * a33,
            s3x5 == t3x5 * a33,
            s3x6 == t3x6 * a33,
    ;
    assert(s3x1 == a00 * a11 * a22 * a33) by (nonlinear_arith)
        requires
            s3x1 == t3x1 * a33,
            t3x1 == a00 * (a11 * a22),
    ;
    assert(s3x2 == a00 * a12 * a21 * a33) by (nonlinear_arith)
        requires
            s3x2 == t3x2 * a33,
            t3x2 == a00 * (a12 * a21),
    ;
    assert(s3x3 == a01 * a10 * a22 * a33) by (nonlinear_arith)
        requires
            s3x3 == t3x3 * a33,
            t3x3 == a01 * (a10 * a22),
    ;
    assert(s3x4 == a01 * a12 * a20 * a33) by (nonlinear_arith)
        requires
            s3x4 == t3x4 * a33,
            t3x4 == a01 * (a12 * a20),
    ;
    assert(s3x5 == a02 * a10 * a21 * a33) by (nonlinear_arith)
        requires
            s3x5 == t3x5 * a33,
            t3x5 == a02 * (a10 * a21),
    ;
    assert(s3x6 == a02 * a11 * a20 * a33) by (nonlinear_arith)
        requires
            s3x6 == t3x6 * a33,
            t3x6 == a02 * (a11 * a20),
    ;
    let d = spec_det4_num(m);
    let b0 = spec_cof4_num(m, 0, 0);
    let u0x1 = a11 * (a22 * a33);
    let u0x2 = a11 * (a23 * a32);
    assert(a11 * (a22 * a33 - a23 * a32) == u0x1
        - u0x2) by (nonlinear_arith)
        requires
            u0x1 == a11 * (a22 * a33),
            u0x2 == a11 * (a23 * a32),
    ;
    let u0x3 = a12 * (a21 * a33);
    let u0x4 = a12 * (a23 * a31);
    assert(a12 * (a21 * a33 - a23 * a31) == u0x3
        - u0x4) by (nonlinear_arith)
        requires
            u0x3 == a12 * (a21 * a33),
            u0x4 == a12 * (a23 * a31),
    ;
    let u0x5 = a13 * (a21 * a32);
    let u0x6 = a13 * (a22 * a31);
    assert(a13 * (a21 * a32 - a22 * a31) == u0x5
        - u0x6) by (nonlinear_arith)
        requires
            u0x5 == a13 * (a21 * a32),
            u0x6 == a13 * (a22 * a31),
    ;
    assert(b0 == u0x1 - u0x2 - u0x3 + u0x4 + u0x5 - u0x6);
    let v0x1 = u0x1 * a00;
    let v0x2 = u0x2 * a00;
    let v0x3 = u0x3 * a00;
    let v0x4 = u0x4 * a00;
    let v0x5 = u0x5 * a00;
    let v0x6 = u0x6 * a00;
    assert(a00 * b0 == v0x1 - v0x2 - v0x3 + v0x4 + v0x5 - v0x6) by (nonlinear_arith)
        requires
            b0 == u0x1 - u0x2 - u0x3 + u0x4 + u0x5 - u0x6,
            v0x1 == u0x1 * a00,
            v0x2 == u0x2 * a00,
            v0x3 == u0x3 * a00,
            v0x4 == u0x4 * a00,
            v0x5 == u0x5 * a00,
            v0x6 == u0x6 * a00,
    ;
    assert(v0x1 == a00 * a11 * a22 * a33) by (nonlinear_arith)
        requires
            v0x1 == u0x1 * a00,
            u0x1 == a11 * (a22 * a33),
    ;
    assert(v0x2 == a00 * a11 * a23 * a32) by (nonlinear_arith)
        requires
            v0x2 == u0x2 * a00,
            u0x2 == a11 * (a23 * a32),
    ;
    assert(v0x3 == a00 * a12 * a21 * a33) by (nonlinear_arith)
        requires
            v0x3 == u0x3 * a00,
            u0x3 == a12 * (a21 * a33),
    ;
    assert(v0x4 == a00 * a12 * a23 * a31) by (nonlinear_arith)
        requires
            v0x4 == u0x4 * a00,
            u0x4 == a12 * (a23 * a31),
    ;
    assert(v0x5 == a00 * a13 * a21 * a32) by (nonlinear_arith)
        requires
            v0x5 == u0x5 * a00,
            u0x5 == a13 * (a21 * a32),
    ;
    assert(v0x6 == a00 * a13 * a22 * a31) by (nonlinear_arith)
        requires
            v0x6 == u0x6 * a00,
            u0x6 == a13 * (a22 * a31),
    ;
    let b1 = spec_cof4_num(m, 0, 1);
    let u1x1 = a10 * (a22 * a33);
    let u1x2 = a10 * (a23 * a32);
    assert(a10 * (a22 * a33 - a23 * a32) == u1x1
        - u1x2) by (nonlinear_arith)
        requires
            u1x1 == a10 * (a22 * a33),
            u1x2 == a10 * (a23 * a32),
    ;
    let u1x3 = a12 * (a20 * a33);
    let u1x4 = a12 * (a23 * a30);
    assert(a12 * (a20 * a33 - a23 * a30) == u1x3
        - u1x4) by (nonlinear_arith)
        requires
            u1x3 == a12 * (a20 * a33),
            u1x4 == a12 * (a23 * a30),
    ;
    let u1x5 = a13 * (a20 * a32);
    let u1x6 = a13 * (a22 * a30);
    assert(a13 * (a20 * a32 - a22 * a30) == u1x5
        - u1x6) by (nonlinear_arith)
        requires
            u1x5 == a13 * (a20 * a32),
            u1x6 == a13 * (a22 * a30),
    ;
    assert(b1 == -(u1x1 - u1x2 - u1x3 + u1x4 + u1x5 - u1x6));
    let v1x1 = u1x1 * a01;
    let v1x2 = u1x2 * a01;
    let v1x3 = u1x3 * a01;
    let v1x4 = u1x4 * a01;
    let v1x5 = u1x5 * a01;
    let v1x6 = u1x6 * a01;
    assert(a01 * b1 == -(v1x1 - v1x2 - v1x3 + v1x4 + v1x5 - v1x6)) by (nonlinear_arith)
        requires
            b1 == -(u1x1 - u1x2 - u1x3 + u1x4 + u1x5 - u1x6),
            v1x1 == u1x1 * a01,
            v1x2 == u1x2 * a01,
            v1x3 == u1x3 * a01,
            v1x4 == u1x4 * a01,
            v1x5 == u1x5 * a01,
            v1x6 == u1x6 * a01,
    ;
    assert(v1x1 == a01 * a10 * a22 * a33) by (nonlinear_arith)
        requires
            v1x1 == u1x1 * a01,
            u1x1 == a10 * (a22 * a33),
    ;
    assert(v1x2 == a01 * a10 * a23 * a32) by (nonlinear_arith)
        requires
            v1x2 == u1x2 * a01,
            u1x2 == a10 * (a23 * a32),
    ;
    assert(v1x3 == a01 * a12 * a20 * a33) by (nonlinear_arith)
        requires
            v1x3 == u1x3 * a01,
            u1x3 == a12 * (a20 * a33),
    ;
    assert(v1x4 == a01 * a12 * a23 * a30) by (nonlinear_arith)
        requires
            v1x4 == u1x4 * a01,
            u1x4 == a12 * (a23 * a30),
    ;
    assert(v1x5 == a01 * a13 * a20 * a32) by (nonlinear_arith)
        requires
            v1x5 == u1x5 * a01,
            u1x5 == a13 * (a20 * a32),
    ;
    assert(v1x6 == a01 * a13 * a22 * a30) by (nonlinear_arith)
        requires
            v1x6 == u1x6 * a01,
            u1x6 == a13 * (a22 * a30),
    ;
    let b2 = spec_cof4_num(m, 0, 2);
    let u2x1 = a10 * (a21 * a33);
    let u2x2 = a10 * (a23 * a31);
    assert(a10 * (a21 * a33 - a23 * a31) == u2x1
        - u2x2) by (nonlinear_arith)
        requires
            u2x1 == a10 * (a21 * a33),
            u2x2 == a10 * (a23 * a31),
    ;
    let u2x3 = a11 * (a20 * a33);
    let u2x4 = a11 * (a23 * a30);
    assert(a11 * (a20 * a33 - a23 * a30) == u2x3
        - u2x4) by (nonlinear_arith)
        requires
            u2x3 == a11 * (a20 * a33),
            u2x4 == a11 * (a23 * a30),
    ;
    let u2x5 = a13 * (a20 * a31);
    let u2x6 = a13 * (a21 * a30);
    assert(a13 * (a20 * a31 - a21 * a30) == u2x5
        - u2x6) by (nonlinear_arith)
        requires
            u2x5 == a13 * (a20 * a31),
            u2x6 == a13 * (a21 * a30),
    ;
    assert(b2 == u2x1 - u2x2 - u2x3 + u2x4 + u2x5 - u2x6);
    let v2x1 = u2x1 * a02;
    let v2x2 = u2x2 * a02;
    let v2x3 = u2x3 * a02;
    let v2x4 = u2x4 * a02;
    let v2x5 = u2x5 * a02;
    let v2x6 = u2x6 * a02;
    assert(a02 * b2 == v2x1 - v2x2 - v2x3 + v2x4 + v2x5 - v2x6) by (nonlinear_arith)
        requires
            b2 == u2x1 - u2x2 - u2x3 + u2x4 + u2x5 - u2x6,
            v2x1 == u2x1 * a02,
            v2x2 == u2x2 * a02,
            v2x3 == u2x3 * a02,
            v2x4 == u2x4 * a02,
            v2x5 == u2x5 * a02,
            v2x6 == u2x6 * a02,
    ;
    assert(v2x1 == a02 * a10 * a21 * a33) by (nonlinear_arith)
        requires
            v2x1 == u2x1 * a02,
            u2x1 == a10 * (a21 * a33),
    ;
    assert(v2x2 == a02 * a10 * a23 * a31) by (nonlinear_arith)
        requires
            v2x2 == u2x2 * a02,
            u2x2 == a10 * (a23 * a31),
    ;
    assert(v2x3 == a02 * a11 * a20 * a33) by (nonlinear_arith)
        requires
            v2x3 == u2x3 * a02,
            u2x3 == a11 * (a20 * a33),
    ;
    assert(v2x4 == a02 * a11 * a23 * a30) by (nonlinear_arith)
        requires
            v2x4 == u2x4 * a02,
            u2x4 == a11 * (a23 * a30),
    ;
    assert(v2x5 == a02 * a13 * a20 * a31) by (nonlinear_arith)
        requires
            v2x5 == u2x5 * a02,
            u2x5 == a13 * (a20 * a31),
    ;
    assert(v2x6 == a02 * a13 * a21 * a30) by (nonlinear_arith)
        requires
            v2x6 == u2x6 * a02,
            u2x6 == a13 * (a21 * a30),
    ;
    let b3 = spec_cof4_num(m, 0, 3);
    let u3x1 = a10 * (a21 * a32);
    let u3x2 = a10 * (a22 * a31);
    assert(a10 * (a21 * a32 - a22 * a31) == u3x1
        - u3x2) by (nonlinear_arith)
        requires
            u3x1 == a10 * (a21 * a32),
            u3x2 == a10 * (a22 * a31),
    ;
    let u3x3 = a11 * (a20 * a32);
    let u3x4 = a11 * (a22 * a30);
    assert(a11 * (a20 * a32 - a22 * a30) == u3x3
        - u3x4) by (nonlinear_arith)
        requires
            u3x3 == a11 * (a20 * a32),
            u3x4 == a11 * (a22 * a30),
    ;
    let u3x5 = a12 * (a20 * a31);
    let u3x6 = a12 * (a21 * a30);
    assert(a12 * (a20 * a31 - a21 * a30) == u3x5
        - u3x6) by (nonlinear_arith)
        requires
            u3x5 == a12 * (a20 * a31),
            u3x6 == a12 * (a21 * a30),
    ;
    assert(b3 == -(u3x1 - u3x2 - u3x3 + u3x4 + u3x5 - u3x6));
    let v3x1 = u3x1 * a03;
    let v3x2 = u3x2 * a03;
    let v3x3 = u3x3 * a03;
    let v3x4 = u3x4 * a03;
    let v3x5 = u3x5 * a03;
    let v3x6 = u3x6 * a03;
    assert(a03 * b3 == -(v3x1 - v3x2 - v3x3 + v3x4 + v3x5 - v3x6)) by (nonlinear_arith)
        requires
            b3 == -(u3x1 - u3x2 - u3x3 + u3x4 + u3x5 - u3x6),
            v3x1 == u3x1 * a03,
            v3x2 == u3x2 * a03,
            v3x3 == u3x3 * a03,
            v3x4 == u3x4 * a03,
            v3x5 == u3x5 * a03,
            v3x6 == u3x6 * a03,
    ;
    assert(v3x1 == a03 * a10 * a21 * a32) by (nonlinear_arith)
        requires
            v3x1 == u3x1 * a03,
            u3x1 == a10 * (a21 * a32),
    ;
    assert(v3x2 == a03 * a10 * a22 * a31) by (nonlinear_arith)
        requires
            v3x2 == u3x2 * a03,
            u3x2 == a10 * (a22 * a31),
    ;
    assert(v3x3 == a03 * a11 * a20 * a32) by (nonlinear_arith)
        requires
            v3x3 == u3x3 * a03,
            u3x3 == a11 * (a20 * a32),
    ;
    assert(v3x4 == a03 * a11 * a22 * a30) by (nonlinear_arith)
        requires
            v3x4 == u3x4 * a03,
            u3x4 == a11 * (a22 * a30),
    ;
    assert(v3x5 == a03 * a12 * a20 * a31) by (nonlinear_arith)
        requires
            v3x5 == u3x5 * a03,
            u3x5 == a12 * (a20 * a31),
    ;
    assert(v3x6 == a03 * a12 * a21 * a30) by (nonlinear_arith)
        requires
            v3x6 == u3x6 * a03,
            u3x6 == a12 * (a21 * a30),
    ;
    assert(d == a00 * b0 + a01 * b1 + a02 * b2 + a03 * b3);
    assert(c0 * a03 + c1 * a13 + c2 * a23 + c3 * a33 == d);
    assert(spec_adj_mul_entry(m, 3, 3) == c0 * a03 + c1 * a13 + c2 * a23 + c3 * a33);
}

/// The adjugate identity: the transposed-cofactor matrix times the
/// original collapses to the determinant times the identity, exactly.
pub proof fn lemma_adjugate_identity(m: Matrix4)
    ensures
        forall|i: int, j: int|
            0 <= i < 4 && 0 <= j < 4 ==> #[trigger] spec_adj_mul_entry(m, i, j) == if i == j {
                spec_det4_num(m)
            } else {
                0
            },
{
    lemma_adj_entry_0_0(m);
    lemma_adj_entry_0_1(m);
    lemma_adj_entry_0_2(m);
    lemma_adj_entry_0_3(m);
    lemma_adj_entry_1_0(m);
    lemma_adj_entry_1_1(m);
    lemma_adj_entry_1_2(m);
    lemma_adj_entry_1_3(m);
    lemma_adj_entry_2_0(m);
    lemma_adj_entry_2_1(m);
    lemma_adj_entry_2_2(m);
    lemma_adj_entry_2_3(m);
    lemma_adj_entry_3_0(m);
    lemma_adj_entry_3_1(m);
    lemma_adj_entry_3_2(m);
    lemma_adj_entry_3_3(m);
    assert forall|i: int, j: int| 0 <= i < 4 && 0 <= j < 4 implies #[trigger] spec_adj_mul_entry(
        m,
        i,
        j,
    ) == if i == j {
        spec_det4_num(m)
    } else {
        0
    } by {
        if i == 0 {
            if j == 0 {
            } else if j == 1 {
            } else if j == 2 {
            } else {
            }
        } else if i == 1 {
            if j == 0 {
            } else if j == 1 {
            } else if j == 2 {
            } else {
            }
        } else if i == 2 {
            if j == 0 {
            } else if j == 1 {
            } else if j == 2 {
            } else {
            }
        } else {
            if j == 0 {
            } else if j == 1 {
            } else if j == 2 {
            } else {
            }
        }
    }
}

/// Exact inverse round trip.  Sending a tuple through `M` and then
/// through the adjugate (the exact numerators the inverse is built
/// from) rescales every component by the determinant's numerator, so
/// for an invertible matrix the division that finishes the inverse
/// returns the tuple exactly in the rational model; the fixed-point
/// pipeline differs from it only by its stated floor roundings.
pub proof fn lemma_inverse_round_trip(m: Matrix4, t: Tuple)
    ensures
        spec_rt_num(m, t, 0) == spec_det4_num(m) * (t.x as int),
        spec_rt_num(m, t, 1) == spec_det4_num(m) * (t.y as int),
        spec_rt_num(m, t, 2) == spec_det4_num(m) * (t.z as int),
        spec_rt_num(m, t, 3) == spec_det4_num(m) * (t.w as int),
{
    let a00 = m.m00 as int;
    let a01 = m.m01 as int;
    let a02 = m.m02 as int;
    let a03 = m.m03 as int;
    let a10 = m.m10 as int;
    let a11 = m.m11 as int;
    let a12 = m.m12 as int;
    let a13 = m.m13 as int;
    let a20 = m.m20 as int;
    let a21 = m.m21 as int;
    let a22 = m.m22 as int;
    let a23 = m.m23 as int;
    let a30 = m.m30 as int;
    let a31 = m.m31 as int;
    let a32 = m.m32 as int;
    let a33 = m.m33 as int;
    let tx = t.x as int;
    let ty = t.y as int;
    let tz = t.z as int;
    let tw = t.w as int;
    let d = spec_det4_num(m);
    {
        let c0 = spec_cof4_num(m, 0, 0);
        let y0 = spec_mv_num(m, t, 0);
        let c1 = spec_cof4_num(m, 1, 0);
        let y1 = spec_mv_num(m, t, 1);
        let c2 = spec_cof4_num(m, 2, 0);
        let y2 = spec_mv_num(m, t, 2);
        let c3 = spec_cof4_num(m, 3, 0);
        let y3 = spec_mv_num(m, t, 3);
        lemma_adj_entry_0_0(m);
        lemma_adj_entry_0_1(m);
        lemma_adj_entry_0_2(m);
        lemma_adj_entry_0_3(m);
        let w00 = a00 * tx;
        let p00 = c0 * a00;
        let q00 = p00 * tx;
        let w01 = a01 * ty;
        let p01 = c0 * a01;
        let q01 = p01 * ty;
        let w02 = a02 * tz;
        let p02 = c0 * a02;
        let q02 = p02 * tz;
        let w03 = a03 * tw;
        let p03 = c0 * a03;
        let q03 = p03 * tw;
        let w10 = a10 * tx;
        let p10 = c1 * a10;
        let q10 = p10 * tx;
        let w11 = a11 * ty;
        let p11 = c1 * a11;
        let q11 = p11 * ty;
        let w12 = a12 * tz;
        let p12 = c1 * a12;
        let q12 = p12 * tz;
        let w13 = a13 * tw;
        let p13 = c1 * a13;
        let q13 = p13 * tw;
        let w20 = a20 * tx;
        let p20 = c2 * a20;
        let q20 = p20 * tx;
        let w21 = a21 * ty;
        let p21 = c2 * a21;
        let q21 = p21 * ty;
        let w22 = a22 * tz;
        let p22 = c2 * a22;
        let q22 = p22 * tz;
        let w23 = a23 * tw;
        let p23 = c2 * a23;
        let q23 = p23 * tw;
        let w30 = a30 * tx;
        let p30 = c3 * a30;
        let q30 = p30 * tx;
        let w31 = a31 * ty;
        let p31 = c3 * a31;
        let q31 = p31 * ty;
        let w32 = a32 * tz;
        let p32 = c3 * a32;
        let q32 = p32 * tz;
        let w33 = a33 * tw;
        let p33 = c3 * a33;
        let q33 = p33 * tw;
        assert(y0 == w00 + w01 + w02 + w03);
        assert(c0 * w00 == q00) by (nonlinear_arith)
            requires
                w00 == a00 * tx,
                p00 == c0 * a00,
                q00 == p00 * tx,
        ;
        assert(c0 * w01 == q01) by (nonlinear_arith)
            requires
                w01 == a01 * ty,
                p01 == c0 * a01,
                q01 == p01 * ty,
        ;
        assert(c0 * w02 == q02) by (nonlinear_arith)
            requires
                w02 == a02 * tz,
                p02 == c0 * a02,
                q02 == p02 * tz,
        ;
        assert(c0 * w03 == q03) by (nonlinear_arith)
            requires
                w03 == a03 * tw,
                p03 == c0 * a03,
                q03 == p03 * tw,
        ;
        assert(c0 * y0 == c0 * w00 + c0 * w01 + c0 * w02 + c0 * w03)
            by (nonlinear_arith)
            requires
                y0 == w00 + w01 + w02 + w03,
        ;
        assert(y1 == w10 + w11 + w12 + w13);
        assert(c1 * w10 == q10) by (nonlinear_arith)
            requires
                w10 == a10 * tx,
                p10 == c1 * a10,
                q10 == p10 * tx,
        ;
        assert(c1 * w11 == q11) by (nonlinear_arith)
            requires
                w11 == a11 * ty,
                p11 == c1 * a11,
                q11 == p11 * ty,
        ;
        assert(c1 * w12 == q12) by (nonlinear_arith)
            requires
                w12 == a12 * tz,
                p12 == c1 * a12,
                q12 == p12 * tz,
        ;
        assert(c1 * w13 == q13) by (nonlinear_arith)
            requires
                w13 == a13 * tw,
                p13 == c1 * a13,
                q13 == p13 * tw,
        ;
        assert(c1 * y1 == c1 * w10 + c1 * w11 + c1 * w12 + c1 * w13)
            by (nonlinear_arith)
            requires
                y1 == w10 + w11 + w12 + w13,
        ;
        assert(y2 == w20 + w21 + w22 + w23);
        assert(c2 * w20 == q20) by (nonlinear_arith)
            requires
                w20 == a20 * tx,
                p20 == c2 * a20,
                q20 == p20 * tx,
        ;
        assert(c2 * w21 == q21) by (nonlinear_arith)
            requires
                w21 == a21 * ty,
                p21 == c2 * a21,
                q21 == p21 * ty,
        ;
        assert(c2 * w22 == q22) by (nonlinear_arith)
            requires
                w22 == a22 * tz,
                p22 == c2 * a22,
                q22 == p22 * tz,
        ;
        assert(c2 * w23 == q23) by (nonlinear_arith)
            requires
                w23 == a23 * tw,
                p23 == c2 * a23,
                q23 == p23 * tw,
        ;
        assert(c2 * y2 == c2 * w20 + c2 * w21 + c2 * w22 + c2 * w23)
            by (nonlinear_arith)
            requires
                y2 == w20 + w21 + w22 + w23,
        ;
        assert(y3 == w30 + w31 + w32 + w33);
        assert(c3 * w30 == q30) by (nonlinear_arith)
            requires
                w30 == a30 * tx,
                p30 == c3 * a30,
                q30 == p30 * tx,
        ;
        assert(c3 * w31 == q31) by (nonlinear_arith)
            requires
                w31 == a31 * ty,
                p31 == c3 * a31,
                q31 == p31 * ty,
        ;
        assert(c3 * w32 == q32) by (nonlinear_arith)
            requires
                w32 == a32 * tz,
                p32 == c3 * a32,
                q32 == p32 * tz,
        ;
        assert(c3 * w33 == q33) by (nonlinear_arith)
            requires
                w33 == a33 * tw,
                p33 == c3 * a33,
                q33 == p33 * tw,
        ;
        assert(c3 * y3 == c3 * w30 + c3 * w31 + c3 * w32 + c3 * w33)
            by (nonlinear_arith)
            requires
                y3 == w30 + w31 + w32 + w33,
        ;
        assert(p00 + p10 + p20 + p30 == d);
        assert(q00 + q10 + q20 + q30 == d * tx) by (nonlinear_arith)
            requires
                q00 == p00 * tx,
                q10 == p10 * tx,
                q20 == p20 * tx,
                q30 == p30 * tx,
                p00 + p10 + p20 + p30 == d,
        ;
        assert(p01 + p11 + p21 + p31 == 0);
        assert(q01 + q11 + q21 + q31 == 0) by (nonlinear_arith)
            requires
                q01 == p01 * ty,
                q11 == p11 * ty,
                q21 == p21 * ty,
                q31 == p31 * ty,
                p01 + p11 + p21 + p31 == 0,
        ;
        assert(p02 + p12 + p22 + p32 == 0);
        assert(q02 + q12 + q22 + q32 == 0) by (nonlinear_arith)
            requires
                q02 == p02 * tz,
                q12 == p12 * tz,
                q22 == p22 * tz,
                q32 == p32 * tz,
                p02 + p12 + p22 + p32 == 0,
        ;
        assert(p03 + p13 + p23 + p33 == 0);
        assert(q03 + q13 + q23 + q33 == 0) by (nonlinear_arith)
            requires
                q03 == p03 * tw,
                q13 == p13 * tw,
                q23 == p23 * tw,
                q33 == p33 * tw,
                p03 + p13 + p23 + p33 == 0,
        ;
        assert(c0 * y0 + c1 * y1 + c2 * y2 + c3 * y3 == d * tx);
        assert(spec_rt_num(m, t, 0) == c0 * y0 + c1 * y1 + c2 * y2 + c3 * y3);
    }
    {
        let c0 = spec_cof4_num(m, 0, 1);
        let y0 = spec_mv_num(m, t, 0);
        let c1 = spec_cof4_num(m, 1, 1);
        let y1 = spec_mv_num(m, t, 1);
        let c2 = spec_cof4_num(m, 2, 1);
        let y2 = spec_mv_num(m, t, 2);
        let c3 = spec_cof4_num(m, 3, 1);
        let y3 = spec_mv_num(m, t, 3);
        lemma_adj_entry_1_0(m);
        lemma_adj_entry_1_1(m);
        lemma_adj_entry_1_2(m);
        lemma_adj_entry_1_3(m);
        let w00 = a00 * tx;
        let p00 = c0 * a00;
        let q00 = p00 * tx;
        let w01 = a01 * ty;
        let p01 = c0 * a01;
        let q01 = p01 * ty;
        let w02 = a02 * tz;
        let p02 = c0 * a02;
        let q02 = p02 * tz;
        let w03 = a03 * tw;
        let p03 = c0 * a03;
        let q03 = p03 * tw;
        let w10 = a10 * tx;
        let p10 = c1 * a10;
        let q10 = p10 * tx;
        let w11 = a11 * ty;
        let p11 = c1 * a11;
        let q11 = p11 * ty;
        let w12 = a12 * tz;
        let p12 = c1 * a12;
        let q12 = p12 * tz;
        let w13 = a13 * tw;
        let p13 = c1 * a13;
        let q13 = p13 * tw;
        let w20 = a20 * tx;
        let p20 = c2 * a20;
        let q20 = p20 * tx;
        let w21 = a21 * ty;
        let p21 = c2 * a21;
        let q21 = p21 * ty;
        let w22 = a22 * tz;
        let p22 = c2 * a22;
        let q22 = p22 * tz;
        let w23 = a23 * tw;
        let p23 = c2 * a23;
        let q23 = p23 * tw;
        let w30 = a30 * tx;
        let p30 = c3 * a30;
        let q30 = p30 * tx;
        let w31 = a31 * ty;
        let p31 = c3 * a31;
        let q31 = p31 * ty;
        let w32 = a32 * tz;
        let p32 = c3 * a32;
        let q32 = p32 * tz;
        let w33 = a33 * tw;
        let p33 = c3 * a33;
        let q33 = p33 * tw;
        assert(y0 == w00 + w01 + w02 + w03);
        assert(c0 * w00 == q00) by (nonlinear_arith)
            requires
                w00 == a00 * tx,
                p00 == c0 * a00,
                q00 == p00 * tx,
        ;
        assert(c0 * w01 == q01) by (nonlinear_arith)
            requires
                w01 == a01 * ty,
                p01 == c0 * a01,
                q01 == p01 * ty,
        ;
        assert(c0 * w02 == q02) by (nonlinear_arith)
            requires
                w02 == a02 * tz,
                p02 == c0 * a02,
                q02 == p02 * tz,
        ;
        assert(c0 * w03 == q03) by (nonlinear_arith)
            requires
                w03 == a03 * tw,
                p03 == c0 * a03,
                q03 == p03 * tw,
        ;
        assert(c0 * y0 == c0 * w00 + c0 * w01 + c0 * w02 + c0 * w03)
            by (nonlinear_arith)
            requires
                y0 == w00 + w01 + w02 + w03,
        ;
        assert(y1 == w10 + w11 + w12 + w13);
        assert(c1 * w10 == q10) by (nonlinear_arith)
            requires
                w10 == a10 * tx,
                p10 == c1 * a10,
                q10 == p10 * tx,
        ;
        assert(c1 * w11 == q11) by (nonlinear_arith)
            requires
                w11 == a11 * ty,
                p11 == c1 * a11,
                q11 == p11 * ty,
        ;
        assert(c1 * w12 == q12) by (nonlinear_arith)
            requires
                w12 == a12 * tz,
                p12 == c1 * a12,
                q12 == p12 * tz,
        ;
        assert(c1 * w13 == q13) by (nonlinear_arith)
            requires
                w13 == a13 * tw,
                p13 == c1 * a13,
                q13 == p13 * tw,
        ;
        assert(c1 * y1 == c1 * w10 + c1 * w11 + c1 * w12 + c1 * w13)
            by (nonlinear_arith)
            requires
                y1 == w10 + w11 + w12 + w13,
        ;
        assert(y2 == w20 + w21 + w22 + w23);
        assert(c2 * w20 == q20) by (nonlinear_arith)
            requires
                w20 == a20 * tx,
                p20 == c2 * a20,
                q20 == p20 * tx,
        ;
        assert(c2 * w21 == q21) by (nonlinear_arith)
            requires
                w21 == a21 * ty,
                p21 == c2 * a21,
                q21 == p21 * ty,
        ;
        assert(c2 * w22 == q22) by (nonlinear_arith)
            requires
                w22 == a22 * tz,
                p22 == c2 * a22,
                q22 == p22 * tz,
        ;
        assert(c2 * w23 == q23) by (nonlinear_arith)
            requires
                w23 == a23 * tw,
                p23 == c2 * a23,
                q23 == p23 * tw,
        ;
        assert(c2 * y2 == c2 * w20 + c2 * w21 + c2 * w22 + c2 * w23)
            by (nonlinear_arith)
            requires
                y2 == w20 + w21 + w22 + w23,
        ;
        assert(y3 == w30 + w31 + w32 + w33);
        assert(c3 * w30 == q30) by (nonlinear_arith)
            requires
                w30 == a30 * tx,
                p30 == c3 * a30,
                q30 == p30 * tx,
        ;
        assert(c3 * w31 == q31) by (nonlinear_arith)
            requires
                w31 == a31 * ty,
                p31 == c3 * a31,
                q31 == p31 * ty,
        ;
        assert(c3 * w32 == q32) by (nonlinear_arith)
            requires
                w32 == a32 * tz,
                p32 == c3 * a32,
                q32 == p32 * tz,
        ;
        assert(c3 * w33 == q33) by (nonlinear_arith)
            requires
                w33 == a33 * tw,
                p33 == c3 * a33,
                q33 == p33 * tw,
        ;
        assert(c3 * y3 == c3 * w30 + c3 * w31 + c3 * w32 + c3 * w33)
            by (nonlinear_arith)
            requires
                y3 == w30 + w31 + w32 + w33,
        ;
        assert(p00 + p10 + p20 + p30 == 0);
        assert(q00 + q10 + q20 + q30 == 0) by (nonlinear_arith)
            requires
                q00 == p00 * tx,
                q10 == p10 * tx,
                q20 == p20 * tx,
                q30 == p30 * tx,
                p00 + p10 + p20 + p30 == 0,
        ;
        assert(p01 + p11 + p21 + p31 == d);
        assert(q01 + q11 + q21 + q31 == d * ty) by (nonlinear_arith)
            requires
                q01 == p01 * ty,
                q11 == p11 * ty,
                q21 == p21 * ty,
                q31 == p31 * ty,
                p01 + p11 + p21 + p31 == d,
        ;
        assert(p02 + p12 + p22 + p32 == 0);
        assert(q02 + q12 + q22 + q32 == 0) by (nonlinear_arith)
            requires
                q02 == p02 * tz,
                q12 == p12 * tz,
                q22 == p22 * tz,
                q32 == p32 * tz,
                p02 + p12 + p22 + p32 == 0,
        ;
        assert(p03 + p13 + p23 + p33 == 0);
        assert(q03 + q13 + q23 + q33 == 0) by (nonlinear_arith)
            requires
                q03 == p03 * tw,
                q13 == p13 * tw,
                q23 == p23 * tw,
                q33 == p33 * tw,
                p03 + p13 + p23 + p33 == 0,
        ;
        assert(c0 * y0 + c1 * y1 + c2 * y2 + c3 * y3 == d * ty);
        assert(spec_rt_num(m, t, 1) == c0 * y0 + c1 * y1 + c2 * y2 + c3 * y3);
    }
    {
        let c0 = spec_cof4_num(m, 0, 2);
        let y0 = spec_mv_num(m, t, 0);
        let c1 = spec_cof4_num(m, 1, 2);
        let y1 = spec_mv_num(m, t, 1);
        let c2 = spec_cof4_num(m, 2, 2);
        let y2 = spec_mv_num(m, t, 2);
        let c3 = spec_cof4_num(m, 3, 2);
        let y3 = spec_mv_num(m, t, 3);
        lemma_adj_entry_2_0(m);
        lemma_adj_entry_2_1(m);
        lemma_adj_entry_2_2(m);
        lemma_adj_entry_2_3(m);
        let w00 = a00 * tx;
        let p00 = c0 * a00;
        let q00 = p00 * tx;
        let w01 = a01 * ty;
        let p01 = c0 * a01;
        let q01 = p01 * ty;
        let w02 = a02 * tz;
        let p02 = c0 * a02;
        let q02 = p02 * tz;
        let w03 = a03 * tw;
        let p03 = c0 * a03;
        let q03 = p03 * tw;
        let w10 = a10 * tx;
        let p10 = c1 * a10;
        let q10 = p10 * tx;
        let w11 = a11 * ty;
        let p11 = c1 * a11;
        let q11 = p11 * ty;
        let w12 = a12 * tz;
        let p12 = c1 * a12;
        let q12 = p12 * tz;
        let w13 = a13 * tw;
        let p13 = c1 * a13;
        let q13 = p13 * tw;
        let w20 = a20 * tx;
        let p20 = c2 * a20;
        let q20 = p20 * tx;
        let w21 = a21 * ty;
        let p21 = c2 * a21;
        let q21 = p21 * ty;
        let w22 = a22 * tz;
        let p22 = c2 * a22;
        let q22 = p22 * tz;
        let w23 = a23 * tw;
        let p23 = c2 * a23;
        let q23 = p23 * tw;
        let w30 = a30 * tx;
        let p30 = c3 * a30;
        let q30 = p30 * tx;
        let w31 = a31 * ty;
        let p31 = c3 * a31;
        let q31 = p31 * ty;
        let w32 = a32 * tz;
        let p32 = c3 * a32;
        let q32 = p32 * tz;
        let w33 = a33 * tw;
        let p33 = c3 * a33;
        let q33 = p33 * tw;
        assert(y0 == w00 + w01 + w02 + w03);
        assert(c0 * w00 == q00) by (nonlinear_arith)
            requires
                w00 == a00 * tx,
                p00 == c0 * a00,
                q00 == p00 * tx,
        ;
        assert(c0 * w01 == q01) by (nonlinear_arith)
            requires
                w01 == a01 * ty,
                p01 == c0 * a01,
                q01 == p01 * ty,
        ;
        assert(c0 * w02 == q02) by (nonlinear_arith)
            requires
                w02 == a02 * tz,
                p02 == c0 * a02,
                q02 == p02 * tz,
        ;
        assert(c0 * w03 == q03) by (nonlinear_arith)
            requires
                w03 == a03 * tw,
                p03 == c0 * a03,
                q03 == p03 * tw,
        ;
        assert(c0 * y0 == c0 * w00 + c0 * w01 + c0 * w02 + c0 * w03)
            by (nonlinear_arith)
            requires
                y0 == w00 + w01 + w02 + w03,
        ;
        assert(y1 == w10 + w11 + w12 + w13);
        assert(c1 * w10 == q10) by (nonlinear_arith)
            requires
                w10 == a10 * tx,
                p10 == c1 * a10,
                q10 == p10 * tx,
        ;
        assert(c1 * w11 == q11) by (nonlinear_arith)
            requires
                w11 == a11 * ty,
                p11 == c1 * a11,
                q11 == p11 * ty,
        ;
        assert(c1 * w12 == q12) by (nonlinear_arith)
            requires
                w12 == a12 * tz,
                p12 == c1 * a12,
                q12 == p12 * tz,
        ;
        assert(c1 * w13 == q13) by (nonlinear_arith)
            requires
                w13 == a13 * tw,
                p13 == c1 * a13,
                q13 == p13 * tw,
        ;
        assert(c1 * y1 == c1 * w10 + c1 * w11 + c1 * w12 + c1 * w13)
            by (nonlinear_arith)
            requires
                y1 == w10 + w11 + w12 + w13,
        ;
        assert(y2 == w20 + w21 + w22 + w23);
        assert(c2 * w20 == q20) by (nonlinear_arith)
            requires
                w20 == a20 * tx,
                p20 == c2 * a20,
                q20 == p20 * tx,
        ;
        assert(c2 * w21 == q21) by (nonlinear_arith)
            requires
                w21 == a21 * ty,
                p21 == c2 * a21,
                q21 == p21 * ty,
        ;
        assert(c2 * w22 == q22) by (nonlinear_arith)
            requires
                w22 == a22 * tz,
                p22 == c2 * a22,
                q22 == p22 * tz,
        ;
        assert(c2 * w23 == q23) by (nonlinear_arith)
            requires
                w23 == a23 * tw,
                p23 == c2 * a23,
                q23 == p23 * tw,
        ;
        assert(c2 * y2 == c2 * w20 + c2 * w21 + c2 * w22 + c2 * w23)
            by (nonlinear_arith)
            requires
                y2 == w20 + w21 + w22 + w23,
        ;
        assert(y3 == w30 + w31 + w32 + w33);
        assert(c3 * w30 == q30) by (nonlinear_arith)
            requires
                w30 == a30 * tx,
                p30 == c3 * a30,
                q30 == p30 * tx,
        ;
        assert(c3 * w31 == q31) by (nonlinear_arith)
            requires
                w31 == a31 * ty,
                p31 == c3 * a31,
                q31 == p31 * ty,
        ;
        assert(c3 * w32 == q32) by (nonlinear_arith)
            requires
                w32 == a32 * tz,
                p32 == c3 * a32,
                q32 == p32 * tz,
        ;
        assert(c3 * w33 == q33) by (nonlinear_arith)
            requires
                w33 == a33 * tw,
                p33 == c3 * a33,
                q33 == p33 * tw,
        ;
        assert(c3 * y3 == c3 * w30 + c3 * w31 + c3 * w32 + c3 * w33)
            by (nonlinear_arith)
            requires
                y3 == w30 + w31 + w32 + w33,
        ;
        assert(p00 + p10 + p20 + p30 == 0);
        assert(q00 + q10 + q20 + q30 == 0) by (nonlinear_arith)
            requires
                q00 == p00 * tx,
                q10 == p10 * tx,
                q20 == p20 * tx,
                q30 == p30 * tx,
                p00 + p10 + p20 + p30 == 0,
        ;
        assert(p01 + p11 + p21 + p31 == 0);
        assert(q01 + q11 + q21 + q31 == 0) by (nonlinear_arith)
            requires
                q01 == p01 * ty,
                q11 == p11 * ty,
                q21 == p21 * ty,
                q31 == p31 * ty,
                p01 + p11 + p21 + p31 == 0,
        ;
        assert(p02 + p12 + p22 + p32 == d);
        assert(q02 + q12 + q22 + q32 == d * tz) by (nonlinear_arith)
            requires
                q02 == p02 * tz,
                q12 == p12 * tz,
                q22 == p22 * tz,
                q32 == p32 * tz,
                p02 + p12 + p22 + p32 == d,
        ;
        assert(p03 + p13 + p23 + p33 == 0);
        assert(q03 + q13 + q23 + q33 == 0) by (nonlinear_arith)
            requires
                q03 == p03 * tw,
                q13 == p13 * tw,
                q23 == p23 * tw,
                q33 == p33 * tw,
                p03 + p13 + p23 + p33 == 0,
        ;
        assert(c0 * y0 + c1 * y1 + c2 * y2 + c3 * y3 == d * tz);
        assert(spec_rt_num(m, t, 2) == c0 * y0 + c1 * y1 + c2 * y2 + c3 * y3);
    }
    {
        let c0 = spec_cof4_num(m, 0, 3);
        let y0 = spec_mv_num(m, t, 0);
        let c1 = spec_cof4_num(m, 1, 3);
        let y1 = spec_mv_num(m, t, 1);
        let c2 = spec_cof4_num(m, 2, 3);
        let y2 = spec_mv_num(m, t, 2);
        let c3 = spec_cof4_num(m, 3, 3);
        let y3 = spec_mv_num(m, t, 3);
        lemma_adj_entry_3_0(m);
        lemma_adj_entry_3_1(m);
        lemma_adj_entry_3_2(m);
        lemma_adj_entry_3_3(m);
        let w00 = a00 * tx;
        let p00 = c0 * a00;
        let q00 = p00 * tx;
        let w01 = a01 * ty;
        let p01 = c0 * a01;
        let q01 = p01 * ty;
        let w02 = a02 * tz;
        let p02 = c0 * a02;
        let q02 = p02 * tz;
        let w03 = a03 * tw;
        let p03 = c0 * a03;
        let q03 = p03 * tw;
        let w10 = a10 * tx;
        let p10 = c1 * a10;
        let q10 = p10 * tx;
        let w11 = a11 * ty;
        let p11 = c1 * a11;
        let q11 = p11 * ty;
        let w12 = a12 * tz;
        let p12 = c1 * a12;
        let q12 = p12 * tz;
        let w13 = a13 * tw;
        let p13 = c1 * a13;
        let q13 = p13 * tw;
        let w20 = a20 * tx;
        let p20 = c2 * a20;
        let q20 = p20 * tx;
        let w21 = a21 * ty;
        let p21 = c2 * a21;
        let q21 = p21 * ty;
        let w22 = a22 * tz;
        let p22 = c2 * a22;
        let q22 = p22 * tz;
        let w23 = a23 * tw;
        let p23 = c2 * a23;
        let q23 = p23 * tw;
        let w30 = a30 * tx;
        let p30 = c3 * a30;
        let q30 = p30 * tx;
        let w31 = a31 * ty;
        let p31 = c3 * a31;
        let q31 = p31 * ty;
        let w32 = a32 * tz;
        let p32 = c3 * a32;
        let q32 = p32 * tz;
        let w33 = a33 * tw;
        let p33 = c3 * a33;
        let q33 = p33 * tw;
        assert(y0 == w00 + w01 + w02 + w03);
        assert(c0 * w00 == q00) by (nonlinear_arith)
            requires
                w00 == a00 * tx,
                p00 == c0 * a00,
                q00 == p00 * tx,
        ;
        assert(c0 * w01 == q01) by (nonlinear_arith)
            requires
                w01 == a01 * ty,
                p01 == c0 * a01,
                q01 == p01 * ty,
        ;
        assert(c0 * w02 == q02) by (nonlinear_arith)
            requires
                w02 == a02 * tz,
                p02 == c0 * a02,
                q02 == p02 * tz,
        ;
        assert(c0 * w03 == q03) by (nonlinear_arith)
            requires
                w03 == a03 * tw,
                p03 == c0 * a03,
                q03 == p03 * tw,
        ;
        assert(c0 * y0 == c0 * w00 + c0 * w01 + c0 * w02 + c0 * w03)
            by (nonlinear_arith)
            requires
                y0 == w00 + w01 + w02 + w03,
        ;
        assert(y1 == w10 + w11 + w12 + w13);
        assert(c1 * w10 == q10) by (nonlinear_arith)
            requires
                w10 == a10 * tx,
                p10 == c1 * a10,
                q10 == p10 * tx,
        ;
        assert(c1 * w11 == q11) by (nonlinear_arith)
            requires
                w11 == a11 * ty,
                p11 == c1 * a11,
                q11 == p11 * ty,
        ;
        assert(c1 * w12 == q12) by (nonlinear_arith)
            requires
                w12 == a12 * tz,
                p12 == c1 * a12,
                q12 == p12 * tz,
        ;
        assert(c1 * w13 == q13) by (nonlinear_arith)
            requires
                w13 == a13 * tw,
                p13 == c1 * a13,
                q13 == p13 * tw,
        ;
        assert(c1 * y1 == c1 * w10 + c1 * w11 + c1 * w12 + c1 * w13)
            by (nonlinear_arith)
            requires
                y1 == w10 + w11 + w12 + w13,
        ;
        assert(y2 == w20 + w21 + w22 + w23);
        assert(c2 * w20 == q20) by (nonlinear_arith)
            requires
                w20 == a20 * tx,
                p20 == c2 * a20,
                q20 == p20 * tx,
        ;
        assert(c2 * w21 == q21) by (nonlinear_arith)
            requires
                w21 == a21 * ty,
                p21 == c2 * a21,
                q21 == p21 * ty,
        ;
        assert(c2 * w22 == q22) by (nonlinear_arith)
            requires
                w22 == a22 * tz,
                p22 == c2 * a22,
                q22 == p22 * tz,
        ;
        assert(c2 * w23 == q23) by (nonlinear_arith)
            requires
                w23 == a23 * tw,
                p23 == c2 * a23,
                q23 == p23 * tw,
        ;
        assert(c2 * y2 == c2 * w20 + c2 * w21 + c2 * w22 + c2 * w23)
            by (nonlinear_arith)
            requires
                y2 == w20 + w21 + w22 + w23,
        ;
        assert(y3 == w30 + w31 + w32 + w33);
        assert(c3 * w30 == q30) by (nonlinear_arith)
            requires
                w30 == a30 * tx,
                p30 == c3 * a30,
                q30 == p30 * tx,
        ;
        assert(c3 * w31 == q31) by (nonlinear_arith)
            requires
                w31 == a31 * ty,
                p31 == c3 * a31,
                q31 == p31 * ty,
        ;
        assert(c3 * w32 == q32) by (nonlinear_arith)
            requires
                w32 == a32 * tz,
                p32 == c3 * a32,
                q32 == p32 * tz,
        ;
        assert(c3 * w33 == q33) by (nonlinear_arith)
            requires
                w33 == a33 * tw,
                p33 == c3 * a33,
                q33 == p33 * tw,
        ;
        assert(c3 * y3 == c3 * w30 + c3 * w31 + c3 * w32 + c3 * w33)
            by (nonlinear_arith)
            requires
                y3 == w30 + w31 + w32 + w33,
        ;
        assert(p00 + p10 + p20 + p30 == 0);
        assert(q00 + q10 + q20 + q30 == 0) by (nonlinear_arith)
            requires
                q00 == p00 * tx,
                q10 == p10 * tx,
                q20 == p20 * tx,
                q30 == p30 * tx,
                p00 + p10 + p20 + p30 == 0,
        ;
        assert(p01 + p11 + p21 + p31 == 0);
        assert(q01 + q11 + q21 + q31 == 0) by (nonlinear_arith)
            requires
                q01 == p01 * ty,
                q11 == p11 * ty,
                q21 == p21 * ty,
                q31 == p31 * ty,
                p01 + p11 + p21 + p31 == 0,
        ;
        assert(p02 + p12 + p22 + p32 == 0);
        assert(q02 + q12 + q22 + q32 == 0) by (nonlinear_arith)
            requires
                q02 == p02 * tz,
                q12 == p12 * tz,
                q22 == p22 * tz,
                q32 == p32 * tz,
                p02 + p12 + p22 + p32 == 0,
        ;
        assert(p03 + p13 + p23 + p33 == d);
        assert(q03 + q13 + q23 + q33 == d * tw) by (nonlinear_arith)
            requires
                q03 == p03 * tw,
                q13 == p13 * tw,
                q23 == p23 * tw,
                q33 == p33 * tw,
                p03 + p13 + p23 + p33 == d,
        ;
        assert(c0 * y0 + c1 * y1 + c2 * y2 + c3 * y3 == d * tw);
        assert(spec_rt_num(m, t, 3) == c0 * y0 + c1 * y1 + c2 * y2 + c3 * y3);
    }
}

} // verus!
