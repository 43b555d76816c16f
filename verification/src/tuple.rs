//! Homogeneous-coordinate tuples: a point carries `w == 1.0`, a free
//! vector `w == 0.0`, and every operation states exactly how it combines
//! the components.

use vstd::prelude::*;

verus! {

use crate::comparison::approx_eq::{approx_eq_epsilon, approx_eq_s};
use crate::comparison::epsilon::EPSILON;
use crate::fixed::{
    floor_div, fx_div, fx_div_s, fx_dot4, fx_dot4_s, fx_mul, fx_mul_s, isqrt, lemma_mul_bounded,
    lemma_sqrt_floor_unique, sqrt_floor, within, ADD_MAX, COORD_MAX, MUL_MAX, NORM_MAX, SCALE,
};

/// A homogeneous 4-component tuple in fixed-point units.
#[derive(Clone, Copy, Debug)]
pub struct Tuple {
    pub x: i64,
    pub y: i64,
    pub z: i64,
    pub w: i64,
}

/// True when the tuple denotes a point (`w == 1.0`).
pub open spec fn is_point(t: Tuple) -> bool {
    t.w == SCALE
}

/// True when the tuple denotes a free vector (`w == 0.0`).
pub open spec fn is_vector(t: Tuple) -> bool {
    t.w == 0
}

/// All four components lie within `[-b, b]` units.
pub open spec fn tuple_within(t: Tuple, b: int) -> bool {
    within(t.x as int, b) && within(t.y as int, b) && within(t.z as int, b) && within(t.w as int, b)
}

/// Exact component-wise sum.
pub open spec fn spec_add(a: Tuple, b: Tuple) -> (int, int, int, int) {
    (a.x + b.x, a.y + b.y, a.z + b.z, a.w + b.w)
}

/// Exact component-wise difference.
pub open spec fn spec_sub(a: Tuple, b: Tuple) -> (int, int, int, int) {
    (a.x - b.x, a.y - b.y, a.z - b.z, a.w - b.w)
}

/// Fixed-point dot product of the spatial components.
pub open spec fn spec_dot(a: Tuple, b: Tuple) -> int {
    fx_dot4_s(a.x as int, a.y as int, a.z as int, 0, b.x as int, b.y as int, b.z as int, 0)
}

/// Squared length of the spatial components, exactly, in squared units.
pub open spec fn spec_mag_sq(t: Tuple) -> int {
    (t.x as int) * (t.x as int) + (t.y as int) * (t.y as int) + (t.z as int) * (t.z as int)
}

/// Fixed-point length: the floored square root of the exact squared
/// length.
pub open spec fn spec_magnitude(t: Tuple) -> int {
    sqrt_floor(spec_mag_sq(t))
}

impl Tuple {
    pub fn new(x: i64, y: i64, z: i64, w: i64) -> (r: Self)
        ensures
            r == (Tuple { x, y, z, w }),
    {
        Tuple { x, y, z, w }
    }

    /// A point: `w` is fixed at 1.0.
    pub fn point(x: i64, y: i64, z: i64) -> (r: Self)
        ensures
            r == (Tuple { x, y, z, w: SCALE }),
            is_point(r),
    {
        Tuple { x, y, z, w: SCALE }
    }

    /// A free vector: `w` is fixed at 0.0.
    pub fn vector(x: i64, y: i64, z: i64) -> (r: Self)
        ensures
            r == (Tuple { x, y, z, w: 0 }),
            is_vector(r),
    {
        Tuple { x, y, z, w: 0 }
    }

    pub fn x(&self) -> (r: i64)
        ensures
            r == self.x,
    {
        self.x
    }

    pub fn y(&self) -> (r: i64)
        ensures
            r == self.y,
    {
        self.y
    }

    pub fn z(&self) -> (r: i64)
        ensures
            r == self.z,
    {
        self.z
    }

    pub fn w(&self) -> (r: i64)
        ensures
            r == self.w,
    {
        self.w
    }

    /// Component-wise sum; `w` adds too, so point + vector is a point and
    /// vector + vector is a vector.
    pub fn add(&self, rhs: Self) -> (r: Self)
        requires
            tuple_within(*self, ADD_MAX as int),
            tuple_within(rhs, ADD_MAX as int),
        ensures
            (r.x as int, r.y as int, r.z as int, r.w as int) == spec_add(*self, rhs),
    {
        Tuple { x: self.x + rhs.x, y: self.y + rhs.y, z: self.z + rhs.z, w: self.w + rhs.w }
    }

    /// Component-wise difference; point - point is a vector.
    pub fn sub(&self, rhs: Self) -> (r: Self)
        requires
            tuple_within(*self, ADD_MAX as int),
            tuple_within(rhs, ADD_MAX as int),
        ensures
            (r.x as int, r.y as int, r.z as int, r.w as int) == spec_sub(*self, rhs),
    {
        Tuple { x: self.x - rhs.x, y: self.y - rhs.y, z: self.z - rhs.z, w: self.w - rhs.w }
    }

    /// Component-wise negation, `w` included.
    pub fn neg(&self) -> (r: Self)
        requires
            tuple_within(*self, ADD_MAX as int),
        ensures
            r.x as int == -(self.x as int),
            r.y as int == -(self.y as int),
            r.z as int == -(self.z as int),
            r.w as int == -(self.w as int),
    {
        Tuple { x: -self.x, y: -self.y, z: -self.z, w: -self.w }
    }

    /// Scalar product on the spatial components; `w` is preserved.
    pub fn mul_scalar(&self, rhs: i64) -> (r: Self)
        requires
            tuple_within(*self, MUL_MAX as int),
            within(rhs as int, MUL_MAX as int),
        ensures
            r.x as int == fx_mul_s(self.x as int, rhs as int),
            r.y as int == fx_mul_s(self.y as int, rhs as int),
            r.z as int == fx_mul_s(self.z as int, rhs as int),
            r.w == self.w,
    {
        Tuple {
            x: fx_mul(self.x, rhs),
            y: fx_mul(self.y, rhs),
            z: fx_mul(self.z, rhs),
            w: self.w,
        }
    }

    /// Scalar quotient on the spatial components; `w` is preserved.
    pub fn div_scalar(&self, rhs: i64) -> (r: Self)
        requires
            rhs != 0,
            tuple_within(*self, MUL_MAX as int),
        ensures
            r.x as int == fx_div_s(self.x as int, rhs as int),
            r.y as int == fx_div_s(self.y as int, rhs as int),
            r.z as int == fx_div_s(self.z as int, rhs as int),
            r.w == self.w,
    {
        Tuple {
            x: fx_div(self.x, rhs),
            y: fx_div(self.y, rhs),
            z: fx_div(self.z, rhs),
            w: self.w,
        }
    }

    /// Cross product of the spatial components; `w` is taken from the
    /// left operand.
    pub fn cross(&self, rhs: Self) -> (r: Self)
        requires
            tuple_within(*self, MUL_MAX as int),
            tuple_within(rhs, MUL_MAX as int),
        ensures
            r.x as int == fx_mul_s(self.y as int, rhs.z as int) - fx_mul_s(
                self.z as int,
                rhs.y as int,
            ),
            r.y as int == fx_mul_s(self.z as int, rhs.x as int) - fx_mul_s(
                self.x as int,
                rhs.z as int,
            ),
            r.z as int == fx_mul_s(self.x as int, rhs.y as int) - fx_mul_s(
                self.y as int,
                rhs.x as int,
            ),
            r.w == self.w,
    {
        Tuple {
            x: fx_mul(self.y, rhs.z) - fx_mul(self.z, rhs.y),
            y: fx_mul(self.z, rhs.x) - fx_mul(self.x, rhs.z),
            z: fx_mul(self.x, rhs.y) - fx_mul(self.y, rhs.x),
            w: self.w,
        }
    }

    /// Dot product of the spatial components.
    pub fn dot(&self, other: Self) -> (r: i64)
        requires
            tuple_within(*self, MUL_MAX as int),
            tuple_within(other, MUL_MAX as int),
        ensures
            r as int == spec_dot(*self, other),
            within(r as int, 4_000_000_000_000_000_000),
    {
        fx_dot4(self.x, self.y, self.z, 0, other.x, other.y, other.z, 0)
    }

    /// Length of the spatial components, floored to the unit grid.
    pub fn magnitude(&self) -> (r: i64)
        requires
            tuple_within(*self, NORM_MAX as int),
        ensures
            r as int == spec_magnitude(*self),
            0 <= r,
            r == 0 <==> self.x == 0 && self.y == 0 && self.z == 0,
            (r as int) * (r as int) <= spec_mag_sq(*self),
            spec_mag_sq(*self) < (r as int + 1) * (r as int + 1),
    {
        proof {
            lemma_mul_bounded(self.x as int, self.x as int, NORM_MAX as int, NORM_MAX as int);
            lemma_mul_bounded(self.y as int, self.y as int, NORM_MAX as int, NORM_MAX as int);
            lemma_mul_bounded(self.z as int, self.z as int, NORM_MAX as int, NORM_MAX as int);
            assert(0 <= (self.x as int) * (self.x as int)) by (nonlinear_arith);
            assert(0 <= (self.y as int) * (self.y as int)) by (nonlinear_arith);
            assert(0 <= (self.z as int) * (self.z as int)) by (nonlinear_arith);
        }
        let sq: i128 = (self.x as i128) * (self.x as i128) + (self.y as i128) * (self.y as i128) + (
        self.z as i128) * (self.z as i128);
        let root: u128 = isqrt(sq as u128);
        proof {
            lemma_sqrt_floor_unique(sq as int, root as int);
            if self.x == 0 && self.y == 0 && self.z == 0 {
                assert(sq == 0);
                assert((root as int) * (root as int) <= 0);
                assert(root == 0) by (nonlinear_arith)
                    requires
                        (root as int) * (root as int) <= 0,
                        0 <= root as int,
                ;
            } else {
                assert(1 <= sq as int) by (nonlinear_arith)
                    requires
                        sq as int == (self.x as int) * (self.x as int) + (self.y as int) * (
                        self.y as int) + (self.z as int) * (self.z as int),
                        !(self.x == 0 && self.y == 0 && self.z == 0),
                ;
                assert(root != 0) by (nonlinear_arith)
                    requires
                        1 <= sq as int,
                        (sq as int) < (root as int + 1) * (root as int + 1),
                        0 <= root as int,
                ;
            }
        }
        root as i64
    }

    /// Unit-length rescale of a nonzero vector; the zero vector is
    /// returned unchanged, and `w` is preserved.
    pub fn normalize(&self) -> (r: Self)
        requires
            tuple_within(*self, NORM_MAX as int),
        ensures
            self.x == 0 && self.y == 0 && self.z == 0 ==> r == *self,
            !(self.x == 0 && self.y == 0 && self.z == 0) ==> {
                &&& r.x as int == fx_div_s(self.x as int, spec_magnitude(*self))
                &&& r.y as int == fx_div_s(self.y as int, spec_magnitude(*self))
                &&& r.z as int == fx_div_s(self.z as int, spec_magnitude(*self))
                &&& r.w == self.w
                &&& within(r.x as int, SCALE as int)
                &&& within(r.y as int, SCALE as int)
                &&& within(r.z as int, SCALE as int)
            },
    {
        let mag = self.magnitude();
        if mag != 0 {
            proof {
                assert({
                    &&& within(self.x as int, mag as int)
                    &&& within(self.y as int, mag as int)
                    &&& within(self.z as int, mag as int)
                }) by (nonlinear_arith)
                    requires
                        spec_mag_sq(*self) < (mag as int + 1) * (mag as int + 1),
                        0 <= mag as int,
                        spec_mag_sq(*self) == (self.x as int) * (self.x as int) + (self.y as int)
                            * (self.y as int) + (self.z as int) * (self.z as int),
                ;
                crate::fixed::lemma_div_floor_exact_bound(
                    (self.x as int) * (SCALE as int),
                    mag as int,
                    SCALE as int,
                );
                crate::fixed::lemma_div_floor_exact_bound(
                    (self.y as int) * (SCALE as int),
                    mag as int,
                    SCALE as int,
                );
                crate::fixed::lemma_div_floor_exact_bound(
                    (self.z as int) * (SCALE as int),
                    mag as int,
                    SCALE as int,
                );
            }
            let x = floor_div((self.x as i128) * (SCALE as i128), mag as i128) as i64;
            let y = floor_div((self.y as i128) * (SCALE as i128), mag as i128) as i64;
            let z = floor_div((self.z as i128) * (SCALE as i128), mag as i128) as i64;
            Tuple { x, y, z, w: self.w }
        } else {
            *self
        }
    }

    /// Runtime check that all four components lie within
    /// `[-bound, bound]`.
    pub fn components_within(&self, bound: i64) -> (r: bool)
        requires
            0 <= bound,
        ensures
            r == tuple_within(*self, bound as int),
    {
        -bound <= self.x && self.x <= bound && -bound <= self.y && self.y <= bound && -bound
            <= self.z && self.z <= bound && -bound <= self.w && self.w <= bound
    }

    /// Reflection of `self` about the surface normal `normal`:
    /// `self - normal * 2 * dot(self, normal)`.
    pub fn reflect(&self, normal: Self) -> (r: Self)
        requires
            tuple_within(*self, COORD_MAX as int),
            tuple_within(normal, COORD_MAX as int),
        ensures
            r.x as int == self.x as int - fx_mul_s(
                2 * spec_dot(*self, normal),
                normal.x as int,
            ),
            r.y as int == self.y as int - fx_mul_s(
                2 * spec_dot(*self, normal),
                normal.y as int,
            ),
            r.z as int == self.z as int - fx_mul_s(
                2 * spec_dot(*self, normal),
                normal.z as int,
            ),
            r.w == self.w,
    {
        proof {
            lemma_mul_bounded(self.x as int, normal.x as int, COORD_MAX as int, COORD_MAX as int);
            lemma_mul_bounded(self.y as int, normal.y as int, COORD_MAX as int, COORD_MAX as int);
            lemma_mul_bounded(self.z as int, normal.z as int, COORD_MAX as int, COORD_MAX as int);
            crate::fixed::lemma_div_floor_bounded(
                (self.x as int) * (normal.x as int) + (self.y as int) * (normal.y as int) + (
                self.z as int) * (normal.z as int),
                SCALE as int,
                270_000_000_000_000_000int,
            );
        }
        let d: i64 = self.dot(normal);
        let twice: i64 = 2 * d;
        Tuple {
            x: self.x - fx_mul(twice, normal.x),
            y: self.y - fx_mul(twice, normal.y),
            z: self.z - fx_mul(twice, normal.z),
            w: self.w,
        }
    }
}

impl PartialEq for Tuple {
    /// Approximate equality at the standard tolerance, over all four
    /// components; `w` separates points from vectors, so it compares too.
    fn eq(&self, compare_to: &Self) -> (r: bool) {
        approx_eq_epsilon(self.x, compare_to.x, EPSILON) && approx_eq_epsilon(
            self.y,
            compare_to.y,
            EPSILON,
        ) && approx_eq_epsilon(self.z, compare_to.z, EPSILON) && approx_eq_epsilon(
            self.w,
            compare_to.w,
            EPSILON,
        )
    }
}

impl vstd::std_specs::cmp::PartialEqSpecImpl for Tuple {
    open spec fn obeys_eq_spec() -> bool {
        true
    }

    open spec fn eq_spec(&self, other: &Tuple) -> bool {
        approx_eq_s(self.x as int, other.x as int, EPSILON as int) && approx_eq_s(
            self.y as int,
            other.y as int,
            EPSILON as int,
        ) && approx_eq_s(self.z as int, other.z as int, EPSILON as int) && approx_eq_s(
            self.w as int,
            other.w as int,
            EPSILON as int,
        )
    }
}

impl crate::transformation::Transform for Tuple {
    /// Mapping a tuple through a matrix is the matrix-tuple product.
    open spec fn spec_transform(self, m: crate::matrices::Matrix4) -> Tuple {
        crate::matrices::spec_mat_tuple(m, self)
    }

    open spec fn transform_ok(self, m: crate::matrices::Matrix4) -> bool {
        crate::matrices::spec_entries_within4(m, MUL_MAX as int) && tuple_within(
            self,
            MUL_MAX as int,
        )
    }

    fn transform(self, transformation: &crate::matrices::Matrix4) -> (r: Tuple) {
        transformation.mul_tuple(&self)
    }
}

/// A point moved by a vector is a point: the `w` components 1.0 and 0.0
/// add to 1.0.
pub proof fn lemma_point_plus_vector_is_point(p: Tuple, v: Tuple)
    requires
        is_point(p),
        is_vector(v),
    ensures
        spec_add(p, v).3 == SCALE,
{
}

/// The sum of two vectors is a vector: the `w` components stay 0.0.
pub proof fn lemma_vector_plus_vector_is_vector(a: Tuple, b: Tuple)
    requires
        is_vector(a),
        is_vector(b),
    ensures
        spec_add(a, b).3 == 0,
{
}

/// The difference of two points is a vector: the `w` components cancel.
pub proof fn lemma_point_minus_point_is_vector(a: Tuple, b: Tuple)
    requires
        is_point(a),
        is_point(b),
    ensures
        spec_sub(a, b).3 == 0,
{
}

} // verus!
