//! Rays: an origin point and a direction vector, with parametric
//! position along the ray and remapping through a matrix.

use vstd::prelude::*;

verus! {

use crate::fixed::{floor_div, fx_mul_s, lemma_div_floor_mag, within, COORD_MAX, MUL_MAX, SCALE, T_MAX};
use crate::matrices::{spec_entries_within4, spec_mat_tuple, Matrix4};
use crate::transformation::Transform;
use crate::tuple::{tuple_within, Tuple};

/// An origin point and a direction vector.
#[derive(Clone, Copy, Debug)]
pub struct Ray {
    pub origin: Tuple,
    pub direction: Tuple,
}

/// Component `c` of `origin + direction * t`, exactly.
pub open spec fn spec_position_comp(o: int, d: int, t: int) -> int {
    o + fx_mul_s(d, t)
}

/// Both ends of the ray mapped through a matrix.
pub open spec fn spec_ray_transform(r: Ray, m: Matrix4) -> Ray {
    Ray { origin: spec_mat_tuple(m, r.origin), direction: spec_mat_tuple(m, r.direction) }
}

impl Ray {
    pub fn new(o: Tuple, d: Tuple) -> (r: Self)
        ensures
            r == (Ray { origin: o, direction: d }),
    {
        Ray { origin: o, direction: d }
    }

    /// The point at parameter `t`: `origin + direction * t`, each
    /// spatial component floored once; `w` is the origin's.
    pub fn position(&self, t: i64) -> (r: Tuple)
        requires
            tuple_within(self.origin, COORD_MAX as int),
            tuple_within(self.direction, COORD_MAX as int),
            within(t as int, T_MAX as int),
        ensures
            r.x as int == spec_position_comp(self.origin.x as int, self.direction.x as int, t as int),
            r.y as int == spec_position_comp(self.origin.y as int, self.direction.y as int, t as int),
            r.z as int == spec_position_comp(self.origin.z as int, self.direction.z as int, t as int),
            r.w == self.origin.w,
    {
        let x = self.origin.x + scaled_step(self.direction.x, t);
        let y = self.origin.y + scaled_step(self.direction.y, t);
        let z = self.origin.z + scaled_step(self.direction.z, t);
        Tuple { x, y, z, w: self.origin.w }
    }

    /// The ray with origin and direction both remapped by the matrix;
    /// a direction's `w` of 0.0 cancels the matrix's fourth column, so
    /// only the linear part reaches it.
    pub fn transformation(&self, transform: &Matrix4) -> (r: Self)
        requires
            spec_entries_within4(*transform, MUL_MAX as int),
            tuple_within(self.origin, MUL_MAX as int),
            tuple_within(self.direction, MUL_MAX as int),
        ensures
            r == spec_ray_transform(*self, *transform),
    {
        Ray {
            origin: transform.mul_tuple(&self.origin),
            direction: transform.mul_tuple(&self.direction),
        }
    }
}

/// One scaled product `d * t / SCALE` on the wide range a ray parameter
/// needs.
fn scaled_step(d: i64, t: i64) -> (r: i64)
    requires
        within(d as int, COORD_MAX as int),
        within(t as int, T_MAX as int),
    ensures
        r as int == fx_mul_s(d as int, t as int),
        within(r as int, 3_000_000_000_000_000_001),
{
    proof {
        crate::fixed::lemma_mul_bounded(d as int, t as int, COORD_MAX as int, T_MAX as int);
        lemma_div_floor_mag(
            (d as int) * (t as int),
            SCALE as int,
            3_000_000_000_000_000_000_000_000,
        );
    }
    let p: i128 = (d as i128) * (t as i128);
    let q: i128 = floor_div(p, SCALE as i128);
    q as i64
}

impl Transform for Ray {
    /// Mapping a ray through a matrix remaps both of its tuples.
    open spec fn spec_transform(self, m: Matrix4) -> Ray {
        spec_ray_transform(self, m)
    }

    open spec fn transform_ok(self, m: Matrix4) -> bool {
        spec_entries_within4(m, MUL_MAX as int) && tuple_within(self.origin, MUL_MAX as int)
            && tuple_within(self.direction, MUL_MAX as int)
    }

    fn transform(self, transformation: &Matrix4) -> (r: Self) {
        self.transformation(transformation)
    }
}

} // verus!
