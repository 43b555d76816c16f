//! The unit sphere: defined in object space as centered at the origin
//! with radius one; every other sphere is this one composed with the
//! carried transform.  Intersection solves the quadratic on exact
//! integer numerators and rounds each reported `t` once.

use vstd::prelude::*;

verus! {

use crate::fixed::{
    div_floor, floor_div, fx_div_s, isqrt, lemma_div_floor_exact_bound, lemma_mul_bounded,
    lemma_sqrt_floor_props, lemma_sqrt_floor_unique, sqrt_floor,
    within, COORD_MAX, MUL_MAX, NORM_MAX, QUAD_MAX, SCALE, T_MAX,
};
use crate::intersection::Intersection;
use crate::materials::Material;
use crate::matrices::{
    spec_entries_within4, spec_inv_within, spec_inverse4, spec_invertible, spec_mat_tuple,
    spec_matmul, spec_mv_within, spec_transpose4, Matrix4, SCALE_SQ,
};
use crate::ray::{spec_ray_transform, Ray};
use crate::shapes::shape_enum::{RayInteractable, Shape};
use crate::transformation::Transform;
use crate::tuple::{spec_mag_sq, tuple_within, Tuple};

/// A sphere: the unit sphere composed with a transform, plus a surface
/// material.
#[derive(Clone, Copy, Debug)]
pub struct Sphere {
    pub transform: Matrix4,
    pub material: Material,
}

/// Rays this module accepts: both tuples on the coordinate range.
pub open spec fn spec_sphere_ray_ok(ray: Ray) -> bool {
    tuple_within(ray.origin, COORD_MAX as int) && tuple_within(ray.direction, COORD_MAX as int)
}

/// Points this module accepts for normals.
pub open spec fn spec_sphere_point_ok(point: Tuple) -> bool {
    tuple_within(point, MUL_MAX as int)
}

/// The sphere's transform is in range and has a representable inverse.
pub open spec fn spec_sphere_invertible(s: Sphere) -> bool {
    &&& spec_entries_within4(s.transform, COORD_MAX as int)
    &&& spec_invertible(s.transform)
    &&& spec_inv_within(s.transform)
}

/// The object-space ray: the world ray mapped through the inverse
/// transform.
pub open spec fn spec_object_ray(s: Sphere, ray: Ray) -> Ray {
    spec_ray_transform(ray, spec_inverse4(s.transform))
}

/// Both object-space tuples stay on the quadratic's supported range,
/// judged on the exact products before any cast.
pub open spec fn spec_sphere_obj_ray_ok(s: Sphere, ray: Ray) -> bool {
    &&& spec_mv_within(spec_inverse4(s.transform), ray.origin, QUAD_MAX as int)
    &&& spec_mv_within(spec_inverse4(s.transform), ray.direction, QUAD_MAX as int)
}

/// Exact `a` of the object-space quadratic `at^2 + bt + c = 0`:
/// the squared length of the object-space direction, in squared units.
pub open spec fn spec_a_num(s: Sphere, ray: Ray) -> int {
    spec_mag_sq(spec_object_ray(s, ray).direction)
}

/// Exact `b`: twice the object-space direction-origin dot product.
pub open spec fn spec_b_num(s: Sphere, ray: Ray) -> int {
    let or = spec_object_ray(s, ray);
    2 * ((or.direction.x as int) * (or.origin.x as int) + (or.direction.y as int) * (
    or.origin.y as int) + (or.direction.z as int) * (or.origin.z as int))
}

/// Exact `c`: the squared length of the object-space origin minus one.
pub open spec fn spec_c_num(s: Sphere, ray: Ray) -> int {
    spec_mag_sq(spec_object_ray(s, ray).origin) - (SCALE_SQ as int)
}

/// Exact discriminant `b^2 - 4ac` of the object-space quadratic.
pub open spec fn spec_sphere_disc(s: Sphere, ray: Ray) -> int {
    spec_b_num(s, ray) * spec_b_num(s, ray) - 4 * (spec_a_num(s, ray) * spec_c_num(s, ray))
}

/// The nearer root `(-b - sqrt(disc)) / 2a`, floored once to units with
/// the discriminant's root floored to units.
pub open spec fn spec_sphere_root1(s: Sphere, ray: Ray) -> int {
    div_floor(
        (-spec_b_num(s, ray) - sqrt_floor(spec_sphere_disc(s, ray))) * (SCALE as int),
        2 * spec_a_num(s, ray),
    )
}

/// The farther root `(-b + sqrt(disc)) / 2a`, floored the same way.
pub open spec fn spec_sphere_root2(s: Sphere, ray: Ray) -> int {
    div_floor(
        (-spec_b_num(s, ray) + sqrt_floor(spec_sphere_disc(s, ray))) * (SCALE as int),
        2 * spec_a_num(s, ray),
    )
}

/// All machine-range conditions under which the quadratic is decided,
/// named apart from a geometric miss so a caller can tell the two empty
/// outcomes apart: the transform is in range with a representable
/// inverse, the object-space ray stays on the quadratic's range, the
/// direction does not vanish, and the roots (when the ray hits) fit the
/// parameter range.
pub open spec fn spec_sphere_supported(s: Sphere, ray: Ray) -> bool {
    &&& spec_sphere_invertible(s)
    &&& spec_sphere_obj_ray_ok(s, ray)
    &&& spec_a_num(s, ray) != 0
    &&& (spec_sphere_disc(s, ray) >= 0 ==> within(spec_sphere_root1(s, ray), T_MAX as int)
        && within(spec_sphere_root2(s, ray), T_MAX as int))
}

/// A true geometric miss: negative discriminant.
pub open spec fn spec_sphere_misses(s: Sphere, ray: Ray) -> bool {
    spec_sphere_disc(s, ray) < 0
}

/// The two ray parameters at which a ray meets the sphere, or nothing:
/// nothing outside the supported machine ranges
/// (`spec_sphere_supported`), nothing on a geometric miss
/// (`spec_sphere_misses`), otherwise exactly the two floored roots of
/// `|O + tD|^2 = 1` in object space.
pub open spec fn spec_sphere_ts(s: Sphere, ray: Ray) -> Seq<int> {
    if !spec_sphere_supported(s, ray) {
        Seq::empty()
    } else if spec_sphere_misses(s, ray) {
        Seq::empty()
    } else {
        seq![spec_sphere_root1(s, ray), spec_sphere_root2(s, ray)]
    }
}

/// The intersections a ray finds on a sphere: the two parameters of
/// `spec_sphere_ts`, each tagged with the sphere.
pub open spec fn spec_sphere_hits(s: Sphere, ray: Ray) -> Seq<Intersection> {
    spec_sphere_ts(s, ray).map_values(
        |t: int| Intersection { t: t as i64, object: Shape::Sphere(s) },
    )
}

/// Within the supported ranges, the empty result means exactly a
/// geometric miss, and a hit always carries both roots; outside them
/// the result is always empty.
pub proof fn lemma_sphere_outcome(s: Sphere, ray: Ray)
    ensures
        spec_sphere_supported(s, ray) && !spec_sphere_misses(s, ray) ==> spec_sphere_hits(
            s,
            ray,
        ).len() == 2,
        spec_sphere_supported(s, ray) && spec_sphere_misses(s, ray) ==> spec_sphere_hits(
            s,
            ray,
        ).len() == 0,
        !spec_sphere_supported(s, ray) ==> spec_sphere_hits(s, ray).len() == 0,
{
}

/// The object-space surface normal: the object-space point, itself,
/// normalized; its `w` is the object point's minus one.
pub open spec fn spec_object_normal(s: Sphere, world_point: Tuple) -> Tuple {
    let op = spec_mat_tuple(spec_inverse4(s.transform), world_point);
    let ox = op.x as int;
    let oy = op.y as int;
    let oz = op.z as int;
    let mag1 = sqrt_floor(ox * ox + oy * oy + oz * oz);
    let zero1 = ox == 0 && oy == 0 && oz == 0;
    Tuple {
        x: (if zero1 {
            ox
        } else {
            fx_div_s(ox, mag1)
        }) as i64,
        y: (if zero1 {
            oy
        } else {
            fx_div_s(oy, mag1)
        }) as i64,
        z: (if zero1 {
            oz
        } else {
            fx_div_s(oz, mag1)
        }) as i64,
        w: (op.w - SCALE) as i64,
    }
}

/// All machine-range conditions under which the normal is computed: the
/// transform is in range with a representable inverse, the object-space
/// point stays on the quadratic's range, and the unnormalized world
/// normal stays on the normalization range.
pub open spec fn spec_sphere_normal_supported(s: Sphere, world_point: Tuple) -> bool {
    &&& spec_sphere_invertible(s)
    &&& spec_mv_within(spec_inverse4(s.transform), world_point, QUAD_MAX as int)
    &&& spec_mv_within(
        spec_transpose4(spec_inverse4(s.transform)),
        spec_object_normal(s, world_point),
        NORM_MAX as int,
    )
}

/// The surface normal at a world point: the point is carried into
/// object space, the object normal there is the point itself
/// normalized, and it returns to world space through the transpose of
/// the inverse transform, with `w` forced to zero and a final
/// normalization.  Outside the supported machine ranges
/// (`spec_sphere_normal_supported`) the point is returned unchanged,
/// the fallback the singular-transform case calls for.
pub open spec fn spec_sphere_normal(s: Sphere, world_point: Tuple) -> Tuple {
    if !spec_sphere_normal_supported(s, world_point) {
        world_point
    } else {
        let inv = spec_inverse4(s.transform);
        let wn = spec_mat_tuple(spec_transpose4(inv), spec_object_normal(s, world_point));
        let wx = wn.x as int;
        let wy = wn.y as int;
        let wz = wn.z as int;
        let mag2 = sqrt_floor(wx * wx + wy * wy + wz * wz);
        let zero2 = wx == 0 && wy == 0 && wz == 0;
        Tuple {
            x: (if zero2 {
                wx
            } else {
                fx_div_s(wx, mag2)
            }) as i64,
            y: (if zero2 {
                wy
            } else {
                fx_div_s(wy, mag2)
            }) as i64,
            z: (if zero2 {
                wz
            } else {
                fx_div_s(wz, mag2)
            }) as i64,
            w: 0,
        }
    }
}

/// Within the supported ranges the normal is a unit-grid direction:
/// `w` is zero and every component lies within one.  Each component is
/// a single floor away from the exact quotient by the vector's length,
/// so the magnitude sits just under one; an exact unit magnitude cannot
/// hold on a fixed grid.
pub proof fn lemma_sphere_normal_unit_box(s: Sphere, world_point: Tuple)
    requires
        spec_sphere_normal_supported(s, world_point),
    ensures
        spec_sphere_normal(s, world_point).w == 0,
        within(spec_sphere_normal(s, world_point).x as int, SCALE as int),
        within(spec_sphere_normal(s, world_point).y as int, SCALE as int),
        within(spec_sphere_normal(s, world_point).z as int, SCALE as int),
{
    let inv = spec_inverse4(s.transform);
    let wn = spec_mat_tuple(spec_transpose4(inv), spec_object_normal(s, world_point));
    let wx = wn.x as int;
    let wy = wn.y as int;
    let wz = wn.z as int;
    let n = wx * wx + wy * wy + wz * wz;
    let mag2 = sqrt_floor(n);
    if !(wx == 0 && wy == 0 && wz == 0) {
        assert(1 <= n) by (nonlinear_arith)
            requires
                n == wx * wx + wy * wy + wz * wz,
                !(wx == 0 && wy == 0 && wz == 0),
        ;
        lemma_sqrt_floor_props(n);
        assert({
            &&& within(wx, mag2)
            &&& within(wy, mag2)
            &&& within(wz, mag2)
            &&& 0 < mag2
        }) by (nonlinear_arith)
            requires
                n == wx * wx + wy * wy + wz * wz,
                1 <= n,
                n < (mag2 + 1) * (mag2 + 1),
                0 <= mag2,
        ;
        lemma_div_floor_exact_bound(wx * (SCALE as int), mag2, SCALE as int);
        lemma_div_floor_exact_bound(wy * (SCALE as int), mag2, SCALE as int);
        lemma_div_floor_exact_bound(wz * (SCALE as int), mag2, SCALE as int);
    }
}

impl Sphere {
    /// The unit sphere: identity transform, default material.
    pub fn new() -> (r: Self)
        ensures
            r.transform == crate::matrices::spec_identity(),
            r.material == crate::materials::spec_default_material(),
    {
        Sphere { transform: Matrix4::identity_matrix(), material: Material::new() }
    }

    pub fn with_transform(self, transform: Matrix4) -> (r: Self)
        ensures
            r == (Sphere { transform, material: self.material }),
    {
        Sphere { transform, material: self.material }
    }

    pub fn with_material(self, material: Material) -> (r: Self)
        ensures
            r == (Sphere { transform: self.transform, material }),
    {
        Sphere { transform: self.transform, material }
    }
}

impl RayInteractable for Sphere {
    open spec fn spec_hits(&self, ray: Ray) -> Seq<Intersection> {
        spec_sphere_hits(*self, ray)
    }

    open spec fn hits_ok(&self, ray: Ray) -> bool {
        spec_sphere_ray_ok(ray)
    }

    fn intersect(&self, ray: Ray) -> (r: Vec<Intersection>) {
        if !self.transform.entries_within(COORD_MAX) {
            return Vec::new();
        }
        let inv = match self.transform.inverse() {
            Some(m) => m,
            None => {
                return Vec::new();
            },
        };
        let o = match inv.mul_tuple_checked(&ray.origin, QUAD_MAX) {
            Some(t) => t,
            None => {
                return Vec::new();
            },
        };
        let d = match inv.mul_tuple_checked(&ray.direction, QUAD_MAX) {
            Some(t) => t,
            None => {
                return Vec::new();
            },
        };
        let dx = d.x as i128;
        let dy = d.y as i128;
        let dz = d.z as i128;
        let ox = o.x as i128;
        let oy = o.y as i128;
        let oz = o.z as i128;
        proof {
            lemma_mul_bounded(dx as int, dx as int, QUAD_MAX as int, QUAD_MAX as int);
            lemma_mul_bounded(dy as int, dy as int, QUAD_MAX as int, QUAD_MAX as int);
            lemma_mul_bounded(dz as int, dz as int, QUAD_MAX as int, QUAD_MAX as int);
            lemma_mul_bounded(ox as int, ox as int, QUAD_MAX as int, QUAD_MAX as int);
            lemma_mul_bounded(oy as int, oy as int, QUAD_MAX as int, QUAD_MAX as int);
            lemma_mul_bounded(oz as int, oz as int, QUAD_MAX as int, QUAD_MAX as int);
            lemma_mul_bounded(dx as int, ox as int, QUAD_MAX as int, QUAD_MAX as int);
            lemma_mul_bounded(dy as int, oy as int, QUAD_MAX as int, QUAD_MAX as int);
            lemma_mul_bounded(dz as int, oz as int, QUAD_MAX as int, QUAD_MAX as int);
        }
        let a: i128 = dx * dx + dy * dy + dz * dz;
        if a == 0 {
            return Vec::new();
        }
        let b: i128 = 2 * (dx * ox + dy * oy + dz * oz);
        let c: i128 = ox * ox + oy * oy + oz * oz - (SCALE_SQ as i128);
        proof {
            lemma_mul_bounded(
                b as int,
                b as int,
                6_000_000_000_000_000_000,
                6_000_000_000_000_000_000,
            );
            lemma_mul_bounded(
                a as int,
                c as int,
                3_000_000_000_000_000_000,
                3_001_000_000_000_000_000,
            );
        }
        let disc: i128 = b * b - 4 * (a * c);
        if disc < 0 {
            return Vec::new();
        }
        let sq_u: u128 = isqrt(disc as u128);
        let sq: i128 = sq_u as i128;
        proof {
            lemma_sqrt_floor_unique(disc as int, sq as int);
            assert(0 < a && 0 < 2 * (a as int)) by (nonlinear_arith)
                requires
                    a as int == (dx as int) * (dx as int) + (dy as int) * (dy as int) + (
                    dz as int) * (dz as int),
                    a != 0,
            ;
        }
        let two_a: i128 = 2 * a;
        let t1i: i128 = floor_div((-b - sq) * (SCALE as i128), two_a);
        let t2i: i128 = floor_div((-b + sq) * (SCALE as i128), two_a);
        if t1i < -(T_MAX as i128) || t1i > T_MAX as i128 || t2i < -(T_MAX as i128) || t2i
            > T_MAX as i128 {
            return Vec::new();
        }
        let i1 = Intersection { t: t1i as i64, object: Shape::Sphere(*self) };
        let i2 = Intersection { t: t2i as i64, object: Shape::Sphere(*self) };
        let mut v: Vec<Intersection> = Vec::new();
        v.push(i1);
        v.push(i2);
        proof {
            assert(v@ =~= spec_sphere_hits(*self, ray)) by {
                assert(spec_sphere_ts(*self, ray) =~= seq![t1i as int, t2i as int]);
            }
        }
        v
    }

    open spec fn spec_normal(&self, point: Tuple) -> Tuple {
        spec_sphere_normal(*self, point)
    }

    open spec fn normal_ok(&self, point: Tuple) -> bool {
        spec_sphere_point_ok(point)
    }

    fn normal_at(&self, point: Tuple) -> (r: Tuple) {
        if !self.transform.entries_within(COORD_MAX) {
            return point;
        }
        let inv = match self.transform.inverse() {
            Some(m) => m,
            None => {
                return point;
            },
        };
        let object_point = match inv.mul_tuple_checked(&point, QUAD_MAX) {
            Some(t) => t,
            None => {
                return point;
            },
        };
        let object_normal = object_point.sub(Tuple::point(0, 0, 0)).normalize();
        let tinv = inv.transpose();
        proof {
            assert(object_normal == spec_object_normal(*self, point));
        }
        let world_normal0 = match tinv.mul_tuple_checked(&object_normal, NORM_MAX) {
            Some(t) => t,
            None => {
                return point;
            },
        };
        let world_normal = Tuple {
            x: world_normal0.x,
            y: world_normal0.y,
            z: world_normal0.z,
            w: 0,
        };
        let r = world_normal.normalize();
        proof {
            assert(r == spec_sphere_normal(*self, point));
        }
        r
    }

    open spec fn spec_material(&self) -> Material {
        self.material
    }

    fn material(&self) -> (r: Material) {
        self.material
    }
}

impl PartialEq for Sphere {
    /// Spheres compare by transform and material, not identity.
    fn eq(&self, other: &Self) -> (r: bool) {
        self.transform == other.transform && self.material == other.material
    }
}

impl vstd::std_specs::cmp::PartialEqSpecImpl for Sphere {
    open spec fn obeys_eq_spec() -> bool {
        true
    }

    open spec fn eq_spec(&self, other: &Sphere) -> bool {
        crate::matrices::spec_matrix_approx_eq(self.transform, other.transform)
            && crate::materials::spec_material_eq(self.material, other.material)
    }
}

impl Transform for Sphere {
    /// Mapping a sphere through a matrix pre-multiplies its transform.
    open spec fn spec_transform(self, m: Matrix4) -> Sphere {
        Sphere { transform: spec_matmul(m, self.transform), material: self.material }
    }

    open spec fn transform_ok(self, m: Matrix4) -> bool {
        spec_entries_within4(m, MUL_MAX as int) && spec_entries_within4(
            self.transform,
            MUL_MAX as int,
        )
    }

    fn transform(self, transformation: &Matrix4) -> (r: Sphere) {
        Sphere {
            transform: transformation.multiply(&self.transform),
            material: self.material,
        }
    }
}

} // verus!
