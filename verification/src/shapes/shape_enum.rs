//! The tagged set of shape variants; every call site matches
//! exhaustively, so adding a variant updates every match.

use vstd::prelude::*;

verus! {

use crate::intersection::Intersection;
use crate::materials::Material;
use crate::ray::Ray;
use crate::shapes::sphere::{
    spec_sphere_hits, spec_sphere_normal, spec_sphere_ray_ok, spec_sphere_point_ok, Sphere,
};
use crate::tuple::Tuple;

/// What a shape offers a ray: intersection, a surface normal, and a
/// material; the impl names its model and the input range it supports.
pub trait RayInteractable {
    /// The intersections in the model.
    spec fn spec_hits(&self, ray: Ray) -> Seq<Intersection>;

    /// Rays for which the intersection stays within machine range.
    spec fn hits_ok(&self, ray: Ray) -> bool;

    fn intersect(&self, ray: Ray) -> (r: Vec<Intersection>)
        requires
            self.hits_ok(ray),
        ensures
            r@ == self.spec_hits(ray),
    ;

    /// The surface normal in the model.
    spec fn spec_normal(&self, point: Tuple) -> Tuple;

    /// Points for which the normal stays within machine range.
    spec fn normal_ok(&self, point: Tuple) -> bool;

    fn normal_at(&self, point: Tuple) -> (r: Tuple)
        requires
            self.normal_ok(point),
        ensures
            r == self.spec_normal(point),
    ;

    /// The attached material in the model.
    spec fn spec_material(&self) -> Material;

    fn material(&self) -> (r: Material)
        ensures
            r == self.spec_material(),
    ;
}

/// The closed set of shape variants.
#[derive(Clone, Copy, Debug)]
pub enum Shape {
    Sphere(Sphere),
}

impl RayInteractable for Shape {
    open spec fn spec_hits(&self, ray: Ray) -> Seq<Intersection> {
        match *self {
            Shape::Sphere(sphere) => spec_sphere_hits(sphere, ray),
        }
    }

    open spec fn hits_ok(&self, ray: Ray) -> bool {
        match *self {
            Shape::Sphere(_) => spec_sphere_ray_ok(ray),
        }
    }

    fn intersect(&self, ray: Ray) -> (r: Vec<Intersection>) {
        match self {
            Shape::Sphere(sphere) => sphere.intersect(ray),
        }
    }

    open spec fn spec_normal(&self, point: Tuple) -> Tuple {
        match *self {
            Shape::Sphere(sphere) => spec_sphere_normal(sphere, point),
        }
    }

    open spec fn normal_ok(&self, point: Tuple) -> bool {
        match *self {
            Shape::Sphere(_) => spec_sphere_point_ok(point),
        }
    }

    fn normal_at(&self, point: Tuple) -> (r: Tuple) {
        match self {
            Shape::Sphere(sphere) => sphere.normal_at(point),
        }
    }

    open spec fn spec_material(&self) -> Material {
        match *self {
            Shape::Sphere(sphere) => sphere.material,
        }
    }

    fn material(&self) -> (r: Material) {
        match self {
            Shape::Sphere(sphere) => sphere.material(),
        }
    }
}

} // verus!
