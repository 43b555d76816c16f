//! A scene: shapes and lights, with scene-wide ray intersection that
//! merges every shape's hits into one sorted collection.

use vstd::prelude::*;

verus! {

use vstd::multiset::Multiset;
use vstd::seq_lib::group_to_multiset_ensures;
use crate::color::Color;
use crate::fixed::COORD_MAX;
use crate::intersection::{spec_sorted, Intersection, Intersections};
use crate::lights::Light;
use crate::materials::Material;
use crate::matrices::spec_identity;
use crate::ray::Ray;
use crate::shapes::shape_enum::{RayInteractable, Shape};
use crate::shapes::sphere::Sphere;
use crate::transformation::{scaling, spec_scaling};
use crate::tuple::{tuple_within, Tuple};

/// Everything every shape of the scene sees of a ray, as one multiset.
pub open spec fn spec_world_hits(objects: Seq<Shape>, ray: Ray) -> Multiset<Intersection>
    decreases objects.len(),
{
    if objects.len() == 0 {
        Multiset::empty()
    } else {
        spec_world_hits(objects.drop_last(), ray).add(objects.last().spec_hits(ray).to_multiset())
    }
}

/// An ordered list of shapes and an ordered list of lights.
pub struct World {
    pub objects: Vec<Shape>,
    pub lights: Vec<Light>,
}

impl World {
    pub fn new(objects: Vec<Shape>, lights: Vec<Light>) -> (r: Self)
        ensures
            r.objects == objects,
            r.lights == lights,
    {
        World { objects, lights }
    }

    /// The canonical two-sphere, one-light test scene: an outer sphere
    /// with a tinted material and an inner sphere at half scale.
    pub fn create_default_world() -> (r: Self)
        ensures
            r.objects@.len() == 2,
            r.objects@[0] == (Shape::Sphere(
                Sphere {
                    transform: spec_identity(),
                    material: Material {
                        color: Color { r: 800_000, g: 1_000_000, b: 600_000 },
                        ambient: 900_000,
                        diffuse: 700_000,
                        specular: 200_000,
                        shininess: 200_000_000,
                    },
                },
            )),
            r.objects@[1] == (Shape::Sphere(
                Sphere {
                    transform: spec_scaling(500_000, 500_000, 500_000),
                    material: crate::materials::spec_default_material(),
                },
            )),
            r.lights@.len() == 1,
            r.lights@[0] == (Light {
                position: (Tuple { x: -10_000_000i64, y: 10_000_000, z: -10_000_000i64, w: 1_000_000 }),
                intensity: (Color { r: 1_000_000, g: 1_000_000, b: 1_000_000 }),
            }),
    {
        let light = Light::new(
            Tuple::point(-10_000_000, 10_000_000, -10_000_000),
            Color::new(1_000_000, 1_000_000, 1_000_000),
        );
        let material = Material {
            color: Color::new(800_000, 1_000_000, 600_000),
            ambient: 900_000,
            diffuse: 700_000,
            specular: 200_000,
            shininess: 200_000_000,
        };
        let s1 = Sphere::new().with_material(material);
        let s2 = Sphere::new().with_transform(scaling(500_000, 500_000, 500_000));
        let mut objects: Vec<Shape> = Vec::new();
        objects.push(Shape::Sphere(s1));
        objects.push(Shape::Sphere(s2));
        let mut lights: Vec<Light> = Vec::new();
        lights.push(light);
        World::new(objects, lights)
    }

    /// Every shape's intersections with the ray, merged into one
    /// collection sorted ascending by `t`.
    pub fn intersect(&self, ray: Ray) -> (r: Intersections)
        requires
            tuple_within(ray.origin, COORD_MAX as int),
            tuple_within(ray.direction, COORD_MAX as int),
        ensures
            spec_sorted(r.spec_seq()),
            r.spec_seq().to_multiset() == spec_world_hits(self.objects@, ray),
    {
        proof {
            broadcast use group_to_multiset_ensures;

        }
        let mut res = Intersections::new();
        let mut k: usize = 0;
        while k < self.objects.len()
            invariant
                k <= self.objects.len(),
                tuple_within(ray.origin, COORD_MAX as int),
                tuple_within(ray.direction, COORD_MAX as int),
                spec_sorted(res.spec_seq()),
                res.spec_seq().to_multiset() == spec_world_hits(self.objects@.take(k as int), ray),
            decreases self.objects.len() - k,
        {
            let shape = self.objects[k];
            let hits = shape.intersect(ray);
            proof {
                assert(self.objects@.take(k as int + 1).drop_last() == self.objects@.take(
                    k as int,
                ));
                assert(self.objects@.take(k as int + 1).last() == self.objects@[k as int]);
            }
            res.push_vec(hits);
            k = k + 1;
        }
        proof {
            assert(self.objects@.take(self.objects@.len() as int) == self.objects@);
        }
        res
    }
}

impl Default for World {
    /// An empty scene.
    fn default() -> (r: Self)
        ensures
            r.objects@.len() == 0,
            r.lights@.len() == 0,
    {
        World { objects: Vec::new(), lights: Vec::new() }
    }
}

} // verus!
