//! Geometric and shading core of a small ray tracer: homogeneous-coordinate
//! tuple algebra, a 4x4 matrix kernel with cofactor inversion, composable
//! affine transformations, ray-sphere intersection and a Phong lighting
//! model, all over exact fixed-point arithmetic.

pub mod color;
pub mod comparison;
pub mod fixed;
pub mod intersection;
pub mod lights;
pub mod materials;
pub mod matrices;
pub mod ray;
pub mod shapes;
pub mod transformation;
pub mod tuple;
pub mod world;

pub use crate::color::Color;
pub use crate::comparison::approx_eq::{approx_eq, approx_eq_epsilon, approx_eq_low_precision};
pub use crate::comparison::epsilon::{EPSILON, LOW_EPSILON};
pub use crate::fixed::{COORD_MAX, SCALE};
pub use crate::lights::Light;
pub use crate::materials::Material;
pub use crate::matrices::{Matrix2, Matrix3, Matrix4};
pub use crate::ray::Ray;
pub use crate::transformation::{
    rotation_x, rotation_y, rotation_z, scaling, shearing, translation, Transform,
    TransformationBuilder,
};
pub use crate::tuple::Tuple;
pub use crate::world::World;
