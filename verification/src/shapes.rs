//! The closed set of shape variants and the ray-interaction capability.

pub mod shape_enum;
pub mod sphere;

pub use shape_enum::Shape;
pub use sphere::Sphere;
