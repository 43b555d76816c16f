//! Point lights: a position and a color intensity.

use vstd::prelude::*;

verus! {

use crate::color::Color;
use crate::fixed::SCALE;
use crate::tuple::Tuple;

/// A point light with no area and no attenuation.
#[derive(Clone, Copy, Debug)]
pub struct Light {
    pub position: Tuple,
    pub intensity: Color,
}

impl Light {
    pub fn new(position: Tuple, intensity: Color) -> (r: Self)
        ensures
            r == (Light { position, intensity }),
    {
        Light { position, intensity }
    }
}

impl Default for Light {
    /// White light at the origin.
    fn default() -> (r: Self)
        ensures
            r.position == (Tuple { x: 0, y: 0, z: 0, w: SCALE }),
            r.intensity == (Color { r: SCALE, g: SCALE, b: SCALE }),
    {
        Light { intensity: Color::white(), position: Tuple::point(0, 0, 0) }
    }
}

} // verus!
