//! Colors: three fixed-point channels, with component-wise sums,
//! scalar products and the Hadamard product.

use vstd::prelude::*;

verus! {

use crate::comparison::approx_eq::{approx_eq_epsilon, approx_eq_s};
use crate::comparison::epsilon::EPSILON;
use crate::fixed::{fx_mul, fx_mul_s, within, ADD_MAX, MUL_MAX, SCALE};

/// A color with red, green and blue channels in fixed-point units;
/// 1.0 per channel is full intensity, and values may exceed it.
#[derive(Clone, Copy, Debug)]
pub struct Color {
    pub r: i64,
    pub g: i64,
    pub b: i64,
}

/// All three channels lie within `[-b, b]` units.
pub open spec fn color_within(c: Color, b: int) -> bool {
    within(c.r as int, b) && within(c.g as int, b) && within(c.b as int, b)
}

impl Color {
    pub fn new(r: i64, g: i64, b: i64) -> (c: Self)
        ensures
            c == (Color { r, g, b }),
    {
        Color { r, g, b }
    }

    pub fn black() -> (c: Self)
        ensures
            c == (Color { r: 0, g: 0, b: 0 }),
    {
        Color { r: 0, g: 0, b: 0 }
    }

    pub fn white() -> (c: Self)
        ensures
            c == (Color { r: SCALE, g: SCALE, b: SCALE }),
    {
        Color { r: SCALE, g: SCALE, b: SCALE }
    }

    pub fn red() -> (c: Self)
        ensures
            c == (Color { r: SCALE, g: 0, b: 0 }),
    {
        Color { r: SCALE, g: 0, b: 0 }
    }

    pub fn green() -> (c: Self)
        ensures
            c == (Color { r: 0, g: SCALE, b: 0 }),
    {
        Color { r: 0, g: SCALE, b: 0 }
    }

    pub fn blue() -> (c: Self)
        ensures
            c == (Color { r: 0, g: 0, b: SCALE }),
    {
        Color { r: 0, g: 0, b: SCALE }
    }

    /// Exact channel-wise sum.
    pub fn add(&self, rhs: Self) -> (c: Self)
        requires
            color_within(*self, ADD_MAX as int),
            color_within(rhs, ADD_MAX as int),
        ensures
            c.r as int == self.r + rhs.r,
            c.g as int == self.g + rhs.g,
            c.b as int == self.b + rhs.b,
    {
        Color { r: self.r + rhs.r, g: self.g + rhs.g, b: self.b + rhs.b }
    }

    /// Exact channel-wise difference.
    pub fn sub(&self, rhs: Self) -> (c: Self)
        requires
            color_within(*self, ADD_MAX as int),
            color_within(rhs, ADD_MAX as int),
        ensures
            c.r as int == self.r - rhs.r,
            c.g as int == self.g - rhs.g,
            c.b as int == self.b - rhs.b,
    {
        Color { r: self.r - rhs.r, g: self.g - rhs.g, b: self.b - rhs.b }
    }

    /// Channel-wise scalar product, each channel floored once.
    pub fn mul_scalar(&self, rhs: i64) -> (c: Self)
        requires
            color_within(*self, MUL_MAX as int),
            within(rhs as int, MUL_MAX as int),
        ensures
            c.r as int == fx_mul_s(self.r as int, rhs as int),
            c.g as int == fx_mul_s(self.g as int, rhs as int),
            c.b as int == fx_mul_s(self.b as int, rhs as int),
    {
        Color { r: fx_mul(self.r, rhs), g: fx_mul(self.g, rhs), b: fx_mul(self.b, rhs) }
    }

    /// Hadamard product: channel-wise, each channel floored once.
    pub fn mul(&self, rhs: Self) -> (c: Self)
        requires
            color_within(*self, MUL_MAX as int),
            color_within(rhs, MUL_MAX as int),
        ensures
            c.r as int == fx_mul_s(self.r as int, rhs.r as int),
            c.g as int == fx_mul_s(self.g as int, rhs.g as int),
            c.b as int == fx_mul_s(self.b as int, rhs.b as int),
    {
        Color { r: fx_mul(self.r, rhs.r), g: fx_mul(self.g, rhs.g), b: fx_mul(self.b, rhs.b) }
    }
}

/// One channel clamped to `[0, 1]` and widened to a byte: the
/// exporter's clamping duty, stated exactly.
pub fn channel_to_byte(units: i64) -> (r: u8)
    ensures
        r as int == (if units < 0 {
            0int
        } else if units > SCALE {
            255int
        } else {
            ((units as int) * 255) / (SCALE as int)
        }),
{
    if units < 0 {
        0
    } else if units > SCALE {
        255
    } else {
        (((units as u64) * 255) / (SCALE as u64)) as u8
    }
}

impl PartialEq for Color {
    /// Approximate equality at the standard tolerance, channel by
    /// channel.
    fn eq(&self, other: &Self) -> (r: bool) {
        approx_eq_epsilon(self.r, other.r, EPSILON) && approx_eq_epsilon(
            self.g,
            other.g,
            EPSILON,
        ) && approx_eq_epsilon(self.b, other.b, EPSILON)
    }
}

impl vstd::std_specs::cmp::PartialEqSpecImpl for Color {
    open spec fn obeys_eq_spec() -> bool {
        true
    }

    open spec fn eq_spec(&self, other: &Color) -> bool {
        approx_eq_s(self.r as int, other.r as int, EPSILON as int) && approx_eq_s(
            self.g as int,
            other.g as int,
            EPSILON as int,
        ) && approx_eq_s(self.b as int, other.b as int, EPSILON as int)
    }
}

} // verus!
