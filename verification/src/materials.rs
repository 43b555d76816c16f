//! Surface materials and the Phong lighting model: ambient, diffuse and
//! specular terms, each stated exactly over the fixed-point operations.

use vstd::prelude::*;

verus! {

use crate::color::{color_within, Color};
use crate::comparison::approx_eq::approx_eq_s;
use crate::comparison::epsilon::EPSILON;
use crate::fixed::{
    fx_div_s, fx_dot4_s, fx_mul, fx_mul_s, lemma_div_floor_exact_bound, lemma_fx_dot4_s_bound,
    lemma_fx_mul_s_bound, lemma_mul_bounded, sqrt_floor, within, COORD_MAX, MUL_MAX, SCALE,
};
use crate::lights::Light;
use crate::tuple::{tuple_within, Tuple};

/// Largest magnitude accepted for a color channel or reflectance weight:
/// twice full intensity.
pub const SHADE_MAX: i64 = 2_000_000;

/// Largest magnitude accepted for the shininess exponent input: 1000.0.
pub const SHINE_MAX: i64 = 1_000_000_000;

/// A surface's reflectance parameters.
#[derive(Clone, Copy, Debug)]
pub struct Material {
    pub color: Color,
    pub ambient: i64,
    pub diffuse: i64,
    pub specular: i64,
    pub shininess: i64,
}

/// The default material: white, ambient 0.1, diffuse 0.9, specular 0.9,
/// shininess 200.
pub open spec fn spec_default_material() -> Material {
    Material {
        color: Color { r: SCALE, g: SCALE, b: SCALE },
        ambient: 100_000,
        diffuse: 900_000,
        specular: 900_000,
        shininess: 200_000_000,
    }
}

/// Repeated fixed-point self-multiplication: `base ^ n` with one floor
/// per factor.
pub open spec fn spec_pow_units(base: int, n: nat) -> int
    decreases n,
{
    if n == 0 {
        SCALE as int
    } else {
        fx_mul_s(base, spec_pow_units(base, (n - 1) as nat))
    }
}

/// The Phong color at a point, channel by channel, exactly as the
/// fixed-point pipeline computes it: effective color, light direction,
/// ambient always, diffuse and specular only when the light or the
/// reflection faces the eye.
pub open spec fn spec_lighting(
    m: Material,
    light: Light,
    point: Tuple,
    eye_v: Tuple,
    normal_v: Tuple,
) -> (int, int, int) {
    let er = fx_mul_s(m.color.r as int, light.intensity.r as int);
    let eg = fx_mul_s(m.color.g as int, light.intensity.g as int);
    let eb = fx_mul_s(m.color.b as int, light.intensity.b as int);
    let dx = light.position.x - point.x;
    let dy = light.position.y - point.y;
    let dz = light.position.z - point.z;
    let mag = sqrt_floor(dx * dx + dy * dy + dz * dz);
    let lx = if dx == 0 && dy == 0 && dz == 0 {
        dx
    } else {
        fx_div_s(dx, mag)
    };
    let ly = if dx == 0 && dy == 0 && dz == 0 {
        dy
    } else {
        fx_div_s(dy, mag)
    };
    let lz = if dx == 0 && dy == 0 && dz == 0 {
        dz
    } else {
        fx_div_s(dz, mag)
    };
    let nx = normal_v.x as int;
    let ny = normal_v.y as int;
    let nz = normal_v.z as int;
    let ar = fx_mul_s(er, m.ambient as int);
    let ag = fx_mul_s(eg, m.ambient as int);
    let ab = fx_mul_s(eb, m.ambient as int);
    let ldn = fx_dot4_s(lx, ly, lz, 0, nx, ny, nz, 0);
    if ldn < 0 {
        (ar, ag, ab)
    } else {
        let dr = fx_mul_s(fx_mul_s(er, m.diffuse as int), ldn);
        let dg = fx_mul_s(fx_mul_s(eg, m.diffuse as int), ldn);
        let db = fx_mul_s(fx_mul_s(eb, m.diffuse as int), ldn);
        let d2 = fx_dot4_s(-lx, -ly, -lz, 0, nx, ny, nz, 0);
        let rx = -lx - fx_mul_s(2 * d2, nx);
        let ry = -ly - fx_mul_s(2 * d2, ny);
        let rz = -lz - fx_mul_s(2 * d2, nz);
        let rde = fx_dot4_s(rx, ry, rz, 0, eye_v.x as int, eye_v.y as int, eye_v.z as int, 0);
        if rde <= 0 {
            (ar + dr, ag + dg, ab + db)
        } else {
            let base = if rde > SCALE {
                SCALE as int
            } else {
                rde
            };
            let e = if m.shininess <= 0 {
                0
            } else {
                (m.shininess as int) / (SCALE as int)
            };
            let f = spec_pow_units(base, e as nat);
            let sr = fx_mul_s(fx_mul_s(light.intensity.r as int, m.specular as int), f);
            let sg = fx_mul_s(fx_mul_s(light.intensity.g as int, m.specular as int), f);
            let sb = fx_mul_s(fx_mul_s(light.intensity.b as int, m.specular as int), f);
            (ar + dr + sr, ag + dg + sg, ab + db + sb)
        }
    }
}

/// `base ^ n` by repeated fixed-point multiplication.
fn pow_units(base: i64, n: u64) -> (r: i64)
    requires
        within(base as int, SCALE as int),
    ensures
        r as int == spec_pow_units(base as int, n as nat),
        within(r as int, SCALE as int),
{
    let mut acc: i64 = SCALE;
    let mut done: u64 = 0;
    while done < n
        invariant
            done <= n,
            within(base as int, SCALE as int),
            within(acc as int, SCALE as int),
            acc as int == spec_pow_units(base as int, done as nat),
        decreases n - done,
    {
        proof {
            lemma_mul_bounded(base as int, acc as int, SCALE as int, SCALE as int);
            lemma_div_floor_exact_bound(
                (base as int) * (acc as int),
                SCALE as int,
                SCALE as int,
            );
        }
        acc = fx_mul(base, acc);
        done = done + 1;
    }
    acc
}

impl Material {
    pub fn new() -> (r: Self)
        ensures
            r == spec_default_material(),
    {
        Material::default()
    }

    /// Phong shading at `point` with the surface normal `normal_v` and
    /// the eye direction `eye_v`.  Ambient light always contributes;
    /// diffuse light only when the light faces the surface; specular
    /// light only when the reflection faces the eye, raised to the
    /// shininess power.  The shininess is a whole number, so the power
    /// is an integer exponent, and the reflection cosine is clamped at
    /// one, where rounding of unit vectors can nudge it past.
    pub fn lighting(&self, light: Light, point: Tuple, eye_v: Tuple, normal_v: Tuple) -> (r: Color)
        requires
            color_within(self.color, SHADE_MAX as int),
            color_within(light.intensity, SHADE_MAX as int),
            within(self.ambient as int, SHADE_MAX as int),
            within(self.diffuse as int, SHADE_MAX as int),
            within(self.specular as int, SHADE_MAX as int),
            within(self.shininess as int, SHINE_MAX as int),
            (self.shininess as int) % (SCALE as int) == 0,
            tuple_within(point, COORD_MAX as int),
            tuple_within(light.position, COORD_MAX as int),
            tuple_within(normal_v, COORD_MAX as int),
            tuple_within(eye_v, MUL_MAX as int),
            point.w == SCALE,
            light.position.w == SCALE,
        ensures
            (r.r as int, r.g as int, r.b as int) == spec_lighting(
                *self,
                light,
                point,
                eye_v,
                normal_v,
            ),
    {
        // Combine the surface color with the light's color.
        let effective_color = self.color.mul(light.intensity);
        proof {
            lemma_fx_mul_s_bound(
                self.color.r as int,
                light.intensity.r as int,
                SHADE_MAX as int,
                SHADE_MAX as int,
            );
            lemma_fx_mul_s_bound(
                self.color.g as int,
                light.intensity.g as int,
                SHADE_MAX as int,
                SHADE_MAX as int,
            );
            lemma_fx_mul_s_bound(
                self.color.b as int,
                light.intensity.b as int,
                SHADE_MAX as int,
                SHADE_MAX as int,
            );
        }
        // Direction from the shaded point to the light source.
        let diff = light.position.sub(point);
        let light_v = diff.normalize();
        let ambient = effective_color.mul_scalar(self.ambient);
        proof {
            lemma_fx_mul_s_bound(
                effective_color.r as int,
                self.ambient as int,
                4_000_001,
                SHADE_MAX as int,
            );
            lemma_fx_mul_s_bound(
                effective_color.g as int,
                self.ambient as int,
                4_000_001,
                SHADE_MAX as int,
            );
            lemma_fx_mul_s_bound(
                effective_color.b as int,
                self.ambient as int,
                4_000_001,
                SHADE_MAX as int,
            );
            lemma_fx_dot4_s_bound(
                light_v.x as int,
                light_v.y as int,
                light_v.z as int,
                0,
                normal_v.x as int,
                normal_v.y as int,
                normal_v.z as int,
                0,
                SCALE as int,
                COORD_MAX as int,
            );
        }
        // Cosine between the light direction and the normal; negative
        // means the light is on the far side of the surface.
        let light_dot_normal = light_v.dot(normal_v);
        if light_dot_normal < 0 {
            let black = Color::black();
            ambient.add(black).add(black)
        } else {
            let diffuse1 = effective_color.mul_scalar(self.diffuse);
            proof {
                lemma_fx_mul_s_bound(
                    effective_color.r as int,
                    self.diffuse as int,
                    4_000_001,
                    SHADE_MAX as int,
                );
                lemma_fx_mul_s_bound(
                    effective_color.g as int,
                    self.diffuse as int,
                    4_000_001,
                    SHADE_MAX as int,
                );
                lemma_fx_mul_s_bound(
                    effective_color.b as int,
                    self.diffuse as int,
                    4_000_001,
                    SHADE_MAX as int,
                );
                lemma_fx_mul_s_bound(
                    diffuse1.r as int,
                    light_dot_normal as int,
                    8_000_003,
                    1_200_000_001,
                );
                lemma_fx_mul_s_bound(
                    diffuse1.g as int,
                    light_dot_normal as int,
                    8_000_003,
                    1_200_000_001,
                );
                lemma_fx_mul_s_bound(
                    diffuse1.b as int,
                    light_dot_normal as int,
                    8_000_003,
                    1_200_000_001,
                );
            }
            let diffuse = diffuse1.mul_scalar(light_dot_normal);
            let v = light_v.neg();
            proof {
                lemma_fx_dot4_s_bound(
                    v.x as int,
                    v.y as int,
                    v.z as int,
                    0,
                    normal_v.x as int,
                    normal_v.y as int,
                    normal_v.z as int,
                    0,
                    SCALE as int,
                    COORD_MAX as int,
                );
            }
            let d2 = v.dot(normal_v);
            let reflect_v = v.reflect(normal_v);
            proof {
                lemma_fx_mul_s_bound(
                    2 * (d2 as int),
                    normal_v.x as int,
                    2_400_000_002,
                    COORD_MAX as int,
                );
                lemma_fx_mul_s_bound(
                    2 * (d2 as int),
                    normal_v.y as int,
                    2_400_000_002,
                    COORD_MAX as int,
                );
                lemma_fx_mul_s_bound(
                    2 * (d2 as int),
                    normal_v.z as int,
                    2_400_000_002,
                    COORD_MAX as int,
                );
            }
            // Cosine between the reflected light and the eye; zero or
            // negative means the reflection points away from the eye.
            let reflect_dot_eye = reflect_v.dot(eye_v);
            if reflect_dot_eye <= 0 {
                let black = Color::black();
                ambient.add(diffuse).add(black)
            } else {
                let base = if reflect_dot_eye > SCALE {
                    SCALE
                } else {
                    reflect_dot_eye
                };
                let e: u64 = if self.shininess <= 0 {
                    0u64
                } else {
                    (self.shininess as u64) / (SCALE as u64)
                };
                let factor = pow_units(base, e);
                let specular1 = light.intensity.mul_scalar(self.specular);
                proof {
                    lemma_fx_mul_s_bound(
                        light.intensity.r as int,
                        self.specular as int,
                        SHADE_MAX as int,
                        SHADE_MAX as int,
                    );
                    lemma_fx_mul_s_bound(
                        light.intensity.g as int,
                        self.specular as int,
                        SHADE_MAX as int,
                        SHADE_MAX as int,
                    );
                    lemma_fx_mul_s_bound(
                        light.intensity.b as int,
                        self.specular as int,
                        SHADE_MAX as int,
                        SHADE_MAX as int,
                    );
                }
                let specular = specular1.mul_scalar(factor);
                proof {
                    lemma_fx_mul_s_bound(
                        specular1.r as int,
                        factor as int,
                        4_000_001,
                        SCALE as int,
                    );
                    lemma_fx_mul_s_bound(
                        specular1.g as int,
                        factor as int,
                        4_000_001,
                        SCALE as int,
                    );
                    lemma_fx_mul_s_bound(
                        specular1.b as int,
                        factor as int,
                        4_000_001,
                        SCALE as int,
                    );
                }
                ambient.add(diffuse).add(specular)
            }
        }
    }
}

/// Material equality: colors approximately, weights exactly.
pub open spec fn spec_material_eq(a: Material, b: Material) -> bool {
    &&& approx_eq_s(a.color.r as int, b.color.r as int, EPSILON as int)
    &&& approx_eq_s(a.color.g as int, b.color.g as int, EPSILON as int)
    &&& approx_eq_s(a.color.b as int, b.color.b as int, EPSILON as int)
    &&& a.ambient == b.ambient
    &&& a.diffuse == b.diffuse
    &&& a.specular == b.specular
    &&& a.shininess == b.shininess
}

impl Default for Material {
    fn default() -> (r: Self)
        ensures
            r == spec_default_material(),
    {
        Material {
            color: Color::white(),
            ambient: 100_000,
            diffuse: 900_000,
            specular: 900_000,
            shininess: 200_000_000,
        }
    }
}

impl PartialEq for Material {
    /// Colors compare approximately; the scalar weights exactly.
    fn eq(&self, other: &Self) -> (r: bool) {
        self.color == other.color && self.ambient == other.ambient && self.diffuse
            == other.diffuse && self.specular == other.specular && self.shininess
            == other.shininess
    }
}

impl vstd::std_specs::cmp::PartialEqSpecImpl for Material {
    open spec fn obeys_eq_spec() -> bool {
        true
    }

    open spec fn eq_spec(&self, other: &Material) -> bool {
        spec_material_eq(*self, *other)
    }
}

} // verus!
