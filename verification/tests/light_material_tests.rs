use ray_tracer_challenge::{approx_eq_low_precision, Color, Light, Material, Tuple};

fn c_approx_low(a: &Color, b: &Color) -> bool {
    approx_eq_low_precision(a.r, b.r) && approx_eq_low_precision(a.g, b.g)
        && approx_eq_low_precision(a.b, b.b)
}

fn fx(v: f64) -> i64 {
    (v * 1_000_000.0).round() as i64
}

fn p(x: f64, y: f64, z: f64) -> Tuple {
    Tuple::point(fx(x), fx(y), fx(z))
}

fn v(x: f64, y: f64, z: f64) -> Tuple {
    Tuple::vector(fx(x), fx(y), fx(z))
}

fn c(r: f64, g: f64, b: f64) -> Color {
    Color::new(fx(r), fx(g), fx(b))
}

#[test]
fn light_has_position_and_intensity() {
    let intensity = c(1.0, 1.0, 1.0);
    let position = p(0.0, 0.0, 0.0);
    let light = Light::new(position, intensity);
    assert_eq!(light.position, position);
    assert_eq!(light.intensity, intensity);
}

#[test]
fn default_material() {
    let m = Material::default();
    assert_eq!(m.color, c(1.0, 1.0, 1.0));
    assert_eq!(m.ambient, fx(0.1));
    assert_eq!(m.diffuse, fx(0.9));
    assert_eq!(m.specular, fx(0.9));
    assert_eq!(m.shininess, fx(200.0));
}

#[test]
fn lighting_with_eye_between_light_and_the_surface() {
    let m = Material::default();
    let position = p(0.0, 0.0, 0.0);
    let eye_v = v(0.0, 0.0, -1.0);
    let normal_v = v(0.0, 0.0, -1.0);
    let light = Light::new(p(0.0, 0.0, -10.0), Color::white());
    let result = m.lighting(light, position, eye_v, normal_v);
    assert_eq!(result, c(1.9, 1.9, 1.9));
}

#[test]
fn lighting_with_eye_between_light_and_the_surface_offset_45_degrees() {
    let m = Material::default();
    let position = p(0.0, 0.0, 0.0);
    let root_half = 2.0_f64.sqrt() / 2.0;
    let eye_v = v(0.0, root_half, root_half);
    let normal_v = v(0.0, 0.0, -1.0);
    let light = Light::new(p(0.0, 0.0, -10.0), Color::white());
    let result = m.lighting(light, position, eye_v, normal_v);
    assert_eq!(result, c(1.0, 1.0, 1.0));
}

#[test]
fn lighting_with_eye_opposite_surface_light_offset_45_degrees() {
    let m = Material::default();
    let position = p(0.0, 0.0, 0.0);
    let eye_v = v(0.0, 0.0, -1.0);
    let normal_v = v(0.0, 0.0, -1.0);
    let light = Light::new(p(0.0, 10.0, -10.0), Color::white());
    let result = m.lighting(light, position, eye_v, normal_v);
    assert_eq!(result, c(0.7364, 0.7364, 0.7364));
}

#[test]
fn lighting_with_eye_in_the_path_of_reflection_vector() {
    let m = Material::default();
    let position = p(0.0, 0.0, 0.0);
    let root_half = 2.0_f64.sqrt() / 2.0;
    let eye_v = v(0.0, -root_half, -root_half);
    let normal_v = v(0.0, 0.0, -1.0);
    let light = Light::new(p(0.0, 10.0, -10.0), Color::white());
    let result = m.lighting(light, position, eye_v, normal_v);
    // The shininess-200 power raises one unit of grid rounding in the
    // reflection cosine two-hundredfold, so this compares at the coarser
    // tolerance, as the source material's color comparison did.
    assert!(c_approx_low(&result, &c(1.6364, 1.6364, 1.6364)));
}

#[test]
fn lightning_with_the_light_behind_the_surface() {
    let m = Material::default();
    let position = p(0.0, 0.0, 0.0);
    let eye_v = v(0.0, 0.0, -1.0);
    let normal_v = v(0.0, 0.0, -1.0);
    let light = Light::new(p(0.0, 0.0, 10.0), Color::white());
    let result = m.lighting(light, position, eye_v, normal_v);
    assert_eq!(result, c(0.1, 0.1, 0.1));
}
