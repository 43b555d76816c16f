use ray_tracer_challenge::Color;

fn fx(v: f64) -> i64 {
    (v * 1_000_000.0).round() as i64
}

fn c(r: f64, g: f64, b: f64) -> Color {
    Color::new(fx(r), fx(g), fx(b))
}

#[test]
fn add_color() {
    let c1 = c(0.9, 0.6, 0.75);
    let c2 = c(0.7, 0.1, 0.25);
    assert_eq!(c1.add(c2), c(1.6, 0.7, 1.0));
}

#[test]
fn subtract_color() {
    let c1 = c(0.9, 0.6, 0.75);
    let c2 = c(0.7, 0.1, 0.25);
    assert_eq!(c1.sub(c2), c(0.2, 0.5, 0.5));
}

#[test]
fn multiply_scalar() {
    let c1 = c(0.2, 0.3, 0.4);
    assert_eq!(c1.mul_scalar(fx(2.0)), c(0.4, 0.6, 0.8));
}

#[test]
fn hadamard_product() {
    let c1 = c(1.0, 0.2, 0.4);
    let c2 = c(0.9, 1.0, 0.1);
    assert_eq!(c1.mul(c2), c(0.9, 0.2, 0.04));
}

#[test]
fn approx_comparison_tolerances() {
    assert!(ray_tracer_challenge::approx_eq(1_000_000, 1_000_009));
    assert!(!ray_tracer_challenge::approx_eq(1_000_000, 1_000_011));
    assert!(ray_tracer_challenge::approx_eq_low_precision(1_000_000, 1_000_900));
    assert!(!ray_tracer_challenge::approx_eq_epsilon(1_000_000, 1_000_051, 50));
    assert!(ray_tracer_challenge::approx_eq_epsilon(1_000_000, 1_000_050, 50));
}

#[test]
fn channel_conversion_clamps_and_scales() {
    assert_eq!(ray_tracer_challenge::color::channel_to_byte(fx(-0.5)), 0);
    assert_eq!(ray_tracer_challenge::color::channel_to_byte(0), 0);
    assert_eq!(ray_tracer_challenge::color::channel_to_byte(fx(0.5)), 127);
    assert_eq!(ray_tracer_challenge::color::channel_to_byte(fx(1.0)), 255);
    assert_eq!(ray_tracer_challenge::color::channel_to_byte(fx(1.5)), 255);
}
