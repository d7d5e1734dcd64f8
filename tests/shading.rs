use rust_tracer::ieee::Ieee32;
use rust_tracer::roots::{root_case, RootCase};
use rust_tracer::shading::{get_color_at, Shade};

fn b(v: f32) -> Ieee32 {
    Ieee32::from_bits(v.to_bits())
}

fn dists(vs: &[f32]) -> Vec<Ieee32> {
    vs.iter().map(|v| b(*v)).collect()
}

#[test]
fn unoccluded_point_facing_light_is_lit() {
    assert_eq!(get_color_at(&dists(&[-1.0, -1.0]), b(8.0), b(0.5)), Shade::Lit(b(0.5)));
    assert_eq!(get_color_at(&dists(&[9.0]), b(8.0), b(1.0)), Shade::Lit(b(1.0)));
}

#[test]
fn occluder_between_point_and_light_darkens() {
    assert_eq!(get_color_at(&dists(&[-1.0, 3.0]), b(8.0), b(0.9)), Shade::Dark);
}

#[test]
fn facing_away_from_light_is_dark() {
    assert_eq!(get_color_at(&dists(&[-1.0]), b(8.0), b(-0.3)), Shade::Dark);
    assert_eq!(get_color_at(&dists(&[]), b(8.0), b(-0.0)), Shade::Dark);
}

#[test]
fn discriminant_cases() {
    assert_eq!(root_case(b(-0.5)), RootCase::Miss);
    assert_eq!(root_case(b(f32::NEG_INFINITY)), RootCase::Miss);
    assert_eq!(root_case(b(0.0)), RootCase::Tangent);
    assert_eq!(root_case(b(-0.0)), RootCase::Tangent);
    assert_eq!(root_case(b(3.0)), RootCase::Secant);
    assert_eq!(root_case(b(f32::NAN)), RootCase::Secant);
}
