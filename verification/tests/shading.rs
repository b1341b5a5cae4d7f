use glam::DVec3;
use pathtracer::camera::camera_basis;
use pathtracer::hittable::{face_normal, triangle_edges, Facing};
use pathtracer::material::oriented_normal;
use pathtracer::ray::{combine_radiance, radiance_step};

#[test]
fn front_hit_keeps_the_normal() {
    let n = DVec3::new(0.0, 1.0, 0.0);
    assert_eq!(oriented_normal(n, Facing::Front), n);
}

#[test]
fn back_hit_negates_the_normal() {
    let n = DVec3::new(0.0, 1.0, 0.0);
    assert_eq!(oriented_normal(n, Facing::Back), DVec3::new(0.0, -1.0, 0.0));
}

#[test]
fn scattered_radiance_is_emission_plus_attenuated_incoming() {
    let emission = DVec3::new(1.0, 2.0, 3.0);
    let incoming = DVec3::new(0.5, 0.25, 2.0);
    let attenuation = DVec3::new(2.0, 4.0, 0.5);
    let r = combine_radiance(emission, Some((incoming, attenuation)));
    assert_eq!(r, DVec3::new(2.0, 3.0, 4.0));
}

#[test]
fn absorbed_ray_leaves_emission_alone() {
    // A purely emissive surface never scatters, so the view ray carries
    // back exactly the emitted color.
    let emission = DVec3::new(4.0, 4.0, 4.0);
    assert_eq!(combine_radiance(emission, None), emission);
}

#[test]
fn depth_cap_turns_a_scatter_black() {
    // A diffuse bounce whose recursion bottomed out brings back black;
    // attenuating black and adding zero emission stays black.
    let albedo = DVec3::new(0.5, 0.5, 0.5);
    let r = combine_radiance(DVec3::ZERO, Some((DVec3::ZERO, albedo)));
    assert_eq!(r, DVec3::ZERO);
}

#[test]
fn spent_recursion_budget_is_black() {
    // depth 0 yields pure black, whatever the scene would have said
    let background = DVec3::new(0.01, 0.01, 0.01);
    let r = radiance_step(0, DVec3::ZERO, background, None);
    assert_eq!(r, DVec3::ZERO);
    let outcome = Some((DVec3::new(4.0, 4.0, 4.0), None));
    assert_eq!(radiance_step(0, DVec3::ZERO, background, outcome), DVec3::ZERO);
}

#[test]
fn missing_everything_gives_the_background() {
    let background = DVec3::new(0.01, 0.01, 0.01);
    assert_eq!(radiance_step(5, DVec3::ZERO, background, None), background);
}

#[test]
fn emissive_hit_carries_exactly_its_emission() {
    let emission = DVec3::new(4.0, 4.0, 4.0);
    let r = radiance_step(3, DVec3::ZERO, DVec3::new(0.01, 0.01, 0.01), Some((emission, None)));
    assert_eq!(r, emission);
}

#[test]
fn one_bounce_into_the_depth_cap_stays_black() {
    // a diffuse hit at depth 1: the scattered ray bottoms out black, the
    // albedo attenuates it, and no emission is added
    let albedo = DVec3::new(0.5, 0.5, 0.5);
    let from_depth_zero = radiance_step(0, DVec3::ZERO, DVec3::new(0.01, 0.01, 0.01), None);
    let outcome = Some((DVec3::ZERO, Some((from_depth_zero, albedo))));
    let r = radiance_step(1, DVec3::ZERO, DVec3::new(0.01, 0.01, 0.01), outcome);
    assert_eq!(r, DVec3::ZERO);
}

#[test]
fn triangle_edges_leave_the_first_vertex() {
    let vertices = [
        DVec3::new(1.0, 2.0, 3.0),
        DVec3::new(2.0, 4.0, 6.0),
        DVec3::new(0.0, 2.0, 7.0),
    ];
    let (v1, v2) = triangle_edges(&vertices);
    assert_eq!(v1, DVec3::new(1.0, 2.0, 3.0));
    assert_eq!(v2, DVec3::new(-1.0, 0.0, 4.0));
}

#[test]
fn flat_normal_is_the_unit_cross_product() {
    let e1 = DVec3::new(2.0, 0.0, 0.0);
    let e2 = DVec3::new(0.0, 2.0, 0.0);
    assert_eq!(face_normal(e1, e2), DVec3::new(0.0, 0.0, 1.0));
}

#[test]
fn default_basis_looks_down_negative_z() {
    let (view_dir, up, left) = camera_basis(
        DVec3::ZERO,
        DVec3::new(0.0, 0.0, -1.0),
        None,
        DVec3::Y,
    );
    assert_eq!(view_dir, DVec3::new(0.0, 0.0, -1.0));
    assert_eq!(left, DVec3::new(-1.0, 0.0, 0.0));
    assert_eq!(up, DVec3::new(0.0, 1.0, 0.0));
}

#[test]
fn explicit_up_overrides_the_world_up() {
    let roll = DVec3::new(0.0, 1.0, 0.0);
    let (view_dir, up, left) = camera_basis(
        DVec3::ZERO,
        DVec3::new(0.0, 0.0, -2.0),
        Some(roll),
        DVec3::X,
    );
    assert_eq!(view_dir, DVec3::new(0.0, 0.0, -2.0));
    assert_eq!(up, roll);
    assert_eq!(left, DVec3::new(-1.0, 0.0, 0.0));
}
