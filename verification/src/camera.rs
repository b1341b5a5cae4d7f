//! The camera's orthonormal viewing basis.
//!
//! Viewport sizing, per-pixel deltas, jitter and the render loop work on
//! scalar floating-point values and run outside the verified library; the
//! basis they start from is constructed here.

use vstd::prelude::*;

use crate::glam_ext::{cross_of, dvec3_cross, dvec3_sub, dvec3_unit, sub_of, unit_of};

verus! {

/// The viewing basis `(view_dir, up, left)` of a camera at `pos` looking
/// at `lookat`.
///
/// An explicit `up` overrides: it is kept as given and only `left` is
/// derived from it. Otherwise both `left` and `up` are derived from the
/// world-up fallback by successive cross products.
pub fn camera_basis(
    pos: glam::DVec3,
    lookat: glam::DVec3,
    up: Option<glam::DVec3>,
    world_up: glam::DVec3,
) -> (basis: (glam::DVec3, glam::DVec3, glam::DVec3))
    ensures
        basis.0 == sub_of(lookat, pos),
        up matches Some(u) ==> basis.1 == u && basis.2 == unit_of(cross_of(u, basis.0)),
        up is None ==> basis.2 == unit_of(cross_of(world_up, basis.0)) && basis.1 == unit_of(
            cross_of(basis.0, basis.2),
        ),
{
    let view_dir = dvec3_sub(lookat, pos);
    match up {
        Some(u) => {
            let left = dvec3_unit(dvec3_cross(u, view_dir));
            (view_dir, u, left)
        },
        None => {
            let left = dvec3_unit(dvec3_cross(world_up, view_dir));
            let derived_up = dvec3_unit(dvec3_cross(view_dir, left));
            (view_dir, derived_up, left)
        },
    }
}

} // verus!
