//! The per-bounce decisions of the path integrator.
//!
//! The integrator's loop — nearest-hit search and the recursion over
//! bounces — compares scalar floating-point distances and so runs outside
//! the verified library. What it decides at each bounce is fixed here:
//! a ray whose recursion budget ran out is black, a ray that missed the
//! scene is the background, and a hit combines emission with whatever the
//! scattered ray brought back.

use vstd::prelude::*;

use crate::glam_ext::{add_of, dvec3_add, dvec3_mul, mul_of};

verus! {

/// One step of the light-transport estimate at a hit point.
///
/// A material emits, and may scatter. When it scatters, the radiance
/// carried back along the scattered ray is attenuated component-wise and
/// added to the emission; when the ray is absorbed, the emission alone is
/// returned.
pub fn combine_radiance(
    emission: glam::DVec3,
    scattered: Option<(glam::DVec3, glam::DVec3)>,
) -> (r: glam::DVec3)
    ensures
        scattered matches Some((incoming, attenuation)) ==> r == add_of(
            emission,
            mul_of(incoming, attenuation),
        ),
        scattered is None ==> r == emission,
{
    match scattered {
        Some((incoming, attenuation)) => dvec3_add(emission, dvec3_mul(incoming, attenuation)),
        None => emission,
    }
}

/// The whole decision the integrator takes for one ray.
///
/// A ray whose recursion budget is spent yields `black`, whatever else
/// happened; a live ray that hit nothing yields `background`, exactly; a
/// live ray that hit a surface carries that hit's emission and scatter
/// outcome through `combine_radiance`. The loop around this — finding the
/// hit and tracing the scattered ray — hands its results in as `outcome`:
/// the hit's emission, paired with the scattered ray's radiance and
/// attenuation when the material scattered.
pub fn radiance_step(
    depth: u32,
    black: glam::DVec3,
    background: glam::DVec3,
    outcome: Option<(glam::DVec3, Option<(glam::DVec3, glam::DVec3)>)>,
) -> (r: glam::DVec3)
    ensures
        depth == 0 ==> r == black,
        depth > 0 && outcome is None ==> r == background,
        outcome matches Some((emission, scattered)) ==> ((depth > 0 && scattered is None)
            ==> r == emission),
        outcome matches Some((emission, Some((incoming, attenuation)))) ==> (depth > 0
            ==> r == add_of(emission, mul_of(incoming, attenuation))),
{
    if depth == 0 {
        black
    } else {
        match outcome {
            Some((emission, scattered)) => combine_radiance(emission, scattered),
            None => background,
        }
    }
}

} // verus!
