//! The one convention every material shares: which way the shading normal
//! points.
//!
//! The scattering models themselves (diffuse bounce, metal reflection with
//! fuzz, dielectric refraction) draw random numbers and compare scalar
//! floating-point values, so they live outside the verified library; each
//! of them orients the hit normal through this function first.

use vstd::prelude::*;

use crate::glam_ext::{dvec3_neg, neg_of};
use crate::hittable::Facing;

verus! {

/// The stored hit normal always points outward. Scattering works with the
/// normal on the struck side: unchanged for a `Front` hit, negated for a
/// `Back` hit.
pub fn oriented_normal(normal: glam::DVec3, facing: Facing) -> (n: glam::DVec3)
    ensures
        facing is Front ==> n == normal,
        facing is Back ==> n == neg_of(normal),
{
    match facing {
        Facing::Front => normal,
        Facing::Back => dvec3_neg(normal),
    }
}

} // verus!
