//! Which side of a surface a ray struck, and the parts of primitive
//! construction that are fixed by the stored data alone.
//!
//! The intersection tests themselves (sphere quadratic, Möller–Trumbore)
//! run on scalar floating-point values and live outside the verified
//! library.

use vstd::prelude::*;

use crate::glam_ext::{cross_of, dvec3_cross, dvec3_sub, dvec3_unit, sub_of, unit_of};

verus! {

/// Whether a ray struck a surface's outward (`Front`) or inward (`Back`) side.
#[derive(Debug, Clone, Copy)]
pub enum Facing {
    Front,
    Back,
}

/// The two edge vectors a triangle precomputes at construction:
/// both leave the first vertex, one toward each other vertex.
///
/// The triangle invariant is that its stored edges track its stored
/// vertices; deriving them here pins them to exactly these differences.
pub fn triangle_edges(vertices: &[glam::DVec3; 3]) -> (e: (glam::DVec3, glam::DVec3))
    ensures
        e.0 == sub_of(vertices[1], vertices[0]),
        e.1 == sub_of(vertices[2], vertices[0]),
{
    let v1 = dvec3_sub(vertices[1], vertices[0]);
    let v2 = dvec3_sub(vertices[2], vertices[0]);
    (v1, v2)
}

/// The single flat normal of a triangle with no per-vertex attributes:
/// the normalized cross product of its two edge vectors.
pub fn face_normal(e1: glam::DVec3, e2: glam::DVec3) -> (n: glam::DVec3)
    ensures
        n == unit_of(cross_of(e1, e2)),
{
    dvec3_unit(dvec3_cross(e1, e2))
}

} // verus!
