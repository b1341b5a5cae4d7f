//! Trust boundary around `glam`'s double-precision vector type.
//!
//! All positions, directions and linear-space colors are carried as
//! `glam::DVec3` values. The type is declared opaque here; the component
//! arithmetic stays inside `glam`. Each operation the library leans on is
//! given a name, and a wrapper whose contract ties the call to that name.

use vstd::prelude::*;

verus! {

#[verifier::external_type_specification]
#[verifier::external_body]
pub struct ExDVec3(glam::DVec3);

/// Component-wise negation of a vector, as `glam`'s `Neg` impl computes it.
pub uninterp spec fn neg_of(v: glam::DVec3) -> glam::DVec3;

/// Component-wise sum of two vectors, as `glam`'s `Add` impl computes it.
pub uninterp spec fn add_of(a: glam::DVec3, b: glam::DVec3) -> glam::DVec3;

/// Component-wise difference of two vectors, as `glam`'s `Sub` impl computes it.
pub uninterp spec fn sub_of(a: glam::DVec3, b: glam::DVec3) -> glam::DVec3;

/// Component-wise product of two vectors, as `glam`'s `Mul` impl computes it.
pub uninterp spec fn mul_of(a: glam::DVec3, b: glam::DVec3) -> glam::DVec3;

/// Cross product of two vectors, as `glam::DVec3::cross` computes it.
pub uninterp spec fn cross_of(a: glam::DVec3, b: glam::DVec3) -> glam::DVec3;

/// The argument divided by its Euclidean length, as `glam::DVec3::normalize`
/// computes it (non-finite components when that length is zero).
pub uninterp spec fn unit_of(v: glam::DVec3) -> glam::DVec3;

/// Relies on glam's `Neg` impl for `DVec3`: component-wise negation,
/// a function of the argument alone.
#[verifier::external_body]
pub(crate) fn dvec3_neg(v: glam::DVec3) -> (r: glam::DVec3)
    ensures
        r == neg_of(v),
{
    -v
}

/// Relies on glam's `Add` impl for `DVec3`: component-wise addition,
/// a function of the arguments alone.
#[verifier::external_body]
pub(crate) fn dvec3_add(a: glam::DVec3, b: glam::DVec3) -> (r: glam::DVec3)
    ensures
        r == add_of(a, b),
{
    a + b
}

/// Relies on glam's `Sub` impl for `DVec3`: component-wise subtraction,
/// a function of the arguments alone.
#[verifier::external_body]
pub(crate) fn dvec3_sub(a: glam::DVec3, b: glam::DVec3) -> (r: glam::DVec3)
    ensures
        r == sub_of(a, b),
{
    a - b
}

/// Relies on glam's `Mul` impl for `DVec3`: component-wise multiplication,
/// a function of the arguments alone.
#[verifier::external_body]
pub(crate) fn dvec3_mul(a: glam::DVec3, b: glam::DVec3) -> (r: glam::DVec3)
    ensures
        r == mul_of(a, b),
{
    a * b
}

/// Relies on `glam::DVec3::cross`: the cross product,
/// a function of the arguments alone.
#[verifier::external_body]
pub(crate) fn dvec3_cross(a: glam::DVec3, b: glam::DVec3) -> (r: glam::DVec3)
    ensures
        r == cross_of(a, b),
{
    glam::DVec3::cross(a, b)
}

/// Relies on `glam::DVec3::normalize`: the argument divided by its length,
/// a function of the argument alone (it does not panic under the crate's
/// default features; a zero-length argument gives non-finite components).
#[verifier::external_body]
pub(crate) fn dvec3_unit(v: glam::DVec3) -> (r: glam::DVec3)
    ensures
        r == unit_of(v),
{
    glam::DVec3::normalize(v)
}

} // verus!
