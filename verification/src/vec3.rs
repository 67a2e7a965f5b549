//! Three-component fixed-point vectors (the simulation uses the `x`/`y`
//! plane and keeps `z` at zero, as the host's render space does).

use vstd::prelude::*;

verus! {

use crate::fixed::{
    fp_add, fp_add_spec, fp_div, fp_div_spec, fp_mul, fp_mul_spec, fp_sqrt, fp_sqrt_spec, fp_sub,
    fp_sub_spec,
};

/// A vector of three fixed-point scalars (thousandths of a unit).
#[derive(Clone, Copy, PartialEq, Eq, Structural, Debug)]
pub struct Vec3 {
    pub x: i64,
    pub y: i64,
    pub z: i64,
}

/// The zero vector.
pub open spec fn vzero_spec() -> Vec3 {
    Vec3 { x: 0, y: 0, z: 0 }
}

/// Component-wise saturating sum.
pub open spec fn vadd_spec(a: Vec3, b: Vec3) -> Vec3 {
    Vec3 {
        x: fp_add_spec(a.x as int, b.x as int) as i64,
        y: fp_add_spec(a.y as int, b.y as int) as i64,
        z: fp_add_spec(a.z as int, b.z as int) as i64,
    }
}

/// Component-wise saturating difference.
pub open spec fn vsub_spec(a: Vec3, b: Vec3) -> Vec3 {
    Vec3 {
        x: fp_sub_spec(a.x as int, b.x as int) as i64,
        y: fp_sub_spec(a.y as int, b.y as int) as i64,
        z: fp_sub_spec(a.z as int, b.z as int) as i64,
    }
}

/// Each component multiplied by the fixed-point scalar `s`.
pub open spec fn vscale_spec(v: Vec3, s: int) -> Vec3 {
    Vec3 {
        x: fp_mul_spec(v.x as int, s) as i64,
        y: fp_mul_spec(v.y as int, s) as i64,
        z: fp_mul_spec(v.z as int, s) as i64,
    }
}

/// Each component divided by the fixed-point scalar `s`.
pub open spec fn vdiv_spec(v: Vec3, s: int) -> Vec3 {
    Vec3 {
        x: fp_div_spec(v.x as int, s) as i64,
        y: fp_div_spec(v.y as int, s) as i64,
        z: fp_div_spec(v.z as int, s) as i64,
    }
}

/// Fixed-point dot product, accumulated left to right.
pub open spec fn vdot_spec(a: Vec3, b: Vec3) -> int {
    fp_add_spec(
        fp_add_spec(
            fp_mul_spec(a.x as int, b.x as int),
            fp_mul_spec(a.y as int, b.y as int),
        ),
        fp_mul_spec(a.z as int, b.z as int),
    )
}

/// Euclidean length of `v` in fixed-point units.
pub open spec fn vnorm_spec(v: Vec3) -> int {
    fp_sqrt_spec(vdot_spec(v, v))
}

/// Euclidean distance between the points `a` and `b`.
pub open spec fn vdist_spec(a: Vec3, b: Vec3) -> int {
    vnorm_spec(vsub_spec(b, a))
}

/// Unit vector along `v`; the zero vector when the length of `v` rounds
/// to zero at fixed-point resolution.
pub open spec fn vnormalize_spec(v: Vec3) -> Vec3 {
    let n = vnorm_spec(v);
    if n == 0 {
        vzero_spec()
    } else {
        vdiv_spec(v, n)
    }
}

/// The zero vector.
pub fn vzero() -> (r: Vec3)
    ensures
        r == vzero_spec(),
{
    Vec3 { x: 0, y: 0, z: 0 }
}

/// Component-wise saturating sum.
pub fn vadd(a: Vec3, b: Vec3) -> (r: Vec3)
    ensures
        r == vadd_spec(a, b),
{
    Vec3 { x: fp_add(a.x, b.x), y: fp_add(a.y, b.y), z: fp_add(a.z, b.z) }
}

/// Component-wise saturating difference.
pub fn vsub(a: Vec3, b: Vec3) -> (r: Vec3)
    ensures
        r == vsub_spec(a, b),
{
    Vec3 { x: fp_sub(a.x, b.x), y: fp_sub(a.y, b.y), z: fp_sub(a.z, b.z) }
}

/// Each component multiplied by the fixed-point scalar `s`.
pub fn vscale(v: Vec3, s: i64) -> (r: Vec3)
    ensures
        r == vscale_spec(v, s as int),
{
    Vec3 { x: fp_mul(v.x, s), y: fp_mul(v.y, s), z: fp_mul(v.z, s) }
}

/// Each component divided by the fixed-point scalar `s`.
pub fn vdiv(v: Vec3, s: i64) -> (r: Vec3)
    ensures
        r == vdiv_spec(v, s as int),
{
    Vec3 { x: fp_div(v.x, s), y: fp_div(v.y, s), z: fp_div(v.z, s) }
}

/// Fixed-point dot product.
pub fn vdot(a: Vec3, b: Vec3) -> (r: i64)
    ensures
        r == vdot_spec(a, b),
{
    fp_add(fp_add(fp_mul(a.x, b.x), fp_mul(a.y, b.y)), fp_mul(a.z, b.z))
}

/// Euclidean length of `v`.
pub fn vnorm(v: Vec3) -> (r: i64)
    ensures
        r == vnorm_spec(v),
{
    fp_sqrt(vdot(v, v))
}

/// Euclidean distance between the points `a` and `b`.
pub fn vdist(a: Vec3, b: Vec3) -> (r: i64)
    ensures
        r == vdist_spec(a, b),
{
    vnorm(vsub(b, a))
}

/// Unit vector along `v`, or the zero vector when the length of `v`
/// rounds to zero.
pub fn vnormalize(v: Vec3) -> (r: Vec3)
    ensures
        r == vnormalize_spec(v),
{
    let n = vnorm(v);
    if n == 0 {
        vzero()
    } else {
        vdiv(v, n)
    }
}

/// Adding the zero vector leaves a vector unchanged.
pub proof fn lemma_vadd_zero(v: Vec3)
    ensures
        vadd_spec(v, vzero_spec()) == v,
{
}

} // verus!
