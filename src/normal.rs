use vstd::prelude::*;
use crate::interpolation::Vec3;

verus! {

/// An integer vector wide enough to hold a cross product of two edges.
#[derive(Clone, Copy, Debug, PartialEq, Eq, Structural)]
pub struct Wide3 {
    pub x: i128,
    pub y: i128,
    pub z: i128,
}

/// Cross product of `(ax, ay, az)` and `(bx, by, bz)`.
pub open spec fn cross_spec(ax: int, ay: int, az: int, bx: int, by: int, bz: int) -> (int, int, int) {
    (ay * bz - az * by, az * bx - ax * bz, ax * by - ay * bx)
}

/// The flat normal of triangle `p0, p1, p2`: `cross(p0 - p1, p0 - p2)`.
pub open spec fn face_normal_spec(p0: Vec3, p1: Vec3, p2: Vec3) -> (int, int, int) {
    cross_spec(
        p0.x - p1.x, p0.y - p1.y, p0.z - p1.z,
        p0.x - p2.x, p0.y - p2.y, p0.z - p2.z,
    )
}

/// `a * d - b * c` for 33-bit operands, without overflow.
fn det2(a: i64, b: i64, c: i64, d: i64) -> (r: i128)
    requires
        -0x1_0000_0000 <= a <= 0x1_0000_0000,
        -0x1_0000_0000 <= b <= 0x1_0000_0000,
        -0x1_0000_0000 <= c <= 0x1_0000_0000,
        -0x1_0000_0000 <= d <= 0x1_0000_0000,
    ensures
        r == a * d - b * c,
{
    assert(-0x1_0000_0000_0000_0000 <= a * d <= 0x1_0000_0000_0000_0000) by (nonlinear_arith)
        requires -0x1_0000_0000 <= a <= 0x1_0000_0000, -0x1_0000_0000 <= d <= 0x1_0000_0000;
    assert(-0x1_0000_0000_0000_0000 <= b * c <= 0x1_0000_0000_0000_0000) by (nonlinear_arith)
        requires -0x1_0000_0000 <= b <= 0x1_0000_0000, -0x1_0000_0000 <= c <= 0x1_0000_0000;
    (a as i128) * (d as i128) - (b as i128) * (c as i128)
}

/// Flat normal shared by the three vertices of one output triangle, left
/// unnormalised: its length is twice the triangle's area.
pub fn reconstruct_normal(p0: Vec3, p1: Vec3, p2: Vec3) -> (r: Wide3)
    ensures
        (r.x as int, r.y as int, r.z as int) == face_normal_spec(p0, p1, p2),
{
    let ax = p0.x as i64 - p1.x as i64;
    let ay = p0.y as i64 - p1.y as i64;
    let az = p0.z as i64 - p1.z as i64;
    let bx = p0.x as i64 - p2.x as i64;
    let by = p0.y as i64 - p2.y as i64;
    let bz = p0.z as i64 - p2.z as i64;
    Wide3 { x: det2(ay, az, by, bz), y: det2(az, ax, bz, bx), z: det2(ax, ay, bx, by) }
}

} // verus!
