use vstd::prelude::*;

verus! {

/// A point or direction with integer coordinates.
#[derive(Clone, Copy, Debug, PartialEq, Eq, Structural)]
pub struct Vec3 {
    pub x: i32,
    pub y: i32,
    pub z: i32,
}

/// A texture coordinate with integer components.
#[derive(Clone, Copy, Debug, PartialEq, Eq, Structural)]
pub struct Vec2 {
    pub s: i32,
    pub t: i32,
}

/// Barycentric sample with weights `u / n`, `v / n`, `w / n` where
/// `n = u + v + w`: the weights are non-negative and sum to exactly one.
#[derive(Clone, Copy, Debug, PartialEq, Eq, Structural)]
pub struct Bary {
    pub u: u32,
    pub v: u32,
    pub w: u32,
}

/// A point with exact rational coordinates over one common denominator.
#[derive(Clone, Copy, Debug, PartialEq, Eq, Structural)]
pub struct Point3 {
    pub x: i128,
    pub y: i128,
    pub z: i128,
    pub den: i128,
}

/// A texture coordinate with exact rational components over one common denominator.
#[derive(Clone, Copy, Debug, PartialEq, Eq, Structural)]
pub struct Point2 {
    pub s: i128,
    pub t: i128,
    pub den: i128,
}

impl Bary {
    /// Sum of the three raw weights; each weight is divided by it.
    pub open spec fn total(&self) -> int {
        self.u + self.v + self.w
    }

    pub open spec fn wf(&self) -> bool {
        self.total() > 0
    }

    pub fn new(u: u32, v: u32, w: u32) -> (r: Bary)
        requires
            u + v + w > 0,
        ensures
            r == (Bary { u, v, w }),
            r.wf(),
    {
        Bary { u, v, w }
    }
}

/// Numerator of the weighted sum of three scalars; its denominator is `b.total()`.
pub open spec fn blend_spec(b: Bary, a0: int, a1: int, a2: int) -> int {
    b.u * a0 + b.v * a1 + b.w * a2
}

/// Numerator of the weighted sum `u * a0 + v * a1 + w * a2`.
pub fn blend(b: Bary, a0: i32, a1: i32, a2: i32) -> (r: i128)
    ensures
        r == blend_spec(b, a0 as int, a1 as int, a2 as int),
{
    assert(-0x8000_0000_0000_0000 <= b.u * a0 <= 0x8000_0000_0000_0000) by (nonlinear_arith)
        requires 0 <= b.u <= 0xffff_ffff, -0x8000_0000 <= a0 <= 0x8000_0000;
    assert(-0x8000_0000_0000_0000 <= b.v * a1 <= 0x8000_0000_0000_0000) by (nonlinear_arith)
        requires 0 <= b.v <= 0xffff_ffff, -0x8000_0000 <= a1 <= 0x8000_0000;
    assert(-0x8000_0000_0000_0000 <= b.w * a2 <= 0x8000_0000_0000_0000) by (nonlinear_arith)
        requires 0 <= b.w <= 0xffff_ffff, -0x8000_0000 <= a2 <= 0x8000_0000;
    (b.u as i128) * (a0 as i128) + (b.v as i128) * (a1 as i128) + (b.w as i128) * (a2 as i128)
}

/// Position at barycentric sample `b` of the triangle `p0, p1, p2`.
pub fn interpolate_position(b: Bary, p0: Vec3, p1: Vec3, p2: Vec3) -> (r: Point3)
    requires
        b.wf(),
    ensures
        r.den == b.total(),
        r.x == blend_spec(b, p0.x as int, p1.x as int, p2.x as int),
        r.y == blend_spec(b, p0.y as int, p1.y as int, p2.y as int),
        r.z == blend_spec(b, p0.z as int, p1.z as int, p2.z as int),
{
    Point3 {
        x: blend(b, p0.x, p1.x, p2.x),
        y: blend(b, p0.y, p1.y, p2.y),
        z: blend(b, p0.z, p1.z, p2.z),
        den: b.u as i128 + b.v as i128 + b.w as i128,
    }
}

/// Texture coordinate at barycentric sample `b` of the triangle's corners.
pub fn interpolate_texture(b: Bary, t0: Vec2, t1: Vec2, t2: Vec2) -> (r: Point2)
    requires
        b.wf(),
    ensures
        r.den == b.total(),
        r.s == blend_spec(b, t0.s as int, t1.s as int, t2.s as int),
        r.t == blend_spec(b, t0.t as int, t1.t as int, t2.t as int),
{
    Point2 {
        s: blend(b, t0.s, t1.s, t2.s),
        t: blend(b, t0.t, t1.t, t2.t),
        den: b.u as i128 + b.v as i128 + b.w as i128,
    }
}

/// A sample whose whole weight lies on one corner reproduces that corner
/// exactly: every blended scalar equals that corner's value. Any sample's
/// weights sum to one.
pub proof fn lemma_corners_reproduced(b: Bary, a0: int, a1: int, a2: int)
    requires
        b.wf(),
    ensures
        b.u + b.v + b.w == b.total() > 0,
        b.v == 0 && b.w == 0 ==> blend_spec(b, a0, a1, a2) == a0 * b.total(),
        b.u == 0 && b.w == 0 ==> blend_spec(b, a0, a1, a2) == a1 * b.total(),
        b.u == 0 && b.v == 0 ==> blend_spec(b, a0, a1, a2) == a2 * b.total(),
{
    if b.v == 0 && b.w == 0 {
        assert(blend_spec(b, a0, a1, a2) == a0 * b.total()) by (nonlinear_arith)
            requires b.v == 0, b.w == 0, b.total() == b.u + b.v + b.w;
    }
    if b.u == 0 && b.w == 0 {
        assert(blend_spec(b, a0, a1, a2) == a1 * b.total()) by (nonlinear_arith)
            requires b.u == 0, b.w == 0, b.total() == b.u + b.v + b.w;
    }
    if b.u == 0 && b.v == 0 {
        assert(blend_spec(b, a0, a1, a2) == a2 * b.total()) by (nonlinear_arith)
            requires b.u == 0, b.v == 0, b.total() == b.u + b.v + b.w;
    }
}

} // verus!
