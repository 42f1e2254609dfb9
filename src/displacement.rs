use vstd::prelude::*;
use vstd::arithmetic::div_mod::{lemma_fundamental_div_mod, lemma_fundamental_div_mod_converse_mod};
use crate::ratio::{lemma_product_bound, Exact, Ratio};

verus! {

/// `x - floor(x)` of the fraction `n / d`, as a numerator over `d`.
pub open spec fn fract_spec(n: int, d: int) -> int {
    n % d
}

/// Fractional part `v - floor(v)`, over the same denominator as `v`.
pub fn fract(v: Exact) -> (r: Exact)
    requires
        v.wf(),
    ensures
        r.den == v.den,
        r.num == fract_spec(v.num as int, v.den as int),
        0 <= r.num < r.den,
{
    let d = v.den as u128;
    let a: u128 = if v.num < 0 { (-(v.num + 1)) as u128 + 1 } else { v.num as u128 };
    let m = a % d;
    proof {
        lemma_fundamental_div_mod(a as int, d as int);
        let q = (a as int) / (d as int);
        if v.num < 0 {
            if m == 0 {
                assert(v.num as int == (-q) * (d as int) + 0) by (nonlinear_arith)
                    requires a as int == (d as int) * q + m as int, m == 0, v.num as int == -(a as int);
                lemma_fundamental_div_mod_converse_mod(v.num as int, d as int, -q, 0);
            } else {
                assert(v.num as int == (-q - 1) * (d as int) + (d - m) as int) by (nonlinear_arith)
                    requires a as int == (d as int) * q + m as int, v.num as int == -(a as int);
                lemma_fundamental_div_mod_converse_mod(v.num as int, d as int, -q - 1, (d - m) as int);
            }
        } else {
            assert(v.num as int == q * (d as int) + m as int) by (nonlinear_arith)
                requires a as int == (d as int) * q + m as int, v.num as int == a as int;
            lemma_fundamental_div_mod_converse_mod(v.num as int, d as int, q, m as int);
        }
    }
    let r: i128 = if v.num < 0 && m != 0 { (d - m) as i128 } else { m as i128 };
    Exact { num: r, den: v.den }
}

/// The trigonometric samples that one displacement needs, each evaluated by
/// the caller at the interpolated position `p` and the elapsed time `t`.
#[derive(Clone, Copy, Debug, PartialEq, Eq, Structural)]
pub struct Waves {
    /// `hash3(normalize(p) + cos(t))`, in `[0, 1)`.
    pub jitter: Ratio,
    /// `sin(t)`.
    pub sin_time: Ratio,
    /// `sin(4 * t + p.x + p.z)`.
    pub wave_sine: Ratio,
    /// `cos(t + p.x)`.
    pub cos_x: Ratio,
    /// `sin(t + p.z)`.
    pub sin_z: Ratio,
}

/// A displaced position with exact coordinates.
#[derive(Clone, Copy, Debug, PartialEq, Eq, Structural)]
pub struct Displaced {
    pub x: Exact,
    pub y: Exact,
    pub z: Exact,
}

impl Displaced {
    /// The three coordinates as `(numerator, denominator)` pairs.
    pub open spec fn fractions(&self) -> ((int, int), (int, int), (int, int)) {
        (
            (self.x.num as int, self.x.den as int),
            (self.y.num as int, self.y.den as int),
            (self.z.num as int, self.z.den as int),
        )
    }
}

/// `dot((a, b), (12.9898, 78.233))` as an unreduced fraction.
pub open spec fn hash2_argument_spec(a: Ratio, b: Ratio) -> (int, int) {
    (129898 * a.num * b.den + 782330 * b.num * a.den, 10000 * a.den * b.den)
}

/// `dot((a, b, c), (12.9898, 78.233, 54.1232))` as an unreduced fraction.
pub open spec fn hash3_argument_spec(a: Ratio, b: Ratio, c: Ratio) -> (int, int) {
    (
        129898 * a.num * b.den * c.den + 782330 * b.num * a.den * c.den + 541232 * c.num * a.den * b.den,
        10000 * a.den * b.den * c.den,
    )
}

/// Vertical offset `jitter * (0.9 + 0.1 * sin_time) + wave_sine * sin_time * 8`
/// as an unreduced fraction.
pub open spec fn vertical_offset_spec(w: Waves) -> (int, int) {
    let (jn, jd) = (w.jitter.num as int, w.jitter.den as int);
    let (sn, sd) = (w.sin_time.num as int, w.sin_time.den as int);
    let (wn, wd) = (w.wave_sine.num as int, w.wave_sine.den as int);
    (jn * (9 * sd + sn) * wd + 80 * wn * sn * jd, 10 * jd * sd * wd)
}

/// Angle fed to the sine of the two-component hash.
pub fn hash2_argument(a: Ratio, b: Ratio) -> (r: Exact)
    requires
        a.wf(),
        b.wf(),
    ensures
        r.wf(),
        (r.num as int, r.den as int) == hash2_argument_spec(a, b),
{
    proof {
        lemma_product_bound(a.num as int, b.den as int, 0x8000_0000, 0x1_0000);
        lemma_product_bound(b.num as int, a.den as int, 0x8000_0000, 0x1_0000);
        assert(a.den * b.den > 0) by (nonlinear_arith) requires a.den > 0, b.den > 0;
        assert(a.den * b.den <= 0x1_0000_0000) by (nonlinear_arith) requires a.den <= 0x1_0000, b.den <= 0x1_0000;
    }
    let num = 129898 * ((a.num as i128) * (b.den as i128)) + 782330 * ((b.num as i128) * (a.den as i128));
    let den = 10000 * ((a.den as i128) * (b.den as i128));
    proof {
        assert(129898 * (a.num * b.den) == 129898 * a.num * b.den) by (nonlinear_arith);
        assert(782330 * (b.num * a.den) == 782330 * b.num * a.den) by (nonlinear_arith);
        assert(10000 * (a.den * b.den) == 10000 * a.den * b.den) by (nonlinear_arith);
    }
    Exact { num, den }
}

/// `x * y * z` for a 32-bit `x` and 16-bit `y`, `z`, without overflow.
fn product3(x: i32, y: u16, z: u16) -> (r: i128)
    ensures
        r == x * y * z,
        -0x8000_0000_0000_0000 <= r <= 0x8000_0000_0000_0000,
{
    proof {
        lemma_product_bound(x as int, y as int, 0x8000_0000, 0x1_0000);
        lemma_product_bound(x * y, z as int, 0x8000_0000_0000, 0x1_0000);
    }
    (x as i128) * (y as i128) * (z as i128)
}

/// Angle fed to the sine of the three-component hash.
pub fn hash3_argument(a: Ratio, b: Ratio, c: Ratio) -> (r: Exact)
    requires
        a.wf(),
        b.wf(),
        c.wf(),
    ensures
        r.wf(),
        (r.num as int, r.den as int) == hash3_argument_spec(a, b, c),
{
    let den = product3(a.den as i32, b.den, c.den);
    proof {
        assert(a.den * b.den * c.den > 0) by (nonlinear_arith) requires a.den > 0, b.den > 0, c.den > 0;
        assert(129898 * (a.num * b.den * c.den) == 129898 * a.num * b.den * c.den) by (nonlinear_arith);
        assert(782330 * (b.num * a.den * c.den) == 782330 * b.num * a.den * c.den) by (nonlinear_arith);
        assert(541232 * (c.num * a.den * b.den) == 541232 * c.num * a.den * b.den) by (nonlinear_arith);
        assert(10000 * (a.den * b.den * c.den) == 10000 * a.den * b.den * c.den) by (nonlinear_arith);
    }
    Exact {
        num: 129898 * product3(a.num, b.den, c.den) + 782330 * product3(b.num, a.den, c.den)
            + 541232 * product3(c.num, a.den, b.den),
        den: 10000 * den,
    }
}

/// The two-component hash `fract(sine * 43758.5453)`, given `sine`, the sine
/// of its argument.
pub fn hash2_from_sine(sine: Ratio) -> (r: Exact)
    requires
        sine.wf(),
    ensures
        r.den == 10000 * sine.den,
        r.num == fract_spec(437585453 * sine.num, 10000 * sine.den),
        0 <= r.num < r.den,
{
    fract(Exact { num: 437585453 * (sine.num as i128), den: 10000 * (sine.den as i128) })
}

/// The three-component hash `fract(sine * 4.5453)`, given `sine`, the sine
/// of its argument.
pub fn hash3_from_sine(sine: Ratio) -> (r: Exact)
    requires
        sine.wf(),
    ensures
        r.den == 10000 * sine.den,
        r.num == fract_spec(45453 * sine.num, 10000 * sine.den),
        0 <= r.num < r.den,
{
    fract(Exact { num: 45453 * (sine.num as i128), den: 10000 * (sine.den as i128) })
}

/// Vertical offset of a displaced point: the jitter scaled by the envelope
/// `0.9 + 0.1 * sin(t)`, plus the travelling wave `sin(4t + x + z) * sin(t) * 8`.
pub fn vertical_offset(w: Waves) -> (r: Exact)
    requires
        w.jitter.wf(),
        w.sin_time.wf(),
        w.wave_sine.wf(),
    ensures
        r.wf(),
        (r.num as int, r.den as int) == vertical_offset_spec(w),
        -0x40_0000_0000_0000_0000_0000 <= r.num <= 0x40_0000_0000_0000_0000_0000,
        r.den <= 0x10_0000_0000_0000,
{
    let jn = w.jitter.num as i128;
    let jd = w.jitter.den as i128;
    let sn = w.sin_time.num as i128;
    let sd = w.sin_time.den as i128;
    let wn = w.wave_sine.num as i128;
    let wd = w.wave_sine.den as i128;
    let env = 9 * sd + sn;
    proof {
        lemma_product_bound(jn as int, env as int, 0x8000_0000, 0x8010_0000);
        lemma_product_bound((jn * env) as int, wd as int, 0x4008_0000_0000_0000, 0x1_0000);
        lemma_product_bound(wn as int, sn as int, 0x8000_0000, 0x8000_0000);
        lemma_product_bound((wn * sn) as int, jd as int, 0x4000_0000_0000_0000, 0x1_0000);
        lemma_product_bound(jd as int, sd as int, 0x1_0000, 0x1_0000);
        lemma_product_bound((jd * sd) as int, wd as int, 0x1_0000_0000, 0x1_0000);
        assert(jd * sd * wd > 0) by (nonlinear_arith) requires jd > 0, sd > 0, wd > 0;
        assert(80 * (wn * sn * jd) == 80 * wn * sn * jd) by (nonlinear_arith);
        assert(10 * (jd * sd * wd) == 10 * jd * sd * wd) by (nonlinear_arith);
    }
    Exact { num: jn * env * wd + 80 * (wn * sn * jd), den: 10 * (jd * sd * wd) }
}

/// Breathing distortion of one horizontal coordinate: `coord * factor * 2`.
pub fn breathe(coord: Ratio, factor: Ratio) -> (r: Exact)
    requires
        coord.wf(),
        factor.wf(),
    ensures
        r.wf(),
        r.num == 2 * coord.num * factor.num,
        r.den == coord.den * factor.den,
{
    proof {
        lemma_product_bound(coord.num as int, factor.num as int, 0x8000_0000, 0x8000_0000);
        lemma_product_bound(coord.den as int, factor.den as int, 0x1_0000, 0x1_0000);
        assert(coord.den * factor.den > 0) by (nonlinear_arith) requires coord.den > 0, factor.den > 0;
        assert(2 * (coord.num * factor.num) == 2 * coord.num * factor.num) by (nonlinear_arith);
    }
    Exact {
        num: 2 * ((coord.num as i128) * (factor.num as i128)),
        den: (coord.den as i128) * (factor.den as i128),
    }
}

/// The displaced point as exact unreduced fractions: a function of the
/// undisplaced point and the frame's samples alone.
pub open spec fn displace_spec(x: Ratio, y: Ratio, z: Ratio, w: Waves) -> ((int, int), (int, int), (int, int)) {
    let (on, od) = vertical_offset_spec(w);
    (
        (2 * x.num * w.cos_x.num, x.den * w.cos_x.den),
        (y.num * od + on * y.den, y.den * od),
        (2 * z.num * w.sin_z.num, z.den * w.sin_z.den),
    )
}

/// Displaces the interpolated point `(x, y, z)` for one frame: `y` gains the
/// vertical offset, `x` is scaled by `cos(t + x) * 2` and `z` by `sin(t + z) * 2`.
pub fn displace(x: Ratio, y: Ratio, z: Ratio, w: Waves) -> (r: Displaced)
    requires
        x.wf(),
        y.wf(),
        z.wf(),
        w.jitter.wf(),
        w.sin_time.wf(),
        w.wave_sine.wf(),
        w.cos_x.wf(),
        w.sin_z.wf(),
    ensures
        r.x.wf() && r.y.wf() && r.z.wf(),
        r.fractions() == displace_spec(x, y, z, w),
{
    let off = vertical_offset(w);
    proof {
        lemma_product_bound(y.num as int, off.den as int, 0x8000_0000, 0x10_0000_0000_0000);
        lemma_product_bound(off.num as int, y.den as int, 0x40_0000_0000_0000_0000_0000, 0x1_0000);
        assert(y.den * off.den > 0) by (nonlinear_arith) requires y.den > 0, off.den > 0;
        lemma_product_bound(y.den as int, off.den as int, 0x1_0000, 0x10_0000_0000_0000);
    }
    Displaced {
        x: breathe(x, w.cos_x),
        y: Exact {
            num: (y.num as i128) * off.den + off.num * (y.den as i128),
            den: (y.den as i128) * off.den,
        },
        z: breathe(z, w.sin_z),
    }
}

} // verus!
