use vstd::prelude::*;
use crate::ratio::{lemma_product_bound, Exact, Ratio};

verus! {

/// Distance over which the fog reaches full white.
pub const FOG_RANGE: i128 = 400;

/// An opaque colour with exact channels.
#[derive(Clone, Copy, Debug, PartialEq, Eq, Structural)]
pub struct Rgba {
    pub r: Exact,
    pub g: Exact,
    pub b: Exact,
    pub a: Exact,
}

/// `v` clamped to `[1/10, 1]`.
pub open spec fn base_value_spec(v: Ratio) -> Ratio {
    if 10 * v.num < v.den {
        Ratio { num: 1, den: 10 }
    } else if v.num > v.den {
        Ratio { num: 1, den: 1 }
    } else {
        v
    }
}

/// `max(v, 0)`.
pub open spec fn luminance_spec(v: Ratio) -> Ratio {
    if v.num < 0 {
        Ratio { num: 0, den: 1 }
    } else {
        v
    }
}

pub open spec fn abs_spec(n: int) -> int {
    if n < 0 { -n } else { n }
}

/// One colour channel as an unreduced fraction, for base value `c`, light
/// term `l` and camera distance `dn / dd`, with `f = |dn| / (400 * dd)`:
/// `mix(c, 1, f) * (l / 20 + 19 * f / 20)`.
pub open spec fn channel_spec(c: Ratio, l: Ratio, dn: int, dd: int) -> (int, int) {
    let f = abs_spec(dn);
    let mix_num = FOG_RANGE * dd * c.num + (c.den - c.num) * f;
    let mix_den = FOG_RANGE * c.den * dd;
    let weight_num = FOG_RANGE * dd * l.num + 19 * f * l.den;
    let weight_den = 20 * FOG_RANGE * l.den * dd;
    (mix_num * weight_num, mix_den * weight_den)
}

/// Height ramp of the base colour: `v` clamped to `[0.1, 1.0]`.
pub fn base_value(v: Ratio) -> (r: Ratio)
    requires
        v.wf(),
    ensures
        r == base_value_spec(v),
        r.wf(),
{
    if 10 * (v.num as i64) < v.den as i64 {
        Ratio { num: 1, den: 10 }
    } else if v.num as i64 > v.den as i64 {
        Ratio { num: 1, den: 1 }
    } else {
        v
    }
}

/// Direct-light term: the cosine between normal and light, floored at zero.
pub fn luminance(cos_light: Ratio) -> (r: Ratio)
    requires
        cos_light.wf(),
    ensures
        r == luminance_spec(cos_light),
        r.wf(),
{
    if cos_light.num < 0 {
        Ratio { num: 0, den: 1 }
    } else {
        cos_light
    }
}

/// Colour channel for base value `base`, light term `lum` and camera distance
/// `distance`: the base is faded toward white by `f = |distance| / 400`, then
/// weighted by `lum / 20 + 19 * f / 20`.
pub fn shade_channel(base: Ratio, lum: Ratio, distance: Ratio) -> (r: Exact)
    requires
        base.wf(),
        lum.wf(),
        distance.wf(),
    ensures
        r.wf(),
        (r.num as int, r.den as int) == channel_spec(base, lum, distance.num as int, distance.den as int),
{
    let f: i128 = if distance.num < 0 { -(distance.num as i128) } else { distance.num as i128 };
    let dd = distance.den as i128;
    let cn = base.num as i128;
    let cd = base.den as i128;
    let ln = lum.num as i128;
    let ld = lum.den as i128;
    proof {
        lemma_product_bound(dd as int, cn as int, 0x1_0000, 0x8000_0000);
        lemma_product_bound((cd - cn) as int, (f) as int, 0x8001_0000, 0x8000_0000);
        lemma_product_bound(dd as int, ln as int, 0x1_0000, 0x8000_0000);
        lemma_product_bound(f as int, ld as int, 0x8000_0000, 0x1_0000);
        lemma_product_bound(cd as int, dd as int, 0x1_0000, 0x1_0000);
        lemma_product_bound(ld as int, dd as int, 0x1_0000, 0x1_0000);
    }
    let mix_num = FOG_RANGE * (dd * cn) + (cd - cn) * f;
    let mix_den = FOG_RANGE * (cd * dd);
    let weight_num = FOG_RANGE * (dd * ln) + 19 * (f * ld);
    let weight_den = 20 * FOG_RANGE * (ld * dd);
    proof {
        lemma_product_bound(mix_num as int, weight_num as int, 0x8000_0000_0000_0000, 0x100_0000_0000_0000);
        assert(cd * dd > 0 && ld * dd > 0) by (nonlinear_arith)
            requires cd > 0, dd > 0, ld > 0;
        lemma_product_bound(mix_den as int, weight_den as int, 0x200_0000_0000, 0x4000_0000_0000);
        assert(FOG_RANGE * (dd * cn) == FOG_RANGE * dd * cn) by (nonlinear_arith);
        assert(FOG_RANGE * (dd * ln) == FOG_RANGE * dd * ln) by (nonlinear_arith);
        assert(19 * (f * ld) == 19 * f * ld) by (nonlinear_arith);
        assert(FOG_RANGE * (cd * dd) == FOG_RANGE * cd * dd) by (nonlinear_arith);
        assert(20 * FOG_RANGE * (ld * dd) == 20 * FOG_RANGE * ld * dd) by (nonlinear_arith);
        assert(mix_den * weight_den > 0) by (nonlinear_arith)
            requires mix_den > 0, weight_den > 0;
    }
    Exact { num: mix_num * weight_num, den: mix_den * weight_den }
}

/// Final opaque grey colour of a fragment, from the height of its unit
/// direction from the origin `height_dir`, the cosine between its normal and
/// the light `cos_light`, and its distance from the camera `distance`.
pub fn shade(height_dir: Ratio, cos_light: Ratio, distance: Ratio) -> (r: Rgba)
    requires
        height_dir.wf(),
        cos_light.wf(),
        distance.wf(),
    ensures
        (r.r.num as int, r.r.den as int) == channel_spec(
            base_value_spec(height_dir),
            luminance_spec(cos_light),
            distance.num as int,
            distance.den as int,
        ),
        r.g == r.r,
        r.b == r.r,
        r.a == (Exact { num: 1, den: 1 }),
        r.r.wf(),
{
    let base = base_value(height_dir);
    let lum = luminance(cos_light);
    let c = shade_channel(base, lum, distance);
    Rgba { r: c, g: c, b: c, a: Exact { num: 1, den: 1 } }
}

/// The two ends of the fog: at distance zero with full light a channel is
/// exactly the base value times `0.05`; once the fog factor
/// `f = |distance| / 400` reaches `20 / 19`, a channel is at least one (white
/// once displayed) for any base value in `[0, 1]` and any non-negative light.
pub proof fn lemma_fog_ends(base: Ratio, lum: Ratio, dn: int, dd: int)
    requires
        base.wf(),
        lum.wf(),
        dd > 0,
    ensures
        dn == 0 && lum.num == lum.den ==> ({
            let (n, d) = channel_spec(base, lum, dn, dd);
            n * 20 * base.den == base.num * d
        }),
        0 <= base.num <= base.den && lum.num >= 0 && 19 * abs_spec(dn) >= 20 * FOG_RANGE * dd ==> ({
            let (n, d) = channel_spec(base, lum, dn, dd);
            n >= d
        }),
{
    let (n, d) = channel_spec(base, lum, dn, dd);
    let f = abs_spec(dn);
    let cn = base.num as int;
    let cd = base.den as int;
    let ln = lum.num as int;
    let ld = lum.den as int;
    let mix_num = FOG_RANGE * dd * cn + (cd - cn) * f;
    let mix_den = FOG_RANGE * cd * dd;
    let weight_num = FOG_RANGE * dd * ln + 19 * f * ld;
    let weight_den = 20 * FOG_RANGE * ld * dd;
    assert(n == mix_num * weight_num && d == mix_den * weight_den);
    if dn == 0 && lum.num == lum.den {
        assert((cd - cn) * f == 0 && 19 * f * ld == 0) by (nonlinear_arith)
            requires f == 0;
        assert(n * 20 * cd == cn * d) by (nonlinear_arith)
            requires
                n == mix_num * weight_num,
                d == mix_den * weight_den,
                mix_num == FOG_RANGE * dd * cn,
                weight_num == FOG_RANGE * dd * ld,
                mix_den == FOG_RANGE * cd * dd,
                weight_den == 20 * FOG_RANGE * ld * dd,
        ;
    }
    if 0 <= cn <= cd && ln >= 0 && 19 * f >= 20 * FOG_RANGE * dd {
        assert(19 * f >= 8000 * dd);
        assert(f >= 400 * dd);
        assert(mix_num >= mix_den) by (nonlinear_arith)
            requires
                mix_num == FOG_RANGE * dd * cn + (cd - cn) * f,
                mix_den == FOG_RANGE * cd * dd,
                0 <= cn <= cd,
                f >= FOG_RANGE * dd,
                dd > 0,
        ;
        assert(weight_num >= weight_den) by (nonlinear_arith)
            requires
                weight_num == FOG_RANGE * dd * ln + 19 * f * ld,
                weight_den == 20 * FOG_RANGE * ld * dd,
                19 * f >= 20 * FOG_RANGE * dd,
                ln >= 0,
                ld > 0,
                dd > 0,
        ;
        assert(mix_den > 0 && weight_den > 0) by (nonlinear_arith)
            requires
                mix_den == FOG_RANGE * cd * dd,
                weight_den == 20 * FOG_RANGE * ld * dd,
                cd > 0,
                ld > 0,
                dd > 0,
        ;
        assert(mix_num * weight_num >= mix_den * weight_den) by (nonlinear_arith)
            requires
                mix_num >= mix_den > 0,
                weight_num >= weight_den > 0,
        ;
    }
}

} // verus!
