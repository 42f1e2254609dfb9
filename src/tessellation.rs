use vstd::prelude::*;
use crate::ratio::{Exact, Ratio};

verus! {

/// Subdivision level used on every patch edge.
pub const OUTER_LEVEL: i128 = 6;

/// Distance within which patches are subdivided more finely than the minimum.
pub const INNER_RANGE: i128 = 200;

/// Subdivision levels of one patch: three edge levels and one interior level.
#[derive(Clone, Copy, Debug)]
pub struct TessLevels {
    pub outer: [Exact; 3],
    pub inner: Exact,
}

/// Whether distance `dn / dd` lies within the inner range.
pub open spec fn within_spec(dn: int, dd: int) -> bool {
    dn <= INNER_RANGE * dd
}

/// Inner level at distance `dn / dd`, as an unreduced fraction
/// `1 + within * ((range - d) / range) * 10`.
pub open spec fn inner_level_spec(dn: int, dd: int) -> (int, int) {
    if within_spec(dn, dd) {
        ((INNER_RANGE + INNER_RANGE / 10) * dd - dn, (INNER_RANGE / 10) * dd)
    } else {
        (1, 1)
    }
}

/// Whether a control point at distance `dist` from the camera lies within
/// the inner range (the distance equal to the range included).
pub fn within_inner_range(dist: Ratio) -> (r: bool)
    requires
        dist.wf(),
    ensures
        r == within_spec(dist.num as int, dist.den as int),
{
    (dist.num as i128) <= INNER_RANGE * (dist.den as i128)
}

/// Interior subdivision level for a control point at distance `dist`.
pub fn inner_level(dist: Ratio) -> (r: Exact)
    requires
        dist.wf(),
        dist.num >= 0,
    ensures
        r.wf(),
        (r.num as int, r.den as int) == inner_level_spec(dist.num as int, dist.den as int),
{
    if within_inner_range(dist) {
        let dd = dist.den as i128;
        Exact { num: 220 * dd - dist.num as i128, den: 20 * dd }
    } else {
        Exact { num: 1, den: 1 }
    }
}

/// Subdivision levels for a patch whose control point lies at distance `dist`
/// from the camera: a fixed level on every edge, and a distance-driven
/// interior level.
pub fn control_levels(dist: Ratio) -> (r: TessLevels)
    requires
        dist.wf(),
        dist.num >= 0,
    ensures
        forall|i: int| 0 <= i < 3 ==> r.outer[i] == (Exact { num: OUTER_LEVEL, den: 1 }),
        (r.inner.num as int, r.inner.den as int) == inner_level_spec(dist.num as int, dist.den as int),
        r.inner.wf(),
{
    let edge = Exact { num: OUTER_LEVEL, den: 1 };
    TessLevels { outer: [edge, edge, edge], inner: inner_level(dist) }
}

/// The interior level over distance: it is 11 at distance zero, falls
/// strictly as the distance grows toward the range, following
/// `level(a) - level(b) == (b - a) / 20` exactly on that stretch (so it is
/// continuous), is exactly 1 at the range and stays exactly 1 beyond it, and
/// is never below 1.
pub proof fn lemma_inner_level_profile(an: int, ad: int, bn: int, bd: int)
    requires
        ad > 0,
        bd > 0,
        an >= 0,
        bn >= 0,
    ensures
        inner_level_spec(0, ad).0 == 11 * inner_level_spec(0, ad).1,
        an == INNER_RANGE * ad ==> inner_level_spec(an, ad).0 == inner_level_spec(an, ad).1,
        an > INNER_RANGE * ad ==> inner_level_spec(an, ad) == (1int, 1int),
        inner_level_spec(an, ad).0 >= inner_level_spec(an, ad).1 > 0,
        within_spec(an, ad) && within_spec(bn, bd) ==> ({
            let (la, lad) = inner_level_spec(an, ad);
            let (lb, lbd) = inner_level_spec(bn, bd);
            (la * lbd - lb * lad) * 20 * ad * bd == (bn * ad - an * bd) * lad * lbd
        }),
        an * bd < bn * ad && within_spec(bn, bd) ==> ({
            let (la, lad) = inner_level_spec(an, ad);
            let (lb, lbd) = inner_level_spec(bn, bd);
            la * lbd > lb * lad
        }),
{
    let (la, lad) = inner_level_spec(an, ad);
    let (lb, lbd) = inner_level_spec(bn, bd);
    if within_spec(an, ad) && within_spec(bn, bd) {
        assert((la * lbd - lb * lad) * 20 * ad * bd == (bn * ad - an * bd) * lad * lbd)
            by (nonlinear_arith)
            requires
                la == 220 * ad - an,
                lad == 20 * ad,
                lb == 220 * bd - bn,
                lbd == 20 * bd,
        ;
    }
    if an * bd < bn * ad && within_spec(bn, bd) {
        if within_spec(an, ad) {
            assert(la * lbd > lb * lad) by (nonlinear_arith)
                requires
                    la == 220 * ad - an,
                    lad == 20 * ad,
                    lb == 220 * bd - bn,
                    lbd == 20 * bd,
                    an * bd < bn * ad,
            ;
        } else {
            // a lies beyond the range while b does not: then a > b, a contradiction
            assert(an * bd > bn * ad) by (nonlinear_arith)
                requires
                    an > 200 * ad,
                    bn <= 200 * bd,
                    ad > 0,
                    bd > 0,
            ;
        }
    }
}

} // verus!
