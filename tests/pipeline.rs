use tubular::interpolation::{interpolate_position, interpolate_texture, Bary, Vec2, Vec3};
use tubular::normal::reconstruct_normal;
use tubular::ratio::{Exact, Ratio};
use tubular::shading::{base_value, luminance, shade, shade_channel};
use tubular::tessellation::{control_levels, inner_level, within_inner_range};

fn is_value(e: Exact, num: i128, den: i128) -> bool {
    e.den > 0 && e.num * den == num * e.den
}

fn v3(x: i32, y: i32, z: i32) -> Vec3 {
    Vec3 { x, y, z }
}

#[test]
fn inner_level_is_eleven_at_camera() {
    assert!(is_value(inner_level(Ratio::from_int(0)), 11, 1));
}

#[test]
fn inner_level_is_one_at_range() {
    assert!(is_value(inner_level(Ratio::from_int(200)), 1, 1));
}

#[test]
fn inner_level_is_one_beyond_range() {
    assert!(is_value(inner_level(Ratio::from_int(201)), 1, 1));
    assert!(is_value(inner_level(Ratio::new(4001, 20)), 1, 1));
    assert!(is_value(inner_level(Ratio::from_int(100000)), 1, 1));
}

#[test]
fn inner_level_halfway() {
    assert!(is_value(inner_level(Ratio::from_int(100)), 6, 1));
    assert!(is_value(inner_level(Ratio::new(1, 2)), 439, 40));
}

#[test]
fn inner_level_decreases_toward_range() {
    let mut prev = inner_level(Ratio::from_int(0));
    for d in 1..=200 {
        let cur = inner_level(Ratio::from_int(d));
        assert!(cur.num * prev.den < prev.num * cur.den);
        assert!(cur.num >= cur.den);
        prev = cur;
    }
}

#[test]
fn range_boundary_is_inside() {
    assert!(within_inner_range(Ratio::from_int(200)));
    assert!(within_inner_range(Ratio::new(399, 2)));
    assert!(!within_inner_range(Ratio::new(401, 2)));
}

#[test]
fn control_levels_near_and_far() {
    let near = control_levels(Ratio::from_int(0));
    for e in near.outer.iter() {
        assert!(is_value(*e, 6, 1));
    }
    assert!(is_value(near.inner, 11, 1));
    let far = control_levels(Ratio::from_int(300));
    for e in far.outer.iter() {
        assert!(is_value(*e, 6, 1));
    }
    assert!(is_value(far.inner, 1, 1));
}

#[test]
fn corners_reproduced_exactly() {
    let (p0, p1, p2) = (v3(1, 2, 3), v3(-4, 5, 6), v3(7, -8, 9));
    let a = interpolate_position(Bary::new(1, 0, 0), p0, p1, p2);
    assert_eq!((a.x, a.y, a.z, a.den), (1, 2, 3, 1));
    let b = interpolate_position(Bary::new(0, 1, 0), p0, p1, p2);
    assert_eq!((b.x, b.y, b.z, b.den), (-4, 5, 6, 1));
    let c = interpolate_position(Bary::new(0, 0, 1), p0, p1, p2);
    assert_eq!((c.x, c.y, c.z, c.den), (7, -8, 9, 1));
    let d = interpolate_position(Bary::new(0, 0, 5), p0, p1, p2);
    assert_eq!((d.x, d.y, d.z, d.den), (35, -40, 45, 5));
}

#[test]
fn centroid_is_the_average() {
    let r = interpolate_position(Bary::new(1, 1, 1), v3(0, 0, 0), v3(3, 0, 0), v3(0, 6, 9));
    assert_eq!((r.x, r.y, r.z, r.den), (3, 6, 9, 3));
    let t = interpolate_texture(
        Bary::new(2, 1, 1),
        Vec2 { s: 4, t: 0 },
        Vec2 { s: 0, t: 8 },
        Vec2 { s: 0, t: 0 },
    );
    assert_eq!((t.s, t.t, t.den), (8, 8, 4));
}

#[test]
fn interpolation_at_extreme_coordinates() {
    let m = i32::MIN;
    let r = interpolate_position(Bary::new(u32::MAX, u32::MAX, u32::MAX), v3(m, m, m), v3(m, m, m), v3(m, m, m));
    assert_eq!(r.x, 3 * (u32::MAX as i128) * (m as i128));
    assert_eq!(r.den, 3 * (u32::MAX as i128));
}

#[test]
fn unit_triangle_normal() {
    let n = reconstruct_normal(v3(0, 0, 0), v3(1, 0, 0), v3(0, 1, 0));
    assert_eq!((n.x, n.y, n.z), (0, 0, 1));
}

#[test]
fn normal_length_is_twice_area() {
    let n = reconstruct_normal(v3(0, 0, 0), v3(0, 4, 0), v3(0, 0, 3));
    assert_eq!((n.x, n.y, n.z), (12, 0, 0));
}

#[test]
fn collinear_points_give_zero_normal() {
    let n = reconstruct_normal(v3(0, 0, 0), v3(1, 1, 1), v3(2, 2, 2));
    assert_eq!((n.x, n.y, n.z), (0, 0, 0));
}

#[test]
fn normal_at_extreme_coordinates() {
    let n = reconstruct_normal(v3(i32::MAX, i32::MIN, 0), v3(i32::MIN, i32::MAX, 0), v3(i32::MIN, i32::MIN, 0));
    let a: i128 = (i32::MAX as i128) - (i32::MIN as i128);
    assert_eq!((n.x, n.y), (0, 0));
    assert_eq!(n.z, a * 0 - (-a) * a);
}

#[test]
fn base_value_clamps() {
    assert_eq!(base_value(Ratio::new(1, 20)), Ratio { num: 1, den: 10 });
    assert_eq!(base_value(Ratio::new(-1, 2)), Ratio { num: 1, den: 10 });
    assert_eq!(base_value(Ratio::new(3, 2)), Ratio { num: 1, den: 1 });
    assert_eq!(base_value(Ratio::new(1, 2)), Ratio { num: 1, den: 2 });
    assert_eq!(base_value(Ratio::new(1, 10)), Ratio { num: 1, den: 10 });
}

#[test]
fn luminance_floors_at_zero() {
    assert_eq!(luminance(Ratio::new(-3, 4)), Ratio { num: 0, den: 1 });
    assert_eq!(luminance(Ratio::new(3, 4)), Ratio { num: 3, den: 4 });
}

#[test]
fn at_camera_with_full_light_color_is_one_twentieth_of_base() {
    let c = shade_channel(Ratio::new(1, 2), Ratio::from_int(1), Ratio::from_int(0));
    assert!(is_value(c, 1, 40));
}

#[test]
fn at_fog_range_without_light() {
    // f = 1: the base is fully white, the weight is 0.95
    let c = shade_channel(Ratio::new(1, 2), Ratio::from_int(0), Ratio::from_int(400));
    assert!(is_value(c, 19, 20));
}

#[test]
fn halfway_into_the_fog() {
    // f = 1/2: mix(0.5, 1, 0.5) = 0.75; weight = 0.05 * 0.5 + 0.95 * 0.5 = 0.5
    let c = shade_channel(Ratio::new(1, 2), Ratio::new(1, 2), Ratio::from_int(-200));
    assert!(is_value(c, 3, 8));
}

#[test]
fn far_away_is_white_regardless_of_light() {
    for lum in [Ratio::from_int(0), Ratio::new(1, 3), Ratio::from_int(1)] {
        for d in [422, 1000, 100000] {
            let c = shade_channel(Ratio::new(1, 10), lum, Ratio::from_int(d));
            assert!(c.num >= c.den);
        }
    }
}

#[test]
fn shade_is_opaque_grey() {
    let c = shade(Ratio::new(1, 2), Ratio::new(-1, 2), Ratio::from_int(0));
    assert!(is_value(c.a, 1, 1));
    assert_eq!(c.r, c.g);
    assert_eq!(c.r, c.b);
    assert!(is_value(c.r, 0, 1));
    let d = shade(Ratio::new(1, 20), Ratio::from_int(1), Ratio::from_int(0));
    assert!(is_value(d.r, 1, 200));
}

#[test]
fn shading_at_extreme_inputs() {
    let big = Ratio::new(i32::MIN, u16::MAX);
    let c = shade_channel(Ratio::new(i32::MIN, 1), Ratio::new(i32::MIN, 1), big);
    assert!(c.den > 0);
}
