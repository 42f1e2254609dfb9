use tubular::displacement::{
    breathe, displace, fract, hash2_argument, hash2_from_sine, hash3_argument, hash3_from_sine,
    vertical_offset, Waves,
};
use tubular::ratio::{Exact, Ratio};

fn same(e: Exact, num: i128, den: i128) -> bool {
    e.den > 0 && e.num * den == num * e.den
}

fn waves(jitter: Ratio, sin_time: Ratio, wave_sine: Ratio) -> Waves {
    Waves { jitter, sin_time, wave_sine, cos_x: Ratio::from_int(1), sin_z: Ratio::from_int(1) }
}

#[test]
fn hash_of_origin_is_zero() {
    let arg = hash2_argument(Ratio::from_int(0), Ratio::from_int(0));
    assert!(same(arg, 0, 1));
    // sin(0) == 0
    let h = hash2_from_sine(Ratio::from_int(0));
    assert!(same(h, 0, 1));
}

#[test]
fn hash_arguments_use_the_fixed_vectors() {
    assert!(same(hash2_argument(Ratio::from_int(1), Ratio::from_int(0)), 129898, 10000));
    assert!(same(hash2_argument(Ratio::from_int(0), Ratio::new(1, 2)), 78233, 2000));
    assert!(same(hash3_argument(Ratio::from_int(0), Ratio::from_int(0), Ratio::from_int(1)), 541232, 10000));
    assert!(same(hash3_argument(Ratio::from_int(1), Ratio::from_int(1), Ratio::from_int(1)), 1453460, 10000));
}

#[test]
fn hash_from_sine_keeps_the_fraction() {
    // 1 * 43758.5453 -> 0.5453
    let h = hash2_from_sine(Ratio::from_int(1));
    assert!(same(h, 5453, 10000));
    // -1 * 43758.5453 -> 0.4547
    let g = hash2_from_sine(Ratio::from_int(-1));
    assert!(same(g, 4547, 10000));
    // 0.5 * 4.5453 -> 0.27265
    let k = hash3_from_sine(Ratio::new(1, 2));
    assert!(same(k, 27265, 100000));
}

#[test]
fn fract_of_negative_and_whole_values() {
    let a = fract(Exact { num: -7, den: 4 });
    assert_eq!((a.num, a.den), (1, 4));
    let b = fract(Exact { num: -8, den: 4 });
    assert_eq!((b.num, b.den), (0, 4));
    let c = fract(Exact { num: 9, den: 4 });
    assert_eq!((c.num, c.den), (1, 4));
    let d = fract(Exact { num: i128::MIN, den: 3 });
    assert_eq!(d.num, i128::MIN.rem_euclid(3));
}

#[test]
fn envelope_and_wave_at_zero_time() {
    // sin(0) = 0: offset is jitter * 0.9
    let off = vertical_offset(waves(Ratio::new(1, 2), Ratio::from_int(0), Ratio::from_int(1)));
    assert!(same(off, 9, 20));
}

#[test]
fn wave_term_at_full_sine() {
    // jitter 0, sin(t) = 1, wave sine = 1/2: offset = 0.5 * 1 * 8 = 4
    let off = vertical_offset(waves(Ratio::from_int(0), Ratio::from_int(1), Ratio::new(1, 2)));
    assert!(same(off, 4, 1));
    // jitter 1, sin(t) = -1, wave sine 1: 1 * 0.8 - 8
    let off2 = vertical_offset(waves(Ratio::from_int(1), Ratio::from_int(-1), Ratio::from_int(1)));
    assert!(same(off2, -36, 5));
}

#[test]
fn breathing_scales_by_twice_the_factor() {
    assert!(same(breathe(Ratio::from_int(3), Ratio::new(1, 2)), 3, 1));
    assert!(same(breathe(Ratio::new(1, 3), Ratio::from_int(-1)), -2, 3));
}

#[test]
fn displacement_moves_each_axis() {
    let w = Waves {
        jitter: Ratio::new(1, 4),
        sin_time: Ratio::from_int(0),
        wave_sine: Ratio::from_int(1),
        cos_x: Ratio::new(1, 2),
        sin_z: Ratio::from_int(-1),
    };
    let d = displace(Ratio::from_int(2), Ratio::from_int(1), Ratio::from_int(5), w);
    assert!(same(d.x, 2, 1));
    assert!(same(d.y, 49, 40));
    assert!(same(d.z, -10, 1));
}

#[test]
fn displacement_is_deterministic() {
    let w = Waves {
        jitter: Ratio::new(3, 7),
        sin_time: Ratio::new(-2, 5),
        wave_sine: Ratio::new(9, 10),
        cos_x: Ratio::new(-1, 3),
        sin_z: Ratio::new(4, 5),
    };
    let a = displace(Ratio::new(7, 3), Ratio::new(-5, 2), Ratio::new(11, 9), w);
    let b = displace(Ratio::new(7, 3), Ratio::new(-5, 2), Ratio::new(11, 9), w);
    assert_eq!(a, b);
}

#[test]
fn displacement_at_extreme_inputs() {
    let m = Ratio::new(i32::MIN, u16::MAX);
    let w = Waves { jitter: m, sin_time: m, wave_sine: m, cos_x: m, sin_z: m };
    let d = displace(m, m, m, w);
    assert!(d.x.den > 0 && d.y.den > 0 && d.z.den > 0);
}
