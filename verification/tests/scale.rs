use simdnoise::binary32::{order_key_of, Binary32};
use simdnoise::scale::{extremes, rescale, scale};

fn v(x: f32) -> Binary32 {
    Binary32::from_bits(x.to_bits())
}

fn f(v: Binary32) -> f32 {
    f32::from_bits(v.to_bits())
}

fn buffer(values: &[f32]) -> Vec<Binary32> {
    values.iter().map(|x| v(*x)).collect()
}

fn floats(values: &[Binary32]) -> Vec<f32> {
    values.iter().map(|x| f(*x)).collect()
}

#[test]
fn extremes_finds_least_and_greatest() {
    let (lo, hi) = extremes(&buffer(&[1.0, -3.5, 7.25, 0.0, -0.5]));
    assert_eq!(f(lo), -3.5);
    assert_eq!(f(hi), 7.25);
    let (lo, hi) = extremes(&buffer(&[4.0]));
    assert_eq!(f(lo), 4.0);
    assert_eq!(f(hi), 4.0);
    let (lo, hi) = extremes(&buffer(&[-1.0e-30, -2.0e30, f32::MIN_POSITIVE, 3.0e38]));
    assert_eq!(f(lo), -2.0e30);
    assert_eq!(f(hi), 3.0e38);
}

#[test]
fn extremes_keeps_the_first_of_equals() {
    let (lo, hi) = extremes(&buffer(&[0.0, -0.0, 0.0]));
    assert_eq!(lo.to_bits(), 0);
    assert_eq!(hi.to_bits(), 0);
    let (lo, hi) = extremes(&buffer(&[-0.0, 0.0]));
    assert_eq!(lo.to_bits(), 0x8000_0000);
    assert_eq!(hi.to_bits(), 0x8000_0000);
}

#[test]
fn rescale_maps_the_ends_onto_the_ends() {
    let (lo, hi, tmin, tmax) = (v(-2.0), v(6.0), v(0.0), v(255.0));
    assert_eq!(f(rescale(v(-2.0), lo, hi, tmin, tmax)), 0.0);
    assert_eq!(f(rescale(v(6.0), lo, hi, tmin, tmax)), 255.0);
    assert_eq!(f(rescale(v(2.0), lo, hi, tmin, tmax)), 127.5);
    assert_eq!(f(rescale(v(0.0), lo, hi, tmin, tmax)), 63.75);
}

#[test]
fn rescale_of_a_single_point_range_is_the_lower_end() {
    assert_eq!(f(rescale(v(3.0), v(3.0), v(3.0), v(10.0), v(20.0))), 10.0);
    assert_eq!(f(rescale(v(0.0), v(0.0), v(-0.0), v(10.0), v(20.0))), 10.0);
}

#[test]
fn scale_known_values() {
    let mut b = buffer(&[1.0, 3.0, 2.0, 1.5]);
    scale(&mut b, v(0.0), v(255.0));
    assert_eq!(floats(&b), vec![0.0, 255.0, 127.5, 63.75]);
    let mut b = buffer(&[-2.0, 0.5, -0.0, 4.0]);
    scale(&mut b, v(10.0), v(20.0));
    assert_eq!(floats(&b), vec![10.0, 14.166666030883789, 13.333333015441895, 20.0]);
}

#[test]
fn scale_of_a_constant_buffer_is_the_lower_end() {
    let mut b = buffer(&[0.7; 9]);
    scale(&mut b, v(-1.0), v(1.0));
    assert_eq!(floats(&b), vec![-1.0; 9]);
    let mut b = buffer(&[5.0]);
    scale(&mut b, v(2.0), v(3.0));
    assert_eq!(floats(&b), vec![2.0]);
}

#[test]
fn scale_of_an_empty_buffer_is_empty() {
    let mut b: Vec<Binary32> = Vec::new();
    scale(&mut b, v(0.0), v(1.0));
    assert!(b.is_empty());
}

#[test]
fn scale_keeps_the_order_of_the_samples() {
    let raw = [0.31f32, -4.5, 2.25, 2.26, -4.4, 9.0, 0.0, 8.99, -0.001];
    let mut b = buffer(&raw);
    scale(&mut b, v(0.0), v(255.0));
    let out = floats(&b);
    assert_eq!(out.len(), raw.len());
    for i in 0..raw.len() {
        assert!(out[i] >= 0.0 && out[i] <= 255.0);
        for j in 0..raw.len() {
            if raw[i] < raw[j] {
                assert!(out[i] <= out[j]);
            }
        }
    }
    assert!(out.contains(&0.0));
    assert!(out.contains(&255.0));
}

#[test]
fn order_key_follows_the_numeric_order() {
    let values = [
        f32::NEG_INFINITY,
        f32::MIN,
        -2.5,
        -1.0,
        -1.0e-40,
        0.0,
        1.0e-40,
        f32::MIN_POSITIVE,
        1.0,
        2.5,
        f32::MAX,
        f32::INFINITY,
    ];
    for i in 1..values.len() {
        assert!(order_key_of(v(values[i - 1])) < order_key_of(v(values[i])));
    }
    assert_eq!(order_key_of(v(0.0)), 0);
    assert_eq!(order_key_of(v(-0.0)), 0);
    assert_eq!(order_key_of(v(1.0)), 0x3f80_0000);
    assert_eq!(order_key_of(v(-1.0)), -0x3f80_0000);
    assert_eq!(order_key_of(v(f32::INFINITY)), 0x7f80_0000);
    assert_eq!(order_key_of(v(f32::NEG_INFINITY)), -0x7f80_0000);
    assert!(order_key_of(v(f32::NAN)) > 0x7f80_0000);
    assert_eq!(order_key_of(Binary32::lit(-1)), -0x7fff_ffff);
}

#[test]
fn rounding_can_carry_the_greatest_sample_past_the_upper_end() {
    let hi = f32::from_bits(0x40ab7f41);
    let target_max = f32::from_bits(0x42dc0c34);
    let mut b = buffer(&[0.0, hi]);
    scale(&mut b, v(0.0), v(target_max));
    assert_eq!(b[0].to_bits(), 0);
    assert_eq!(b[1].to_bits(), 0x42dc0c35);
    assert!(f(b[1]) > target_max);
}
