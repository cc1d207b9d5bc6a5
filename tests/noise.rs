use terragen::fixed::{MICRO, ONE};
use terragen::NoiseField;

const M: i128 = ONE;
const M64: i64 = ONE as i64;
const U: i128 = MICRO as i128;

#[test]
fn field_parameters_are_checked() {
    assert!(NoiseField::new(24, 100 * U, 3 * M / 10, 47 * M / 10).is_some());
    assert!(NoiseField::new(0, 100 * U, 3 * M / 10, 47 * M / 10).is_none());
    assert!(NoiseField::new(25, 100 * U, 3 * M / 10, 47 * M / 10).is_none());
    assert!(NoiseField::new(4, 0, 3 * M / 10, 47 * M / 10).is_none());
    assert!(NoiseField::new(4, 100 * U, M + 1, 47 * M / 10).is_none());
    assert!(NoiseField::new(4, 100 * U, -1, 47 * M / 10).is_none());
    assert!(NoiseField::new(4, 100 * U, 3 * M / 10, M).is_none());
    assert!(NoiseField::new(4, 100 * U, 3 * M / 10, 5 * M + 1).is_none());
}

#[test]
fn octave_points_grow_by_lacunarity() {
    let f = NoiseField::new(3, U, M / 2, 2 * M).unwrap();
    assert_eq!(
        f.octave_points(3 * U, -U),
        vec![(3 * U, -U), (6 * U, -2 * U), (12 * U, -4 * U)]
    );
}

#[test]
fn octave_points_divide_by_scale() {
    let f = NoiseField::new(2, 100 * U, 3 * M / 10, 47 * M / 10).unwrap();
    assert_eq!(f.octave_points(50 * U, 0), vec![(500_000, 0), (2_350_000, 0)]);
}

#[test]
fn noise_value_weights_octaves() {
    let f = NoiseField::new(3, U, M / 2, 2 * M).unwrap();
    assert_eq!(f.combine(&vec![0, 0, 0]), 875_000_000_000);
    assert_eq!(f.combine(&vec![M64, -M64, 0]), M);
    assert_eq!(f.combine(&vec![-M64, 0, -M64]), 250_000_000_000);
}

#[test]
fn noise_value_is_clamped_to_unit() {
    let f = NoiseField::new(3, U, M / 2, 2 * M).unwrap();
    assert_eq!(f.combine(&vec![M64, M64, M64]), M);
    assert_eq!(f.combine(&vec![-M64, -M64, -M64]), 0);
    assert_eq!(f.combine(&vec![i64::MIN, i64::MIN, i64::MIN]), 0);
    assert_eq!(f.combine(&vec![i64::MAX, i64::MAX, i64::MAX]), M);
}
