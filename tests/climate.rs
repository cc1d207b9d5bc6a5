use terragen::climate::{
    evaporation, heights, humidity, lapse_rate, precipitation, temperature, water, DRY_LAPSE_RATE,
};
use terragen::fixed::{isqrt, ONE};

const M: i128 = ONE;

#[test]
fn heights_at_the_centre_with_full_noise() {
    assert_eq!(heights(0, M, 0), (5300 * M, 5300 * M));
}

#[test]
fn heights_far_from_the_centre_sink() {
    assert_eq!(heights(M, M, 0), (-3700 * M, 0));
    assert_eq!(heights(0, 0, M), (-1000 * M, 0));
}

#[test]
fn temperature_formula() {
    assert_eq!(temperature(1000 * M, 0, DRY_LAPSE_RATE, M / 2), 5_200_000_000_000);
    assert_eq!(temperature(1000 * M, M / 2, DRY_LAPSE_RATE, M / 2), -14_800_000_000_000);
    assert_eq!(temperature(0, -M, 0, M), 65 * M);
}

#[test]
fn evaporation_is_triangular() {
    assert_eq!(evaporation(20 * M), M);
    assert_eq!(evaporation(10 * M), M / 2);
    assert_eq!(evaporation(30 * M), M / 2);
    assert_eq!(evaporation(0), 0);
    assert_eq!(evaporation(40 * M), 0);
    assert_eq!(evaporation(-5 * M), 0);
    assert_eq!(evaporation(55 * M), 0);
}

#[test]
fn lapse_rate_blends_wet_and_dry() {
    assert_eq!(lapse_rate(M), 2_500_000_000);
    assert_eq!(lapse_rate(0), 4_900_000_000);
    assert_eq!(lapse_rate(M / 2), 3_700_000_000);
}

#[test]
fn water_availability() {
    assert_eq!(water(0, -20 * M), M);
    assert_eq!(water(1750 * M, 30 * M), M / 2);
    assert_eq!(water(1, 30 * M), 990_000_000_000);
    assert_eq!(water(4000 * M, 30 * M), 0);
    assert_eq!(water(1000 * M, 20 * M), 0);
    assert_eq!(water(1000 * M, 35 * M), 0);
}

#[test]
fn humidity_blend() {
    assert_eq!(humidity(M, 0, M), M);
    assert_eq!(humidity(0, M / 10, 0), 135_000_000_000);
    assert_eq!(humidity(0, -M / 10, 0), 135_000_000_000);
}

#[test]
fn precipitation_is_capped_by_temperature() {
    assert_eq!(precipitation(M / 2, 10 * M), 4920 * M);
    assert_eq!(precipitation(M / 10, 30 * M), 1600 * M);
    for t in [-10 * M, 0, 5 * M, 20 * M, 40 * M] {
        for h in [-M, 0, M / 3, M] {
            let cap = 500 * t - 80 * M;
            if cap >= 0 {
                assert!(precipitation(h, t) <= cap);
            }
        }
    }
}

#[test]
fn precipitation_is_never_negative() {
    assert_eq!(precipitation(M, 0), 0);
    assert_eq!(precipitation(-M, 30 * M), 0);
    for t in [-10 * M, 0, 5 * M, 40 * M] {
        for h in [-2 * M, 0, M] {
            assert!(precipitation(h, t) >= 0);
        }
    }
}

#[test]
fn integer_square_root() {
    assert_eq!(isqrt(0), 0);
    assert_eq!(isqrt(15), 3);
    assert_eq!(isqrt(16), 4);
    assert_eq!(isqrt(1_000_000_000_000), 1_000_000);
    assert_eq!(isqrt(125_000_000_000), 353_553);
}
