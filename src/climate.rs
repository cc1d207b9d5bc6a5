//! The climate at a point: height, temperature and precipitation, from the
//! point's place on the globe and the values of the noise fields there.
//! Climate quantities are in units of `ONE`; a place is in millionths.

use vstd::prelude::*;
use crate::fixed::{MICRO_TO_ONE, ONE, abs, clamp, fx_mul, floor_div};

verus! {

/// Dry adiabatic lapse rate, degrees per metre (9.8 per kilometre).
pub const DRY_LAPSE_RATE: i128 = 9_800_000_000;

/// Wet adiabatic lapse rate, degrees per metre (5 per kilometre).
pub const WET_LAPSE_RATE: i128 = 5_000_000_000;

/// Lapse rate of the first temperature pass: half the dry rate.
pub const REFERENCE_LAPSE_RATE: i128 = 4_900_000_000;

/// Bound of the distances of a place from the centre, in millionths.
pub const DIS_MAX: i128 = 0x200_0000_0000_0000;

/// `DIS_MAX` in units of `ONE`.
pub const LAT_MAX: i128 = 0x200_0000_0000_0000 * 1_000_000;

/// Bound of the elevation above sea level.
pub const ELEVATION_MAX: i128 = 9_000 * 1_000_000_000_000;

/// Bound of a temperature.
pub const TEMPERATURE_MAX: i128 = 0x8_0000_0000_0000_0000_0000;

/// A point's place, in millionths: its transformed coordinate, its distance
/// from the centre along each axis in half map extents, and its radial
/// distance scaled so that a corner of the map lies at one.
#[derive(Clone, Copy, Debug, PartialEq, Eq, Structural)]
pub struct Location {
    pub x: i128,
    pub y: i128,
    pub x_dis: i128,
    pub y_dis: i128,
    pub r_dis: i128,
}

/// The values of the noise fields at a point, each within `[0, ONE]`.
#[derive(Clone, Copy, Debug, PartialEq, Eq, Structural)]
pub struct NoiseValues {
    /// Height field at the point.
    pub height: i128,
    /// Height field at the point mirrored through the origin.
    pub height_mirror: i128,
    pub temperature: i128,
    pub humidity: i128,
}

/// The climate of a point, in units of `ONE`.
#[derive(Clone, Copy, Debug, PartialEq, Eq, Structural)]
pub struct ClimateSample {
    /// Height against sea level; at most zero under the sea.
    pub height: i128,
    /// Height above sea level, zero under the sea.
    pub abs_elevation: i128,
    pub temperature: i128,
    /// Never negative.
    pub precipitation: i128,
}

impl Location {
    pub open spec fn bounded(self) -> bool {
        &&& -DIS_MAX <= self.y_dis <= DIS_MAX
        &&& 0 <= self.r_dis <= DIS_MAX
    }
}

impl NoiseValues {
    pub open spec fn in_unit(self) -> bool {
        &&& 0 <= self.height <= ONE
        &&& 0 <= self.height_mirror <= ONE
        &&& 0 <= self.temperature <= ONE
        &&& 0 <= self.humidity <= ONE
    }
}

/// Height of the globe: the height noise damped by the radial distance and
/// by the mirrored height noise, scaled to the range of elevations and
/// shifted so that it can fall below sea level.
pub open spec fn height_spec(r_dis: int, h: int, h_mirror: int) -> int {
    let globe = fx_mul(h, ONE - (r_dis + 300_000_000_000 + fx_mul(400_000_000_000, h_mirror)));
    9000 * globe - 1000 * ONE
}

pub open spec fn elevation_spec(height: int) -> int {
    if height < 0 {
        0
    } else {
        height
    }
}

/// Temperature from latitude and noise, less the lapse rate times the elevation.
pub open spec fn temperature_spec(elevation: int, y_dis: int, lapse_rate: int, t_noise: int) -> int {
    -40 * y_dis + (20 * t_noise + 5 * ONE) - fx_mul(lapse_rate, elevation)
}

/// Chance of evaporation: one at twenty degrees, falling linearly to zero at
/// zero and at forty degrees, and zero beyond.
pub open spec fn evaporation_spec(t: int) -> int {
    let e = ONE - abs((clamp(t, 0, 40 * ONE) - 20 * ONE) / 20);
    if e < 0 {
        0
    } else {
        e
    }
}

/// The lapse rate of the second pass: the wet and dry rates blended by the
/// chance of evaporation, halved.
pub open spec fn lapse_rate_spec(evaporation: int) -> int {
    (fx_mul(WET_LAPSE_RATE as int, evaporation) + fx_mul(DRY_LAPSE_RATE as int, ONE - evaporation))
        / 2
}

/// Water available: all of it at sea level; above, only between 25 and 35
/// degrees, falling off linearly to nothing at 3500 metres and kept below 0.99.
pub open spec fn water_spec(elevation: int, t: int) -> int {
    if elevation == 0 {
        ONE as int
    } else if 25 * ONE < t < 35 * ONE {
        let w = if elevation < 3500 * ONE {
            ONE - elevation / 3500
        } else {
            0
        };
        if w > 990_000_000_000 {
            990_000_000_000
        } else {
            w
        }
    } else {
        0
    }
}

/// Humidity: 40% water, 30% nearness to the equator line, 30% noise.
pub open spec fn humidity_spec(water: int, y_dis: int, h_noise: int) -> int {
    fx_mul(400_000_000_000, water) + fx_mul(
        300_000_000_000,
        ONE - fx_mul(5_500_000_000_000, abs(y_dis)),
    ) + fx_mul(300_000_000_000, h_noise)
}

/// Ceiling of the precipitation at temperature `t`.
pub open spec fn precipitation_cap(t: int) -> int {
    500 * t - 80 * ONE
}

/// Precipitation: the humidity scaled, capped by its ceiling at temperature
/// `t`, and never below zero.
pub open spec fn precipitation_spec(humidity: int, t: int) -> int {
    let raw = 16000 * humidity;
    let capped = if raw > precipitation_cap(t) {
        precipitation_cap(t)
    } else {
        raw
    };
    if capped < 0 {
        0
    } else {
        capped
    }
}

/// The height of a point with place `loc` and noise values `n`.
pub open spec fn climate_height(loc: Location, n: NoiseValues) -> int {
    height_spec(loc.r_dis * MICRO_TO_ONE, n.height as int, n.height_mirror as int)
}

pub open spec fn climate_elevation(loc: Location, n: NoiseValues) -> int {
    elevation_spec(climate_height(loc, n))
}

/// The draft temperature of the first pass, with the reference lapse rate.
pub open spec fn draft_temperature(loc: Location, n: NoiseValues) -> int {
    temperature_spec(
        climate_elevation(loc, n),
        loc.y_dis * MICRO_TO_ONE,
        REFERENCE_LAPSE_RATE as int,
        n.temperature as int,
    )
}

/// The temperature of the second pass, with the lapse rate blended by the
/// chance of evaporation at the draft temperature.
pub open spec fn climate_temperature(loc: Location, n: NoiseValues) -> int {
    temperature_spec(
        climate_elevation(loc, n),
        loc.y_dis * MICRO_TO_ONE,
        lapse_rate_spec(evaporation_spec(draft_temperature(loc, n))),
        n.temperature as int,
    )
}

pub open spec fn climate_precipitation(loc: Location, n: NoiseValues) -> int {
    let t = climate_temperature(loc, n);
    let water = water_spec(climate_elevation(loc, n), t);
    precipitation_spec(humidity_spec(water, loc.y_dis * MICRO_TO_ONE, n.humidity as int), t)
}

/// The height of a point and its elevation above sea level; `r_dis` is in
/// units of `ONE`.
pub fn heights(r_dis: i128, h: i128, h_mirror: i128) -> (r: (i128, i128))
    requires
        0 <= r_dis <= LAT_MAX,
        0 <= h <= ONE,
        0 <= h_mirror <= ONE,
    ensures
        r.0 == height_spec(r_dis as int, h as int, h_mirror as int),
        r.1 == elevation_spec(r.0 as int),
        0 <= r.1 <= ELEVATION_MAX,
        -9000 * (LAT_MAX + 2 * ONE) <= r.0,
{
    let m = floor_div(400_000_000_000 * h_mirror, ONE);
    let inner: i128 = ONE - (r_dis + 300_000_000_000 + m);
    proof {
        lemma_damped(h as int, inner as int, -(LAT_MAX + ONE), 700_000_000_000);
    }
    let globe = floor_div(h * inner, ONE);
    let height = 9000 * globe - 1000 * ONE;
    let elevation = if height < 0 {
        0
    } else {
        height
    };
    (height, elevation)
}

/// `h * v / ONE` stays within `[lo, hi]` when `v` does, for `h` within `[0, ONE]`.
proof fn lemma_damped(h: int, v: int, lo: int, hi: int)
    requires
        0 <= h <= ONE,
        lo <= v <= hi,
        lo <= 0 <= hi,
        -0x1_0000_0000_0000_0000_0000 <= lo,
        hi <= 0x1_0000_0000_0000_0000_0000,
    ensures
        ONE * lo <= h * v <= ONE * hi,
        lo <= (h * v) / (ONE as int) <= hi,
{
    assert(ONE * lo <= h * v <= ONE * hi) by (nonlinear_arith)
        requires
            0 <= h <= ONE,
            lo <= v <= hi,
            lo <= 0 <= hi,
    ;
    vstd::arithmetic::div_mod::lemma_div_is_ordered(h * v, ONE * hi, ONE as int);
    vstd::arithmetic::div_mod::lemma_div_is_ordered(ONE * lo, h * v, ONE as int);
    vstd::arithmetic::div_mod::lemma_div_multiples_vanish(hi, ONE as int);
    vstd::arithmetic::div_mod::lemma_div_multiples_vanish(lo, ONE as int);
}

/// Temperature from latitude and noise, less `lapse_rate` times the
/// elevation; `y_dis` is in units of `ONE`.
pub fn temperature(elevation: i128, y_dis: i128, lapse_rate: i128, t_noise: i128) -> (t: i128)
    requires
        0 <= elevation <= ELEVATION_MAX,
        -LAT_MAX <= y_dis <= LAT_MAX,
        0 <= lapse_rate <= ONE,
        0 <= t_noise <= ONE,
    ensures
        t == temperature_spec(elevation as int, y_dis as int, lapse_rate as int, t_noise as int),
        -TEMPERATURE_MAX <= t <= TEMPERATURE_MAX,
{
    proof {
        lemma_damped(lapse_rate as int, elevation as int, 0, ELEVATION_MAX as int);
    }
    let loss = floor_div(lapse_rate * elevation, ONE);
    let latitude: i128 = 40 * y_dis;
    let noisy: i128 = 20 * t_noise + 5 * ONE;
    noisy - latitude - loss
}

/// Chance of evaporation at temperature `t`, within `[0, ONE]`.
pub fn evaporation(t: i128) -> (e: i128)
    ensures
        e == evaporation_spec(t as int),
        0 <= e <= ONE,
{
    let c: i128 = if t < 0 {
        0
    } else if t > 40 * ONE {
        40 * ONE
    } else {
        t
    };
    let d = floor_div(c - 20 * ONE, 20);
    let a = if d < 0 {
        -d
    } else {
        d
    };
    let e = ONE - a;
    if e < 0 {
        0
    } else {
        e
    }
}

/// The lapse rate blended from the wet and dry rates by the chance of evaporation, halved.
pub fn lapse_rate(evaporation: i128) -> (r: i128)
    requires
        0 <= evaporation <= ONE,
    ensures
        r == lapse_rate_spec(evaporation as int),
        0 <= r <= DRY_LAPSE_RATE,
{
    let wet = floor_div(WET_LAPSE_RATE * evaporation, ONE);
    let dry = floor_div(DRY_LAPSE_RATE * (ONE - evaporation), ONE);
    floor_div(wet + dry, 2)
}

/// Water available at elevation `elevation` and temperature `t`.
pub fn water(elevation: i128, t: i128) -> (w: i128)
    requires
        0 <= elevation,
    ensures
        w == water_spec(elevation as int, t as int),
        0 <= w <= ONE,
{
    if elevation == 0 {
        return ONE;
    }
    if (25 * ONE) < t && t < 35 * ONE {
        let w: i128 = if elevation < 3500 * ONE {
            ONE - elevation / 3500
        } else {
            0
        };
        if w > 990_000_000_000 {
            990_000_000_000
        } else {
            w
        }
    } else {
        0
    }
}

/// Humidity from water, nearness to the equator line and noise; `y_dis` is
/// in units of `ONE`.
pub fn humidity(water: i128, y_dis: i128, h_noise: i128) -> (h: i128)
    requires
        0 <= water <= ONE,
        -LAT_MAX <= y_dis <= LAT_MAX,
        0 <= h_noise <= ONE,
    ensures
        h == humidity_spec(water as int, y_dis as int, h_noise as int),
        -LAT_MAX * 2 <= h <= ONE,
{
    let a: i128 = if y_dis < 0 {
        -y_dis
    } else {
        y_dis
    };
    let dist = ONE - floor_div(5_500_000_000_000 * a, ONE);
    floor_div(400_000_000_000 * water, ONE) + floor_div(300_000_000_000 * dist, ONE) + floor_div(
        300_000_000_000 * h_noise,
        ONE,
    )
}

/// Precipitation from humidity, capped by its ceiling at temperature `t` and
/// floored at zero.
pub fn precipitation(humidity: i128, t: i128) -> (p: i128)
    requires
        -LAT_MAX * 2 <= humidity <= ONE,
        -TEMPERATURE_MAX <= t <= TEMPERATURE_MAX,
    ensures
        p == precipitation_spec(humidity as int, t as int),
        0 <= p <= 16000 * ONE,
        precipitation_cap(t as int) >= 0 ==> p <= precipitation_cap(t as int),
{
    let raw = 16000 * humidity;
    let cap = 500 * t - 80 * ONE;
    let capped = if raw > cap {
        cap
    } else {
        raw
    };
    if capped < 0 {
        0
    } else {
        capped
    }
}

/// The climate of a point: its height from the height noise and its radial
/// distance; a draft temperature with the reference lapse rate; from the
/// draft, the chance of evaporation and the blended lapse rate; the final
/// temperature with that rate; and the precipitation from water,
/// latitude and humidity noise, capped at the final temperature and never
/// negative.
pub fn sample(loc: &Location, n: &NoiseValues) -> (c: ClimateSample)
    requires
        loc.bounded(),
        n.in_unit(),
    ensures
        c.height == climate_height(*loc, *n),
        c.abs_elevation == climate_elevation(*loc, *n),
        c.temperature == climate_temperature(*loc, *n),
        c.precipitation == climate_precipitation(*loc, *n),
        c.abs_elevation >= 0,
        c.precipitation >= 0,
        precipitation_cap(c.temperature as int) >= 0 ==> c.precipitation <= precipitation_cap(
            c.temperature as int,
        ),
        -TEMPERATURE_MAX <= c.temperature <= TEMPERATURE_MAX,
        c.precipitation <= 16000 * ONE,
{
    let y = loc.y_dis * MICRO_TO_ONE;
    let (height, elevation) = heights(loc.r_dis * MICRO_TO_ONE, n.height, n.height_mirror);
    let draft = temperature(elevation, y, REFERENCE_LAPSE_RATE, n.temperature);
    let lapse = lapse_rate(evaporation(draft));
    let t = temperature(elevation, y, lapse, n.temperature);
    let w = water(elevation, t);
    let p = precipitation(humidity(w, y, n.humidity), t);
    ClimateSample { height, abs_elevation: elevation, temperature: t, precipitation: p }
}

} // verus!
