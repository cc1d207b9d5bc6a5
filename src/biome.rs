//! Biome classification.
//!
//! Land is split by temperature into six ascending zones, each closed at its
//! upper edge; within a zone, precipitation is split by the shared cutoffs
//! 125, 250, 500, ... 8000 into as many bands as the zone has.

use vstd::prelude::*;
use crate::fixed::ONE;

verus! {

#[derive(Clone, Copy, Debug, PartialEq, Eq, Structural)]
pub enum Biome {
    Ocean,
    PolarDesert,
    SubpolarDryTundra,
    SubpolarMoistTundra,
    SubpolarWetTundra,
    SubpolarRainTundra,
    BorealDesert,
    BorealDryScrub,
    BorealMoistForest,
    BorealWetForest,
    BorealRainForest,
    TemperateDesert,
    TemperateDesertScrub,
    TemperateSteppe,
    TemperateMoistForest,
    TemperateWetForest,
    TemperateRainForest,
    SubtropicalDesert,
    SubtropicalDesertScrub,
    SubtropicalThornWoodland,
    SubtropicalDryForest,
    SubtropicalMoistForest,
    SubtropicalWetForest,
    SubtropicalRainForest,
    TropicalDesert,
    TropicalDesertScrub,
    TropicalThornWoodland,
    TropicalVeryDryForest,
    TropicalDryForest,
    TropicalMoistForest,
    TropicalWetForest,
    TropicalRainForest,
}

/// Index of the last temperature zone (tropical).
pub const LAST_ZONE: usize = 5;

/// Upper edge of temperature zone `z` (polar, subpolar, boreal, temperate,
/// subtropical); the tropical zone has none.
pub open spec fn zone_upper(z: int) -> int {
    if z == 0 {
        0
    } else if z == 1 {
        3 * ONE
    } else if z == 2 {
        6 * ONE
    } else if z == 3 {
        12 * ONE
    } else {
        24 * ONE
    }
}

/// The upper edge of precipitation band `k` (bands 0 to 6).
pub open spec fn band_upper(k: int) -> int {
    if k == 0 {
        125 * ONE
    } else if k == 1 {
        250 * ONE
    } else if k == 2 {
        500 * ONE
    } else if k == 3 {
        1000 * ONE
    } else if k == 4 {
        2000 * ONE
    } else if k == 5 {
        4000 * ONE
    } else {
        8000 * ONE
    }
}

/// How many precipitation bands temperature zone `z` has.
pub open spec fn band_count(z: int) -> int {
    if z == 0 {
        1
    } else {
        z + 3
    }
}

/// The temperature zone of `t`: the first whose upper edge is not below it.
pub open spec fn temperature_zone(t: int) -> int {
    if t <= zone_upper(0) {
        0
    } else if t <= zone_upper(1) {
        1
    } else if t <= zone_upper(2) {
        2
    } else if t <= zone_upper(3) {
        3
    } else if t <= zone_upper(4) {
        4
    } else {
        5
    }
}

/// How many precipitation cutoffs lie below `p`.
pub open spec fn cutoffs_below(p: int) -> int {
    if p <= band_upper(0) {
        0
    } else if p <= band_upper(1) {
        1
    } else if p <= band_upper(2) {
        2
    } else if p <= band_upper(3) {
        3
    } else if p <= band_upper(4) {
        4
    } else if p <= band_upper(5) {
        5
    } else if p <= band_upper(6) {
        6
    } else {
        7
    }
}

/// The precipitation band of `p` within temperature zone `z`: the number of
/// cutoffs below it, up to the zone's last band.
pub open spec fn precipitation_band(p: int, z: int) -> int {
    let k = cutoffs_below(p);
    if k < band_count(z) - 1 {
        k
    } else {
        band_count(z) - 1
    }
}

/// `t` lies in temperature zone `z`: above the edge below, at most the edge above.
pub open spec fn in_zone(t: int, z: int) -> bool {
    &&& 0 <= z <= LAST_ZONE
    &&& (z == 0 || t > zone_upper(z - 1))
    &&& (z == LAST_ZONE || t <= zone_upper(z))
}

/// `p` lies in band `k` of a zone with `n` bands.
pub open spec fn in_band(p: int, k: int, n: int) -> bool {
    &&& 0 <= k < n
    &&& (k == 0 || p > band_upper(k - 1))
    &&& (k == n - 1 || p <= band_upper(k))
}

impl Biome {
    /// The biome of land in temperature zone `zone` and precipitation band `band`.
    pub open spec fn cell_spec(zone: int, band: int) -> Biome {
        if zone == 0 {
            Biome::PolarDesert
        } else if zone == 1 {
            if band == 0 {
                Biome::SubpolarDryTundra
            } else if band == 1 {
                Biome::SubpolarMoistTundra
            } else if band == 2 {
                Biome::SubpolarWetTundra
            } else {
                Biome::SubpolarRainTundra
            }
        } else if zone == 2 {
            if band == 0 {
                Biome::BorealDesert
            } else if band == 1 {
                Biome::BorealDryScrub
            } else if band == 2 {
                Biome::BorealMoistForest
            } else if band == 3 {
                Biome::BorealWetForest
            } else {
                Biome::BorealRainForest
            }
        } else if zone == 3 {
            if band == 0 {
                Biome::TemperateDesert
            } else if band == 1 {
                Biome::TemperateDesertScrub
            } else if band == 2 {
                Biome::TemperateSteppe
            } else if band == 3 {
                Biome::TemperateMoistForest
            } else if band == 4 {
                Biome::TemperateWetForest
            } else {
                Biome::TemperateRainForest
            }
        } else if zone == 4 {
            if band == 0 {
                Biome::SubtropicalDesert
            } else if band == 1 {
                Biome::SubtropicalDesertScrub
            } else if band == 2 {
                Biome::SubtropicalThornWoodland
            } else if band == 3 {
                Biome::SubtropicalDryForest
            } else if band == 4 {
                Biome::SubtropicalMoistForest
            } else if band == 5 {
                Biome::SubtropicalWetForest
            } else {
                Biome::SubtropicalRainForest
            }
        } else {
            if band == 0 {
                Biome::TropicalDesert
            } else if band == 1 {
                Biome::TropicalDesertScrub
            } else if band == 2 {
                Biome::TropicalThornWoodland
            } else if band == 3 {
                Biome::TropicalVeryDryForest
            } else if band == 4 {
                Biome::TropicalDryForest
            } else if band == 5 {
                Biome::TropicalMoistForest
            } else if band == 6 {
                Biome::TropicalWetForest
            } else {
                Biome::TropicalRainForest
            }
        }
    }

    /// The temperature zone that a land biome belongs to.
    pub open spec fn zone(self) -> int {
        match self {
            Biome::Ocean | Biome::PolarDesert => 0,
            Biome::SubpolarDryTundra | Biome::SubpolarMoistTundra | Biome::SubpolarWetTundra
            | Biome::SubpolarRainTundra => 1,
            Biome::BorealDesert | Biome::BorealDryScrub | Biome::BorealMoistForest
            | Biome::BorealWetForest | Biome::BorealRainForest => 2,
            Biome::TemperateDesert | Biome::TemperateDesertScrub | Biome::TemperateSteppe
            | Biome::TemperateMoistForest | Biome::TemperateWetForest
            | Biome::TemperateRainForest => 3,
            Biome::SubtropicalDesert | Biome::SubtropicalDesertScrub
            | Biome::SubtropicalThornWoodland | Biome::SubtropicalDryForest
            | Biome::SubtropicalMoistForest | Biome::SubtropicalWetForest
            | Biome::SubtropicalRainForest => 4,
            _ => 5,
        }
    }

    /// The precipitation band, within its zone, that a land biome stands for.
    pub open spec fn band(self) -> int {
        match self {
            Biome::Ocean | Biome::PolarDesert => 0,
            Biome::SubpolarDryTundra | Biome::BorealDesert | Biome::TemperateDesert
            | Biome::SubtropicalDesert | Biome::TropicalDesert => 0,
            Biome::SubpolarMoistTundra | Biome::BorealDryScrub | Biome::TemperateDesertScrub
            | Biome::SubtropicalDesertScrub | Biome::TropicalDesertScrub => 1,
            Biome::SubpolarWetTundra | Biome::BorealMoistForest | Biome::TemperateSteppe
            | Biome::SubtropicalThornWoodland | Biome::TropicalThornWoodland => 2,
            Biome::SubpolarRainTundra | Biome::BorealWetForest | Biome::TemperateMoistForest
            | Biome::SubtropicalDryForest | Biome::TropicalVeryDryForest => 3,
            Biome::BorealRainForest | Biome::TemperateWetForest | Biome::SubtropicalMoistForest
            | Biome::TropicalDryForest => 4,
            Biome::TemperateRainForest | Biome::SubtropicalWetForest
            | Biome::TropicalMoistForest => 5,
            Biome::SubtropicalRainForest | Biome::TropicalWetForest => 6,
            Biome::TropicalRainForest => 7,
        }
    }

    /// Land biome `self` is the one for temperature `t` and precipitation `p`.
    pub open spec fn covers(self, t: int, p: int) -> bool {
        &&& self != Biome::Ocean
        &&& in_zone(t, self.zone())
        &&& in_band(p, self.band(), band_count(self.zone()))
    }

    /// The biome of a point with the given height, temperature and precipitation.
    pub open spec fn classify_spec(height: int, t: int, p: int) -> Biome {
        if height <= 0 {
            Biome::Ocean
        } else {
            let z = temperature_zone(t);
            Biome::cell_spec(z, precipitation_band(p, z))
        }
    }

    /// Picks the biome of a point: ocean at or below sea level, otherwise the
    /// cell of its temperature zone and precipitation band.
    pub fn classify(height: i128, temperature: i128, precipitation: i128) -> (b: Biome)
        ensures
            b == Biome::classify_spec(height as int, temperature as int, precipitation as int),
    {
        if height <= 0 {
            return Biome::Ocean;
        }
        let zone = zone_of(temperature);
        let band = band_of(precipitation, zone);
        Biome::cell(zone, band)
    }

    /// The biome of temperature zone `zone` and precipitation band `band`.
    pub fn cell(zone: usize, band: usize) -> (b: Biome)
        ensures
            b == Biome::cell_spec(zone as int, band as int),
    {
        if zone == 0 {
            Biome::PolarDesert
        } else if zone == 1 {
            if band == 0 {
                Biome::SubpolarDryTundra
            } else if band == 1 {
                Biome::SubpolarMoistTundra
            } else if band == 2 {
                Biome::SubpolarWetTundra
            } else {
                Biome::SubpolarRainTundra
            }
        } else if zone == 2 {
            if band == 0 {
                Biome::BorealDesert
            } else if band == 1 {
                Biome::BorealDryScrub
            } else if band == 2 {
                Biome::BorealMoistForest
            } else if band == 3 {
                Biome::BorealWetForest
            } else {
                Biome::BorealRainForest
            }
        } else if zone == 3 {
            if band == 0 {
                Biome::TemperateDesert
            } else if band == 1 {
                Biome::TemperateDesertScrub
            } else if band == 2 {
                Biome::TemperateSteppe
            } else if band == 3 {
                Biome::TemperateMoistForest
            } else if band == 4 {
                Biome::TemperateWetForest
            } else {
                Biome::TemperateRainForest
            }
        } else if zone == 4 {
            if band == 0 {
                Biome::SubtropicalDesert
            } else if band == 1 {
                Biome::SubtropicalDesertScrub
            } else if band == 2 {
                Biome::SubtropicalThornWoodland
            } else if band == 3 {
                Biome::SubtropicalDryForest
            } else if band == 4 {
                Biome::SubtropicalMoistForest
            } else if band == 5 {
                Biome::SubtropicalWetForest
            } else {
                Biome::SubtropicalRainForest
            }
        } else {
            if band == 0 {
                Biome::TropicalDesert
            } else if band == 1 {
                Biome::TropicalDesertScrub
            } else if band == 2 {
                Biome::TropicalThornWoodland
            } else if band == 3 {
                Biome::TropicalVeryDryForest
            } else if band == 4 {
                Biome::TropicalDryForest
            } else if band == 5 {
                Biome::TropicalMoistForest
            } else if band == 6 {
                Biome::TropicalWetForest
            } else {
                Biome::TropicalRainForest
            }
        }
    }
}

/// Upper edge of temperature zone `z`, for `z` below the last zone.
pub fn zone_upper_at(z: usize) -> (r: i128)
    requires
        z < LAST_ZONE,
    ensures
        r == zone_upper(z as int),
{
    if z == 0 {
        0
    } else if z == 1 {
        3 * ONE as i128
    } else if z == 2 {
        6 * ONE as i128
    } else if z == 3 {
        12 * ONE as i128
    } else {
        24 * ONE as i128
    }
}

/// Upper edge of precipitation band `k`, for `k` of 0 to 6.
pub fn band_upper_at(k: usize) -> (r: i128)
    requires
        k < 7,
    ensures
        r == band_upper(k as int),
{
    if k == 0 {
        125 * ONE as i128
    } else if k == 1 {
        250 * ONE as i128
    } else if k == 2 {
        500 * ONE as i128
    } else if k == 3 {
        1000 * ONE as i128
    } else if k == 4 {
        2000 * ONE as i128
    } else if k == 5 {
        4000 * ONE as i128
    } else {
        8000 * ONE as i128
    }
}

/// The temperature zone of `t`: the first whose upper edge is not below it.
pub fn zone_of(t: i128) -> (z: usize)
    ensures
        z == temperature_zone(t as int),
        z <= LAST_ZONE,
{
    let mut z: usize = 0;
    while z < LAST_ZONE
        invariant
            z <= LAST_ZONE,
            forall|j: int| 0 <= j < z ==> t > #[trigger] zone_upper(j),
        decreases LAST_ZONE - z,
    {
        if t <= zone_upper_at(z) {
            return z;
        }
        z = z + 1;
    }
    z
}

/// The precipitation band of `p` within temperature zone `zone`.
pub fn band_of(p: i128, zone: usize) -> (k: usize)
    requires
        zone <= LAST_ZONE,
    ensures
        k == precipitation_band(p as int, zone as int),
        k < band_count(zone as int),
{
    let last: usize = if zone == 0 {
        0
    } else {
        zone + 2
    };
    let mut k: usize = 0;
    while k < last
        invariant
            k <= last,
            last == band_count(zone as int) - 1,
            last < 8,
            forall|j: int| 0 <= j < k ==> p > #[trigger] band_upper(j),
        decreases last - k,
    {
        if p <= band_upper_at(k) {
            return k;
        }
        k = k + 1;
    }
    k
}

proof fn lemma_zone_unique(t: int, z1: int, z2: int)
    requires
        in_zone(t, z1),
        in_zone(t, z2),
    ensures
        z1 == z2,
{
}

proof fn lemma_band_unique(p: int, k1: int, k2: int, n: int)
    requires
        n <= 8,
        in_band(p, k1, n),
        in_band(p, k2, n),
    ensures
        k1 == k2,
{
}

proof fn lemma_cell_round_trip(b: Biome)
    requires
        b != Biome::Ocean,
    ensures
        Biome::cell_spec(b.zone(), b.band()) == b,
        0 <= b.zone() <= LAST_ZONE,
        0 <= b.band() < band_count(b.zone()),
{
}

proof fn lemma_cell_coordinates(z: int, k: int)
    requires
        0 <= z <= LAST_ZONE,
        0 <= k < band_count(z),
    ensures
        Biome::cell_spec(z, k) != Biome::Ocean,
        Biome::cell_spec(z, k).zone() == z,
        Biome::cell_spec(z, k).band() == k,
{
}

/// On land, the zones and bands partition the climate plane: for every
/// temperature and precipitation exactly one biome covers the pair, and it
/// is the one that classification picks.
pub proof fn lemma_partition(height: int, t: int, p: int)
    requires
        height > 0,
    ensures
        Biome::classify_spec(height, t, p).covers(t, p),
        forall|b: Biome| #[trigger] b.covers(t, p) ==> b == Biome::classify_spec(height, t, p),
{
    let z = temperature_zone(t);
    let k = precipitation_band(p, z);
    lemma_cell_coordinates(z, k);
    assert forall|b: Biome| #[trigger] b.covers(t, p) implies b == Biome::classify_spec(
        height,
        t,
        p,
    ) by {
        lemma_cell_round_trip(b);
        lemma_zone_unique(t, b.zone(), z);
        lemma_band_unique(p, b.band(), k, band_count(z));
    }
}

/// A point is ocean exactly when it lies at or below sea level, whatever its
/// temperature and precipitation.
pub proof fn lemma_ocean_iff_below_sea(height: int, t: int, p: int)
    ensures
        (Biome::classify_spec(height, t, p) == Biome::Ocean) <==> height <= 0,
{
    if height > 0 {
        let z = temperature_zone(t);
        lemma_cell_coordinates(z, precipitation_band(p, z));
    }
}

} // verus!
