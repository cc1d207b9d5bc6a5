use terragen::biome::{band_of, zone_of};
use terragen::fixed::ONE;
use terragen::tile::{alpine_tint, grass_color, CLIMATE_MAX, LAST_SPRITE, OCEAN_SPRITE};
use terragen::{Biome, Rgb};

const M: i128 = ONE;

const ALL: [Biome; 32] = [
    Biome::Ocean,
    Biome::PolarDesert,
    Biome::SubpolarDryTundra,
    Biome::SubpolarMoistTundra,
    Biome::SubpolarWetTundra,
    Biome::SubpolarRainTundra,
    Biome::BorealDesert,
    Biome::BorealDryScrub,
    Biome::BorealMoistForest,
    Biome::BorealWetForest,
    Biome::BorealRainForest,
    Biome::TemperateDesert,
    Biome::TemperateDesertScrub,
    Biome::TemperateSteppe,
    Biome::TemperateMoistForest,
    Biome::TemperateWetForest,
    Biome::TemperateRainForest,
    Biome::SubtropicalDesert,
    Biome::SubtropicalDesertScrub,
    Biome::SubtropicalThornWoodland,
    Biome::SubtropicalDryForest,
    Biome::SubtropicalMoistForest,
    Biome::SubtropicalWetForest,
    Biome::SubtropicalRainForest,
    Biome::TropicalDesert,
    Biome::TropicalDesertScrub,
    Biome::TropicalThornWoodland,
    Biome::TropicalVeryDryForest,
    Biome::TropicalDryForest,
    Biome::TropicalMoistForest,
    Biome::TropicalWetForest,
    Biome::TropicalRainForest,
];

#[test]
fn zone_boundary_three_degrees_is_subpolar() {
    assert_eq!(Biome::classify(M, 3 * M, 100 * M), Biome::SubpolarDryTundra);
    assert_eq!(Biome::classify(M, 3 * M + M / 10_000, 100 * M), Biome::BorealDesert);
}

#[test]
fn zone_edges_close_upward() {
    assert_eq!(zone_of(0), 0);
    assert_eq!(zone_of(1), 1);
    assert_eq!(zone_of(6 * M), 2);
    assert_eq!(zone_of(6 * M + 1), 3);
    assert_eq!(zone_of(12 * M), 3);
    assert_eq!(zone_of(24 * M), 4);
    assert_eq!(zone_of(24 * M + 1), 5);
    assert_eq!(zone_of(-40 * M), 0);
}

#[test]
fn polar_zone_has_one_band() {
    assert_eq!(Biome::classify(M, 0, 0), Biome::PolarDesert);
    assert_eq!(Biome::classify(M, -10 * M, 9000 * M), Biome::PolarDesert);
    assert_eq!(band_of(9000 * M, 0), 0);
}

#[test]
fn subpolar_bands() {
    assert_eq!(Biome::classify(M, 2 * M, 125 * M), Biome::SubpolarDryTundra);
    assert_eq!(Biome::classify(M, 2 * M, 125 * M + 1), Biome::SubpolarMoistTundra);
    assert_eq!(Biome::classify(M, 2 * M, 250 * M), Biome::SubpolarMoistTundra);
    assert_eq!(Biome::classify(M, 2 * M, 500 * M), Biome::SubpolarWetTundra);
    assert_eq!(Biome::classify(M, 2 * M, 500 * M + 1), Biome::SubpolarRainTundra);
    assert_eq!(Biome::classify(M, 2 * M, 100_000 * M), Biome::SubpolarRainTundra);
}

#[test]
fn boreal_and_temperate_bands() {
    assert_eq!(Biome::classify(M, 5 * M, 1000 * M), Biome::BorealWetForest);
    assert_eq!(Biome::classify(M, 5 * M, 1000 * M + 1), Biome::BorealRainForest);
    assert_eq!(Biome::classify(M, 10 * M, 300 * M), Biome::TemperateSteppe);
    assert_eq!(Biome::classify(M, 10 * M, 2000 * M), Biome::TemperateWetForest);
    assert_eq!(Biome::classify(M, 10 * M, 2000 * M + 1), Biome::TemperateRainForest);
}

#[test]
fn subtropical_and_tropical_bands() {
    assert_eq!(Biome::classify(M, 20 * M, 4000 * M), Biome::SubtropicalWetForest);
    assert_eq!(Biome::classify(M, 20 * M, 4000 * M + 1), Biome::SubtropicalRainForest);
    assert_eq!(Biome::classify(M, 30 * M, -50 * M), Biome::TropicalDesert);
    assert_eq!(Biome::classify(M, 30 * M, 200 * M), Biome::TropicalDesertScrub);
    assert_eq!(Biome::classify(M, 30 * M, 800 * M), Biome::TropicalVeryDryForest);
    assert_eq!(Biome::classify(M, 30 * M, 8000 * M), Biome::TropicalWetForest);
    assert_eq!(Biome::classify(M, 30 * M, 8000 * M + 1), Biome::TropicalRainForest);
}

#[test]
fn at_or_below_sea_level_is_ocean() {
    for t in [-30 * M, 0, 3 * M, 25 * M] {
        for p in [-M, 0, 300 * M, 9000 * M] {
            assert_eq!(Biome::classify(0, t, p), Biome::Ocean);
            assert_eq!(Biome::classify(-5 * M, t, p), Biome::Ocean);
            assert_ne!(Biome::classify(1, t, p), Biome::Ocean);
        }
    }
}

#[test]
fn ocean_tile_is_fixed_blue() {
    let tile = Biome::Ocean.tile(10 * M, 500 * M);
    assert_eq!(tile.sprite, OCEAN_SPRITE);
    assert_eq!(tile.color, Rgb { red: 0, green: 200_000_000_000, blue: 800_000_000_000 });
    assert_eq!(Biome::Ocean.tile(-30 * M, 0), tile);
}

#[test]
fn only_ocean_has_the_ocean_sprite() {
    for b in ALL {
        assert_eq!(b.sprite() == OCEAN_SPRITE, b == Biome::Ocean);
        assert_eq!(b.tile(5 * M, 300 * M).sprite == OCEAN_SPRITE, b == Biome::Ocean);
    }
}

#[test]
fn sprites_and_colours_stay_in_range() {
    for b in ALL {
        for (t, p) in [(-CLIMATE_MAX, CLIMATE_MAX), (CLIMATE_MAX, -CLIMATE_MAX), (40 * M, 16_000 * M), (0, 0)] {
            let tile = b.tile(t, p);
            assert!(tile.sprite <= LAST_SPRITE);
            for c in [tile.color.red, tile.color.green, tile.color.blue] {
                assert!(0 <= c && c <= M);
            }
        }
    }
}

#[test]
fn desert_sprites() {
    assert_eq!(Biome::SubpolarDryTundra.sprite(), 4);
    assert_eq!(Biome::PolarDesert.sprite(), 4);
    assert_eq!(Biome::TropicalDesert.sprite(), 2);
    assert_eq!(Biome::TropicalDesertScrub.sprite(), 1);
    assert_eq!(Biome::TemperateSteppe.sprite(), 0);
    assert_eq!(Biome::TropicalDesert.tile(30 * M, 0).color, Rgb { red: M, green: M, blue: M });
}

#[test]
fn grass_colour_cold_and_dry() {
    let c = grass_color(0, 0);
    assert_eq!(c, Rgb { red: 470_588_235_294, green: 470_588_235_294, blue: 249_019_607_843 });
    for v in [c.red, c.green, c.blue] {
        assert!(0 <= v && v <= M);
    }
}

#[test]
fn grass_colour_hot_and_wet() {
    let c = grass_color(40 * M, 8000 * M);
    assert_eq!(c, Rgb { red: 847_058_823_529, green: 980_392_156_862, blue: 457_124_183_005 });
    for v in [c.red, c.green, c.blue] {
        assert!(0 <= v && v <= M);
    }
}

#[test]
fn vegetation_tile_uses_grass_colour() {
    let tile = Biome::TemperateSteppe.tile(0, 0);
    assert_eq!(tile.sprite, 0);
    assert_eq!(tile.color, grass_color(0, 0));
}

#[test]
fn vegetation_tile_colour_is_clamped() {
    let raw = grass_color(10 * M, 30_000 * M);
    assert!(raw.red > M);
    let tile = Biome::TemperateRainForest.tile(10 * M, 30_000 * M);
    assert_eq!(tile.color.red, M);
    assert_eq!(tile.color.green, M);
}

#[test]
fn alpine_tint_cold_and_dry() {
    assert_eq!(alpine_tint(0, 0), Rgb { red: 0, green: 600_000_000_000, blue: 501_176_470_588 });
}
