use noise::{NoiseFn, Perlin};
use terragen::controls::SEED_BOUND;
use terragen::fixed::{MICRO, ONE};
use terragen::{
    Biome, ConfigError, Control, Location, NoiseField, NoiseSamples, NoiseValues, Rgb, Settings,
    TerrainGenerator, TileDescriptor,
};

const M: i128 = MICRO as i128;
const M64: i64 = MICRO;
const F: i128 = ONE;
const F64: i64 = ONE as i64;

fn default_settings() -> Settings {
    Settings {
        seed: 829201,
        zoom: M64,
        pan_x: 0,
        pan_y: 0,
        map_size: 250,
        tile_size: 16 * M64,
        tile_scale: 250_000,
    }
}

fn to_fixed(v: f64) -> i64 {
    (v * 1_000_000_000_000.0).round() as i64
}

fn from_fixed(v: i128) -> f64 {
    v as f64 / 1_000_000.0
}

fn sample_all(perlin: &Perlin, points: &[(i128, i128)]) -> Vec<i64> {
    points
        .iter()
        .map(|&(px, py)| to_fixed(perlin.get([from_fixed(px), from_fixed(py)])))
        .collect()
}

fn noise_at(g: &TerrainGenerator, loc: &Location) -> NoiseValues {
    let perlin = Perlin::new(g.settings.seed);
    let points = g.noise_points(loc);
    let samples = NoiseSamples {
        height: sample_all(&perlin, &points.height),
        height_mirror: sample_all(&perlin, &points.height_mirror),
        temperature: sample_all(&perlin, &points.temperature),
        humidity: sample_all(&perlin, &points.humidity),
    };
    g.noise_values(&samples).unwrap()
}

#[test]
fn golden_tile_at_origin() {
    let g = TerrainGenerator::new(default_settings()).unwrap();
    let loc = g.locate(0, 0);
    let n = noise_at(&g, &loc);
    assert_eq!(
        n,
        NoiseValues {
            height: 714_285_714_280,
            height_mirror: 714_285_714_280,
            temperature: 624_999_999_997,
            humidity: 543_478_259_957,
        }
    );
    let c = g.climate(&loc, &n);
    assert_eq!(c.height, 1_663_265_306_114_000);
    assert_eq!(c.abs_elevation, 1_663_265_306_114_000);
    assert_eq!(c.temperature, 11_216_183_675_105);
    assert_eq!(c.precipitation, 5_528_091_837_552_500);
    assert!((c.height as f64 / 1e12 - 81500.0 / 49.0).abs() < 1e-6);
    assert!((c.temperature as f64 / 1e12 - 11.21618).abs() < 1e-3);
    assert!((c.precipitation as f64 / 1e12 - 5528.092).abs() < 1e-3);
    assert_eq!(
        Biome::classify(c.height, c.temperature, c.precipitation),
        Biome::TemperateRainForest
    );
    let tile = g.get_tile(&loc, &n);
    assert_eq!(
        tile,
        TileDescriptor {
            sprite: 0,
            color: Rgb { red: 730_733_733_531, green: 730_733_733_531, blue: 386_679_933_993 },
        }
    );
}

#[test]
fn repeated_queries_agree() {
    let g = TerrainGenerator::new(default_settings()).unwrap();
    for (x, y) in [(0, 0), (120 * M64, -44 * M64), (-500 * M64, 500 * M64)] {
        let l1 = g.locate(x, y);
        let l2 = g.locate(x, y);
        assert_eq!(l1, l2);
        let n1 = noise_at(&g, &l1);
        let n2 = noise_at(&g, &l2);
        assert_eq!(n1, n2);
        assert_eq!(g.get_tile(&l1, &n1), g.get_tile(&l2, &n2));
    }
}

#[test]
fn tiles_over_the_map_are_in_range() {
    let g = TerrainGenerator::new(default_settings()).unwrap();
    for i in -5..=5i64 {
        for j in -5..=5i64 {
            let loc = g.locate(i * 100 * M64, j * 100 * M64);
            let n = noise_at(&g, &loc);
            let c = g.climate(&loc, &n);
            let tile = g.get_tile(&loc, &n);
            assert!(tile.sprite <= 5);
            let cap = 500 * c.temperature - 80 * F;
            assert!(c.precipitation >= 0);
            if cap >= 0 {
                assert!(c.precipitation <= cap);
            }
            let b = Biome::classify(c.height, c.temperature, c.precipitation);
            assert_eq!(b == Biome::Ocean, c.height <= 0);
            assert_eq!(tile.sprite == 3, b == Biome::Ocean);
        }
    }
}

#[test]
fn generator_fields_follow_zoom() {
    let g = TerrainGenerator::new(Settings { zoom: 2 * M64, ..default_settings() }).unwrap();
    assert_eq!(g.half_extent, 500 * M);
    assert_eq!(g.height_field, NoiseField {
            octaves: 24,
            scale: 200 * M,
            persistence: 300_000_000_000,
            lacunarity: 4_700_000_000_000,
        });
    assert_eq!(g.temperature_field.scale, 140 * M);
    assert_eq!(g.humidity_field, NoiseField {
            octaves: 8,
            scale: 180 * M,
            persistence: 80_000_000_000,
            lacunarity: 1_200_000_000_000,
        });
}

#[test]
fn zero_zoom_is_rejected() {
    assert_eq!(
        TerrainGenerator::new(Settings { zoom: 0, ..default_settings() }).err(),
        Some(ConfigError::ZoomNotPositive)
    );
    assert_eq!(
        TerrainGenerator::new(Settings { zoom: -M64, ..default_settings() }).err(),
        Some(ConfigError::ZoomNotPositive)
    );
}

#[test]
fn empty_map_is_rejected() {
    assert_eq!(
        TerrainGenerator::new(Settings { map_size: 0, ..default_settings() }).err(),
        Some(ConfigError::EmptyMap)
    );
    assert_eq!(
        TerrainGenerator::new(Settings { tile_size: -16 * M64, ..default_settings() }).err(),
        Some(ConfigError::EmptyMap)
    );
}

#[test]
fn unrepresentable_settings_are_rejected() {
    for s in [
        Settings { zoom: 2000 * M64, ..default_settings() },
        Settings { zoom: 1, ..default_settings() },
        Settings { pan_x: 11 * M64, ..default_settings() },
        Settings { pan_y: -11 * M64, ..default_settings() },
        Settings { map_size: u32::MAX, ..default_settings() },
        Settings { tile_size: i64::MAX, tile_scale: i64::MAX, ..default_settings() },
        Settings { tile_size: 1000, tile_scale: M64, ..default_settings() },
    ] {
        assert_eq!(TerrainGenerator::new(s).err(), Some(ConfigError::OutOfRange));
    }
}

#[test]
fn locate_origin_and_half_way() {
    let g = TerrainGenerator::new(default_settings()).unwrap();
    assert_eq!(g.locate(0, 0), Location { x: 0, y: 0, x_dis: 0, y_dis: 0, r_dis: 0 });
    assert_eq!(
        g.locate(250 * M64, 0),
        Location { x: 250 * M, y: 0, x_dis: 500_000, y_dis: 0, r_dis: 353_553 }
    );
}

#[test]
fn locate_with_pan() {
    let g = TerrainGenerator::new(Settings { pan_x: 100_000, pan_y: -200_000, ..default_settings() }).unwrap();
    let loc = g.locate(0, 0);
    assert_eq!(loc.x, 50 * M);
    assert_eq!(loc.y, -100 * M);
    assert_eq!(loc.x_dis, 100_000);
    assert_eq!(loc.y_dis, -200_000);
}

#[test]
fn zoom_k_at_k_squared_distance_matches_zoom_one() {
    let one = TerrainGenerator::new(default_settings()).unwrap();
    let two = TerrainGenerator::new(Settings { zoom: 2 * M64, ..default_settings() }).unwrap();
    let a = one.locate(100 * M64, -60 * M64);
    let b = two.locate(400 * M64, -240 * M64);
    assert_eq!((a.x_dis, a.y_dis), (200_000, -120_000));
    assert_eq!((b.x_dis, b.y_dis), (a.x_dis, a.y_dis));
    let doubled = two.locate(200 * M64, -120 * M64);
    assert_eq!((doubled.x_dis, doubled.y_dis), (100_000, -60_000));
}

#[test]
fn zoom_controls() {
    let s = default_settings();
    assert_eq!(s.step(Control::ZoomIn).zoom, 1_100_000);
    assert_eq!(s.step(Control::ZoomOut).zoom, 900_000);
    let low = Settings { zoom: 200_000, ..s };
    assert_eq!(low.step(Control::ZoomOut), low);
    let low = Settings { zoom: 300_000, ..s };
    assert_eq!(low.step(Control::ZoomOut).zoom, 200_000);
    let high = Settings { zoom: 1_000_000_000, ..s };
    assert_eq!(high.step(Control::ZoomIn).zoom, 1_000_100_000);
    let top = Settings { zoom: i64::MAX - 1, ..s };
    assert_eq!(top.step(Control::ZoomIn), top);
}

#[test]
fn pan_controls() {
    let s = default_settings();
    assert_eq!(s.step(Control::PanLeft).pan_x, -100_000);
    assert_eq!(s.step(Control::PanRight).pan_x, 100_000);
    assert_eq!(s.step(Control::PanDown).pan_y, -100_000);
    assert_eq!(s.step(Control::PanUp).pan_y, 100_000);
    let edge = Settings { pan_x: -900_000, pan_y: 900_000, ..s };
    assert_eq!(edge.step(Control::PanLeft), edge);
    assert_eq!(edge.step(Control::PanUp), edge);
    assert_eq!(edge.step(Control::PanRight).pan_x, -800_000);
    let zoomed_out = Settings { zoom: 500_000, ..s };
    assert_eq!(zoomed_out.step(Control::PanRight).pan_x, 200_000);
    let far = Settings { zoom: 500, pan_x: 800_000, ..s };
    assert_eq!(far.step(Control::PanRight).pan_x, 200_800_000);
    let flat = Settings { zoom: 0, ..s };
    assert_eq!(flat.step(Control::PanUp), flat);
}

#[test]
fn reseed_control() {
    let s = default_settings();
    let r = s.step(Control::Reseed(42));
    assert_eq!(r, Settings { seed: 42, ..s });
    assert_ne!(r, s);
    assert_eq!(s.step(Control::Reseed(829201)), s);
}

#[test]
fn noise_points_per_field() {
    let g = TerrainGenerator::new(default_settings()).unwrap();
    let loc = g.locate(50 * M64, -20 * M64);
    let pts = g.noise_points(&loc);
    assert_eq!(pts.height.len(), 24);
    assert_eq!(pts.height_mirror.len(), 24);
    assert_eq!(pts.temperature.len(), 24);
    assert_eq!(pts.humidity.len(), 8);
    assert_eq!(pts.height[0], (500_000, -200_000));
    assert_eq!(pts.height[1], (2_350_000, -940_000));
    assert_eq!(pts.height_mirror[0], (-500_000, 200_000));
    assert_eq!(pts.temperature[0], (714_285, -285_715));
    assert_eq!(pts.humidity[1], (666_666, -266_668));
}

#[test]
fn noise_values_need_one_sample_per_point() {
    let g = TerrainGenerator::new(default_settings()).unwrap();
    let full = NoiseSamples {
        height: vec![0; 24],
        height_mirror: vec![-F64; 24],
        temperature: vec![F64; 24],
        humidity: vec![0; 8],
    };
    let v = g.noise_values(&full).unwrap();
    assert_eq!(
        v,
        NoiseValues { height: 714_285_714_280, height_mirror: 0, temperature: F, humidity: 543_478_259_957 }
    );
    let short = NoiseSamples { humidity: vec![0; 7], ..full };
    assert_eq!(g.noise_values(&short), None);
}

#[test]
fn reseeding_draws_a_bounded_seed() {
    let s = default_settings();
    for _ in 0..20 {
        let r = s.reseeded();
        assert!(r.seed < SEED_BOUND);
        assert_eq!(r, Settings { seed: r.seed, ..s });
    }
}

#[test]
fn zoom_scaling_keeps_the_tile() {
    let one = TerrainGenerator::new(Settings { pan_x: 100_000, ..default_settings() }).unwrap();
    let three = TerrainGenerator::new(Settings { zoom: 3 * M64, pan_x: 100_000, ..default_settings() }).unwrap();
    for (x, y) in [(0, 0), (37 * M64, -12 * M64), (-100 * M64, 55 * M64)] {
        let a = one.locate(x, y);
        let b = three.locate(9 * x, 9 * y);
        assert_eq!((a.x_dis, a.y_dis, a.r_dis), (b.x_dis, b.y_dis, b.r_dis));
        let pa = one.noise_points(&a);
        let pb = three.noise_points(&b);
        assert_eq!(pa.height, pb.height);
        assert_eq!(pa.height_mirror, pb.height_mirror);
        assert_eq!(pa.temperature, pb.temperature);
        assert_eq!(pa.humidity, pb.humidity);
        let na = noise_at(&one, &a);
        let nb = noise_at(&three, &b);
        assert_eq!(na, nb);
        assert_eq!(one.get_tile(&a, &na), three.get_tile(&b, &nb));
    }
}
