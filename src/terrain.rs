//! The generator: a fixed configuration, the three noise fields it implies,
//! and the composition of placement, climate, classification and tiling.

use vstd::prelude::*;
use crate::biome::Biome;
use crate::climate::{
    ClimateSample, DIS_MAX, Location, NoiseValues, climate_height, climate_precipitation,
    climate_temperature, sample,
};
use crate::fixed::{
    MICRO, abs, div_micro, micro_div, micro_mul, floor_div, isqrt, lemma_cancel_factor, lemma_div_bound,
    lemma_nested_floor, mul_micro,
};
use crate::noise_field::{COORD_LIMIT, NoiseField};
use crate::tile::{LAST_SPRITE, OCEAN_SPRITE, TileDescriptor, channels_in_unit};

verus! {

// The limits below are those of the representation, not of the model.
// Every intermediate value of placement, sampling and climate is held in an
// `i128`; they are chosen so that, across their whole product, the
// transformed coordinate stays within `COORD_LIMIT` (where the octave
// points, up to `lacunarity^23` times it, still fit), and the distances from
// the centre stay within `DIS_MAX` (where their squares still fit). The
// crude bound behind this multiplies the extremes of all of them, so
// widening one calls for narrowing another.

/// Smallest zoom accepted (0.001): a coordinate is divided by the zoom twice
/// on its way to a distance from the centre.
pub const ZOOM_MIN: i64 = 1_000;

/// Largest zoom accepted (1000): the pan offset grows with the zoom.
pub const ZOOM_MAX: i64 = 1_000_000_000;

/// Largest magnitude of a pan fraction accepted (10), for the same offset.
pub const PAN_MAX: i64 = 10_000_000;

/// Largest half extent of the map accepted, in world units (10000): the pan
/// offset grows with it too.
pub const EXTENT_MAX: i128 = 10_000_000_000;

/// Largest magnitude of a world coordinate that can be placed (10000).
pub const COORD_MAX: i64 = 10_000_000_000;

/// The generator's configuration. Real quantities are in fixed point.
#[derive(Clone, Copy, Debug, PartialEq, Eq, Structural)]
pub struct Settings {
    pub seed: u32,
    pub zoom: i64,
    /// Pan along x, as a fraction of the half map extent.
    pub pan_x: i64,
    /// Pan along y, as a fraction of the half map extent.
    pub pan_y: i64,
    /// Tiles per axis.
    pub map_size: u32,
    /// Tile size in pixels.
    pub tile_size: i64,
    /// Render scale of a tile.
    pub tile_scale: i64,
}

#[derive(Clone, Copy, Debug, PartialEq, Eq, Structural)]
pub enum ConfigError {
    /// The zoom is zero or negative.
    ZoomNotPositive,
    /// The map has no extent.
    EmptyMap,
    /// A value lies outside the range that the generator can represent in
    /// `i128` (see `ZOOM_MIN`, `ZOOM_MAX`, `PAN_MAX`, `EXTENT_MAX`; a half
    /// extent below one world unit is refused for the same reason).
    OutOfRange,
}

/// Half the map's extent along an axis, in world units.
pub open spec fn half_extent(s: Settings) -> int {
    (micro_mul(s.tile_size as int, s.tile_scale as int) * s.map_size) / 2
}

/// Why the settings cannot make a generator, if they cannot.
pub open spec fn settings_error(s: Settings) -> Option<ConfigError> {
    if s.zoom <= 0 {
        Some(ConfigError::ZoomNotPositive)
    } else if half_extent(s) <= 0 {
        Some(ConfigError::EmptyMap)
    } else if s.zoom < ZOOM_MIN || s.zoom > ZOOM_MAX || abs(s.pan_x as int) > PAN_MAX || abs(
        s.pan_y as int,
    ) > PAN_MAX || half_extent(s) < MICRO || half_extent(s) > EXTENT_MAX {
        Some(ConfigError::OutOfRange)
    } else {
        None
    }
}

/// A noise field whose scale is `base` world units times the zoom.
pub open spec fn field_spec(octaves: u32, base: int, persistence: int, lacunarity: int, zoom: int) -> NoiseField {
    NoiseField {
        octaves,
        scale: (base * zoom) as i128,
        persistence: persistence as i128,
        lacunarity: lacunarity as i128,
    }
}

/// The height field: 24 octaves, a scale of 100 times the zoom, persistence
/// 0.3, lacunarity 4.7.
pub open spec fn height_field_spec(zoom: int) -> NoiseField {
    field_spec(24, 100, 300_000_000_000, 4_700_000_000_000, zoom)
}

/// The temperature field: 24 octaves, a scale of 70 times the zoom,
/// persistence 0.2, lacunarity 4.1.
pub open spec fn temperature_field_spec(zoom: int) -> NoiseField {
    field_spec(24, 70, 200_000_000_000, 4_100_000_000_000, zoom)
}

/// The humidity field: 8 octaves, a scale of 90 times the zoom, persistence
/// 0.08, lacunarity 1.2.
pub open spec fn humidity_field_spec(zoom: int) -> NoiseField {
    field_spec(8, 90, 80_000_000_000, 1_200_000_000_000, zoom)
}

/// A world coordinate moved by zoom and pan: divided by the zoom, plus the
/// pan fraction of the half extent times the zoom.
pub open spec fn transformed(v: int, zoom: int, pan: int, extent: int) -> int {
    micro_div(v, zoom) + micro_mul(micro_mul(extent, zoom), pan)
}

/// A transformed coordinate as a distance from the centre, in half extents
/// times the zoom.
pub open spec fn distance(t: int, zoom: int, extent: int) -> int {
    micro_div(micro_div(t, extent), zoom)
}

/// The place of world point `(x, y)` under settings `s`; the radial distance
/// is any square root, rounded down, of half the sum of the squared axis
/// distances.
pub open spec fn located(s: Settings, x: int, y: int, loc: Location) -> bool {
    let e = half_extent(s);
    &&& loc.x == transformed(x, s.zoom as int, s.pan_x as int, e)
    &&& loc.y == transformed(y, s.zoom as int, s.pan_y as int, e)
    &&& loc.x_dis == distance(loc.x as int, s.zoom as int, e)
    &&& loc.y_dis == distance(loc.y as int, s.zoom as int, e)
    &&& is_root(loc.r_dis as int, (loc.x_dis * loc.x_dis + loc.y_dis * loc.y_dis) / 2)
}

/// `r` is the square root of `n`, rounded down.
pub open spec fn is_root(r: int, n: int) -> bool {
    0 <= r && r * r <= n < (r + 1) * (r + 1)
}

/// The tile of a point with place `loc` and noise values `n`.
pub open spec fn tile_spec(loc: Location, n: NoiseValues) -> TileDescriptor {
    let t = climate_temperature(loc, n);
    let p = climate_precipitation(loc, n);
    Biome::classify_spec(climate_height(loc, n), t, p).tile_spec(t, p)
}

/// Where to sample the noise primitive for one point: for each field, one
/// point per octave.
pub struct NoisePoints {
    pub height: Vec<(i128, i128)>,
    /// For the height field at the point mirrored through the origin.
    pub height_mirror: Vec<(i128, i128)>,
    pub temperature: Vec<(i128, i128)>,
    pub humidity: Vec<(i128, i128)>,
}

/// The primitive's values at the points of a [`NoisePoints`], in the same order.
pub struct NoiseSamples {
    pub height: Vec<i64>,
    pub height_mirror: Vec<i64>,
    pub temperature: Vec<i64>,
    pub humidity: Vec<i64>,
}

/// `pts` are the octave points of field `f` at `(x, y)`.
pub open spec fn points_of(f: NoiseField, x: int, y: int, pts: Seq<(i128, i128)>) -> bool {
    &&& pts.len() == f.octaves
    &&& forall|i: int|
        0 <= i < pts.len() ==> #[trigger] pts[i].0 == f.octave_point(x, i as nat) && pts[i].1
            == f.octave_point(y, i as nat)
}

/// The generator for one set of settings: the half extent of the map and the
/// three noise fields. It is built once and never changed; new settings call
/// for a new generator.
pub struct TerrainGenerator {
    pub settings: Settings,
    pub half_extent: i128,
    pub height_field: NoiseField,
    pub temperature_field: NoiseField,
    pub humidity_field: NoiseField,
}

impl TerrainGenerator {
    pub open spec fn wf(&self) -> bool {
        &&& settings_error(self.settings).is_none()
        &&& self.half_extent == half_extent(self.settings)
        &&& self.height_field == height_field_spec(self.settings.zoom as int)
        &&& self.temperature_field == temperature_field_spec(self.settings.zoom as int)
        &&& self.humidity_field == humidity_field_spec(self.settings.zoom as int)
        &&& self.height_field.wf()
        &&& self.temperature_field.wf()
        &&& self.humidity_field.wf()
    }

    /// A generator for `settings`, or the reason there can be none: a zoom
    /// that is not positive, a map without extent, or a value out of range.
    pub fn new(settings: Settings) -> (r: Result<TerrainGenerator, ConfigError>)
        ensures
            match r {
                Ok(g) => settings_error(settings).is_none() && g.settings == settings && g.wf(),
                Err(e) => settings_error(settings) == Some(e),
            },
    {
        if settings.zoom <= 0 {
            return Err(ConfigError::ZoomNotPositive);
        }
        let extent = match extent_of(&settings) {
            Some(e) if e <= 0 => {
                return Err(ConfigError::EmptyMap);
            },
            Some(e) => e,
            None => {
                return Err(ConfigError::OutOfRange);
            },
        };
        if settings.zoom < ZOOM_MIN || settings.zoom > ZOOM_MAX || settings.pan_x < -PAN_MAX
            || settings.pan_x > PAN_MAX || settings.pan_y < -PAN_MAX || settings.pan_y > PAN_MAX
            || extent < MICRO as i128 || extent > EXTENT_MAX {
            return Err(ConfigError::OutOfRange);
        }
        let zoom = settings.zoom as i128;
        let height_field = NoiseField {
            octaves: 24,
            scale: 100 * zoom,
            persistence: 300_000_000_000,
            lacunarity: 4_700_000_000_000,
        };
        let temperature_field = NoiseField {
            octaves: 24,
            scale: 70 * zoom,
            persistence: 200_000_000_000,
            lacunarity: 4_100_000_000_000,
        };
        let humidity_field = NoiseField {
            octaves: 8,
            scale: 90 * zoom,
            persistence: 80_000_000_000,
            lacunarity: 1_200_000_000_000,
        };
        Ok(
            TerrainGenerator {
                settings,
                half_extent: extent,
                height_field,
                temperature_field,
                humidity_field,
            },
        )
    }

    /// The place of world point `(x, y)`: the transformed coordinate, the
    /// axis distances from the centre and the radial distance.
    pub fn locate(&self, x: i64, y: i64) -> (loc: Location)
        requires
            self.wf(),
            -COORD_MAX <= x <= COORD_MAX,
            -COORD_MAX <= y <= COORD_MAX,
        ensures
            located(self.settings, x as int, y as int, loc),
            loc.bounded(),
            -COORD_LIMIT <= loc.x <= COORD_LIMIT,
            -COORD_LIMIT <= loc.y <= COORD_LIMIT,
    {
        let tx = self.transform(x as i128, self.settings.pan_x as i128);
        let ty = self.transform(y as i128, self.settings.pan_y as i128);
        let x_dis = self.distance_of(tx);
        let y_dis = self.distance_of(ty);
        proof {
            assert(0 <= x_dis * x_dis <= DIS_MAX * DIS_MAX) by (nonlinear_arith)
                requires
                    -DIS_MAX <= x_dis <= DIS_MAX,
            ;
            assert(0 <= y_dis * y_dis <= DIS_MAX * DIS_MAX) by (nonlinear_arith)
                requires
                    -DIS_MAX <= y_dis <= DIS_MAX,
            ;
        }
        let r_dis = isqrt((x_dis * x_dis + y_dis * y_dis) / 2);
        Location { x: tx, y: ty, x_dis, y_dis, r_dis }
    }

    fn transform(&self, v: i128, pan: i128) -> (t: i128)
        requires
            self.wf(),
            -COORD_MAX <= v <= COORD_MAX,
            -PAN_MAX <= pan <= PAN_MAX,
        ensures
            t == transformed(v as int, self.settings.zoom as int, pan as int, self.half_extent as int),
            -COORD_LIMIT <= t <= COORD_LIMIT,
    {
        let zoom = self.settings.zoom as i128;
        let e = self.half_extent;
        let a = div_micro(v, zoom);
        proof {
            lemma_div_bound(v * MICRO, COORD_MAX * MICRO, zoom as int, ZOOM_MIN as int);
        }
        let b = mul_micro(e, zoom);
        proof {
            assert(0 <= e * zoom <= EXTENT_MAX * ZOOM_MAX) by (nonlinear_arith)
                requires
                    0 <= e <= EXTENT_MAX,
                    0 <= zoom <= ZOOM_MAX,
            ;
            lemma_div_bound(e * zoom, EXTENT_MAX * ZOOM_MAX, MICRO as int, MICRO as int);
            vstd::arithmetic::div_mod::lemma_div_pos_is_pos(e * zoom, MICRO as int);
        }
        let off = mul_micro(b, pan);
        proof {
            let bb = b as int;
            let pp = pan as int;
            assert(-(10_000_000_000_000 * PAN_MAX) <= bb * pp <= 10_000_000_000_000 * PAN_MAX) by (nonlinear_arith)
                requires
                    0 <= bb <= 10_000_000_000_000,
                    -PAN_MAX <= pp <= PAN_MAX,
            ;
            lemma_div_bound(bb * pp, 10_000_000_000_000 * PAN_MAX, MICRO as int, MICRO as int);
        }
        a + off
    }

    fn distance_of(&self, t: i128) -> (d: i128)
        requires
            self.wf(),
            -COORD_LIMIT <= t <= COORD_LIMIT,
        ensures
            d == distance(t as int, self.settings.zoom as int, self.half_extent as int),
            -DIS_MAX <= d <= DIS_MAX,
    {
        let zoom = self.settings.zoom as i128;
        let u = div_micro(t, self.half_extent);
        proof {
            lemma_div_bound(t * MICRO, COORD_LIMIT * MICRO, self.half_extent as int, MICRO as int);
        }
        let d = div_micro(u, zoom);
        proof {
            lemma_div_bound(u * MICRO, (COORD_LIMIT + 1) * MICRO, zoom as int, ZOOM_MIN as int);
        }
        d
    }

    /// Where to sample the noise primitive for place `loc`: the height,
    /// temperature and humidity fields at the transformed coordinate, and the
    /// height field again at its mirror image through the origin.
    pub fn noise_points(&self, loc: &Location) -> (r: NoisePoints)
        requires
            self.wf(),
            -COORD_LIMIT <= loc.x <= COORD_LIMIT,
            -COORD_LIMIT <= loc.y <= COORD_LIMIT,
        ensures
            points_of(self.height_field, loc.x as int, loc.y as int, r.height@),
            points_of(self.height_field, -loc.x, -loc.y, r.height_mirror@),
            points_of(self.temperature_field, loc.x as int, loc.y as int, r.temperature@),
            points_of(self.humidity_field, loc.x as int, loc.y as int, r.humidity@),
    {
        let height = self.height_field.octave_points(loc.x, loc.y);
        let height_mirror = self.height_field.octave_points(-loc.x, -loc.y);
        let temperature = self.temperature_field.octave_points(loc.x, loc.y);
        let humidity = self.humidity_field.octave_points(loc.x, loc.y);
        assert(points_of(self.humidity_field, loc.x as int, loc.y as int, humidity@));
        NoisePoints { height, height_mirror, temperature, humidity }
    }

    /// The noise values from the primitive's samples at the points of
    /// `noise_points`, each field's samples combined by that field.
    pub fn noise_values(&self, s: &NoiseSamples) -> (r: Option<NoiseValues>)
        requires
            self.wf(),
        ensures
            r.is_some() <==> (s.height@.len() == self.height_field.octaves
                && s.height_mirror@.len() == self.height_field.octaves
                && s.temperature@.len() == self.temperature_field.octaves
                && s.humidity@.len() == self.humidity_field.octaves),
            r matches Some(v) ==> v.in_unit() && v == (NoiseValues {
                height: self.height_field.value_spec(s.height@) as i128,
                height_mirror: self.height_field.value_spec(s.height_mirror@) as i128,
                temperature: self.temperature_field.value_spec(s.temperature@) as i128,
                humidity: self.humidity_field.value_spec(s.humidity@) as i128,
            }),
    {
        if s.height.len() != self.height_field.octaves as usize || s.height_mirror.len()
            != self.height_field.octaves as usize || s.temperature.len()
            != self.temperature_field.octaves as usize || s.humidity.len()
            != self.humidity_field.octaves as usize {
            return None;
        }
        Some(
            NoiseValues {
                height: self.height_field.combine(&s.height),
                height_mirror: self.height_field.combine(&s.height_mirror),
                temperature: self.temperature_field.combine(&s.temperature),
                humidity: self.humidity_field.combine(&s.humidity),
            },
        )
    }

    /// The climate of a point with place `loc` and noise values `n`.
    pub fn climate(&self, loc: &Location, n: &NoiseValues) -> (c: ClimateSample)
        requires
            loc.bounded(),
            n.in_unit(),
        ensures
            c.height == climate_height(*loc, *n),
            c.temperature == climate_temperature(*loc, *n),
            c.precipitation == climate_precipitation(*loc, *n),
            c.abs_elevation == crate::climate::climate_elevation(*loc, *n),
    {
        sample(loc, n)
    }

    /// The tile of a point with place `loc` and noise values `n`: its climate,
    /// then its biome, then the biome's tile.
    pub fn get_tile(&self, loc: &Location, n: &NoiseValues) -> (r: TileDescriptor)
        requires
            loc.bounded(),
            n.in_unit(),
        ensures
            r == tile_spec(*loc, *n),
            r.sprite <= LAST_SPRITE,
            channels_in_unit(r.color),
            (r.sprite == OCEAN_SPRITE) <==> climate_height(*loc, *n) <= 0,
    {
        let c = sample(loc, n);
        let b = Biome::classify(c.height, c.temperature, c.precipitation);
        proof {
            crate::biome::lemma_ocean_iff_below_sea(
                c.height as int,
                c.temperature as int,
                c.precipitation as int,
            );
        }
        b.tile(c.temperature, c.precipitation)
    }
}

/// Half the map's extent, or `None` where it exceeds the accepted range.
fn extent_of(s: &Settings) -> (r: Option<i128>)
    ensures
        match r {
            Some(e) => e <= EXTENT_MAX && (e == half_extent(*s) || (e == 0 && half_extent(*s) <= 0)),
            None => half_extent(*s) > EXTENT_MAX,
        },
{
    let size = s.tile_size as i128;
    let scale = s.tile_scale as i128;
    assert(-0x4000_0000_0000_0000_0000_0000_0000_0000 <= size * scale <= 0x4000_0000_0000_0000_0000_0000_0000_0000) by (nonlinear_arith)
        requires
            -0x8000_0000_0000_0000 <= size <= 0x8000_0000_0000_0000,
            -0x8000_0000_0000_0000 <= scale <= 0x8000_0000_0000_0000,
    ;
    let tile = floor_div(size * scale, MICRO as i128);
    if tile <= 0 || s.map_size == 0 {
        proof {
            assert(tile * s.map_size <= 0) by (nonlinear_arith)
                requires
                    tile <= 0 || s.map_size == 0,
                    s.map_size >= 0,
            ;
        }
        return Some(0);
    }
    if tile > 2 * EXTENT_MAX + 1 {
        proof {
            assert(tile * s.map_size >= tile) by (nonlinear_arith)
                requires
                    tile > 0,
                    s.map_size >= 1,
            ;
        }
        return None;
    }
    proof {
        assert(tile * s.map_size <= (2 * EXTENT_MAX + 1) * 0xffff_ffff) by (nonlinear_arith)
            requires
                0 < tile <= 2 * EXTENT_MAX + 1,
                s.map_size <= 0xffff_ffff,
        ;
    }
    let e = (tile * s.map_size as i128) / 2;
    if e > EXTENT_MAX {
        None
    } else {
        Some(e)
    }
}

proof fn lemma_root_unique(r1: int, r2: int, n: int)
    requires
        is_root(r1, n),
        is_root(r2, n),
    ensures
        r1 == r2,
{
    if r1 < r2 {
        assert((r1 + 1) * (r1 + 1) <= r2 * r2) by (nonlinear_arith)
            requires
                0 <= r1 < r2,
        ;
    } else if r2 < r1 {
        assert((r2 + 1) * (r2 + 1) <= r1 * r1) by (nonlinear_arith)
            requires
                0 <= r2 < r1,
        ;
    }
}

/// Placement and tiling are functions of their inputs: the same settings,
/// world point and noise values always give the same place and the same tile.
pub proof fn lemma_deterministic(s: Settings, x: int, y: int, l1: Location, l2: Location, n: NoiseValues)
    requires
        located(s, x, y, l1),
        located(s, x, y, l2),
    ensures
        l1 == l2,
        tile_spec(l1, n) == tile_spec(l2, n),
{
    lemma_root_unique(
        l1.r_dis as int,
        l2.r_dis as int,
        (l1.x_dis * l1.x_dis + l1.y_dis * l1.y_dis) / 2,
    );
}

/// At zoom `k` and `k * k` times the coordinate, the transformed coordinate
/// is `k` times the one at zoom one.
proof fn lemma_transform_scales(v: int, k: int, pan: int, extent: int)
    requires
        k >= 1,
        extent > 0,
        (extent * pan) % (MICRO as int) == 0,
    ensures
        transformed(k * k * v, k * MICRO, pan, extent) == k * transformed(v, MICRO as int, pan, extent),
{
    let one = MICRO as int;
    let m = (extent * pan) / one;
    vstd::arithmetic::div_mod::lemma_fundamental_div_mod(extent * pan, one);
    assert(extent * pan == one * m);
    vstd::arithmetic::div_mod::lemma_div_multiples_vanish(v, one);
    assert(v * one == one * v) by (nonlinear_arith);
    vstd::arithmetic::div_mod::lemma_div_multiples_vanish(extent, one);
    assert(extent * one == one * extent) by (nonlinear_arith);
    let t1 = transformed(v, one, pan, extent);
    assert(t1 == v + m);
    assert(k * k * v * one == (k * one) * (k * v)) by (nonlinear_arith);
    vstd::arithmetic::div_mod::lemma_div_multiples_vanish(k * v, k * one);
    assert(extent * (k * one) == one * (k * extent)) by (nonlinear_arith);
    vstd::arithmetic::div_mod::lemma_div_multiples_vanish(k * extent, one);
    assert(k * extent * pan == one * (k * m)) by (nonlinear_arith)
        requires
            extent * pan == one * m,
    ;
    vstd::arithmetic::div_mod::lemma_div_multiples_vanish(k * m, one);
    let tk = transformed(k * k * v, k * one, pan, extent);
    assert(tk == k * v + k * m);
    assert(tk == k * t1) by (nonlinear_arith)
        requires
            tk == k * v + k * m,
            t1 == v + m,
    ;
}

/// `k` times a transformed coordinate at zoom `k` lies as far from the
/// centre as the coordinate itself at zoom one.
proof fn lemma_distance_scales(t1: int, k: int, extent: int)
    requires
        k >= 1,
        extent > 0,
    ensures
        distance(k * t1, k * MICRO, extent) == distance(t1, MICRO as int, extent),
{
    let one = MICRO as int;
    let tk = k * t1;
    let q = (tk * one) / extent;
    assert(q * one == one * q) by (nonlinear_arith);
    lemma_cancel_factor(one, q, k);
    assert((one * q) / (one * k) == q / k);
    assert(k * one == one * k) by (nonlinear_arith);
    lemma_nested_floor(tk * one, extent, k);
    assert(tk * one == k * (t1 * one)) by (nonlinear_arith)
        requires
            tk == k * t1,
    ;
    lemma_cancel_factor(k, t1 * one, extent);
    assert(extent * k == k * extent) by (nonlinear_arith);
    let q1 = (t1 * one) / extent;
    vstd::arithmetic::div_mod::lemma_div_multiples_vanish(q1, one);
    assert(q1 * one == one * q1) by (nonlinear_arith);
}

/// Zooming in by a whole factor `k` while taking a world point `k * k` times
/// as far from the origin leaves its distance from the centre unchanged,
/// where the pan offset at zoom one is a whole number of millionths.
pub proof fn lemma_zoom_scaling(v: int, k: int, pan: int, extent: int)
    requires
        k >= 1,
        extent > 0,
        (extent * pan) % (MICRO as int) == 0,
    ensures
        distance(transformed(k * k * v, k * MICRO, pan, extent), k * MICRO, extent) == distance(
            transformed(v, MICRO as int, pan, extent),
            MICRO as int,
            extent,
        ),
{
    lemma_transform_scales(v, k, pan, extent);
    lemma_distance_scales(transformed(v, MICRO as int, pan, extent), k, extent);
}

/// A field whose scale is `k` times another's samples `k` times the
/// coordinate at the same points.
proof fn lemma_point_scales(f1: NoiseField, fk: NoiseField, k: int, t: int, i: nat)
    requires
        k >= 1,
        f1.scale > 0,
        fk.scale == k * f1.scale,
        fk.lacunarity == f1.lacunarity,
    ensures
        fk.octave_point(k * t, i) == f1.octave_point(t, i),
{
    let one = MICRO as int;
    lemma_cancel_factor(k, t * one, f1.scale as int);
    assert((k * t) * one == k * (t * one)) by (nonlinear_arith);
}

/// Octave `i` of every field samples place `lk` at zoom `k` where it samples
/// place `l1` at zoom one, the mirrored height samples included.
pub open spec fn same_points(k: int, l1: Location, lk: Location, i: nat) -> bool {
    let (hk, h1) = (height_field_spec(k * MICRO), height_field_spec(MICRO as int));
    let (tk, t1) = (temperature_field_spec(k * MICRO), temperature_field_spec(MICRO as int));
    let (uk, u1) = (humidity_field_spec(k * MICRO), humidity_field_spec(MICRO as int));
    &&& hk.octave_point(lk.x as int, i) == h1.octave_point(l1.x as int, i)
    &&& hk.octave_point(lk.y as int, i) == h1.octave_point(l1.y as int, i)
    &&& hk.octave_point(-lk.x, i) == h1.octave_point(-l1.x, i)
    &&& hk.octave_point(-lk.y, i) == h1.octave_point(-l1.y, i)
    &&& tk.octave_point(lk.x as int, i) == t1.octave_point(l1.x as int, i)
    &&& tk.octave_point(lk.y as int, i) == t1.octave_point(l1.y as int, i)
    &&& uk.octave_point(lk.x as int, i) == u1.octave_point(l1.x as int, i)
    &&& uk.octave_point(lk.y as int, i) == u1.octave_point(l1.y as int, i)
}

/// Zooming in by a whole factor `k` while taking a world point `k * k` times
/// as far from the origin, with the pan offsets at zoom one whole numbers of
/// millionths: the place keeps its distances from the centre, the noise
/// fields are sampled at the same points, and so, for the same samples, the
/// tile is the same.
pub proof fn lemma_zoom_scaling_tile(
    s1: Settings,
    k: int,
    x: int,
    y: int,
    l1: Location,
    lk: Location,
    n: NoiseValues,
)
    requires
        k >= 1,
        k * MICRO <= ZOOM_MAX,
        s1.zoom == MICRO,
        settings_error(s1).is_none(),
        settings_error(Settings { zoom: (k * MICRO) as i64, ..s1 }).is_none(),
        (half_extent(s1) * s1.pan_x) % (MICRO as int) == 0,
        (half_extent(s1) * s1.pan_y) % (MICRO as int) == 0,
        located(s1, x, y, l1),
        located(Settings { zoom: (k * MICRO) as i64, ..s1 }, k * k * x, k * k * y, lk),
    ensures
        lk.x_dis == l1.x_dis,
        lk.y_dis == l1.y_dis,
        lk.r_dis == l1.r_dis,
        forall|i: nat| #[trigger] same_points(k, l1, lk, i),
        tile_spec(lk, n) == tile_spec(l1, n),
{
    let e = half_extent(s1);
    let sk = Settings { zoom: (k * MICRO) as i64, ..s1 };
    assert(sk.zoom == k * MICRO);
    assert(half_extent(sk) == e);
    lemma_transform_scales(x, k, s1.pan_x as int, e);
    lemma_transform_scales(y, k, s1.pan_y as int, e);
    assert(lk.x == k * l1.x);
    assert(lk.y == k * l1.y);
    lemma_distance_scales(l1.x as int, k, e);
    lemma_distance_scales(l1.y as int, k, e);
    lemma_root_unique(
        l1.r_dis as int,
        lk.r_dis as int,
        (l1.x_dis * l1.x_dis + l1.y_dis * l1.y_dis) / 2,
    );
    assert forall|i: nat| #[trigger] same_points(k, l1, lk, i) by {
        let (hk, h1) = (height_field_spec(k * MICRO), height_field_spec(MICRO as int));
        let (tk, t1) = (temperature_field_spec(k * MICRO), temperature_field_spec(MICRO as int));
        let (uk, u1) = (humidity_field_spec(k * MICRO), humidity_field_spec(MICRO as int));
        assert(0 < 100 * (k * MICRO) <= 100 * ZOOM_MAX);
        assert(hk.scale == 100 * (k * MICRO));
        assert(h1.scale == 100 * MICRO);
        assert(k * (100 * MICRO) == 100 * (k * MICRO)) by (nonlinear_arith);
        assert(hk.scale == k * h1.scale);
        assert(0 < 70 * (k * MICRO) <= 70 * ZOOM_MAX);
        assert(tk.scale == 70 * (k * MICRO));
        assert(t1.scale == 70 * MICRO);
        assert(k * (70 * MICRO) == 70 * (k * MICRO)) by (nonlinear_arith);
        assert(tk.scale == k * t1.scale);
        assert(0 < 90 * (k * MICRO) <= 90 * ZOOM_MAX);
        assert(u1.scale == 90 * MICRO);
        assert(k * (90 * MICRO) == 90 * (k * MICRO)) by (nonlinear_arith);
        assert(uk.scale == k * u1.scale);
        lemma_point_scales(h1, hk, k, l1.x as int, i);
        lemma_point_scales(h1, hk, k, l1.y as int, i);
        lemma_point_scales(h1, hk, k, -l1.x, i);
        lemma_point_scales(h1, hk, k, -l1.y, i);
        let (ax, ay) = (l1.x as int, l1.y as int);
        assert(k * (-ax) == -(k * ax)) by (nonlinear_arith);
        assert(k * (-ay) == -(k * ay)) by (nonlinear_arith);
        assert(-lk.x == k * (-ax));
        assert(-lk.y == k * (-ay));
        lemma_point_scales(t1, tk, k, l1.x as int, i);
        lemma_point_scales(t1, tk, k, l1.y as int, i);
        lemma_point_scales(u1, uk, k, l1.x as int, i);
        lemma_point_scales(u1, uk, k, l1.y as int, i);
    }
}

/// Ocean tiles: a point is ocean exactly when it lies at or below sea
/// level, and its tile carries the ocean sprite exactly when it is ocean,
/// whatever its temperature and precipitation.
pub proof fn lemma_ocean_tile(loc: Location, n: NoiseValues)
    ensures
        ({
            let h = climate_height(loc, n);
            let b = Biome::classify_spec(h, climate_temperature(loc, n), climate_precipitation(loc, n));
            &&& (b == Biome::Ocean <==> h <= 0)
            &&& (tile_spec(loc, n).sprite == OCEAN_SPRITE <==> b == Biome::Ocean)
        }),
{
    crate::biome::lemma_ocean_iff_below_sea(
        climate_height(loc, n),
        climate_temperature(loc, n),
        climate_precipitation(loc, n),
    );
}

} // verus!
