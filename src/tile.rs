//! Tile descriptors: a sprite index and a tint for each biome.

use vstd::prelude::*;
use crate::biome::Biome;
use crate::fixed::{ONE, clamp, floor_div};

verus! {

/// A colour with red, green and blue channels in fixed point (one is full).
#[derive(Clone, Copy, Debug, PartialEq, Eq, Structural)]
pub struct Rgb {
    pub red: i128,
    pub green: i128,
    pub blue: i128,
}

/// What the presentation layer needs to draw one tile.
#[derive(Clone, Copy, Debug, PartialEq, Eq, Structural)]
pub struct TileDescriptor {
    /// Cell of the texture atlas, 0 to 5.
    pub sprite: usize,
    pub color: Rgb,
}

/// The largest magnitude of a temperature or precipitation that colouring accepts.
pub const CLIMATE_MAX: i128 = 0x10_0000_0000_0000_0000_0000;

/// Sprite of ocean tiles.
pub const OCEAN_SPRITE: usize = 3;

/// Largest sprite index.
pub const LAST_SPRITE: usize = 5;

/// Green of withered vegetation: red, green and blue of (0, 255, 17) / 255.
pub const GRASS_GREEN_RED: i128 = 0;
pub const GRASS_GREEN_GREEN: i128 = 1_000_000_000_000;
pub const GRASS_GREEN_BLUE: i128 = 66_666_666_667;
/// Yellow of watered vegetation: (240, 240, 127) / 255.
pub const GRASS_YELLOW_RED: i128 = 941_176_470_588;
pub const GRASS_YELLOW_GREEN: i128 = 941_176_470_588;
pub const GRASS_YELLOW_BLUE: i128 = 498_039_215_686;
/// Blue of alpine vegetation: (0, 255, 213) / 255.
pub const ALPINE_BLUE_RED: i128 = 0;
pub const ALPINE_BLUE_GREEN: i128 = 1_000_000_000_000;
pub const ALPINE_BLUE_BLUE: i128 = 835_294_117_647;

pub open spec fn rgb(red: int, green: int, blue: int) -> Rgb {
    Rgb { red: red as i128, green: green as i128, blue: blue as i128 }
}

/// The colour `(red, green, blue)` with each channel scaled by the fixed-point
/// weight `w`, rounded down.
pub open spec fn scaled(red: int, green: int, blue: int, w: int) -> Rgb {
    rgb(
        (red * w) / (ONE as int),
        (green * w) / (ONE as int),
        (blue * w) / (ONE as int),
    )
}

/// Precipitation relative to a reference of ten thousand, offset by one.
pub open spec fn precipitation_ratio(p: int) -> int {
    (p + 10_000 * ONE) / 10_000
}

/// Temperature relative to thirty degrees.
pub open spec fn temperature_ratio(t: int) -> int {
    t / 30
}

/// How withered the vegetation is: rises with heat, falls with rain, never negative.
pub open spec fn deadness(t: int, p: int) -> int {
    let d = ((ONE - precipitation_ratio(p)) + temperature_ratio(t)) / 2;
    if d < 0 {
        0
    } else {
        d
    }
}

/// How alpine the vegetation looks: cold and withered, never negative.
pub open spec fn alpine_weight(t: int, p: int) -> int {
    let a = (600_000_000_000 * (ONE - temperature_ratio(t))) / (ONE as int) + (400_000_000_000 * deadness(t, p))
        / (ONE as int);
    if a < 0 {
        0
    } else {
        a
    }
}

/// The vegetation tint: half the sum of green scaled by deadness and yellow
/// scaled by the precipitation ratio.
pub open spec fn grass_color_spec(t: int, p: int) -> Rgb {
    let g = scaled(GRASS_GREEN_RED as int, GRASS_GREEN_GREEN as int, GRASS_GREEN_BLUE as int, deadness(t, p));
    let y = scaled(
        GRASS_YELLOW_RED as int,
        GRASS_YELLOW_GREEN as int,
        GRASS_YELLOW_BLUE as int,
        precipitation_ratio(p),
    );
    rgb((g.red + y.red) / 2, (g.green + y.green) / 2, (g.blue + y.blue) / 2)
}

/// The alpine tint: blue scaled by the alpine weight.
pub open spec fn alpine_tint_spec(t: int, p: int) -> Rgb {
    scaled(ALPINE_BLUE_RED as int, ALPINE_BLUE_GREEN as int, ALPINE_BLUE_BLUE as int, alpine_weight(t, p))
}

/// Every channel limited to `[0, ONE]`.
pub open spec fn clamp_color(c: Rgb) -> Rgb {
    rgb(clamp(c.red as int, 0, ONE as int), clamp(c.green as int, 0, ONE as int), clamp(c.blue as int, 0, ONE as int))
}

pub open spec fn channels_in_unit(c: Rgb) -> bool {
    &&& 0 <= c.red <= ONE
    &&& 0 <= c.green <= ONE
    &&& 0 <= c.blue <= ONE
}

impl Biome {
    /// Atlas cell of the biome's tiles.
    pub open spec fn sprite_spec(self) -> int {
        match self {
            Biome::Ocean => 3,
            Biome::PolarDesert | Biome::SubpolarDryTundra => 4,
            Biome::TropicalDesert => 2,
            Biome::TropicalDesertScrub => 1,
            _ => 0,
        }
    }

    /// The fixed tint of the biome, if it has one; the others are tinted
    /// like vegetation.
    pub open spec fn fixed_color_spec(self) -> Option<Rgb> {
        match self {
            Biome::Ocean => Some(rgb(0, 200_000_000_000, 800_000_000_000)),
            Biome::PolarDesert | Biome::SubpolarDryTundra | Biome::TropicalDesert
            | Biome::TropicalDesertScrub => Some(rgb(ONE as int, ONE as int, ONE as int)),
            _ => None,
        }
    }

    /// The tile of the biome at temperature `t` and precipitation `p`.
    pub open spec fn tile_spec(self, t: int, p: int) -> TileDescriptor {
        TileDescriptor {
            sprite: self.sprite_spec() as usize,
            color: clamp_color(
                match self.fixed_color_spec() {
                    Some(c) => c,
                    None => grass_color_spec(t, p),
                },
            ),
        }
    }

    /// Atlas cell of the biome's tiles.
    pub fn sprite(self) -> (r: usize)
        ensures
            r == self.sprite_spec(),
            r <= LAST_SPRITE,
    {
        match self {
            Biome::Ocean => 3,
            Biome::PolarDesert | Biome::SubpolarDryTundra => 4,
            Biome::TropicalDesert => 2,
            Biome::TropicalDesertScrub => 1,
            _ => 0,
        }
    }

    /// The fixed tint of the biome, or `None` for vegetation.
    pub fn fixed_color(self) -> (r: Option<Rgb>)
        ensures
            r == self.fixed_color_spec(),
    {
        match self {
            Biome::Ocean => Some(Rgb { red: 0, green: 200_000_000_000, blue: 800_000_000_000 }),
            Biome::PolarDesert | Biome::SubpolarDryTundra | Biome::TropicalDesert
            | Biome::TropicalDesertScrub => Some(
                Rgb { red: ONE, green: ONE, blue: ONE },
            ),
            _ => None,
        }
    }

    /// The tile of the biome at temperature `t` and precipitation `p`: its
    /// sprite, and its fixed tint or the vegetation tint, each channel kept
    /// within `[0, ONE]`.
    pub fn tile(self, t: i128, p: i128) -> (r: TileDescriptor)
        requires
            -CLIMATE_MAX <= t <= CLIMATE_MAX,
            -CLIMATE_MAX <= p <= CLIMATE_MAX,
        ensures
            r == self.tile_spec(t as int, p as int),
            r.sprite <= LAST_SPRITE,
            (r.sprite == OCEAN_SPRITE) <==> (self == Biome::Ocean),
            channels_in_unit(r.color),
    {
        let sprite = self.sprite();
        let raw = match self.fixed_color() {
            Some(c) => c,
            None => grass_color(t, p),
        };
        TileDescriptor { sprite, color: clamp_channels(raw) }
    }
}

fn clamp_unit(v: i128) -> (r: i128)
    ensures
        r == clamp(v as int, 0, ONE as int),
{
    if v < 0 {
        0
    } else if v > ONE {
        ONE
    } else {
        v
    }
}

/// Every channel of `c` limited to `[0, ONE]`.
pub fn clamp_channels(c: Rgb) -> (r: Rgb)
    ensures
        r == clamp_color(c),
        channels_in_unit(r),
{
    Rgb { red: clamp_unit(c.red), green: clamp_unit(c.green), blue: clamp_unit(c.blue) }
}

fn ratios(t: i128, p: i128) -> (r: (i128, i128))
    requires
        -CLIMATE_MAX <= t <= CLIMATE_MAX,
        -CLIMATE_MAX <= p <= CLIMATE_MAX,
    ensures
        r.0 == precipitation_ratio(p as int),
        r.1 == temperature_ratio(t as int),
        -CLIMATE_MAX <= r.0 <= CLIMATE_MAX,
        -CLIMATE_MAX <= r.1 <= CLIMATE_MAX,
{
    let pr = floor_div(p + 10_000 * ONE, 10_000);
    let tr = floor_div(t, 30);
    (pr, tr)
}

fn deadness_of(pr: i128, tr: i128) -> (d: i128)
    requires
        -CLIMATE_MAX <= pr <= CLIMATE_MAX,
        -CLIMATE_MAX <= tr <= CLIMATE_MAX,
    ensures
        d == (if ((ONE - pr) + tr) / 2 < 0 { 0 } else { ((ONE - pr) + tr) / 2 }),
        0 <= d <= 2 * CLIMATE_MAX,
{
    let d = floor_div((ONE - pr) + tr, 2);
    if d < 0 {
        0
    } else {
        d
    }
}

fn scale_channels(red: i128, green: i128, blue: i128, w: i128) -> (r: Rgb)
    requires
        0 <= red <= ONE,
        0 <= green <= ONE,
        0 <= blue <= ONE,
        -4 * CLIMATE_MAX <= w <= 4 * CLIMATE_MAX,
    ensures
        r == scaled(red as int, green as int, blue as int, w as int),
        -4 * CLIMATE_MAX <= r.red <= 4 * CLIMATE_MAX,
        -4 * CLIMATE_MAX <= r.green <= 4 * CLIMATE_MAX,
        -4 * CLIMATE_MAX <= r.blue <= 4 * CLIMATE_MAX,
{
    proof {
        lemma_weighted_channel(red as int, w as int);
        lemma_weighted_channel(green as int, w as int);
        lemma_weighted_channel(blue as int, w as int);
    }
    Rgb {
        red: floor_div(red * w, ONE),
        green: floor_div(green * w, ONE),
        blue: floor_div(blue * w, ONE),
    }
}

proof fn lemma_weighted_channel(c: int, w: int)
    requires
        0 <= c <= ONE,
        -4 * CLIMATE_MAX <= w <= 4 * CLIMATE_MAX,
    ensures
        -(4 * CLIMATE_MAX * ONE) <= c * w <= 4 * CLIMATE_MAX * ONE,
        i128::MIN < c * w < i128::MAX,
        -4 * CLIMATE_MAX <= (c * w) / (ONE as int) <= 4 * CLIMATE_MAX,
{
    assert(4 * CLIMATE_MAX * ONE < i128::MAX);
    assert(-(4 * CLIMATE_MAX * ONE) <= c * w <= 4 * CLIMATE_MAX * ONE) by (nonlinear_arith)
        requires
            0 <= c <= ONE,
            -4 * CLIMATE_MAX <= w <= 4 * CLIMATE_MAX,
    ;
    vstd::arithmetic::div_mod::lemma_div_is_ordered(c * w, 4 * CLIMATE_MAX * ONE, ONE as int);
    vstd::arithmetic::div_mod::lemma_div_is_ordered(-(4 * CLIMATE_MAX * ONE), c * w, ONE as int);
    assert((4 * CLIMATE_MAX * ONE) / (ONE as int) == 4 * CLIMATE_MAX);
    assert((-(4 * CLIMATE_MAX * ONE)) / (ONE as int) == -4 * CLIMATE_MAX);
}

/// The vegetation tint at temperature `t` and precipitation `p`.
pub fn grass_color(t: i128, p: i128) -> (r: Rgb)
    requires
        -CLIMATE_MAX <= t <= CLIMATE_MAX,
        -CLIMATE_MAX <= p <= CLIMATE_MAX,
    ensures
        r == grass_color_spec(t as int, p as int),
{
    let (pr, tr) = ratios(t, p);
    let dead = deadness_of(pr, tr);
    let g = scale_channels(GRASS_GREEN_RED, GRASS_GREEN_GREEN, GRASS_GREEN_BLUE, dead);
    let y = scale_channels(GRASS_YELLOW_RED, GRASS_YELLOW_GREEN, GRASS_YELLOW_BLUE, pr);
    Rgb {
        red: floor_div(g.red + y.red, 2),
        green: floor_div(g.green + y.green, 2),
        blue: floor_div(g.blue + y.blue, 2),
    }
}

/// The alpine tint at temperature `t` and precipitation `p`: blue scaled by
/// how cold and withered the place is. It is not part of a tile's colour.
pub fn alpine_tint(t: i128, p: i128) -> (r: Rgb)
    requires
        -CLIMATE_MAX <= t <= CLIMATE_MAX,
        -CLIMATE_MAX <= p <= CLIMATE_MAX,
    ensures
        r == alpine_tint_spec(t as int, p as int),
{
    let (pr, tr) = ratios(t, p);
    let dead = deadness_of(pr, tr);
    let a = floor_div(600_000_000_000 * (ONE - tr), ONE) + floor_div(
        400_000_000_000 * dead,
        ONE,
    );
    let w = if a < 0 {
        0
    } else {
        a
    };
    scale_channels(ALPINE_BLUE_RED, ALPINE_BLUE_GREEN, ALPINE_BLUE_BLUE, w)
}

/// Every tile has a sprite within the atlas and a colour within `[0, ONE]`;
/// only ocean tiles carry the ocean sprite, and an ocean tile is the same
/// whatever the temperature and precipitation.
pub proof fn lemma_tile_bounds(b: Biome, t: int, p: int)
    ensures
        0 <= b.tile_spec(t, p).sprite <= LAST_SPRITE,
        channels_in_unit(b.tile_spec(t, p).color),
        (b.tile_spec(t, p).sprite == OCEAN_SPRITE) <==> (b == Biome::Ocean),
        b == Biome::Ocean ==> b.tile_spec(t, p) == Biome::Ocean.tile_spec(0, 0),
{
}

} // verus!
