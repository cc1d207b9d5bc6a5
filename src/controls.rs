//! Configuration changes driven by the user's controls. Each control gives
//! the next settings; the caller rebuilds the generator whenever they differ
//! from the previous ones.

use vstd::prelude::*;
use rand::Rng;
use crate::fixed::{MICRO, floor_div, micro_div};
use crate::terrain::Settings;

verus! {

/// Zoom change per step (0.1).
pub const ZOOM_STEP: i64 = 100_000;

/// Zoom at or below which zooming out stops (0.2).
pub const ZOOM_OUT_FLOOR: i64 = 200_000;

/// Pan change per step at zoom one (0.1); it is divided by the zoom.
pub const PAN_STEP: i64 = 100_000;

/// Pan fraction beyond which panning further out stops (0.9).
pub const PAN_SOFT_LIMIT: i64 = 900_000;

/// Seeds drawn for a new map lie below this.
pub const SEED_BOUND: u32 = 99_999;

#[derive(Clone, Copy, Debug, PartialEq, Eq, Structural)]
pub enum Control {
    /// Use the given freshly drawn seed.
    Reseed(u32),
    ZoomIn,
    ZoomOut,
    PanLeft,
    PanRight,
    PanDown,
    PanUp,
}

/// How far one pan step moves at zoom `zoom`: 0.1 divided by the zoom.
pub open spec fn pan_step(zoom: int) -> int {
    micro_div(PAN_STEP as int, zoom)
}

/// A pan fraction moved one step towards `sign`, unless it is already at or
/// past the soft limit on that side. Without a positive zoom there is no
/// step, and the pan stays.
pub open spec fn panned(pan: int, zoom: int, sign: int) -> int {
    if zoom <= 0 || sign * pan >= PAN_SOFT_LIMIT {
        pan
    } else {
        pan + sign * pan_step(zoom)
    }
}

impl Settings {
    /// The settings after control `c`: a new seed; a zoom step in (unless the
    /// zoom would no longer fit in an `i64`); a zoom step out, while the zoom
    /// is above 0.2; or a pan step of 0.1 divided by the zoom, while the pan
    /// is within the soft limit of 0.9 on the side it moves away from.
    pub open spec fn step_spec(self, c: Control) -> Settings {
        match c {
            Control::Reseed(seed) => Settings { seed, ..self },
            Control::ZoomIn => if self.zoom <= i64::MAX - ZOOM_STEP {
                Settings { zoom: (self.zoom + ZOOM_STEP) as i64, ..self }
            } else {
                self
            },
            Control::ZoomOut => if self.zoom > ZOOM_OUT_FLOOR {
                Settings { zoom: (self.zoom - ZOOM_STEP) as i64, ..self }
            } else {
                self
            },
            Control::PanLeft => Settings {
                pan_x: panned(self.pan_x as int, self.zoom as int, -1) as i64,
                ..self
            },
            Control::PanRight => Settings {
                pan_x: panned(self.pan_x as int, self.zoom as int, 1) as i64,
                ..self
            },
            Control::PanDown => Settings {
                pan_y: panned(self.pan_y as int, self.zoom as int, -1) as i64,
                ..self
            },
            Control::PanUp => Settings {
                pan_y: panned(self.pan_y as int, self.zoom as int, 1) as i64,
                ..self
            },
        }
    }

    /// The settings after control `c`.
    pub fn step(self, c: Control) -> (r: Settings)
        ensures
            r == self.step_spec(c),
    {
        match c {
            Control::Reseed(seed) => Settings { seed, ..self },
            Control::ZoomIn => if self.zoom <= i64::MAX - ZOOM_STEP {
                Settings { zoom: self.zoom + ZOOM_STEP, ..self }
            } else {
                self
            },
            Control::ZoomOut => if self.zoom > ZOOM_OUT_FLOOR {
                Settings { zoom: self.zoom - ZOOM_STEP, ..self }
            } else {
                self
            },
            Control::PanLeft => Settings { pan_x: pan(self.pan_x, self.zoom, false), ..self },
            Control::PanRight => Settings { pan_x: pan(self.pan_x, self.zoom, true), ..self },
            Control::PanDown => Settings { pan_y: pan(self.pan_y, self.zoom, false), ..self },
            Control::PanUp => Settings { pan_y: pan(self.pan_y, self.zoom, true), ..self },
        }
    }

    /// The settings with a freshly drawn seed below `SEED_BOUND`; nothing
    /// else changes.
    pub fn reseeded(self) -> (r: Settings)
        ensures
            r == self.step_spec(Control::Reseed(r.seed)),
            r.seed < SEED_BOUND,
    {
        let seed = random_below(SEED_BOUND);
        self.step(Control::Reseed(seed))
    }
}

/// Relies on `rand::thread_rng` and `Rng::gen_range` over `0..bound`: a
/// value drawn from that half-open range, which is not empty when `bound`
/// is positive, so below `bound`.
#[verifier::external_body]
fn random_below(bound: u32) -> (r: u32)
    requires
        0 < bound,
    ensures
        r < bound,
{
    rand::thread_rng().gen_range(0..bound)
}

/// One pan step, up when `up`, down otherwise.
fn pan(p: i64, zoom: i64, up: bool) -> (r: i64)
    ensures
        r == panned(p as int, zoom as int, if up { 1 } else { -1 }),
{
    if zoom <= 0 {
        return p;
    }
    let step = floor_div(PAN_STEP as i128 * MICRO as i128, zoom as i128);
    proof {
        vstd::arithmetic::div_mod::lemma_div_is_ordered_by_denominator(
            PAN_STEP * MICRO,
            1,
            zoom as int,
        );
        vstd::arithmetic::div_mod::lemma_div_pos_is_pos(PAN_STEP * MICRO, zoom as int);
    }
    if up {
        if p >= PAN_SOFT_LIMIT {
            return p;
        }
        (p as i128 + step) as i64
    } else {
        if p <= -PAN_SOFT_LIMIT {
            return p;
        }
        (p as i128 - step) as i64
    }
}

} // verus!
