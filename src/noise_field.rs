//! Multi-octave fractal noise over a caller-supplied coherent-noise primitive.
//!
//! For octave `i` the primitive is sampled at the coordinate divided by the
//! field's scale and multiplied by `lacunarity^i`; its output, natively in
//! `[-1, 1]`, is moved to `[0, 1]` and weighted by `persistence^i`. The sum
//! of the weighted octaves is clamped to `[0, 1]`.

use vstd::prelude::*;
use crate::fixed::{
    MICRO, ONE, clamp, div_micro, floor_div, fx_mul, lemma_div_bound, micro_div, micro_mul,
};

verus! {

/// Most octaves a field may have.
pub const MAX_OCTAVES: u32 = 24;

/// Smallest scale (world units per noise cycle) a field may have, about 0.065.
pub const SCALE_MIN: i128 = 0x1_0000;

/// Largest lacunarity a field may have.
pub const LACUNARITY_MAX: i128 = 5_000_000_000_000;

/// Largest magnitude of a coordinate at which a field is sampled.
pub const COORD_LIMIT: i128 = 0x8000_0000_0000;

#[derive(Clone, Copy, Debug, PartialEq, Eq, Structural)]
pub struct NoiseField {
    pub octaves: u32,
    /// World units per noise cycle of the first octave.
    pub scale: i128,
    /// Amplitude factor from one octave to the next.
    pub persistence: i128,
    /// Frequency factor from one octave to the next.
    pub lacunarity: i128,
}

pub open spec fn pow5(i: nat) -> int
    decreases i,
{
    if i == 0 {
        1
    } else {
        5 * pow5((i - 1) as nat)
    }
}

/// Frequency of octave `i` in millionths: `lacunarity^i`, each factor
/// rounded down.
pub open spec fn frequency(lacunarity: int, i: nat) -> int
    decreases i,
{
    if i == 0 {
        MICRO as int
    } else {
        fx_mul(frequency(lacunarity, (i - 1) as nat), lacunarity)
    }
}

/// Amplitude of octave `i`: `persistence^i`, each factor rounded down.
pub open spec fn amplitude(persistence: int, i: nat) -> int
    decreases i,
{
    if i == 0 {
        ONE as int
    } else {
        fx_mul(amplitude(persistence, (i - 1) as nat), persistence)
    }
}

/// A primitive sample moved from `[-1, 1]` to `[0, 1]`.
pub open spec fn remap(s: int) -> int {
    (s + ONE) / 2
}

impl NoiseField {
    pub open spec fn wf(self) -> bool {
        &&& 1 <= self.octaves <= MAX_OCTAVES
        &&& SCALE_MIN <= self.scale
        &&& 0 <= self.persistence <= ONE
        &&& ONE < self.lacunarity <= LACUNARITY_MAX
    }

    /// Where octave `i` samples the primitive, along one axis, for coordinate `v`.
    pub open spec fn octave_point(self, v: int, i: nat) -> int {
        micro_mul(micro_div(v, self.scale as int), frequency(self.lacunarity as int, i))
    }

    /// The weighted sum of the first `n` octave samples.
    pub open spec fn weighted_sum(self, samples: Seq<i64>, n: nat) -> int
        decreases n,
    {
        if n == 0 {
            0
        } else {
            self.weighted_sum(samples, (n - 1) as nat) + fx_mul(
                remap(samples[n - 1] as int),
                amplitude(self.persistence as int, (n - 1) as nat),
            )
        }
    }

    /// The field's value for the given octave samples.
    pub open spec fn value_spec(self, samples: Seq<i64>) -> int {
        clamp(self.weighted_sum(samples, samples.len()), 0, ONE as int)
    }

    /// A field with the given parameters, or `None` where one lies outside
    /// the accepted range: 1 to 24 octaves, a scale of at least
    /// `SCALE_MIN`, a persistence within `[0, 1]` and a lacunarity above 1
    /// and at most 5.
    pub fn new(octaves: u32, scale: i128, persistence: i128, lacunarity: i128) -> (r: Option<
        NoiseField,
    >)
        ensures
            r.is_some() <==> (NoiseField { octaves, scale, persistence, lacunarity }).wf(),
            r.is_some() ==> r == Some(NoiseField { octaves, scale, persistence, lacunarity }),
    {
        if 1 <= octaves && octaves <= MAX_OCTAVES && SCALE_MIN <= scale && 0 <= persistence
            && persistence <= ONE && ONE <= lacunarity && lacunarity
            != ONE && lacunarity <= LACUNARITY_MAX {
            Some(NoiseField { octaves, scale, persistence, lacunarity })
        } else {
            None
        }
    }

    /// The points, one per octave, at which the primitive is to be sampled
    /// for the coordinate `(x, y)`.
    pub fn octave_points(&self, x: i128, y: i128) -> (r: Vec<(i128, i128)>)
        requires
            self.wf(),
            -COORD_LIMIT <= x <= COORD_LIMIT,
            -COORD_LIMIT <= y <= COORD_LIMIT,
        ensures
            r@.len() == self.octaves,
            forall|i: int|
                0 <= i < r@.len() ==> #[trigger] r@[i].0 == self.octave_point(x as int, i as nat)
                    && r@[i].1 == self.octave_point(y as int, i as nat),
    {
        let dx = div_micro(x, self.scale);
        let dy = div_micro(y, self.scale);
        proof {
            lemma_scaled_coordinate(x as int, self.scale as int);
            lemma_scaled_coordinate(y as int, self.scale as int);
        }
        let mut out: Vec<(i128, i128)> = Vec::new();
        let mut freq: i128 = MICRO as i128;
        let mut i: u32 = 0;
        while i < self.octaves
            invariant
                self.wf(),
                i <= self.octaves,
                dx == micro_div(x as int, self.scale as int),
                dy == micro_div(y as int, self.scale as int),
                -SCALED_LIMIT <= dx <= SCALED_LIMIT,
                -SCALED_LIMIT <= dy <= SCALED_LIMIT,
                freq == frequency(self.lacunarity as int, i as nat),
                out@.len() == i,
                forall|k: int|
                    0 <= k < i ==> #[trigger] out@[k].0 == self.octave_point(x as int, k as nat)
                        && out@[k].1 == self.octave_point(y as int, k as nat),
            decreases self.octaves - i,
        {
            proof {
                lemma_frequency_bound(self.lacunarity as int, i as nat);
                lemma_pow5_monotone(i as nat, 23);
                lemma_pow5_23();
                lemma_point_fits(dx as int, freq as int);
                lemma_point_fits(dy as int, freq as int);
                lemma_next_frequency_fits(freq as int, self.lacunarity as int);
            }
            let px = floor_div(dx * freq, MICRO as i128);
            let py = floor_div(dy * freq, MICRO as i128);
            out.push((px, py));
            freq = floor_div(freq * self.lacunarity, ONE);
            i = i + 1;
        }
        out
    }

    /// The field's value from the primitive's samples at the points of
    /// `octave_points`, in order: the weighted sum of the remapped samples,
    /// clamped to `[0, ONE]`.
    pub fn combine(&self, samples: &Vec<i64>) -> (r: i128)
        requires
            self.wf(),
            samples@.len() == self.octaves,
        ensures
            r == self.value_spec(samples@),
            0 <= r <= ONE,
    {
        let mut acc: i128 = 0;
        let mut amp: i128 = ONE;
        let mut i: usize = 0;
        while i < samples.len()
            invariant
                self.wf(),
                samples@.len() == self.octaves,
                i <= samples@.len(),
                acc == self.weighted_sum(samples@, i as nat),
                -(i as int) * TERM_LIMIT <= acc <= (i as int) * TERM_LIMIT,
                amp == amplitude(self.persistence as int, i as nat),
                0 <= amp <= ONE,
            decreases samples@.len() - i,
        {
            let s = samples[i];
            let v: i128 = floor_div(s as i128 + ONE, 2);
            proof {
                lemma_term_fits(v as int, amp as int);
                lemma_amplitude_step(amp as int, self.persistence as int);
            }
            acc = acc + floor_div(v * amp, ONE);
            amp = floor_div(amp * self.persistence, ONE);
            i = i + 1;
        }
        if acc < 0 {
            0
        } else if acc > ONE {
            ONE
        } else {
            acc
        }
    }
}

/// Bound of a coordinate divided by a field's scale.
pub const SCALED_LIMIT: i128 = 0x8_0000_0000_0000;

/// Bound of one weighted octave term.
pub const TERM_LIMIT: i128 = 0x1_0000_0000_0000_0000;

proof fn lemma_scaled_coordinate(v: int, scale: int)
    requires
        -COORD_LIMIT <= v <= COORD_LIMIT,
        SCALE_MIN <= scale,
    ensures
        -SCALED_LIMIT <= micro_div(v, scale) <= SCALED_LIMIT,
{
    lemma_div_bound(v * MICRO, COORD_LIMIT * MICRO, scale, SCALE_MIN as int);
}

proof fn lemma_pow5_monotone(i: nat, j: nat)
    requires
        i <= j,
    ensures
        1 <= pow5(i) <= pow5(j),
    decreases j,
{
    if j > i {
        lemma_pow5_monotone(i, (j - 1) as nat);
    } else if i > 0 {
        lemma_pow5_monotone((i - 1) as nat, (i - 1) as nat);
    }
}

proof fn lemma_pow5_23()
    ensures
        pow5(23) == 11920928955078125,
{
    reveal_with_fuel(pow5, 24);
}

proof fn lemma_frequency_bound(lacunarity: int, i: nat)
    requires
        0 <= lacunarity <= LACUNARITY_MAX,
    ensures
        0 <= frequency(lacunarity, i) <= MICRO * pow5(i),
    decreases i,
{
    if i > 0 {
        let prev = frequency(lacunarity, (i - 1) as nat);
        lemma_frequency_bound(lacunarity, (i - 1) as nat);
        assert(0 <= prev * lacunarity <= prev * LACUNARITY_MAX) by (nonlinear_arith)
            requires
                0 <= prev,
                0 <= lacunarity <= LACUNARITY_MAX,
        ;
        vstd::arithmetic::div_mod::lemma_div_is_ordered(prev * lacunarity, prev * LACUNARITY_MAX, ONE as int);
        vstd::arithmetic::div_mod::lemma_div_pos_is_pos(prev * lacunarity, ONE as int);
        assert((prev * LACUNARITY_MAX) / (ONE as int) == 5 * prev);
        assert(5 * prev <= MICRO * pow5(i)) by (nonlinear_arith)
            requires
                prev <= MICRO * pow5((i - 1) as nat),
                pow5(i) == 5 * pow5((i - 1) as nat),
        ;
    }
}

proof fn lemma_point_fits(d: int, freq: int)
    requires
        -SCALED_LIMIT <= d <= SCALED_LIMIT,
        0 <= freq <= MICRO * 11920928955078125,
    ensures
        i128::MIN <= d * freq <= i128::MAX,
{
    assert(-(SCALED_LIMIT * (MICRO * 11920928955078125)) <= d * freq <= SCALED_LIMIT * (MICRO
        * 11920928955078125)) by (nonlinear_arith)
        requires
            -SCALED_LIMIT <= d <= SCALED_LIMIT,
            0 <= freq <= MICRO * 11920928955078125,
    ;
    assert(SCALED_LIMIT * (MICRO * 11920928955078125) == 26843545600000000000000000000000000000);
}

proof fn lemma_next_frequency_fits(freq: int, lacunarity: int)
    requires
        0 <= freq <= MICRO * 11920928955078125,
        0 <= lacunarity <= LACUNARITY_MAX,
    ensures
        0 <= freq * lacunarity <= MICRO * 11920928955078125 * LACUNARITY_MAX,
{
    assert(0 <= freq * lacunarity <= MICRO * 11920928955078125 * LACUNARITY_MAX) by (nonlinear_arith)
        requires
            0 <= freq <= MICRO * 11920928955078125,
            0 <= lacunarity <= LACUNARITY_MAX,
    ;
}

proof fn lemma_term_fits(v: int, amp: int)
    requires
        -0x8000_0000_0000_0000 <= v <= 0x8000_0000_0000_0000,
        0 <= amp <= ONE,
    ensures
        -TERM_LIMIT * ONE <= v * amp <= TERM_LIMIT * ONE,
        -TERM_LIMIT <= (v * amp) / (ONE as int) <= TERM_LIMIT,
{
    assert(-TERM_LIMIT * ONE <= v * amp <= TERM_LIMIT * ONE) by (nonlinear_arith)
        requires
            -0x8000_0000_0000_0000 <= v <= 0x8000_0000_0000_0000,
            0 <= amp <= ONE,
    ;
    vstd::arithmetic::div_mod::lemma_div_is_ordered(v * amp, TERM_LIMIT * ONE, ONE as int);
    vstd::arithmetic::div_mod::lemma_div_is_ordered(-TERM_LIMIT * ONE, v * amp, ONE as int);
}

proof fn lemma_amplitude_step(amp: int, persistence: int)
    requires
        0 <= amp <= ONE,
        0 <= persistence <= ONE,
    ensures
        0 <= (amp * persistence) / (ONE as int) <= ONE,
        0 <= amp * persistence <= ONE * ONE,
{
    assert(0 <= amp * persistence <= ONE * ONE) by (nonlinear_arith)
        requires
            0 <= amp <= ONE,
            0 <= persistence <= ONE,
    ;
    vstd::arithmetic::div_mod::lemma_div_is_ordered(amp * persistence, ONE * ONE, ONE as int);
    vstd::arithmetic::div_mod::lemma_div_pos_is_pos(amp * persistence, ONE as int);
}

} // verus!
