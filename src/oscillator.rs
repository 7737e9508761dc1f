//! The oscillator bank: raw waveforms of a given frequency, in fixed point.
//!
//! A waveform is read at a phase `pos / period` in `[0, 1)`; its level lies
//! in `[-UNITY, UNITY]`.

use vstd::prelude::*;

use crate::arith::lemma_quotient_between;
use crate::UNITY;

verus! {

/// The four waveforms, in the order in which the shape control selects them.
#[derive(Clone, Copy, Debug, PartialEq, Eq, Structural)]
pub enum WaveShape {
    Saw,
    Square,
    Triangle,
    Sine,
}

/// The shape that control position `control` selects: four equal quarters
/// of `[0, UNITY)`, and `Sine` for any position outside that range.
pub open spec fn shape_of_control(control: int) -> WaveShape {
    if control < 0 || control >= UNITY {
        WaveShape::Sine
    } else if control < UNITY / 4 {
        WaveShape::Saw
    } else if control < UNITY / 2 {
        WaveShape::Square
    } else if control < 3 * UNITY / 4 {
        WaveShape::Triangle
    } else {
        WaveShape::Sine
    }
}

/// A ramp from `-UNITY` up to `UNITY` over one period.
pub open spec fn saw_level(pos: int, period: int) -> int {
    2 * UNITY * pos / period - UNITY
}

/// The sign of the sine at the same phase, scaled to `UNITY`: zero at the
/// start and the middle of the period.
pub open spec fn square_level(pos: int, period: int) -> int {
    if pos == 0 || 2 * pos == period {
        0
    } else if 2 * pos < period {
        UNITY as int
    } else {
        -UNITY
    }
}

/// Rises from 0 to `UNITY` over the first quarter, falls to `-UNITY` over the
/// next half, and rises back to 0 over the last quarter.
pub open spec fn triangle_level(pos: int, period: int) -> int {
    if 4 * pos < period {
        4 * UNITY * pos / period
    } else if 4 * pos < 3 * period {
        2 * UNITY - 4 * UNITY * pos / period
    } else {
        4 * UNITY * pos / period - 4 * UNITY
    }
}

/// Bhaskara's rational approximation of the sine: over each half period,
/// with `q` the position within it as a fraction, the magnitude is
/// `16 q (1 - q) / (5 - 4 q (1 - q))`; positive in the first half, negative
/// in the second.
pub open spec fn sine_level(pos: int, period: int) -> int {
    let half = if 2 * pos < period {
        2 * pos
    } else {
        2 * pos - period
    };
    let x = half * (period - half);
    let magnitude = 16 * UNITY * x / (5 * period * period - 4 * x);
    if 2 * pos < period {
        magnitude
    } else {
        -magnitude
    }
}

pub open spec fn shape_level(shape: WaveShape, pos: int, period: int) -> int {
    match shape {
        WaveShape::Saw => saw_level(pos, period),
        WaveShape::Square => square_level(pos, period),
        WaveShape::Triangle => triangle_level(pos, period),
        WaveShape::Sine => sine_level(pos, period),
    }
}

/// Samples per second times the millihertz in a hertz: the period, in
/// phase units, of a waveform whose frequency is given in millihertz.
pub open spec fn phase_period(sample_rate: int) -> int {
    1000 * sample_rate
}

/// The phase position at sample `t` of a waveform of `frequency` millihertz:
/// the fractional part of `t * frequency / (1000 * sample_rate)` cycles,
/// scaled by its denominator.
pub open spec fn phase_position(t: int, frequency: int, sample_rate: int) -> int {
    (t * frequency) % phase_period(sample_rate)
}

impl WaveShape {
    /// The shape selected by a control position; see [`shape_of_control`].
    pub fn from_control(control: i32) -> (shape: WaveShape)
        ensures
            shape == shape_of_control(control as int),
    {
        if control < 0 || control >= UNITY as i32 {
            WaveShape::Sine
        } else if control < (UNITY / 4) as i32 {
            WaveShape::Saw
        } else if control < (UNITY / 2) as i32 {
            WaveShape::Square
        } else if control < (3 * (UNITY / 4)) as i32 {
            WaveShape::Triangle
        } else {
            WaveShape::Sine
        }
    }
}

/// The largest period this module reads phases over.
const MAX_PERIOD: u128 = 0x1000_0000_0000;

proof fn lemma_scaled_below(c: int, pos: int, period: int)
    requires
        0 < c,
        0 <= pos < period <= MAX_PERIOD,
    ensures
        0 <= c * pos / period <= c,
        0 <= c * pos < c * MAX_PERIOD,
{
    assert(0 <= c * pos < c * MAX_PERIOD) by (nonlinear_arith)
        requires
            0 < c,
            0 <= pos < period <= MAX_PERIOD,
    ;
    crate::arith::lemma_fraction_le(c, pos, period);
}

fn saw(pos: u128, period: u128) -> (r: i64)
    requires
        0 <= pos < period <= MAX_PERIOD,
    ensures
        r == saw_level(pos as int, period as int),
        -UNITY <= r <= UNITY,
{
    proof {
        lemma_scaled_below(2 * UNITY, pos as int, period as int);
    }
    let up = 2 * (UNITY as u128) * pos / period;
    up as i64 - UNITY as i64
}

fn square(pos: u128, period: u128) -> (r: i64)
    requires
        0 <= pos < period <= MAX_PERIOD,
    ensures
        r == square_level(pos as int, period as int),
{
    if pos == 0 || 2 * pos == period {
        0
    } else if 2 * pos < period {
        UNITY as i64
    } else {
        -(UNITY as i64)
    }
}

fn triangle(pos: u128, period: u128) -> (r: i64)
    requires
        0 <= pos < period <= MAX_PERIOD,
    ensures
        r == triangle_level(pos as int, period as int),
        -UNITY <= r <= UNITY,
{
    proof {
        lemma_scaled_below(4 * UNITY, pos as int, period as int);
    }
    let ramp = 4 * (UNITY as u128) * pos / period;
    proof {
        let c = 4 * UNITY;
        let p = pos as int;
        let n = period as int;
        if 4 * p < n {
            assert(0 * n <= c * p < UNITY * n) by (nonlinear_arith)
                requires
                    c == 4 * UNITY,
                    0 <= p,
                    4 * p < n,
            ;
            lemma_quotient_between(c * p, 0, UNITY as int, n);
        } else if 4 * p < 3 * n {
            assert(UNITY * n <= c * p < (3 * UNITY) * n) by (nonlinear_arith)
                requires
                    c == 4 * UNITY,
                    n <= 4 * p < 3 * n,
            ;
            lemma_quotient_between(c * p, UNITY as int, 3 * UNITY, n);
        } else {
            assert((3 * UNITY) * n <= c * p < (4 * UNITY) * n) by (nonlinear_arith)
                requires
                    c == 4 * UNITY,
                    3 * n <= 4 * p,
                    p < n,
            ;
            lemma_quotient_between(c * p, 3 * UNITY, 4 * UNITY, n);
        }
    }
    if 4 * pos < period {
        ramp as i64
    } else if 4 * pos < 3 * period {
        2 * (UNITY as i64) - ramp as i64
    } else {
        ramp as i64 - 4 * (UNITY as i64)
    }
}

fn sine(pos: u128, period: u128) -> (r: i64)
    requires
        0 <= pos < period <= MAX_PERIOD,
    ensures
        r == sine_level(pos as int, period as int),
        -UNITY <= r <= UNITY,
{
    let half: u128 = if 2 * pos < period { 2 * pos } else { 2 * pos - period };
    let rest = period - half;
    proof {
        let h = half as int;
        let n = period as int;
        assert(0 <= h * (n - h) && 4 * (h * (n - h)) <= n * n && n * n <= MAX_PERIOD * MAX_PERIOD
            && 5 * n * n <= 5 * MAX_PERIOD * MAX_PERIOD && 4 * (h * (n - h)) <= 5 * n * n
            && 16 * UNITY * (h * (n - h)) <= 4 * UNITY * (MAX_PERIOD * MAX_PERIOD)) by (nonlinear_arith)
            requires
                0 <= h < n <= MAX_PERIOD,
        ;
    }
    let x = half * rest;
    let den = 5 * period * period - 4 * x;
    let scaled = 16 * (UNITY as u128) * x;
    proof {
        let xi = x as int;
        let d = den as int;
        assert(0 <= scaled < (UNITY + 1) * d && 0 < d) by (nonlinear_arith)
            requires
                scaled == 16 * UNITY * xi,
                d == 5 * (period as int) * (period as int) - 4 * xi,
                0 <= xi,
                4 * xi <= (period as int) * (period as int),
                0 < period,
        ;
        lemma_quotient_between(scaled as int, 0, UNITY + 1, d);
    }
    let magnitude = scaled / den;
    if 2 * pos < period {
        magnitude as i64
    } else {
        -(magnitude as i64)
    }
}

/// The level at sample `t` of the waveform `shape` at `frequency`
/// millihertz, for `sample_rate` samples per second.
pub fn render(shape: WaveShape, frequency: u64, sample_rate: u32, t: u64) -> (r: i32)
    requires
        sample_rate > 0,
    ensures
        r == shape_level(
            shape,
            phase_position(t as int, frequency as int, sample_rate as int),
            phase_period(sample_rate as int),
        ),
        -UNITY <= r <= UNITY,
        shape == WaveShape::Square ==> r == 0 || r == UNITY || r == -UNITY,
{
    let period: u128 = 1000 * (sample_rate as u128);
    proof {
        crate::arith::lemma_mul_bounded(t as int, frequency as int, u64::MAX as int, u64::MAX as int);
    }
    let pos = ((t as u128) * (frequency as u128)) % period;
    let level = match shape {
        WaveShape::Saw => saw(pos, period),
        WaveShape::Square => square(pos, period),
        WaveShape::Triangle => triangle(pos, period),
        WaveShape::Sine => sine(pos, period),
    };
    level as i32
}

} // verus!
