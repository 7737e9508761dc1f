//! Per-sample mixing: the gain that envelope and velocity ask for, the
//! declick smoother that keeps that gain free of steps, and its application
//! to the oscillator.

use vstd::prelude::*;

use crate::arith::{lemma_mul_bounded, lemma_quotient_between};
use crate::UNITY;

verus! {

/// The largest MIDI velocity; it stands for full gain.
pub const MAX_VELOCITY: u8 = 127;

/// The gain an envelope `level` (out of `UNITY`) and a `velocity` (out of
/// 127) ask for together, out of `UNITY`.
pub open spec fn gain_of(level: int, velocity: int) -> int {
    level * velocity / (MAX_VELOCITY as int)
}

/// `raw` scaled by `gain / UNITY`, rounded toward zero.
pub open spec fn amplified(raw: int, gain: int) -> int {
    if raw >= 0 {
        raw * gain / (UNITY as int)
    } else {
        -((-raw) * gain / (UNITY as int))
    }
}

/// The gain for an envelope level and a note velocity.
pub fn gain(level: u32, velocity: u8) -> (g: i32)
    requires
        level <= UNITY,
        velocity <= MAX_VELOCITY,
    ensures
        g == gain_of(level as int, velocity as int),
        0 <= g <= UNITY,
{
    proof {
        crate::arith::lemma_fraction_le(level as int, velocity as int, MAX_VELOCITY as int);
        lemma_mul_bounded(level as int, velocity as int, UNITY as int, MAX_VELOCITY as int);
    }
    ((level as u64) * (velocity as u64) / (MAX_VELOCITY as u64)) as i32
}

/// Applies a gain to a raw oscillator level.
pub fn amplify(raw: i32, gain: i32) -> (r: i32)
    requires
        -UNITY <= raw <= UNITY,
        0 <= gain <= UNITY,
    ensures
        r == amplified(raw as int, gain as int),
        -UNITY <= r <= UNITY,
{
    let magnitude: u64 = if raw >= 0 { raw as u64 } else { (-(raw as i64)) as u64 };
    proof {
        crate::arith::lemma_fraction_le(magnitude as int, gain as int, UNITY as int);
        lemma_mul_bounded(magnitude as int, gain as int, UNITY as int, UNITY as int);
    }
    let scaled = magnitude * (gain as u64) / (UNITY as u64);
    if raw >= 0 {
        scaled as i32
    } else {
        -(scaled as i32)
    }
}

/// Sample rates are divided by this to give the smoother's time constant
/// in samples: two milliseconds.
pub const DECLICK_RATE_DIVISOR: u32 = 500;

/// The smoother's divisor at `sample_rate`: two milliseconds of samples,
/// and at least one.
pub open spec fn declick_divisor(sample_rate: int) -> int {
    if sample_rate / (DECLICK_RATE_DIVISOR as int) > 1 {
        sample_rate / (DECLICK_RATE_DIVISOR as int)
    } else {
        1
    }
}

/// One step of the one-pole smoother from `y` toward `x`: a `1 / d` part of
/// the distance, rounded away from `y`, so that the output reaches `x`.
pub open spec fn declick_step(y: int, x: int, d: int) -> int {
    if x >= y {
        y + (x - y + d - 1) / d
    } else {
        y - (y - x + d - 1) / d
    }
}

proof fn lemma_step_within(k: int, d: int)
    requires
        0 <= k,
        1 <= d,
    ensures
        0 <= (k + d - 1) / d <= k,
        k > 0 ==> (k + d - 1) / d >= 1,
{
    assert(0 * d <= k + d - 1 < (k + 1) * d) by (nonlinear_arith)
        requires
            0 <= k,
            1 <= d,
    ;
    lemma_quotient_between(k + d - 1, 0, k + 1, d);
    if k > 0 {
        assert(1 * d <= k + d - 1);
        lemma_quotient_between(k + d - 1, 1, k + 1, d);
    }
}

/// The divisor of the smoother at `sample_rate`.
pub fn declick_divisor_for(sample_rate: u32) -> (d: u32)
    ensures
        d == declick_divisor(sample_rate as int),
        d >= 1,
{
    let d = sample_rate / DECLICK_RATE_DIVISOR;
    if d > 1 {
        d
    } else {
        1
    }
}

/// Moves the smoother's output `y` one step toward the input `x`.
pub fn declick(y: i32, x: i32, d: u32) -> (r: i32)
    requires
        -UNITY <= y <= UNITY,
        -UNITY <= x <= UNITY,
        d >= 1,
    ensures
        r == declick_step(y as int, x as int, d as int),
        y <= x ==> y <= r <= x,
        x <= y ==> x <= r <= y,
        x != y ==> r != y,
{
    if x >= y {
        let k = (x as i64 - y as i64) as u64;
        proof {
            lemma_step_within(k as int, d as int);
        }
        let step = (k + d as u64 - 1) / d as u64;
        (y as i64 + step as i64) as i32
    } else {
        let k = (y as i64 - x as i64) as u64;
        proof {
            lemma_step_within(k as int, d as int);
        }
        let step = (k + d as u64 - 1) / d as u64;
        (y as i64 - step as i64) as i32
    }
}

} // verus!
