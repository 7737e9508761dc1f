//! The five controls of the instrument, held as normalised positions.
//!
//! A position is a fixed-point fraction: `UNITY` is the top of the control's
//! range. Each processing block reads a snapshot of them.

use vstd::prelude::*;

use crate::envelope::EnvelopeSettings;
use crate::oscillator::{shape_of_control, WaveShape};
use crate::UNITY;
use vstd::math::min;

verus! {

/// The controls, in the order of their indices `0` to `4`.
#[derive(Clone, Copy, Debug, PartialEq, Eq, Structural)]
pub enum Parameter {
    Oscillator,
    Attack,
    Decay,
    Sustain,
    Release,
}

impl Parameter {
    /// The control at `index`, if there is one.
    pub open spec fn of_index(index: int) -> Option<Parameter> {
        if index == 0 {
            Some(Parameter::Oscillator)
        } else if index == 1 {
            Some(Parameter::Attack)
        } else if index == 2 {
            Some(Parameter::Decay)
        } else if index == 3 {
            Some(Parameter::Sustain)
        } else if index == 4 {
            Some(Parameter::Release)
        } else {
            None
        }
    }

    pub open spec fn spec_name(self) -> Seq<char> {
        match self {
            Parameter::Oscillator => "Oscillator"@,
            Parameter::Attack => "Attack"@,
            Parameter::Decay => "Decay"@,
            Parameter::Sustain => "Sustain"@,
            Parameter::Release => "Release"@,
        }
    }

    /// The control at `index`, or `None` outside `0..=4`.
    pub fn from_index(index: i32) -> (p: Option<Parameter>)
        ensures
            p == Parameter::of_index(index as int),
    {
        match index {
            0 => Some(Parameter::Oscillator),
            1 => Some(Parameter::Attack),
            2 => Some(Parameter::Decay),
            3 => Some(Parameter::Sustain),
            4 => Some(Parameter::Release),
            _ => None,
        }
    }

    /// The index of this control.
    pub fn index(self) -> (i: i32)
        ensures
            Parameter::of_index(i as int) == Some(self),
    {
        match self {
            Parameter::Oscillator => 0,
            Parameter::Attack => 1,
            Parameter::Decay => 2,
            Parameter::Sustain => 3,
            Parameter::Release => 4,
        }
    }

    /// The name shown for this control.
    pub fn name(self) -> (s: &'static str)
        ensures
            s@ == self.spec_name(),
    {
        match self {
            Parameter::Oscillator => "Oscillator",
            Parameter::Attack => "Attack",
            Parameter::Decay => "Decay",
            Parameter::Sustain => "Sustain",
            Parameter::Release => "Release",
        }
    }
}

/// A control position brought into `[0, UNITY]`.
pub open spec fn clamped(position: int) -> int {
    if position < 0 {
        0
    } else {
        min(position, UNITY as int)
    }
}

/// Number of samples a stage lasts when its control stands at `position`:
/// the position, brought into `[0, UNITY]`, read as seconds.
pub open spec fn stage_samples(position: int, sample_rate: int) -> int {
    clamped(position) * sample_rate / (UNITY as int)
}

/// A snapshot of the five controls. Positions outside `[0, UNITY]` are
/// kept as given; each control decides what they mean.
#[derive(Clone, Copy, Debug, PartialEq, Eq, Structural)]
pub struct Parameters {
    pub oscillator: i32,
    pub attack: i32,
    pub decay: i32,
    pub sustain: i32,
    pub release: i32,
}

impl Parameters {
    pub open spec fn value_of(self, p: Parameter) -> i32 {
        match p {
            Parameter::Oscillator => self.oscillator,
            Parameter::Attack => self.attack,
            Parameter::Decay => self.decay,
            Parameter::Sustain => self.sustain,
            Parameter::Release => self.release,
        }
    }

    pub open spec fn with_value(self, p: Parameter, value: i32) -> Parameters {
        match p {
            Parameter::Oscillator => Parameters { oscillator: value, ..self },
            Parameter::Attack => Parameters { attack: value, ..self },
            Parameter::Decay => Parameters { decay: value, ..self },
            Parameter::Sustain => Parameters { sustain: value, ..self },
            Parameter::Release => Parameters { release: value, ..self },
        }
    }

    /// The position of the control at `index`; `0` for an unknown index.
    pub fn get_parameter(&self, index: i32) -> (value: i32)
        ensures
            value == match Parameter::of_index(index as int) {
                Some(p) => self.value_of(p),
                None => 0,
            },
    {
        match Parameter::from_index(index) {
            Some(Parameter::Oscillator) => self.oscillator,
            Some(Parameter::Attack) => self.attack,
            Some(Parameter::Decay) => self.decay,
            Some(Parameter::Sustain) => self.sustain,
            Some(Parameter::Release) => self.release,
            None => 0,
        }
    }

    /// Sets the control at `index`; an unknown index changes nothing.
    pub fn set_parameter(&mut self, index: i32, value: i32)
        ensures
            *final(self) == match Parameter::of_index(index as int) {
                Some(p) => old(self).with_value(p, value),
                None => *old(self),
            },
    {
        match Parameter::from_index(index) {
            Some(Parameter::Oscillator) => self.oscillator = value,
            Some(Parameter::Attack) => self.attack = value,
            Some(Parameter::Decay) => self.decay = value,
            Some(Parameter::Sustain) => self.sustain = value,
            Some(Parameter::Release) => self.release = value,
            None => {},
        }
    }

    /// The name of the control at `index`, or `"unknown"`.
    pub fn get_parameter_name(&self, index: i32) -> (name: String)
        ensures
            name@ == match Parameter::of_index(index as int) {
                Some(p) => p.spec_name(),
                None => "unknown"@,
            },
    {
        match Parameter::from_index(index) {
            Some(p) => p.name().to_owned(),
            None => "unknown".to_owned(),
        }
    }

    /// The waveform the oscillator control selects.
    pub fn shape(&self) -> (shape: WaveShape)
        ensures
            shape == shape_of_control(self.oscillator as int),
    {
        WaveShape::from_control(self.oscillator)
    }

    /// The envelope these controls describe at `sample_rate` samples per
    /// second: attack, decay and release positions read as seconds, the
    /// sustain position as a level; each brought into `[0, UNITY]`.
    pub open spec fn settings_at(self, sample_rate: int) -> EnvelopeSettings {
        EnvelopeSettings {
            attack: stage_samples(self.attack as int, sample_rate) as u64,
            decay: stage_samples(self.decay as int, sample_rate) as u64,
            sustain: clamped(self.sustain as int) as u32,
            release: stage_samples(self.release as int, sample_rate) as u64,
        }
    }

    /// The envelope settings for `sample_rate`; see [`Parameters::settings_at`].
    pub fn envelope_settings(&self, sample_rate: u32) -> (s: EnvelopeSettings)
        ensures
            s == self.settings_at(sample_rate as int),
            s.wf(),
    {
        let attack = stage_length(self.attack, sample_rate);
        let decay = stage_length(self.decay, sample_rate);
        let release = stage_length(self.release, sample_rate);
        let sustain = clamp_position(self.sustain);
        EnvelopeSettings { attack, decay, sustain, release }
    }
}

fn clamp_position(position: i32) -> (c: u32)
    ensures
        c == clamped(position as int),
{
    if position < 0 {
        0
    } else if position as u32 > UNITY {
        UNITY
    } else {
        position as u32
    }
}

fn stage_length(position: i32, sample_rate: u32) -> (n: u64)
    ensures
        n == stage_samples(position as int, sample_rate as int),
        n <= crate::envelope::MAX_STAGE_LENGTH,
{
    let capped = clamp_position(position);
    proof {
        crate::arith::lemma_fraction_le(sample_rate as int, capped as int, UNITY as int);
        crate::arith::lemma_mul_bounded(capped as int, sample_rate as int, UNITY as int, u32::MAX as int);
        assert(capped * sample_rate == sample_rate * capped) by (nonlinear_arith);
    }
    (capped as u64) * (sample_rate as u64) / (UNITY as u64)
}

impl Default for Parameters {
    /// Saw waveform, instant attack, a one-second decay to full sustain and
    /// a fifth of a second of release.
    fn default() -> (p: Parameters)
        ensures
            p == (Parameters {
                oscillator: 0,
                attack: 0,
                decay: UNITY as i32,
                sustain: UNITY as i32,
                release: (UNITY / 5) as i32,
            }),
    {
        Parameters {
            oscillator: 0,
            attack: 0,
            decay: UNITY as i32,
            sustain: UNITY as i32,
            release: (UNITY / 5) as i32,
        }
    }
}

} // verus!
