//! The voice engine: one note at a time, rendered a block at a time.

use vstd::prelude::*;

use crate::envelope::{lemma_advance_composes, Envelope, EnvelopeStage};
use crate::midi::{midi_event_of, MidiEvent};
use crate::mixer::{
    amplified, amplify, declick, declick_divisor, declick_divisor_for, declick_step, gain,
    gain_of, MAX_VELOCITY,
};
use crate::notes::{later_sample, Clock, Note, NoteTracker};
use crate::oscillator::{phase_period, phase_position, render, shape_level, shape_of_control};
use crate::params::Parameters;
use crate::UNITY;

verus! {

/// The sample rate an instrument starts with.
pub const DEFAULT_SAMPLE_RATE: u32 = 44100;

/// The monophonic voice.
///
/// `notes` holds the note that is held down; `voice` is the note last
/// started, which keeps sounding through its release, and `frequency` its
/// pitch in millihertz. `gain` is the last gain the declick smoother gave.
pub struct Savoy {
    pub sample_rate: u32,
    pub clock: Clock,
    pub notes: NoteTracker,
    pub voice: Note,
    pub frequency: u64,
    pub envelope: Envelope,
    pub gain: i32,
}

impl Savoy {
    pub open spec fn wf(self) -> bool {
        &&& self.sample_rate > 0
        &&& self.envelope.wf()
        &&& self.envelope.start <= self.clock.now
        &&& 0 <= self.gain <= UNITY
        &&& self.voice.velocity <= MAX_VELOCITY
        &&& self.notes.current is Some ==> self.envelope.stage != EnvelopeStage::Off
            && self.envelope.stage != EnvelopeStage::Release
    }

    /// The state after a note-on: the note replaces any other and the
    /// envelope attacks from its current level.
    pub open spec fn after_note_on(self, pitch: u8, velocity: u8) -> Savoy {
        let note = Note { pitch, velocity, onset: self.clock.now };
        Savoy {
            notes: NoteTracker { current: Some(note) },
            voice: note,
            envelope: self.envelope.triggered(self.clock.now as int),
            ..self
        }
    }

    /// The state after a note-off: only the held pitch is released.
    pub open spec fn after_note_off(self, pitch: u8) -> Savoy {
        if self.notes.releases(pitch) {
            Savoy {
                notes: NoteTracker { current: None },
                envelope: self.envelope.released(self.clock.now as int),
                ..self
            }
        } else {
            self
        }
    }

    /// The state after a raw MIDI message.
    pub open spec fn after_midi(self, bytes: Seq<u8>) -> Savoy {
        match midi_event_of(bytes) {
            MidiEvent::NoteOn { pitch, velocity } => self.after_note_on(pitch, velocity),
            MidiEvent::NoteOff { pitch } => self.after_note_off(pitch),
            MidiEvent::Other => self,
        }
    }

    /// The sample that is `i` samples into the next block.
    pub open spec fn time_at(self, i: int) -> int {
        later_sample(self.clock.now as int, i) as int
    }

    /// The gain that envelope and velocity ask for `i` samples into the
    /// next block.
    pub open spec fn target_gain(self, p: Parameters, i: int) -> int {
        let level = self.envelope.advanced(self.time_at(i), p.settings_at(self.sample_rate as int)).value;
        gain_of(level as int, self.voice.velocity as int)
    }

    /// Whether the envelope is idle `i` samples into the next block.
    pub open spec fn idle_at(self, p: Parameters, i: int) -> bool {
        self.envelope.advanced(self.time_at(i), p.settings_at(self.sample_rate as int)).stage
            == EnvelopeStage::Off
    }

    /// The smoothed gain after the first `n` samples of the next block. It
    /// is zero on every sample at which the envelope is idle.
    pub open spec fn gain_after(self, p: Parameters, n: nat) -> int
        decreases n,
    {
        if n == 0 {
            self.gain as int
        } else if self.idle_at(p, n - 1) {
            0
        } else {
            declick_step(
                self.gain_after(p, (n - 1) as nat),
                self.target_gain(p, n - 1),
                declick_divisor(self.sample_rate as int),
            )
        }
    }

    /// Sample `i` of the next block: the waveform at the voice's frequency
    /// under the smoothed gain.
    pub open spec fn sample(self, p: Parameters, i: int) -> int {
        let raw = shape_level(
            shape_of_control(p.oscillator as int),
            phase_position(self.time_at(i), self.frequency as int, self.sample_rate as int),
            phase_period(self.sample_rate as int),
        );
        amplified(raw, self.gain_after(p, (i + 1) as nat))
    }

    /// A silent instrument at the default sample rate.
    pub fn new() -> (v: Savoy)
        ensures
            v.wf(),
            v.sample_rate == DEFAULT_SAMPLE_RATE,
            v.clock.now == 0,
            v.notes.current is None,
            v.envelope == Envelope::new_spec(),
            v.gain == 0,
    {
        Savoy {
            sample_rate: DEFAULT_SAMPLE_RATE,
            clock: Clock::new(),
            notes: NoteTracker::new(),
            voice: Note { pitch: 0, velocity: 0, onset: 0 },
            frequency: 0,
            envelope: Envelope::new(),
            gain: 0,
        }
    }

    /// Changes the sample rate. The clock goes back to zero and the envelope
    /// is carried onto it at its current level; the held note stays.
    pub fn set_sample_rate(&mut self, rate: u32)
        requires
            old(self).wf(),
            rate > 0,
        ensures
            *final(self) == (Savoy {
                sample_rate: rate,
                clock: Clock { now: 0 },
                envelope: old(self).envelope.rebased(0),
                ..*old(self)
            }),
            final(self).notes == old(self).notes,
            final(self).voice == old(self).voice,
            final(self).wf(),
    {
        self.sample_rate = rate;
        self.clock.reset();
        self.envelope.rebase(0);
    }

    /// Sets the frequency, in millihertz, of the note the voice plays.
    pub fn set_frequency(&mut self, millihertz: u64)
        ensures
            *final(self) == (Savoy { frequency: millihertz, ..*old(self) }),
    {
        self.frequency = millihertz;
    }

    /// The note held down, if any.
    pub fn current_note(&self) -> (n: Option<Note>)
        ensures
            n == self.notes.current,
    {
        self.notes.current()
    }

    /// Starts a note at the current sample.
    pub fn note_on(&mut self, pitch: u8, velocity: u8)
        requires
            old(self).wf(),
            velocity <= MAX_VELOCITY,
        ensures
            *final(self) == old(self).after_note_on(pitch, velocity),
            final(self).wf(),
    {
        let now = self.clock.now();
        self.notes.note_on(pitch, velocity, now);
        self.voice = Note { pitch, velocity, onset: now };
        self.envelope.note_on(now);
    }

    /// Releases the note of this pitch, if it is the one held; a note-off
    /// for any other pitch changes nothing.
    pub fn note_off(&mut self, pitch: u8)
        requires
            old(self).wf(),
        ensures
            *final(self) == old(self).after_note_off(pitch),
            !old(self).notes.releases(pitch) ==> *final(self) == *old(self),
            final(self).wf(),
    {
        if self.notes.note_off(pitch) {
            let now = self.clock.now();
            self.envelope.note_off(now);
        }
    }

    /// Applies a raw MIDI message: note-ons and note-offs act, the rest is
    /// ignored.
    pub fn handle_midi(&mut self, bytes: &[u8])
        requires
            old(self).wf(),
        ensures
            *final(self) == old(self).after_midi(bytes@),
            final(self).wf(),
    {
        match MidiEvent::decode(bytes) {
            MidiEvent::NoteOn { pitch, velocity } => self.note_on(pitch, velocity),
            MidiEvent::NoteOff { pitch } => self.note_off(pitch),
            MidiEvent::Other => {},
        }
    }

    /// Renders one block into `out`, one sample per element, reading the
    /// controls once; then moves the clock on by the block's length. Each
    /// sample is the waveform under a gain that follows envelope and
    /// velocity through the declick smoother; while the envelope is idle the
    /// gain is zero, so an idle voice is silent.
    pub fn process(&mut self, params: &Parameters, out: &mut Vec<i32>)
        requires
            old(self).wf(),
        ensures
            final(self).wf(),
            final(out)@.len() == old(out)@.len(),
            forall|i: int|
                0 <= i < old(out)@.len() ==> #[trigger] final(out)@[i] == old(self).sample(*params, i),
            forall|i: int| 0 <= i < old(out)@.len() ==> -UNITY <= #[trigger] final(out)@[i] <= UNITY,
            old(self).envelope.stage == EnvelopeStage::Off ==> forall|i: int|
                0 <= i < old(out)@.len() ==> #[trigger] final(out)@[i] == 0,
            final(self).gain == old(self).gain_after(*params, old(out)@.len()),
            final(self).clock.now == later_sample(old(self).clock.now as int, old(out)@.len() as int),
            final(self).envelope == if old(out)@.len() == 0 {
                old(self).envelope
            } else {
                old(self).envelope.advanced(
                    later_sample(old(self).clock.now as int, old(out)@.len() - 1) as int,
                    params.settings_at(old(self).sample_rate as int),
                )
            },
            final(self).sample_rate == old(self).sample_rate,
            final(self).notes == old(self).notes,
            final(self).voice == old(self).voice,
            final(self).frequency == old(self).frequency,
    {
        let settings = params.envelope_settings(self.sample_rate);
        let shape = params.shape();
        let d = declick_divisor_for(self.sample_rate);
        let now = self.clock.now();
        let ghost start = *self;
        let n = out.len();
        let mut i: usize = 0;
        while i < n
            invariant
                start.wf(),
                self.envelope.wf(),
                0 <= self.gain <= UNITY,
                i > 0 ==> self.envelope.start <= later_sample(now as int, i - 1),
                i <= n,
                n == out@.len(),
                n == old(out)@.len(),
                now == start.clock.now,
                settings == params.settings_at(start.sample_rate as int),
                settings.wf(),
                shape == shape_of_control(params.oscillator as int),
                d == declick_divisor(start.sample_rate as int),
                self.sample_rate == start.sample_rate,
                self.clock == start.clock,
                self.notes == start.notes,
                self.voice == start.voice,
                self.frequency == start.frequency,
                i == 0 ==> self.envelope == start.envelope,
                i > 0 ==> self.envelope == start.envelope.advanced(
                    later_sample(now as int, i - 1) as int,
                    settings,
                ),
                self.gain == start.gain_after(*params, i as nat),
                forall|j: int| 0 <= j < i ==> #[trigger] out@[j] == start.sample(*params, j),
                forall|j: int| 0 <= j < i ==> -UNITY <= #[trigger] out@[j] <= UNITY,
                start.notes.current is Some ==> self.envelope.stage != EnvelopeStage::Off
                    && self.envelope.stage != EnvelopeStage::Release,
            decreases n - i,
        {
            let t = now.saturating_add(i as u64);
            proof {
                if i > 0 {
                    lemma_advance_composes(
                        start.envelope,
                        settings,
                        later_sample(now as int, i - 1) as int,
                        t as int,
                    );
                }
            }
            let level = self.envelope.advance(t, &settings);
            let raw = render(shape, self.frequency, self.sample_rate, t);
            if self.envelope.stage == EnvelopeStage::Off {
                self.gain = 0;
            } else {
                let target = gain(level, self.voice.velocity);
                self.gain = declick(self.gain, target, d);
            }
            out[i] = amplify(raw, self.gain);
            i += 1;
        }
        self.clock.advance(n as u64);
        proof {
            if start.envelope.stage == EnvelopeStage::Off {
                assert forall|j: int| 0 <= j < n implies #[trigger] out@[j] == 0 by {
                    lemma_idle_is_silent(start, *params, j);
                }
            }
        }
    }
}

/// An idle voice renders exact silence, for any controls and however long
/// the block.
pub proof fn lemma_idle_is_silent(v: Savoy, p: Parameters, i: int)
    requires
        v.wf(),
        v.envelope.stage == EnvelopeStage::Off,
        0 <= i,
    ensures
        v.sample(p, i) == 0,
{
    assert(v.gain_after(p, (i + 1) as nat) == 0);
    let raw = shape_level(
        shape_of_control(p.oscillator as int),
        phase_position(v.time_at(i), v.frequency as int, v.sample_rate as int),
        phase_period(v.sample_rate as int),
    );
    assert(raw * 0 == 0 && (-raw) * 0 == 0) by (nonlinear_arith);
}

} // verus!
