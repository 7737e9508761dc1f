//! The ADSR envelope generator.

use vstd::prelude::*;

use crate::arith::{lemma_fraction_le, lemma_fraction_monotonic, lemma_fraction_step, lemma_mul_bounded};
use crate::UNITY;
use vstd::math::min;

verus! {

/// Level reached `elapsed` samples into an attack of `length` samples that
/// started at level `from`: a straight line from `from` up to [`UNITY`].
pub open spec fn attack_level(from: int, elapsed: int, length: int) -> int {
    if elapsed >= length {
        UNITY as int
    } else {
        from + (UNITY - from) * elapsed / length
    }
}

/// Level reached `elapsed` samples into a decay of `length` samples that
/// started at level `from`: a straight line from `from` to `sustain`. A
/// decay begins at its starting level even when its length is zero.
pub open spec fn decay_level(from: int, sustain: int, elapsed: int, length: int) -> int {
    if elapsed == 0 {
        from
    } else if elapsed >= length {
        sustain
    } else if from >= sustain {
        from - (from - sustain) * elapsed / length
    } else {
        from + (sustain - from) * elapsed / length
    }
}

/// Level reached `elapsed` samples into a release of `length` samples that
/// started at level `from`: a straight line from `from` down to zero.
pub open spec fn release_level(from: int, elapsed: int, length: int) -> int {
    if elapsed >= length {
        0
    } else {
        from - from * elapsed / length
    }
}

/// Stage of the envelope. `Off` is the idle stage: the initial one, and the
/// one a finished release returns to.
#[derive(Clone, Copy, Debug, PartialEq, Eq, Structural)]
pub enum EnvelopeStage {
    Off,
    Attack,
    Decay,
    Sustain,
    Release,
}

/// The shape of the envelope for one processing block: stage lengths in
/// samples and the sustain level in fixed point.
#[derive(Clone, Copy, Debug, PartialEq, Eq, Structural)]
pub struct EnvelopeSettings {
    pub attack: u64,
    pub decay: u64,
    pub sustain: u32,
    pub release: u64,
}

/// The longest stage that settings may hold, in samples.
pub const MAX_STAGE_LENGTH: u64 = 0xffff_ffff;

impl EnvelopeSettings {
    pub open spec fn wf(self) -> bool {
        &&& self.attack <= MAX_STAGE_LENGTH
        &&& self.decay <= MAX_STAGE_LENGTH
        &&& self.release <= MAX_STAGE_LENGTH
        &&& self.sustain <= UNITY
    }

    /// Settings with the given stage lengths (samples) and sustain level;
    /// lengths are clamped to [`MAX_STAGE_LENGTH`], the level to [`UNITY`].
    pub fn new(attack: u64, decay: u64, sustain: u32, release: u64) -> (s: EnvelopeSettings)
        ensures
            s.wf(),
            s.attack == min(attack as int, MAX_STAGE_LENGTH as int),
            s.decay == min(decay as int, MAX_STAGE_LENGTH as int),
            s.sustain == min(sustain as int, UNITY as int),
            s.release == min(release as int, MAX_STAGE_LENGTH as int),
    {
        EnvelopeSettings {
            attack: if attack > MAX_STAGE_LENGTH { MAX_STAGE_LENGTH } else { attack },
            decay: if decay > MAX_STAGE_LENGTH { MAX_STAGE_LENGTH } else { decay },
            sustain: if sustain > UNITY { UNITY } else { sustain },
            release: if release > MAX_STAGE_LENGTH { MAX_STAGE_LENGTH } else { release },
        }
    }
}

/// State of the envelope generator.
///
/// `start` is the sample at which the current stage began and `from` the
/// level the envelope had at that moment; `value` is the level last computed.
#[derive(Clone, Copy, Debug, PartialEq, Eq, Structural)]
pub struct Envelope {
    pub stage: EnvelopeStage,
    pub value: u32,
    pub start: u64,
    pub from: u32,
}

/// Samples from `start` to `t`, or zero if `t` lies before `start`.
pub open spec fn elapsed_since(start: int, t: int) -> int {
    if t >= start {
        t - start
    } else {
        0
    }
}

impl Envelope {
    pub open spec fn wf(self) -> bool {
        &&& self.value <= UNITY
        &&& self.from <= UNITY
        &&& self.stage == EnvelopeStage::Off ==> self.value == 0
    }

    /// The state `t` reached from a decay that begins at sample `begin` at
    /// level `from`. The decay ends, and the sustain stage begins, once at
    /// least one sample and at least `decay` samples have passed.
    pub open spec fn decay_from(begin: int, from: int, t: int, s: EnvelopeSettings) -> Envelope {
        let elapsed = elapsed_since(begin, t);
        if elapsed > 0 && elapsed >= s.decay {
            Envelope {
                stage: EnvelopeStage::Sustain,
                value: s.sustain,
                start: (begin + s.decay) as u64,
                from: s.sustain,
            }
        } else {
            Envelope {
                stage: EnvelopeStage::Decay,
                value: decay_level(from, s.sustain as int, elapsed, s.decay as int) as u32,
                start: begin as u64,
                from: from as u32,
            }
        }
    }

    /// The state at sample `t`, with every stage that ends by `t` completed.
    pub open spec fn advanced(self, t: int, s: EnvelopeSettings) -> Envelope {
        let elapsed = elapsed_since(self.start as int, t);
        match self.stage {
            EnvelopeStage::Off => self,
            EnvelopeStage::Attack => if elapsed >= s.attack {
                Envelope::decay_from(self.start + s.attack, UNITY as int, t, s)
            } else {
                Envelope {
                    value: attack_level(self.from as int, elapsed, s.attack as int) as u32,
                    ..self
                }
            },
            EnvelopeStage::Decay => Envelope::decay_from(self.start as int, self.from as int, t, s),
            EnvelopeStage::Sustain => Envelope { value: s.sustain, ..self },
            EnvelopeStage::Release => if elapsed >= s.release || self.from == 0 {
                Envelope { stage: EnvelopeStage::Off, value: 0, start: self.start, from: 0 }
            } else {
                Envelope {
                    value: release_level(self.from as int, elapsed, s.release as int) as u32,
                    ..self
                }
            },
        }
    }

    /// The state right after a note-on at sample `t`: an attack from the
    /// current level.
    pub open spec fn triggered(self, t: int) -> Envelope {
        Envelope { stage: EnvelopeStage::Attack, value: self.value, start: t as u64, from: self.value }
    }

    /// The same stage carried onto a clock that reads `t` now: the stage
    /// starts over at `t` from the current level.
    pub open spec fn rebased(self, t: int) -> Envelope {
        Envelope { start: t as u64, from: self.value, ..self }
    }

    /// The state right after a note-off at sample `t`: a release from the
    /// current level, unless the envelope is already idle.
    pub open spec fn released(self, t: int) -> Envelope {
        if self.stage == EnvelopeStage::Off {
            self
        } else {
            Envelope { stage: EnvelopeStage::Release, value: self.value, start: t as u64, from: self.value }
        }
    }

    pub open spec fn new_spec() -> Envelope {
        Envelope { stage: EnvelopeStage::Off, value: 0, start: 0, from: 0 }
    }

    /// An idle envelope at level zero.
    pub fn new() -> (e: Envelope)
        ensures
            e == Envelope::new_spec(),
            e.wf(),
    {
        Envelope { stage: EnvelopeStage::Off, value: 0, start: 0, from: 0 }
    }

    /// Starts (or restarts) the attack at sample `now`, from the current level.
    pub fn note_on(&mut self, now: u64)
        requires
            old(self).wf(),
        ensures
            *final(self) == old(self).triggered(now as int),
            final(self).wf(),
    {
        self.stage = EnvelopeStage::Attack;
        self.start = now;
        self.from = self.value;
    }

    /// Starts the release at sample `now`, from the current level; an idle
    /// envelope stays idle.
    pub fn note_off(&mut self, now: u64)
        requires
            old(self).wf(),
        ensures
            *final(self) == old(self).released(now as int),
            final(self).wf(),
    {
        if self.stage != EnvelopeStage::Off {
            self.stage = EnvelopeStage::Release;
            self.start = now;
            self.from = self.value;
        }
    }

    fn enter_decay(&mut self, begin: u64, from: u32, now: u64, s: &EnvelopeSettings)
        requires
            s.wf(),
            from <= UNITY,
        ensures
            *final(self) == Envelope::decay_from(begin as int, from as int, now as int, *s),
            final(self).wf(),
    {
        let elapsed: u64 = if now >= begin { now - begin } else { 0 };
        self.stage = EnvelopeStage::Decay;
        self.start = begin;
        self.from = from;
        if elapsed > 0 && elapsed >= s.decay {
            self.stage = EnvelopeStage::Sustain;
            self.value = s.sustain;
            self.start = begin + s.decay;
            self.from = s.sustain;
        } else if elapsed == 0 {
            self.value = from;
        } else if from >= s.sustain {
            let drop = from - s.sustain;
            proof {
                lemma_fraction_le(drop as int, elapsed as int, s.decay as int);
                lemma_mul_bounded(drop as int, elapsed as int, UNITY as int, MAX_STAGE_LENGTH as int);
            }
            let fall = (drop as u64) * elapsed / s.decay;
            self.value = from - fall as u32;
        } else {
            let gap = s.sustain - from;
            proof {
                lemma_fraction_le(gap as int, elapsed as int, s.decay as int);
                lemma_mul_bounded(gap as int, elapsed as int, UNITY as int, MAX_STAGE_LENGTH as int);
            }
            let rise = (gap as u64) * elapsed / s.decay;
            self.value = from + rise as u32;
        }
    }

    /// Carries the envelope onto a clock that reads `now`: the current stage
    /// starts over there from the current level.
    pub fn rebase(&mut self, now: u64)
        requires
            old(self).wf(),
        ensures
            *final(self) == old(self).rebased(now as int),
            final(self).wf(),
    {
        self.start = now;
        self.from = self.value;
    }

    /// Moves the envelope to sample `now` and returns its level there.
    pub fn advance(&mut self, now: u64, s: &EnvelopeSettings) -> (level: u32)
        requires
            old(self).wf(),
            s.wf(),
        ensures
            *final(self) == old(self).advanced(now as int, *s),
            final(self).wf(),
            level == final(self).value,
    {
        let elapsed: u64 = if now >= self.start { now - self.start } else { 0 };
        match self.stage {
            EnvelopeStage::Off => {},
            EnvelopeStage::Attack => {
                if elapsed >= s.attack {
                    self.enter_decay(self.start + s.attack, UNITY, now, s);
                } else {
                    let rise = UNITY - self.from;
                    proof {
                        lemma_fraction_le(rise as int, elapsed as int, s.attack as int);
                        lemma_mul_bounded(rise as int, elapsed as int, UNITY as int, MAX_STAGE_LENGTH as int);
                    }
                    let gained = (rise as u64) * elapsed / s.attack;
                    self.value = self.from + gained as u32;
                }
            },
            EnvelopeStage::Decay => {
                self.enter_decay(self.start, self.from, now, s);
            },
            EnvelopeStage::Sustain => {
                self.value = s.sustain;
            },
            EnvelopeStage::Release => {
                if elapsed >= s.release || self.from == 0 {
                    self.stage = EnvelopeStage::Off;
                    self.value = 0;
                    self.from = 0;
                } else {
                    let from = self.from;
                    proof {
                        lemma_fraction_le(from as int, elapsed as int, s.release as int);
                        lemma_mul_bounded(from as int, elapsed as int, UNITY as int, MAX_STAGE_LENGTH as int);
                    }
                    let fall = (from as u64) * elapsed / s.release;
                    self.value = from - fall as u32;
                }
            },
        }
        self.value
    }
}

/// Moving the envelope to `t1` and then to `t2` lands in the same state as
/// moving it to `t2` at once: its course does not depend on how often it is
/// sampled on the way.
pub proof fn lemma_advance_composes(e: Envelope, s: EnvelopeSettings, t1: int, t2: int)
    requires
        e.wf(),
        s.wf(),
        e.start <= t1 <= t2 <= u64::MAX,
    ensures
        e.advanced(t1, s).advanced(t2, s) == e.advanced(t2, s),
{
}

proof fn lemma_attack_level_bounds(from: int, elapsed: int, length: int)
    requires
        0 <= from <= UNITY,
        0 <= elapsed,
        0 <= length,
    ensures
        from <= attack_level(from, elapsed, length) <= UNITY,
{
    if elapsed < length {
        lemma_fraction_le(UNITY - from, elapsed, length);
    }
}

proof fn lemma_decay_level_bounds(sustain: int, elapsed: int, length: int)
    requires
        0 <= sustain <= UNITY,
        0 <= elapsed,
        0 <= length,
    ensures
        sustain <= decay_level(UNITY as int, sustain, elapsed, length) <= UNITY,
{
    if 0 < elapsed < length {
        lemma_fraction_le(UNITY - sustain, elapsed, length);
    }
}

/// After a note-on at `t0` the level starts where it was and rises steadily
/// for exactly `attack` samples, when it stands at [`UNITY`] at the start of
/// the decay stage; it then falls steadily towards the sustain level, which
/// it reaches after `decay` samples (one, for a decay of length zero) and
/// from then on holds.
pub proof fn lemma_note_on_course(e: Envelope, s: EnvelopeSettings, t0: int, t1: int, t2: int)
    requires
        e.wf(),
        s.wf(),
        0 <= t0 <= t1 <= t2 <= u64::MAX,
    ensures
        ({
            let on = e.triggered(t0);
            let v1 = on.advanced(t1, s).value;
            let v2 = on.advanced(t2, s).value;
            &&& s.attack > 0 ==> on.advanced(t0, s).value == e.value
            &&& t2 < t0 + s.attack ==> v1 <= v2
            &&& t1 == t0 + s.attack ==> on.advanced(t1, s).stage == EnvelopeStage::Decay
                && on.advanced(t1, s).start == t1 && v1 == UNITY
            &&& t0 + s.attack <= t1 ==> s.sustain <= v2 <= v1
            &&& t0 + s.attack < t1 && t0 + s.attack + s.decay <= t1 ==> on.advanced(t1, s).stage
                == EnvelopeStage::Sustain && v1 == s.sustain
        }),
{
    let on = e.triggered(t0);
    let a1 = elapsed_since(t0, t1);
    let a2 = elapsed_since(t0, t2);
    lemma_attack_level_bounds(e.value as int, a1, s.attack as int);
    lemma_attack_level_bounds(e.value as int, a2, s.attack as int);
    lemma_attack_level_bounds(e.value as int, 0, s.attack as int);
    if t2 < t0 + s.attack {
        lemma_fraction_monotonic(UNITY - e.value, a1, a2, s.attack as int);
    }
    let d1 = elapsed_since(t0 + s.attack, t1);
    let d2 = elapsed_since(t0 + s.attack, t2);
    lemma_decay_level_bounds(s.sustain as int, d1, s.decay as int);
    lemma_decay_level_bounds(s.sustain as int, d2, s.decay as int);
    if t0 + s.attack <= t1 && 0 < d1 && d2 < s.decay {
        lemma_fraction_monotonic(UNITY - s.sustain, d1, d2, s.decay as int);
    }
    if t0 + s.attack <= t1 && d1 == 0 && 0 < d2 < s.decay {
        lemma_fraction_le(UNITY - s.sustain, d2, s.decay as int);
    }
}

/// After a note-off at `t0` during the sustain stage, the level falls in a
/// straight line from the sustain level to zero over exactly `release`
/// samples; the envelope is then idle and stays so.
pub proof fn lemma_note_off_course(e: Envelope, s: EnvelopeSettings, t0: int, t: int, later: int)
    requires
        e.wf(),
        s.wf(),
        e.stage == EnvelopeStage::Sustain,
        e.value == s.sustain,
        0 <= t0 <= t <= u64::MAX,
    ensures
        ({
            let r = e.released(t0).advanced(t, s);
            &&& t < t0 + s.release ==> r.value == s.sustain - s.sustain * (t - t0) / (s.release as int)
            &&& t >= t0 + s.release ==> r.stage == EnvelopeStage::Off && r.value == 0
            &&& r.stage == EnvelopeStage::Off ==> r.advanced(later, s) == r
        }),
{
    if t < t0 + s.release {
        lemma_fraction_le(s.sustain as int, t - t0, s.release as int);
    }
}

/// A note-on at `t0` leaves the level where it was, and while the attack
/// runs the level climbs by at most `UNITY / attack + 1` per sample.
pub proof fn lemma_retrigger_continuous(e: Envelope, s: EnvelopeSettings, t0: int, t: int)
    requires
        e.wf(),
        s.wf(),
        s.attack > 0,
        0 <= t0 <= t,
        t + 1 < t0 + s.attack,
        t0 + s.attack <= u64::MAX,
    ensures
        ({
            let on = e.triggered(t0);
            &&& on.advanced(t0, s).value == e.value
            &&& on.advanced(t, s).value <= on.advanced(t + 1, s).value
            &&& on.advanced(t + 1, s).value <= on.advanced(t, s).value + (UNITY as int) / (s.attack as int) + 1
        }),
{
    let rise = UNITY - e.value;
    lemma_attack_level_bounds(e.value as int, t - t0, s.attack as int);
    lemma_attack_level_bounds(e.value as int, t + 1 - t0, s.attack as int);
    lemma_fraction_step(rise, t - t0, s.attack as int);
    vstd::arithmetic::div_mod::lemma_div_is_ordered(rise, UNITY as int, s.attack as int);
}

/// Carrying the envelope onto a reset clock keeps its level: at the new
/// clock's first sample the level is the one last computed, unless a stage
/// of length zero ends right there or the sustain level has been changed.
pub proof fn lemma_rebase_continuous(e: Envelope, s: EnvelopeSettings, t: int)
    requires
        e.wf(),
        s.wf(),
        0 <= t <= u64::MAX,
        e.stage == EnvelopeStage::Attack ==> s.attack > 0,
        e.stage == EnvelopeStage::Release ==> s.release > 0,
        e.stage == EnvelopeStage::Sustain ==> e.value == s.sustain,
    ensures
        e.rebased(t).advanced(t, s).value == e.value,
{
    if e.stage == EnvelopeStage::Attack {
        lemma_attack_level_bounds(e.value as int, 0, s.attack as int);
    }
}

} // verus!
