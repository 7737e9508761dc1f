//! The sample clock and the tracker of the one sounding note.

use vstd::prelude::*;

verus! {

/// A note as played: MIDI pitch and velocity, and the sample it began at.
#[derive(Clone, Copy, Debug, PartialEq, Eq, Structural)]
pub struct Note {
    pub pitch: u8,
    pub velocity: u8,
    pub onset: u64,
}

/// Holds the note that currently sounds, if any. A new note always replaces
/// the current one; a note-off ends only the note of the same pitch.
#[derive(Clone, Copy, Debug, PartialEq, Eq, Structural)]
pub struct NoteTracker {
    pub current: Option<Note>,
}

impl NoteTracker {
    /// Whether a note-off for `pitch` ends the current note.
    pub open spec fn releases(self, pitch: u8) -> bool {
        self.current matches Some(n) && n.pitch == pitch
    }

    /// A tracker with no note.
    pub fn new() -> (t: NoteTracker)
        ensures
            t.current is None,
    {
        NoteTracker { current: None }
    }

    /// Starts `pitch` at sample `now`, replacing any current note.
    pub fn note_on(&mut self, pitch: u8, velocity: u8, now: u64)
        ensures
            final(self).current == Some(Note { pitch, velocity, onset: now }),
    {
        self.current = Some(Note { pitch, velocity, onset: now });
    }

    /// Ends the current note if it has this pitch, and says whether it did;
    /// for any other pitch nothing changes.
    pub fn note_off(&mut self, pitch: u8) -> (ended: bool)
        ensures
            ended == old(self).releases(pitch),
            ended ==> final(self).current is None,
            !ended ==> *final(self) == *old(self),
    {
        match self.current {
            Some(n) => {
                if n.pitch == pitch {
                    self.current = None;
                    true
                } else {
                    false
                }
            },
            None => false,
        }
    }

    /// The note that sounds now, if any.
    pub fn current(&self) -> (n: Option<Note>)
        ensures
            n == self.current,
    {
        self.current
    }
}

/// Time in samples since the clock was last reset. It stops at the largest
/// `u64` rather than wrap.
#[derive(Clone, Copy, Debug, PartialEq, Eq, Structural)]
pub struct Clock {
    pub now: u64,
}

/// The sample `offset` samples after `now`, or the last one if that lies
/// beyond it.
pub open spec fn later_sample(now: int, offset: int) -> u64 {
    if now + offset > u64::MAX {
        u64::MAX
    } else {
        (now + offset) as u64
    }
}

impl Clock {
    /// A clock at zero.
    pub fn new() -> (c: Clock)
        ensures
            c.now == 0,
    {
        Clock { now: 0 }
    }

    /// The current sample.
    pub fn now(&self) -> (t: u64)
        ensures
            t == self.now,
    {
        self.now
    }

    /// Moves the clock on by a block of `samples` samples.
    pub fn advance(&mut self, samples: u64)
        ensures
            final(self).now == later_sample(old(self).now as int, samples as int),
    {
        self.now = self.now.saturating_add(samples);
    }

    /// Sets the clock back to zero.
    pub fn reset(&mut self)
        ensures
            final(self).now == 0,
    {
        self.now = 0;
    }
}

} // verus!
