use savoy::envelope::EnvelopeStage;
use savoy::midi::MidiEvent;
use savoy::mixer::{amplify, declick, declick_divisor_for, gain};
use savoy::notes::{Clock, Note, NoteTracker};
use savoy::params::Parameters;
use savoy::voice::Savoy;
use savoy::UNITY;

const U: i32 = UNITY as i32;

fn sine_params() -> Parameters {
    Parameters { oscillator: 900_000, attack: 10_000, decay: 10_000, sustain: 500_000, release: 10_000 }
}

#[test]
fn decode_note_messages() {
    assert_eq!(MidiEvent::decode(&[0x90, 60, 100]), MidiEvent::NoteOn { pitch: 60, velocity: 100 });
    assert_eq!(MidiEvent::decode(&[0x93, 61, 1]), MidiEvent::NoteOn { pitch: 61, velocity: 1 });
    assert_eq!(MidiEvent::decode(&[0x80, 60, 64]), MidiEvent::NoteOff { pitch: 60 });
    assert_eq!(MidiEvent::decode(&[0x8f, 127, 0]), MidiEvent::NoteOff { pitch: 127 });
    assert_eq!(MidiEvent::decode(&[0x90, 60, 0]), MidiEvent::NoteOff { pitch: 60 });
}

#[test]
fn decode_other_messages() {
    assert_eq!(MidiEvent::decode(&[]), MidiEvent::Other);
    assert_eq!(MidiEvent::decode(&[0x90, 60]), MidiEvent::Other);
    assert_eq!(MidiEvent::decode(&[0x90, 0x80, 10]), MidiEvent::Other);
    assert_eq!(MidiEvent::decode(&[0x90, 60, 0x80]), MidiEvent::Other);
    assert_eq!(MidiEvent::decode(&[0x40, 60, 10]), MidiEvent::Other);
    assert_eq!(MidiEvent::decode(&[0xb0, 7, 100]), MidiEvent::Other);
    assert_eq!(MidiEvent::decode(&[0xf8]), MidiEvent::Other);
}

#[test]
fn tracker_is_last_note_priority() {
    let mut t = NoteTracker::new();
    t.note_on(60, 100, 5);
    t.note_on(64, 90, 9);
    assert_eq!(t.current(), Some(Note { pitch: 64, velocity: 90, onset: 9 }));
    assert!(!t.note_off(60));
    assert_eq!(t.current(), Some(Note { pitch: 64, velocity: 90, onset: 9 }));
    assert!(t.note_off(64));
    assert_eq!(t.current(), None);
    assert!(!t.note_off(64));
}

#[test]
fn clock_counts_and_saturates() {
    let mut c = Clock::new();
    c.advance(64);
    c.advance(36);
    assert_eq!(c.now(), 100);
    c.reset();
    assert_eq!(c.now(), 0);
    c.advance(u64::MAX - 1);
    c.advance(5);
    assert_eq!(c.now(), u64::MAX);
}

#[test]
fn gain_of_level_and_velocity() {
    assert_eq!(gain(UNITY, 127), U);
    assert_eq!(gain(UNITY, 0), 0);
    assert_eq!(gain(UNITY / 2, 127), U / 2);
    assert_eq!(gain(UNITY, 1), 7_874);
    assert_eq!(gain(0, 127), 0);
}

#[test]
fn amplify_scales_toward_zero() {
    assert_eq!(amplify(U, U), U);
    assert_eq!(amplify(-U, U / 2), -U / 2);
    assert_eq!(amplify(-U, 0), 0);
    assert_eq!(amplify(U / 2, U / 2), U / 4);
    assert_eq!(amplify(-3, U / 2), -1);
    assert_eq!(amplify(3, U / 2), 1);
}

#[test]
fn declick_moves_toward_input() {
    assert_eq!(declick_divisor_for(44_100), 88);
    assert_eq!(declick_divisor_for(300), 1);
    assert_eq!(declick(0, U, 88), 11_364);
    assert_eq!(declick(0, -U, 88), -11_364);
    assert_eq!(declick(5, 0, 88), 4);
    assert_eq!(declick(-1, 0, 88), 0);
    assert_eq!(declick(7, 7, 88), 7);
    assert_eq!(declick(-U, U, 1), U);
}

#[test]
fn silent_before_any_note() {
    let mut v = Savoy::new();
    let mut out = vec![5i32; 256];
    v.process(&sine_params(), &mut out);
    assert!(out.iter().all(|&s| s == 0));
    assert_eq!(v.clock.now(), 256);
}

#[test]
fn note_sounds_then_fades_to_exact_silence() {
    let mut v = Savoy::new();
    v.handle_midi(&[0x90, 69, 127]);
    v.set_frequency(440_000);
    assert_eq!(v.current_note(), Some(Note { pitch: 69, velocity: 127, onset: 0 }));
    let p = sine_params();
    let mut out = vec![0i32; 4410];
    v.process(&p, &mut out);
    assert!(out.iter().all(|&s| -U <= s && s <= U));
    assert!(out.iter().any(|&s| s > U / 4));
    assert!(out.iter().any(|&s| s < -U / 4));
    assert_eq!(v.envelope.stage, EnvelopeStage::Sustain);
    v.handle_midi(&[0x80, 69, 0]);
    assert_eq!(v.current_note(), None);
    assert_eq!(v.envelope.stage, EnvelopeStage::Release);
    let mut tail = vec![0i32; 4410];
    v.process(&p, &mut tail);
    assert_eq!(v.envelope.stage, EnvelopeStage::Off);
    assert_eq!(*tail.last().unwrap(), 0);
    assert_eq!(v.gain, 0);
    assert_eq!(v.clock.now(), 8820);
    let mut quiet = vec![1i32; 512];
    v.process(&p, &mut quiet);
    assert!(quiet.iter().all(|&s| s == 0));
}

#[test]
fn envelope_follows_scenario_through_blocks() {
    let mut v = Savoy::new();
    v.note_on(69, 127);
    let p = Parameters { oscillator: 0, attack: 100_000, decay: 100_000, sustain: 500_000, release: 200_000 };
    let mut block = vec![0i32; 2206];
    v.process(&p, &mut block);
    assert_eq!(v.envelope.value, 500_000);
    let mut block = vec![0i32; 2205];
    v.process(&p, &mut block);
    assert_eq!(v.envelope.value, 1_000_000);
    v.process(&p, &mut block);
    assert_eq!(v.envelope.value, 750_000);
    let mut block = vec![0i32; 2204];
    v.process(&p, &mut block);
    // The block ends one sample before the decay does; the note-off comes
    // at the start of the next block and releases from that level.
    assert_eq!(v.envelope.stage, EnvelopeStage::Decay);
    assert_eq!(v.envelope.value, 500_114);
    assert_eq!(v.clock.now(), 8820);
    v.note_off(69);
    let mut block = vec![0i32; 4411];
    v.process(&p, &mut block);
    assert_eq!(v.envelope.value, 250_057);
    let mut block = vec![0i32; 4410];
    v.process(&p, &mut block);
    assert_eq!(v.envelope.value, 0);
    assert_eq!(v.envelope.stage, EnvelopeStage::Off);
}

#[test]
fn stale_note_off_changes_nothing() {
    let mut v = Savoy::new();
    v.note_on(60, 100);
    let mut block = vec![0i32; 64];
    v.process(&sine_params(), &mut block);
    v.note_on(64, 100);
    let notes = v.notes;
    let envelope = v.envelope;
    v.note_off(60);
    v.handle_midi(&[0x80, 60, 0]);
    assert_eq!(v.notes, notes);
    assert_eq!(v.envelope, envelope);
    assert_eq!(v.envelope.stage, EnvelopeStage::Attack);
    v.note_off(64);
    assert_eq!(v.envelope.stage, EnvelopeStage::Release);
}

#[test]
fn other_midi_is_ignored() {
    let mut v = Savoy::new();
    v.handle_midi(&[0xb0, 7, 100]);
    assert_eq!(v.current_note(), None);
    assert_eq!(v.envelope.stage, EnvelopeStage::Off);
}

#[test]
fn velocity_scales_output() {
    let p = Parameters { oscillator: 0, attack: 0, decay: 0, sustain: UNITY as i32, release: 0 };
    let mut loud = Savoy::new();
    loud.set_sample_rate(1000);
    loud.set_frequency(1_000);
    loud.note_on(60, 127);
    let mut quiet = Savoy::new();
    quiet.set_sample_rate(1000);
    quiet.set_frequency(1_000);
    quiet.note_on(60, 0);
    let mut a = vec![0i32; 600];
    let mut b = vec![0i32; 600];
    loud.process(&p, &mut a);
    quiet.process(&p, &mut b);
    assert!(b.iter().all(|&s| s == 0));
    // The smoothed gain has reached full scale long before the saw, which
    // climbs 2000 a sample from -1 to 1 over 1000 samples, crosses zero.
    assert_eq!(a[500], 0);
    assert_eq!(a[501], 2_000);
    assert_eq!(a[0], -U / 2);
    assert_eq!(a[1], -748_500);
}

#[test]
fn sample_rate_change_keeps_the_note() {
    let mut v = Savoy::new();
    v.note_on(60, 100);
    let mut block = vec![0i32; 100];
    v.process(&sine_params(), &mut block);
    let level = v.envelope.value;
    let stage = v.envelope.stage;
    let gain = v.gain;
    v.set_sample_rate(48_000);
    assert_eq!(v.sample_rate, 48_000);
    assert_eq!(v.clock.now(), 0);
    assert_eq!(v.current_note(), Some(Note { pitch: 60, velocity: 100, onset: 0 }));
    assert_eq!(v.envelope.stage, stage);
    assert_eq!(v.envelope.start, 0);
    assert_eq!(v.gain, gain);
    let mut one = vec![0i32; 1];
    v.process(&sine_params(), &mut one);
    assert_eq!(v.envelope.value, level);
    v.note_off(60);
    assert_eq!(v.envelope.stage, EnvelopeStage::Release);
}

#[test]
fn idle_voice_is_silent_whatever_its_gain() {
    let mut v = Savoy::new();
    v.set_frequency(440_000);
    v.gain = U;
    let mut out = vec![7i32; 300];
    v.process(&Parameters::default(), &mut out);
    assert!(out.iter().all(|&s| s == 0));
    assert_eq!(v.gain, 0);
}

#[test]
fn release_end_silences_at_once() {
    let p = Parameters { oscillator: 0, attack: 0, decay: 0, sustain: UNITY as i32, release: 1_000 };
    let mut v = Savoy::new();
    v.set_frequency(440_000);
    v.note_on(69, 127);
    let mut block = vec![0i32; 1000];
    v.process(&p, &mut block);
    v.note_off(69);
    let mut tail = vec![0i32; 200];
    v.process(&p, &mut tail);
    // The release lasts 44 samples; from then on the envelope is idle.
    assert!(tail[..44].iter().any(|&s| s != 0));
    assert!(tail[44..].iter().all(|&s| s == 0));
}

#[test]
fn empty_block_changes_nothing_but_time() {
    let mut v = Savoy::new();
    v.note_on(60, 100);
    let mut out: Vec<i32> = Vec::new();
    v.process(&sine_params(), &mut out);
    assert_eq!(v.clock.now(), 0);
    assert_eq!(v.envelope.stage, EnvelopeStage::Attack);
}
