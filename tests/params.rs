use savoy::params::{Parameter, Parameters};
use savoy::UNITY;

#[test]
fn defaults() {
    let p = Parameters::default();
    assert_eq!(p.get_parameter(0), 0);
    assert_eq!(p.get_parameter(1), 0);
    assert_eq!(p.get_parameter(2), UNITY as i32);
    assert_eq!(p.get_parameter(3), UNITY as i32);
    assert_eq!(p.get_parameter(4), 200_000);
}

#[test]
fn set_and_get_by_index() {
    let mut p = Parameters::default();
    for i in 0..5 {
        p.set_parameter(i, 1000 + i);
    }
    for i in 0..5 {
        assert_eq!(p.get_parameter(i), 1000 + i);
    }
    assert_eq!(p.attack, 1001);
    assert_eq!(p.release, 1004);
}

#[test]
fn unknown_index_is_ignored() {
    let mut p = Parameters::default();
    p.set_parameter(5, 7);
    p.set_parameter(-1, 7);
    assert_eq!(p, Parameters::default());
    assert_eq!(p.get_parameter(5), 0);
    assert_eq!(p.get_parameter(-3), 0);
}

#[test]
fn names() {
    let p = Parameters::default();
    assert_eq!(p.get_parameter_name(0), "Oscillator");
    assert_eq!(p.get_parameter_name(1), "Attack");
    assert_eq!(p.get_parameter_name(2), "Decay");
    assert_eq!(p.get_parameter_name(3), "Sustain");
    assert_eq!(p.get_parameter_name(4), "Release");
    assert_eq!(p.get_parameter_name(9), "unknown");
}

#[test]
fn index_round_trip() {
    for i in 0..5 {
        let param = Parameter::from_index(i).unwrap();
        assert_eq!(param.index(), i);
    }
    assert_eq!(Parameter::from_index(5), None);
    assert_eq!(Parameter::Sustain.name(), "Sustain");
}

#[test]
fn positions_become_samples() {
    let p = Parameters { oscillator: 0, attack: 500_000, decay: UNITY as i32, sustain: 3 * UNITY as i32, release: 5 * UNITY as i32 };
    let s = p.envelope_settings(48_000);
    assert_eq!(s.attack, 24_000);
    assert_eq!(s.decay, 48_000);
    assert_eq!(s.sustain, UNITY);
    assert_eq!(s.release, 48_000);
    let s = Parameters { oscillator: 0, attack: 1, decay: 0, sustain: 0, release: 21 }.envelope_settings(44_100);
    assert_eq!(s.attack, 0);
    assert_eq!(s.decay, 0);
    assert_eq!(s.release, 0);
}

#[test]
fn negative_positions_clamp_to_zero() {
    let p = Parameters { oscillator: -5, attack: -1, decay: i32::MIN, sustain: -300, release: -2 };
    let s = p.envelope_settings(44_100);
    assert_eq!(s.attack, 0);
    assert_eq!(s.decay, 0);
    assert_eq!(s.sustain, 0);
    assert_eq!(s.release, 0);
    assert_eq!(p.shape(), savoy::oscillator::WaveShape::Sine);
}
