use savoy::oscillator::{render, WaveShape};
use savoy::params::Parameters;
use savoy::UNITY;

const SHAPES: [WaveShape; 4] = [WaveShape::Saw, WaveShape::Square, WaveShape::Triangle, WaveShape::Sine];
const U: i32 = UNITY as i32;

#[test]
fn shape_control_quarters() {
    assert_eq!(WaveShape::from_control(0), WaveShape::Saw);
    assert_eq!(WaveShape::from_control(249_999), WaveShape::Saw);
    assert_eq!(WaveShape::from_control(250_000), WaveShape::Square);
    assert_eq!(WaveShape::from_control(500_000), WaveShape::Triangle);
    assert_eq!(WaveShape::from_control(750_000), WaveShape::Sine);
}

#[test]
fn shape_control_high_and_out_of_range_give_sine() {
    assert_eq!(WaveShape::from_control(900_000), WaveShape::Sine);
    assert_eq!(WaveShape::from_control(1_100_000), WaveShape::Sine);
    assert_eq!(WaveShape::from_control(UNITY as i32), WaveShape::Sine);
    assert_eq!(WaveShape::from_control(-1), WaveShape::Sine);
    assert_eq!(WaveShape::from_control(i32::MIN), WaveShape::Sine);
    let mut p = Parameters::default();
    p.set_parameter(0, 1_100_000);
    assert_eq!(p.shape(), WaveShape::Sine);
}

#[test]
fn levels_stay_in_range() {
    for &shape in SHAPES.iter() {
        for &(freq, rate) in [(440_000u64, 44_100u32), (8_176u64, 48_000u32), (12_543_854u64, 22_050u32)].iter() {
            for t in (0..50_000u64).chain([u64::MAX - 3, u64::MAX].iter().copied()) {
                let v = render(shape, freq, rate, t);
                assert!(-U <= v && v <= U);
                if shape == WaveShape::Square {
                    assert!(v == 0 || v == U || v == -U);
                }
            }
        }
    }
}

#[test]
fn quarter_period_levels() {
    // 1 Hz at 4 samples per second: one sample is a quarter period.
    assert_eq!(render(WaveShape::Saw, 1000, 4, 0), -U);
    assert_eq!(render(WaveShape::Saw, 1000, 4, 1), -U / 2);
    assert_eq!(render(WaveShape::Saw, 1000, 4, 2), 0);
    assert_eq!(render(WaveShape::Saw, 1000, 4, 3), U / 2);
    assert_eq!(render(WaveShape::Square, 1000, 4, 0), 0);
    assert_eq!(render(WaveShape::Square, 1000, 4, 1), U);
    assert_eq!(render(WaveShape::Square, 1000, 4, 2), 0);
    assert_eq!(render(WaveShape::Square, 1000, 4, 3), -U);
    assert_eq!(render(WaveShape::Triangle, 1000, 4, 0), 0);
    assert_eq!(render(WaveShape::Triangle, 1000, 4, 1), U);
    assert_eq!(render(WaveShape::Triangle, 1000, 4, 2), 0);
    assert_eq!(render(WaveShape::Triangle, 1000, 4, 3), -U);
    assert_eq!(render(WaveShape::Sine, 1000, 4, 0), 0);
    assert_eq!(render(WaveShape::Sine, 1000, 4, 1), U);
    assert_eq!(render(WaveShape::Sine, 1000, 4, 2), 0);
    assert_eq!(render(WaveShape::Sine, 1000, 4, 3), -U);
    assert_eq!(render(WaveShape::Sine, 1000, 4, 4), 0);
}

#[test]
fn sine_at_thirty_degrees_is_one_half() {
    assert_eq!(render(WaveShape::Sine, 1000, 12, 1), U / 2);
    assert_eq!(render(WaveShape::Sine, 1000, 12, 7), -U / 2);
}

#[test]
fn sine_tracks_the_true_sine() {
    for t in 0..1000u64 {
        let v = render(WaveShape::Sine, 1000, 1000, t) as f64 / UNITY as f64;
        let exact = (2.0 * std::f64::consts::PI * t as f64 / 1000.0).sin();
        assert!((v - exact).abs() < 0.002);
    }
}

#[test]
fn a440_period_at_44100() {
    // 440 Hz at 44100 samples per second repeats after 44100 / gcd = 2205 samples (22 cycles).
    for t in 0..200u64 {
        assert_eq!(render(WaveShape::Saw, 440_000, 44_100, t), render(WaveShape::Saw, 440_000, 44_100, t + 2205));
    }
    assert_ne!(render(WaveShape::Saw, 440_000, 44_100, 1), render(WaveShape::Saw, 440_000, 44_100, 2));
}
