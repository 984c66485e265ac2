use keysynth::instrument::{CustomWaveform, InstrumentType, Sample, PHASE_UNITS, SAMPLE_RATE};

const U: i64 = PHASE_UNITS as i64;

#[test]
fn new_generator_starts_at_zero() {
    let w = CustomWaveform::new(44000, InstrumentType::Sine);
    assert_eq!(w.position(), 0);
    assert_eq!(w.frequency(), 44000);
    assert_eq!(w.sample_rate(), SAMPLE_RATE);
    assert_eq!(w.sample_rate(), 44100);
    assert_eq!(w.channels(), 1);
    assert_eq!(w.current_frame_len(), None);
    assert_eq!(w.total_duration(), None);
    assert_eq!(w.instrument(), InstrumentType::Sine);
}

#[test]
fn sine_first_sample_is_phase_zero() {
    let mut w = CustomWaveform::new(44000, InstrumentType::Sine);
    assert_eq!(w.next_sample(), Sample::Sine { phase: 0 });
    assert_eq!(w.next_sample(), Sample::Sine { phase: 44000 });
    assert_eq!(w.position(), 2);
}

#[test]
fn square_is_half_amplitude() {
    let mut w = CustomWaveform::new(44000, InstrumentType::Square);
    let mut seen_low = false;
    for _ in 0..200 {
        match w.next_sample() {
            Sample::Level { level } => {
                assert!(level == U / 2 || level == -U / 2);
                if level == -U / 2 {
                    seen_low = true;
                }
            }
            Sample::Sine { .. } => panic!("square handed out a sine phase"),
        }
    }
    assert!(seen_low);
    let mut first = CustomWaveform::new(44000, InstrumentType::Square);
    assert_eq!(first.next_sample(), Sample::Level { level: 2205000 });
}

#[test]
fn triangle_exact_values() {
    let mut w = CustomWaveform::new(44000, InstrumentType::Triangle);
    assert_eq!(w.next_sample(), Sample::Level { level: 4410000 });
    assert_eq!(w.next_sample(), Sample::Level { level: 4234000 });
}

#[test]
fn sawtooth_exact_values() {
    let mut w = CustomWaveform::new(44000, InstrumentType::Saw);
    assert_eq!(w.next_sample(), Sample::Level { level: -4410000 });
    assert_eq!(w.next_sample(), Sample::Level { level: -4322000 });
}

#[test]
fn samples_stay_in_range() {
    for shape in [InstrumentType::Sine, InstrumentType::Square, InstrumentType::Triangle, InstrumentType::Saw] {
        let mut w = CustomWaveform::new(49388, shape);
        for _ in 0..5000 {
            match w.next_sample() {
                Sample::Sine { phase } => {
                    assert_eq!(shape, InstrumentType::Sine);
                    assert!(phase < PHASE_UNITS);
                }
                Sample::Level { level } => {
                    assert!(-U <= level && level <= U);
                    if shape == InstrumentType::Saw {
                        assert!(level < U);
                    }
                }
            }
        }
    }
}

#[test]
fn samples_repeat_each_period() {
    // 440 Hz at 44100 Hz: 2205 samples make exactly 22 cycles.
    for shape in [InstrumentType::Sine, InstrumentType::Square, InstrumentType::Triangle, InstrumentType::Saw] {
        let mut w = CustomWaveform::new(44000, shape);
        let mut first: Vec<Sample> = Vec::new();
        for _ in 0..2205 {
            first.push(w.next_sample());
        }
        for i in 0..2205 {
            assert_eq!(w.next_sample(), first[i]);
        }
    }
}

#[test]
fn same_state_same_sample() {
    let mut a = CustomWaveform::new(65925, InstrumentType::Triangle);
    let mut b = CustomWaveform::new(65925, InstrumentType::Triangle);
    for _ in 0..1000 {
        assert_eq!(a.next_sample(), b.next_sample());
    }
}

#[test]
fn position_advances_by_one() {
    let mut w = CustomWaveform::new(98777, InstrumentType::Saw);
    for i in 0..100usize {
        assert_eq!(w.position(), i);
        w.next_sample();
    }
    assert_eq!(w.position(), 100);
}
