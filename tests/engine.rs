use keysynth::audio::{AudioEngine, CHORD_AMPLITUDE, DRUM_AMPLITUDE, NOTE_AMPLITUDE, REPLAY_GAP_MS};
use keysynth::drums::DrumSound;
use keysynth::instrument::{InstrumentType, Sample};
use keysynth::recorder::Note;
use std::time::Duration;

#[test]
fn play_note_a() {
    let engine = AudioEngine::new();
    let mut tone = engine.play_note('a');
    assert_eq!(tone.waveform.frequency(), 44000);
    assert_eq!(tone.duration_ms, 150);
    assert_eq!(tone.amplitude, 20);
    assert_eq!(tone.amplitude, NOTE_AMPLITUDE);
    assert_eq!(tone.waveform.instrument(), InstrumentType::Sine);
    assert_eq!(tone.waveform.next_sample(), Sample::Sine { phase: 0 });
}

#[test]
fn play_chord_a_d() {
    let engine = AudioEngine::new();
    let tones = engine.play_chord(&['a', 'd']);
    assert_eq!(tones.len(), 2);
    assert_eq!(tones[0].waveform.frequency(), 44000);
    assert_eq!(tones[1].waveform.frequency(), 52325);
    for t in &tones {
        assert_eq!(t.amplitude, 15);
        assert_eq!(t.amplitude, CHORD_AMPLITUDE);
        assert_eq!(t.duration_ms, 150);
        assert_eq!(t.waveform.position(), 0);
    }
}

#[test]
fn play_chord_empty() {
    let engine = AudioEngine::new();
    assert!(engine.play_chord(&[]).is_empty());
}

#[test]
fn unmapped_key_gets_default_pitch() {
    assert_eq!(AudioEngine::get_note_frequency('q'), 44000);
    assert_eq!(AudioEngine::get_note_frequency('1'), 44000);
    let engine = AudioEngine::new();
    assert_eq!(engine.play_note('q').waveform.frequency(), 44000);
}

#[test]
fn note_table() {
    let expected = [
        ('a', 44000),
        ('s', 49388),
        ('d', 52325),
        ('f', 58733),
        ('g', 65925),
        ('h', 69846),
        ('j', 78399),
        ('k', 88000),
        ('l', 98777),
    ];
    for (c, f) in expected {
        assert_eq!(AudioEngine::get_note_frequency(c), f);
        assert_eq!(AudioEngine::lowercase_note_frequency(c), f);
    }
}

#[test]
fn uppercase_keys_are_lowered() {
    assert_eq!(AudioEngine::get_note_frequency('S'), 49388);
    assert_eq!(AudioEngine::get_note_frequency('L'), 98777);
    // The Kelvin sign lowers to 'k'.
    assert_eq!(AudioEngine::get_note_frequency('\u{212A}'), 88000);
    assert_eq!(AudioEngine::lowercase_note_frequency('S'), 44000);
}

#[test]
fn play_recording_uses_fixed_gap() {
    let engine = AudioEngine::new();
    let recording = vec![
        Note { key: 'a', timestamp: Duration::from_millis(7) },
        Note { key: 's', timestamp: Duration::from_millis(5000) },
    ];
    let cues = engine.play_recording(&recording);
    assert_eq!(cues.len(), 2);
    assert_eq!(cues[0].tone.waveform.frequency(), 44000);
    assert_eq!(cues[1].tone.waveform.frequency(), 49388);
    assert_eq!(cues[0].wait_ms, 150);
    assert_eq!(cues[0].wait_ms, REPLAY_GAP_MS);
    assert_eq!(cues[1].wait_ms, 0);
    for c in &cues {
        assert_eq!(c.tone.amplitude, 20);
        assert_eq!(c.tone.duration_ms, 150);
    }
}

#[test]
fn play_recording_waits_only_between_notes() {
    let engine = AudioEngine::new();
    assert!(engine.play_recording(&[]).is_empty());
    let one = engine.play_recording(&[Note { key: 'k', timestamp: Duration::from_millis(1) }]);
    assert_eq!(one.len(), 1);
    assert_eq!(one[0].wait_ms, 0);
    assert_eq!(one[0].tone.waveform.frequency(), 88000);
    let keys = ['a', 's', 'd', 'f'];
    let rec: Vec<Note> = keys.iter().map(|&key| Note { key, timestamp: Duration::from_millis(0) }).collect();
    let cues = engine.play_recording(&rec);
    let total: u64 = cues.iter().map(|c| c.wait_ms).sum();
    assert_eq!(total, 150 * 3);
}

#[test]
fn play_chord_uppercase_keys() {
    let engine = AudioEngine::new();
    let tones = engine.play_chord(&['A', 'L']);
    assert_eq!(tones[0].waveform.frequency(), 44000);
    assert_eq!(tones[1].waveform.frequency(), 98777);
}

#[test]
fn play_drum_kick() {
    let mut engine = AudioEngine::new();
    engine.change_instrument(InstrumentType::Square);
    let tone = engine.play_drum(DrumSound::Kick);
    assert_eq!(tone.waveform.frequency(), 6000);
    assert_eq!(tone.duration_ms, 150);
    assert_eq!(tone.amplitude, 30);
    assert_eq!(tone.amplitude, DRUM_AMPLITUDE);
    assert_eq!(tone.waveform.instrument(), InstrumentType::Square);
}

#[test]
fn instrument_change_keeps_made_tones() {
    let mut engine = AudioEngine::new();
    let mut before = engine.play_note('a');
    before.waveform.next_sample();
    engine.change_instrument(InstrumentType::Saw);
    assert_eq!(engine.current_instrument(), InstrumentType::Saw);
    assert_eq!(before.waveform.instrument(), InstrumentType::Sine);
    assert_eq!(before.waveform.next_sample(), Sample::Sine { phase: 44000 });
    let mut after = engine.play_note('a');
    assert_eq!(after.waveform.instrument(), InstrumentType::Saw);
    assert_eq!(after.waveform.next_sample(), Sample::Level { level: -4410000 });
}
