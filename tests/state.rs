use keysynth::drums::{DrumPad, DrumSound};
use keysynth::keyboard::Keyboard;
use keysynth::looper::Looper;
use keysynth::recorder::Recorder;
use std::time::{Duration, Instant};

#[test]
fn drum_sounds() {
    let all = [
        (DrumSound::Kick, 6000, 150),
        (DrumSound::Snare, 20000, 100),
        (DrumSound::HiHat, 100000, 50),
        (DrumSound::Clap, 30000, 80),
        (DrumSound::Cymbal, 80000, 200),
    ];
    for (d, f, ms) in all {
        assert_eq!(d.frequency(), f);
        assert_eq!(d.duration(), ms);
    }
}

#[test]
fn drum_pad_modes() {
    let mut pad = DrumPad::new();
    assert!(!pad.is_drum_mode);
    assert_eq!(pad.sounds.len(), 5);
    assert_eq!(pad.hit_drum('z'), None);
    pad.toggle_mode();
    assert!(pad.is_drum_mode);
    assert_eq!(pad.hit_drum('z'), Some(DrumSound::Kick));
    assert_eq!(pad.hit_drum('x'), Some(DrumSound::Snare));
    assert_eq!(pad.hit_drum('c'), Some(DrumSound::HiHat));
    assert_eq!(pad.hit_drum('v'), Some(DrumSound::Clap));
    assert_eq!(pad.hit_drum('b'), Some(DrumSound::Cymbal));
    assert_eq!(pad.hit_drum('a'), None);
    pad.active_beats.push('z');
    pad.toggle_mode();
    assert!(!pad.is_drum_mode);
    assert!(pad.active_beats.is_empty());
}

#[test]
fn recorder_takes_notes_only_while_recording() {
    let mut r = Recorder::new();
    r.record_note('a');
    assert!(r.get_recording().is_empty());
    r.start_recording();
    assert!(r.is_recording);
    r.record_note('a');
    r.record_note('s');
    let keys: Vec<char> = r.get_recording().iter().map(|n| n.key).collect();
    assert_eq!(keys, vec!['a', 's']);
    assert!(r.get_recording()[0].timestamp <= r.get_recording()[1].timestamp);
    r.stop_recording();
    assert!(!r.is_recording);
    r.record_note('d');
    assert_eq!(r.get_recording().len(), 2);
    r.start_recording();
    assert!(r.get_recording().is_empty());
}

#[test]
fn recorder_record_note_at() {
    let mut r = Recorder::new();
    r.record_note_at('a', Duration::from_millis(3));
    assert!(r.recording.is_empty());
    r.start_recording();
    r.record_note_at('g', Duration::from_millis(42));
    assert_eq!(r.recording.len(), 1);
    assert_eq!(r.recording[0].key, 'g');
    assert_eq!(r.recording[0].timestamp, Duration::from_millis(42));
}

#[test]
fn looper_records_into_loops() {
    let mut l = Looper::new();
    assert_eq!(l.max_loops, 4);
    l.record_note('a', "Sine");
    assert!(l.loops.is_empty());
    l.start_recording();
    assert_eq!(l.loops.len(), 1);
    assert_eq!(l.loops[0].instrument, "Default");
    assert!(l.loops[0].is_active);
    l.record_note_at('a', "Square", Duration::from_millis(10));
    l.record_note('s', "Square");
    assert_eq!(l.loops[0].notes.len(), 2);
    assert_eq!(l.loops[0].notes[0], ('a', Duration::from_millis(10)));
    assert_eq!(l.loops[0].notes[1].0, 's');
    assert_eq!(l.loops[0].instrument, "Square");
    l.stop_recording();
    assert!(!l.is_recording);
    assert_eq!(l.current_loop, 1);
    l.record_note('d', "Sine");
    assert_eq!(l.loops[0].notes.len(), 2);
}

#[test]
fn looper_stops_at_last_loop() {
    let mut l = Looper::new();
    for _ in 0..6 {
        l.start_recording();
        l.stop_recording();
    }
    assert_eq!(l.current_loop, 3);
    assert_eq!(l.loops.len(), 4);
}

#[test]
fn looper_toggle_and_clear() {
    let mut l = Looper::new();
    l.start_recording();
    l.stop_recording();
    l.start_recording();
    l.stop_recording();
    assert_eq!(l.loops.len(), 2);
    l.toggle_loop(1);
    assert!(!l.loops[1].is_active);
    l.toggle_loop(1);
    assert!(l.loops[1].is_active);
    l.toggle_loop(9);
    l.clear_loop(9);
    assert_eq!(l.loops.len(), 2);
    assert_eq!(l.current_loop, 2);
    l.clear_loop(0);
    assert_eq!(l.loops.len(), 1);
    assert_eq!(l.current_loop, 0);
    l.clear_loop(0);
    assert!(l.loops.is_empty());
    assert_eq!(l.current_loop, 0);
}

#[test]
fn keyboard_keys() {
    let k = Keyboard::new();
    assert_eq!(k.keys.len(), 9);
    assert_eq!(k.keys[0].symbol, 'a');
    assert_eq!(k.keys[0].note, "A4");
    assert_eq!(k.keys[0].frequency, 44000);
    assert_eq!(k.keys[8].symbol, 'l');
    assert_eq!(k.keys[8].note, "B5");
    assert_eq!(k.keys[8].frequency, 98777);
    assert!(k.active_keys.is_empty());
}

#[test]
fn keyboard_press_and_update() {
    let mut k = Keyboard::new();
    k.press_key('q');
    assert!(k.active_keys.is_empty());
    k.press_key('a');
    k.press_key('d');
    k.press_key('a');
    assert_eq!(k.active_keys, vec!['a', 'd']);
    assert!(k.keys[0].is_pressed);
    assert!(k.keys[0].press_time.is_some());
    k.update();
    assert_eq!(k.active_keys, vec!['a', 'd']);
    let start = Instant::now();
    while start.elapsed() <= Duration::from_millis(200) {}
    k.update();
    assert!(k.active_keys.is_empty());
    assert!(!k.keys[0].is_pressed);
    assert!(k.keys[0].press_time.is_none());
}

#[test]
fn keyboard_release_after_hold_time() {
    let mut k = Keyboard::new();
    k.press_key('s');
    k.release_if_held_longer(1, 150_000_000);
    assert!(k.keys[1].is_pressed);
    k.release_if_held_longer(0, 900_000_000);
    assert!(!k.keys[0].is_pressed);
    k.release_if_held_longer(1, 150_000_001);
    assert!(!k.keys[1].is_pressed);
    assert!(k.keys[1].press_time.is_none());
    assert_eq!(k.active_keys, vec!['s']);
    k.keep_pressed_active();
    assert!(k.active_keys.is_empty());
}

#[test]
fn keyboard_keeps_pressed_keys_in_order() {
    let mut k = Keyboard::new();
    k.press_key('l');
    k.press_key('a');
    k.press_key('g');
    k.release_if_held_longer(0, 200_000_000);
    k.keep_pressed_active();
    assert_eq!(k.active_keys, vec!['l', 'g']);
    k.release_if_held_longer(99, 200_000_000);
    assert_eq!(k.active_keys, vec!['l', 'g']);
}

#[test]
fn keyboard_release_held_keys() {
    let mut k = Keyboard::new();
    k.press_key('a');
    k.press_key('s');
    k.press_key('d');
    let mut held = vec![0u128; 9];
    held[0] = 150_000_001;
    held[1] = 150_000_000;
    held[4] = 999_000_000; // 'g' was never pressed
    k.release_held_keys(&held);
    assert!(!k.keys[0].is_pressed);
    assert!(k.keys[0].press_time.is_none());
    assert!(k.keys[1].is_pressed);
    assert!(k.keys[2].is_pressed);
    assert!(!k.keys[4].is_pressed);
    assert_eq!(k.active_keys, vec!['s', 'd']);
    // Keys without an entry stay pressed.
    k.release_held_keys(&vec![]);
    assert_eq!(k.active_keys, vec!['s', 'd']);
}

#[test]
fn looper_toggle_and_clear_keep_other_fields() {
    let mut l = Looper::new();
    l.start_recording();
    l.toggle_loop(0);
    assert!(l.is_recording);
    l.clear_loop(5);
    assert_eq!(l.loops.len(), 1);
    assert_eq!(l.max_loops, 4);
    // Still timing: a note goes into the current loop.
    l.record_note('a', "Saw");
    assert!(l.is_recording);
    assert_eq!(l.loops[0].notes.len(), 1);
    assert_eq!(l.loops[0].instrument, "Saw");
    l.clear_loop(0);
    assert!(l.loops.is_empty());
    assert!(l.is_recording);
    assert_eq!(l.max_loops, 4);
    assert_eq!(l.current_loop, 0);
}
