//! The playback engine: it holds the selected instrument and turns notes,
//! chords, drum hits and replays into finite tones for the audio output.
//!
//! A tone is a generator together with the length it is cut to and the gain
//! it is played at (in hundredths). The engine does not play anything
//! itself: whoever owns the audio output appends the tones it hands out, in
//! order.

use crate::drums::{drum_duration, drum_frequency, DrumSound};
use crate::instrument::{sample_at, CustomWaveform, InstrumentType};
use crate::recorder::{keys_of, Note};
use vstd::prelude::*;

verus! {

/// Length of a note, in milliseconds.
pub const NOTE_DURATION_MS: u64 = 150;

/// Gain of a single note, in hundredths.
pub const NOTE_AMPLITUDE: u32 = 20;

/// Gain of each note of a chord, in hundredths: lower, so that the notes
/// summed by the mixer do not clip.
pub const CHORD_AMPLITUDE: u32 = 15;

/// Gain of a drum hit, in hundredths.
pub const DRUM_AMPLITUDE: u32 = 30;

/// Pause after each note of a replayed recording, in milliseconds, whatever
/// the times that were recorded.
pub const REPLAY_GAP_MS: u64 = 150;

/// Pitch of a key that the table does not hold (A4), in hundredths of a
/// hertz.
pub const DEFAULT_FREQUENCY: u32 = 44000;

/// The pitch table, in hundredths of a hertz, over lowercase keys.
pub open spec fn note_frequency(c: char) -> u32 {
    match c {
        'a' => 44000,
        's' => 49388,
        'd' => 52325,
        'f' => 58733,
        'g' => 65925,
        'h' => 69846,
        'j' => 78399,
        'k' => 88000,
        'l' => 98777,
        _ => DEFAULT_FREQUENCY,
    }
}

/// The pitch of an ASCII key, of either case.
pub open spec fn ascii_note_frequency(c: char) -> u32 {
    match c {
        'a' | 'A' => 44000,
        's' | 'S' => 49388,
        'd' | 'D' => 52325,
        'f' | 'F' => 58733,
        'g' | 'G' => 65925,
        'h' | 'H' => 69846,
        'j' | 'J' => 78399,
        'k' | 'K' => 88000,
        'l' | 'L' => 98777,
        _ => DEFAULT_FREQUENCY,
    }
}

/// The first character of the Unicode lowercase mapping of `c`.
pub uninterp spec fn lowercase_of(c: char) -> char;

/// Relies on `char::to_lowercase`, which yields at least one character: the
/// first of them. On ASCII it maps `A`..`Z` to `a`..`z` and keeps the rest.
#[verifier::external_body]
fn first_lowercase(c: char) -> (r: char)
    ensures
        r == lowercase_of(c),
        (c as u32) < 128 ==> r as u32 as int == if 65 <= c as u32 <= 90 {
            c as u32 + 32
        } else {
            c as u32 as int
        },
{
    c.to_lowercase().next().unwrap()
}

/// A finite tone: a generator at its first sample, cut after `duration_ms`
/// milliseconds and scaled by `amplitude` hundredths.
#[derive(Clone, Copy, Debug)]
pub struct Tone {
    pub waveform: CustomWaveform,
    pub duration_ms: u64,
    pub amplitude: u32,
}

/// `t` is a fresh tone of the given pitch, shape, length and gain.
pub open spec fn is_tone(t: Tone, frequency: nat, shape: InstrumentType, duration_ms: nat, amplitude: nat) -> bool {
    &&& t.waveform.wf()
    &&& t.waveform.spec_frequency() == frequency
    &&& t.waveform.spec_instrument() == shape
    &&& t.waveform.spec_position() == 0
    &&& t.duration_ms == duration_ms
    &&& t.amplitude == amplitude
}

/// A step of a replay: play `tone`, then wait `wait_ms` milliseconds.
#[derive(Clone, Copy, Debug)]
pub struct Cue {
    pub tone: Tone,
    pub wait_ms: u64,
}

pub struct AudioEngine {
    current_instrument: InstrumentType,
}

impl AudioEngine {
    /// The shape that new tones take.
    pub closed spec fn spec_instrument(&self) -> InstrumentType {
        self.current_instrument
    }

    /// The tone that `play_note(key)` hands out from an engine set to `shape`.
    pub open spec fn is_note_tone(t: Tone, shape: InstrumentType, key: char) -> bool {
        is_tone(t, note_frequency(lowercase_of(key)) as nat, shape, NOTE_DURATION_MS as nat, NOTE_AMPLITUDE as nat)
    }

    /// An engine set to the sine shape.
    pub fn new() -> (r: Self)
        ensures
            r.spec_instrument() == InstrumentType::Sine,
    {
        AudioEngine { current_instrument: InstrumentType::Sine }
    }

    /// Selects the shape of the tones made from now on.
    pub fn change_instrument(&mut self, instrument: InstrumentType)
        ensures
            final(self).spec_instrument() == instrument,
    {
        self.current_instrument = instrument;
    }

    /// The shape that new tones take.
    pub fn current_instrument(&self) -> (r: InstrumentType)
        ensures
            r == self.spec_instrument(),
    {
        self.current_instrument
    }

    /// The pitch of a key already in lowercase: the table's, or the default
    /// for a key it does not hold.
    pub fn lowercase_note_frequency(c: char) -> (r: u32)
        ensures
            r == note_frequency(c),
            r > 0,
    {
        match c {
            'a' => 44000,
            's' => 49388,
            'd' => 52325,
            'f' => 58733,
            'g' => 65925,
            'h' => 69846,
            'j' => 78399,
            'k' => 88000,
            'l' => 98777,
            _ => DEFAULT_FREQUENCY,
        }
    }

    /// The pitch of a key of either case, in hundredths of a hertz; an
    /// unmapped key gets the default pitch.
    pub fn get_note_frequency(key: char) -> (r: u32)
        ensures
            r == note_frequency(lowercase_of(key)),
            (key as u32) < 128 ==> r == ascii_note_frequency(key),
            r > 0,
    {
        let lower = first_lowercase(key);
        Self::lowercase_note_frequency(lower)
    }

    fn make_tone(&self, frequency: u32, duration_ms: u64, amplitude: u32) -> (r: Tone)
        requires
            frequency > 0,
        ensures
            is_tone(r, frequency as nat, self.spec_instrument(), duration_ms as nat, amplitude as nat),
    {
        Tone {
            waveform: CustomWaveform::new(frequency, self.current_instrument),
            duration_ms,
            amplitude,
        }
    }

    /// The tone of one key: its pitch in the current shape, for 150 ms at
    /// gain 0.20.
    pub fn play_note(&self, key: char) -> (r: Tone)
        ensures
            Self::is_note_tone(r, self.spec_instrument(), key),
            (key as u32) < 128 ==> r.waveform.spec_frequency() == ascii_note_frequency(key),
    {
        let frequency = Self::get_note_frequency(key);
        self.make_tone(frequency, NOTE_DURATION_MS, NOTE_AMPLITUDE)
    }

    /// The tones of a chord, one per key in the order given, each as a note
    /// at the lower gain 0.15.
    pub fn play_chord(&self, keys: &[char]) -> (r: Vec<Tone>)
        ensures
            r@.len() == keys@.len(),
            forall|i: int|
                0 <= i < keys@.len() ==> is_tone(
                    #[trigger] r@[i],
                    note_frequency(lowercase_of(keys@[i])) as nat,
                    self.spec_instrument(),
                    NOTE_DURATION_MS as nat,
                    CHORD_AMPLITUDE as nat,
                ),
            forall|i: int|
                0 <= i < keys@.len() && (keys@[i] as u32) < 128 ==> (#[trigger] r@[i]).waveform.spec_frequency()
                    == ascii_note_frequency(keys@[i]),
    {
        let mut r: Vec<Tone> = Vec::new();
        let mut i: usize = 0;
        while i < keys.len()
            invariant
                i <= keys@.len(),
                r@.len() == i,
                forall|j: int|
                    0 <= j < i ==> is_tone(
                        #[trigger] r@[j],
                        note_frequency(lowercase_of(keys@[j])) as nat,
                        self.spec_instrument(),
                        NOTE_DURATION_MS as nat,
                        CHORD_AMPLITUDE as nat,
                    ),
                forall|j: int|
                    0 <= j < i && (keys@[j] as u32) < 128 ==> (#[trigger] r@[j]).waveform.spec_frequency()
                        == ascii_note_frequency(keys@[j]),
            decreases keys@.len() - i,
        {
            let frequency = Self::get_note_frequency(keys[i]);
            r.push(self.make_tone(frequency, NOTE_DURATION_MS, CHORD_AMPLITUDE));
            i = i + 1;
        }
        r
    }

    /// The tone of a drum hit: the drum's pitch and length in the current
    /// shape, at gain 0.30.
    pub fn play_drum(&self, drum: DrumSound) -> (r: Tone)
        ensures
            is_tone(
                r,
                drum_frequency(drum) as nat,
                self.spec_instrument(),
                drum_duration(drum) as nat,
                DRUM_AMPLITUDE as nat,
            ),
    {
        let frequency = drum.frequency();
        let duration = drum.duration();
        self.make_tone(frequency, duration, DRUM_AMPLITUDE)
    }

    /// The replay of a recording: for each note in order, the tone that
    /// `play_note` gives for its key, with a fixed pause of 150 ms between
    /// consecutive notes and none after the last. The recorded times are not
    /// used.
    pub fn play_recording(&self, recording: &[Note]) -> (r: Vec<Cue>)
        ensures
            r@.len() == recording@.len(),
            forall|i: int|
                0 <= i < recording@.len() ==> {
                    &&& Self::is_note_tone(#[trigger] r@[i].tone, self.spec_instrument(), keys_of(recording@)[i])
                    &&& r@[i].wait_ms == if i + 1 < recording@.len() { REPLAY_GAP_MS } else { 0 }
                },
    {
        let mut r: Vec<Cue> = Vec::new();
        let mut i: usize = 0;
        while i < recording.len()
            invariant
                i <= recording@.len(),
                r@.len() == i,
                forall|j: int|
                    0 <= j < i ==> {
                        &&& Self::is_note_tone(#[trigger] r@[j].tone, self.spec_instrument(), keys_of(recording@)[j])
                        &&& r@[j].wait_ms == if j + 1 < recording@.len() { REPLAY_GAP_MS } else { 0 }
                    },
            decreases recording@.len() - i,
        {
            let tone = self.play_note(recording[i].key);
            let wait_ms = if i + 1 < recording.len() { REPLAY_GAP_MS } else { 0 };
            let ghost before = r@;
            r.push(Cue { tone, wait_ms });
            assert(forall|j: int| 0 <= j < i ==> r@[j] == before[j]);
            assert(r@[i as int].wait_ms == if i + 1 < recording@.len() { REPLAY_GAP_MS } else { 0 });
            i = i + 1;
        }
        r
    }
}

/// A change of instrument leaves the tones made before it as they were. Let
/// `after` be the engine once `change_instrument(shape)` has run on `before`,
/// so that it holds `shape`, as that call ensures. A note made from `before`
/// still hands out, at every position, the samples of `before`'s shape; the
/// same note made from `after` hands out those of `shape`.
pub proof fn lemma_change_keeps_made_tones(
    before: AudioEngine,
    after: AudioEngine,
    shape: InstrumentType,
    key: char,
    made_before: Tone,
    made_after: Tone,
    position: nat,
)
    requires
        after.spec_instrument() == shape,
        AudioEngine::is_note_tone(made_before, before.spec_instrument(), key),
        AudioEngine::is_note_tone(made_after, after.spec_instrument(), key),
    ensures
        made_before.waveform.spec_instrument() == before.spec_instrument(),
        sample_at(made_before.waveform.spec_frequency(), made_before.waveform.spec_instrument(), position)
            == sample_at(note_frequency(lowercase_of(key)) as nat, before.spec_instrument(), position),
        made_after.waveform.spec_instrument() == shape,
        sample_at(made_after.waveform.spec_frequency(), made_after.waveform.spec_instrument(), position)
            == sample_at(note_frequency(lowercase_of(key)) as nat, shape, position),
        shape != before.spec_instrument() ==> made_before.waveform.spec_instrument()
            != made_after.waveform.spec_instrument(),
{
}

} // verus!
