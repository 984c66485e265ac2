//! The drum pad: five percussion sounds, each with a fixed pitch and length,
//! reached from five keys while drum mode is on.

use std::collections::HashMap;
use vstd::prelude::*;

verus! {

broadcast use vstd::std_specs::hash::group_hash_axioms;

/// A percussion sound.
#[derive(Clone, Copy, Debug, PartialEq, Eq, Structural)]
pub enum DrumSound {
    Kick,
    Snare,
    HiHat,
    Clap,
    Cymbal,
}

/// Pitch of each drum, in hundredths of a hertz.
pub open spec fn drum_frequency(d: DrumSound) -> u32 {
    match d {
        DrumSound::Kick => 6000,
        DrumSound::Snare => 20000,
        DrumSound::HiHat => 100000,
        DrumSound::Clap => 30000,
        DrumSound::Cymbal => 80000,
    }
}

/// Length of each drum hit, in milliseconds.
pub open spec fn drum_duration(d: DrumSound) -> u64 {
    match d {
        DrumSound::Kick => 150,
        DrumSound::Snare => 100,
        DrumSound::HiHat => 50,
        DrumSound::Clap => 80,
        DrumSound::Cymbal => 200,
    }
}

/// The drum that a key plays in drum mode, if any.
pub open spec fn drum_for_key(key: char) -> Option<DrumSound> {
    match key {
        'z' => Some(DrumSound::Kick),
        'x' => Some(DrumSound::Snare),
        'c' => Some(DrumSound::HiHat),
        'v' => Some(DrumSound::Clap),
        'b' => Some(DrumSound::Cymbal),
        _ => None,
    }
}

impl DrumSound {
    /// The pitch, in hundredths of a hertz: low for the kick, high for the
    /// hi-hat.
    pub fn frequency(&self) -> (r: u32)
        ensures
            r == drum_frequency(*self),
            r > 0,
    {
        match self {
            DrumSound::Kick => 6000,
            DrumSound::Snare => 20000,
            DrumSound::HiHat => 100000,
            DrumSound::Clap => 30000,
            DrumSound::Cymbal => 80000,
        }
    }

    /// The length of a hit, in milliseconds.
    pub fn duration(&self) -> (r: u64)
        ensures
            r == drum_duration(*self),
            r > 0,
    {
        match self {
            DrumSound::Kick => 150,
            DrumSound::Snare => 100,
            DrumSound::HiHat => 50,
            DrumSound::Clap => 80,
            DrumSound::Cymbal => 200,
        }
    }
}

/// The drum pad's state. `sounds` maps the code point of each drum key to
/// its sound; `active_beats` holds the keys hit since drum mode last changed.
pub struct DrumPad {
    pub sounds: HashMap<u32, DrumSound>,
    pub is_drum_mode: bool,
    pub active_beats: Vec<char>,
}

impl DrumPad {
    /// The pad holds exactly the five drum keys.
    pub open spec fn wf(&self) -> bool {
        &&& forall|c: char| #[trigger]
            self.sounds@.contains_key(c as u32) == drum_for_key(c).is_some()
        &&& forall|c: char|
            drum_for_key(c).is_some() ==> #[trigger] self.sounds@[c as u32] == drum_for_key(
                c,
            ).unwrap()
    }

    /// A pad with the five drum keys, out of drum mode, with no beats.
    pub fn new() -> (r: Self)
        ensures
            r.sounds@ == map![
                'z' as u32 => DrumSound::Kick,
                'x' as u32 => DrumSound::Snare,
                'c' as u32 => DrumSound::HiHat,
                'v' as u32 => DrumSound::Clap,
                'b' as u32 => DrumSound::Cymbal,
            ],
            r.wf(),
            !r.is_drum_mode,
            r.active_beats@.len() == 0,
    {
        let mut sounds: HashMap<u32, DrumSound> = HashMap::new();
        sounds.insert('z' as u32, DrumSound::Kick);
        sounds.insert('x' as u32, DrumSound::Snare);
        sounds.insert('c' as u32, DrumSound::HiHat);
        sounds.insert('v' as u32, DrumSound::Clap);
        sounds.insert('b' as u32, DrumSound::Cymbal);
        let r = DrumPad { sounds, is_drum_mode: false, active_beats: Vec::new() };
        proof {
            assert(r.sounds@ =~= map![
                'z' as u32 => DrumSound::Kick,
                'x' as u32 => DrumSound::Snare,
                'c' as u32 => DrumSound::HiHat,
                'v' as u32 => DrumSound::Clap,
                'b' as u32 => DrumSound::Cymbal,
            ]);
            assert forall|c: char| #[trigger]
                r.sounds@.contains_key(c as u32) == drum_for_key(c).is_some() by {
                if r.sounds@.contains_key(c as u32) {
                    assert(c as u32 == 'z' as u32 || c as u32 == 'x' as u32 || c as u32 == 'c' as u32
                        || c as u32 == 'v' as u32 || c as u32 == 'b' as u32);
                }
            }
        }
        r
    }

    /// Switches drum mode on or off and forgets the beats hit so far.
    pub fn toggle_mode(&mut self)
        ensures
            final(self).is_drum_mode == !old(self).is_drum_mode,
            final(self).active_beats@.len() == 0,
            final(self).sounds@ == old(self).sounds@,
            old(self).wf() ==> final(self).wf(),
    {
        self.is_drum_mode = !self.is_drum_mode;
        self.active_beats.clear();
    }

    /// The drum that `key` plays: none out of drum mode or for a key that
    /// the pad does not map.
    pub fn hit_drum(&self, key: char) -> (r: Option<DrumSound>)
        ensures
            !self.is_drum_mode ==> r.is_none(),
            self.is_drum_mode ==> r == (if self.sounds@.contains_key(key as u32) {
                Some(self.sounds@[key as u32])
            } else {
                None::<DrumSound>
            }),
            self.wf() && self.is_drum_mode ==> r == drum_for_key(key),
    {
        if self.is_drum_mode {
            match self.sounds.get(&(key as u32)) {
                Some(d) => Some(*d),
                None => None,
            }
        } else {
            None
        }
    }
}

} // verus!
