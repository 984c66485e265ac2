//! The recorder: a log of the keys played while recording is on, each with
//! the time since recording started.

use crate::clock::{elapsed_since, now};
use std::time::{Duration, Instant};
use vstd::prelude::*;

verus! {

/// A key played, and when, counted from the start of the recording.
#[derive(Clone, Copy, Debug)]
pub struct Note {
    pub key: char,
    pub timestamp: Duration,
}

/// The keys of a sequence of notes, in order.
pub open spec fn keys_of(notes: Seq<Note>) -> Seq<char> {
    notes.map_values(|n: Note| n.key)
}

pub struct Recorder {
    pub recording: Vec<Note>,
    pub is_recording: bool,
    start_time: Option<Instant>,
}

impl Recorder {
    /// The notes recorded, in order.
    pub closed spec fn spec_recording(&self) -> Seq<Note> {
        self.recording@
    }

    pub closed spec fn spec_is_recording(&self) -> bool {
        self.is_recording
    }

    /// Whether the recorder holds a start time, so that notes are taken.
    pub closed spec fn is_started(&self) -> bool {
        self.start_time.is_some()
    }

    /// An empty recorder that is not recording.
    pub fn new() -> (r: Self)
        ensures
            r.spec_recording().len() == 0,
            !r.spec_is_recording(),
            !r.is_started(),
    {
        Recorder { recording: Vec::new(), is_recording: false, start_time: None }
    }

    /// Forgets the previous recording and starts a new one now.
    pub fn start_recording(&mut self)
        ensures
            final(self).spec_recording().len() == 0,
            final(self).spec_is_recording(),
            final(self).is_started(),
    {
        self.recording.clear();
        self.is_recording = true;
        self.start_time = Some(now());
    }

    /// Stops taking notes; the recording stays.
    pub fn stop_recording(&mut self)
        ensures
            final(self).spec_recording() == old(self).spec_recording(),
            !final(self).spec_is_recording(),
            !final(self).is_started(),
    {
        self.is_recording = false;
        self.start_time = None;
    }

    /// Appends `key`, with the time since recording started, while
    /// recording; does nothing otherwise.
    pub fn record_note(&mut self, key: char)
        ensures
            final(self).spec_is_recording() == old(self).spec_is_recording(),
            final(self).is_started() == old(self).is_started(),
            old(self).is_started() ==> {
                &&& final(self).spec_recording().len() == old(self).spec_recording().len() + 1
                &&& final(self).spec_recording().drop_last() == old(self).spec_recording()
                &&& final(self).spec_recording().last().key == key
            },
            !old(self).is_started() ==> final(self).spec_recording() == old(self).spec_recording(),
    {
        match &self.start_time {
            Some(start) => {
                let timestamp = elapsed_since(start);
                self.record_note_at(key, timestamp);
            },
            None => {},
        }
    }

    /// Appends `key` with the given time while recording; does nothing
    /// otherwise.
    pub fn record_note_at(&mut self, key: char, timestamp: Duration)
        ensures
            final(self).spec_is_recording() == old(self).spec_is_recording(),
            final(self).is_started() == old(self).is_started(),
            final(self).spec_recording() == if old(self).is_started() {
                old(self).spec_recording().push(Note { key, timestamp })
            } else {
                old(self).spec_recording()
            },
    {
        if self.start_time.is_some() {
            self.recording.push(Note { key, timestamp });
        }
    }

    /// The notes recorded, in the order they were played.
    pub fn get_recording(&self) -> (r: &Vec<Note>)
        ensures
            r@ == self.spec_recording(),
    {
        &self.recording
    }
}

} // verus!
