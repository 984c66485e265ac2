//! The melody player: it holds a pattern of notes and durations, proposed by
//! a text-generation service, and hands its notes out one at a time, each
//! once the previous note's duration has passed, starting over at the end.

use crate::clock::{nanos_between, now};
use crate::reply_text::{find_json_span, json_span};
use google_generative_ai_rs::v1::api::Client;
use google_generative_ai_rs::v1::gemini::{Model, ResponseType};
use std::time::{Duration, Instant};
use vstd::prelude::*;

verus! {

#[verifier::external_type_specification]
#[verifier::external_body]
pub struct ExClient(Client);

/// Shortest duration of a note that a pattern may hold, in milliseconds.
pub const MIN_NOTE_MS: u64 = 200;

/// Longest duration of a note that a pattern may hold, in milliseconds.
pub const MAX_NOTE_MS: u64 = 800;

/// Nanoseconds in a millisecond.
pub const NANOS_PER_MILLI: u128 = 1_000_000;

/// A melody: notes, the duration of each in milliseconds, and the mood it
/// was asked for.
#[derive(Clone, Debug)]
pub struct MelodyPattern {
    pub notes: Vec<char>,
    pub durations: Vec<u64>,
    pub mood: String,
}

/// The keys a melody may use.
pub open spec fn is_melody_key(c: char) -> bool {
    c == 'a' || c == 's' || c == 'd' || c == 'f' || c == 'g' || c == 'h' || c == 'j' || c == 'k' || c == 'l'
}

/// A pattern is playable when every note has a duration, every note is a
/// melody key and every duration lies within the allowed range.
pub open spec fn is_playable(notes: Seq<char>, durations: Seq<u64>) -> bool {
    &&& notes.len() == durations.len()
    &&& forall|i: int| 0 <= i < notes.len() ==> is_melody_key(#[trigger] notes[i])
    &&& forall|i: int| 0 <= i < durations.len() ==> MIN_NOTE_MS <= #[trigger] durations[i] <= MAX_NOTE_MS
}

/// The `Duration` of `ms` milliseconds.
pub uninterp spec fn duration_of_millis(ms: u64) -> Duration;

/// Relies on `Duration::from_millis`: the duration of `ms` milliseconds.
#[verifier::external_body]
fn millis(ms: u64) -> (r: Duration)
    ensures
        r == duration_of_millis(ms),
{
    Duration::from_millis(ms)
}

/// Relies on `Client::new_from_model_response_type`: a client of the Gemini
/// 1.0 Pro model that asks for whole (not streamed) responses.
#[verifier::external_body]
fn new_client(api_key: &str) -> (r: Client) {
    Client::new_from_model_response_type(
        Model::Gemini1_0Pro,
        api_key.to_string(),
        ResponseType::GenerateContent,
    )
}

/// The text of the JSON value that `text` holds, written back compactly, or
/// none where `text` is not JSON.
pub uninterp spec fn compact_json_of(text: Seq<char>) -> Option<Seq<char>>;

/// Relies on `serde_json::from_str::<serde_json::Value>` and on the value's
/// `to_string`: the value parsed and written back without whitespace, or none
/// where `text` does not parse.
#[verifier::external_body]
fn compact_json(text: &Vec<char>) -> (r: Option<String>)
    ensures
        match r {
            Some(s) => compact_json_of(text@) == Some(s@),
            None => compact_json_of(text@) is None,
        },
{
    let s: String = text.iter().collect();
    match serde_json::from_str::<serde_json::Value>(&s) {
        Ok(v) => Some(v.to_string()),
        Err(_) => None,
    }
}

impl MelodyPattern {
    /// Whether the pattern is playable.
    pub fn is_valid(&self) -> (r: bool)
        ensures
            r == is_playable(self.notes@, self.durations@),
    {
        if self.notes.len() != self.durations.len() {
            return false;
        }
        let mut i: usize = 0;
        while i < self.notes.len()
            invariant
                i <= self.notes@.len(),
                self.notes@.len() == self.durations@.len(),
                forall|j: int| 0 <= j < i ==> is_melody_key(#[trigger] self.notes@[j]),
                forall|j: int| 0 <= j < i ==> MIN_NOTE_MS <= #[trigger] self.durations@[j] <= MAX_NOTE_MS,
            decreases self.notes@.len() - i,
        {
            let c = self.notes[i];
            let d = self.durations[i];
            if !(c == 'a' || c == 's' || c == 'd' || c == 'f' || c == 'g' || c == 'h' || c == 'j' || c == 'k'
                || c == 'l') {
                return false;
            }
            if !(MIN_NOTE_MS <= d && d <= MAX_NOTE_MS) {
                return false;
            }
            i = i + 1;
        }
        true
    }
}

pub struct GeminiPlayer {
    client: Client,
    current_pattern: Option<MelodyPattern>,
    last_note_time: Instant,
    pattern_index: usize,
}

impl GeminiPlayer {
    /// The notes of the pattern held, if any.
    pub closed spec fn spec_notes(&self) -> Option<Seq<char>> {
        match self.current_pattern {
            Some(p) => Some(p.notes@),
            None => None,
        }
    }

    /// The durations of the pattern held, if any.
    pub closed spec fn spec_durations(&self) -> Seq<u64> {
        match self.current_pattern {
            Some(p) => p.durations@,
            None => Seq::empty(),
        }
    }

    /// How many notes of the current round have been handed out.
    pub closed spec fn spec_index(&self) -> usize {
        self.pattern_index
    }

    /// When the last note was handed out.
    pub closed spec fn spec_last_note_time(&self) -> Instant {
        self.last_note_time
    }

    /// A pattern held is playable, and the position lies within it.
    pub open spec fn wf(&self) -> bool {
        match self.spec_notes() {
            Some(notes) => is_playable(notes, self.spec_durations()) && self.spec_index() <= notes.len(),
            None => self.spec_index() == 0,
        }
    }

    /// A player that talks to the service with `api_key` and holds no
    /// pattern yet.
    pub fn new(api_key: &str) -> (r: Self)
        ensures
            r.wf(),
            r.spec_notes().is_none(),
    {
        GeminiPlayer {
            client: new_client(api_key),
            current_pattern: None,
            last_note_time: now(),
            pattern_index: 0,
        }
    }

    /// The JSON object in a reply of the service, written compactly: the
    /// span from the first `{` to the last `}` of the cleaned reply (see
    /// `json_span`), when there is one and it parses as JSON.
    pub fn extract_json(text: &str) -> (r: Option<String>)
        ensures
            match json_span(text@) {
                None => r is None,
                Some(span) => match r {
                    Some(s) => compact_json_of(span) == Some(s@),
                    None => compact_json_of(span) is None,
                },
            },
    {
        match find_json_span(text) {
            Some(span) => compact_json(&span),
            None => None,
        }
    }

    /// The client that reaches the service.
    pub fn client(&self) -> &Client {
        &self.client
    }

    /// Takes `pattern` as the melody, from its first note, when it is
    /// playable; keeps the current one otherwise.
    pub fn accept_pattern(&mut self, pattern: MelodyPattern) -> (r: bool)
        requires
            old(self).wf(),
        ensures
            final(self).wf(),
            r == is_playable(pattern.notes@, pattern.durations@),
            r ==> final(self).spec_notes() == Some(pattern.notes@) && final(self).spec_durations()
                == pattern.durations@ && final(self).spec_index() == 0,
            !r ==> final(self).spec_notes() == old(self).spec_notes() && final(self).spec_durations()
                == old(self).spec_durations() && final(self).spec_index() == old(self).spec_index(),
    {
        if pattern.is_valid() {
            self.current_pattern = Some(pattern);
            self.pattern_index = 0;
            true
        } else {
            false
        }
    }

    /// Whether a melody is held.
    pub fn has_pattern(&self) -> (r: bool)
        ensures
            r == self.spec_notes().is_some(),
    {
        self.current_pattern.is_some()
    }

    /// The next note, as of now, and how long it lasts (see
    /// `next_note_at`). At the start of a round, and after its last note, the
    /// first note of the pattern comes at once; any other comes once the clock
    /// shows that the previous note's duration has passed.
    pub fn get_next_note(&mut self) -> (r: Option<(char, Duration)>)
        requires
            old(self).wf(),
        ensures
            final(self).wf(),
            final(self).spec_notes() == old(self).spec_notes(),
            final(self).spec_durations() == old(self).spec_durations(),
            old(self).spec_notes().is_none() ==> r.is_none(),
            r.is_none() ==> final(self).spec_last_note_time() == old(self).spec_last_note_time(),
            old(self).spec_notes().is_some() && old(self).spec_notes().unwrap().len() > 0 && (
            old(self).spec_index() == 0 || old(self).spec_index() >= old(self).spec_notes().unwrap().len())
                ==> r == Some((old(self).spec_notes().unwrap()[0], duration_of_millis(old(self).spec_durations()[0])))
                && final(self).spec_index() == 1,
            r matches Some((c, d)) ==> exists|i: int|
                0 <= i < old(self).spec_durations().len() && old(self).spec_notes().unwrap()[i] == c
                    && d == duration_of_millis(#[trigger] old(self).spec_durations()[i]),
    {
        let t = now();
        let since_last = nanos_between(&t, &self.last_note_time);
        self.next_note_at(t, since_last)
    }

    /// The next note at moment `t`, `since_last` nanoseconds after the last
    /// note was handed out. After the last note of the pattern the melody
    /// starts over. The first note of a round is handed out at once; any
    /// other once the previous note's duration has passed. A note handed out
    /// comes with its duration, and `t` becomes the time of the last note.
    pub fn next_note_at(&mut self, t: Instant, since_last: u128) -> (r: Option<(char, Duration)>)
        requires
            old(self).wf(),
        ensures
            final(self).wf(),
            final(self).spec_notes() == old(self).spec_notes(),
            final(self).spec_durations() == old(self).spec_durations(),
            match old(self).spec_notes() {
                None => {
                    &&& r.is_none()
                    &&& final(self).spec_index() == 0
                    &&& final(self).spec_last_note_time() == old(self).spec_last_note_time()
                },
                Some(notes) => {
                    let durations = old(self).spec_durations();
                    let i = if old(self).spec_index() >= notes.len() { 0 } else { old(self).spec_index() as int };
                    if notes.len() == 0 {
                        &&& r.is_none()
                        &&& final(self).spec_index() == 0
                        &&& final(self).spec_last_note_time() == old(self).spec_last_note_time()
                    } else if i == 0 || since_last >= durations[i - 1] as u128 * NANOS_PER_MILLI {
                        &&& r == Some((notes[i], duration_of_millis(durations[i])))
                        &&& final(self).spec_index() == i + 1
                        &&& final(self).spec_last_note_time() == t
                    } else {
                        &&& r.is_none()
                        &&& final(self).spec_index() == old(self).spec_index()
                        &&& final(self).spec_last_note_time() == old(self).spec_last_note_time()
                    }
                },
            },
    {
        match &self.current_pattern {
            None => None,
            Some(pattern) => {
                let len = pattern.notes.len();
                if self.pattern_index >= len {
                    self.pattern_index = 0;
                }
                if len == 0 {
                    return None;
                }
                let i = self.pattern_index;
                if i == 0 || since_last >= (pattern.durations[i - 1] as u128) * NANOS_PER_MILLI {
                    let note = pattern.notes[i];
                    let duration = millis(pattern.durations[i]);
                    self.pattern_index = i + 1;
                    self.last_note_time = t;
                    Some((note, duration))
                } else {
                    None
                }
            },
        }
    }
}

} // verus!
