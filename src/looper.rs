//! The looper: up to a fixed number of loops, each a list of timed keys
//! recorded one after the other, each of which can be switched on and off or
//! cleared.

use crate::clock::{elapsed_since, now};
use std::time::{Duration, Instant};
use vstd::prelude::*;

verus! {

/// A recorded loop: its timed keys, the instrument it was last recorded
/// with, and whether it plays.
#[derive(Clone, Debug)]
pub struct Loop {
    pub notes: Vec<(char, Duration)>,
    pub instrument: String,
    pub is_active: bool,
}

/// Number of loops a new looper allows.
pub const MAX_LOOPS: usize = 4;

pub struct Looper {
    pub loops: Vec<Loop>,
    pub is_recording: bool,
    pub current_loop: usize,
    start_time: Option<Instant>,
    pub max_loops: usize,
}

impl Looper {
    /// The loops, in order.
    pub closed spec fn spec_loops(&self) -> Seq<Loop> {
        self.loops@
    }

    pub closed spec fn spec_is_recording(&self) -> bool {
        self.is_recording
    }

    /// The loop that recording goes into.
    pub closed spec fn spec_current_loop(&self) -> usize {
        self.current_loop
    }

    /// When recording started, while it goes on.
    pub closed spec fn spec_start_time(&self) -> Option<Instant> {
        self.start_time
    }

    /// How many loops the looper allows.
    pub closed spec fn spec_max_loops(&self) -> usize {
        self.max_loops
    }

    /// A looper with no loops, not recording, at the first loop.
    pub fn new() -> (r: Self)
        ensures
            r.spec_loops().len() == 0,
            !r.spec_is_recording(),
            r.spec_current_loop() == 0,
            r.spec_start_time().is_none(),
            r.spec_max_loops() == MAX_LOOPS,
    {
        Looper {
            loops: Vec::new(),
            is_recording: false,
            current_loop: 0,
            start_time: None,
            max_loops: MAX_LOOPS,
        }
    }

    /// Starts recording into the current loop now; where the current loop
    /// does not exist yet, an empty active loop with the default instrument
    /// is added for it.
    pub fn start_recording(&mut self)
        ensures
            final(self).spec_is_recording(),
            final(self).spec_start_time().is_some(),
            final(self).spec_current_loop() == old(self).spec_current_loop(),
            final(self).spec_max_loops() == old(self).spec_max_loops(),
            old(self).spec_current_loop() < old(self).spec_loops().len() ==> final(self).spec_loops() == old(self).spec_loops(),
            old(self).spec_current_loop() >= old(self).spec_loops().len() ==> {
                &&& final(self).spec_loops().drop_last() == old(self).spec_loops()
                &&& final(self).spec_loops().len() == old(self).spec_loops().len() + 1
                &&& final(self).spec_loops().last().notes@.len() == 0
                &&& final(self).spec_loops().last().instrument@ == "Default"@
                &&& final(self).spec_loops().last().is_active
            },
    {
        self.is_recording = true;
        self.start_time = Some(now());
        if self.current_loop >= self.loops.len() {
            let instrument = "Default".to_owned();
            proof {
                reveal_strlit("Default");
            }
            self.loops.push(Loop { notes: Vec::new(), instrument, is_active: true });
        }
    }

    /// Stops recording and moves on to the next loop, unless the current
    /// one is the last allowed.
    pub fn stop_recording(&mut self)
        requires
            old(self).spec_max_loops() > 0,
        ensures
            !final(self).spec_is_recording(),
            final(self).spec_start_time().is_none(),
            final(self).spec_loops() == old(self).spec_loops(),
            final(self).spec_max_loops() == old(self).spec_max_loops(),
            final(self).spec_current_loop() == if old(self).spec_current_loop() < old(self).spec_max_loops() - 1 {
                old(self).spec_current_loop() + 1
            } else {
                old(self).spec_current_loop() as int
            },
    {
        self.is_recording = false;
        self.start_time = None;
        if self.current_loop < self.max_loops - 1 {
            self.current_loop += 1;
        }
    }

    /// While recording, appends `key` with the time since recording started
    /// to the current loop, if it exists, and sets the loop's instrument.
    pub fn record_note(&mut self, key: char, instrument: &str)
        ensures
            old(self).spec_start_time().is_none() ==> final(self).spec_loops() == old(self).spec_loops(),
            old(self).spec_start_time().is_some() && old(self).spec_current_loop() < old(self).spec_loops().len() ==> {
                let i = old(self).spec_current_loop() as int;
                &&& final(self).spec_loops().len() == old(self).spec_loops().len()
                &&& forall|j: int| 0 <= j < old(self).spec_loops().len() && j != i ==> #[trigger] final(self).spec_loops()[j] == old(self).spec_loops()[j]
                &&& final(self).spec_loops()[i].instrument@ == instrument@
                &&& final(self).spec_loops()[i].notes@.drop_last() == old(self).spec_loops()[i].notes@
                &&& final(self).spec_loops()[i].notes@.len() == old(self).spec_loops()[i].notes@.len() + 1
                &&& final(self).spec_loops()[i].notes@.last().0 == key
                &&& final(self).spec_loops()[i].is_active == old(self).spec_loops()[i].is_active
            },
            old(self).spec_current_loop() >= old(self).spec_loops().len() ==> final(self).spec_loops() == old(self).spec_loops(),
            final(self).spec_current_loop() == old(self).spec_current_loop(),
            final(self).spec_start_time() == old(self).spec_start_time(),
            final(self).spec_is_recording() == old(self).spec_is_recording(),
            final(self).spec_max_loops() == old(self).spec_max_loops(),
    {
        match &self.start_time {
            Some(start) => {
                let elapsed = elapsed_since(start);
                self.record_note_at(key, instrument, elapsed);
            },
            None => {},
        }
    }

    /// While recording, appends `key` with the given time to the current
    /// loop, if it exists, and sets the loop's instrument.
    pub fn record_note_at(&mut self, key: char, instrument: &str, elapsed: Duration)
        ensures
            old(self).spec_start_time().is_none() ==> final(self).spec_loops() == old(self).spec_loops(),
            old(self).spec_start_time().is_some() && old(self).spec_current_loop() < old(self).spec_loops().len() ==> {
                let i = old(self).spec_current_loop() as int;
                &&& final(self).spec_loops().len() == old(self).spec_loops().len()
                &&& forall|j: int| 0 <= j < old(self).spec_loops().len() && j != i ==> #[trigger] final(self).spec_loops()[j] == old(self).spec_loops()[j]
                &&& final(self).spec_loops()[i].instrument@ == instrument@
                &&& final(self).spec_loops()[i].notes@ == old(self).spec_loops()[i].notes@.push((key, elapsed))
                &&& final(self).spec_loops()[i].is_active == old(self).spec_loops()[i].is_active
            },
            old(self).spec_current_loop() >= old(self).spec_loops().len() ==> final(self).spec_loops() == old(self).spec_loops(),
            final(self).spec_current_loop() == old(self).spec_current_loop(),
            final(self).spec_start_time() == old(self).spec_start_time(),
            final(self).spec_is_recording() == old(self).spec_is_recording(),
            final(self).spec_max_loops() == old(self).spec_max_loops(),
    {
        if self.start_time.is_some() && self.current_loop < self.loops.len() {
            let track = &mut self.loops[self.current_loop];
            track.instrument = instrument.to_owned();
            track.notes.push((key, elapsed));
        }
    }

    /// Switches the loop at `index` on or off; does nothing where there is
    /// no such loop.
    pub fn toggle_loop(&mut self, index: usize)
        ensures
            final(self).spec_loops().len() == old(self).spec_loops().len(),
            forall|j: int| 0 <= j < old(self).spec_loops().len() && j != index ==> #[trigger] final(self).spec_loops()[j] == old(self).spec_loops()[j],
            index < old(self).spec_loops().len() ==> {
                &&& final(self).spec_loops()[index as int].is_active == !old(self).spec_loops()[index as int].is_active
                &&& final(self).spec_loops()[index as int].notes@ == old(self).spec_loops()[index as int].notes@
                &&& final(self).spec_loops()[index as int].instrument@ == old(self).spec_loops()[index as int].instrument@
            },
            final(self).spec_current_loop() == old(self).spec_current_loop(),
            final(self).spec_is_recording() == old(self).spec_is_recording(),
            final(self).spec_start_time() == old(self).spec_start_time(),
            final(self).spec_max_loops() == old(self).spec_max_loops(),
    {
        if index < self.loops.len() {
            let track = &mut self.loops[index];
            track.is_active = !track.is_active;
        }
    }

    /// Removes the loop at `index`, if there is one; the current loop then
    /// stays within the loops left (at zero where none is left).
    pub fn clear_loop(&mut self, index: usize)
        ensures
            index < old(self).spec_loops().len() ==> {
                &&& final(self).spec_loops() == old(self).spec_loops().remove(index as int)
                &&& final(self).spec_current_loop() == if old(self).spec_current_loop() >= final(self).spec_loops().len() {
                    if final(self).spec_loops().len() == 0 { 0 } else { final(self).spec_loops().len() - 1 }
                } else {
                    old(self).spec_current_loop() as int
                }
            },
            index >= old(self).spec_loops().len() ==> {
                &&& final(self).spec_loops() == old(self).spec_loops()
                &&& final(self).spec_current_loop() == old(self).spec_current_loop()
            },
            final(self).spec_is_recording() == old(self).spec_is_recording(),
            final(self).spec_start_time() == old(self).spec_start_time(),
            final(self).spec_max_loops() == old(self).spec_max_loops(),
    {
        if index < self.loops.len() {
            self.loops.remove(index);
            if self.current_loop >= self.loops.len() {
                self.current_loop = self.loops.len().saturating_sub(1);
            }
        }
    }
}

} // verus!
