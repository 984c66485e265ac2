//! The on-screen keyboard: nine keys, each with a note name and a pitch,
//! lit while pressed and released once held for longer than 150 ms.

use crate::audio::note_frequency;
use crate::clock::{nanos_between, now};
use std::time::Instant;
use vstd::prelude::*;

verus! {

/// How long a key stays lit after a press, in nanoseconds.
pub const HOLD_NANOS: u128 = 150_000_000;

/// A key of the keyboard. `frequency` is in hundredths of a hertz.
#[derive(Clone, Debug)]
pub struct Key {
    pub symbol: char,
    pub note: String,
    pub frequency: u32,
    pub is_pressed: bool,
    pub press_time: Option<Instant>,
}

/// The keys of the keyboard, in order.
pub open spec fn key_symbols() -> Seq<char> {
    seq!['a', 's', 'd', 'f', 'g', 'h', 'j', 'k', 'l']
}

/// The note name of each key.
pub open spec fn note_name(c: char) -> Seq<char> {
    match c {
        'a' => "A4"@,
        's' => "B4"@,
        'd' => "C4"@,
        'f' => "D4"@,
        'g' => "E4"@,
        'h' => "F4"@,
        'j' => "G4"@,
        'k' => "A5"@,
        _ => "B5"@,
    }
}

/// Whether the key with symbol `c` is in `keys` and pressed.
pub open spec fn is_pressed_in(keys: Seq<Key>, c: char) -> bool {
    exists|i: int| 0 <= i < keys.len() && (#[trigger] keys[i]).symbol == c && keys[i].is_pressed
}

/// The symbols of `s` whose keys are pressed in `keys`, in order.
pub open spec fn pressed_only(s: Seq<char>, keys: Seq<Key>) -> Seq<char>
    decreases s.len(),
{
    if s.len() == 0 {
        s
    } else {
        let rest = pressed_only(s.drop_last(), keys);
        if is_pressed_in(keys, s.last()) {
            rest.push(s.last())
        } else {
            rest
        }
    }
}

fn make_key(symbol: char, note: &str, frequency: u32) -> (r: Key)
    ensures
        r.symbol == symbol,
        r.note@ == note@,
        r.frequency == frequency,
        !r.is_pressed,
        r.press_time.is_none(),
{
    Key { symbol, note: note.to_owned(), frequency, is_pressed: false, press_time: None }
}

fn contains_char(v: &Vec<char>, c: char) -> (r: bool)
    ensures
        r == v@.contains(c),
{
    let mut i: usize = 0;
    while i < v.len()
        invariant
            i <= v@.len(),
            forall|j: int| 0 <= j < i ==> v@[j] != c,
        decreases v@.len() - i,
    {
        if v[i] == c {
            return true;
        }
        i = i + 1;
    }
    false
}

pub struct Keyboard {
    pub keys: Vec<Key>,
    pub active_keys: Vec<char>,
}

impl Keyboard {
    /// No two keys share a symbol.
    pub open spec fn wf(&self) -> bool {
        forall|i: int, j: int|
            0 <= i < j < self.keys@.len() ==> (#[trigger] self.keys@[i]).symbol != (#[trigger] self.keys@[j]).symbol
    }

    /// The nine keys, none pressed, with their note names and pitches.
    pub fn new() -> (r: Self)
        ensures
            r.wf(),
            r.keys@.map_values(|k: Key| k.symbol) == key_symbols(),
            forall|i: int|
                0 <= i < r.keys@.len() ==> {
                    &&& (#[trigger] r.keys@[i]).note@ == note_name(r.keys@[i].symbol)
                    &&& r.keys@[i].frequency == note_frequency(r.keys@[i].symbol)
                    &&& !r.keys@[i].is_pressed
                    &&& r.keys@[i].press_time.is_none()
                },
            r.active_keys@.len() == 0,
    {
        proof {
            reveal_strlit("A4");
            reveal_strlit("B4");
            reveal_strlit("C4");
            reveal_strlit("D4");
            reveal_strlit("E4");
            reveal_strlit("F4");
            reveal_strlit("G4");
            reveal_strlit("A5");
            reveal_strlit("B5");
        }
        let mut keys: Vec<Key> = Vec::new();
        keys.push(make_key('a', "A4", 44000));
        keys.push(make_key('s', "B4", 49388));
        keys.push(make_key('d', "C4", 52325));
        keys.push(make_key('f', "D4", 58733));
        keys.push(make_key('g', "E4", 65925));
        keys.push(make_key('h', "F4", 69846));
        keys.push(make_key('j', "G4", 78399));
        keys.push(make_key('k', "A5", 88000));
        keys.push(make_key('l', "B5", 98777));
        let r = Keyboard { keys, active_keys: Vec::new() };
        assert(r.keys@.map_values(|k: Key| k.symbol) =~= key_symbols());
        r
    }

    /// Whether no two keys share a symbol.
    pub fn has_unique_symbols(&self) -> (r: bool)
        ensures
            r == self.wf(),
    {
        let n = self.keys.len();
        let mut i: usize = 0;
        while i < n
            invariant
                n == self.keys@.len(),
                i <= n,
                forall|a: int, b: int| 0 <= a < b < n && a < i ==> (#[trigger] self.keys@[a]).symbol != (#[trigger] self.keys@[b]).symbol,
            decreases n - i,
        {
            let mut j: usize = i + 1;
            while j < n
                invariant
                    n == self.keys@.len(),
                    i < n,
                    i < j <= n,
                    forall|a: int, b: int| 0 <= a < b < n && a < i ==> (#[trigger] self.keys@[a]).symbol != (#[trigger] self.keys@[b]).symbol,
                    forall|b: int| i < b < j ==> self.keys@[i as int].symbol != (#[trigger] self.keys@[b]).symbol,
                decreases n - j,
            {
                if self.keys[i].symbol == self.keys[j].symbol {
                    return false;
                }
                j = j + 1;
            }
            i = i + 1;
        }
        true
    }

    /// The index of the key with symbol `c`, if there is one.
    fn find_key(&self, c: char) -> (r: Option<usize>)
        ensures
            match r {
                Some(i) => i < self.keys@.len() && self.keys@[i as int].symbol == c,
                None => forall|j: int| 0 <= j < self.keys@.len() ==> (#[trigger] self.keys@[j]).symbol != c,
            },
    {
        let mut i: usize = 0;
        while i < self.keys.len()
            invariant
                i <= self.keys@.len(),
                forall|j: int| 0 <= j < i ==> (#[trigger] self.keys@[j]).symbol != c,
            decreases self.keys@.len() - i,
        {
            if self.keys[i].symbol == c {
                return Some(i);
            }
            i = i + 1;
        }
        None
    }

    /// Presses the key with symbol `key`, now, and adds it to the active
    /// keys unless it is there already; does nothing for a key the keyboard
    /// does not have.
    pub fn press_key(&mut self, key: char)
        requires
            old(self).wf(),
        ensures
            final(self).keys@.len() == old(self).keys@.len(),
            final(self).wf(),
            forall|i: int|
                0 <= i < old(self).keys@.len() ==> {
                    &&& (#[trigger] final(self).keys@[i]).symbol == old(self).keys@[i].symbol
                    &&& final(self).keys@[i].note@ == old(self).keys@[i].note@
                    &&& final(self).keys@[i].frequency == old(self).keys@[i].frequency
                    &&& old(self).keys@[i].symbol == key ==> final(self).keys@[i].is_pressed
                        && final(self).keys@[i].press_time.is_some()
                    &&& old(self).keys@[i].symbol != key ==> final(self).keys@[i] == old(self).keys@[i]
                },
            (exists|i: int| 0 <= i < old(self).keys@.len() && (#[trigger] old(self).keys@[i]).symbol == key)
                ==> final(self).active_keys@ == if old(self).active_keys@.contains(key) {
                    old(self).active_keys@
                } else {
                    old(self).active_keys@.push(key)
                },
            !(exists|i: int| 0 <= i < old(self).keys@.len() && (#[trigger] old(self).keys@[i]).symbol == key)
                ==> final(self).active_keys@ == old(self).active_keys@,
    {
        match self.find_key(key) {
            Some(i) => {
                let t = now();
                let k = &mut self.keys[i];
                k.is_pressed = true;
                k.press_time = Some(t);
                if !contains_char(&self.active_keys, key) {
                    self.active_keys.push(key);
                }
            },
            None => {},
        }
    }

    /// Releases, as of now, every key held for longer than 150 ms, then
    /// keeps among the active keys those still pressed: reads how long each
    /// key has been held from the clock and hands those times to
    /// `release_held_keys`. Whatever the clock reads, a key either stays as it
    /// was or is released.
    pub fn update(&mut self)
        requires
            old(self).wf(),
        ensures
            final(self).keys@.len() == old(self).keys@.len(),
            final(self).wf(),
            forall|i: int|
                0 <= i < old(self).keys@.len() ==> {
                    &&& (#[trigger] final(self).keys@[i]).symbol == old(self).keys@[i].symbol
                    &&& final(self).keys@[i].note@ == old(self).keys@[i].note@
                    &&& final(self).keys@[i].frequency == old(self).keys@[i].frequency
                    &&& old(self).keys@[i].press_time.is_none() ==> final(self).keys@[i] == old(self).keys@[i]
                    &&& old(self).keys@[i].press_time.is_some() ==> (final(self).keys@[i] == old(self).keys@[i]
                        || (!final(self).keys@[i].is_pressed && final(self).keys@[i].press_time.is_none()))
                },
            final(self).active_keys@ == pressed_only(old(self).active_keys@, final(self).keys@),
    {
        let t = now();
        let mut held: Vec<u128> = Vec::new();
        let mut i: usize = 0;
        while i < self.keys.len()
            invariant
                i <= self.keys@.len(),
                held@.len() == i,
            decreases self.keys@.len() - i,
        {
            let h: u128 = match &self.keys[i].press_time {
                Some(pressed) => nanos_between(&t, pressed),
                None => 0,
            };
            held.push(h);
            i = i + 1;
        }
        self.release_held_keys(&held);
    }

    /// Releases every key that has a press time and, by `held_nanos` (one
    /// entry per key, in the order of `keys`), has been held longer than the
    /// hold time, then keeps among the active keys those still pressed. A key
    /// without an entry stays as it is.
    pub fn release_held_keys(&mut self, held_nanos: &Vec<u128>)
        requires
            old(self).wf(),
        ensures
            final(self).wf(),
            final(self).keys@.len() == old(self).keys@.len(),
            forall|i: int|
                0 <= i < old(self).keys@.len() ==> {
                    let k = old(self).keys@[i];
                    let f = #[trigger] final(self).keys@[i];
                    if i < held_nanos@.len() && k.press_time.is_some() && held_nanos@[i] > HOLD_NANOS {
                        &&& f.symbol == k.symbol
                        &&& f.note@ == k.note@
                        &&& f.frequency == k.frequency
                        &&& !f.is_pressed
                        &&& f.press_time.is_none()
                    } else {
                        f == k
                    }
                },
            final(self).active_keys@ == pressed_only(old(self).active_keys@, final(self).keys@),
    {
        let mut i: usize = 0;
        while i < self.keys.len()
            invariant
                i <= self.keys@.len(),
                self.keys@.len() == old(self).keys@.len(),
                self.active_keys@ == old(self).active_keys@,
                forall|j: int|
                    0 <= j < old(self).keys@.len() ==> {
                        let k = old(self).keys@[j];
                        let f = #[trigger] self.keys@[j];
                        if j < i && j < held_nanos@.len() && k.press_time.is_some() && held_nanos@[j]
                            > HOLD_NANOS {
                            &&& f.symbol == k.symbol
                            &&& f.note@ == k.note@
                            &&& f.frequency == k.frequency
                            &&& !f.is_pressed
                            &&& f.press_time.is_none()
                        } else {
                            f == k
                        }
                    },
            decreases old(self).keys@.len() - i,
        {
            let held: u128 = if i < held_nanos.len() { held_nanos[i] } else { 0 };
            self.release_if_held_longer(i, held);
            i = i + 1;
        }
        proof {
            assert forall|a: int, b: int| 0 <= a < b < self.keys@.len() implies
                (#[trigger] self.keys@[a]).symbol != (#[trigger] self.keys@[b]).symbol by {
                assert(old(self).keys@[a].symbol != old(self).keys@[b].symbol);
            }
        }
        self.keep_pressed_active();
    }

    /// Releases the key at `index`, when it was pressed and has been held
    /// for `held_nanos`, longer than the hold time; leaves everything else as
    /// it is.
    pub fn release_if_held_longer(&mut self, index: usize, held_nanos: u128)
        ensures
            final(self).active_keys@ == old(self).active_keys@,
            final(self).keys@.len() == old(self).keys@.len(),
            forall|j: int|
                0 <= j < old(self).keys@.len() && j != index ==> #[trigger] final(self).keys@[j] == old(self).keys@[j],
            index < old(self).keys@.len() ==> {
                let k = old(self).keys@[index as int];
                let f = final(self).keys@[index as int];
                &&& f.symbol == k.symbol
                &&& f.note@ == k.note@
                &&& f.frequency == k.frequency
                &&& if k.press_time.is_some() && held_nanos > HOLD_NANOS {
                    !f.is_pressed && f.press_time.is_none()
                } else {
                    f == k
                }
            },
    {
        if index < self.keys.len() && self.keys[index].press_time.is_some() && held_nanos > HOLD_NANOS {
            let k = &mut self.keys[index];
            k.is_pressed = false;
            k.press_time = None;
        }
    }

    /// Keeps among the active keys, in order, those whose key is pressed.
    pub fn keep_pressed_active(&mut self)
        requires
            old(self).wf(),
        ensures
            final(self).keys@ == old(self).keys@,
            final(self).active_keys@ == pressed_only(old(self).active_keys@, old(self).keys@),
    {
        let mut kept: Vec<char> = Vec::new();
        let mut n: usize = 0;
        while n < self.active_keys.len()
            invariant
                n <= self.active_keys@.len(),
                self.wf(),
                kept@ == pressed_only(self.active_keys@.subrange(0, n as int), self.keys@),
            decreases self.active_keys@.len() - n,
        {
            let c = self.active_keys[n];
            let pressed = match self.find_key(c) {
                Some(j) => self.keys[j].is_pressed,
                None => false,
            };
            proof {
                let s = self.active_keys@.subrange(0, n as int + 1);
                assert(s.drop_last() =~= self.active_keys@.subrange(0, n as int));
                assert(s.last() == c);
                if is_pressed_in(self.keys@, c) {
                    let w = choose|w: int| 0 <= w < self.keys@.len() && (#[trigger] self.keys@[w]).symbol == c
                        && self.keys@[w].is_pressed;
                    assert(pressed);
                }
            }
            if pressed {
                kept.push(c);
            }
            n = n + 1;
        }
        assert(self.active_keys@.subrange(0, self.active_keys@.len() as int) =~= self.active_keys@);
        self.active_keys = kept;
    }
}

} // verus!
