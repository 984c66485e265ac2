//! The waveform generator: an endless stream of exact samples of one tone.
//!
//! Frequencies are held in hundredths of a hertz, so that every pitch of the
//! note and drum tables is an integer. The phase within a cycle is then an
//! exact fraction `phase / PHASE_UNITS`, and the samples of the square,
//! triangle and sawtooth shapes are exact fractions over the same
//! denominator. A sine sample is handed out as its phase, for the audio
//! backend to evaluate.

use vstd::arithmetic::div_mod::{lemma_add_mod_noop, lemma_mod_bound, lemma_mul_mod_noop_left, lemma_small_mod};
use vstd::prelude::*;

verus! {

/// Samples per second of every generator.
pub const SAMPLE_RATE: u32 = 44100;

/// Units of phase in one full cycle: the sample rate times the hundred
/// hundredths of a hertz in one hertz.
pub const PHASE_UNITS: u64 = 4410000;

/// The waveform family of a tone.
#[derive(Clone, Copy, Debug, PartialEq, Eq, Structural)]
pub enum InstrumentType {
    Sine,
    Square,
    Triangle,
    Saw,
}

/// One sample value, exactly.
#[derive(Clone, Copy, Debug, PartialEq, Eq, Structural)]
pub enum Sample {
    /// `sin(2π · phase / PHASE_UNITS)`.
    Sine { phase: u64 },
    /// `level / PHASE_UNITS`.
    Level { level: i64 },
}

/// Position within the cycle, in `PHASE_UNITS`, of the sample at `position`
/// of a tone at `frequency` hundredths of a hertz:
/// the fractional part of `position * frequency / (SAMPLE_RATE * 100)`.
pub open spec fn phase_at(frequency: nat, position: nat) -> nat {
    ((position * frequency) % (PHASE_UNITS as nat)) as nat
}

/// The level of a non-sine shape at a given phase, in `PHASE_UNITS`.
pub open spec fn level_at(shape: InstrumentType, phase: int) -> int {
    let u = PHASE_UNITS as int;
    match shape {
        // +1/2 while sin(x) >= 0, that is over the first half of the cycle.
        InstrumentType::Square => if 2 * phase <= u { u / 2 } else { -(u / 2) },
        // |2 frac - 1| * 2 - 1
        InstrumentType::Triangle => {
            let d = 2 * phase - u;
            (if d >= 0 { d } else { -d }) * 2 - u
        },
        // frac * 2 - 1
        _ => 2 * phase - u,
    }
}

/// The sample at `position` of a tone of the given frequency and shape.
pub open spec fn sample_at(frequency: nat, shape: InstrumentType, position: nat) -> Sample {
    let p = phase_at(frequency, position);
    match shape {
        InstrumentType::Sine => Sample::Sine { phase: p as u64 },
        _ => Sample::Level { level: level_at(shape, p as int) as i64 },
    }
}

/// The position after `position` in a counter that wraps to zero.
pub open spec fn next_position(position: usize) -> usize {
    if position == usize::MAX {
        0
    } else {
        (position + 1) as usize
    }
}

/// A generator of one tone: its frequency and shape stay fixed, its position
/// advances by one per sample.
#[derive(Clone, Copy, Debug)]
pub struct CustomWaveform {
    frequency: u32,
    instrument: InstrumentType,
    sample_rate: u32,
    position: usize,
}

impl CustomWaveform {
    /// The frequency, in hundredths of a hertz.
    pub closed spec fn spec_frequency(&self) -> nat {
        self.frequency as nat
    }

    pub closed spec fn spec_instrument(&self) -> InstrumentType {
        self.instrument
    }

    pub closed spec fn spec_sample_rate(&self) -> nat {
        self.sample_rate as nat
    }

    pub closed spec fn spec_position(&self) -> usize {
        self.position
    }

    /// The generator's invariant: a positive frequency at the fixed rate.
    pub open spec fn wf(&self) -> bool {
        &&& self.spec_frequency() > 0
        &&& self.spec_sample_rate() == SAMPLE_RATE
    }

    /// A generator at `frequency` hundredths of a hertz, at its first sample.
    pub fn new(frequency: u32, instrument: InstrumentType) -> (r: Self)
        requires
            frequency > 0,
        ensures
            r.wf(),
            r.spec_frequency() == frequency,
            r.spec_instrument() == instrument,
            r.spec_position() == 0,
    {
        CustomWaveform { frequency, instrument, sample_rate: SAMPLE_RATE, position: 0 }
    }

    /// The sample at `position`.
    fn get_sample(&self, position: usize) -> (r: Sample)
        requires
            self.wf(),
        ensures
            r == sample_at(self.spec_frequency(), self.spec_instrument(), position as nat),
    {
        let reduced: u64 = (position as u64) % PHASE_UNITS;
        assert(reduced * (self.frequency as u64) < PHASE_UNITS * 4294967296) by (nonlinear_arith)
            requires
                reduced < PHASE_UNITS,
                self.frequency < 4294967296,
        ;
        let phase: u64 = (reduced * (self.frequency as u64)) % PHASE_UNITS;
        proof {
            lemma_mul_mod_noop_left(position as int, self.frequency as int, PHASE_UNITS as int);
        }
        let p: i64 = phase as i64;
        let u: i64 = PHASE_UNITS as i64;
        match self.instrument {
            InstrumentType::Sine => Sample::Sine { phase },
            InstrumentType::Square => {
                if 2 * p <= u {
                    Sample::Level { level: u / 2 }
                } else {
                    Sample::Level { level: -(u / 2) }
                }
            },
            InstrumentType::Triangle => {
                let d: i64 = 2 * p - u;
                let m: i64 = if d >= 0 { d } else { -d };
                Sample::Level { level: m * 2 - u }
            },
            InstrumentType::Saw => Sample::Level { level: 2 * p - u },
        }
    }

    /// Hands out the sample at the current position, then advances the
    /// position by one, wrapping to zero after `usize::MAX`.
    pub fn next_sample(&mut self) -> (r: Sample)
        requires
            old(self).wf(),
        ensures
            final(self).wf(),
            r == sample_at(old(self).spec_frequency(), old(self).spec_instrument(), old(self).spec_position() as nat),
            final(self).spec_frequency() == old(self).spec_frequency(),
            final(self).spec_instrument() == old(self).spec_instrument(),
            final(self).spec_position() == next_position(old(self).spec_position()),
    {
        let r = self.get_sample(self.position);
        self.position = self.position.wrapping_add(1);
        r
    }

    /// The frequency, in hundredths of a hertz.
    pub fn frequency(&self) -> (r: u32)
        ensures
            r == self.spec_frequency(),
    {
        self.frequency
    }

    pub fn instrument(&self) -> (r: InstrumentType)
        ensures
            r == self.spec_instrument(),
    {
        self.instrument
    }

    /// The position of the next sample to be handed out.
    pub fn position(&self) -> (r: usize)
        ensures
            r == self.spec_position(),
    {
        self.position
    }

    pub fn sample_rate(&self) -> (r: u32)
        ensures
            r == self.spec_sample_rate(),
    {
        self.sample_rate
    }

    /// A generator is monophonic.
    pub fn channels(&self) -> (r: u16)
        ensures
            r == 1,
    {
        1
    }

    /// The samples come in one unbroken frame.
    pub fn current_frame_len(&self) -> (r: Option<usize>)
        ensures
            r.is_none(),
    {
        None
    }

    /// A generator never ends by itself: its length is set by whoever
    /// consumes it.
    pub fn total_duration(&self) -> (r: Option<std::time::Duration>)
        ensures
            r.is_none(),
    {
        None
    }
}

/// The next sample depends on the frequency, the shape and the position
/// alone: two generators that agree on these hand out the same next sample.
pub proof fn lemma_next_sample_deterministic(a: CustomWaveform, b: CustomWaveform)
    requires
        a.spec_frequency() == b.spec_frequency(),
        a.spec_instrument() == b.spec_instrument(),
        a.spec_position() == b.spec_position(),
    ensures
        sample_at(a.spec_frequency(), a.spec_instrument(), a.spec_position() as nat)
            == sample_at(b.spec_frequency(), b.spec_instrument(), b.spec_position() as nat),
{
}

/// Every sample lies within its shape's range: a sine phase lies within one cycle; every level lies
/// in `[-1, 1]`; a square level is exactly `1/2` or `-1/2`; a sawtooth level is
/// below `1`; a triangle level reaches `1` only at the start of a cycle.
pub proof fn lemma_sample_bounds(frequency: nat, shape: InstrumentType, position: nat)
    ensures
        match sample_at(frequency, shape, position) {
            Sample::Sine { phase } => shape == InstrumentType::Sine && phase < PHASE_UNITS,
            Sample::Level { level } => {
                &&& shape != InstrumentType::Sine
                &&& -(PHASE_UNITS as int) <= level <= PHASE_UNITS
                &&& shape == InstrumentType::Square ==> (level == PHASE_UNITS / 2
                    || level == -((PHASE_UNITS / 2) as int))
                &&& shape == InstrumentType::Saw ==> level < PHASE_UNITS
                &&& (shape == InstrumentType::Triangle && level == PHASE_UNITS)
                    ==> phase_at(frequency, position) == 0
            },
        },
{
    lemma_mod_bound((position * frequency) as int, PHASE_UNITS as int);
}

/// The samples repeat: moving `k` positions on, where `k` cycles of phase make a
/// whole number of cycles (`k * frequency` is a multiple of `PHASE_UNITS`),
/// gives the same sample, for every shape.
pub proof fn lemma_sample_periodic(frequency: nat, shape: InstrumentType, position: nat, k: nat)
    requires
        (k * frequency) % (PHASE_UNITS as nat) == 0,
    ensures
        sample_at(frequency, shape, position + k) == sample_at(frequency, shape, position),
{
    let m = PHASE_UNITS as int;
    assert((position + k) * frequency == position * frequency + k * frequency) by (nonlinear_arith);
    lemma_add_mod_noop((position * frequency) as int, (k * frequency) as int, m);
    lemma_mod_bound((position * frequency) as int, m);
    lemma_small_mod((((position * frequency) as int) % m) as nat, m as nat);
}

/// Every shape repeats after
/// `PHASE_UNITS` positions, whatever the frequency.
pub proof fn lemma_sample_repeats_each_cycle(frequency: nat, shape: InstrumentType, position: nat)
    ensures
        sample_at(frequency, shape, position + PHASE_UNITS as nat) == sample_at(frequency, shape, position),
{
    let k = PHASE_UNITS as nat;
    assert((k * frequency) % (PHASE_UNITS as nat) == 0) by {
        vstd::arithmetic::div_mod::lemma_mod_multiples_basic(frequency as int, PHASE_UNITS as int);
        assert(k * frequency == frequency * k) by (nonlinear_arith);
    }
    lemma_sample_periodic(frequency, shape, position, k);
}

} // verus!
