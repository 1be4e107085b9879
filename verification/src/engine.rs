//! The engine: the state of the audio side and the steps that one buffer and
//! one sample take through it.
//!
//! The engine keeps the counters, the noise state and the delay line. What a
//! sample is worth as a number is the caller's business: between the two
//! halves of a sample step the caller mixes the noise word with the sample
//! that comes back from the delay line, and after the second half it shapes
//! what the envelope let through.

use crate::channel::latest;
use crate::channel::ParamChannel;
use crate::clock::gate_open;
use crate::clock::next_count;
use crate::clock::SampleClock;
use crate::clock::Timing;
use crate::delay::after_tick;
use crate::delay::clamped_length;
use crate::delay::silent;
use crate::delay::DelayLine;
use crate::noise::scramble;
use crate::noise::NoiseGenerator;
use crate::params::InstrumentParams;
use vstd::prelude::*;

verus! {

/// What the first half of a sample step hands out: a fresh noise word and the
/// sample that the delay line will return on its next tick.
#[derive(Clone, Copy, Debug, PartialEq, Eq, Structural)]
pub struct Draw {
    pub noise: u32,
    pub feedback: u32,
}

/// What the second half of a sample step hands out: the sample that left the
/// delay line and whether the envelope lets this sample through.
#[derive(Clone, Copy, Debug, PartialEq, Eq, Structural)]
pub struct Frame {
    pub delayed: u32,
    pub audible: bool,
}

/// The state that the audio side owns: the controls in force, the sample
/// counts they come to, the sample clock, the noise state and the delay line.
pub struct AudioThreadContext {
    pub params: InstrumentParams,
    pub timing: Timing,
    pub clock: SampleClock,
    pub noise: NoiseGenerator,
    pub delay: DelayLine,
    /// Whether a sample step is under way: its noise word is drawn and the
    /// delay line is yet to be fed.
    pub drawn: bool,
}

impl AudioThreadContext {
    /// The delay line has the length that the sample counts ask for, which
    /// is never zero, and a period has at least one sample.
    pub open spec fn wf(&self) -> bool {
        &&& self.delay@.len() == clamped_length(self.timing.delay_length)
        &&& self.timing.wf()
    }

    /// An engine at sample zero, with a silent delay line of the length that
    /// `timing` asks for.
    pub fn new(initial: InstrumentParams, timing: Timing, seed: u32) -> (cx: Self)
        requires
            timing.wf(),
        ensures
            cx.wf(),
            cx.params == initial,
            cx.timing == timing,
            cx.clock.n == 0,
            cx.noise.seed == seed,
            cx.delay@ == silent(clamped_length(timing.delay_length)),
            !cx.drawn,
    {
        let mut delay = DelayLine::new(0);
        delay.resize(timing.delay_length);
        AudioThreadContext {
            params: initial,
            timing,
            clock: SampleClock::new(),
            noise: NoiseGenerator::new(seed),
            delay,
            drawn: false,
        }
    }

    /// Between two samples: empties the queue and takes over the newest
    /// snapshot it held. Returns that snapshot, or `None` where nothing was
    /// queued, in which case the engine keeps the controls it had.
    pub fn apply_pending(&mut self, channel: &mut ParamChannel) -> (applied: Option<
        InstrumentParams,
    >)
        requires
            old(channel).wf(),
            !old(self).drawn,
        ensures
            final(channel).wf(),
            final(channel).capacity() == old(channel).capacity(),
            final(channel)@ == Seq::<InstrumentParams>::empty(),
            applied == latest(old(channel)@),
            final(self).params == match applied {
                Some(p) => p,
                None => old(self).params,
            },
            final(self).timing == old(self).timing,
            final(self).clock == old(self).clock,
            final(self).noise == old(self).noise,
            final(self).delay == old(self).delay,
            final(self).drawn == old(self).drawn,
    {
        let newest = channel.drain_latest();
        match newest {
            Some(p) => {
                self.params = p;
            },
            None => {},
        }
        newest
    }

    /// Between two samples: takes over new sample counts. The delay line is
    /// left alone where the length asked for is the one it has; otherwise it
    /// is replaced by silence of the new length.
    pub fn retime(&mut self, timing: Timing)
        requires
            old(self).wf(),
            !old(self).drawn,
            timing.wf(),
        ensures
            final(self).wf(),
            final(self).timing == timing,
            final(self).delay@ == if clamped_length(timing.delay_length) == old(self).delay@.len() {
                old(self).delay@
            } else {
                silent(clamped_length(timing.delay_length))
            },
            final(self).params == old(self).params,
            final(self).clock == old(self).clock,
            final(self).noise == old(self).noise,
            !final(self).drawn,
    {
        let wanted: usize = if timing.delay_length == 0 { 1 } else { timing.delay_length };
        if wanted != self.delay.len() {
            self.delay.resize(wanted);
        }
        self.timing = timing;
    }

    /// First half of a sample step: advances the noise by one step and looks
    /// at the oldest sample of the delay line without taking it out. The two
    /// halves take turns, so each sample draws one noise word, feeds the
    /// delay line once and moves the clock on by one.
    pub fn begin_sample(&mut self) -> (draw: Draw)
        requires
            old(self).wf(),
            !old(self).drawn,
        ensures
            final(self).wf(),
            final(self).drawn,
            draw.noise == scramble(old(self).noise.seed),
            draw.feedback == old(self).delay@[0],
            final(self).noise.seed == draw.noise,
            final(self).delay == old(self).delay,
            final(self).clock == old(self).clock,
            final(self).params == old(self).params,
            final(self).timing == old(self).timing,
    {
        let noise: u32 = self.noise.step();
        let feedback: u32 = self.delay.oldest();
        self.drawn = true;
        Draw { noise, feedback }
    }

    /// Second half of a sample step: feeds the mixed sample to the delay
    /// line, reads the envelope for this sample and moves the clock on by one.
    pub fn end_sample(&mut self, mixed: u32) -> (frame: Frame)
        requires
            old(self).wf(),
            old(self).drawn,
        ensures
            final(self).wf(),
            !final(self).drawn,
            frame.delayed == old(self).delay@[0],
            frame.audible == gate_open(
                old(self).clock.n,
                old(self).timing.period_samples,
                old(self).timing.open_samples,
            ),
            final(self).delay@ == after_tick(old(self).delay@, mixed),
            final(self).clock.n == next_count(old(self).clock.n),
            final(self).noise == old(self).noise,
            final(self).params == old(self).params,
            final(self).timing == old(self).timing,
    {
        let delayed: u32 = self.delay.tick(mixed);
        let audible: bool = self.clock.gate(&self.timing);
        self.clock.advance();
        self.drawn = false;
        Frame { delayed, audible }
    }
}

} // verus!
