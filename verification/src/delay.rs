//! A fixed-length FIFO of samples: a pure delay of as many ticks as it is long.

use std::collections::VecDeque;
use vstd::prelude::*;

verus! {

/// The word of a silent sample.
pub const SILENCE: u32 = 0;

/// `n` silent samples.
pub open spec fn silent(n: nat) -> Seq<u32> {
    Seq::new(n, |i: int| SILENCE)
}

/// The contents of a line after one tick that feeds `x`.
pub open spec fn after_tick(line: Seq<u32>, x: u32) -> Seq<u32> {
    line.drop_first().push(x)
}

/// The contents of a line after one tick for each sample of `fed`, in order.
pub open spec fn after_ticks(line: Seq<u32>, fed: Seq<u32>) -> Seq<u32>
    decreases fed.len(),
{
    if fed.len() == 0 {
        line
    } else {
        after_ticks(after_tick(line, fed[0]), fed.drop_first())
    }
}

/// What tick number `k` (counted from zero) returns when the samples of `fed`
/// are fed to `line` one per tick.
pub open spec fn tick_output(line: Seq<u32>, fed: Seq<u32>, k: int) -> u32
    recommends
        0 <= k < fed.len(),
        line.len() > 0,
{
    after_ticks(line, fed.take(k))[0]
}

/// The length a resize request ends up with: never less than one sample.
pub open spec fn clamped_length(requested: usize) -> nat {
    if requested == 0 {
        1
    } else {
        requested as nat
    }
}

/// The samples in flight, oldest first. The view of a line is the sequence
/// of its samples.
pub struct DelayLine {
    pub buf: VecDeque<u32>,
}

impl View for DelayLine {
    type V = Seq<u32>;

    open spec fn view(&self) -> Seq<u32> {
        self.buf@
    }
}

impl DelayLine {
    /// A line of `n` silent samples.
    pub fn new(n: usize) -> (line: Self)
        ensures
            line@ == silent(n as nat),
    {
        let mut buf: VecDeque<u32> = VecDeque::new();
        buf.resize(n, SILENCE);
        assert(buf@ =~= silent(n as nat));
        DelayLine { buf }
    }

    /// The number of samples held, which is the delay in ticks.
    pub fn len(&self) -> (n: usize)
        ensures
            n == self@.len(),
    {
        self.buf.len()
    }

    /// The sample that the next tick will return.
    pub fn oldest(&self) -> (y: u32)
        requires
            self@.len() > 0,
        ensures
            y == self@[0],
    {
        self.buf[0]
    }

    /// Takes the oldest sample out and appends `x`.
    pub fn tick(&mut self, x: u32) -> (y: u32)
        requires
            old(self)@.len() > 0,
        ensures
            y == old(self)@[0],
            final(self)@ == after_tick(old(self)@, x),
    {
        let front: Option<u32> = self.buf.pop_front();
        self.buf.push_back(x);
        assert(self@ =~= after_tick(old(self)@, x));
        match front {
            Some(y) => y,
            None => SILENCE,
        }
    }

    /// Replaces the contents by silence of the requested length, or of one
    /// sample where zero was requested.
    pub fn resize(&mut self, new_length: usize)
        ensures
            final(self)@ == silent(clamped_length(new_length)),
    {
        let n: usize = if new_length == 0 { 1 } else { new_length };
        self.buf.clear();
        self.buf.resize(n, SILENCE);
        assert(self@ =~= silent(clamped_length(new_length)));
    }
}

/// Feeding a line leaves what it held followed by what was fed, less as many
/// samples at the front as were fed.
pub proof fn lemma_after_ticks(line: Seq<u32>, fed: Seq<u32>)
    requires
        line.len() > 0,
    ensures
        after_ticks(line, fed) == (line + fed).skip(fed.len() as int),
        after_ticks(line, fed).len() == line.len(),
    decreases fed.len(),
{
    if fed.len() == 0 {
        assert((line + fed).skip(0) =~= line);
    } else {
        let next = after_tick(line, fed[0]);
        let rest = fed.drop_first();
        lemma_after_ticks(next, rest);
        assert(next + rest =~= (line + fed).skip(1));
        assert((line + fed).skip(1).skip(rest.len() as int) =~= (line + fed).skip(fed.len() as int));
    }
}

/// Each tick returns what the line held at the start while that lasts, and
/// from then on what was fed as many ticks earlier as the line is long.
pub proof fn lemma_tick_output(line: Seq<u32>, fed: Seq<u32>, k: int)
    requires
        line.len() > 0,
        0 <= k < fed.len(),
    ensures
        k < line.len() ==> tick_output(line, fed, k) == line[k],
        k >= line.len() ==> tick_output(line, fed, k) == fed[k - line.len()],
{
    let head = fed.take(k);
    lemma_after_ticks(line, head);
    assert((line + head).skip(k)[0] == (line + head)[k]);
}

/// Pure delay: on a line of `N` samples, the tick after `N` others returns
/// the sample that the first of them fed.
pub proof fn lemma_pure_delay(line: Seq<u32>, fed: Seq<u32>)
    requires
        line.len() > 0,
        fed.len() > line.len(),
    ensures
        tick_output(line, fed, line.len() as int) == fed[0],
{
    lemma_tick_output(line, fed, line.len() as int);
}

/// Reset: after a resize, as many ticks as the new length return silence,
/// whatever is fed meanwhile and whatever the line held before.
pub proof fn lemma_reset(requested: usize, fed: Seq<u32>, k: int)
    requires
        0 <= k < clamped_length(requested),
        k < fed.len(),
    ensures
        tick_output(silent(clamped_length(requested)), fed, k) == SILENCE,
{
    lemma_tick_output(silent(clamped_length(requested)), fed, k);
}

} // verus!
