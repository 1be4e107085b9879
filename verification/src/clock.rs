//! The sample counter and the duty-cycle envelope that it drives.

use vstd::arithmetic::div_mod::lemma_fundamental_div_mod_converse_mod;
use vstd::prelude::*;

verus! {

/// The count after one more sample; past the largest value it starts again
/// at zero.
pub open spec fn next_count(n: u64) -> u64 {
    if n == u64::MAX {
        0
    } else {
        (n + 1) as u64
    }
}

/// Where sample `n` stands within its period of `period_samples` samples.
pub open spec fn position_in_period(n: u64, period_samples: u64) -> u64
    recommends
        period_samples > 0,
{
    n % period_samples
}

/// Whether the envelope lets sample `n` through: it is open for the first
/// `open_samples` samples of every period.
pub open spec fn gate_open(n: u64, period_samples: u64, open_samples: u64) -> bool
    recommends
        period_samples > 0,
{
    position_in_period(n, period_samples) < open_samples
}

/// The sample counts that the control values come to: the length of one
/// period, how many samples at the start of each period are let through, and
/// the length asked of the delay line.
#[derive(Clone, Copy, Debug, PartialEq, Eq, Structural)]
pub struct Timing {
    pub period_samples: u64,
    pub open_samples: u64,
    pub delay_length: usize,
}

impl Timing {
    /// A period has at least one sample.
    pub open spec fn wf(self) -> bool {
        self.period_samples > 0
    }
}

/// Counts the samples made so far.
#[derive(Clone, Copy, Debug, PartialEq, Eq, Structural)]
pub struct SampleClock {
    pub n: u64,
}

impl SampleClock {
    /// A clock at sample zero.
    pub fn new() -> (clock: Self)
        ensures
            clock.n == 0,
    {
        SampleClock { n: 0 }
    }

    /// Where the current sample stands within its period.
    pub fn position(&self, period_samples: u64) -> (pos: u64)
        requires
            period_samples > 0,
        ensures
            pos == position_in_period(self.n, period_samples),
            pos < period_samples,
    {
        self.n % period_samples
    }

    /// Whether the envelope lets the current sample through.
    pub fn gate(&self, timing: &Timing) -> (open: bool)
        requires
            timing.wf(),
        ensures
            open == gate_open(self.n, timing.period_samples, timing.open_samples),
    {
        self.position(timing.period_samples) < timing.open_samples
    }

    /// Moves on to the next sample.
    pub fn advance(&mut self)
        ensures
            final(self).n == next_count(old(self).n),
    {
        self.n = if self.n == u64::MAX { 0 } else { self.n + 1 };
    }
}

/// The count `k` samples after `n`.
pub open spec fn count_after(n: u64, k: nat) -> u64
    decreases k,
{
    if k == 0 {
        n
    } else {
        next_count(count_after(n, (k - 1) as nat))
    }
}

/// The count goes up by one with every sample and wraps past the largest
/// value: `k` samples after `n` it stands at `n + k` modulo two to the 64th.
pub proof fn lemma_count_after(n: u64, k: nat)
    ensures
        count_after(n, k) == (n + k) % 0x1_0000_0000_0000_0000,
    decreases k,
{
    if k > 0 {
        lemma_count_after(n, (k - 1) as nat);
        let before = count_after(n, (k - 1) as nat);
        if before == u64::MAX {
            assert((n + k) % 0x1_0000_0000_0000_0000 == 0) by {
                lemma_step_mod(n + k - 1);
            }
        } else {
            assert((n + k) % 0x1_0000_0000_0000_0000 == before + 1) by {
                lemma_step_mod(n + k - 1);
            }
        }
    }
}

proof fn lemma_step_mod(x: int)
    requires
        x >= 0,
    ensures
        x % 0x1_0000_0000_0000_0000 == 0xffff_ffff_ffff_ffff ==> (x + 1) % 0x1_0000_0000_0000_0000
            == 0,
        x % 0x1_0000_0000_0000_0000 < 0xffff_ffff_ffff_ffff ==> (x + 1) % 0x1_0000_0000_0000_0000
            == x % 0x1_0000_0000_0000_0000 + 1,
{
    let m = 0x1_0000_0000_0000_0000int;
    let q = x / m;
    let r = x % m;
    vstd::arithmetic::div_mod::lemma_fundamental_div_mod(x, m);
    if r == m - 1 {
        lemma_fundamental_div_mod_converse_mod(x + 1, m, q + 1, 0);
        assert(x + 1 == (q + 1) * m + 0) by (nonlinear_arith)
            requires
                x == m * q + r,
                r == m - 1,
        ;
    } else {
        assert(x + 1 == q * m + (r + 1)) by (nonlinear_arith)
            requires
                x == m * q + r,
        ;
        lemma_fundamental_div_mod_converse_mod(x + 1, m, q, r + 1);
    }
}

/// Periodicity: in every period the envelope is open on exactly the first
/// `open_samples` samples, so sample `j` of period `k` passes just when
/// `j < open_samples`, whichever period it is.
pub proof fn lemma_gate_periodic(k: nat, j: nat, period_samples: u64, open_samples: u64)
    requires
        period_samples > 0,
        j < period_samples,
        k * period_samples + j <= u64::MAX,
    ensures
        gate_open((k * period_samples + j) as u64, period_samples, open_samples) == (j
            < open_samples),
{
    lemma_fundamental_div_mod_converse_mod(
        (k * period_samples + j) as int,
        period_samples as int,
        k as int,
        j as int,
    );
}

/// The number of samples among the `count` that follow sample `first` (that
/// one included) that the envelope lets through.
pub open spec fn open_count(first: nat, count: nat, period_samples: u64, open_samples: u64) -> nat
    decreases count,
{
    if count == 0 {
        0
    } else {
        open_count(first, (count - 1) as nat, period_samples, open_samples) + if gate_open(
            (first + count - 1) as u64,
            period_samples,
            open_samples,
        ) {
            1nat
        } else {
            0nat
        }
    }
}

/// Of the first `count` samples of period `k`, the envelope lets through
/// `open_samples` or all of them, whichever is less; of a whole period, that
/// is the share that `open_samples` is of `period_samples`.
pub proof fn lemma_open_count(k: nat, count: nat, period_samples: u64, open_samples: u64)
    requires
        period_samples > 0,
        count <= period_samples,
        k * period_samples + count <= u64::MAX + 1,
    ensures
        open_count((k * period_samples) as nat, count, period_samples, open_samples) == if count
            <= open_samples {
            count
        } else {
            open_samples as nat
        },
    decreases count,
{
    if count > 0 {
        lemma_open_count(k, (count - 1) as nat, period_samples, open_samples);
        lemma_gate_periodic(k, (count - 1) as nat, period_samples, open_samples);
    }
}

/// With nothing let through the envelope is shut on every sample.
pub proof fn lemma_gate_never_opens(n: u64, period_samples: u64)
    requires
        period_samples > 0,
    ensures
        !gate_open(n, period_samples, 0),
{
}

/// With a whole period let through the envelope is open on every sample.
pub proof fn lemma_gate_never_closes(n: u64, period_samples: u64, open_samples: u64)
    requires
        period_samples > 0,
        open_samples >= period_samples,
    ensures
        gate_open(n, period_samples, open_samples),
{
}

} // verus!
