//! The six control values that steer the synthesizer.

use vstd::prelude::*;

verus! {

/// A snapshot as it travels through the queue: the six words in field order.
pub type Words = (u32, u32, u32, u32, u32, u32);

/// One snapshot of the six controls, each held as the word of a number
/// between -1 and 1.
#[derive(Clone, Copy, Debug, PartialEq, Eq, Structural)]
pub struct InstrumentParams {
    pub a: u32,
    pub b: u32,
    pub c: u32,
    pub d: u32,
    pub e: u32,
    pub f: u32,
}

impl InstrumentParams {
    /// The six words of a snapshot, in field order.
    pub open spec fn words(self) -> Words {
        (self.a, self.b, self.c, self.d, self.e, self.f)
    }

    /// The snapshot that six words stand for.
    pub open spec fn of_words(w: Words) -> InstrumentParams {
        InstrumentParams { a: w.0, b: w.1, c: w.2, d: w.3, e: w.4, f: w.5 }
    }

    /// The snapshot as it is queued.
    pub fn to_words(self) -> (w: Words)
        ensures
            w == self.words(),
    {
        (self.a, self.b, self.c, self.d, self.e, self.f)
    }

    /// The snapshot that came out of the queue.
    pub fn from_words(w: Words) -> (p: Self)
        ensures
            p == Self::of_words(w),
            p.words() == w,
    {
        InstrumentParams { a: w.0, b: w.1, c: w.2, d: w.3, e: w.4, f: w.5 }
    }
}

} // verus!
