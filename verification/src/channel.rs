//! The bounded queue that carries control snapshots to the audio side.

use crate::params::InstrumentParams;
use crate::params::Words;
use ringbuf::HeapRb;
use ringbuf::Rb;
use vstd::prelude::*;

verus! {

/// A `ringbuf::HeapRb` of snapshots, held whole by one owner. Nothing inside
/// it is visible to proofs: what it holds is known only through `queued` and
/// `slots`, and only from what the three functions below say of them.
#[verifier::external_body]
pub struct Ring {
    inner: HeapRb<Words>,
}

/// The snapshots that wait in a ring buffer, oldest first.
pub uninterp spec fn queued(rb: Ring) -> Seq<Words>;

/// The number of snapshots that a ring buffer was made to hold.
pub uninterp spec fn slots(rb: Ring) -> nat;

/// `HeapRb::try_new` makes an empty ring buffer of the capacity asked for,
/// or fails where the memory for it cannot be had. It panics on a capacity of
/// zero, which is left out here.
#[verifier::external_body]
fn ring_new(capacity: usize) -> (made: Option<Ring>)
    requires
        capacity >= 1,
    ensures
        made is Some ==> queued(made->Some_0) == Seq::<Words>::empty() && slots(made->Some_0)
            == capacity,
{
    match HeapRb::try_new(capacity) {
        Ok(inner) => Some(Ring { inner }),
        Err(_) => None,
    }
}

/// `Rb::push` appends the item where a slot is free; where none is, it leaves
/// the buffer as it was and hands the item back.
#[verifier::external_body]
fn ring_push(rb: &mut Ring, item: Words) -> (r: Result<(), Words>)
    ensures
        slots(*final(rb)) == slots(*old(rb)),
        (r is Ok) == (queued(*old(rb)).len() < slots(*old(rb))),
        r is Ok ==> queued(*final(rb)) == queued(*old(rb)).push(item),
        r is Err ==> r->Err_0 == item && queued(*final(rb)) == queued(*old(rb)),
{
    rb.inner.push(item)
}

/// `Rb::pop` takes the oldest item out, or returns `None` where the buffer
/// is empty.
#[verifier::external_body]
fn ring_pop(rb: &mut Ring) -> (r: Option<Words>)
    ensures
        slots(*final(rb)) == slots(*old(rb)),
        (r is Some) == (queued(*old(rb)).len() > 0),
        r is Some ==> r->Some_0 == queued(*old(rb))[0]
            && queued(*final(rb)) == queued(*old(rb)).drop_first(),
        r is None ==> queued(*final(rb)) == queued(*old(rb)),
{
    rb.inner.pop()
}

/// The snapshots that a sequence of queued words stands for.
pub open spec fn snapshots(q: Seq<Words>) -> Seq<InstrumentParams> {
    q.map_values(|w: Words| InstrumentParams::of_words(w))
}

/// The queue after a push of `p`: one longer where there was room, unchanged
/// where there was none.
pub open spec fn pushed(q: Seq<InstrumentParams>, capacity: nat, p: InstrumentParams) -> Seq<
    InstrumentParams,
> {
    if q.len() < capacity {
        q.push(p)
    } else {
        q
    }
}

/// The newest snapshot of a queue, if it holds any.
pub open spec fn latest(q: Seq<InstrumentParams>) -> Option<InstrumentParams> {
    if q.len() == 0 {
        None
    } else {
        Some(q.last())
    }
}

/// A bounded first-in, first-out queue of snapshots. A push never waits: on a
/// full queue the snapshot is dropped.
pub struct ParamChannel {
    ring: Ring,
}

impl View for ParamChannel {
    type V = Seq<InstrumentParams>;

    closed spec fn view(&self) -> Seq<InstrumentParams> {
        snapshots(queued(self.ring))
    }
}

impl ParamChannel {
    /// The number of snapshots the queue can hold.
    pub closed spec fn capacity(&self) -> nat {
        slots(self.ring)
    }

    /// The queue never holds more than its capacity.
    pub closed spec fn wf(&self) -> bool {
        queued(self.ring).len() <= slots(self.ring)
    }

    /// An empty queue of the given capacity. There is no queue of no slots,
    /// and none where the memory for it cannot be had.
    pub fn new(capacity: usize) -> (made: Option<Self>)
        ensures
            capacity == 0 ==> made is None,
            made is Some ==> made->Some_0.wf() && made->Some_0@ == Seq::<InstrumentParams>::empty()
                && made->Some_0.capacity() == capacity,
    {
        if capacity == 0 {
            return None;
        }
        let ring = ring_new(capacity);
        assert(ring is Some ==> snapshots(queued(ring->Some_0)) =~= Seq::<
            InstrumentParams,
        >::empty());
        Self::over(ring)
    }

    /// The queue over a ring buffer, where there is one: it holds what the
    /// ring buffer holds and has the capacity the ring buffer was made with.
    /// Without a ring buffer there is no queue.
    pub fn over(ring: Option<Ring>) -> (made: Option<Self>)
        ensures
            made is Some == ring is Some,
            made is Some ==> made->Some_0@ == snapshots(queued(ring->Some_0))
                && made->Some_0.capacity() == slots(ring->Some_0)
                && made->Some_0.wf() == (queued(ring->Some_0).len() <= slots(ring->Some_0)),
    {
        match ring {
            Some(ring) => Some(ParamChannel { ring }),
            None => None,
        }
    }

    /// Appends a snapshot where there is room and says whether it did.
    pub fn push(&mut self, p: InstrumentParams) -> (accepted: bool)
        requires
            old(self).wf(),
        ensures
            final(self).wf(),
            final(self).capacity() == old(self).capacity(),
            accepted == (old(self)@.len() < old(self).capacity()),
            final(self)@ == pushed(old(self)@, old(self).capacity(), p),
    {
        let r = ring_push(&mut self.ring, p.to_words());
        assert(self@ =~= pushed(old(self)@, old(self).capacity(), p));
        match r {
            Ok(_) => true,
            Err(_) => false,
        }
    }

    /// Empties the queue and returns the newest snapshot it held, if any.
    pub fn drain_latest(&mut self) -> (newest: Option<InstrumentParams>)
        requires
            old(self).wf(),
        ensures
            final(self).wf(),
            final(self).capacity() == old(self).capacity(),
            final(self)@ == Seq::<InstrumentParams>::empty(),
            newest == latest(old(self)@),
    {
        let mut newest: Option<InstrumentParams> = None;
        let ghost before = queued(self.ring);
        let ghost mut taken: int = 0;
        loop
            invariant
                slots(self.ring) == slots(old(self).ring),
                before == queued(old(self).ring),
                0 <= taken <= before.len(),
                queued(self.ring) == before.skip(taken),
                newest == latest(snapshots(before.take(taken))),
            ensures
                queued(self.ring).len() == 0,
                taken == before.len(),
            decreases before.len() - taken,
        {
            match ring_pop(&mut self.ring) {
                Some(w) => {
                    newest = Some(InstrumentParams::from_words(w));
                    proof {
                        assert(before.skip(taken).drop_first() =~= before.skip(taken + 1));
                        assert(before.take(taken + 1).last() == before[taken]);
                        taken = taken + 1;
                    }
                },
                None => {
                    break ;
                },
            }
        }
        assert(before.take(taken) =~= before);
        assert(self@ =~= Seq::<InstrumentParams>::empty());
        newest
    }
}

/// Last write wins: of two snapshots pushed with no drain between them, a
/// drain returns the second, provided the queue had room for both.
pub proof fn lemma_last_write_wins(
    q: Seq<InstrumentParams>,
    capacity: nat,
    first: InstrumentParams,
    second: InstrumentParams,
)
    requires
        q.len() + 2 <= capacity,
    ensures
        latest(pushed(pushed(q, capacity, first), capacity, second)) == Some(second),
{
}

/// A push on a full queue changes nothing, and after a drain the queue takes
/// pushes again.
pub proof fn lemma_full_then_drained(q: Seq<InstrumentParams>, capacity: nat, p: InstrumentParams)
    requires
        capacity >= 1,
        q.len() == capacity,
    ensures
        pushed(q, capacity, p) == q,
        pushed(Seq::<InstrumentParams>::empty(), capacity, p) == seq![p],
{
    assert(Seq::<InstrumentParams>::empty().push(p) =~= seq![p]);
}

} // verus!
