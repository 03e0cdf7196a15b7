//! A fixed-capacity single-producer/single-consumer event queue.
//!
//! The queue is a classic ring buffer: a backing store of `capacity +
//! 1` slots plus a head and a tail index, so that empty and full are
//! distinguishable by comparing the two indices alone. It is filled
//! from interrupt context and drained by the main loop; pushing onto a
//! full queue drops the new event silently instead of blocking, and
//! popping from an empty queue returns `None`. The backing store is
//! allocated once at construction and never grows.

use vstd::prelude::*;

use crate::events::ButtonIdentity;
use crate::events::InputEvent;
use crate::events::Transition;

verus! {

/// What one push does to the queue contents: the event is appended
/// when there is room and dropped (drop-newest) when there is none.
pub open spec fn spec_push(contents: Seq<InputEvent>, cap: nat, e: InputEvent) -> Seq<
    InputEvent,
> {
    if contents.len() < cap {
        contents.push(e)
    } else {
        contents
    }
}

/// The queue contents after pushing a whole sequence of events, in
/// order, with no pops in between.
pub open spec fn spec_push_all(
    contents: Seq<InputEvent>,
    cap: nat,
    events: Seq<InputEvent>,
) -> Seq<InputEvent>
    decreases events.len(),
{
    if events.len() == 0 {
        contents
    } else {
        spec_push_all(spec_push(contents, cap, events[0]), cap, events.drop_first())
    }
}

/// The values popped when each event is pushed and the queue is popped
/// once right after that push, starting from the given contents.
pub open spec fn spec_interleaved_pops(
    contents: Seq<InputEvent>,
    cap: nat,
    events: Seq<InputEvent>,
) -> Seq<InputEvent>
    decreases events.len(),
{
    if events.len() == 0 {
        Seq::empty()
    } else {
        let after_push = spec_push(contents, cap, events[0]);
        if after_push.len() == 0 {
            spec_interleaved_pops(after_push, cap, events.drop_first())
        } else {
            seq![after_push[0]] + spec_interleaved_pops(
                after_push.drop_first(),
                cap,
                events.drop_first(),
            )
        }
    }
}

/// A bounded queue of input events with drop-newest overflow policy.
pub struct BoundedEventQueue {
    storage: Vec<InputEvent>,
    head: usize,
    tail: usize,
}

impl View for BoundedEventQueue {
    type V = Seq<InputEvent>;

    /// The live contents, oldest first.
    closed spec fn view(&self) -> Seq<InputEvent> {
        if self.tail >= self.head {
            self.storage@.subrange(self.head as int, self.tail as int)
        } else {
            self.storage@.subrange(self.head as int, self.storage@.len() as int)
                + self.storage@.subrange(0, self.tail as int)
        }
    }
}

impl BoundedEventQueue {
    /// The ring-buffer invariant: one spare slot distinguishes a full
    /// queue from an empty one, and both indices stay in bounds.
    pub closed spec fn wf(&self) -> bool {
        &&& self.storage@.len() >= 2
        &&& self.head < self.storage@.len()
        &&& self.tail < self.storage@.len()
    }

    /// How many events the queue can hold at once.
    pub closed spec fn capacity(&self) -> nat {
        (self.storage@.len() - 1) as nat
    }

    /// Creates an empty queue that holds up to `capacity` events.
    pub fn new(capacity: usize) -> (q: Self)
        requires
            1 <= capacity < usize::MAX,
        ensures
            q.wf(),
            q.capacity() == capacity,
            q@ == Seq::<InputEvent>::empty(),
    {
        let slots = capacity + 1;
        let filler = InputEvent {
            source: ButtonIdentity::TopLeft,
            transition: Transition::Released,
        };
        let mut storage: Vec<InputEvent> = Vec::new();
        let mut i: usize = 0;
        while i < slots
            invariant
                i <= slots,
                storage@.len() == i,
            decreases slots - i,
        {
            storage.push(filler);
            i = i + 1;
        }
        let q = BoundedEventQueue { storage, head: 0, tail: 0 };
        proof {
            assert(q@ =~= Seq::<InputEvent>::empty());
        }
        q
    }

    /// Pushes one event. Returns `true` when the event was stored and
    /// `false` when the queue was full and the event was dropped; a
    /// push never blocks and never reorders what is already queued.
    pub fn push(&mut self, e: InputEvent) -> (stored: bool)
        requires
            old(self).wf(),
        ensures
            final(self).wf(),
            final(self).capacity() == old(self).capacity(),
            final(self)@ == spec_push(old(self)@, old(self).capacity(), e),
            stored == (old(self)@.len() < old(self).capacity()),
    {
        let slots = self.storage.len();
        let next = if self.tail + 1 == slots {
            0
        } else {
            self.tail + 1
        };
        if next == self.head {
            proof {
                assert(old(self)@.len() == old(self).capacity());
            }
            false
        } else {
            self.storage[self.tail] = e;
            self.tail = next;
            proof {
                assert(old(self)@.len() < old(self).capacity());
                assert(self@ =~= old(self)@.push(e));
            }
            true
        }
    }

    /// Pops the oldest event, or `None` when the queue is empty.
    pub fn pop(&mut self) -> (r: Option<InputEvent>)
        requires
            old(self).wf(),
        ensures
            final(self).wf(),
            final(self).capacity() == old(self).capacity(),
            old(self)@.len() == 0 ==> r is None && final(self)@ == old(self)@,
            old(self)@.len() > 0 ==> r == Some(old(self)@[0]) && final(self)@ == old(
                self,
            )@.drop_first(),
    {
        if self.head == self.tail {
            None
        } else {
            let slots = self.storage.len();
            let e = self.storage[self.head];
            self.head = if self.head + 1 == slots {
                0
            } else {
                self.head + 1
            };
            proof {
                if old(self).head < old(self).tail {
                    assert(self@ =~= old(self)@.drop_first());
                } else {
                    assert(self@ =~= old(self)@.drop_first());
                }
            }
            Some(e)
        }
    }

    /// How many events are queued right now.
    pub fn len(&self) -> (n: usize)
        requires
            self.wf(),
        ensures
            n == self@.len(),
    {
        if self.tail >= self.head {
            self.tail - self.head
        } else {
            self.storage.len() - self.head + self.tail
        }
    }

    /// Whether the queue holds no events.
    pub fn is_empty(&self) -> (b: bool)
        requires
            self.wf(),
        ensures
            b == (self@.len() == 0),
    {
        self.head == self.tail
    }
}

/// Bounded FIFO delivery with drop-newest overflow: pushing events
/// E1..EN into an empty capacity-C queue leaves exactly the first
/// min(N, C) of them queued, in their original relative order, so a
/// drain observes min(N, C) events and the pushes beyond capacity are
/// the ones that were dropped.
pub proof fn lemma_bounded_fifo_drop_newest(events: Seq<InputEvent>, cap: nat)
    ensures
        spec_push_all(Seq::empty(), cap, events) == events.take(
            vstd::math::min(events.len() as int, cap as int),
        ),
{
    lemma_push_all_fills_room(Seq::empty(), cap, events);
    assert(Seq::<InputEvent>::empty() + events.take(
        vstd::math::min(events.len() as int, cap as int),
    ) =~= events.take(vstd::math::min(events.len() as int, cap as int)));
}

/// Pushing a sequence of events appends exactly as many of its first
/// elements as the queue has room for.
proof fn lemma_push_all_fills_room(contents: Seq<InputEvent>, cap: nat, events: Seq<InputEvent>)
    requires
        contents.len() <= cap,
    ensures
        spec_push_all(contents, cap, events) == contents + events.take(
            vstd::math::min(events.len() as int, cap - contents.len()),
        ),
    decreases events.len(),
{
    let room = cap - contents.len();
    let taken = vstd::math::min(events.len() as int, room);
    if events.len() == 0 {
        assert(contents + events.take(0) =~= contents);
    } else {
        let e0 = events[0];
        let rest = events.drop_first();
        if contents.len() < cap {
            let pushed = contents.push(e0);
            lemma_push_all_fills_room(pushed, cap, rest);
            let taken_rest = vstd::math::min(rest.len() as int, room - 1);
            assert(pushed + rest.take(taken_rest) =~= contents + events.take(taken));
        } else {
            lemma_push_all_fills_room(contents, cap, rest);
            assert(contents + rest.take(0) =~= contents);
            assert(contents + events.take(0) =~= contents);
        }
    }
}

/// Interleaved delivery: starting from an empty queue that can hold at
/// least one event, pushing each event and popping right after each
/// push delivers every event exactly once, in push order, with no loss
/// and no duplication; the queue never reaches capacity.
pub proof fn lemma_interleaved_delivery(events: Seq<InputEvent>, cap: nat)
    requires
        cap >= 1,
    ensures
        spec_interleaved_pops(Seq::empty(), cap, events) == events,
    decreases events.len(),
{
    if events.len() == 0 {
        assert(spec_interleaved_pops(Seq::empty(), cap, events) =~= events);
    } else {
        let e0 = events[0];
        let rest = events.drop_first();
        let after_push = spec_push(Seq::empty(), cap, e0);
        assert(after_push =~= seq![e0]);
        assert(after_push.drop_first() =~= Seq::<InputEvent>::empty());
        lemma_interleaved_delivery(rest, cap);
        assert(seq![after_push[0]] + rest =~= events);
    }
}

} // verus!
