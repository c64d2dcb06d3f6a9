//! Bounded buffer of the events of one period.
//!
//! Events are appended until the buffer is full; what arrives after that is
//! dropped without notice. Flushing starts the next period with an empty
//! buffer and the same capacity.

use vstd::prelude::*;
use crate::fixed::{filled_with_clones, filled_with_defaults};

verus! {

/// At most `MAX` events, in the order they were pushed.
#[derive(Debug)]
pub struct EventBuffer<T, const MAX: usize> {
    events: [T; MAX],
    events_count: usize,
}

impl<T, const MAX: usize> View for EventBuffer<T, MAX> {
    type V = Seq<T>;

    closed spec fn view(&self) -> Seq<T> {
        self.events@.take(self.events_count as int)
    }
}

/// The events of a buffer of capacity `max` that held `events` when `event`
/// was pushed: `event` is appended while there is room and dropped when
/// there is none.
pub open spec fn pushed<T>(events: Seq<T>, event: T, max: nat) -> Seq<T> {
    if events.len() < max {
        events.push(event)
    } else {
        events
    }
}

/// The events of a buffer of capacity `max` that held `events` when
/// `arrivals` were pushed one after the other.
pub open spec fn pushed_all<T>(events: Seq<T>, arrivals: Seq<T>, max: nat) -> Seq<T>
    decreases arrivals.len(),
{
    if arrivals.len() == 0 {
        events
    } else {
        pushed(pushed_all(events, arrivals.drop_last(), max), arrivals.last(), max)
    }
}

impl<T, const MAX: usize> EventBuffer<T, MAX> {
    #[verifier::type_invariant]
    spec fn within_capacity(&self) -> bool {
        self.events_count <= MAX
    }

    /// Appends `event`, or drops it when the buffer already holds `MAX`
    /// events.
    pub fn push(&mut self, event: T)
        ensures
            final(self)@ == pushed(old(self)@, event, MAX as nat),
            final(self)@.len() <= MAX,
    {
        proof {
            use_type_invariant(&*self);
        }
        if self.events_count < MAX {
            self.events[self.events_count] = event;
            self.events_count += 1;
            assert(final(self)@ =~= old(self)@.push(event));
        }
    }

    /// The buffer once flushed.
    pub closed spec fn emptied(self) -> Self {
        EventBuffer { events: self.events, events_count: 0 }
    }

    /// A flushed buffer holds no events.
    pub broadcast proof fn lemma_emptied(self)
        ensures
            #[trigger] self.emptied()@ == Seq::<T>::empty(),
    {
        assert(self.emptied()@ =~= Seq::<T>::empty());
    }

    /// Empties the buffer. Its capacity stays what it was.
    pub fn flush(&mut self)
        ensures
            *final(self) == old(self).emptied(),
            final(self)@ == Seq::<T>::empty(),
    {
        self.events_count = 0;
        assert(final(self)@ =~= Seq::<T>::empty());
    }

    /// The events pushed since the last flush, oldest first.
    pub fn as_slice(&self) -> (r: &[T])
        ensures
            r@ == self@,
            r@.len() <= MAX,
    {
        proof {
            use_type_invariant(self);
        }
        let r = &self.events[0..self.events_count];
        assert(r@ =~= self@);
        r
    }

    /// The events pushed since the last flush, oldest first.
    pub fn iter(&self) -> (r: &[T])
        ensures
            r@ == self@,
            r@.len() <= MAX,
    {
        self.as_slice()
    }
}

impl<T: Clone, const MAX: usize> EventBuffer<T, MAX> {
    /// An empty buffer. `init_val` is never read: it only fills the storage
    /// until events arrive.
    pub fn new(init_val: T) -> (r: Self)
        ensures
            r@ == Seq::<T>::empty(),
    {
        let r = EventBuffer { events: filled_with_clones(&init_val), events_count: 0 };
        assert(r@ =~= Seq::<T>::empty());
        r
    }
}

impl<T: Default, const MAX: usize> EventBuffer<T, MAX> {
    /// An empty buffer whose storage is filled with default values.
    pub fn new_with_default() -> (r: Self)
        ensures
            r@ == Seq::<T>::empty(),
    {
        let r = EventBuffer { events: filled_with_defaults(), events_count: 0 };
        assert(r@ =~= Seq::<T>::empty());
        r
    }
}

impl<T: Clone, const MAX: usize> Clone for EventBuffer<T, MAX> {
    fn clone(&self) -> (r: Self)
        ensures
            r@.len() == self@.len(),
            forall|i: int| 0 <= i < self@.len() ==> cloned(self@[i], #[trigger] r@[i]),
    {
        proof {
            use_type_invariant(self);
        }
        EventBuffer { events: self.events.clone(), events_count: self.events_count }
    }
}

impl<T: Copy, const MAX: usize> Copy for EventBuffer<T, MAX> {

}

impl<T: Default, const MAX: usize> Default for EventBuffer<T, MAX> {
    fn default() -> (r: Self)
        ensures
            r@ == Seq::<T>::empty(),
    {
        Self::new_with_default()
    }
}

/// A buffer keeps the first events that fit and nothing else: after any run
/// of pushes it holds what it held before, followed by the arrivals, cut off
/// at its capacity.
pub proof fn lemma_pushes_keep_first<T>(events: Seq<T>, arrivals: Seq<T>, max: nat)
    requires
        events.len() <= max,
    ensures
        pushed_all(events, arrivals, max) == (events + arrivals).take(
            if events.len() + arrivals.len() <= max {
                (events.len() + arrivals.len()) as int
            } else {
                max as int
            },
        ),
    decreases arrivals.len(),
{
    if arrivals.len() == 0 {
        assert(events + arrivals =~= events);
        assert(events.take(events.len() as int) =~= events);
    } else {
        let earlier = arrivals.drop_last();
        lemma_pushes_keep_first(events, earlier, max);
        let before = pushed_all(events, earlier, max);
        assert((events + earlier) =~= (events + arrivals).take((events.len() + earlier.len()) as int));
        if events.len() + earlier.len() < max {
            assert(before =~= events + earlier);
            assert(before.push(arrivals.last()) =~= events + arrivals);
            assert((events + arrivals).take((events.len() + arrivals.len()) as int) =~= events + arrivals);
        } else {
            assert(before =~= (events + arrivals).take(max as int));
        }
    }
}

/// A flush gives the whole capacity back: whatever a flushed buffer is
/// sent, up to `max` events, it keeps in full.
pub proof fn lemma_room_after_flush<T>(arrivals: Seq<T>, max: nat)
    requires
        arrivals.len() <= max,
    ensures
        pushed_all(Seq::<T>::empty(), arrivals, max) == arrivals,
{
    lemma_pushes_keep_first(Seq::<T>::empty(), arrivals, max);
    assert(Seq::<T>::empty() + arrivals =~= arrivals);
    assert(arrivals.take(arrivals.len() as int) =~= arrivals);
}

/// Overflow is dropped: pushing more events than an empty buffer has room
/// for leaves exactly `max` of them, the first ones.
pub proof fn lemma_overflow_is_dropped<T>(arrivals: Seq<T>, max: nat)
    requires
        arrivals.len() > max,
    ensures
        pushed_all(Seq::<T>::empty(), arrivals, max).len() == max,
        pushed_all(Seq::<T>::empty(), arrivals, max) == arrivals.take(max as int),
{
    lemma_pushes_keep_first(Seq::<T>::empty(), arrivals, max);
    assert(Seq::<T>::empty() + arrivals =~= arrivals);
}

} // verus!
