//! Double-buffered exchange of state between threads.
//!
//! Producers write into the back slot, one at a time, behind its lock. The
//! owner flushes once per period: the back slot is drained, and what it
//! then holds becomes the value that readers see until the next flush.
//! Readers never wait for a producer.

use vstd::prelude::*;
use parking_lot::{Mutex, MutexGuard, RawMutex};

verus! {

/// The mutex of `lock_api`, which `parking_lot` instantiates.
#[verifier::external_type_specification]
#[verifier::external_body]
#[verifier::reject_recursive_types(R)]
#[verifier::reject_recursive_types(T)]
pub struct ExMutex<R, T: ?Sized>(parking_lot::lock_api::Mutex<R, T>);

/// The guard of a locked mutex of `parking_lot`: the lock is free again
/// when this value goes.
#[verifier::external_body]
#[verifier::reject_recursive_types(T)]
struct SlotGuard<'a, T> {
    guard: MutexGuard<'a, T>,
}

/// A slot of a [`CopySwap`], locked: the guard of the slot's mutex, and
/// which of the two slots it is.
#[verifier::reject_recursive_types(T)]
pub struct BackGuard<'a, T> {
    guard: SlotGuard<'a, T>,
    slot: usize,
}

/// The raw lock of `parking_lot`.
#[verifier::external_type_specification]
#[verifier::external_body]
pub struct ExRawMutex(RawMutex);

/// A value that can be exchanged through a [`CopySwap`]: it says how it is
/// drained when a period ends.
pub trait Flushable: Sized {
    /// The value once drained: what lasts beyond the period stays, what
    /// belongs to the period goes. A type that says nothing else has
    /// nothing to drain.
    open spec fn flushed(self) -> Self {
        self
    }

    /// Drains the value in place.
    fn flush(&mut self)
        ensures
            *final(self) == old(self).flushed(),
    ;
}

/// `Mutex::new`: an unlocked mutex around `value`.
#[verifier::external_body]
fn slot_new<T>(value: T) -> Mutex<T> {
    Mutex::new(value)
}

/// `Mutex::lock` on the slot at `index`: waits until the lock is free and
/// takes it. The guard that comes back is that of this slot and of no
/// other. A thread that already holds the guard of this mutex waits for
/// ever.
#[verifier::external_body]
fn slot_lock<T>(slots: &[Mutex<T>; 2], index: usize) -> (r: BackGuard<'_, T>)
    requires
        index < 2,
    ensures
        r.slot() == index,
{
    BackGuard { guard: SlotGuard { guard: slots[index].lock() }, slot: index }
}

/// `Mutex::get_mut`: the value in the mutex, which nobody else can reach
/// while it is borrowed for writing.
#[verifier::external_body]
fn slot_mut<T>(slot: &mut Mutex<T>) -> &mut T {
    slot.get_mut()
}

/// Ends a period on the two slots of a buffer: drains `back` and makes
/// `front` a copy of what is left.
pub fn commit<T: Copy + Flushable>(back: &mut T, front: &mut T)
    ensures
        *final(back) == old(back).flushed(),
        *final(front) == old(back).flushed(),
{
    back.flush();
    *front = *back;
}

/// Two lock-protected slots and the index of the one that holds the last
/// committed value.
#[verifier::reject_recursive_types(T)]
pub struct CopySwap<T: Copy + Flushable> {
    datas: [Mutex<T>; 2],
    read_index: usize,
    front: T,
}

impl<'a, T> BackGuard<'a, T> {
    /// The index of the slot that this guard holds locked.
    pub closed spec fn slot(&self) -> int {
        self.slot as int
    }

    /// The guard's `Deref`: the value in the locked slot.
    #[verifier::external_body]
    pub fn get(&self) -> &T {
        &*self.guard.guard
    }

    /// The guard's `DerefMut`: the value in the locked slot, to be changed
    /// in place. The guard stays that of the same slot.
    #[verifier::external_body]
    pub fn get_mut(&mut self) -> (r: &mut T)
        ensures
            final(self).slot() == old(self).slot(),
    {
        &mut *self.guard.guard
    }
}

impl<T: Copy + Flushable> CopySwap<T> {
    /// The last committed value: what readers see.
    pub closed spec fn committed(&self) -> T {
        self.front
    }

    /// The index of the slot that holds the last committed value.
    pub closed spec fn read_slot(&self) -> int {
        if self.read_index == 0 {
            0
        } else {
            1
        }
    }

    /// A buffer whose two slots both hold `init_val`.
    pub fn new(init_val: T) -> (r: Self)
        ensures
            r.committed() == init_val,
            r.read_slot() == 0,
    {
        CopySwap { datas: [slot_new(init_val), slot_new(init_val)], read_index: 0, front: init_val }
    }

    /// Ends a period: the back slot is drained, what it then holds is
    /// copied over the front slot, and the two slots change roles. From
    /// now on readers see the drained value.
    pub fn flush(&mut self)
        ensures
            final(self).read_slot() == 1 - old(self).read_slot(),
            exists|staged: T| final(self).committed() == #[trigger] staged.flushed(),
    {
        let write_index = self.get_write_index();
        let read_index = self.get_read_index();
        let ghost staged: T;
        {
            let back = slot_mut(&mut self.datas[write_index]);
            proof {
                staged = *back;
            }
            commit(back, &mut self.front);
        }
        let committed = self.front;
        *slot_mut(&mut self.datas[read_index]) = committed;
        self.read_index = write_index;
        assert(final(self).committed() == staged.flushed());
    }

    /// Ends a period, as [`CopySwap::flush`] does.
    pub fn swap(&mut self)
        ensures
            final(self).read_slot() == 1 - old(self).read_slot(),
            exists|staged: T| final(self).committed() == #[trigger] staged.flushed(),
    {
        self.flush()
    }

    /// Writes `value` to the back slot and ends the period at once: what
    /// readers see from now on is `value`, drained.
    pub fn publish(&mut self, value: T)
        ensures
            final(self).read_slot() == 1 - old(self).read_slot(),
            final(self).committed() == value.flushed(),
    {
        let write_index = self.get_write_index();
        let read_index = self.get_read_index();
        {
            let back = slot_mut(&mut self.datas[write_index]);
            *back = value;
            commit(back, &mut self.front);
        }
        let committed = self.front;
        *slot_mut(&mut self.datas[read_index]) = committed;
        self.read_index = write_index;
    }

    fn get_read_index(&self) -> (r: usize)
        ensures
            r == self.read_slot(),
    {
        if self.read_index == 0 {
            0
        } else {
            1
        }
    }

    fn get_write_index(&self) -> (r: usize)
        ensures
            r == 1 - self.read_slot(),
    {
        if self.read_index == 0 {
            1
        } else {
            0
        }
    }

    /// The last committed value. No lock is taken.
    pub fn get(&self) -> (r: &T)
        ensures
            *r == self.committed(),
    {
        &self.front
    }

    /// The back slot, locked: the caller changes it through the guard, and
    /// the lock is free again when the guard goes. The slot that is locked
    /// is never the one that readers see.
    ///
    /// This waits for as long as another guard of the back slot is alive. A
    /// thread that still holds such a guard itself never comes back from
    /// the call.
    pub fn get_mut(&self) -> (r: BackGuard<'_, T>)
        ensures
            r.slot() == 1 - self.read_slot(),
    {
        slot_lock(&self.datas, self.get_write_index())
    }

    /// A buffer reads from one of its two slots.
    pub proof fn lemma_read_slot(&self)
        ensures
            self.read_slot() == 0 || self.read_slot() == 1,
    {
    }
}

impl<T: Copy + Flushable + Default> Default for CopySwap<T> {
    /// A buffer whose two slots both hold a default value of `T`.
    fn default() -> (r: Self)
        ensures
            call_ensures(T::default, (), r.committed()),
            r.read_slot() == 0,
    {
        CopySwap::new(T::default())
    }
}

} // verus!
