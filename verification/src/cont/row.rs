//! Component rows: one value of a component type per entity slot.
//!
//! A row knows nothing of liveness. Whoever holds an entity asks the
//! allocator that issued it whether it is still live, and only then trusts
//! what the row holds for it; several rows can so share one allocator.

use vstd::prelude::*;
use crate::cont::Cont;
use crate::cont::entity::Entity;
use crate::fixed::{filled_with_clones, filled_with_defaults};

verus! {

/// A fixed array of `T`, indexed by entity slot.
#[derive(Debug)]
pub struct Row<T, const MAX_ENTITIES: usize> {
    datas: [T; MAX_ENTITIES],
}

impl<T, const MAX_ENTITIES: usize> View for Row<T, MAX_ENTITIES> {
    type V = Seq<T>;

    closed spec fn view(&self) -> Seq<T> {
        self.datas@
    }
}

impl<T, const MAX_ENTITIES: usize> Row<T, MAX_ENTITIES> {
    /// A row always has one slot per entity index.
    pub proof fn lemma_len(&self)
        ensures
            self@.len() == MAX_ENTITIES,
    {
    }

    /// The component of `entity`.
    ///
    /// The entity's index must lie inside the row: an allocator and a row
    /// of different capacities do not go together.
    pub fn get<C: Cont>(&self, entity: Entity<C>) -> (r: &T)
        requires
            entity@.index < MAX_ENTITIES,
        ensures
            *r == self@[entity@.index as int],
    {
        &self.datas[entity.id()]
    }

    /// The component of `entity`, to be changed in place. Whatever the
    /// caller leaves behind the reference is what the row then holds for
    /// that index; every other index keeps its value.
    pub fn get_mut<C: Cont>(&mut self, entity: Entity<C>) -> (r: &mut T)
        requires
            entity@.index < MAX_ENTITIES,
        ensures
            *r == old(self)@[entity@.index as int],
            final(self)@ == old(self)@.update(entity@.index as int, *final(r)),
    {
        &mut self.datas[entity.id()]
    }

    /// All components, by slot.
    pub fn as_slice(&self) -> (r: &[T])
        ensures
            r@ == self@,
    {
        &self.datas
    }

    /// All components, by slot, to be changed in place.
    pub fn as_mut_slice(&mut self) -> (r: &mut [T])
        ensures
            r@ == old(self)@,
            final(self)@ == final(r)@,
    {
        &mut self.datas
    }
}

impl<T: Clone, const MAX_ENTITIES: usize> Row<T, MAX_ENTITIES> {
    /// A row with a clone of `init_val` in every slot.
    pub fn new(init_val: T) -> (r: Self)
        ensures
            r@.len() == MAX_ENTITIES,
            forall|i: int| 0 <= i < MAX_ENTITIES ==> cloned(init_val, #[trigger] r@[i]),
    {
        Row { datas: filled_with_clones(&init_val) }
    }
}

impl<T: Default, const MAX_ENTITIES: usize> Row<T, MAX_ENTITIES> {
    /// A row with the default value of `T` in every slot.
    pub fn new_with_default() -> (r: Self)
        ensures
            r@.len() == MAX_ENTITIES,
            forall|i: int| 0 <= i < MAX_ENTITIES ==> call_ensures(T::default, (), #[trigger] r@[i]),
    {
        Row { datas: filled_with_defaults() }
    }
}

impl<T: Clone, const MAX_ENTITIES: usize> Clone for Row<T, MAX_ENTITIES> {
    fn clone(&self) -> (r: Self)
        ensures
            r@.len() == MAX_ENTITIES,
            forall|i: int| 0 <= i < MAX_ENTITIES ==> cloned(self@[i], #[trigger] r@[i]),
    {
        Row { datas: self.datas.clone() }
    }
}

impl<T: Copy, const MAX_ENTITIES: usize> Copy for Row<T, MAX_ENTITIES> {

}

impl<T: Default, const MAX_ENTITIES: usize> Default for Row<T, MAX_ENTITIES> {
    fn default() -> (r: Self)
        ensures
            r@.len() == MAX_ENTITIES,
            forall|i: int| 0 <= i < MAX_ENTITIES ==> call_ensures(T::default, (), #[trigger] r@[i]),
    {
        Self::new_with_default()
    }
}

/// A row's contents after the writes of `writes` were made through
/// `get_mut`, first to last: each one an index and the value left there.
/// An index outside the row is no write.
pub open spec fn written<T>(row: Seq<T>, writes: Seq<(int, T)>) -> Seq<T>
    decreases writes.len(),
{
    if writes.len() == 0 {
        row
    } else {
        let before = written(row, writes.drop_last());
        if 0 <= writes.last().0 < before.len() {
            before.update(writes.last().0, writes.last().1)
        } else {
            before
        }
    }
}

/// A slot holds what was last written to it, whatever was written to other
/// slots since: if write `k` is the last of `writes` to its index, the row
/// holds that write's value there afterwards.
pub proof fn lemma_last_write_wins<T>(row: Seq<T>, writes: Seq<(int, T)>, k: int)
    requires
        0 <= k < writes.len(),
        0 <= writes[k].0 < row.len(),
        forall|m: int| k < m < writes.len() ==> (#[trigger] writes[m]).0 != writes[k].0,
    ensures
        written(row, writes).len() == row.len(),
        written(row, writes)[writes[k].0] == writes[k].1,
    decreases writes.len(),
{
    lemma_written_len(row, writes);
    lemma_written_len(row, writes.drop_last());
    if k < writes.len() - 1 {
        let earlier = writes.drop_last();
        assert(earlier[k] == writes[k]);
        assert forall|m: int| k < m < earlier.len() implies (#[trigger] earlier[m]).0 != earlier[k].0 by {
            assert(earlier[m] == writes[m]);
        }
        lemma_last_write_wins(row, earlier, k);
    }
}

/// Writing through `get_mut` never changes how many slots a row has.
pub proof fn lemma_written_len<T>(row: Seq<T>, writes: Seq<(int, T)>)
    ensures
        written(row, writes).len() == row.len(),
    decreases writes.len(),
{
    if writes.len() > 0 {
        lemma_written_len(row, writes.drop_last());
    }
}

} // verus!
