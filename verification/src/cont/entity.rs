//! Generational index allocator.
//!
//! Every slot of the allocator carries a generation counter and an occupancy
//! flag. An entity names a slot together with the generation the slot had
//! when the entity was spawned; despawning bumps the generation, which makes
//! every handle issued before it stale for good.

use vstd::prelude::*;
use core::marker::PhantomData;
use crate::cont::Cont;

verus! {

/// What an entity is, mathematically: a slot index and a generation.
pub struct EntityView {
    pub index: nat,
    pub generation: nat,
}

/// What one slot of an allocator holds.
pub struct SlotView {
    pub generation: nat,
    pub occupied: bool,
}

/// Handle to one entity of a container of type `C`.
pub struct Entity<C: Cont> {
    id: usize,
    generation: usize,
    _phantom: PhantomData<C>,
}

impl<C: Cont> Clone for Entity<C> {
    fn clone(&self) -> (r: Self)
        ensures
            r == *self,
    {
        Entity { id: self.id, generation: self.generation, _phantom: PhantomData }
    }
}

impl<C: Cont> Copy for Entity<C> {

}

impl<C: Cont> View for Entity<C> {
    type V = EntityView;

    closed spec fn view(&self) -> EntityView {
        EntityView { index: self.id as nat, generation: self.generation as nat }
    }
}

impl<C: Cont> Entity<C> {
    /// The slot index of this entity.
    pub fn id(&self) -> (r: usize)
        ensures
            r == self@.index,
    {
        self.id
    }
}

#[derive(Debug, Clone, Copy)]
struct Generation(usize);

#[derive(Debug, Clone, Copy)]
struct Exists(bool);

/// `i` is the lowest free slot of `slots`.
pub open spec fn is_first_free(slots: Seq<SlotView>, i: int) -> bool {
    &&& 0 <= i < slots.len()
    &&& !slots[i].occupied
    &&& forall|j: int| 0 <= j < i ==> (#[trigger] slots[j]).occupied
}

/// Some slot of `slots` is free.
pub open spec fn has_free(slots: Seq<SlotView>) -> bool {
    exists|i: int| 0 <= i < slots.len() && !(#[trigger] slots[i]).occupied
}

/// `e` names an occupied slot of `slots` at the slot's current generation.
pub open spec fn is_live(slots: Seq<SlotView>, e: EntityView) -> bool {
    &&& e.index < slots.len()
    &&& slots[e.index as int].occupied
    &&& slots[e.index as int].generation == e.generation
}

/// `slots` after the free slot `i` was handed out.
pub open spec fn occupy(slots: Seq<SlotView>, i: int) -> Seq<SlotView> {
    slots.update(i, SlotView { generation: slots[i].generation, occupied: true })
}

/// `slots` after the entity in slot `i` was retired.
pub open spec fn retire(slots: Seq<SlotView>, i: int) -> Seq<SlotView> {
    slots.update(i, SlotView { generation: slots[i].generation + 1, occupied: false })
}

/// What `spawn` does: `e` is the lowest free slot of `pre` at its current
/// generation, and `post` is `pre` with that slot occupied.
pub open spec fn spawn_step(pre: Seq<SlotView>, post: Seq<SlotView>, e: EntityView) -> bool {
    &&& is_first_free(pre, e.index as int)
    &&& e.generation == pre[e.index as int].generation
    &&& post == occupy(pre, e.index as int)
}

/// What `despawn` does: a live `e` has its slot retired, anything else
/// leaves the slots as they were.
pub open spec fn despawn_step(pre: Seq<SlotView>, post: Seq<SlotView>, e: EntityView) -> bool {
    if is_live(pre, e) {
        post == retire(pre, e.index as int)
    } else {
        post == pre
    }
}

/// One operation of an allocator leads from `pre` to `post`.
pub open spec fn step(pre: Seq<SlotView>, post: Seq<SlotView>) -> bool {
    exists|e: EntityView|
        #![trigger spawn_step(pre, post, e)]
        #![trigger despawn_step(pre, post, e)]
        spawn_step(pre, post, e) || despawn_step(pre, post, e)
}

/// `states` is a history of one allocator: each state follows from the one
/// before it by a spawn or a despawn.
pub open spec fn is_history(states: Seq<Seq<SlotView>>) -> bool {
    forall|k: int| 0 <= k < states.len() - 1 ==> step(#[trigger] states[k], states[k + 1])
}

/// `e` names a slot whose generation has moved past the entity's own.
pub open spec fn is_stale(slots: Seq<SlotView>, e: EntityView) -> bool {
    &&& e.index < slots.len()
    &&& e.generation < slots[e.index as int].generation
}

/// The entities that are live in `slots`.
pub open spec fn live_set(slots: Seq<SlotView>) -> Set<EntityView> {
    Set::new(|e: EntityView| is_live(slots, e))
}

/// Liveness bookkeeping for the entities of one container of type `C`.
#[derive(Debug)]
pub struct ContEntities<C: Cont, const MAX_ENTITIES: usize> {
    entities: [(Generation, Exists); MAX_ENTITIES],
    _phantom: PhantomData<C>,
}

impl<C: Cont, const MAX_ENTITIES: usize> View for ContEntities<C, MAX_ENTITIES> {
    type V = Seq<SlotView>;

    closed spec fn view(&self) -> Seq<SlotView> {
        Seq::new(
            MAX_ENTITIES as nat,
            |i: int| SlotView { generation: self.entities[i].0.0 as nat, occupied: self.entities[i].1.0 },
        )
    }
}

impl<C: Cont, const MAX_ENTITIES: usize> Clone for ContEntities<C, MAX_ENTITIES> {
    fn clone(&self) -> (r: Self)
        ensures
            r@ == self@,
    {
        ContEntities { entities: self.entities, _phantom: PhantomData }
    }
}

impl<C: Cont, const MAX_ENTITIES: usize> Copy for ContEntities<C, MAX_ENTITIES> {

}

impl<C: Cont, const MAX_ENTITIES: usize> ContEntities<C, MAX_ENTITIES> {
    /// An allocator with every slot free at generation zero.
    pub fn new() -> (r: Self)
        ensures
            r@.len() == MAX_ENTITIES,
            is_fresh(r@),
    {
        ContEntities { entities: [(Generation(0), Exists(false)); MAX_ENTITIES], _phantom: PhantomData }
    }

    /// Hands out the lowest free slot as a new entity, at the slot's current
    /// generation.
    ///
    /// A full allocator has no slot to give: callers rule that out first.
    pub fn spawn(&mut self) -> (e: Entity<C>)
        requires
            has_free(old(self)@),
        ensures
            spawn_step(old(self)@, final(self)@, e@),
            is_live(final(self)@, e@),
            forall|other: EntityView| #[trigger]
                is_live(old(self)@, other) ==> other.index != e@.index && is_live(final(self)@, other),
    {
        let ghost free: int = choose|k: int| 0 <= k < MAX_ENTITIES && !(#[trigger] old(self)@[k]).occupied;
        let mut id: usize = 0;
        loop
            invariant
                id <= free < MAX_ENTITIES,
                *self == *old(self),
                !self@[free].occupied,
                forall|j: int| 0 <= j < id ==> (#[trigger] self@[j]).occupied,
            decreases MAX_ENTITIES - id,
        {
            let slot = self.entities[id];
            if !slot.1.0 {
                self.entities[id] = (slot.0, Exists(true));
                let e = Entity { id, generation: slot.0.0, _phantom: PhantomData };
                assert(final(self)@ =~= occupy(old(self)@, id as int));
                return e;
            }
            assert(self@[id as int].occupied);
            id += 1;
        }
    }

    /// Retires `entity`. Returns `None`, and changes nothing, when `entity`
    /// is not live; otherwise frees its slot and bumps the slot's generation,
    /// so that every handle to the slot issued so far is stale.
    ///
    /// The generation of a live entity's slot must have room to grow: a
    /// counter at the end of its range cannot be bumped.
    pub fn despawn(&mut self, entity: Entity<C>) -> (r: Option<()>)
        requires
            is_live(old(self)@, entity@) ==> old(self)@[entity@.index as int].generation < usize::MAX,
        ensures
            r.is_some() == is_live(old(self)@, entity@),
            despawn_step(old(self)@, final(self)@, entity@),
            !is_live(final(self)@, entity@),
            r.is_some() ==> !final(self)@[entity@.index as int].occupied && final(self)@[entity@.index as int].generation
                == entity@.generation + 1,
    {
        if !self.has_entity(&entity) {
            return None;
        }
        let id: usize = entity.id;
        let slot = self.entities[id];
        self.entities[id] = (Generation(slot.0.0 + 1), Exists(false));
        assert(final(self)@ =~= retire(old(self)@, id as int));
        Some(())
    }

    /// Whether `entity` can be handed to [`ContEntities::despawn`]: it is
    /// not live, or the generation of its slot has room to grow.
    pub fn can_despawn(&self, entity: &Entity<C>) -> (r: bool)
        ensures
            r == (is_live(self@, entity@) ==> self@[entity@.index as int].generation < usize::MAX),
    {
        let id: usize = entity.id;
        if id < MAX_ENTITIES {
            let slot = self.entities[id];
            !(slot.0.0 == entity.generation && slot.1.0) || slot.0.0 < usize::MAX
        } else {
            true
        }
    }

    /// An allocator always has `MAX_ENTITIES` slots, so that an entity
    /// whose index is beyond them is never live.
    pub proof fn lemma_len(&self)
        ensures
            self@.len() == MAX_ENTITIES,
            forall|e: EntityView| e.index >= MAX_ENTITIES ==> !#[trigger] is_live(self@, e),
    {
    }

    /// Whether no slot is free, so that nothing more can be spawned.
    pub fn is_full(&self) -> (r: bool)
        ensures
            r == !has_free(self@),
    {
        let mut id: usize = 0;
        while id < MAX_ENTITIES
            invariant
                id <= MAX_ENTITIES,
                forall|j: int| 0 <= j < id ==> (#[trigger] self@[j]).occupied,
            decreases MAX_ENTITIES - id,
        {
            if !self.entities[id].1.0 {
                assert(!self@[id as int].occupied);
                return false;
            }
            id += 1;
        }
        true
    }

    /// Whether `entity` is live: its slot is occupied and still has the
    /// generation the entity was spawned with.
    pub fn has_entity(&self, entity: &Entity<C>) -> (r: bool)
        ensures
            r == is_live(self@, entity@),
    {
        let id: usize = entity.id;
        if id < MAX_ENTITIES {
            let slot = self.entities[id];
            slot.0.0 == entity.generation && slot.1.0
        } else {
            false
        }
    }
}

/// The entities that are live in `slots` and sit below slot `n`.
spec fn live_below(slots: Seq<SlotView>, n: int) -> Set<EntityView> {
    Set::new(|e: EntityView| is_live(slots, e) && e.index < n)
}

proof fn lemma_live_below_bounded(slots: Seq<SlotView>, n: int)
    requires
        0 <= n <= slots.len(),
    ensures
        live_below(slots, n).finite(),
        live_below(slots, n).len() <= n,
    decreases n,
{
    if n == 0 {
        assert(live_below(slots, 0) =~= Set::empty());
    } else {
        lemma_live_below_bounded(slots, n - 1);
        let below = live_below(slots, n - 1);
        let last = EntityView { index: (n - 1) as nat, generation: slots[n - 1].generation };
        if slots[n - 1].occupied {
            assert(live_below(slots, n) =~= below.insert(last));
        } else {
            assert(live_below(slots, n) =~= below);
        }
    }
}

/// An allocator never has more live entities than it has slots: each slot
/// carries at most one.
pub proof fn lemma_live_bounded(slots: Seq<SlotView>)
    ensures
        live_set(slots).finite(),
        live_set(slots).len() <= slots.len(),
{
    lemma_live_below_bounded(slots, slots.len() as int);
    assert(live_set(slots) =~= live_below(slots, slots.len() as int));
}

/// Every slot of `slots` is free at generation zero, as in a new allocator.
pub open spec fn is_fresh(slots: Seq<SlotView>) -> bool {
    forall|i: int| 0 <= i < slots.len() ==> #[trigger] slots[i] == (SlotView { generation: 0, occupied: false })
}

/// A spawn leads from `pre` to `post`.
pub open spec fn is_spawn(pre: Seq<SlotView>, post: Seq<SlotView>) -> bool {
    exists|e: EntityView| #[trigger] spawn_step(pre, post, e)
}

/// `states` is a history made of spawns alone.
pub open spec fn is_spawn_history(states: Seq<Seq<SlotView>>) -> bool {
    forall|k: int| 0 <= k < states.len() - 1 ==> is_spawn(#[trigger] states[k], states[k + 1])
}

/// Spawning into a new allocator fills the slots from the lowest up: after
/// `k` spawns exactly the first `k` slots are occupied. So no more spawns
/// can follow one another than there are slots, and after that many the
/// allocator has no free slot left.
pub proof fn lemma_spawns_fill(states: Seq<Seq<SlotView>>, k: int)
    requires
        0 <= k < states.len(),
        is_fresh(states[0]),
        is_spawn_history(states),
    ensures
        k <= states[0].len(),
        states[k].len() == states[0].len(),
        forall|i: int| 0 <= i < states[k].len() ==> (#[trigger] states[k][i]).occupied == (i < k),
        k == states[0].len() ==> !has_free(states[k]),
    decreases k,
{
    if k > 0 {
        lemma_spawns_fill(states, k - 1);
        let pre = states[k - 1];
        assert(is_spawn(pre, states[k]));
        let e = choose|e: EntityView| spawn_step(pre, states[k], e);
        assert(e.index == k - 1) by {
            if e.index > k - 1 {
                assert(pre[k - 1].occupied);
            }
        }
    }
}

/// A spawn aliases nothing: the slot it hands out held no live entity, and
/// every entity that was live stays live, in a slot of its own.
pub proof fn lemma_spawn_aliases_nothing(pre: Seq<SlotView>, post: Seq<SlotView>, e: EntityView, other: EntityView)
    requires
        spawn_step(pre, post, e),
        is_live(pre, other),
    ensures
        other.index != e.index,
        is_live(post, other),
{
}

/// A full allocator admits no spawn: where every slot is occupied, nothing
/// can be what a spawn returns.
pub proof fn lemma_full_admits_no_spawn(pre: Seq<SlotView>, post: Seq<SlotView>, e: EntityView)
    requires
        !has_free(pre),
    ensures
        !spawn_step(pre, post, e),
{
    if spawn_step(pre, post, e) {
        assert(!pre[e.index as int].occupied);
    }
}

/// A stale entity is not live.
pub proof fn lemma_stale_is_not_live(slots: Seq<SlotView>, e: EntityView)
    requires
        is_stale(slots, e),
    ensures
        !is_live(slots, e),
{
}

/// An entity is live right after the spawn that returned it.
pub proof fn lemma_spawned_is_live(pre: Seq<SlotView>, post: Seq<SlotView>, e: EntityView)
    requires
        spawn_step(pre, post, e),
    ensures
        is_live(post, e),
{
}

/// Despawning a live entity leaves it stale, hence not live.
pub proof fn lemma_despawned_is_stale(pre: Seq<SlotView>, post: Seq<SlotView>, e: EntityView)
    requires
        is_live(pre, e),
        despawn_step(pre, post, e),
    ensures
        is_stale(post, e),
        !is_live(post, e),
{
}

/// No operation changes the number of slots or lowers a generation; a spawn
/// leaves every generation as it was.
pub proof fn lemma_step_generations(pre: Seq<SlotView>, post: Seq<SlotView>)
    requires
        step(pre, post),
    ensures
        post.len() == pre.len(),
        forall|i: int| 0 <= i < pre.len() ==> (#[trigger] pre[i]).generation <= post[i].generation,
        forall|e: EntityView| #[trigger] spawn_step(pre, post, e) ==> forall|i: int| 0 <= i < pre.len() ==> (#[trigger] pre[i]).generation == post[i].generation,
{
}

/// Once stale, always stale: whatever the allocator does next, a stale
/// entity stays stale.
pub proof fn lemma_step_keeps_stale(pre: Seq<SlotView>, post: Seq<SlotView>, e: EntityView)
    requires
        step(pre, post),
        is_stale(pre, e),
    ensures
        is_stale(post, e),
{
    lemma_step_generations(pre, post);
}

/// An entity that was despawned at some point of a history is live at no
/// later point of it, however often its slot is handed out again.
pub proof fn lemma_stale_forever(states: Seq<Seq<SlotView>>, from: int, to: int, e: EntityView)
    requires
        is_history(states),
        0 <= from <= to < states.len(),
        is_stale(states[from], e),
    ensures
        is_stale(states[to], e),
        !is_live(states[to], e),
    decreases to - from,
{
    if from < to {
        lemma_stale_forever(states, from, to - 1, e);
        lemma_step_keeps_stale(states[to - 1], states[to], e);
    }
}

} // verus!
