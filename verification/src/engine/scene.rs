//! Scenes, how they end, and the box in which state outlives a scene.
//!
//! A scene runs until it is over or names its successor. What it wants the
//! successor to inherit goes into the box it hands back: one value at most
//! of each type, owned by the box until somebody takes it out.

use vstd::prelude::*;
use core::any::Any;
use core::any::TypeId;

verus! {

/// The identity of a type, as std gives it.
#[verifier::external_type_specification]
#[verifier::external_body]
pub struct ExTypeId(TypeId);

/// How a scene ended.
pub enum SceneExit {
    /// Another scene follows, and this is what it inherits.
    Next(String, IceBox),
    /// Nothing follows.
    End,
}

/// One unit of the engine's top-level state machine.
pub trait Scene {
    /// Runs the scene to its end. It owns `icebox` from here on and hands
    /// on what it wants to keep in the box of its exit.
    fn run(&mut self, icebox: IceBox) -> Result<SceneExit, String>;
}

/// Marks the types whose values may be kept in an [`IceBox`].
pub trait Preservable {

}

/// A value kept in an [`IceBox`], with its type forgotten. It holds a
/// `Box<dyn Any>`, which is all that is ever done with it: it is made from a
/// box of a known type and turned back into one.
#[verifier::external_body]
pub struct Preserved {
    data: Box<dyn Any>,
}

/// `TypeId::of`: the identity of the type `P`.
#[verifier::external_body]
fn type_key<P: 'static>() -> TypeId {
    TypeId::of::<P>()
}

/// `TypeId`'s own `==`: whether two identities are the same.
#[verifier::external_body]
fn same_key(a: TypeId, b: TypeId) -> (r: bool)
    ensures
        r == (a == b),
{
    a == b
}

/// The coercion of a `Box<P>` to a `Box<dyn Any>`: the same box, with its
/// type forgotten.
#[verifier::external_body]
fn erase<P: Preservable + 'static>(data: Box<P>) -> Preserved {
    Preserved { data }
}

/// `Box<dyn Any>::downcast`: the box as one of `P`, or the value as it was
/// when it holds no `P`.
#[verifier::external_body]
fn restore<P: Preservable + 'static>(value: Preserved) -> (r: Result<Box<P>, Preserved>)
    ensures
        r is Err ==> r->Err_0 == value,
{
    match value.data.downcast::<P>() {
        Ok(data) => Ok(data),
        Err(data) => Err(Preserved { data }),
    }
}

/// State that outlives a scene: at most one value per type.
pub struct IceBox {
    preserved: Vec<(TypeId, Preserved)>,
}

impl View for IceBox {
    type V = Map<TypeId, Preserved>;

    closed spec fn view(&self) -> Map<TypeId, Preserved> {
        Map::new(
            |k: TypeId| exists|i: int| 0 <= i < self.preserved@.len() && (#[trigger] self.preserved@[i]).0 == k,
            |k: TypeId| self.preserved@[self.place(k)].1,
        )
    }
}

impl Default for IceBox {
    fn default() -> (r: Self)
        ensures
            r@ == Map::<TypeId, Preserved>::empty(),
    {
        IceBox::new()
    }
}

impl IceBox {
    #[verifier::type_invariant]
    spec fn one_per_type(&self) -> bool {
        forall|i: int, j: int|
            0 <= i < j < self.preserved@.len() ==> (#[trigger] self.preserved@[i]).0 != (#[trigger] self.preserved@[j]).0
    }

    /// Where the value kept under `key` sits.
    spec fn place(&self, key: TypeId) -> int {
        choose|i: int| 0 <= i < self.preserved@.len() && (#[trigger] self.preserved@[i]).0 == key
    }

    /// An empty box.
    pub fn new() -> (r: Self)
        ensures
            r@ == Map::<TypeId, Preserved>::empty(),
    {
        let r = IceBox { preserved: Vec::new() };
        assert(r@ =~= Map::<TypeId, Preserved>::empty());
        r
    }

    /// Moves the entries out and leaves the box empty.
    fn take_entries(&mut self) -> (r: Vec<(TypeId, Preserved)>)
        ensures
            r == old(self).preserved,
            final(self).preserved@.len() == 0,
    {
        let mut taken = IceBox { preserved: Vec::new() };
        core::mem::swap(self, &mut taken);
        taken.preserved
    }

    /// The place of `key`, if a value is kept under it.
    fn find(&self, key: TypeId) -> (r: Option<usize>)
        ensures
            r is Some == self@.contains_key(key),
            r is Some ==> r->0 < self.preserved@.len() && self.preserved@[r->0 as int].0 == key,
    {
        let mut i: usize = 0;
        while i < self.preserved.len()
            invariant
                i <= self.preserved@.len(),
                forall|j: int| 0 <= j < i ==> (#[trigger] self.preserved@[j]).0 != key,
            decreases self.preserved@.len() - i,
        {
            if same_key(self.preserved[i].0, key) {
                return Some(i);
            }
            i += 1;
        }
        None
    }

    /// Whether a value is kept under `key`.
    pub fn holds(&self, key: TypeId) -> (r: bool)
        ensures
            r == self@.contains_key(key),
    {
        self.find(key).is_some()
    }

    /// Keeps `value` under `key`, under which nothing is kept yet.
    pub fn put_at(&mut self, key: TypeId, value: Preserved)
        requires
            !old(self)@.contains_key(key),
        ensures
            final(self)@ == old(self)@.insert(key, value),
    {
        proof {
            use_type_invariant(&*self);
        }
        let ghost before = self.preserved@;
        let mut entries = self.take_entries();
        entries.push((key, value));
        proof {
            let after = entries@;
            assert forall|i: int, j: int| 0 <= i < j < after.len() implies (#[trigger] after[i]).0 != (#[trigger] after[j]).0 by {
                if j == before.len() {
                    assert(before[i].0 != key);
                }
            }
        }
        *self = IceBox { preserved: entries };
        assert(final(self)@ =~= old(self)@.insert(key, value)) by {
            let after = final(self).preserved@;
            assert(after[before.len() as int].0 == key);
            assert forall|k: TypeId| #[trigger] final(self)@.contains_key(k) <==> old(self)@.insert(key, value).contains_key(k) by {
                if old(self)@.contains_key(k) {
                    let i = old(self).place(k);
                    assert(after[i].0 == k);
                }
            }
            assert forall|k: TypeId| final(self)@.contains_key(k) implies #[trigger] final(self)@[k] == old(self)@.insert(key, value)[k] by {
                let p = final(self).place(k);
                if k == key {
                    if p != before.len() {
                        assert(before[p].0 == key);
                    }
                } else {
                    let q = old(self).place(k);
                    assert(after[q].0 == k);
                    if p != q {
                        assert(after[p].0 == after[q].0);
                    }
                }
            }
        }
    }

    /// Takes out what is kept under `key`, if anything is.
    pub fn take_at(&mut self, key: TypeId) -> (r: Option<Preserved>)
        ensures
            r == if old(self)@.contains_key(key) {
                Some(old(self)@[key])
            } else {
                None
            },
            final(self)@ == old(self)@.remove(key),
    {
        proof {
            use_type_invariant(&*self);
        }
        let ghost before = self.preserved@;
        match self.find(key) {
            None => {
                assert(old(self)@.remove(key) =~= old(self)@);
                None
            },
            Some(i) => {
                let mut entries = self.take_entries();
                let entry = entries.remove(i);
                proof {
                    let after = entries@;
                    assert forall|a: int, b: int| 0 <= a < b < after.len() implies (#[trigger] after[a]).0 != (#[trigger] after[b]).0 by {
                        let a0 = if a < i { a } else { a + 1 };
                        let b0 = if b < i { b } else { b + 1 };
                        assert(after[a] == before[a0]);
                        assert(after[b] == before[b0]);
                    }
                }
                *self = IceBox { preserved: entries };
                assert(old(self).place(key) == i) by {
                    let p = old(self).place(key);
                    if p != i {
                        assert(before[p].0 == before[i as int].0);
                    }
                }
                assert(final(self)@ =~= old(self)@.remove(key)) by {
                    let after = final(self).preserved@;
                    assert forall|k: TypeId| #[trigger] final(self)@.contains_key(k) <==> old(self)@.remove(key).contains_key(k) by {
                        if final(self)@.contains_key(k) {
                            let p = final(self).place(k);
                            let p0 = if p < i { p } else { p + 1 };
                            assert(after[p] == before[p0]);
                            if k == key {
                                assert(before[p0].0 == before[i as int].0);
                            }
                        }
                        if old(self)@.remove(key).contains_key(k) {
                            let q = old(self).place(k);
                            let q1 = if q < i { q } else { q - 1 };
                            assert(after[q1] == before[q]);
                        }
                    }
                    assert forall|k: TypeId| final(self)@.contains_key(k) implies #[trigger] final(self)@[k] == old(self)@.remove(key)[k] by {
                        let p = final(self).place(k);
                        let p0 = if p < i { p } else { p + 1 };
                        assert(after[p] == before[p0]);
                        let q = old(self).place(k);
                        if p0 != q {
                            assert(before[p0].0 == before[q].0);
                        }
                    }
                }
                Some(entry.1)
            },
        }
    }

    /// Puts `data` into the box, to be taken out as a `P` later.
    ///
    /// A box keeps one value per type. When it already keeps one of `P`,
    /// nothing changes and `data` comes back as the error: the caller has
    /// put the same thing twice and must not go on as if it had not.
    pub fn put<P: Preservable + 'static>(&mut self, data: Box<P>) -> (r: Result<(), Box<P>>)
        ensures
            old(self)@ == Map::<TypeId, Preserved>::empty() ==> r is Ok,
            r is Err ==> r->Err_0 == data && final(self)@ == old(self)@,
            r is Ok ==> exists|key: TypeId, value: Preserved|
                !old(self)@.contains_key(key) && final(self)@ == #[trigger] old(self)@.insert(key, value),
    {
        let key = type_key::<P>();
        if self.holds(key) {
            Err(data)
        } else {
            let value = erase(data);
            self.put_at(key, value);
            Ok(())
        }
    }

    /// What a take comes to once the value under `key` is out of the box
    /// and was turned back into a `P`, or could not be: the `P` is handed
    /// out, and a value that is no `P` goes back where it was.
    pub fn finish_take<P: Preservable + 'static>(&mut self, key: TypeId, restored: Result<Box<P>, Preserved>) -> (r:
        Option<Box<P>>)
        requires
            !old(self)@.contains_key(key),
        ensures
            match restored {
                Ok(data) => r == Some(data) && final(self)@ == old(self)@,
                Err(value) => r is None && final(self)@ == old(self)@.insert(key, value),
            },
    {
        match restored {
            Ok(data) => Some(data),
            Err(value) => {
                self.put_at(key, value);
                None
            },
        }
    }

    /// Takes the value of type `P` out of the box, if it keeps one.
    pub fn take<P: Preservable + 'static>(&mut self) -> (r: Option<Box<P>>)
        ensures
            r is None ==> final(self)@ == old(self)@,
            r is Some ==> exists|key: TypeId|
                old(self)@.contains_key(key) && final(self)@ == #[trigger] old(self)@.remove(key),
    {
        let key = type_key::<P>();
        match self.take_at(key) {
            None => {
                assert(old(self)@.remove(key) =~= old(self)@);
                None
            },
            Some(value) => {
                let r = self.finish_take(key, restore::<P>(value));
                assert(r is None ==> final(self)@ =~= old(self)@);
                r
            },
        }
    }
}

/// What is put into a box under a key comes out again under that key,
/// once: taking it returns the value that was put, and after that the box
/// holds nothing under the key.
pub proof fn lemma_put_then_take(stored: Map<TypeId, Preserved>, key: TypeId, value: Preserved)
    requires
        !stored.contains_key(key),
    ensures
        stored.insert(key, value).contains_key(key),
        stored.insert(key, value)[key] == value,
        stored.insert(key, value).remove(key) == stored,
        !stored.insert(key, value).remove(key).contains_key(key),
{
    assert(stored.insert(key, value).remove(key) =~= stored);
}

/// Values of different types do not get in each other's way: putting or
/// taking under one key leaves what is kept under another.
pub proof fn lemma_keys_are_apart(stored: Map<TypeId, Preserved>, key: TypeId, value: Preserved, other: TypeId)
    requires
        other != key,
    ensures
        stored.insert(key, value).contains_key(other) == stored.contains_key(other),
        stored.remove(key).contains_key(other) == stored.contains_key(other),
        stored.contains_key(other) ==> stored.insert(key, value)[other] == stored[other] && stored.remove(key)[other]
            == stored[other],
{
}

} // verus!
