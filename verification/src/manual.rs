//! A container that is filled by hand, once, after it was made.

use vstd::prelude::*;

verus! {

/// A value that is set once after construction and taken out at most once.
///
/// Setting it twice, or reading it before it was set, is a mistake of the
/// caller: the operations ask for the right state up front.
pub struct Manual<T> {
    data: Option<T>,
}

impl<T> View for Manual<T> {
    type V = Option<T>;

    closed spec fn view(&self) -> Option<T> {
        self.data
    }
}

impl<T> Default for Manual<T> {
    fn default() -> (r: Self)
        ensures
            r@ is None,
    {
        Manual { data: None }
    }
}

impl<T> Manual<T> {
    /// Whether a value is held.
    pub fn is_init(&self) -> (r: bool)
        ensures
            r == self@.is_some(),
    {
        self.data.is_some()
    }

    /// Sets the value. The container must be empty.
    pub fn init(&mut self, data: T)
        requires
            old(self)@ is None,
        ensures
            final(self)@ == Some(data),
    {
        self.data = Some(data);
    }

    /// Takes the value out and leaves the container empty. There must be a
    /// value to take.
    pub fn take(&mut self) -> (r: T)
        requires
            old(self)@ is Some,
        ensures
            r == old(self)@->0,
            final(self)@ is None,
    {
        self.data.take().unwrap()
    }

    /// The value held. There must be one.
    pub fn get(&self) -> (r: &T)
        requires
            self@ is Some,
        ensures
            *r == self@->0,
    {
        self.data.as_ref().unwrap()
    }

    /// The value held, to be changed in place. There must be one.
    pub fn get_mut(&mut self) -> (r: &mut T)
        requires
            old(self)@ is Some,
        ensures
            *r == old(self)@->0,
            final(self)@ == Some(*final(r)),
    {
        self.data.as_mut().unwrap()
    }
}

} // verus!
