use vstd::prelude::*;

verus! {

/// A single-owner mutable slot.
pub struct Cell<T> {
    value: T,
}

impl<T> Cell<T> {
    /// The value currently held.
    pub closed spec fn view(&self) -> T {
        self.value
    }

    pub fn new(value: T) -> (r: Cell<T>)
        ensures
            r.view() == value,
    {
        Cell { value }
    }

    /// Replaces the held value.
    pub fn set(&mut self, val: T)
        ensures
            final(self).view() == val,
    {
        self.value = val;
    }

    /// A copy of the held value.
    pub fn get(&self) -> (r: T)
        where
            T: Copy,
        ensures
            r == self.view(),
    {
        self.value
    }
}

} // verus!
