use crate::cell::Cell;
use vstd::prelude::*;

verus! {

/// How a `RefCell` is borrowed at the moment.
#[derive(Clone, Copy, PartialEq, Eq, Debug)]
pub enum RefState {
    Unshared,
    /// That many shared borrows are out.
    Shared(usize),
    Exclusive,
}

/// A value with borrow bookkeeping: any number of shared borrows, or one
/// exclusive borrow, checked when a borrow is asked for.
pub struct RefCell<T> {
    value: T,
    state: Cell<RefState>,
}

/// A shared borrow: a copy of the value at the time it was taken.
pub struct Ref<T> {
    value: T,
}

/// The exclusive borrow: the value, to be written back on release.
pub struct RefMut<T> {
    value: T,
}

impl<T> Ref<T> {
    pub closed spec fn view(&self) -> T {
        self.value
    }

    pub fn get(&self) -> (r: T)
        where
            T: Copy,
        ensures
            r == self.view(),
    {
        self.value
    }
}

impl<T> RefMut<T> {
    pub closed spec fn view(&self) -> T {
        self.value
    }

    pub fn get(&self) -> (r: T)
        where
            T: Copy,
        ensures
            r == self.view(),
    {
        self.value
    }

    pub fn set(&mut self, v: T)
        ensures
            final(self).view() == v,
    {
        self.value = v;
    }
}

impl<T> RefCell<T> {
    pub closed spec fn value(&self) -> T {
        self.value
    }

    pub closed spec fn state(&self) -> RefState {
        self.state.view()
    }

    pub fn new(value: T) -> (r: RefCell<T>)
        ensures
            r.value() == value,
            r.state() == RefState::Unshared,
    {
        RefCell { value, state: Cell::new(RefState::Unshared) }
    }

    /// The current bookkeeping.
    pub fn borrow_state(&self) -> (r: RefState)
        ensures
            r == self.state(),
    {
        self.state.get()
    }

    /// A shared borrow, unless the value is borrowed exclusively (or the
    /// count of shared borrows is at `usize::MAX`).
    pub fn borrow(&mut self) -> (r: Option<Ref<T>>)
        where
            T: Copy,
        ensures
            final(self).value() == old(self).value(),
            match old(self).state() {
                RefState::Unshared => r is Some && r->0.view() == old(self).value()
                    && final(self).state() == RefState::Shared(1),
                RefState::Shared(n) => if n < usize::MAX {
                    r is Some && r->0.view() == old(self).value() && final(self).state()
                        == RefState::Shared((n + 1) as usize)
                } else {
                    r is None && final(self).state() == old(self).state()
                },
                RefState::Exclusive => r is None && final(self).state() == old(self).state(),
            },
    {
        match self.state.get() {
            RefState::Unshared => {
                self.state.set(RefState::Shared(1));
                Some(Ref { value: self.value })
            },
            RefState::Shared(count) => {
                if count < usize::MAX {
                    self.state.set(RefState::Shared(count + 1));
                    Some(Ref { value: self.value })
                } else {
                    None
                }
            },
            RefState::Exclusive => None,
        }
    }

    /// The exclusive borrow, only when no borrow of any kind is out.
    pub fn borrow_mut(&mut self) -> (r: Option<RefMut<T>>)
        where
            T: Copy,
        ensures
            final(self).value() == old(self).value(),
            old(self).state() == RefState::Unshared ==> r is Some && r->0.view() == old(
                self,
            ).value() && final(self).state() == RefState::Exclusive,
            old(self).state() != RefState::Unshared ==> r is None && final(self).state() == old(
                self,
            ).state(),
    {
        if let RefState::Unshared = self.state.get() {
            self.state.set(RefState::Exclusive);
            Some(RefMut { value: self.value })
        } else {
            None
        }
    }

    /// Gives a shared borrow back.
    pub fn release(&mut self, r: Ref<T>)
        requires
            old(self).state() matches RefState::Shared(n) && n >= 1,
        ensures
            final(self).value() == old(self).value(),
            old(self).state() matches RefState::Shared(n) ==> final(self).state() == if n == 1 {
                RefState::Unshared
            } else {
                RefState::Shared((n - 1) as usize)
            },
    {
        match self.state.get() {
            RefState::Shared(count) => {
                if count == 1 {
                    self.state.set(RefState::Unshared);
                } else {
                    self.state.set(RefState::Shared(count - 1));
                }
            },
            _ => {},
        }
    }

    /// Gives the exclusive borrow back, with the value it now holds.
    pub fn release_mut(&mut self, m: RefMut<T>)
        requires
            old(self).state() == RefState::Exclusive,
        ensures
            final(self).value() == m.view(),
            final(self).state() == RefState::Unshared,
    {
        self.value = m.value;
        self.state.set(RefState::Unshared);
    }
}

} // verus!
