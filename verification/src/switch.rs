//! A pair of values of which one is current.

use vstd::prelude::*;

verus! {

/// Two values and a mark on one of them. `toggle` moves the mark to the other.
pub struct Switch<T> {
    data: [T; 2],
    index: usize,
}

impl<T> Switch<T> {
    #[verifier::type_invariant]
    spec fn marked(self) -> bool {
        self.index < 2
    }

    /// The value that the mark is on.
    pub closed spec fn current(self) -> T {
        self.data@[self.index as int]
    }

    /// The value that the mark is not on.
    pub closed spec fn idle(self) -> T {
        self.data@[1 - self.index]
    }

    /// A switch on the first of the two values.
    pub fn new(data: [T; 2]) -> (switch: Self)
        ensures
            switch.current() == data@[0],
            switch.idle() == data@[1],
    {
        Switch { data, index: 0 }
    }

    /// The current value.
    pub fn get_current(&self) -> (value: &T)
        ensures
            *value == self.current(),
    {
        proof {
            use_type_invariant(self);
        }
        &self.data[self.index]
    }

    /// Makes the other value the current one.
    pub fn toggle(&mut self)
        ensures
            final(self).current() == old(self).idle(),
            final(self).idle() == old(self).current(),
    {
        proof {
            use_type_invariant(&*self);
        }
        self.index = 1 - self.index;
    }
}

} // verus!
