//! The plain demonstration counter.

use vstd::prelude::*;

verus! {

/// A single mutable counter, initialized to zero.
pub struct Counter {
    pub value: u64,
}

impl Counter {
    /// A fresh counter at zero.
    pub fn new() -> (counter: Counter)
        ensures
            counter.value == 0,
    {
        Counter { value: 0 }
    }

    /// Adds one and returns the new count.
    pub fn increment(&mut self) -> (n: u64)
        requires
            old(self).value < u64::MAX,
        ensures
            final(self).value == old(self).value + 1,
            n == final(self).value,
    {
        self.value = self.value + 1;
        self.value
    }

    /// The current count.
    pub fn get_count(&self) -> (n: u64)
        ensures
            n == self.value,
    {
        self.value
    }

    /// Overwrites the count and returns the value written.
    pub fn set_count(&mut self, value: u64) -> (n: u64)
        ensures
            final(self).value == value,
            n == value,
    {
        self.value = value;
        value
    }
}

} // verus!
