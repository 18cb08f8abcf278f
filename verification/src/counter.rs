//! The one piece of state that concurrently running handlers share.

use vstd::prelude::*;

verus! {

/// A count of completed increments.
///
/// The value is only ever changed by [`SharedCounter::increment`], which adds
/// one and reports the new value in the same step. A program that shares the
/// counter between tasks holds its guard exactly for one call of a method
/// here, so every read sees the number of increments that have finished.
#[derive(Debug)]
pub struct SharedCounter {
    value: usize,
}

impl View for SharedCounter {
    type V = nat;

    closed spec fn view(&self) -> nat {
        self.value as nat
    }
}

impl SharedCounter {
    /// A counter on which no increment has happened yet.
    pub fn new() -> (counter: Self)
        ensures
            counter@ == 0,
    {
        SharedCounter { value: 0 }
    }

    /// The largest count a counter can hold is the largest `usize`.
    pub proof fn lemma_bounded(&self)
        ensures
            self@ <= usize::MAX,
    {
    }

    /// True while one more increment fits.
    pub fn has_room(&self) -> (room: bool)
        ensures
            room == (self@ < usize::MAX),
    {
        self.value < usize::MAX
    }

    /// Adds one and returns the count that results.
    pub fn increment(&mut self) -> (now: usize)
        requires
            old(self)@ < usize::MAX,
        ensures
            final(self)@ == old(self)@ + 1,
            now == final(self)@,
    {
        self.value = self.value + 1;
        self.value
    }

    /// The number of increments that have finished.
    pub fn get(&self) -> (count: usize)
        ensures
            count == self@,
    {
        self.value
    }
}

} // verus!
