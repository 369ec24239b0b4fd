//! A store that holds one integer, and the two things that can be done with
//! it: a function asks by its bounds for the ones that it needs.
use vstd::prelude::*;

verus! {

/// A store that can be read.
pub trait Recall {
    /// What the store holds.
    spec fn contents(&self) -> i64;

    fn recall(&self) -> (value: i64)
        ensures
            value == self.contents(),
    ;
}

/// A store that can be incremented.
pub trait Increment: Sized {
    /// Whether the store can take `delta` more.
    spec fn increment_req(&self, delta: i64) -> bool;

    /// The store after it has taken `delta` more.
    spec fn incremented(self, delta: i64) -> Self;

    fn increment(&mut self, delta: i64)
        requires
            old(self).increment_req(delta),
        ensures
            *final(self) == old(self).incremented(delta),
    ;
}

/// The simplest store: the integer itself.
pub struct Mem {
    pub value: i64,
}

impl Increment for Mem {
    /// The new contents are a 64-bit integer.
    open spec fn increment_req(&self, delta: i64) -> bool {
        i64::MIN <= self.value + delta <= i64::MAX
    }

    open spec fn incremented(self, delta: i64) -> Mem {
        Mem { value: (self.value + delta) as i64 }
    }

    fn increment(&mut self, delta: i64) {
        self.value = self.value + delta;
    }
}

impl Recall for Mem {
    open spec fn contents(&self) -> i64 {
        self.value
    }

    fn recall(&self) -> (value: i64) {
        self.value
    }
}

/// Hands out what the store holds and increments the store by one.
pub fn tick<M>(mem: &mut M) -> (value: i64) where M: Increment + Recall
    requires
        old(mem).increment_req(1),
    ensures
        value == old(mem).contents(),
        *final(mem) == old(mem).incremented(1),
{
    let value = mem.recall();
    mem.increment(1);
    value
}

/// Hands out what the store holds.
pub fn get<M>(mem: &M) -> (value: i64) where M: Recall
    ensures
        value == mem.contents(),
{
    mem.recall()
}

} // verus!
