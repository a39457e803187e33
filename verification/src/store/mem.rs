//! The in-process sentinel store: a cell, no persistence across restarts.

use vstd::prelude::*;

use crate::store::SentinelStore;

verus! {

/// A sentinel that can be stored in memory.  The in-memory store hands out
/// copies of the held value, so the sentinel has to be copyable.
pub trait MemoryStorableSentinel: Copy {

}

impl<T: Copy> MemoryStorableSentinel for T {

}

/// Holds the current sentinel in a field; reads and commits cannot fail.
pub struct MemorySentinelStore<Sentinel> {
    value: Option<Sentinel>,
}

impl<Sentinel: MemoryStorableSentinel> SentinelStore<Sentinel> for MemorySentinelStore<
    Sentinel,
> {
    type Err = ();

    closed spec fn sentinel(&self) -> Option<Sentinel> {
        self.value
    }

    /// A read cannot fail: it reports exactly the held sentinel.
    open spec fn read_produced(&self, r: Result<Option<Sentinel>, ()>) -> bool {
        r == Ok::<Option<Sentinel>, ()>(self.sentinel())
    }

    /// A commit cannot fail.
    open spec fn commit_produced(&self, sentinel: Sentinel, r: Result<(), ()>) -> bool {
        r is Ok
    }

    fn current(&self) -> (r: Result<Option<Sentinel>, ()>)
        ensures
            r == Ok::<Option<Sentinel>, ()>(self.sentinel()),
    {
        Ok(self.value)
    }

    fn commit(&mut self, sentinel: Sentinel) -> (r: Result<(), ()>)
        ensures
            r is Ok,
    {
        self.value = Some(sentinel);
        Ok(())
    }
}

impl<Sentinel: MemoryStorableSentinel> Default for MemorySentinelStore<Sentinel> {
    /// A fresh store holding no sentinel yet.
    fn default() -> (r: Self)
        ensures
            r.sentinel() is None,
    {
        Self { value: None }
    }
}

} // verus!
