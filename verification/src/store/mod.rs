//! Durable holders of the current sentinel.

use vstd::prelude::*;

pub mod decimal;
pub mod file;
pub mod mem;

verus! {

/// A durable holder of the current sentinel value; read and write only, no
/// business logic.
///
/// The spec function `sentinel` is the store's model: the sentinel a
/// successful read would report.  A sentinel is only ever replaced through a
/// successful `commit`, never partially written: implementations must keep
/// commit all-or-nothing from the caller's perspective.
pub trait SentinelStore<Sentinel>: Sized {
    type Err;

    /// The sentinel the store currently holds, or `None` if nothing has
    /// ever been committed.  The stores of this library each define it;
    /// an implementation outside the library may leave the default, which
    /// pins no value and so promises nothing through the contracts below.
    open spec fn sentinel(&self) -> Option<Sentinel> {
        arbitrary()
    }

    /// The results a read of this store can report.  The default places
    /// no constraint; a store pins it down so that callers can rule out
    /// the failures it cannot have (the in-memory store never fails; the
    /// file store fails to parse exactly on nonempty non-canonical text).
    open spec fn read_produced(&self, r: Result<Option<Sentinel>, Self::Err>) -> bool {
        true
    }

    /// The results a commit of `sentinel` to this store can report.  The
    /// default places no constraint; see `read_produced`.
    open spec fn commit_produced(&self, sentinel: Sentinel, r: Result<(), Self::Err>) -> bool {
        true
    }

    /// The last committed sentinel, or `None` if nothing has ever been
    /// committed.  Failures of the underlying medium surface as `Err`.
    fn current(&self) -> (r: Result<Option<Sentinel>, Self::Err>)
        ensures
            r matches Ok(c) ==> c == self.sentinel(),
            self.read_produced(r),
    ;

    /// Durably replaces the stored value.  On failure the previously stored
    /// sentinel still stands.
    fn commit(&mut self, sentinel: Sentinel) -> (r: Result<(), Self::Err>)
        ensures
            r is Ok ==> final(self).sentinel() == Some(sentinel),
            r is Err ==> final(self).sentinel() == old(self).sentinel(),
            old(self).commit_produced(sentinel, r),
    ;
}

} // verus!
