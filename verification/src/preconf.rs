//! Preconfigured probers.

use vstd::prelude::*;

use crate::proc::Processor;
use crate::runtime::Runtime;
use crate::store::file::FileSentinelStore;
use crate::store::file::FileStorableSentinel;
use crate::store::mem::MemorySentinelStore;
use crate::store::mem::MemoryStorableSentinel;
use crate::store::SentinelStore;
use crate::Prober;

verus! {

impl<Sentinel, Proc> Prober<MemorySentinelStore<Sentinel>, Sentinel, Proc> where
    Sentinel: MemoryStorableSentinel,
    Proc: Processor<Sentinel = Sentinel>,
 {
    /// Creates a new prober that holds its sentinel value in memory,
    /// starting with none.
    pub fn in_memory(processor: Proc) -> (r: Self)
        ensures
            r.stored() is None,
            r.spec_processor() == processor,
    {
        Prober::new(MemorySentinelStore::default(), processor)
    }
}

impl<Sentinel, R, Proc> Prober<FileSentinelStore<R>, Sentinel, Proc> where
    Sentinel: FileStorableSentinel,
    R: Runtime,
    Proc: Processor<Sentinel = Sentinel>,
 {
    /// Creates a new prober that stores its sentinel value in a file,
    /// resuming from whatever sentinel the file already holds.
    pub fn from_file(path: &str, proc: Proc) -> (r: Result<Self, R::Err>)
        ensures
            r matches Ok(p) ==> p.spec_processor() == proc,
    {
        match FileSentinelStore::open(path) {
            Ok(store) => Ok(Prober::new(store, proc)),
            Err(io_err) => Err(io_err),
        }
    }
}

} // verus!
