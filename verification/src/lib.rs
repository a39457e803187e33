//! Sentinel-tracked polling.
//!
//! A *sentinel* is an opaque watermark recording how far incremental
//! processing has advanced.  A [`Prober`] pairs a [`store::SentinelStore`]
//! (the durable holder of the current sentinel) with a [`proc::Processor`]
//! (the caller-supplied function that computes the next sentinel) and offers
//! one operation, [`Prober::probe`]: read the current sentinel, ask the
//! processor for the next one, and commit it.  The `auto` module drives that
//! cycle repeatedly under per-outcome policies.

use vstd::prelude::*;

pub mod auto;
pub mod preconf;
pub mod proc;
pub mod runtime;
pub mod store;

use crate::proc::Processor;
use crate::store::SentinelStore;

verus! {

/// Composes one sentinel store and one processor; `probe` runs the
/// read-process-commit cycle once.
pub struct Prober<Store, Sentinel, Proc> {
    store: Store,
    processor: Proc,
    _sentinel: core::marker::PhantomData<Sentinel>,
}

impl<Store, Sentinel, Proc> Prober<Store, Sentinel, Proc> {
    /// The store this prober reads and commits through.
    pub closed spec fn spec_store(&self) -> Store {
        self.store
    }

    /// The processor this prober asks for the next sentinel.
    pub closed spec fn spec_processor(&self) -> Proc {
        self.processor
    }

    pub fn new(storage: Store, processor: Proc) -> (r: Self)
        ensures
            r.spec_store() == storage,
            r.spec_processor() == processor,
    {
        Self { store: storage, processor, _sentinel: core::marker::PhantomData }
    }
}

impl<Store, Sentinel, Proc> Prober<Store, Sentinel, Proc> where
    Store: SentinelStore<Sentinel>,
    Proc: Processor<Sentinel = Sentinel>,
 {
    /// The sentinel currently held by the store, as the store models it.
    pub open spec fn stored(&self) -> Option<Sentinel> {
        self.spec_store().sentinel()
    }

    /// Everything one probe cycle may do, as a relation between the prober
    /// before (`pre`), the prober after (`post`) and the reported outcome:
    /// the processor is never replaced; on `Success` the store now holds a
    /// sentinel the processor produced for the old one and accepted; on
    /// `Empty` and on a processor failure the store is untouched; a store
    /// failure is either a failed read (store untouched) or a failed
    /// commit of a produced sentinel (stored value unchanged: commit is
    /// all-or-nothing).  Every outcome is tied to results the store and
    /// the processor can actually report (`read_produced`,
    /// `commit_produced`, `produced`), so where a store cannot fail, the
    /// failure outcomes are ruled out.
    pub open spec fn probe_post(
        pre: Self,
        post: Self,
        r: ProbeResult<Store::Err, Proc::Err>,
    ) -> bool {
        &&& post.spec_processor() == pre.spec_processor()
        &&& match r {
            ProbeResult::Success => {
                &&& pre.spec_store().read_produced(Ok(pre.stored()))
                &&& exists|next: Sentinel|
                    post.stored() == Some(next) && #[trigger] pre.spec_processor().produced(
                        pre.stored(),
                        Ok(Some(next)),
                    ) && pre.spec_store().commit_produced(next, Ok(()))
            },
            ProbeResult::Empty => {
                &&& post.spec_store() == pre.spec_store()
                &&& pre.spec_store().read_produced(Ok(pre.stored()))
                &&& pre.spec_processor().produced(pre.stored(), Ok(None))
            },
            ProbeResult::Error(ProbeError::Processor(e)) => {
                &&& post.spec_store() == pre.spec_store()
                &&& pre.spec_store().read_produced(Ok(pre.stored()))
                &&& pre.spec_processor().produced(pre.stored(), Err(e))
            },
            ProbeResult::Error(ProbeError::Store(e)) => {
                &&& post.stored() == pre.stored()
                &&& {
                    ||| (post.spec_store() == pre.spec_store() && pre.spec_store().read_produced(
                        Err(e),
                    ))
                    ||| (pre.spec_store().read_produced(Ok(pre.stored()))
                        && exists|next: Sentinel|
                        #[trigger] pre.spec_processor().produced(pre.stored(), Ok(Some(next)))
                            && pre.spec_store().commit_produced(next, Err(e)))
                }
            },
        }
    }

    /// One probe cycle: read the current sentinel, ask the processor for the
    /// next one, commit it if there is one.  The first failure stops the
    /// cycle; nothing is retried here (retrying belongs to the auto prober).
    pub fn probe(&mut self) -> (r: ProbeResult<Store::Err, Proc::Err>)
        requires
            old(self).spec_processor().ready(old(self).stored()),
        ensures
            Self::probe_post(*old(self), *final(self), r),
    {
        let current_sentinel = match self.store.current() {
            Ok(current_sentinel) => current_sentinel,
            Err(store_err) => return ProbeResult::Error(ProbeError::Store(store_err)),
        };

        match self.processor.next(current_sentinel) {
            Ok(Some(next_sentinel)) => {
                match self.store.commit(next_sentinel) {
                    Ok(unit) => {
                        proof {
                            // The commit's reported result is `Ok(unit)`,
                            // which is the `Ok(())` the contract speaks of.
                            assert(Ok::<(), Store::Err>(unit) == Ok::<(), Store::Err>(()));
                        }
                        ProbeResult::Success
                    },
                    Err(store_err) => ProbeResult::Error(ProbeError::Store(store_err)),
                }
            },
            Ok(None) => ProbeResult::Empty,
            Err(proc_err) => ProbeResult::Error(ProbeError::Processor(proc_err)),
        }
    }

    /// A passthrough read of the stored sentinel, for inspection without
    /// side effects.
    pub fn current(&self) -> (r: Result<Option<Sentinel>, Store::Err>)
        ensures
            r matches Ok(c) ==> c == self.stored(),
            self.spec_store().read_produced(r),
    {
        self.store.current()
    }
}

/// What comes out of one probe cycle.
pub enum ProbeResult<StoreErr, ProcErr> {
    /// The processor produced a new sentinel and it was committed.
    Success,
    /// The processor had nothing new to report; the store is untouched.
    Empty,
    /// The store or the processor failed.
    Error(ProbeError<StoreErr, ProcErr>),
}

impl<StoreErr, ProcErr> ProbeResult<StoreErr, ProcErr> {
    /// Discards a `Success` or `Empty` outcome.  Callers must show the probe
    /// did not fail; error outcomes have to be handled, not discarded.
    pub fn expect_ok(self)
        requires
            !(self is Error),
    {
    }
}

impl<StoreErr, ProcErr> From<ProbeError<StoreErr, ProcErr>> for ProbeResult<StoreErr, ProcErr> {
    fn from(value: ProbeError<StoreErr, ProcErr>) -> (r: Self) {
        Self::Error(value)
    }
}

impl<StoreErr, ProcErr> vstd::std_specs::convert::FromSpecImpl<ProbeError<StoreErr, ProcErr>> for ProbeResult<StoreErr, ProcErr> {
    open spec fn obeys_from_spec() -> bool {
        true
    }

    open spec fn from_spec(v: ProbeError<StoreErr, ProcErr>) -> Self {
        Self::Error(v)
    }
}

/// Which side of a probe cycle failed, carrying the underlying cause.
#[derive(Debug)]
pub enum ProbeError<StoreErr, ProcErr> {
    /// The persistence layer failed while reading or committing.
    Store(StoreErr),
    /// The caller-supplied work function failed.
    Processor(ProcErr),
}

} // verus!
