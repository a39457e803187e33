//! The processor boundary: the caller-supplied function that, given the
//! current sentinel, produces the next one, reports "nothing new", or fails.

use vstd::prelude::*;

verus! {

/// A caller-supplied source of work.  `next` receives the last known
/// sentinel (`None` on first run) and answers `Ok(Some(next))` when the
/// watermark should advance, `Ok(None)` when there is nothing new right now,
/// or `Err` when the attempt to check failed.
///
/// The two spec functions let an implementation publish which inputs it
/// accepts (`ready`) and which results it can hand back (`produced`); both
/// default to placing no constraint at all, which is the posture of an
/// arbitrary external collaborator.
pub trait Processor {
    type Sentinel;

    type Err;

    /// The inputs this processor is prepared to be called on.
    open spec fn ready(&self, current: Option<Self::Sentinel>) -> bool {
        true
    }

    /// The results this processor can produce for a given input.
    open spec fn produced(
        &self,
        current: Option<Self::Sentinel>,
        result: Result<Option<Self::Sentinel>, Self::Err>,
    ) -> bool {
        true
    }

    /// Produce the next sentinel after `current`, report nothing new, or
    /// fail.  Must be safe to invoke repeatedly with the same `current`.
    fn next(&self, current: Option<Self::Sentinel>) -> (r: Result<
        Option<Self::Sentinel>,
        Self::Err,
    >)
        requires
            self.ready(current),
        ensures
            self.produced(current, r),
    ;
}

/// Wraps any call-compatible function so it satisfies [`Processor`]: the
/// convenience adapter for ad hoc function values.
pub struct FnProcessor<F, Sentinel, ProcErr> {
    f: F,
    _marker: core::marker::PhantomData<(Sentinel, ProcErr)>,
}

impl<F, Sentinel, ProcErr> FnProcessor<F, Sentinel, ProcErr> where
    F: Fn(Option<Sentinel>) -> Result<Option<Sentinel>, ProcErr>,
 {
    /// The wrapped function value.
    pub closed spec fn func(&self) -> F {
        self.f
    }

    pub fn new(f: F) -> (r: Self)
        ensures
            r.func() == f,
    {
        Self { f, _marker: core::marker::PhantomData }
    }
}

impl<F, Sentinel, ProcErr> Processor for FnProcessor<F, Sentinel, ProcErr> where
    F: Fn(Option<Sentinel>) -> Result<Option<Sentinel>, ProcErr>,
 {
    type Sentinel = Sentinel;

    type Err = ProcErr;

    open spec fn ready(&self, current: Option<Sentinel>) -> bool {
        call_requires(self.func(), (current,))
    }

    open spec fn produced(
        &self,
        current: Option<Sentinel>,
        result: Result<Option<Sentinel>, ProcErr>,
    ) -> bool {
        call_ensures(self.func(), (current,), result)
    }

    fn next(&self, current: Option<Sentinel>) -> (r: Result<Option<Sentinel>, ProcErr>) {
        (self.f)(current)
    }
}

} // verus!
