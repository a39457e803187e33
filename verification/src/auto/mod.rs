//! The autonomous driving loop: probe, consult the policy table, act.
//!
//! One driving step is [`AutoProber::step`]: run one probe cycle, pick the
//! policy slot matching the outcome kind, and turn it into an
//! [`AutoProberAction`] for the loop runner.  [`AutoProber::run`] drives
//! steps under a step budget, sleeping through a [`Runtime`]; a hosting
//! environment that wants the unbounded loop runs `step` itself and
//! performs each action.

use vstd::prelude::*;

pub mod into;
pub mod strategy;

use crate::auto::strategy::AutoProberAction;
use crate::auto::strategy::AutoProberCfg;
use crate::auto::strategy::AutoProberStrategy;
use crate::proc::Processor;
use crate::runtime::Runtime;
use crate::store::SentinelStore;
use crate::ProbeError;
use crate::ProbeResult;
use crate::Prober;

verus! {

/// How an autonomous run ended.
#[derive(Debug)]
pub enum AutoProberEnd<StoreErr, ProcErr> {
    /// An abort policy stopped the loop on a success or empty outcome: a
    /// clean, silent stop.
    Halted,
    /// A backoff slot ran out of attempts: a clean, silent stop.
    Exhausted,
    /// The error policy was abort: the failure is unrecoverable and must
    /// be raised by the caller.
    Failed(ProbeError<StoreErr, ProcErr>),
}

/// Wraps a prober with a policy table and drives its probe cycle.
pub struct AutoProber<Store, Sentinel, Proc> {
    pub(crate) prober: Prober<Store, Sentinel, Proc>,
    pub(crate) cfg: AutoProberCfg,
}

impl<Store, Sentinel, Proc> AutoProber<Store, Sentinel, Proc> {
    /// The wrapped prober.
    pub closed spec fn spec_prober(&self) -> Prober<Store, Sentinel, Proc> {
        self.prober
    }

    /// The policy table.
    pub closed spec fn spec_cfg(&self) -> AutoProberCfg {
        self.cfg
    }
}

impl<Store, Sentinel, Proc> AutoProber<Store, Sentinel, Proc> where
    Store: SentinelStore<Sentinel>,
    Proc: Processor<Sentinel = Sentinel>,
 {
    /// Everything one driving step may do: the probe part obeys
    /// [`Prober::probe_post`]; the slot matching the outcome kind is
    /// applied once and the other two slots stand untouched; an error
    /// outcome under an abort policy — and nothing else — yields `Fatal`.
    pub open spec fn step_post(
        pre: Self,
        post: Self,
        outcome: ProbeResult<Store::Err, Proc::Err>,
        a: AutoProberAction,
    ) -> bool {
        &&& Prober::probe_post(pre.spec_prober(), post.spec_prober(), outcome)
        &&& match outcome {
            ProbeResult::Success => {
                &&& AutoProberStrategy::applied(
                    pre.spec_cfg().on_success,
                    post.spec_cfg().on_success,
                    a,
                )
                &&& post.spec_cfg().on_empty == pre.spec_cfg().on_empty
                &&& post.spec_cfg().on_error == pre.spec_cfg().on_error
                &&& !(a is Fatal)
            },
            ProbeResult::Empty => {
                &&& AutoProberStrategy::applied(
                    pre.spec_cfg().on_empty,
                    post.spec_cfg().on_empty,
                    a,
                )
                &&& post.spec_cfg().on_success == pre.spec_cfg().on_success
                &&& post.spec_cfg().on_error == pre.spec_cfg().on_error
                &&& !(a is Fatal)
            },
            ProbeResult::Error(_) => {
                &&& post.spec_cfg().on_success == pre.spec_cfg().on_success
                &&& post.spec_cfg().on_empty == pre.spec_cfg().on_empty
                &&& if pre.spec_cfg().on_error is Abort {
                    a is Fatal && post.spec_cfg().on_error == pre.spec_cfg().on_error
                } else {
                    AutoProberStrategy::applied(
                        pre.spec_cfg().on_error,
                        post.spec_cfg().on_error,
                        a,
                    ) && !(a is Fatal)
                }
            },
        }
    }

    /// One driving step: probe once, then apply the policy slot matching
    /// the outcome kind.  The returned action is what the loop runner must
    /// do before the next step; on `Fatal` the outcome holds the error to
    /// raise.  The error policy is consulted for every error outcome, be
    /// its cause the store or the processor.
    pub fn step(&mut self) -> (r: (ProbeResult<Store::Err, Proc::Err>, AutoProberAction))
        requires
            old(self).spec_prober().spec_processor().ready(old(self).spec_prober().stored()),
        ensures
            Self::step_post(*old(self), *final(self), r.0, r.1),
    {
        let outcome = self.prober.probe();
        let action = match &outcome {
            ProbeResult::Success => self.cfg.on_success.apply(),
            ProbeResult::Empty => self.cfg.on_empty.apply(),
            ProbeResult::Error(_) => match &self.cfg.on_error {
                AutoProberStrategy::Abort => AutoProberAction::Fatal,
                _ => self.cfg.on_error.apply(),
            },
        };
        (outcome, action)
    }

    /// Whether every policy slot of `cfg` ends the loop the moment it is
    /// consulted: an abort, or a backoff whose attempts are spent.
    pub open spec fn all_slots_terminal(cfg: AutoProberCfg) -> bool {
        &&& Self::slot_terminal(cfg.on_success)
        &&& Self::slot_terminal(cfg.on_empty)
        &&& Self::slot_terminal(cfg.on_error)
    }

    /// Whether one policy slot ends the loop the moment it is consulted.
    pub open spec fn slot_terminal(slot: AutoProberStrategy) -> bool {
        match slot {
            AutoProberStrategy::Abort => true,
            AutoProberStrategy::Backoff(b) => b.cursor() >= b.max_attempts(),
            _ => false,
        }
    }

    /// Drives `step` until a policy stops the loop, sleeping through `R`
    /// as the policies ask, for at most `max_steps` probes (`None` when
    /// the budget ran out first).  A `Halted` end can only come from an
    /// abort policy on success or empty, an `Exhausted` end only from a
    /// backoff slot, and a `Failed` end — the one unrecoverable way out —
    /// only from an abort policy on error.  When every slot is terminal
    /// and there is any step budget, the very first step ends the run.
    #[verifier::loop_isolation(false)]
    pub fn run<R: Runtime>(self, max_steps: u64) -> (t: Option<
        AutoProberEnd<Store::Err, Proc::Err>,
    >)
        requires
            forall|c: Option<Sentinel>|
                #[trigger] self.spec_prober().spec_processor().ready(c),
        ensures
            t matches Some(end) ==> match end {
                AutoProberEnd::Halted => self.spec_cfg().on_success is Abort
                    || self.spec_cfg().on_empty is Abort,
                AutoProberEnd::Exhausted => self.spec_cfg().on_success is Backoff
                    || self.spec_cfg().on_empty is Backoff || self.spec_cfg().on_error is Backoff,
                AutoProberEnd::Failed(_) => self.spec_cfg().on_error is Abort,
            },
            max_steps > 0 && Self::all_slots_terminal(self.spec_cfg()) ==> t is Some,
    {
        let ghost orig = self;
        let mut auto = self;
        let mut steps_left = max_steps;
        while steps_left > 0
            invariant
                forall|c: Option<Sentinel>|
                    #[trigger] auto.spec_prober().spec_processor().ready(c),
                AutoProberStrategy::same_policy(auto.spec_cfg().on_success, orig.spec_cfg().on_success),
                AutoProberStrategy::same_policy(auto.spec_cfg().on_empty, orig.spec_cfg().on_empty),
                AutoProberStrategy::same_policy(auto.spec_cfg().on_error, orig.spec_cfg().on_error),
                Self::all_slots_terminal(orig.spec_cfg()) ==> auto.spec_cfg() == orig.spec_cfg()
                    && steps_left == max_steps,
            decreases steps_left,
        {
            let (outcome, action) = auto.step();
            match action {
                AutoProberAction::Proceed => {},
                AutoProberAction::Wait(seconds) => R::sleep(seconds),
                AutoProberAction::Halt => {
                    return Some(AutoProberEnd::Halted);
                },
                AutoProberAction::Exhausted => {
                    return Some(AutoProberEnd::Exhausted);
                },
                AutoProberAction::Fatal => match outcome {
                    ProbeResult::Error(err) => {
                        return Some(AutoProberEnd::Failed(err));
                    },
                    _ => vstd::pervasive::unreached(),
                },
            }
            steps_left = steps_left - 1;
        }
        None
    }
}

} // verus!
