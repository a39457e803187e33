//! Per-outcome policies and the bounded exponential backoff schedule.

use vstd::prelude::*;

verus! {

/// What the auto prober should do for one probe outcome.
#[derive(Clone, Copy, Debug)]
pub enum AutoProberStrategy {
    /// Stop completely; fatal when applied to an error outcome.
    Abort,
    /// Wait this many seconds before proceeding.
    DelaySecs(u32),
    /// Continue instantly.
    Continue,
    /// Wait with bounded, exponentially growing delays; stop when the
    /// attempts are exhausted.
    Backoff(BackoffStrategy),
}

/// One policy slot per probe outcome kind.
pub struct AutoProberCfg {
    pub on_success: AutoProberStrategy,
    pub on_empty: AutoProberStrategy,
    pub on_error: AutoProberStrategy,
}

impl Default for AutoProberCfg {
    /// Keep probing while there is work, stop at the first empty probe,
    /// and treat the first failure as fatal.
    fn default() -> (r: Self)
        ensures
            r.on_success is Continue,
            r.on_empty is Abort,
            r.on_error is Abort,
    {
        Self {
            on_success: AutoProberStrategy::Continue,
            on_empty: AutoProberStrategy::Abort,
            on_error: AutoProberStrategy::Abort,
        }
    }
}

/// What one driving step asks the loop runner to do next.
#[derive(Clone, Copy, Debug, PartialEq, Eq)]
pub enum AutoProberAction {
    /// Probe again immediately.
    Proceed,
    /// Sleep this many seconds, then probe again.
    Wait(u64),
    /// Stop cleanly: an abort policy matched a success or empty outcome.
    Halt,
    /// Stop cleanly: a backoff slot ran out of attempts.
    Exhausted,
    /// Stop fatally: the abort policy matched an error outcome; the error
    /// must be raised, not discarded.
    Fatal,
}

impl AutoProberStrategy {
    /// One application of this policy, as a relation between the slot
    /// before, the slot after and the requested action.  Only a backoff
    /// slot ever moves, and only its cursor.
    pub open spec fn applied(before: Self, after: Self, a: AutoProberAction) -> bool {
        match before {
            AutoProberStrategy::Abort => after == before && a is Halt,
            AutoProberStrategy::DelaySecs(s) => after == before && a == AutoProberAction::Wait(
                s as u64,
            ),
            AutoProberStrategy::Continue => after == before && a is Proceed,
            AutoProberStrategy::Backoff(b) => {
                if b.cursor() < b.max_attempts() {
                    &&& a == AutoProberAction::Wait(
                        backoff_delay(b.base_secs() as u64, b.cursor() as nat),
                    )
                    &&& after matches AutoProberStrategy::Backoff(b2) && b2.same_template(&b)
                        && b2.cursor() == b.cursor() + 1
                } else {
                    after == before && a is Exhausted
                }
            },
        }
    }

    /// Same policy, allowing only a backoff cursor to differ.
    pub open spec fn same_policy(a: Self, b: Self) -> bool {
        match (a, b) {
            (AutoProberStrategy::Abort, AutoProberStrategy::Abort) => true,
            (AutoProberStrategy::DelaySecs(x), AutoProberStrategy::DelaySecs(y)) => x == y,
            (AutoProberStrategy::Continue, AutoProberStrategy::Continue) => true,
            (AutoProberStrategy::Backoff(p), AutoProberStrategy::Backoff(q)) => p.same_template(
                &q,
            ),
            _ => false,
        }
    }

    /// Applies this policy once: abort halts, a fixed delay and a live
    /// backoff ask for a wait, continue proceeds, a spent backoff reports
    /// exhaustion.
    pub fn apply(&mut self) -> (a: AutoProberAction)
        ensures
            Self::applied(*old(self), *final(self), a),
            !(a is Fatal),
    {
        match self {
            AutoProberStrategy::Abort => AutoProberAction::Halt,
            AutoProberStrategy::DelaySecs(s) => AutoProberAction::Wait(*s as u64),
            AutoProberStrategy::Continue => AutoProberAction::Proceed,
            AutoProberStrategy::Backoff(b) => match b.next_sleep() {
                Some(d) => AutoProberAction::Wait(d),
                None => AutoProberAction::Exhausted,
            },
        }
    }
}

/// The delay before attempt number `attempt` of a schedule whose first
/// delay is `base` seconds: `base` doubled `attempt` times, saturating at
/// `u64::MAX` seconds.
pub open spec fn backoff_delay(base: u64, attempt: nat) -> u64
    decreases attempt,
{
    if attempt == 0 {
        base
    } else {
        sat_double(backoff_delay(base, (attempt - 1) as nat))
    }
}

/// Twice `d`, saturating at `u64::MAX`.
pub open spec fn sat_double(d: u64) -> u64 {
    if d <= u64::MAX / 2 {
        (2 * d) as u64
    } else {
        u64::MAX
    }
}

/// Law: within one schedule, delays never shrink as the attempt index
/// grows — each of the bounded attempts waits at least as long as the one
/// before it, for every base delay.
pub proof fn lemma_backoff_delay_monotonic(base: u64, i: nat, j: nat)
    requires
        i <= j,
    ensures
        backoff_delay(base, i) <= backoff_delay(base, j),
    decreases j - i,
{
    if i < j {
        lemma_backoff_delay_monotonic(base, i, (j - 1) as nat);
    }
}

/// Law: when one policy slot asks for a wait on two consecutive
/// applications, the second wait is at least the first — a fixed delay
/// repeats itself and a backoff's delays grow, so a slot's waits never
/// shrink across a run.
pub proof fn lemma_waits_never_shrink(
    s0: AutoProberStrategy,
    s1: AutoProberStrategy,
    s2: AutoProberStrategy,
    d1: u64,
    d2: u64,
)
    requires
        AutoProberStrategy::applied(s0, s1, AutoProberAction::Wait(d1)),
        AutoProberStrategy::applied(s1, s2, AutoProberAction::Wait(d2)),
    ensures
        d1 <= d2,
{
    if let AutoProberStrategy::Backoff(b0) = s0 {
        lemma_backoff_delay_monotonic(
            b0.base_secs() as u64,
            b0.cursor() as nat,
            (b0.cursor() + 1) as nat,
        );
    }
}

/// A bounded exponential backoff schedule: an immutable template (how many
/// attempts, first delay in seconds) and a cursor into the current attempt
/// sequence.  Attempt `k` waits `delay_secs` doubled `k` times, saturating
/// at `u64::MAX` seconds; after `attempts` attempts the schedule is
/// exhausted until an explicit `reset`.
#[derive(Clone, Copy, Debug)]
pub struct BackoffStrategy {
    attempts: u32,
    delay_secs: u32,
    attempt: u32,
}

impl BackoffStrategy {
    /// How many attempts the template allows.
    pub closed spec fn max_attempts(&self) -> u32 {
        self.attempts
    }

    /// The template's first delay, in seconds.
    pub closed spec fn base_secs(&self) -> u32 {
        self.delay_secs
    }

    /// How many attempts have been taken since the last reset.
    pub closed spec fn cursor(&self) -> u32 {
        self.attempt
    }

    /// Same template — attempt bound and base delay — whatever the cursor.
    pub open spec fn same_template(&self, other: &Self) -> bool {
        self.max_attempts() == other.max_attempts() && self.base_secs() == other.base_secs()
    }

    /// A fresh schedule at the start of its attempt sequence.
    pub fn new(attempts: u32, delay_secs: u32) -> (r: Self)
        ensures
            r.max_attempts() == attempts,
            r.base_secs() == delay_secs,
            r.cursor() == 0,
    {
        Self { attempts, delay_secs, attempt: 0 }
    }

    /// Advances the cursor and returns the next delay in seconds, or
    /// `None` when the bounded attempts are exhausted.  Exhaustion is
    /// terminal: every later call returns `None` until a `reset`.
    pub fn next_sleep(&mut self) -> (r: Option<u64>)
        ensures
            old(self).cursor() < old(self).max_attempts() ==> {
                &&& r == Some(
                    backoff_delay(old(self).base_secs() as u64, old(self).cursor() as nat),
                )
                &&& final(self).cursor() == old(self).cursor() + 1
                &&& final(self).same_template(old(self))
            },
            old(self).cursor() >= old(self).max_attempts() ==> r is None && *final(self) == *old(
                self,
            ),
    {
        if self.attempt >= self.attempts {
            return None;
        }
        let d = compute_delay(self.delay_secs, self.attempt);
        self.attempt = self.attempt + 1;
        Some(d)
    }

    /// Rewinds the cursor to the start of a fresh attempt sequence.
    pub fn reset(&mut self)
        ensures
            final(self).cursor() == 0,
            final(self).same_template(old(self)),
    {
        self.attempt = 0;
    }
}

/// `base` doubled `attempt` times, saturating at `u64::MAX`.
fn compute_delay(base: u32, attempt: u32) -> (d: u64)
    ensures
        d == backoff_delay(base as u64, attempt as nat),
{
    let mut d: u64 = base as u64;
    let mut i: u32 = 0;
    while i < attempt
        invariant
            i <= attempt,
            d == backoff_delay(base as u64, i as nat),
        decreases attempt - i,
    {
        if d <= u64::MAX / 2 {
            d = 2 * d;
        } else {
            d = u64::MAX;
        }
        i = i + 1;
    }
    d
}

} // verus!
