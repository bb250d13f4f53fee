//! Retry policy: which failures are retried at once, which after a growing
//! delay, and when to give up.
use vstd::arithmetic::power::lemma_pow0;
use vstd::arithmetic::power2::{lemma_pow2, lemma_pow2_pos, lemma_pow2_strictly_increases, lemma_pow2_unfold, pow2};
use vstd::prelude::*;

verus! {

/// `base * 2^attempt`, unbounded.
pub open spec fn spec_backoff(base: u64, attempt: nat) -> int {
    base * pow2(attempt)
}

/// A value clamped to the largest `u64`.
pub open spec fn capped(x: int) -> u64 {
    if x > u64::MAX {
        u64::MAX
    } else {
        x as u64
    }
}

/// Exponential backoff: `base * 2^attempt`, saturating at `u64::MAX`.
pub fn backoff_delay(base: u64, attempt: u32) -> (r: u64)
    ensures
        r == capped(spec_backoff(base, attempt as nat)),
{
    let mut d: u64 = base;
    let mut i: u32 = 0;
    proof {
        lemma_pow2(0);
        lemma_pow0(2);
    }
    while i < attempt && d != 0 && d != u64::MAX
        invariant
            i <= attempt,
            d == capped(spec_backoff(base, i as nat)),
        decreases attempt - i,
    {
        let ghost x = spec_backoff(base, i as nat);
        proof {
            lemma_pow2_unfold((i + 1) as nat);
            lemma_pow2_pos(i as nat);
            assert(spec_backoff(base, (i + 1) as nat) == 2 * x) by (nonlinear_arith)
                requires
                    pow2((i + 1) as nat) == 2 * pow2(i as nat),
                    x == base * pow2(i as nat),
            ;
            assert(x >= 0) by (nonlinear_arith)
                requires
                    x == base * pow2(i as nat),
            ;
        }
        if d > u64::MAX / 2 {
            d = u64::MAX;
        } else {
            d = d * 2;
        }
        i = i + 1;
    }
    proof {
        // once the delay is zero or saturated, later attempts keep it so
        if i < attempt {
            lemma_pow2_strictly_increases(i as nat, attempt as nat);
            lemma_pow2_pos(i as nat);
            let x = spec_backoff(base, i as nat);
            let y = spec_backoff(base, attempt as nat);
            assert(x <= y && (x == 0 ==> y == 0)) by (nonlinear_arith)
                requires
                    x == base * pow2(i as nat),
                    y == base * pow2(attempt as nat),
                    0 < pow2(i as nat) < pow2(attempt as nat),
            ;
        }
    }
    d
}

/// The delay at attempt zero is the base delay itself.
pub proof fn lemma_backoff_starts_at_base(base: u64)
    ensures
        capped(spec_backoff(base, 0)) == base,
{
    lemma_pow2(0);
    lemma_pow0(2);
}

/// With a positive base, the delay grows strictly with the attempt number,
/// as long as the later delay fits in a `u64`.
pub proof fn lemma_backoff_strictly_increasing(base: u64, a: nat, b: nat)
    requires
        base > 0,
        a < b,
        spec_backoff(base, b) <= u64::MAX,
    ensures
        capped(spec_backoff(base, a)) < capped(spec_backoff(base, b)),
{
    lemma_pow2_strictly_increases(a, b);
    lemma_pow2_pos(a);
    assert(spec_backoff(base, a) < spec_backoff(base, b)) by (nonlinear_arith)
        requires
            base > 0,
            0 < pow2(a) < pow2(b),
    ;
    assert(spec_backoff(base, a) >= 0) by (nonlinear_arith)
        requires
            pow2(a) > 0,
    ;
}

/// How the delay between attempts evolves.
#[derive(Clone, Copy, Debug, PartialEq, Eq, Structural)]
pub enum Backoff {
    /// The same delay before every retry.
    Fixed,
    /// `base * 2^n` before the retry that follows failure number `n + 1`.
    Exponential,
}

/// What kind of failure ended an attempt.
#[derive(Clone, Copy, Debug, PartialEq, Eq, Structural)]
pub enum FailureClass {
    /// The daemon rejected the credentials: the cause is user input.
    Authentication,
    /// The daemon could not be reached or the connection broke.
    Connection,
    /// A malformed frame or message.
    Serialization,
    /// The daemon answered outside the expected exchange.
    Protocol,
    /// Any other error reported by the daemon.
    Daemon,
}

pub open spec fn spec_should_retry_immediately(class: FailureClass) -> bool {
    class is Authentication
}

/// Failures caused by user input are retried without delay.
pub fn should_retry_immediately(class: FailureClass) -> (r: bool)
    ensures
        r == spec_should_retry_immediately(class),
{
    match class {
        FailureClass::Authentication => true,
        _ => false,
    }
}

/// What to do after a failure.
#[derive(Clone, Copy, Debug, PartialEq, Eq, Structural)]
pub enum RetryDecision {
    RetryNow,
    /// Retry after this many units of the base delay's unit.
    RetryAfter(u64),
    /// The maximum number of attempts was already reached.
    GiveUp,
}

/// The delay owed before the retry that follows failure number `attempt + 1`.
pub open spec fn spec_delay(backoff: Backoff, base: u64, attempt: nat) -> u64 {
    match backoff {
        Backoff::Fixed => base,
        Backoff::Exponential => capped(spec_backoff(base, attempt)),
    }
}

/// Attempt counter of one retrying operation.
pub struct RetryState {
    attempt: u32,
    max_attempts: u32,
    base_delay: u64,
    backoff: Backoff,
    last_failure: Option<FailureClass>,
}

impl RetryState {
    pub closed spec fn spec_attempt(&self) -> nat {
        self.attempt as nat
    }

    pub closed spec fn spec_max_attempts(&self) -> nat {
        self.max_attempts as nat
    }

    pub closed spec fn spec_base_delay(&self) -> u64 {
        self.base_delay
    }

    pub closed spec fn spec_backoff_kind(&self) -> Backoff {
        self.backoff
    }

    pub closed spec fn spec_last_failure(&self) -> Option<FailureClass> {
        self.last_failure
    }

    /// The counter never passes the maximum.
    pub open spec fn wf(&self) -> bool {
        self.spec_attempt() <= self.spec_max_attempts()
    }

    pub fn new(max_attempts: u32, base_delay: u64, backoff: Backoff) -> (r: RetryState)
        ensures
            r.wf(),
            r.spec_attempt() == 0,
            r.spec_max_attempts() == max_attempts,
            r.spec_base_delay() == base_delay,
            r.spec_backoff_kind() == backoff,
            r.spec_last_failure() is None,
    {
        RetryState { attempt: 0, max_attempts, base_delay, backoff, last_failure: None }
    }

    /// Failures recorded since the last success.
    pub fn attempt(&self) -> (r: u32)
        ensures
            r == self.spec_attempt(),
    {
        self.attempt
    }

    pub fn last_failure(&self) -> (r: Option<FailureClass>)
        ensures
            r == self.spec_last_failure(),
    {
        self.last_failure
    }

    /// True once the maximum is reached; the operation is not tried again.
    pub fn exhausted(&self) -> (r: bool)
        ensures
            r == (self.spec_attempt() >= self.spec_max_attempts()),
    {
        self.attempt >= self.max_attempts
    }

    /// Counts a failure and decides what follows it. A failure that comes
    /// once the maximum is reached gives up; otherwise the failure is
    /// counted, and one caused by user input is retried at once while others
    /// wait for the backoff delay of the attempt just made. The failure that
    /// reaches the maximum still gets its delay; the driver stops once
    /// `exhausted` holds.
    pub fn record_failure(&mut self, class: FailureClass) -> (d: RetryDecision)
        requires
            old(self).wf(),
        ensures
            final(self).wf(),
            final(self).spec_attempt() <= final(self).spec_max_attempts(),
            final(self).spec_attempt() == (if old(self).spec_attempt() < old(self).spec_max_attempts() {
                old(self).spec_attempt() + 1
            } else {
                old(self).spec_attempt()
            }),
            final(self).spec_max_attempts() == old(self).spec_max_attempts(),
            final(self).spec_base_delay() == old(self).spec_base_delay(),
            final(self).spec_backoff_kind() == old(self).spec_backoff_kind(),
            final(self).spec_last_failure() == Some(class),
            d == (if old(self).spec_attempt() >= old(self).spec_max_attempts() {
                RetryDecision::GiveUp
            } else if spec_should_retry_immediately(class) {
                RetryDecision::RetryNow
            } else {
                RetryDecision::RetryAfter(
                    spec_delay(
                        old(self).spec_backoff_kind(),
                        old(self).spec_base_delay(),
                        old(self).spec_attempt(),
                    ),
                )
            }),
    {
        let done = self.attempt;
        self.last_failure = Some(class);
        if done >= self.max_attempts {
            return RetryDecision::GiveUp;
        }
        self.attempt = done + 1;
        if should_retry_immediately(class) {
            RetryDecision::RetryNow
        } else {
            match self.backoff {
                Backoff::Fixed => RetryDecision::RetryAfter(self.base_delay),
                Backoff::Exponential => RetryDecision::RetryAfter(backoff_delay(self.base_delay, done)),
            }
        }
    }

    /// A success resets the counter.
    pub fn record_success(&mut self)
        requires
            old(self).wf(),
        ensures
            final(self).wf(),
            final(self).spec_attempt() == 0,
            final(self).spec_max_attempts() == old(self).spec_max_attempts(),
            final(self).spec_base_delay() == old(self).spec_base_delay(),
            final(self).spec_backoff_kind() == old(self).spec_backoff_kind(),
            final(self).spec_last_failure() is None,
    {
        self.attempt = 0;
        self.last_failure = None;
    }
}

} // verus!
