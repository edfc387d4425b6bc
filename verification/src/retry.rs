//! Bounded retry with exponential backoff and jitter, for the calls that a
//! task handler makes to the network.
//!
//! The caller makes the attempts and sleeps; this module says after each
//! attempt whether to stop, to give up, or how long to wait before the next.

use vstd::prelude::*;

verus! {

/// How often a call is tried and how long the caller waits in between.
#[derive(Clone, Copy, Debug, PartialEq, Eq, Structural)]
pub struct RetryPolicy {
    /// The number of attempts after which the call counts as failed.
    pub max_attempts: u32,
    /// The wait after the first failure, in milliseconds.
    pub base_delay_ms: u64,
    /// The longest wait that backoff alone may reach, in milliseconds.
    pub max_delay_ms: u64,
    /// The most that jitter may add to a wait, in milliseconds.
    pub max_jitter_ms: u64,
}

/// What to do after an attempt.
#[derive(Clone, Copy, Debug, PartialEq, Eq, Structural)]
pub enum Verdict {
    /// The attempt succeeded: no further attempt.
    Done,
    /// The attempt failed: wait `delay_ms`, then try again.
    RetryAfter { delay_ms: u64 },
    /// The attempt failed and it was the last one allowed.
    GiveUp,
}

/// The smaller of two numbers.
pub open spec fn least(a: int, b: int) -> int {
    if a <= b {
        a
    } else {
        b
    }
}

/// The wait that backoff asks for after `failures` failed attempts in a row:
/// the base delay after the first, twice the previous wait after each further
/// one, and never more than the cap.
pub open spec fn backoff_ms(policy: RetryPolicy, failures: nat) -> int
    decreases failures,
{
    if failures <= 1 {
        least(policy.base_delay_ms as int, policy.max_delay_ms as int)
    } else {
        least(2 * backoff_ms(policy, (failures - 1) as nat), policy.max_delay_ms as int)
    }
}

/// The jitter that the random sample `sample` stands for: a number from zero
/// to `max_jitter_ms`, both included.
pub open spec fn jitter_ms(policy: RetryPolicy, sample: u64) -> int {
    if policy.max_jitter_ms == u64::MAX {
        sample as int
    } else {
        sample as int % (policy.max_jitter_ms + 1)
    }
}

/// The wait after `failures` failed attempts: backoff plus jitter, as far as
/// a `u64` holds it.
pub open spec fn delay_ms(policy: RetryPolicy, failures: nat, sample: u64) -> int {
    least(backoff_ms(policy, failures) + jitter_ms(policy, sample), u64::MAX as int)
}

/// What to do after an attempt that followed `failures_before` failed ones.
pub open spec fn verdict(
    policy: RetryPolicy,
    failures_before: u32,
    succeeded: bool,
    sample: u64,
) -> Verdict {
    if succeeded {
        Verdict::Done
    } else if failures_before + 1 >= policy.max_attempts {
        Verdict::GiveUp
    } else {
        Verdict::RetryAfter {
            delay_ms: delay_ms(policy, (failures_before + 1) as nat, sample) as u64,
        }
    }
}

/// Backoff never leaves the range from zero to the cap.
pub proof fn lemma_backoff_bounded(policy: RetryPolicy, failures: nat)
    ensures
        0 <= backoff_ms(policy, failures) <= policy.max_delay_ms,
    decreases failures,
{
    if failures > 1 {
        lemma_backoff_bounded(policy, (failures - 1) as nat);
    }
}

/// Backoff never shrinks from one failure to the next.
pub proof fn lemma_backoff_grows(policy: RetryPolicy, failures: nat)
    requires
        failures >= 1,
    ensures
        backoff_ms(policy, failures) <= backoff_ms(policy, failures + 1),
    decreases failures,
{
    lemma_backoff_bounded(policy, failures);
}

/// A wait is never shorter than its backoff, and never longer than backoff
/// and the largest jitter together.
pub proof fn lemma_delay_bounded(policy: RetryPolicy, failures: nat, sample: u64)
    ensures
        delay_ms(policy, failures, sample) <= policy.max_delay_ms + policy.max_jitter_ms,
        backoff_ms(policy, failures) <= delay_ms(policy, failures, sample),
{
    lemma_backoff_bounded(policy, failures);
}

impl RetryPolicy {
    /// Whether another attempt is allowed after `failures` failed ones.
    pub fn allows_attempt(&self, failures: u32) -> (b: bool)
        ensures
            b == (failures < self.max_attempts),
    {
        failures < self.max_attempts
    }

    /// The wait that backoff asks for after `failures` failed attempts.
    pub fn backoff(&self, failures: u32) -> (ms: u64)
        ensures
            ms == backoff_ms(*self, failures as nat),
    {
        let cap: u64 = self.max_delay_ms;
        let mut wait: u64 = if self.base_delay_ms <= cap {
            self.base_delay_ms
        } else {
            cap
        };
        let mut n: u32 = 1;
        while n < failures
            invariant
                1 <= n,
                n <= failures || (failures == 0 && n == 1),
                cap == self.max_delay_ms,
                wait == backoff_ms(*self, n as nat),
                wait <= cap,
            decreases failures - n,
        {
            wait = if wait <= cap / 2 && wait * 2 <= cap {
                wait * 2
            } else {
                cap
            };
            n += 1;
        }
        assert(backoff_ms(*self, 0) == backoff_ms(*self, 1));
        wait
    }

    /// The wait after `failures` failed attempts: backoff plus the jitter
    /// that `sample` stands for.
    pub fn delay(&self, failures: u32, sample: u64) -> (ms: u64)
        ensures
            ms == delay_ms(*self, failures as nat, sample),
    {
        let jitter: u64 = if self.max_jitter_ms == u64::MAX {
            sample
        } else {
            sample % (self.max_jitter_ms + 1)
        };
        let wait: u64 = self.backoff(failures);
        if jitter <= u64::MAX - wait {
            wait + jitter
        } else {
            u64::MAX
        }
    }

    /// Judges an attempt that followed `failures_before` failed ones. A
    /// success ends the run. A failure asks for a wait and another attempt,
    /// unless it was attempt number `max_attempts`: then the run is given up.
    pub fn after_attempt(&self, failures_before: u32, succeeded: bool, sample: u64) -> (v: Verdict)
        ensures
            v == verdict(*self, failures_before, succeeded, sample),
    {
        if succeeded {
            Verdict::Done
        } else if failures_before >= self.max_attempts || failures_before + 1
            >= self.max_attempts {
            Verdict::GiveUp
        } else {
            Verdict::RetryAfter { delay_ms: self.delay(failures_before + 1, sample) }
        }
    }
}

/// How a run of attempts ended, or that it has not ended yet.
pub enum Run<T> {
    /// Every attempt so far failed, `failures` of them, and more are allowed.
    Trying { failures: nat },
    /// An attempt succeeded with `value`; `attempts` were made in all.
    Succeeded { value: T, attempts: nat },
    /// All allowed attempts failed; `attempts` were made.
    Exhausted { attempts: nat },
}

/// Where a run stands once the attempt that followed `failures` failed ones
/// gave `result`, by the verdict on that attempt: `Done` ends the run in
/// success, `GiveUp` ends it in failure, and `RetryAfter` lets it go on.
pub open spec fn judged<T>(policy: RetryPolicy, failures: nat, result: Option<T>) -> Run<T> {
    match verdict(policy, failures as u32, result is Some, 0) {
        Verdict::Done => Run::Succeeded { value: result->0, attempts: failures + 1 },
        Verdict::RetryAfter { delay_ms } => Run::Trying { failures: failures + 1 },
        Verdict::GiveUp => Run::Exhausted { attempts: failures + 1 },
    }
}

/// Where a run stands after the first `n` results of `results` came in. A
/// result is `Some` for a success and `None` for a transient failure. Each
/// attempt is judged as `after_attempt` judges it. Once a run has ended,
/// later results change nothing: no further attempt is made.
pub open spec fn run_after<T>(policy: RetryPolicy, results: Seq<Option<T>>, n: nat) -> Run<T>
    decreases n,
{
    if n == 0 {
        if policy.max_attempts == 0 {
            Run::Exhausted { attempts: 0 }
        } else {
            Run::Trying { failures: 0 }
        }
    } else {
        match run_after(policy, results, (n - 1) as nat) {
            Run::Trying { failures } => judged(policy, failures, results[n - 1]),
            ended => ended,
        }
    }
}

/// Which verdict an attempt gets does not hang on the jitter: the sample
/// only moves the wait of a `RetryAfter`.
pub proof fn lemma_verdict_kind_ignores_sample(
    policy: RetryPolicy,
    failures_before: u32,
    succeeded: bool,
    a: u64,
    b: u64,
)
    ensures
        verdict(policy, failures_before, succeeded, a) is Done <==> verdict(
            policy,
            failures_before,
            succeeded,
            b,
        ) is Done,
        verdict(policy, failures_before, succeeded, a) is GiveUp <==> verdict(
            policy,
            failures_before,
            succeeded,
            b,
        ) is GiveUp,
        verdict(policy, failures_before, succeeded, a) is Done <==> succeeded,
        verdict(policy, failures_before, succeeded, a) is GiveUp <==> !succeeded
            && failures_before + 1 >= policy.max_attempts,
{
}

/// A run that goes on has made fewer attempts than are allowed, so that the
/// next attempt is one that `allows_attempt` lets through.
pub proof fn lemma_trying_run_allows_attempt<T>(
    policy: RetryPolicy,
    results: Seq<Option<T>>,
    n: nat,
)
    ensures
        run_after(policy, results, n) is Trying ==> run_after(policy, results, n)->failures
            < policy.max_attempts,
    decreases n,
{
    if n > 0 {
        lemma_trying_run_allows_attempt(policy, results, (n - 1) as nat);
    }
}

/// While every result is a failure and attempts are left, the run goes on
/// and has counted each of them.
pub proof fn lemma_failures_keep_trying<T>(policy: RetryPolicy, results: Seq<Option<T>>, n: nat)
    requires
        n <= results.len(),
        n < policy.max_attempts,
        forall|i: int| 0 <= i < n ==> results[i] is None,
    ensures
        run_after(policy, results, n) == (Run::<T>::Trying { failures: n }),
    decreases n,
{
    if n > 0 {
        lemma_failures_keep_trying(policy, results, (n - 1) as nat);
    }
}

/// A run that has ended stays as it ended.
pub proof fn lemma_ended_run_stays<T>(policy: RetryPolicy, results: Seq<Option<T>>, m: nat, n: nat)
    requires
        m <= n,
        !(run_after(policy, results, m) is Trying),
    ensures
        run_after(policy, results, n) == run_after(policy, results, m),
    decreases n,
{
    if n > m {
        lemma_ended_run_stays(policy, results, m, (n - 1) as nat);
    }
}

/// A call that fails `k` times and then succeeds, with `k` below the number
/// of attempts allowed, ends in success with the value of that attempt after
/// exactly `k + 1` attempts, and whatever results follow are not looked at.
pub proof fn lemma_transient_failures_then_success<T>(
    policy: RetryPolicy,
    results: Seq<Option<T>>,
    k: nat,
    n: nat,
)
    requires
        k < policy.max_attempts,
        k < results.len(),
        forall|i: int| 0 <= i < k ==> results[i] is None,
        results[k as int] is Some,
        k < n,
    ensures
        run_after(policy, results, n) == (Run::Succeeded {
            value: results[k as int]->0,
            attempts: k + 1,
        }),
{
    lemma_failures_keep_trying(policy, results, k);
    assert(run_after(policy, results, k + 1) == (Run::Succeeded {
        value: results[k as int]->0,
        attempts: k + 1,
    }));
    lemma_ended_run_stays(policy, results, k + 1, n);
}

/// A call whose first `max_attempts` attempts all fail is given up after
/// exactly that many attempts.
pub proof fn lemma_exhausted_after_max<T>(policy: RetryPolicy, results: Seq<Option<T>>, n: nat)
    requires
        policy.max_attempts <= n,
        policy.max_attempts <= results.len(),
        forall|i: int| 0 <= i < policy.max_attempts ==> results[i] is None,
    ensures
        run_after(policy, results, n) == (Run::<T>::Exhausted {
            attempts: policy.max_attempts as nat,
        }),
{
    let max = policy.max_attempts as nat;
    if max > 0 {
        lemma_failures_keep_trying(policy, results, (max - 1) as nat);
        assert(run_after(policy, results, max) == (Run::<T>::Exhausted { attempts: max }));
    }
    lemma_ended_run_stays(policy, results, max, n);
}

} // verus!
