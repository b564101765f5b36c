use vstd::prelude::*;
use crate::error::{error_text, spec_is_retryable, ModelError};

verus! {

/// Delay before the first retry, in milliseconds.
pub const BASE_DELAY_MS: u64 = 2000;

pub open spec fn pow2(n: nat) -> nat
    decreases n,
{
    if n == 0 {
        1
    } else {
        2 * pow2((n - 1) as nat)
    }
}

/// The exponential part of the wait after the given number of failures:
/// the base delay doubled once per earlier failure, capped at `u64::MAX`.
pub open spec fn backoff_ceiling(failures: nat) -> int {
    let d = BASE_DELAY_MS * pow2((failures - 1) as nat);
    if d <= u64::MAX {
        d as int
    } else {
        u64::MAX as int
    }
}

/// The whole wait: the exponential part plus a jitter below a quarter of it,
/// drawn from `random`; capped at `u64::MAX`.
pub open spec fn backoff_delay_spec(failures: nat, random: u64) -> int {
    let c = backoff_ceiling(failures);
    let d = c + (random as int) % (c / 4);
    if d <= u64::MAX {
        d
    } else {
        u64::MAX as int
    }
}

/// The decimal digits of a natural number, most significant first.
pub open spec fn decimal(n: nat) -> Seq<char>
    decreases n,
{
    if n < 10 {
        seq!["0123456789"@[n as int]]
    } else {
        decimal(n / 10).push("0123456789"@[(n % 10) as int])
    }
}

proof fn lemma_pow2_monotone(a: nat, b: nat)
    requires
        a <= b,
    ensures
        pow2(a) <= pow2(b),
    decreases b,
{
    if a < b {
        lemma_pow2_monotone(a, (b - 1) as nat);
    }
}

proof fn lemma_pow2_positive(a: nat)
    ensures
        pow2(a) >= 1,
    decreases a,
{
    if a > 0 {
        lemma_pow2_positive((a - 1) as nat);
    }
}

/// Bounded retries with exponential backoff and random jitter.
#[derive(Debug, Clone, Copy)]
pub struct RetryPolicy {
    /// How many times a failed call is tried again; 0 disables retries.
    pub max_retries: u32,
}

/// The error that ends a retried operation.
#[derive(Debug)]
pub struct RetryError {
    /// The error of the last attempt.
    pub last_error: ModelError,
    /// How many attempts were made.
    pub attempts: u64,
    /// The retry budget of the policy.
    pub max_retries: u32,
    /// Whether the operation failed because the budget ran out, rather than
    /// because its error was not worth retrying.
    pub budget_exhausted: bool,
}

/// What to do after an attempt failed.
#[derive(Debug)]
pub enum RetryDecision {
    /// Wait this many milliseconds, then try again.
    RetryAfter(u64),
    /// Stop and report the error.
    GiveUp(RetryError),
}

/// The decision after `failures` failed attempts, the last one with `error`,
/// when the jitter is drawn from `random`.
pub open spec fn retry_decision(max_retries: u32, failures: nat, error: ModelError, random: u64) -> RetryDecision {
    if !spec_is_retryable(error) || failures > max_retries {
        RetryDecision::GiveUp(
            RetryError {
                last_error: error,
                attempts: failures as u64,
                max_retries,
                budget_exhausted: spec_is_retryable(error),
            },
        )
    } else {
        RetryDecision::RetryAfter(backoff_delay_spec(failures, random) as u64)
    }
}

/// The text of the error that ends a retried operation.
pub open spec fn retry_error_text(e: RetryError) -> Seq<char> {
    if e.budget_exhausted {
        "Failed after "@ + decimal(e.max_retries as nat) + " retries: "@ + error_text(e.last_error)
    } else {
        error_text(e.last_error)
    }
}

/// The retry budget is exact: an operation whose transient error keeps coming
/// back waits after each of its first `max_retries` failures and is given up
/// at failure `max_retries + 1`, with an error that reports the exhausted
/// budget and wraps the last error. An error that is not transient is given
/// up at the first failure, whatever the budget; so is every error when the
/// budget is 0.
pub proof fn lemma_retry_budget(max_retries: u32, error: ModelError, random: u64)
    ensures
        spec_is_retryable(error) ==> forall|f: nat|
            1 <= f <= max_retries ==> #[trigger] retry_decision(max_retries, f, error, random) is RetryAfter,
        spec_is_retryable(error) ==> retry_decision(max_retries, (max_retries + 1) as nat, error, random)
            == RetryDecision::GiveUp(
            RetryError {
                last_error: error,
                attempts: (max_retries + 1) as u64,
                max_retries,
                budget_exhausted: true,
            },
        ),
        spec_is_retryable(error) ==> retry_error_text(
            RetryError {
                last_error: error,
                attempts: (max_retries + 1) as u64,
                max_retries,
                budget_exhausted: true,
            },
        ) == "Failed after "@ + decimal(max_retries as nat) + " retries: "@ + error_text(error),
        !spec_is_retryable(error) || max_retries == 0 ==> retry_decision(max_retries, 1, error, random) is GiveUp,
{
}

/// Relies on rand::random: a freshly drawn u64, of which nothing is promised.
#[verifier::external_body]
fn random_u64() -> (r: u64) {
    rand::random::<u64>()
}

/// Relies on the standard library's `Display` for `u32`: its decimal digits,
/// with no sign and no padding.
#[verifier::external_body]
fn decimal_string(n: u32) -> (r: String)
    ensures
        r@ == decimal(n as nat),
{
    n.to_string()
}

impl RetryPolicy {
    pub fn new(max_retries: u32) -> (r: Self)
        ensures
            r.max_retries == max_retries,
    {
        RetryPolicy { max_retries }
    }

    /// The wait before the next attempt after `failures` failed attempts:
    /// `2000 * 2^(failures - 1)` milliseconds plus `random` modulo a quarter
    /// of that, saturating at `u64::MAX`.
    pub fn backoff_delay(failures: u64, random: u64) -> (r: u64)
        requires
            failures >= 1,
        ensures
            r == backoff_delay_spec(failures as nat, random),
    {
        let mut ceiling: u64 = BASE_DELAY_MS;
        let mut k: u64 = 1;
        proof {
            lemma_pow2_positive(0);
        }
        while k < failures && ceiling < u64::MAX
            invariant
                1 <= k <= failures,
                ceiling as int == backoff_ceiling(k as nat),
                ceiling >= BASE_DELAY_MS,
            decreases failures - k,
        {
            proof {
                lemma_pow2_positive((k - 1) as nat);
                assert(pow2(k as nat) == 2 * pow2((k - 1) as nat));
            }
            if ceiling > u64::MAX / 2 {
                ceiling = u64::MAX;
            } else {
                ceiling = ceiling * 2;
            }
            k = k + 1;
        }
        proof {
            if k < failures {
                lemma_pow2_monotone((k - 1) as nat, (failures - 1) as nat);
            }
        }
        let jitter = random % (ceiling / 4);
        ceiling.saturating_add(jitter)
    }

    /// The decision after the `failures`-th failed attempt, whose error was
    /// `error`, with the jitter drawn from `random`. An error that is not
    /// transient ends the operation at once; otherwise it ends once the
    /// failures outnumber the retry budget.
    pub fn decide(&self, failures: u64, error: ModelError, random: u64) -> (r: RetryDecision)
        requires
            failures >= 1,
        ensures
            r == retry_decision(self.max_retries, failures as nat, error, random),
    {
        let retryable = error.is_retryable();
        if !retryable || failures > self.max_retries as u64 {
            RetryDecision::GiveUp(
                RetryError {
                    last_error: error,
                    attempts: failures,
                    max_retries: self.max_retries,
                    budget_exhausted: retryable,
                },
            )
        } else {
            RetryDecision::RetryAfter(RetryPolicy::backoff_delay(failures, random))
        }
    }

    /// The decision after the `failures`-th failed attempt, with fresh jitter.
    pub fn on_failure(&self, failures: u64, error: ModelError) -> (r: RetryDecision)
        requires
            failures >= 1,
        ensures
            exists|random: u64| r == retry_decision(self.max_retries, failures as nat, error, random),
    {
        let random = random_u64();
        self.decide(failures, error, random)
    }
}

impl RetryError {
    /// Human-readable description, naming the exhausted budget if it ran out.
    pub fn message(&self) -> (r: String)
        ensures
            r@ == retry_error_text(*self),
    {
        let last = self.last_error.message();
        if self.budget_exhausted {
            let count = decimal_string(self.max_retries);
            "Failed after ".to_owned().concat(count.as_str()).concat(" retries: ").concat(last.as_str())
        } else {
            last
        }
    }
}

} // verus!
