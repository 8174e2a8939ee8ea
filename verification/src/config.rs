//! HTTP client settings and the retry policy built on them.

use std::time::Duration;

use vstd::prelude::*;

use crate::text::string_of;

verus! {

/// The length of a `Duration` in nanoseconds (what std's
/// `Duration::as_nanos` returns).
pub uninterp spec fn duration_nanos(d: Duration) -> nat;

/// std's `Duration::as_nanos`: the total number of nanoseconds.
#[verifier::external_body]
pub(crate) fn as_nanos(d: &Duration) -> (r: u128)
    ensures
        r == duration_nanos(*d),
{
    d.as_nanos()
}

/// std's `Duration::from_nanos`: a duration of `n` nanoseconds.
#[verifier::external_body]
pub(crate) fn from_nanos(n: u64) -> (r: Duration)
    ensures
        duration_nanos(r) == n,
{
    Duration::from_nanos(n)
}

/// std's `Duration::from_millis`: a duration of `ms` milliseconds.
#[verifier::external_body]
pub(crate) fn from_millis(ms: u64) -> (r: Duration)
    ensures
        duration_nanos(r) == ms * 1_000_000,
{
    Duration::from_millis(ms)
}

/// std's `Duration::from_secs`: a duration of `s` seconds.
#[verifier::external_body]
pub(crate) fn from_secs(s: u64) -> (r: Duration)
    ensures
        duration_nanos(r) == s * 1_000_000_000,
{
    Duration::from_secs(s)
}

/// `Duration` is `Copy`; its `clone` gives back the same duration.
pub assume_specification[ <Duration as Clone>::clone ](d: &Duration) -> (r: Duration)
    ensures
        r == *d,
;

/// Tunable HTTP-client parameters shared by the DisplayCatalog handler and
/// the FE3 calls it triggers.
#[derive(Debug, Clone)]
pub struct ClientConfig {
    /// Per-request timeout. Default: 30 s.
    pub timeout: Duration,
    /// Maximum retry attempts on transient failures; `0` disables retries.
    /// Default: `3`.
    pub max_retries: u32,
    /// Initial backoff between attempts; doubled each retry up to
    /// `max_backoff`. Default: 500 ms.
    pub initial_backoff: Duration,
    /// Upper cap on per-attempt backoff. Default: 5 s.
    pub max_backoff: Duration,
    /// HTTP status codes that trigger a retry. Default:
    /// `[408, 429, 502, 503, 504]`.
    pub retry_on_status: Vec<u16>,
    /// User-Agent header. Default: `"StoreLib"`.
    pub user_agent: String,
}

impl Default for ClientConfig {
    fn default() -> (r: Self)
        ensures
            duration_nanos(r.timeout) == 30_000_000_000,
            r.max_retries == 3,
            duration_nanos(r.initial_backoff) == 500_000_000,
            duration_nanos(r.max_backoff) == 5_000_000_000,
            r.retry_on_status@ == seq![408u16, 429u16, 502u16, 503u16, 504u16],
            r.user_agent@ == "StoreLib"@,
    {
        let ua: [char; 8] = ['S', 't', 'o', 'r', 'e', 'L', 'i', 'b'];
        let user_agent = string_of(&ua);
        proof {
            reveal_strlit("StoreLib");
            assert(user_agent@ =~= "StoreLib"@);
        }
        ClientConfig {
            timeout: from_secs(30),
            max_retries: 3,
            initial_backoff: from_millis(500),
            max_backoff: from_secs(5),
            retry_on_status: vec![408, 429, 502, 503, 504],
            user_agent,
        }
    }
}

/// `2^n`.
pub open spec fn pow2(n: nat) -> nat
    decreases n,
{
    if n == 0 {
        1
    } else {
        2 * pow2((n - 1) as nat)
    }
}

/// The multiplier of the `attempt`-th backoff: `2^attempt`, or `u64::MAX`
/// once that no longer fits in 64 bits.
pub open spec fn backoff_factor(attempt: u32) -> nat {
    if attempt < 64 {
        pow2(attempt as nat)
    } else {
        u64::MAX as nat
    }
}

pub open spec fn min_nat(a: nat, b: nat) -> nat {
    if a <= b {
        a
    } else {
        b
    }
}

/// The backoff, in nanoseconds, before the retry that follows attempt
/// `attempt`: `initial × 2^attempt`, saturated at `u64::MAX` nanoseconds and
/// capped at `max`.
pub open spec fn backoff_nanos(initial: nat, max: nat, attempt: u32) -> nat {
    min_nat(min_nat(initial * backoff_factor(attempt), u64::MAX as nat), max)
}

proof fn lemma_pow2_monotone(a: nat, b: nat)
    requires
        a <= b,
    ensures
        1 <= pow2(a) <= pow2(b),
    decreases b,
{
    if a < b {
        lemma_pow2_monotone(a, (b - 1) as nat);
    } else {
        lemma_pow2_positive(a);
    }
}

proof fn lemma_pow2_positive(n: nat)
    ensures
        pow2(n) >= 1,
    decreases n,
{
    if n > 0 {
        lemma_pow2_positive((n - 1) as nat);
    }
}

proof fn lemma_pow2_62()
    ensures
        pow2(62) == 0x4000_0000_0000_0000,
{
    reveal_with_fuel(pow2, 63);
}

fn factor_for(attempt: u32) -> (r: u64)
    ensures
        r == backoff_factor(attempt),
{
    if attempt >= 64 {
        return u64::MAX;
    }
    let mut f: u64 = 1;
    let mut i: u32 = 0;
    while i < attempt
        invariant
            i <= attempt < 64,
            f == pow2(i as nat),
        decreases attempt - i,
    {
        proof {
            lemma_pow2_monotone(i as nat, 62);
            lemma_pow2_62();
        }
        f = f * 2;
        i = i + 1;
    }
    f
}

impl ClientConfig {
    /// The wait before the retry that follows attempt `attempt` (0-based):
    /// `initial_backoff × 2^attempt`, capped at `max_backoff`. Never
    /// overflows, whatever `attempt` is.
    pub fn backoff_for(&self, attempt: u32) -> (r: Duration)
        ensures
            duration_nanos(r) == backoff_nanos(
                duration_nanos(self.initial_backoff),
                duration_nanos(self.max_backoff),
                attempt,
            ),
    {
        let factor = factor_for(attempt);
        let initial = as_nanos(&self.initial_backoff);
        let nanos: u128 = match initial.checked_mul(factor as u128) {
            Some(v) => v,
            None => u128::MAX,
        };
        let capped: u64 = if nanos > u64::MAX as u128 {
            u64::MAX
        } else {
            nanos as u64
        };
        let dur = from_nanos(capped);
        let max = as_nanos(&self.max_backoff);
        if (capped as u128) <= max {
            dur
        } else {
            proof {
                let init = duration_nanos(self.initial_backoff);
                assert(min_nat(init * backoff_factor(attempt), u64::MAX as nat) == capped);
            }
            self.max_backoff
        }
    }
}

/// Backoffs never exceed the cap and never shrink from one attempt to the
/// next.
pub proof fn lemma_backoff_capped_and_monotone(initial: nat, max: nat, a: u32, b: u32)
    requires
        a <= b,
    ensures
        backoff_nanos(initial, max, a) <= max,
        backoff_nanos(initial, max, a) <= backoff_nanos(initial, max, b),
{
    assert(backoff_factor(a) <= backoff_factor(b)) by {
        if b < 64 {
            lemma_pow2_monotone(a as nat, b as nat);
        } else if a < 64 {
            lemma_pow2_monotone(a as nat, 63);
            lemma_pow2_62();
            assert(pow2(63) == 2 * pow2(62));
        }
    }
    assert(initial * backoff_factor(a) <= initial * backoff_factor(b)) by (nonlinear_arith)
        requires
            backoff_factor(a) <= backoff_factor(b),
    ;
}

/// Below the cap, each backoff is twice the one before.
pub proof fn lemma_backoff_doubles(initial: nat, max: nat, a: u32)
    requires
        a < 63,
        initial * pow2((a + 1) as nat) <= max,
        initial * pow2((a + 1) as nat) <= u64::MAX,
    ensures
        backoff_nanos(initial, max, (a + 1) as u32) == 2 * backoff_nanos(initial, max, a),
{
    assert(pow2((a + 1) as nat) == 2 * pow2(a as nat));
    assert(initial * pow2((a + 1) as nat) == 2 * (initial * pow2(a as nat))) by (nonlinear_arith)
        requires
            pow2((a + 1) as nat) == 2 * pow2(a as nat),
    ;
}

// ---------------------------------------------------------------------------
// Retry policy
// ---------------------------------------------------------------------------

/// What an HTTP attempt came back with.
#[derive(Debug, Clone, Copy, PartialEq, Eq, Structural)]
pub enum AttemptOutcome {
    /// A response arrived with this status code.
    Status(u16),
    /// The request failed in transport (connection error or timeout).
    TransportError,
}

/// What to do after an attempt.
#[derive(Debug, Clone)]
pub enum RetryStep {
    /// Hand the response to the caller (success, a non-retryable status, or
    /// the last attempt).
    ReturnResponse,
    /// Report the transport error (the last attempt failed).
    ReturnError,
    /// Wait this long, then make attempt number `next_attempt` (0-based).
    Retry { wait: Duration, next_attempt: u32 },
}

/// Total number of attempts a configuration allows: one plus the retries.
pub open spec fn total_attempts(max_retries: u32) -> nat {
    if max_retries == u32::MAX {
        u32::MAX as nat
    } else {
        (max_retries + 1) as nat
    }
}

/// Whether another attempt follows attempt `attempt` (0-based).
pub open spec fn attempts_left(max_retries: u32, attempt: u32) -> bool {
    attempt + 1 < total_attempts(max_retries)
}

/// Whether attempt `attempt` (0-based), which came back with `outcome`, is
/// followed by another one.
pub open spec fn should_retry(cfg: ClientConfig, attempt: u32, outcome: AttemptOutcome) -> bool {
    attempts_left(cfg.max_retries, attempt) && match outcome {
        AttemptOutcome::Status(s) => cfg.retry_on_status@.contains(s),
        AttemptOutcome::TransportError => true,
    }
}

/// Decide what follows an HTTP attempt: a status in `retry_on_status`, or a
/// transport failure, is retried while attempts remain, after
/// `backoff_for(attempt)`; any other status is handed back at once; when no
/// attempt remains the response, or the error, is handed back.
pub fn next_retry_step(cfg: &ClientConfig, attempt: u32, outcome: AttemptOutcome) -> (r: RetryStep)
    ensures
        r is Retry <==> should_retry(*cfg, attempt, outcome),
        r is ReturnResponse <==> !should_retry(*cfg, attempt, outcome) && outcome is Status,
        r is ReturnError <==> !should_retry(*cfg, attempt, outcome) && outcome is TransportError,
        r matches RetryStep::Retry { wait, next_attempt } ==> next_attempt == attempt + 1
            && duration_nanos(wait) == backoff_nanos(
            duration_nanos(cfg.initial_backoff),
            duration_nanos(cfg.max_backoff),
            attempt,
        ),
{
    let total: u32 = cfg.max_retries.saturating_add(1);
    let left = attempt < total && total - attempt > 1;
    assert(left == attempts_left(cfg.max_retries, attempt));
    match outcome {
        AttemptOutcome::Status(s) => {
            let mut retryable = false;
            let n = cfg.retry_on_status.len();
            for i in 0..n
                invariant
                    n == cfg.retry_on_status@.len(),
                    retryable == exists|j: int| 0 <= j < i && cfg.retry_on_status@[j] == s,
            {
                if cfg.retry_on_status[i] == s {
                    retryable = true;
                }
            }
            assert(retryable == cfg.retry_on_status@.contains(s));
            if retryable && left {
                RetryStep::Retry { wait: cfg.backoff_for(attempt), next_attempt: attempt + 1 }
            } else {
                RetryStep::ReturnResponse
            }
        },
        AttemptOutcome::TransportError => {
            if left {
                RetryStep::Retry { wait: cfg.backoff_for(attempt), next_attempt: attempt + 1 }
            } else {
                RetryStep::ReturnError
            }
        },
    }
}

/// A request is sent at most `max_retries + 1` times: once the last attempt
/// is made, nothing is retried; and a status outside `retry_on_status` is
/// never retried.
pub proof fn lemma_retry_bounded(cfg: ClientConfig, attempt: u32, outcome: AttemptOutcome)
    ensures
        attempt + 1 >= total_attempts(cfg.max_retries) ==> !should_retry(cfg, attempt, outcome),
        (outcome matches AttemptOutcome::Status(s) && !cfg.retry_on_status@.contains(s))
            ==> !should_retry(cfg, attempt, outcome),
        total_attempts(cfg.max_retries) <= cfg.max_retries + 1,
{
}

} // verus!
