//! Which failures are retried, and how long to wait before the next attempt.

use vstd::prelude::*;

use super::{DownloadError, IoFailureKind};

verus! {

/// Whether an HTTP status is worth retrying: 408, 429 or any 5xx.
pub open spec fn retryable_status(status: u16) -> bool {
    status == 408 || status == 429 || (500 <= status && status <= 599)
}

impl DownloadError {
    /// Transport failures, timeouts, retryable HTTP statuses and interrupted,
    /// timed-out or truncated I/O are retried; nothing else is.
    pub open spec fn is_retryable(&self) -> bool {
        match self {
            DownloadError::Network(_) => true,
            DownloadError::Timeout => true,
            DownloadError::Http { status, .. } => retryable_status(*status),
            DownloadError::Io { kind, .. } => *kind != IoFailureKind::Other,
            _ => false,
        }
    }

    /// Whether the failure may clear up on another attempt.
    pub fn retryable(&self) -> (r: bool)
        ensures
            r == self.is_retryable(),
    {
        match self {
            DownloadError::Network(_) | DownloadError::Timeout => true,
            DownloadError::Http { status, .. } => {
                *status == 408 || *status == 429 || (500 <= *status && *status <= 599)
            },
            DownloadError::Io { kind, .. } => match kind {
                IoFailureKind::Interrupted | IoFailureKind::TimedOut | IoFailureKind::UnexpectedEof => true,
                IoFailureKind::Other => false,
            },
            _ => false,
        }
    }

    /// The wait the server asked for, in seconds.
    pub open spec fn retry_after_spec(&self) -> Option<u64> {
        match self {
            DownloadError::Http { retry_after, .. } => *retry_after,
            _ => None,
        }
    }
}

/// The exponent of the backoff factor for an attempt: `attempt - 1`, at most 10.
pub open spec fn backoff_exponent(attempt: usize) -> nat {
    if attempt <= 1 {
        0
    } else if attempt - 1 >= 10 {
        10
    } else {
        (attempt - 1) as nat
    }
}

pub open spec fn pow2(e: nat) -> nat
    decreases e,
{
    if e == 0 {
        1
    } else {
        2 * pow2((e - 1) as nat)
    }
}

/// The wait before retrying after `attempt`, in milliseconds: the initial wait
/// doubled once per earlier attempt, at most 1024 times the initial wait, and
/// saturating at `u64::MAX`.
pub open spec fn backoff_ms(initial_ms: u64, attempt: usize) -> u64 {
    let product = initial_ms * pow2(backoff_exponent(attempt));
    if product > u64::MAX {
        u64::MAX
    } else {
        product as u64
    }
}

/// Bounded exponential backoff, in milliseconds.
pub fn backoff(initial_ms: u64, attempt: usize) -> (r: u64)
    ensures
        r == backoff_ms(initial_ms, attempt),
{
    let exponent: u32 = if attempt <= 1 {
        0
    } else if attempt - 1 >= 10 {
        10
    } else {
        (attempt - 1) as u32
    };
    let mut factor: u64 = 1;
    let mut e: u32 = 0;
    while e < exponent
        invariant
            e <= exponent <= 10,
            exponent == backoff_exponent(attempt),
            factor == pow2(e as nat),
            factor <= 1024,
        decreases exponent - e,
    {
        proof {
            lemma_pow2_bound(e as nat + 1);
        }
        factor = factor * 2;
        e += 1;
    }
    saturating_mul(initial_ms, factor)
}

/// `a * b`, or `u64::MAX` when the product does not fit.
fn saturating_mul(a: u64, b: u64) -> (r: u64)
    ensures
        r == if a * b > u64::MAX { u64::MAX as int } else { a * b },
{
    match a.checked_mul(b) {
        Some(p) => p,
        None => u64::MAX,
    }
}

proof fn lemma_pow2_bound(e: nat)
    requires
        e <= 10,
    ensures
        pow2(e) <= 1024,
        pow2(e) >= 1,
{
    lemma_pow2_monotone(e, 10);
    lemma_pow2_monotone(0, e);
    assert(pow2(10) == 1024) by {
        reveal_with_fuel(pow2, 11);
    }
}

/// What happens after a failed attempt.
#[derive(Debug, Clone, Copy, PartialEq, Eq, Structural)]
pub enum RetryDecision {
    /// Wait `delay_ms`, then make attempt `next_attempt`.
    Retry { next_attempt: usize, delay_ms: u64 },
    /// Report the error.
    GiveUp,
}

/// The wait before the next attempt, in milliseconds: what the server asked
/// for, else the backoff.
pub open spec fn retry_delay_ms(error: DownloadError, initial_ms: u64, attempt: usize) -> u64 {
    match error.retry_after_spec() {
        Some(secs) => if secs * 1000 > u64::MAX {
            u64::MAX
        } else {
            (secs * 1000) as u64
        },
        None => backoff_ms(initial_ms, attempt),
    }
}

/// What follows failed attempt `attempt` of at most `max_attempts`.
pub open spec fn retry_decision(error: DownloadError, attempt: usize, max_attempts: usize, initial_ms: u64) -> RetryDecision {
    if error.is_retryable() && attempt < max_attempts {
        RetryDecision::Retry {
            next_attempt: (attempt + 1) as usize,
            delay_ms: retry_delay_ms(error, initial_ms, attempt),
        }
    } else {
        RetryDecision::GiveUp
    }
}

/// Decides what follows failed attempt number `attempt` (counted from 1) of at
/// most `max_attempts`: a retryable error before the last attempt is retried
/// after the server's `Retry-After`, or else the backoff; anything else is
/// reported.
pub fn after_failed_attempt(
    error: &DownloadError,
    attempt: usize,
    max_attempts: usize,
    initial_backoff_ms: u64,
) -> (r: RetryDecision)
    ensures
        r == retry_decision(*error, attempt, max_attempts, initial_backoff_ms),
{
    if error.retryable() && attempt < max_attempts {
        let delay_ms = match error {
            DownloadError::Http { retry_after: Some(secs), .. } => saturating_mul(*secs, 1000),
            _ => backoff(initial_backoff_ms, attempt),
        };
        RetryDecision::Retry { next_attempt: attempt + 1, delay_ms }
    } else {
        RetryDecision::GiveUp
    }
}

/// Errors that are not retryable are never retried, and no attempt follows
/// the last one.
pub proof fn law_retries_are_bounded(error: DownloadError, attempt: usize, max_attempts: usize, initial_ms: u64)
    ensures
        retry_decision(error, attempt, max_attempts, initial_ms) matches RetryDecision::Retry {
            next_attempt,
            ..
        } ==> error.is_retryable() && attempt < next_attempt <= max_attempts,
{
}

/// Transient failures are retried while attempts remain: a transport error,
/// a timeout, an interrupted, timed-out or truncated read or write, and an
/// HTTP answer of 408, 429 or any server error (500 to 599) lead, before the
/// last attempt, to a retry with the next attempt number.
pub proof fn law_transient_failures_are_retried(
    error: DownloadError,
    attempt: usize,
    max_attempts: usize,
    initial_ms: u64,
    r: RetryDecision,
)
    requires
        r == retry_decision(error, attempt, max_attempts, initial_ms),
        attempt < max_attempts,
        match error {
            DownloadError::Network(_) => true,
            DownloadError::Timeout => true,
            DownloadError::Http { status, .. } => status == 408 || status == 429 || (500 <= status
                && status <= 599),
            DownloadError::Io { kind, .. } => kind == IoFailureKind::Interrupted || kind
                == IoFailureKind::TimedOut || kind == IoFailureKind::UnexpectedEof,
            _ => false,
        },
    ensures
        r matches RetryDecision::Retry { next_attempt, .. } && next_attempt == attempt + 1,
{
}

/// The backoff never shrinks from one attempt to the next, and never exceeds
/// 1024 times the initial wait.
pub proof fn law_backoff_monotone_and_bounded(initial_ms: u64, a: usize, b: usize)
    requires
        a <= b,
    ensures
        backoff_ms(initial_ms, a) <= backoff_ms(initial_ms, b),
        backoff_ms(initial_ms, b) <= initial_ms * 1024,
{
    lemma_pow2_monotone(backoff_exponent(a), backoff_exponent(b));
    lemma_pow2_bound(backoff_exponent(b));
    assert(initial_ms * pow2(backoff_exponent(a)) <= initial_ms * pow2(backoff_exponent(b))) by (nonlinear_arith)
        requires
            pow2(backoff_exponent(a)) <= pow2(backoff_exponent(b)),
    ;
    assert(initial_ms * pow2(backoff_exponent(b)) <= initial_ms * 1024) by (nonlinear_arith)
        requires
            pow2(backoff_exponent(b)) <= 1024,
    ;
}

proof fn lemma_pow2_monotone(a: nat, b: nat)
    requires
        a <= b,
    ensures
        pow2(a) <= pow2(b),
    decreases b,
{
    if b > a {
        lemma_pow2_monotone(a, (b - 1) as nat);
    }
}

} // verus!
