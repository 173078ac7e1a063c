//! Retry policy for transient network failures: bounded exponential
//! backoff with jitter, and the decision of when to stop retrying.
//!
//! Durations are whole milliseconds.  The policy is stateless: callers own
//! the attempt counter and the retry loop.

use vstd::prelude::*;
use vstd::arithmetic::power2::{
    lemma2_to64, lemma_pow2_adds, lemma_pow2_pos, lemma_pow2_strictly_increases, pow2,
};
use crate::error::{DomainResult, ExtractionError};
use crate::ids::{Id, YouTubeVideo};

verus! {

/// Report of one timed-out network operation.
#[derive(Debug, Clone)]
pub struct HandleTimeoutCommand {
    /// The video being processed.
    pub video_id: Id<YouTubeVideo>,
    /// The operation that timed out.
    pub operation: String,
    /// The timeout that elapsed, in seconds.
    pub timeout_secs: u64,
    /// How many retries were already made.
    pub retry_attempt: u8,
}

/// Event: a network operation timed out and will be retried.
#[derive(Debug, Clone)]
pub struct NetworkTimeoutOccurred {
    pub video_id: Id<YouTubeVideo>,
    pub operation: String,
    pub timeout_secs: u64,
    pub retry_attempt: u8,
    pub max_retries: u8,
}

/// Event: a download retry was scheduled.
#[derive(Debug, Clone)]
pub struct DownloadRetryInitiated {
    pub video_id: Id<YouTubeVideo>,
    /// The retry attempt number.
    pub attempt: u8,
    /// The backoff before it, in seconds.
    pub backoff_secs: u64,
}

/// Decides whether a timed-out operation is retried: it is exactly while
/// fewer attempts were made than the budget allows; once exhausted, the
/// timeout becomes terminal and carries the configured timeout duration.
pub fn handle_timeout(command: HandleTimeoutCommand, max_retries: u8) -> (r: DomainResult<
    NetworkTimeoutOccurred,
>)
    ensures
        r is Ok <==> command.retry_attempt < max_retries,
        r is Err ==> r->Err_0 == ExtractionError::NetworkTimeout(command.timeout_secs),
        r is Ok ==> ({
            let e = r->Ok_0;
            &&& e.video_id == command.video_id
            &&& e.operation == command.operation
            &&& e.timeout_secs == command.timeout_secs
            &&& e.retry_attempt == command.retry_attempt
            &&& e.max_retries == max_retries
        }),
{
    if command.retry_attempt >= max_retries {
        return Err(ExtractionError::NetworkTimeout(command.timeout_secs));
    }
    Ok(
        NetworkTimeoutOccurred {
            video_id: command.video_id,
            operation: command.operation,
            timeout_secs: command.timeout_secs,
            retry_attempt: command.retry_attempt,
            max_retries,
        },
    )
}

/// The deterministic part of the backoff: the initial delay doubled per
/// attempt, capped at the maximum.
pub open spec fn spec_capped_delay(attempt: u8, initial_ms: u64, max_ms: u64) -> int {
    let raw = initial_ms * pow2(attempt as nat);
    if raw > max_ms {
        max_ms as int
    } else {
        raw as int
    }
}

/// Relies on `rand::random` for a uniformly drawn machine word; nothing is
/// assumed about the value drawn.
#[verifier::external_body]
fn random_u64() -> u64 {
    rand::random::<u64>()
}

/// Backoff before the given retry attempt, in milliseconds: the initial
/// delay doubled per attempt and capped at the maximum, plus a jitter of at
/// most a tenth of that delay, so the result lies in `[delay, 1.1 * delay]`.
pub fn calculate_backoff(attempt: u8, initial_ms: u64, max_ms: u64) -> (r: u64)
    ensures
        spec_capped_delay(attempt, initial_ms, max_ms) <= r <= spec_capped_delay(
            attempt,
            initial_ms,
            max_ms,
        ) + spec_capped_delay(attempt, initial_ms, max_ms) / 10,
{
    let ghost target = initial_ms * pow2(attempt as nat);
    let mut raw: u128 = initial_ms as u128;
    let mut a: u8 = 0;
    proof {
        lemma_pow2_pos(0);
        lemma2_to64();
    }
    while a < attempt && raw <= max_ms as u128
        invariant
            a <= attempt,
            raw == initial_ms * pow2(a as nat),
            raw <= 2 * (max_ms as u128) || a == 0,
        decreases attempt - a,
    {
        proof {
            lemma_pow2_adds(a as nat, 1);
            lemma2_to64();
            assert(initial_ms * pow2((a + 1) as nat) == (initial_ms * pow2(a as nat)) * 2)
                by (nonlinear_arith)
                requires
                    pow2((a + 1) as nat) == pow2(a as nat) * 2,
            ;
        }
        raw = raw * 2;
        a = a + 1;
    }
    let delay: u64 = if a < attempt {
        // The doubling already passed the cap, and further doublings only
        // grow it.
        proof {
            lemma_pow2_adds(a as nat, (attempt - a) as nat);
            lemma_pow2_pos((attempt - a) as nat);
            assert(target == raw * pow2((attempt - a) as nat)) by (nonlinear_arith)
                requires
                    target == initial_ms * pow2(attempt as nat),
                    raw == initial_ms * pow2(a as nat),
                    pow2(attempt as nat) == pow2(a as nat) * pow2((attempt - a) as nat),
            ;
            assert(target >= raw) by (nonlinear_arith)
                requires
                    target == raw * pow2((attempt - a) as nat),
                    pow2((attempt - a) as nat) >= 1,
                    raw >= 0,
            ;
        }
        max_ms
    } else {
        if raw > max_ms as u128 {
            max_ms
        } else {
            raw as u64
        }
    };
    let max_jitter: u64 = delay / 10;
    let jitter: u64 = random_u64() % (max_jitter + 1);
    if jitter <= u64::MAX - delay {
        delay + jitter
    } else {
        u64::MAX
    }
}

/// Builds the event for a scheduled download retry.
pub fn create_retry_event(video_id: Id<YouTubeVideo>, attempt: u8, backoff_secs: u64) -> (r:
    DownloadRetryInitiated)
    ensures
        r == (DownloadRetryInitiated { video_id, attempt, backoff_secs }),
{
    DownloadRetryInitiated { video_id, attempt, backoff_secs }
}

} // verus!
