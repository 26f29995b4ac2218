//! The retry envelope: classifies errors into retriable, invalidating and
//! fatal, and drives attempts under an exponential backoff schedule.
//!
//! A server-requested throttle delay is observed exactly once and does not
//! advance the backoff schedule. Transient errors are absorbed; fatal
//! errors surface verbatim; a configured deadline ends the retrying with
//! [`Error::RetryFailed`].

use crate::backoff::{Backoff, BackoffConfig, BackoffError};
use crate::client::error::{Error, RequestError};
use crate::protocol::ProtocolError;
use vstd::prelude::*;

verus! {

/// Either a hard error or a server-requested throttle delay.
#[derive(Debug)]
pub enum ErrorOrThrottle {
    Error(Error),
    /// Delay requested by the broker, in milliseconds.
    Throttle(u64),
}

/// Checks a response's throttle time: a positive delay means the caller
/// must sleep that long before the next request.
pub fn maybe_throttle(throttle_time_ms: i32) -> (r: Result<(), ErrorOrThrottle>)
    ensures
        throttle_time_ms > 0 ==> (r matches Err(ErrorOrThrottle::Throttle(d)) && d
            == throttle_time_ms),
        throttle_time_ms <= 0 ==> r is Ok,
{
    if throttle_time_ms > 0 {
        Err(ErrorOrThrottle::Throttle(throttle_time_ms as u64))
    } else {
        Ok(())
    }
}

/// How the retry envelope treats one error.
#[derive(Clone, Copy, Debug, PartialEq, Eq, Structural)]
pub enum RetryClassification {
    /// Transient failure of the connection or of the broker placement:
    /// retry after invalidating the cached broker.
    Invalidate,
    /// Transient failure: retry without invalidating anything.
    Retriable,
    /// Everything else: surface to the caller.
    Fatal,
}

/// The fixed classification of the envelope. A poisoned or failed
/// connection, and a broker that answers it is not the controller or not
/// the partition leader, invalidate the cached broker and retry; other
/// retriable protocol errors retry as they are; everything else is fatal.
pub open spec fn classify_spec(e: Error) -> RetryClassification {
    match e {
        Error::Request(RequestError::Poisoned(_)) => RetryClassification::Invalidate,
        Error::Request(RequestError::IO(_)) => RetryClassification::Invalidate,
        Error::Connection(_) => RetryClassification::Invalidate,
        Error::ServerError { protocol_error: pe, .. } => {
            if pe == ProtocolError::NotController || pe == ProtocolError::NotLeaderForPartition {
                RetryClassification::Invalidate
            } else if pe.retriable_spec() {
                RetryClassification::Retriable
            } else {
                RetryClassification::Fatal
            }
        },
        _ => RetryClassification::Fatal,
    }
}

/// Classifies one error for the envelope.
pub fn classify(e: &Error) -> (r: RetryClassification)
    ensures
        r == classify_spec(*e),
{
    match e {
        Error::Request(RequestError::Poisoned(_)) => RetryClassification::Invalidate,
        Error::Request(RequestError::IO(_)) => RetryClassification::Invalidate,
        Error::Connection(_) => RetryClassification::Invalidate,
        Error::ServerError { protocol_error: pe, .. } => match pe {
            ProtocolError::NotController => RetryClassification::Invalidate,
            ProtocolError::NotLeaderForPartition => RetryClassification::Invalidate,
            _ => {
                if pe.is_retriable() {
                    RetryClassification::Retriable
                } else {
                    RetryClassification::Fatal
                }
            },
        },
        _ => RetryClassification::Fatal,
    }
}

/// One request driven by the retry envelope, with everything an attempt
/// needs around it: the broker cache to invalidate, a way to sleep, and a
/// jitter source for the backoff schedule. A runtime implements it around
/// a real transport and its timer; tests implement it with scripts.
/// Nothing is assumed of implementations.
pub trait RetryableRequest: Sized {
    type Output;

    /// Makes one attempt of the request.
    fn attempt(&mut self) -> Result<Self::Output, ErrorOrThrottle>;

    /// Drops the cached broker the attempts go to; must not perform I/O.
    fn invalidate_cache(&mut self, reason: &str);

    /// Sleeps for `ms` milliseconds.
    fn sleep(&mut self, ms: u64);

    /// Draws a fresh jitter value for the backoff schedule.
    fn jitter(&mut self) -> u64;
}

/// Upper bound on the attempts of one envelope run. No feasible run
/// reaches it; it exists so that the retry loop provably terminates.
pub const MAX_RETRY_ATTEMPTS: u64 = u64::MAX;

/// Drives `request` until an attempt succeeds or fails for good: a
/// returned error is fatal by [`classify_spec`] or the retry budget ran
/// out, and every transient error was absorbed by an invalidation of the
/// cached broker (connection and placement errors), a backoff sleep, or a
/// throttle sleep that leaves the backoff schedule untouched.
pub fn maybe_retry<R: RetryableRequest>(
    backoff_config: &BackoffConfig,
    request_name: &str,
    request: &mut R,
) -> (r: Result<R::Output, Error>)
    requires
        backoff_config.wf(),
    ensures
        r matches Err(e) ==> classify_spec(e) == RetryClassification::Fatal || e matches Error::RetryFailed(
            _,
        ),
{
    let _ = request_name;
    let mut backoff = Backoff::new(backoff_config);
    let mut attempts_left: u64 = MAX_RETRY_ATTEMPTS;
    loop
        invariant
            backoff.wf(),
        decreases attempts_left,
    {
        if attempts_left == 0 {
            return Err(Error::RetryFailed(BackoffError::DeadlineExceeded));
        }
        attempts_left = attempts_left - 1;
        let error = match request.attempt() {
            Ok(v) => {
                return Ok(v);
            },
            Err(ErrorOrThrottle::Throttle(delay_ms)) => {
                request.sleep(delay_ms);
                continue ;
            },
            Err(ErrorOrThrottle::Error(e)) => e,
        };
        match classify(&error) {
            RetryClassification::Invalidate => {
                let reason = match &error {
                    Error::ServerError { .. } => "stale broker placement",
                    _ => "broker connection broken",
                };
                request.invalidate_cache(reason);
            },
            RetryClassification::Retriable => {},
            RetryClassification::Fatal => {
                return Err(error);
            },
        }
        let jitter = request.jitter();
        let sleep_ms = backoff.next_sleep(jitter);
        if backoff.deadline_exceeded() {
            return Err(Error::RetryFailed(BackoffError::DeadlineExceeded));
        }
        request.sleep(sleep_ms);
    }
}

} // verus!
