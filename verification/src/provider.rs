//! What a backend answers, and the retry policy that stands between a flaky
//! backend and the lifecycle of a pod.
//!
//! A backend acquires images and mounts volumes. One attempt either succeeds,
//! asks to be retried, or fails for good. Retries are counted per operation;
//! when the count goes over [`RETRY_THRESHOLD`] the operation cools down
//! before it is tried again, and the count starts over.

use vstd::prelude::*;

verus! {

/// How many failed attempts in a row an operation may make before it has to
/// cool down: the attempt that takes the count over this number is followed
/// by a cooldown.
pub const RETRY_THRESHOLD: u8 = 3;

/// How long a backend cools down, in seconds, unless it decides otherwise.
pub const BACKOFF_SECONDS: u64 = 30;

/// What one attempt of an operation came to, short of a fatal error.
#[derive(Clone, Copy, Debug, PartialEq, Eq, Structural)]
pub enum Outcome {
    Success,
    Retryable,
}

/// A failure that no retry will mend. It ends the run of the pod.
#[derive(Debug)]
pub struct FatalError {
    pub message: String,
}

impl Clone for FatalError {
    fn clone(&self) -> (copy: FatalError)
        ensures
            copy.message@ == self.message@,
    {
        FatalError { message: self.message.clone() }
    }
}

/// What to do after an attempt that did not fail for good.
#[derive(Clone, Copy, Debug, PartialEq, Eq, Structural)]
pub enum Decision {
    /// The operation is done.
    Proceed,
    /// Try again at once; `failures` attempts have failed in a row.
    Retry { failures: u8 },
    /// Cool down, then start over with no failures counted.
    Backoff,
}

/// The retry policy: after `failures` failed attempts in a row, what follows
/// one more attempt with the given outcome.
pub open spec fn decide(failures: u8, outcome: Outcome) -> Decision {
    match outcome {
        Outcome::Success => Decision::Proceed,
        Outcome::Retryable => if failures + 1 > RETRY_THRESHOLD {
            Decision::Backoff
        } else {
            Decision::Retry { failures: (failures + 1) as u8 }
        },
    }
}

/// Applies the retry policy to the outcome of one attempt.
pub fn after_attempt(failures: u8, outcome: Outcome) -> (decision: Decision)
    ensures
        decision == decide(failures, outcome),
{
    match outcome {
        Outcome::Success => Decision::Proceed,
        Outcome::Retryable => if failures >= RETRY_THRESHOLD {
            Decision::Backoff
        } else {
            Decision::Retry { failures: failures + 1 }
        },
    }
}

} // verus!
