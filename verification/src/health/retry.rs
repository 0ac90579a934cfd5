//! Retrying an operation: what to do after each attempt. Attempts are
//! numbered from 1; the waiting between them is left to the caller.

use vstd::prelude::*;

verus! {

/// Classifies errors as transient (worth retrying) or permanent. Users
/// implement it for their own errors, so nothing is assumed of what it
/// answers.
pub trait IsTransient {
    /// Returns true if the error is transient and should be retried.
    fn is_transient(&self) -> bool;
}

/// Common transient errors of an agent.
#[derive(Debug)]
pub enum TransientError {
    NetworkError(String),
    TimeoutError(String),
    ConnectionRefused,
    ServiceUnavailable,
}

impl IsTransient for TransientError {
    /// Every one of these errors is transient.
    fn is_transient(&self) -> (b: bool)
        ensures
            b,
    {
        match self {
            TransientError::NetworkError(_) => true,
            TransientError::TimeoutError(_) => true,
            TransientError::ConnectionRefused => true,
            TransientError::ServiceUnavailable => true,
        }
    }
}

/// The text shown for a transient error.
pub open spec fn spec_transient_error_text(e: TransientError) -> Seq<char> {
    match e {
        TransientError::NetworkError(s) => "NetworkError: "@ + s@,
        TransientError::TimeoutError(s) => "TimeoutError: "@ + s@,
        TransientError::ConnectionRefused => "ConnectionRefused"@,
        TransientError::ServiceUnavailable => "ServiceUnavailable"@,
    }
}

impl TransientError {
    /// The text shown for the error, such as `NetworkError: reset`.
    pub fn to_string(&self) -> (s: String)
        ensures
            s@ == spec_transient_error_text(*self),
    {
        match self {
            TransientError::NetworkError(s) => String::from_str("NetworkError: ").concat(s.as_str()),
            TransientError::TimeoutError(s) => String::from_str("TimeoutError: ").concat(s.as_str()),
            TransientError::ConnectionRefused => String::from_str("ConnectionRefused"),
            TransientError::ServiceUnavailable => String::from_str("ServiceUnavailable"),
        }
    }
}

/// Why retrying gave up.
#[derive(Debug)]
pub enum RetryError<E> {
    /// Every allowed attempt failed; `last_error` is the last failure.
    Exhausted { attempts: u32, last_error: E },
    /// A failure that retrying cannot cure.
    Permanent { error: E },
}

/// What follows an attempt.
#[derive(Debug)]
pub enum RetryStep<T, E> {
    /// The attempt succeeded with this value.
    Done(T),
    /// Retrying ends with this error.
    GiveUp(RetryError<E>),
    /// Wait, then make the next attempt.
    Again,
}

/// What follows attempt number `attempt` of `max_attempts`, given its
/// outcome and whether a failure is transient. With `transient_only`, a
/// permanent error ends retrying at once.
pub open spec fn spec_retry_step<T, E>(
    attempt: u32,
    max_attempts: u32,
    transient_only: bool,
    transient: bool,
    outcome: Result<T, E>,
) -> RetryStep<T, E> {
    match outcome {
        Ok(v) => RetryStep::Done(v),
        Err(e) => if transient_only && !transient {
            RetryStep::GiveUp(RetryError::Permanent { error: e })
        } else if attempt >= max_attempts {
            RetryStep::GiveUp(RetryError::Exhausted { attempts: attempt, last_error: e })
        } else {
            RetryStep::Again
        },
    }
}

/// Decides what follows attempt number `attempt` of `max_attempts`, where
/// `transient` tells whether a failure is transient: a success ends the
/// retrying with its value; a failure is retried while attempts remain,
/// unless `transient_only` is set and the failure is not transient.
pub fn retry_decision<T, E>(
    attempt: u32,
    max_attempts: u32,
    transient_only: bool,
    transient: bool,
    outcome: Result<T, E>,
) -> (s: RetryStep<T, E>)
    requires
        1 <= attempt <= max_attempts,
    ensures
        s == spec_retry_step(attempt, max_attempts, transient_only, transient, outcome),
{
    match outcome {
        Ok(v) => RetryStep::Done(v),
        Err(e) => {
            if transient_only && !transient {
                RetryStep::GiveUp(RetryError::Permanent { error: e })
            } else if attempt == max_attempts {
                RetryStep::GiveUp(RetryError::Exhausted { attempts: attempt, last_error: e })
            } else {
                RetryStep::Again
            }
        },
    }
}

/// What follows an attempt, the error classified by its `is_transient`.
/// What that method answers is the implementer's; without
/// `transient_only` it plays no part.
pub fn retry_step<T, E: IsTransient>(
    attempt: u32,
    max_attempts: u32,
    transient_only: bool,
    outcome: Result<T, E>,
) -> (s: RetryStep<T, E>)
    requires
        1 <= attempt <= max_attempts,
    ensures
        exists|transient: bool| s == #[trigger] spec_retry_step(attempt, max_attempts, transient_only, transient, outcome),
        !transient_only ==> s == spec_retry_step(attempt, max_attempts, transient_only, true, outcome),
{
    let transient = match &outcome {
        Ok(_) => true,
        Err(e) => e.is_transient(),
    };
    retry_decision(attempt, max_attempts, transient_only, transient, outcome)
}

/// How many attempts are made, from attempt number `attempt` on, when they
/// fail in turn with `errors` (the transient flag of each failure) and each
/// failure is followed by the step `retry_step` decides.
pub open spec fn spec_attempts_made(
    attempt: u32,
    max_attempts: u32,
    transient_only: bool,
    errors: Seq<bool>,
) -> nat
    decreases errors.len(),
{
    if errors.len() == 0 {
        0
    } else if (transient_only && !errors[0]) || attempt >= max_attempts {
        1
    } else {
        1 + spec_attempts_made((attempt + 1) as u32, max_attempts, transient_only, errors.drop_first())
    }
}

/// However the attempts fail, retrying that starts at attempt 1 makes at
/// most `max_attempts` attempts: each `Again` leaves room for one more, and
/// the attempt numbered `max_attempts` always ends it.
pub proof fn law_attempts_bounded(max_attempts: u32, transient_only: bool, errors: Seq<bool>)
    requires
        1 <= max_attempts,
    ensures
        spec_attempts_made(1, max_attempts, transient_only, errors) <= max_attempts,
{
    lemma_attempts_from(1, max_attempts, transient_only, errors);
}

proof fn lemma_attempts_from(attempt: u32, max_attempts: u32, transient_only: bool, errors: Seq<bool>)
    requires
        1 <= attempt <= max_attempts,
    ensures
        spec_attempts_made(attempt, max_attempts, transient_only, errors) <= max_attempts - attempt + 1,
    decreases errors.len(),
{
    if errors.len() > 0 && !((transient_only && !errors[0]) || attempt >= max_attempts) {
        lemma_attempts_from((attempt + 1) as u32, max_attempts, transient_only, errors.drop_first());
    }
}

/// An attempt that is retried failed, was not the last allowed one, and
/// its error was transient where only transient errors are retried.
pub proof fn law_retry_only_when_allowed<T, E>(
    attempt: u32,
    max_attempts: u32,
    transient_only: bool,
    transient: bool,
    outcome: Result<T, E>,
)
    requires
        1 <= attempt <= max_attempts,
    ensures
        spec_retry_step(attempt, max_attempts, transient_only, transient, outcome) is Again ==> {
            &&& attempt < max_attempts
            &&& outcome is Err
            &&& (transient_only ==> transient)
        },
{
}

/// Law: what follows each attempt, for every attempt number and outcome.
/// A success ends with its value. A failure that may be retried (any
/// failure, or only a transient one with `transient_only`) is retried while
/// the attempt is not the last allowed one, and the last allowed attempt
/// gives up as exhausted after exactly `max_attempts` attempts, carrying the
/// failure. A permanent failure with `transient_only` gives up at once.
pub proof fn law_retry_step_outcomes<T, E>(
    attempt: u32,
    max_attempts: u32,
    transient_only: bool,
    transient: bool,
    outcome: Result<T, E>,
)
    requires
        1 <= attempt <= max_attempts,
    ensures
        outcome matches Ok(v) ==> spec_retry_step(attempt, max_attempts, transient_only, transient, outcome) == RetryStep::<T, E>::Done(v),
        outcome is Err && (transient_only ==> transient) && attempt < max_attempts
            ==> spec_retry_step(attempt, max_attempts, transient_only, transient, outcome) is Again,
        outcome is Err && (transient_only ==> transient) && attempt == max_attempts
            ==> spec_retry_step(attempt, max_attempts, transient_only, transient, outcome) == RetryStep::<T, E>::GiveUp(
                RetryError::Exhausted { attempts: max_attempts, last_error: outcome->Err_0 },
            ),
        outcome is Err && transient_only && !transient
            ==> spec_retry_step(attempt, max_attempts, transient_only, transient, outcome) == RetryStep::<T, E>::GiveUp(
                RetryError::Permanent { error: outcome->Err_0 },
            ),
        spec_retry_step(attempt, max_attempts, transient_only, transient, outcome) matches RetryStep::GiveUp(
            RetryError::Exhausted { attempts, .. },
        ) ==> attempts == max_attempts && attempt == max_attempts,
{
}

/// Law: when every attempt fails with a failure that may be retried,
/// retrying from attempt 1 makes exactly `max_attempts` attempts, or fewer
/// only when fewer failures are given.
pub proof fn law_retryable_failures_use_every_attempt(max_attempts: u32, transient_only: bool, errors: Seq<bool>)
    requires
        1 <= max_attempts,
        transient_only ==> forall|i: int| 0 <= i < errors.len() ==> errors[i],
    ensures
        spec_attempts_made(1, max_attempts, transient_only, errors) == if errors.len() < max_attempts {
            errors.len()
        } else {
            max_attempts as nat
        },
{
    lemma_retryable_from(1, max_attempts, transient_only, errors);
}

proof fn lemma_retryable_from(attempt: u32, max_attempts: u32, transient_only: bool, errors: Seq<bool>)
    requires
        1 <= attempt <= max_attempts,
        transient_only ==> forall|i: int| 0 <= i < errors.len() ==> errors[i],
    ensures
        spec_attempts_made(attempt, max_attempts, transient_only, errors) == if errors.len() < max_attempts - attempt + 1 {
            errors.len()
        } else {
            (max_attempts - attempt + 1) as nat
        },
    decreases errors.len(),
{
    if errors.len() > 0 && attempt < max_attempts {
        let rest = errors.drop_first();
        assert(transient_only ==> forall|i: int| 0 <= i < rest.len() ==> rest[i]) by {
            assert forall|i: int| 0 <= i < rest.len() implies transient_only ==> rest[i] by {
                assert(rest[i] == errors[i + 1]);
            }
        }
        lemma_retryable_from((attempt + 1) as u32, max_attempts, transient_only, rest);
    }
}

} // verus!
