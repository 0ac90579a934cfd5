//! Circuit breaker: opens after repeated failures, lets a trial through once
//! the open period has passed, and closes again after enough successes.

use crate::clock::{duration_as_nanos, duration_from_secs, duration_nanos, instant_elapsed, instant_now};
use std::time::Duration;
use std::time::Instant;
use vstd::prelude::*;

verus! {

#[derive(Debug, Clone, Copy, PartialEq, Eq, Structural)]
pub enum CircuitState {
    Closed,
    Open,
    HalfOpen,
}

/// The abstract state of a breaker.
pub struct BreakerView {
    pub state: CircuitState,
    pub failures: u32,
    pub successes: u32,
    pub failure_threshold: u32,
    pub success_threshold: u32,
    pub open_nanos: nat,
    /// Whether the breaker has recorded the moment it last opened.
    pub opened: bool,
}

/// The counter after one more event, wrapping at `u32::MAX` like the
/// atomic counters the breaker is built on.
pub open spec fn bump(count: u32) -> u32 {
    if count == u32::MAX { 0 } else { (count + 1) as u32 }
}

/// The state as read at a moment: an open breaker whose open period has
/// passed (`period_over`) reads as half-open.
pub open spec fn spec_refresh(v: BreakerView, period_over: bool) -> BreakerView {
    if v.state == CircuitState::Open && v.opened && period_over {
        BreakerView { state: CircuitState::HalfOpen, ..v }
    } else {
        v
    }
}

/// The breaker after a failure is recorded.
pub open spec fn spec_after_failure(v: BreakerView) -> BreakerView {
    let count = bump(v.failures);
    if count >= v.failure_threshold {
        BreakerView { state: CircuitState::Open, failures: count, opened: true, ..v }
    } else {
        BreakerView { failures: count, ..v }
    }
}

/// The breaker after a success is recorded.
pub open spec fn spec_after_success(v: BreakerView, period_over: bool) -> BreakerView {
    let cleared = BreakerView { failures: 0, ..v };
    let s = spec_refresh(cleared, period_over);
    if s.state == CircuitState::HalfOpen {
        let count = bump(s.successes);
        if count >= s.success_threshold {
            BreakerView { state: CircuitState::Closed, successes: 0, ..s }
        } else {
            BreakerView { successes: count, ..s }
        }
    } else {
        s
    }
}

pub struct CircuitBreaker {
    state: CircuitState,
    failure_count: u32,
    success_count: u32,
    failure_threshold: u32,
    success_threshold: u32,
    open_duration: Duration,
    last_opened_at: Option<Instant>,
}

impl View for CircuitBreaker {
    type V = BreakerView;

    closed spec fn view(&self) -> BreakerView {
        BreakerView {
            state: self.state,
            failures: self.failure_count,
            successes: self.success_count,
            failure_threshold: self.failure_threshold,
            success_threshold: self.success_threshold,
            open_nanos: duration_nanos(self.open_duration),
            opened: self.last_opened_at is Some,
        }
    }
}

/// Why an operation run through the breaker did not give a value.
#[derive(Debug)]
pub enum CircuitError<E> {
    /// The breaker was open; the operation was not run.
    Open,
    /// The operation ran and failed.
    Inner(E),
}

impl CircuitBreaker {
    /// A closed breaker that opens after 5 failures, closes after 2
    /// successes in half-open state and stays open for 30 seconds.
    pub fn new() -> (cb: Self)
        ensures
            cb@.state == CircuitState::Closed,
            cb@.failures == 0,
            cb@.successes == 0,
            cb@.failure_threshold == 5,
            cb@.success_threshold == 2,
            cb@.open_nanos == 30_000_000_000,
            !cb@.opened,
    {
        CircuitBreaker {
            state: CircuitState::Closed,
            failure_count: 0,
            success_count: 0,
            failure_threshold: 5,
            success_threshold: 2,
            open_duration: duration_from_secs(30),
            last_opened_at: None,
        }
    }

    pub fn with_failure_threshold(self, threshold: u32) -> (cb: Self)
        ensures
            cb@ == (BreakerView { failure_threshold: threshold, ..self@ }),
    {
        CircuitBreaker { failure_threshold: threshold, ..self }
    }

    pub fn with_success_threshold(self, threshold: u32) -> (cb: Self)
        ensures
            cb@ == (BreakerView { success_threshold: threshold, ..self@ }),
    {
        CircuitBreaker { success_threshold: threshold, ..self }
    }

    pub fn with_open_duration(self, duration: Duration) -> (cb: Self)
        ensures
            cb@ == (BreakerView { open_nanos: duration_nanos(duration), ..self@ }),
    {
        CircuitBreaker { open_duration: duration, ..self }
    }

    /// The state given the time that has passed since the breaker last
    /// opened: an open breaker becomes half-open once `since_opened`
    /// reaches the open duration.
    pub fn state_after(&mut self, since_opened: &Duration) -> (s: CircuitState)
        ensures
            final(self)@ == spec_refresh(old(self)@, duration_nanos(*since_opened) >= old(self)@.open_nanos),
            s == final(self)@.state,
    {
        if self.state == CircuitState::Open && self.last_opened_at.is_some() {
            let elapsed = duration_as_nanos(since_opened);
            let limit = duration_as_nanos(&self.open_duration);
            if elapsed >= limit {
                self.state = CircuitState::HalfOpen;
            }
        }
        self.state
    }

    /// The current state, read against the monotonic clock.
    pub fn state(&mut self) -> (s: CircuitState)
        ensures
            final(self)@ == spec_refresh(old(self)@, true) || final(self)@ == spec_refresh(old(self)@, false),
            old(self)@.open_nanos == 0 ==> final(self)@ == spec_refresh(old(self)@, true),
            s == final(self)@.state,
    {
        match &self.last_opened_at {
            Some(opened_at) => {
                let since = instant_elapsed(opened_at);
                self.state_after(&since)
            },
            None => self.state,
        }
    }

    /// Whether calls may go through: the breaker is not open.
    pub fn is_available(&mut self) -> (b: bool)
        ensures
            final(self)@ == spec_refresh(old(self)@, true) || final(self)@ == spec_refresh(old(self)@, false),
            old(self)@.open_nanos == 0 ==> final(self)@ == spec_refresh(old(self)@, true),
            b == (final(self)@.state != CircuitState::Open),
    {
        self.state() != CircuitState::Open
    }

    /// Lets a call through, or refuses it with `CircuitError::Open` while
    /// the breaker is open.
    pub fn let_through<E>(&mut self) -> (r: Result<(), CircuitError<E>>)
        ensures
            final(self)@ == spec_refresh(old(self)@, true) || final(self)@ == spec_refresh(old(self)@, false),
            old(self)@.open_nanos == 0 ==> final(self)@ == spec_refresh(old(self)@, true),
            r is Ok == (final(self)@.state != CircuitState::Open),
            r is Err ==> (r matches Err(CircuitError::Open)),
    {
        if self.is_available() {
            Ok(())
        } else {
            Err(CircuitError::Open)
        }
    }

    /// Records a success given the time passed since the breaker last opened.
    pub fn record_success_after(&mut self, since_opened: &Duration)
        ensures
            final(self)@ == spec_after_success(old(self)@, duration_nanos(*since_opened) >= old(self)@.open_nanos),
            final(self)@.failures == 0,
    {
        self.failure_count = 0;
        if self.state_after(since_opened) == CircuitState::HalfOpen {
            let count = if self.success_count == u32::MAX { 0 } else { self.success_count + 1 };
            if count >= self.success_threshold {
                self.state = CircuitState::Closed;
                self.success_count = 0;
            } else {
                self.success_count = count;
            }
        }
    }

    /// Records a successful call: clears the failure count and, in
    /// half-open state, counts towards closing the breaker.
    pub fn record_success(&mut self)
        ensures
            final(self)@ == spec_after_success(old(self)@, true) || final(self)@ == spec_after_success(old(self)@, false),
            old(self)@.open_nanos == 0 ==> final(self)@ == spec_after_success(old(self)@, true),
            final(self)@.failures == 0,
    {
        let since = match &self.last_opened_at {
            Some(opened_at) => instant_elapsed(opened_at),
            None => duration_from_secs(0),
        };
        self.record_success_after(&since);
    }

    /// Records a failed call: counts it and opens the breaker once the count
    /// reaches the failure threshold.
    pub fn record_failure(&mut self)
        ensures
            final(self)@ == spec_after_failure(old(self)@),
    {
        let count = if self.failure_count == u32::MAX { 0 } else { self.failure_count + 1 };
        self.failure_count = count;
        if count >= self.failure_threshold {
            self.state = CircuitState::Open;
            self.last_opened_at = Some(instant_now());
        }
    }

    /// Settles the outcome of an operation that ran through the breaker:
    /// records it and passes the value or the wrapped error on.
    pub fn settle<T, E>(&mut self, outcome: Result<T, E>) -> (r: Result<T, CircuitError<E>>)
        ensures
            outcome is Ok ==> (r == Ok::<T, CircuitError<E>>(outcome->Ok_0)) && (final(self)@ == spec_after_success(old(self)@, true)
                || final(self)@ == spec_after_success(old(self)@, false)),
            outcome is Ok && old(self)@.open_nanos == 0 ==> final(self)@ == spec_after_success(old(self)@, true),
            outcome is Err ==> (r == Err::<T, CircuitError<E>>(CircuitError::Inner(outcome->Err_0)))
                && final(self)@ == spec_after_failure(old(self)@),
    {
        match outcome {
            Ok(v) => {
                self.record_success();
                Ok(v)
            },
            Err(e) => {
                self.record_failure();
                Err(CircuitError::Inner(e))
            },
        }
    }
}

impl Default for CircuitBreaker {
    fn default() -> (cb: Self)
        ensures
            cb@.state == CircuitState::Closed,
            cb@.failures == 0,
            cb@.successes == 0,
            cb@.failure_threshold == 5,
            cb@.success_threshold == 2,
            cb@.open_nanos == 30_000_000_000,
            !cb@.opened,
    {
        Self::new()
    }
}

/// The breaker after `n` failures in a row.
pub open spec fn failures_applied(v: BreakerView, n: nat) -> BreakerView
    decreases n,
{
    if n == 0 { v } else { spec_after_failure(failures_applied(v, (n - 1) as nat)) }
}

/// The breaker after `n` successes in a row, each read at a moment given by
/// `period_over`.
pub open spec fn successes_applied(v: BreakerView, n: nat, period_over: spec_fn(nat) -> bool) -> BreakerView
    decreases n,
{
    if n == 0 { v } else {
        spec_after_success(successes_applied(v, (n - 1) as nat, period_over), period_over((n - 1) as nat))
    }
}

proof fn lemma_failures_count(v: BreakerView, n: nat)
    requires
        v.failures + n <= u32::MAX,
    ensures
        failures_applied(v, n).failures == v.failures + n,
        failures_applied(v, n).failure_threshold == v.failure_threshold,
        v.failure_threshold <= v.failures + n && n > 0 ==> failures_applied(v, n).state == CircuitState::Open
            && failures_applied(v, n).opened,
    decreases n,
{
    if n > 0 {
        lemma_failures_count(v, (n - 1) as nat);
    }
}

/// Law: a breaker that has seen as many failures in a row as its failure
/// threshold is open, and so refuses calls, until its open period is over.
pub proof fn law_failures_open_breaker(v: BreakerView, n: nat)
    requires
        n > 0,
        v.failures + n <= u32::MAX,
        v.failure_threshold <= v.failures + n,
    ensures
        failures_applied(v, n).state == CircuitState::Open,
        spec_refresh(failures_applied(v, n), false).state == CircuitState::Open,
{
    lemma_failures_count(v, n);
}

/// Law: every recorded success clears the failure count, so failures only
/// open the breaker when they come in a row.
pub proof fn law_success_clears_failures(v: BreakerView, period_over: bool)
    ensures
        spec_after_success(v, period_over).failures == 0,
{
}

/// Law: a closed breaker stays closed while calls succeed.
pub proof fn law_closed_stays_closed(v: BreakerView, period_over: bool)
    requires
        v.state == CircuitState::Closed,
    ensures
        spec_after_success(v, period_over).state == CircuitState::Closed,
{
}

/// Law: an open breaker whose open period has passed reads as half-open;
/// before that it reads as open.
pub proof fn law_open_period(v: BreakerView)
    requires
        v.state == CircuitState::Open,
        v.opened,
    ensures
        spec_refresh(v, true).state == CircuitState::HalfOpen,
        spec_refresh(v, false).state == CircuitState::Open,
{
}

proof fn lemma_half_open_successes(v: BreakerView, n: nat, period_over: spec_fn(nat) -> bool)
    requires
        v.state == CircuitState::HalfOpen,
        v.successes == 0,
        n < v.success_threshold,
    ensures
        successes_applied(v, n, period_over).state == CircuitState::HalfOpen,
        successes_applied(v, n, period_over).successes == n,
        successes_applied(v, n, period_over).success_threshold == v.success_threshold,
    decreases n,
{
    if n > 0 {
        lemma_half_open_successes(v, (n - 1) as nat, period_over);
    }
}

/// Law: a half-open breaker closes after as many successes in a row as its
/// success threshold, whenever they come, and its success count starts over.
pub proof fn law_half_open_closes(v: BreakerView, period_over: spec_fn(nat) -> bool)
    requires
        v.state == CircuitState::HalfOpen,
        v.successes == 0,
        v.success_threshold >= 1,
    ensures
        successes_applied(v, v.success_threshold as nat, period_over).state == CircuitState::Closed,
        successes_applied(v, v.success_threshold as nat, period_over).successes == 0,
{
    lemma_half_open_successes(v, (v.success_threshold - 1) as nat, period_over);
}

} // verus!
