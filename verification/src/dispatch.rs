//! The dispatcher: the course of one logical call through admission,
//! attempts, backoff and the final result.
//!
//! A [`Dispatcher`] decides and never acts. The caller starts with
//! [`Dispatcher::advance`] and carries out the [`Action`] it gets: it sleeps
//! and advances again, or performs the HTTP call and reports what came of it
//! with [`Dispatcher::complete`], until the action is [`Action::Finish`].
//! Every attempt, the first one and each retry, passes the rate limiter.
//!
//! A retried request is sent again as it is. The server may have accepted an
//! attempt whose response was lost, so a retried "send message" can be
//! delivered twice.

use crate::classify::{
    failure_outcome, header_secs, is_classification, reads_as, BodyShape, ClassifiedOutcome,
    ErrorClassifier, RawResponse, RetryReason,
};
use crate::error::{HttpFailure, WhatsAppError};
use crate::rate_limiter::{Admission, LimiterState, RateLimiter};
use crate::retry::{decision_for, DispatchAttempt, RetryConfig, RetryDecision, RetryPolicy};
use vstd::prelude::*;

verus! {

/// Where a call stands.
#[derive(Debug, Clone, Copy, PartialEq, Eq, Structural)]
pub enum Phase {
    /// The next attempt waits for its admission.
    Waiting,
    /// An attempt is under way.
    InFlight,
    /// The call is over.
    Done,
}

/// Why a call failed.
#[derive(Debug, Clone, PartialEq, Eq)]
pub enum DispatchFailure {
    /// An attempt failed for good.
    Rejected(WhatsAppError),
    /// Every attempt failed in a way that might have passed.
    RetriesExhausted { last: RetryReason },
    /// The next wait would have taken the call over its ceiling.
    TimedOut { waited_ms: u64 },
}

/// The error of a call, with what is known of its course.
#[derive(Debug, Clone, PartialEq, Eq)]
pub struct DispatchError {
    pub failure: DispatchFailure,
    /// Number of attempts that were made.
    pub attempts: u64,
    /// HTTP status of the last attempt that got a response.
    pub last_status: Option<u16>,
    /// Time since the call began, in milliseconds.
    pub elapsed_ms: u64,
}

/// What the caller is to do next.
#[derive(Debug, PartialEq, Eq)]
pub enum Action {
    /// Sleep for `ms` milliseconds, then advance.
    Wait { ms: u64 },
    /// Perform the HTTP call, then report its result.
    Perform { attempt: u32 },
    /// The call is over: hand this back.
    Finish(Result<String, DispatchError>),
    /// The step does not fit the phase of the call; nothing has changed.
    Ignore,
}

/// Mathematical model of a dispatcher.
pub struct DispatchState {
    pub retry: RetryConfig,
    /// Ceiling of the time the call may spend waiting, in milliseconds.
    pub max_total_wait_ms: Option<u64>,
    pub phase: Phase,
    /// Number of attempts made so far.
    pub attempts: nat,
    /// Sum of the waits so far, in milliseconds.
    pub waited_ms: u64,
    /// Instant at which the call began.
    pub started_at: u64,
    /// HTTP status of the last attempt that got a response.
    pub last_status: Option<u16>,
}

/// Time that has passed at `now` since `start`.
pub open spec fn elapsed_since(start: u64, now: u64) -> u64 {
    if now >= start {
        (now - start) as u64
    } else {
        0
    }
}

/// The sum of two waits, held at the largest representable one.
pub open spec fn wait_sum(a: u64, b: u64) -> u64 {
    if a + b > u64::MAX {
        u64::MAX
    } else {
        (a + b) as u64
    }
}

/// The delay that an outcome carries from the server.
pub open spec fn server_hint(outcome: ClassifiedOutcome) -> Option<u64> {
    match outcome {
        ClassifiedOutcome::Retryable { server_delay_ms, .. } => server_delay_ms,
        _ => None,
    }
}

impl DispatchState {
    /// A call that begins at `now`.
    pub open spec fn begin(retry: RetryConfig, max_total_wait_ms: Option<u64>, now: u64)
        -> DispatchState {
        DispatchState {
            retry,
            max_total_wait_ms,
            phase: Phase::Waiting,
            attempts: 0,
            waited_ms: 0,
            started_at: now,
            last_status: None,
        }
    }

    /// The attempts never outnumber the first one and the retries.
    pub open spec fn wf(self) -> bool {
        &&& self.attempts <= self.retry.max_retries + 1
        &&& self.phase == Phase::Waiting ==> self.attempts <= self.retry.max_retries
        &&& self.phase == Phase::InFlight ==> self.attempts >= 1
    }

    /// The error that ends the call at `now` with `failure`.
    pub open spec fn error_at(self, failure: DispatchFailure, now: u64) -> DispatchError {
        DispatchError {
            failure,
            attempts: self.attempts as u64,
            last_status: self.last_status,
            elapsed_ms: elapsed_since(self.started_at, now),
        }
    }

    /// The call once it is over.
    pub open spec fn done(self) -> DispatchState {
        DispatchState { phase: Phase::Done, ..self }
    }

    /// Whether a further wait of `ms` would take the call over its ceiling.
    pub open spec fn over_ceiling(self, ms: u64) -> bool {
        self.max_total_wait_ms matches Some(ceiling) && self.waited_ms + ms > ceiling
    }

    /// The call after a wait of `ms` was asked of it at `now`: it waits, or
    /// it times out where the wait would take it over its ceiling.
    pub open spec fn paused(self, ms: u64, now: u64) -> (DispatchState, Action) {
        if self.over_ceiling(ms) {
            (
                self.done(),
                Action::Finish(
                    Err(
                        self.error_at(DispatchFailure::TimedOut { waited_ms: self.waited_ms }, now),
                    ),
                ),
            )
        } else {
            (
                DispatchState {
                    phase: Phase::Waiting,
                    waited_ms: wait_sum(self.waited_ms, ms),
                    ..self
                },
                Action::Wait { ms },
            )
        }
    }

    /// The call after the limiter answered its request for admission at `now`.
    pub open spec fn advanced(self, admission: Admission, now: u64) -> (DispatchState, Action) {
        if self.phase != Phase::Waiting {
            (self, Action::Ignore)
        } else {
            match admission {
                Admission::Granted => (
                    DispatchState { phase: Phase::InFlight, attempts: self.attempts + 1, ..self },
                    Action::Perform { attempt: self.attempts as u32 },
                ),
                Admission::Delayed { wait_ms } => self.paused(wait_ms, now),
            }
        }
    }

    /// The call after the attempt under way led to `outcome` at `now`.
    pub open spec fn settled(self, status: Option<u16>, outcome: ClassifiedOutcome, now: u64) -> (
        DispatchState,
        Action,
    ) {
        if self.phase != Phase::InFlight {
            (self, Action::Ignore)
        } else {
            let seen = DispatchState { last_status: status, ..self };
            match decision_for(self.retry, (self.attempts - 1) as u32, outcome) {
                RetryDecision::Return(payload) => (seen.done(), Action::Finish(Ok(payload))),
                RetryDecision::Fail(error) => (
                    seen.done(),
                    Action::Finish(Err(seen.error_at(DispatchFailure::Rejected(error), now))),
                ),
                RetryDecision::Exhausted { reason } => (
                    seen.done(),
                    Action::Finish(
                        Err(seen.error_at(DispatchFailure::RetriesExhausted { last: reason }, now)),
                    ),
                ),
                RetryDecision::Retry { delay_ms } => seen.paused(delay_ms, now),
            }
        }
    }
}

/// The limiter after the dispatcher asked it for admission at `now`.
pub open spec fn limiter_after_advance(limiter: LimiterState, state: DispatchState, now: u64)
    -> LimiterState {
    if state.phase == Phase::Waiting {
        limiter.after_acquire(now)
    } else {
        limiter
    }
}

/// The limiter after the dispatcher settled an attempt at `now`: a delay the
/// server asked for is passed on to it.
pub open spec fn limiter_after_settle(
    limiter: LimiterState,
    state: DispatchState,
    outcome: ClassifiedOutcome,
    now: u64,
) -> LimiterState {
    match server_hint(outcome) {
        Some(delay) if state.phase == Phase::InFlight => limiter.after_throttle(now, delay),
        _ => limiter,
    }
}

/// One step of a call as the dispatcher sees it.
pub enum Step {
    /// The limiter answered a request for admission at `now`.
    Admission { admission: Admission, now: u64 },
    /// An attempt led to `outcome` at `now`.
    Outcome { status: Option<u16>, outcome: ClassifiedOutcome, now: u64 },
}

impl DispatchState {
    /// The call after one step, and the action the step leads to.
    pub open spec fn step(self, step: Step) -> (DispatchState, Action) {
        match step {
            Step::Admission { admission, now } => self.advanced(admission, now),
            Step::Outcome { status, outcome, now } => self.settled(status, outcome, now),
        }
    }

    /// The call after a course of steps.
    pub open spec fn after_steps(self, steps: Seq<Step>) -> DispatchState
        decreases steps.len(),
    {
        if steps.len() == 0 {
            self
        } else {
            self.step(steps[0]).0.after_steps(steps.drop_first())
        }
    }

    /// Number of times a course of steps has the HTTP call performed.
    pub open spec fn performed(self, steps: Seq<Step>) -> nat
        decreases steps.len(),
    {
        if steps.len() == 0 {
            0
        } else {
            let (next, action) = self.step(steps[0]);
            next.performed(steps.drop_first()) + if action is Perform {
                1nat
            } else {
                0nat
            }
        }
    }
}

/// No step breaks the bound on the attempts, and only a granted admission
/// counts one: then, and only then, the HTTP call is to be performed, with
/// the number of the attempts before it as its index.
pub proof fn lemma_step_keeps_bound(s: DispatchState, step: Step)
    requires
        s.wf(),
    ensures
        s.step(step).0.wf(),
        s.step(step).0.retry == s.retry,
        s.step(step).0.attempts <= s.retry.max_retries + 1,
        s.step(step).1 is Perform <==> s.step(step).0.attempts == s.attempts + 1,
        !(s.step(step).1 is Perform) ==> s.step(step).0.attempts == s.attempts,
        s.step(step).1 is Perform ==> s.step(step).1 == (Action::Perform {
            attempt: s.attempts as u32,
        }) && s.attempts <= s.retry.max_retries,
{
}

/// Whatever the limiter and the server answer, a call never makes more
/// attempts than the first one and `max_retries` retries: along any course
/// of steps the HTTP call is performed once for each attempt counted, and
/// the count stays within the bound.
pub proof fn lemma_attempts_bounded(s: DispatchState, steps: Seq<Step>)
    requires
        s.wf(),
    ensures
        s.after_steps(steps).wf(),
        s.after_steps(steps).retry == s.retry,
        s.after_steps(steps).attempts == s.attempts + s.performed(steps),
        s.attempts + s.performed(steps) <= s.retry.max_retries + 1,
    decreases steps.len(),
{
    if steps.len() > 0 {
        lemma_step_keeps_bound(s, steps[0]);
        lemma_attempts_bounded(s.step(steps[0]).0, steps.drop_first());
    }
}

/// With retries on throttling switched off, the first throttled attempt ends
/// the call: the error is handed back, no attempt is added, and no later
/// step has the HTTP call performed again.
pub proof fn lemma_throttle_ends_call(
    s: DispatchState,
    status: Option<u16>,
    server_delay_ms: Option<u64>,
    now: u64,
    later: Seq<Step>,
)
    requires
        s.wf(),
        s.phase == Phase::InFlight,
        !s.retry.retry_on_throttle,
    ensures
        ({
            let outcome = ClassifiedOutcome::Retryable {
                reason: RetryReason::Throttled,
                server_delay_ms,
            };
            let (next, action) = s.settled(status, outcome, now);
            &&& action matches Action::Finish(Err(error))
            &&& error.failure matches DispatchFailure::Rejected(
                WhatsAppError::RateLimitExceeded { .. },
            )
            &&& error.attempts == s.attempts
            &&& next.phase == Phase::Done
            &&& next.attempts == s.attempts
            &&& next.performed(later) == 0
            &&& next.after_steps(later) == next
        }),
{
    let outcome = ClassifiedOutcome::Retryable { reason: RetryReason::Throttled, server_delay_ms };
    lemma_done_stays_done(s.settled(status, outcome, now).0, later);
}

/// A call that is over stays as it is, and has nothing performed.
pub proof fn lemma_done_stays_done(s: DispatchState, steps: Seq<Step>)
    requires
        s.phase == Phase::Done,
    ensures
        s.after_steps(steps) == s,
        s.performed(steps) == 0,
    decreases steps.len(),
{
    if steps.len() > 0 {
        lemma_done_stays_done(s, steps.drop_first());
    }
}

/// A delay the server asked for sets the wait: where an attempt that has a
/// retry left fails with a hint of the server, the call waits exactly as long
/// as the hint says, whatever the configured delay, and the limiter grants
/// nothing before that time has passed. A call that the wait does not take
/// over its ceiling is meant, a reason for which retries are not switched
/// off, and a wait that ends before the largest representable instant.
pub proof fn lemma_server_delay_sets_the_wait(
    s: DispatchState,
    limiter: LimiterState,
    status: Option<u16>,
    reason: RetryReason,
    delay_ms: u64,
    now: u64,
    before: u64,
)
    requires
        s.wf(),
        limiter.wf(),
        s.phase == Phase::InFlight,
        s.attempts <= s.retry.max_retries,
        reason == RetryReason::Throttled ==> s.retry.retry_on_throttle,
        !s.over_ceiling(delay_ms),
        limiter.instant(now) <= before,
        before - limiter.instant(now) < delay_ms,
        limiter.instant(now) + delay_ms <= u64::MAX,
    ensures
        ({
            let outcome = ClassifiedOutcome::Retryable { reason, server_delay_ms: Some(delay_ms) };
            let (next, action) = s.settled(status, outcome, now);
            &&& action == Action::Wait { ms: delay_ms }
            &&& next.phase == Phase::Waiting
            &&& next.attempts == s.attempts
            &&& limiter_after_settle(limiter, s, outcome, now).admission_at(before)
                != Admission::Granted
        }),
{
}

/// One round of a failure that may pass: the attempt is admitted and fails.
/// While a retry is left the call waits for the delay of the policy and has
/// one attempt more behind it. The attempt after the last retry ends the call
/// as exhausted, with `max_retries + 1` attempts made. A call without a
/// ceiling is meant, and a reason for which retries are not switched off.
pub proof fn lemma_failed_round(
    s: DispatchState,
    status: Option<u16>,
    reason: RetryReason,
    server_delay_ms: Option<u64>,
    admitted_at: u64,
    failed_at: u64,
)
    requires
        s.wf(),
        s.phase == Phase::Waiting,
        s.max_total_wait_ms.is_none(),
        reason == RetryReason::Throttled ==> s.retry.retry_on_throttle,
    ensures
        ({
            let outcome = ClassifiedOutcome::Retryable { reason, server_delay_ms };
            let (flying, first) = s.advanced(Admission::Granted, admitted_at);
            let (next, second) = flying.settled(status, outcome, failed_at);
            &&& first == Action::Perform { attempt: s.attempts as u32 }
            &&& next.attempts == s.attempts + 1
            &&& s.attempts < s.retry.max_retries ==> next.phase == Phase::Waiting && second
                == (Action::Wait {
                ms: crate::retry::delay_before_retry(
                    s.retry,
                    s.attempts as u32,
                    server_delay_ms,
                ) as u64,
            })
            &&& s.attempts == s.retry.max_retries ==> next.phase == Phase::Done && second
                == Action::Finish(
                Err(
                    DispatchError {
                        failure: DispatchFailure::RetriesExhausted { last: reason },
                        attempts: (s.retry.max_retries + 1) as u64,
                        last_status: status,
                        elapsed_ms: elapsed_since(s.started_at, failed_at),
                    },
                ),
            )
        }),
{
}

/// The course of one logical call.
#[derive(Debug, Clone)]
pub struct Dispatcher {
    retry: RetryConfig,
    max_total_wait_ms: Option<u64>,
    phase: Phase,
    attempts: u64,
    waited_ms: u64,
    started_at: u64,
    last_status: Option<u16>,
}

impl View for Dispatcher {
    type V = DispatchState;

    closed spec fn view(&self) -> DispatchState {
        DispatchState {
            retry: self.retry,
            max_total_wait_ms: self.max_total_wait_ms,
            phase: self.phase,
            attempts: self.attempts as nat,
            waited_ms: self.waited_ms,
            started_at: self.started_at,
            last_status: self.last_status,
        }
    }
}

impl Dispatcher {
    /// Well-formedness: the model is well-formed.
    pub open spec fn wf(&self) -> bool {
        self@.wf()
    }

    /// A call that begins at the instant `now`. It may wait for
    /// `max_total_wait_ms` in all, or without bound where none is given.
    pub fn new(retry: RetryConfig, max_total_wait_ms: Option<u64>, now: u64) -> (dispatcher:
        Dispatcher)
        ensures
            dispatcher.wf(),
            dispatcher@ == DispatchState::begin(retry, max_total_wait_ms, now),
    {
        Dispatcher {
            retry,
            max_total_wait_ms,
            phase: Phase::Waiting,
            attempts: 0,
            waited_ms: 0,
            started_at: now,
            last_status: None,
        }
    }

    /// Where the call stands.
    pub fn phase(&self) -> (phase: Phase)
        ensures
            phase == self@.phase,
    {
        self.phase
    }

    /// Number of attempts made so far.
    pub fn attempts(&self) -> (attempts: u64)
        ensures
            attempts == self@.attempts,
    {
        self.attempts
    }

    /// Sum of the waits so far, in milliseconds.
    pub fn waited_ms(&self) -> (waited: u64)
        ensures
            waited == self@.waited_ms,
    {
        self.waited_ms
    }

    fn elapsed(&self, now: u64) -> (elapsed: u64)
        ensures
            elapsed == elapsed_since(self@.started_at, now),
    {
        if now >= self.started_at {
            now - self.started_at
        } else {
            0
        }
    }

    fn fail(&mut self, failure: DispatchFailure, now: u64) -> (action: Action)
        ensures
            final(self)@ == old(self)@.done(),
            action == Action::Finish(Err(old(self)@.error_at(failure, now))),
    {
        self.phase = Phase::Done;
        Action::Finish(
            Err(
                DispatchError {
                    failure,
                    attempts: self.attempts,
                    last_status: self.last_status,
                    elapsed_ms: self.elapsed(now),
                },
            ),
        )
    }

    fn pause(&mut self, ms: u64, now: u64) -> (action: Action)
        ensures
            (final(self)@, action) == old(self)@.paused(ms, now),
    {
        let over = match self.max_total_wait_ms {
            Some(ceiling) => ms > ceiling || self.waited_ms > ceiling - ms,
            None => false,
        };
        if over {
            self.fail(DispatchFailure::TimedOut { waited_ms: self.waited_ms }, now)
        } else {
            self.phase = Phase::Waiting;
            self.waited_ms = if ms > u64::MAX - self.waited_ms {
                u64::MAX
            } else {
                self.waited_ms + ms
            };
            Action::Wait { ms }
        }
    }

    /// Asks the limiter for the admission of the next attempt.
    ///
    /// To be called when the call begins and after every wait. If the limiter
    /// grants the admission the attempt is counted and is to be performed.
    /// Otherwise the call waits as long as the limiter says, or times out
    /// where that would take it over its ceiling. While an attempt is under
    /// way or the call is over, nothing happens and the limiter is not asked.
    pub fn advance(&mut self, limiter: &mut RateLimiter, now: u64) -> (action: Action)
        requires
            old(self).wf(),
            old(limiter).wf(),
        ensures
            final(self).wf(),
            final(limiter).wf(),
            final(limiter)@ == limiter_after_advance(old(limiter)@, old(self)@, now),
            (final(self)@, action) == old(self)@.advanced(old(limiter)@.admission_at(now), now),
    {
        match self.phase {
            Phase::Waiting => match limiter.try_acquire(now) {
                Admission::Granted => {
                    let attempt: u32 = self.attempts as u32;
                    self.phase = Phase::InFlight;
                    self.attempts = self.attempts + 1;
                    Action::Perform { attempt }
                },
                Admission::Delayed { wait_ms } => self.pause(wait_ms, now),
            },
            _ => Action::Ignore,
        }
    }

    /// Settles the attempt under way with its classified outcome.
    ///
    /// The retry policy decides: a success, a fatal error and a failure
    /// without a retry left end the call; otherwise the call waits for the
    /// delay the policy gives, or times out where that would take it over its
    /// ceiling. A delay the server asked for is passed on to the limiter.
    /// While no attempt is under way nothing happens.
    pub fn settle(
        &mut self,
        limiter: &mut RateLimiter,
        status: Option<u16>,
        outcome: ClassifiedOutcome,
        now: u64,
    ) -> (action: Action)
        requires
            old(self).wf(),
            old(limiter).wf(),
        ensures
            final(self).wf(),
            final(limiter).wf(),
            final(limiter)@ == limiter_after_settle(old(limiter)@, old(self)@, outcome, now),
            (final(self)@, action) == old(self)@.settled(status, outcome, now),
    {
        match self.phase {
            Phase::InFlight => {
                let hint: Option<u64> = match &outcome {
                    ClassifiedOutcome::Retryable { server_delay_ms, .. } => *server_delay_ms,
                    _ => None,
                };
                match hint {
                    Some(delay) => limiter.note_server_throttle(now, delay),
                    None => {},
                }
                self.last_status = status;
                let attempt = DispatchAttempt {
                    index: (self.attempts - 1) as u32,
                    elapsed_ms: self.elapsed(now),
                    outcome,
                };
                match RetryPolicy::decide(&self.retry, attempt) {
                    RetryDecision::Return(payload) => {
                        self.phase = Phase::Done;
                        Action::Finish(Ok(payload))
                    },
                    RetryDecision::Fail(error) => self.fail(DispatchFailure::Rejected(error), now),
                    RetryDecision::Exhausted { reason } => self.fail(
                        DispatchFailure::RetriesExhausted { last: reason },
                        now,
                    ),
                    RetryDecision::Retry { delay_ms } => self.pause(delay_ms, now),
                }
            },
            _ => Action::Ignore,
        }
    }

    /// Reports the result of the attempt under way as the transport handed
    /// it over: classifies it and settles the attempt.
    ///
    /// The call goes on as [`Dispatcher::settle`] says for the classification
    /// of the result.
    pub fn complete(
        &mut self,
        limiter: &mut RateLimiter,
        classifier: &ErrorClassifier,
        result: Result<RawResponse, HttpFailure>,
        now: u64,
    ) -> (action: Action)
        requires
            old(self).wf(),
            old(limiter).wf(),
        ensures
            final(self).wf(),
            final(limiter).wf(),
            exists|outcome: ClassifiedOutcome|
                {
                    &&& is_outcome_of(outcome, classifier@, result)
                    &&& final(limiter)@ == limiter_after_settle(
                        old(limiter)@,
                        old(self)@,
                        outcome,
                        now,
                    )
                    &&& (final(self)@, action) == old(self)@.settled(
                        status_of(result),
                        outcome,
                        now,
                    )
                },
    {
        let status = match &result {
            Ok(response) => Some(response.status),
            Err(failure) => failure.status,
        };
        let outcome = match result {
            Ok(response) => classifier.classify_response(response),
            Err(failure) => ErrorClassifier::classify_failure(failure),
        };
        assert(is_outcome_of(outcome, classifier@, result));
        self.settle(limiter, status, outcome, now)
    }
}

/// The HTTP status that a transport result carries.
pub open spec fn status_of(result: Result<RawResponse, HttpFailure>) -> Option<u16> {
    match result {
        Ok(response) => Some(response.status),
        Err(failure) => failure.status,
    }
}

/// Whether `outcome` is a classification of the transport result.
pub open spec fn is_outcome_of(
    outcome: ClassifiedOutcome,
    transient: Seq<u16>,
    result: Result<RawResponse, HttpFailure>,
) -> bool {
    match result {
        Ok(response) => exists|shape: BodyShape|
            reads_as(shape, response.body@) && is_classification(
                outcome,
                transient,
                response.status,
                header_secs(response.retry_after),
                response.body,
                shape,
            ),
        Err(failure) => outcome == failure_outcome(failure),
    }
}

} // verus!
