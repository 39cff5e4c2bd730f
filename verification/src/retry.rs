//! The retry cycle of one call: the state machine that decides after every
//! attempt whether the call is over, and what its driver does next.

use crate::backoff::RetryConfig;
use crate::error::{BackendError, BackendErrorView};
use crate::status::{BackendStatus, BackendStatusView};
use crate::time::{duration_nanos, millis_saturating, whole_millis};
use std::time::Duration;
use vstd::prelude::*;

verus! {

/// Where one call stands in its retry cycle. Every state carries the number
/// of retries spent so far.
#[derive(Clone, Copy, Debug, PartialEq, Eq, Structural)]
pub enum RetryState {
    /// A request is in flight.
    Attempting { retries: usize },
    /// A retry has been granted, and counted, and its delay is running.
    RetryScheduled { retries: usize },
    /// The call is over: an attempt completed without error.
    Succeeded { retries: usize },
    /// The call is over: the last error goes to the caller.
    Failed { retries: usize },
}

/// What happened to a call since its last transition.
#[derive(Clone, Debug, PartialEq, Eq)]
pub enum RetryEvent {
    /// The attempt in flight completed without error.
    Success,
    /// The attempt in flight failed.
    Failure { error: BackendError },
    /// The delay before the granted retry is over.
    DelayElapsed,
}

/// What the driver of a call does on a transition.
#[derive(Debug, PartialEq, Eq)]
pub enum RetryAction {
    /// Hand the response to the caller.
    Deliver,
    /// Issue `status`, if there is one, then wait for `delay`.
    Wait { delay: Duration, status: Option<BackendStatus> },
    /// Send the request again.
    Resend,
    /// Hand `error` to the caller.
    Propagate { error: BackendError },
}

/// The events of a call whose attempts fail with `errors` in turn, each
/// failure followed by the end of the delay before the next attempt.
pub open spec fn failed_rounds(errors: Seq<BackendError>) -> Seq<RetryEvent>
    decreases errors.len(),
{
    if errors.len() == 0 {
        Seq::empty()
    } else {
        failed_rounds(errors.drop_last()).push(RetryEvent::Failure { error: errors.last() }).push(
            RetryEvent::DelayElapsed,
        )
    }
}

impl RetryState {
    /// The state of a call whose first attempt is in flight.
    pub fn start() -> (state: RetryState)
        ensures
            state == (RetryState::Attempting { retries: 0 }),
    {
        RetryState::Attempting { retries: 0 }
    }

    /// Retries spent so far.
    pub open spec fn retries(self) -> usize {
        match self {
            RetryState::Attempting { retries } => retries,
            RetryState::RetryScheduled { retries } => retries,
            RetryState::Succeeded { retries } => retries,
            RetryState::Failed { retries } => retries,
        }
    }

    /// Whether the call is over.
    pub open spec fn is_terminal(self) -> bool {
        self is Succeeded || self is Failed
    }
}

impl RetryConfig {
    /// A failed attempt is retried exactly when its error is transient and
    /// fewer than `max_retries` retries have been spent.
    pub open spec fn grants_retry(&self, retries: usize, error: BackendErrorView) -> bool {
        error.is_retryable() && retries < self.max_retries
    }

    /// The state that follows `state` on `event`, where the event can
    /// happen in that state.
    pub open spec fn next_state(&self, state: RetryState, event: RetryEvent) -> Option<
        RetryState,
    > {
        match (state, event) {
            (RetryState::Attempting { retries }, RetryEvent::Success) => Some(
                RetryState::Succeeded { retries },
            ),
            (RetryState::Attempting { retries }, RetryEvent::Failure { error }) => if self.grants_retry(
                retries,
                error@,
            ) {
                Some(RetryState::RetryScheduled { retries: (retries + 1) as usize })
            } else {
                Some(RetryState::Failed { retries })
            },
            (RetryState::RetryScheduled { retries }, RetryEvent::DelayElapsed) => Some(
                RetryState::Attempting { retries },
            ),
            _ => None,
        }
    }

    /// The status issued before retry number `attempt`, which follows a
    /// failure with the transient `error`: none unless the configuration
    /// is verbose.
    pub open spec fn retry_status(&self, error: BackendErrorView, attempt: usize) -> Option<
        BackendStatusView,
    > {
        let delay_ms = whole_millis(self.wait_nanos(attempt as nat)) as u64;
        if !self.verbose {
            None
        } else if error is RateLimited {
            Some(
                BackendStatusView::RateLimited { attempt, max_attempts: self.max_retries, delay_ms },
            )
        } else {
            Some(
                BackendStatusView::RetryAttempt {
                    attempt,
                    max_attempts: self.max_retries,
                    delay_ms,
                    reason: error.text(),
                },
            )
        }
    }

    /// Whether `action` is what the driver is to do when `event` happens
    /// in `state`.
    pub open spec fn is_action_for(
        &self,
        state: RetryState,
        event: RetryEvent,
        action: RetryAction,
    ) -> bool {
        match (state, event) {
            (RetryState::Attempting { retries }, RetryEvent::Success) => action is Deliver,
            (RetryState::Attempting { retries }, RetryEvent::Failure { error }) => if self.grants_retry(
                retries,
                error@,
            ) {
                &&& action matches RetryAction::Wait { delay, status }
                &&& duration_nanos(delay) == self.wait_nanos((retries + 1) as nat)
                &&& match status {
                    Some(s) => self.retry_status(error@, (retries + 1) as usize) == Some(s@),
                    None => self.retry_status(error@, (retries + 1) as usize) is None,
                }
            } else {
                action == (RetryAction::Propagate { error })
            },
            (RetryState::RetryScheduled { retries }, RetryEvent::DelayElapsed) => action is Resend,
            _ => false,
        }
    }

    /// The status that announces retry number `attempt` after `error`.
    fn status_for(&self, error: &BackendError, attempt: usize, delay_ms: u64) -> (status:
        BackendStatus)
        ensures
            error is RateLimited ==> status@ == (BackendStatusView::RateLimited {
                attempt,
                max_attempts: self.max_retries,
                delay_ms,
            }),
            !(error is RateLimited) ==> status@ == (BackendStatusView::RetryAttempt {
                attempt,
                max_attempts: self.max_retries,
                delay_ms,
                reason: error@.text(),
            }),
    {
        match error {
            BackendError::RateLimited => BackendStatus::RateLimited {
                attempt,
                max_attempts: self.max_retries,
                delay_ms,
            },
            _ => BackendStatus::RetryAttempt {
                attempt,
                max_attempts: self.max_retries,
                delay_ms,
                reason: error.to_string(),
            },
        }
    }

    /// One transition of the retry cycle: the state that follows `state` on
    /// `event`, and what the driver is to do next. An attempt that
    /// succeeds ends the call. One that fails is retried after a delay
    /// where its error is transient and retries are left; any other failure
    /// ends the call with that error. When the delay is over the request is
    /// sent again. An event that cannot happen in `state`, as any event
    /// after the call is over, gives `None`.
    pub fn step(&self, state: RetryState, event: RetryEvent) -> (out: Option<
        (RetryState, RetryAction),
    >)
        ensures
            match out {
                Some((next, action)) => {
                    &&& self.next_state(state, event) == Some(next)
                    &&& self.is_action_for(state, event, action)
                },
                None => self.next_state(state, event) is None,
            },
    {
        match state {
            RetryState::Attempting { retries } => match event {
                RetryEvent::Success => Some(
                    (RetryState::Succeeded { retries }, RetryAction::Deliver),
                ),
                RetryEvent::Failure { error } => {
                    if error.is_retryable() && retries < self.max_retries {
                        let attempt: usize = retries + 1;
                        let delay = self.wait_for_attempt(attempt);
                        let status = if self.verbose {
                            let delay_ms = millis_saturating(delay.as_nanos());
                            Some(self.status_for(&error, attempt, delay_ms))
                        } else {
                            None
                        };
                        Some(
                            (
                                RetryState::RetryScheduled { retries: attempt },
                                RetryAction::Wait { delay, status },
                            ),
                        )
                    } else {
                        Some((RetryState::Failed { retries }, RetryAction::Propagate { error }))
                    }
                },
                RetryEvent::DelayElapsed => None,
            },
            RetryState::RetryScheduled { retries } => match event {
                RetryEvent::DelayElapsed => Some(
                    (RetryState::Attempting { retries }, RetryAction::Resend),
                ),
                _ => None,
            },
            _ => None,
        }
    }

    /// Once a call has succeeded or failed, nothing more happens to it.
    pub proof fn lemma_terminal_states_are_final(&self, state: RetryState, event: RetryEvent)
        requires
            state.is_terminal(),
        ensures
            self.next_state(state, event) is None,
    {
    }

    /// No transition takes back a retry, and none spends more retries than
    /// the configuration allows.
    pub proof fn lemma_retries_are_bounded(&self, state: RetryState, event: RetryEvent)
        requires
            state.retries() <= self.max_retries,
            self.next_state(state, event) is Some,
        ensures
            state.retries() <= self.next_state(state, event).unwrap().retries() <= self.max_retries,
    {
    }

    /// A retry is counted exactly when the driver is told to wait, and a
    /// status goes with the wait exactly when the configuration is verbose:
    /// so a verbose call issues one status for each retry it spends, and a
    /// quiet one none.
    pub proof fn lemma_each_retry_is_counted(
        &self,
        state: RetryState,
        event: RetryEvent,
        next: RetryState,
        action: RetryAction,
    )
        requires
            self.next_state(state, event) == Some(next),
            self.is_action_for(state, event, action),
        ensures
            action is Wait ==> next.retries() == state.retries() + 1,
            !(action is Wait) ==> next.retries() == state.retries(),
            action matches RetryAction::Wait { status, .. } ==> (status is Some <==> self.verbose),
    {
    }

    /// The state in which a call stands after `events` have happened to it
    /// in turn, from `state` on, where each of them can happen when its
    /// turn comes.
    pub open spec fn run(&self, state: RetryState, events: Seq<RetryEvent>) -> Option<RetryState>
        decreases events.len(),
    {
        if events.len() == 0 {
            Some(state)
        } else {
            match self.run(state, events.drop_last()) {
                Some(reached) => self.next_state(reached, events.last()),
                None => None,
            }
        }
    }

    /// After one more event the call stands where that event takes it from
    /// where it stood.
    pub proof fn lemma_run_push(&self, state: RetryState, events: Seq<RetryEvent>, event: RetryEvent)
        ensures
            self.run(state, events.push(event)) == match self.run(state, events) {
                Some(reached) => self.next_state(reached, event),
                None => None,
            },
    {
        assert(events.push(event).drop_last() =~= events);
    }

    /// A call whose attempts fail with transient errors, no more of them
    /// than retries are allowed, has spent one retry for each failure and
    /// has its next attempt in flight.
    pub proof fn lemma_transient_failures_are_retried(&self, errors: Seq<BackendError>)
        requires
            errors.len() <= self.max_retries,
            forall|i: int| 0 <= i < errors.len() ==> (#[trigger] errors[i])@.is_retryable(),
        ensures
            self.run(RetryState::Attempting { retries: 0 }, failed_rounds(errors)) == Some(
                RetryState::Attempting { retries: errors.len() as usize },
            ),
        decreases errors.len(),
    {
        if errors.len() > 0 {
            let start = RetryState::Attempting { retries: 0 };
            let earlier = errors.drop_last();
            let failure = RetryEvent::Failure { error: errors.last() };
            self.lemma_transient_failures_are_retried(earlier);
            self.lemma_run_push(start, failed_rounds(earlier), failure);
            self.lemma_run_push(
                start,
                failed_rounds(earlier).push(failure),
                RetryEvent::DelayElapsed,
            );
            assert(errors.last()@.is_retryable());
        }
    }

    /// Transient failures, no more of them than retries are allowed, and
    /// then an attempt that succeeds: the call succeeds, and has spent one
    /// retry for each failure.
    pub proof fn lemma_success_after_transient_failures(&self, errors: Seq<BackendError>)
        requires
            errors.len() <= self.max_retries,
            forall|i: int| 0 <= i < errors.len() ==> (#[trigger] errors[i])@.is_retryable(),
        ensures
            self.run(
                RetryState::Attempting { retries: 0 },
                failed_rounds(errors).push(RetryEvent::Success),
            ) == Some(RetryState::Succeeded { retries: errors.len() as usize }),
    {
        self.lemma_transient_failures_are_retried(errors);
        self.lemma_run_push(
            RetryState::Attempting { retries: 0 },
            failed_rounds(errors),
            RetryEvent::Success,
        );
    }

    /// Transient failures, fewer of them than retries are allowed or as
    /// many, and then a failure that ends the call, because it is permanent
    /// or because no retry is left: the call fails, and has spent one retry
    /// for each of the earlier failures.
    pub proof fn lemma_failure_after_transient_failures(
        &self,
        errors: Seq<BackendError>,
        last: BackendError,
    )
        requires
            errors.len() <= self.max_retries,
            forall|i: int| 0 <= i < errors.len() ==> (#[trigger] errors[i])@.is_retryable(),
            !last@.is_retryable() || errors.len() == self.max_retries,
        ensures
            self.run(
                RetryState::Attempting { retries: 0 },
                failed_rounds(errors).push(RetryEvent::Failure { error: last }),
            ) == Some(RetryState::Failed { retries: errors.len() as usize }),
    {
        self.lemma_transient_failures_are_retried(errors);
        self.lemma_run_push(
            RetryState::Attempting { retries: 0 },
            failed_rounds(errors),
            RetryEvent::Failure { error: last },
        );
    }

    /// An error that is not transient ends the call at once, whatever
    /// retries are left, and spends none.
    pub proof fn lemma_permanent_error_fails_at_once(&self, retries: usize, error: BackendError)
        requires
            !error@.is_retryable(),
        ensures
            self.next_state(RetryState::Attempting { retries }, RetryEvent::Failure { error })
                == Some(RetryState::Failed { retries }),
    {
    }
}

} // verus!
