//! Progress notifications that a backend hands to its caller while a call
//! is running.

use std::sync::Arc;
use vstd::prelude::*;

verus! {

/// What a backend reports while it works on a call.
#[derive(Debug, Clone, PartialEq, Eq)]
pub enum BackendStatus {
    /// A failed attempt is about to be retried.
    RetryAttempt { attempt: usize, max_attempts: usize, delay_ms: u64, reason: String },
    /// The provider throttled the request, which is about to be retried.
    RateLimited { attempt: usize, max_attempts: usize, delay_ms: u64 },
    /// The call failed in a way that no retry can mend.
    NonRetryableError { message: String },
}

/// Mathematical model of a [`BackendStatus`].
pub enum BackendStatusView {
    RetryAttempt { attempt: usize, max_attempts: usize, delay_ms: u64, reason: Seq<char> },
    RateLimited { attempt: usize, max_attempts: usize, delay_ms: u64 },
    NonRetryableError { message: Seq<char> },
}

impl View for BackendStatus {
    type V = BackendStatusView;

    open spec fn view(&self) -> BackendStatusView {
        match *self {
            BackendStatus::RetryAttempt {
                attempt,
                max_attempts,
                delay_ms,
                reason,
            } => BackendStatusView::RetryAttempt { attempt, max_attempts, delay_ms, reason: reason@ },
            BackendStatus::RateLimited {
                attempt,
                max_attempts,
                delay_ms,
            } => BackendStatusView::RateLimited { attempt, max_attempts, delay_ms },
            BackendStatus::NonRetryableError { message } => BackendStatusView::NonRetryableError {
                message: message@,
            },
        }
    }
}

/// A place to which progress notifications are sent. The handle may be
/// shared between tasks; one call notifies it from one task at a time.
pub trait StatusSink: Send + Sync {
    /// Takes note of one notification.
    fn notify(&self, status: BackendStatus);
}

/// Shared handle on the sink of one request.
pub type StatusCallback = Arc<dyn StatusSink>;

} // verus!
