//! The failures a backend can report, and which of them are worth retrying.

use vstd::prelude::*;

verus! {

/// Why a backend operation failed.
#[derive(Debug, Clone, PartialEq, Eq)]
pub enum BackendError {
    /// The requested model is not one the backend offers.
    UnsupportedModel { model: String },
    /// The provider is throttling requests.
    RateLimited,
    /// The request was malformed.
    ValidationError { message: String },
    /// The provider rejected the credentials.
    AuthenticationError,
    /// The provider could not be reached.
    NetworkError { message: String },
    /// The provider answered with a failure of its own.
    ProviderError { message: String },
    /// The backend itself went wrong.
    InternalError { message: String },
}

/// Outcome of a backend operation.
pub type BackendResult<T> = Result<T, BackendError>;

/// Mathematical model of a [`BackendError`]: the same variants over
/// character sequences.
pub enum BackendErrorView {
    UnsupportedModel { model: Seq<char> },
    RateLimited,
    ValidationError { message: Seq<char> },
    AuthenticationError,
    NetworkError { message: Seq<char> },
    ProviderError { message: Seq<char> },
    InternalError { message: Seq<char> },
}

impl View for BackendError {
    type V = BackendErrorView;

    open spec fn view(&self) -> BackendErrorView {
        match *self {
            BackendError::UnsupportedModel { model } => BackendErrorView::UnsupportedModel {
                model: model@,
            },
            BackendError::RateLimited => BackendErrorView::RateLimited,
            BackendError::ValidationError { message } => BackendErrorView::ValidationError {
                message: message@,
            },
            BackendError::AuthenticationError => BackendErrorView::AuthenticationError,
            BackendError::NetworkError { message } => BackendErrorView::NetworkError {
                message: message@,
            },
            BackendError::ProviderError { message } => BackendErrorView::ProviderError {
                message: message@,
            },
            BackendError::InternalError { message } => BackendErrorView::InternalError {
                message: message@,
            },
        }
    }
}

impl BackendErrorView {
    /// A failure is transient, and so worth another attempt, exactly when
    /// the provider throttled the request or could not be reached.
    pub open spec fn is_retryable(self) -> bool {
        self is RateLimited || self is NetworkError
    }

    /// The human-readable rendering of the failure.
    pub open spec fn text(self) -> Seq<char> {
        match self {
            BackendErrorView::UnsupportedModel { model } => "Model not supported: "@ + model,
            BackendErrorView::RateLimited => "Rate limited by provider"@,
            BackendErrorView::ValidationError { message } => "Request validation failed: "@
                + message,
            BackendErrorView::AuthenticationError => "Authentication failed"@,
            BackendErrorView::NetworkError { message } => "Network error: "@ + message,
            BackendErrorView::ProviderError { message } => "Provider error: "@ + message,
            BackendErrorView::InternalError { message } => "Internal error: "@ + message,
        }
    }
}

impl BackendError {
    /// Whether this error should trigger a retry.
    pub fn is_retryable(&self) -> (retry: bool)
        ensures
            retry == self@.is_retryable(),
            retry <==> (self is RateLimited || self is NetworkError),
    {
        match self {
            BackendError::RateLimited => true,
            BackendError::NetworkError { .. } => true,
            _ => false,
        }
    }

    /// Renders the error for people to read.
    pub fn to_string(&self) -> (text: String)
        ensures
            text@ == self@.text(),
    {
        match self {
            BackendError::UnsupportedModel { model } => String::from_str(
                "Model not supported: ",
            ).concat(model.as_str()),
            BackendError::RateLimited => String::from_str("Rate limited by provider"),
            BackendError::ValidationError { message } => String::from_str(
                "Request validation failed: ",
            ).concat(message.as_str()),
            BackendError::AuthenticationError => String::from_str("Authentication failed"),
            BackendError::NetworkError { message } => String::from_str("Network error: ").concat(
                message.as_str(),
            ),
            BackendError::ProviderError { message } => String::from_str(
                "Provider error: ",
            ).concat(message.as_str()),
            BackendError::InternalError { message } => String::from_str(
                "Internal error: ",
            ).concat(message.as_str()),
        }
    }
}

} // verus!
