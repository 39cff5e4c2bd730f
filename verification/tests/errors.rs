use llm_backend::BackendError;

fn all_errors() -> Vec<BackendError> {
    vec![
        BackendError::UnsupportedModel { model: "m".to_string() },
        BackendError::RateLimited,
        BackendError::ValidationError { message: "v".to_string() },
        BackendError::AuthenticationError,
        BackendError::NetworkError { message: "n".to_string() },
        BackendError::ProviderError { message: "p".to_string() },
        BackendError::InternalError { message: "i".to_string() },
    ]
}

#[test]
fn only_rate_limits_and_network_errors_are_retryable() {
    let expected = [false, true, false, false, true, false, false];
    let errors = all_errors();
    assert_eq!(errors.len(), expected.len());
    for (error, retryable) in errors.iter().zip(expected.iter()) {
        assert_eq!(error.is_retryable(), *retryable, "{:?}", error);
    }
}

#[test]
fn network_error_is_retryable_whatever_its_message() {
    assert!(BackendError::NetworkError { message: String::new() }.is_retryable());
    assert!(BackendError::NetworkError { message: "connection reset".to_string() }.is_retryable());
}

#[test]
fn every_error_has_its_text() {
    let texts: Vec<String> = all_errors().iter().map(|e| e.to_string()).collect();
    assert_eq!(
        texts,
        vec![
            "Model not supported: m",
            "Rate limited by provider",
            "Request validation failed: v",
            "Authentication failed",
            "Network error: n",
            "Provider error: p",
            "Internal error: i",
        ]
    );
}

#[test]
fn error_text_keeps_the_whole_message() {
    let error = BackendError::ProviderError { message: "quota: 0 left; retry später".to_string() };
    assert_eq!(error.to_string(), "Provider error: quota: 0 left; retry später");
    let empty = BackendError::InternalError { message: String::new() };
    assert_eq!(empty.to_string(), "Internal error: ");
}
