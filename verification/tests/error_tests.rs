use rusty_archive_viewer::archiver::error::{ArchiverError, ErrorContext};

#[test]
fn test_error_context() {
    let error = ArchiverError::ConnectionError {
        message: "Failed to connect".to_string(),
        context: "Test context".to_string(),
        source: None,
        retry_after: Some(1_000),
        error_context: None,
    }
    .with_context("TEST", "test_operation");

    assert!(error.error_context().is_some());
    assert_eq!(error.error_context().unwrap().source_component, "TEST");
    assert_eq!(error.error_context().unwrap().operation, "test_operation");
}

#[test]
fn test_retryable_errors() {
    let connection_error = ArchiverError::ConnectionError {
        message: "Test".to_string(),
        context: "Test".to_string(),
        source: None,
        retry_after: None,
        error_context: None,
    };
    assert!(connection_error.is_retryable());

    let validation_error = ArchiverError::InvalidRequest {
        message: "Test".to_string(),
        context: "Test".to_string(),
        validation_errors: vec![],
        error_context: None,
    };
    assert!(!validation_error.is_retryable());
}

#[test]
fn test_retry_count() {
    let mut error = ArchiverError::ConnectionError {
        message: "Test".to_string(),
        context: "Test".to_string(),
        source: None,
        retry_after: None,
        error_context: Some(ErrorContext::new("TEST", "test_operation")),
    };

    assert_eq!(error.retry_count(), 0);
    error.increment_retry();
    assert_eq!(error.retry_count(), 1);
}

#[test]
fn server_errors_retry_on_gateway_statuses_only() {
    let status = |s: u16| ArchiverError::ServerError {
        message: "x".to_string(),
        status: s,
        body: None,
        retry_after: None,
        error_context: None,
    };
    assert!(status(502).is_retryable());
    assert!(status(503).is_retryable());
    assert!(status(504).is_retryable());
    assert!(!status(500).is_retryable());
    assert!(!status(404).is_retryable());
}

#[test]
fn retry_count_without_context_is_zero_and_stays_so() {
    let mut error = ArchiverError::ConnectionError {
        message: "Test".to_string(),
        context: "Test".to_string(),
        source: None,
        retry_after: Some(5_000),
        error_context: None,
    };
    assert_eq!(error.retry_count(), 0);
    error.increment_retry();
    assert_eq!(error.retry_count(), 0);
    assert_eq!(error.retry_after(), Some(5_000));
}

#[test]
fn with_info_keeps_the_rest_of_the_context() {
    let ctx = ErrorContext::new("CACHE", "lookup").with_info("key missing".to_string());
    assert_eq!(ctx.source_component, "CACHE");
    assert_eq!(ctx.operation, "lookup");
    assert_eq!(ctx.retry_count, 0);
    assert_eq!(ctx.additional_info, Some("key missing".to_string()));
}
