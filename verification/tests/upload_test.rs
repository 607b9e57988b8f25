//! Tests for the upload decisions.

use ace_tool::index::upload::{
    is_timeout_message, precheck_batch, retry_after_secs, AttemptOutcome, BatchUploadResult,
    UploadAttempts, UploadProgress, UploadStep, MAX_UPLOAD_ATTEMPTS,
};
use ace_tool::index::Blob;
use ace_tool::strategy::ErrorType;

fn response(status: u16, names: Option<Vec<&str>>) -> AttemptOutcome {
    AttemptOutcome::Response {
        status,
        retry_after_secs: 1,
        blob_names: names.map(|v| v.into_iter().map(|s| s.to_string()).collect()),
    }
}

fn finished(step: UploadStep) -> BatchUploadResult {
    match step {
        UploadStep::Finished(r) => r,
        UploadStep::Retry { .. } => panic!("expected a result"),
    }
}

fn wait(step: UploadStep) -> u64 {
    match step {
        UploadStep::Retry { wait_ms } => wait_ms,
        UploadStep::Finished(_) => panic!("expected a retry"),
    }
}

#[test]
fn upload_success_first_attempt() {
    let mut a = UploadAttempts::new();
    let r = finished(a.step(response(200, Some(vec!["n1", "n2"])), 40));
    assert!(r.success);
    assert_eq!(r.blob_names, vec!["n1".to_string(), "n2".to_string()]);
    assert_eq!(r.latency_ms, 40);
    assert!(r.error_type.is_none());
}

#[test]
fn upload_auth_and_bad_request_stop() {
    for status in [401u16, 403, 400] {
        let mut a = UploadAttempts::new();
        let r = finished(a.step(response(status, None), 5));
        assert!(!r.success);
        assert_eq!(r.error_type, Some(ErrorType::ClientError));
        assert!(r.blob_names.is_empty());
    }
}

#[test]
fn upload_rate_limit_retry_after() {
    let mut a = UploadAttempts::new();
    let step = a.step(AttemptOutcome::Response { status: 429, retry_after_secs: 7, blob_names: None }, 10);
    assert_eq!(wait(step), 7000);
    assert_eq!(a.attempt, 1);
    assert_eq!(a.last_error, Some(ErrorType::RateLimit));
    assert_eq!(wait(a.step(response(429, None), 10)), 1000);
    // The third attempt is the last one.
    let r = finished(a.step(response(429, None), 10));
    assert_eq!(r.error_type, Some(ErrorType::RateLimit));
    assert_eq!(r.latency_ms, 30);
    assert_eq!(MAX_UPLOAD_ATTEMPTS, 3);
}

#[test]
fn upload_server_error_backoff() {
    let mut a = UploadAttempts::new();
    assert_eq!(wait(a.step(response(503, None), 1)), 1000);
    assert_eq!(wait(a.step(response(500, None), 1)), 2000);
    let r = finished(a.step(response(502, None), 1));
    assert_eq!(r.error_type, Some(ErrorType::ServerError));
}

#[test]
fn upload_transport_errors() {
    let mut a = UploadAttempts::new();
    assert_eq!(wait(a.step(AttemptOutcome::Transport { timed_out: true }, 100)), 1000);
    assert_eq!(wait(a.step(AttemptOutcome::Transport { timed_out: false }, 100)), 2000);
    let r = finished(a.step(AttemptOutcome::Transport { timed_out: true }, 100));
    assert_eq!(r.error_type, Some(ErrorType::Timeout));
    assert_eq!(r.latency_ms, 300);
}

#[test]
fn upload_unreadable_success_is_client_error() {
    let mut a = UploadAttempts::new();
    let r = finished(a.step(response(200, None), 3));
    assert!(!r.success);
    assert_eq!(r.error_type, Some(ErrorType::ClientError));
    let mut a = UploadAttempts::new();
    let r = finished(a.step(response(404, None), 3));
    assert_eq!(r.error_type, Some(ErrorType::ClientError));
}

#[test]
fn precheck_size_limit() {
    let small = vec![Blob { path: "a".to_string(), content: "b".to_string() }];
    assert!(precheck_batch(&small).is_none());
    let exact = vec![Blob { path: "a".to_string(), content: "b".repeat(1024 * 1024 - 1) }];
    assert!(precheck_batch(&exact).is_none());
    let over = vec![Blob { path: "ab".to_string(), content: "b".repeat(1024 * 1024 - 1) }];
    let r = precheck_batch(&over).unwrap();
    assert!(!r.success);
    assert_eq!(r.error_type, Some(ErrorType::ClientError));
    assert_eq!(r.latency_ms, 0);
}

#[test]
fn progress_of_a_run() {
    let mut p = UploadProgress::new(3);
    assert!(!p.is_done());
    let n = p.batches_to_start(2);
    assert_eq!(n, 2);
    p.start(n);
    assert_eq!(p.batches_to_start(2), 0);
    p.record(BatchUploadResult { blob_names: vec!["x".to_string()], latency_ms: 1, error_type: None, success: true });
    assert_eq!(p.batches_to_start(2), 1);
    p.start(1);
    p.record(BatchUploadResult {
        blob_names: Vec::new(),
        latency_ms: 1,
        error_type: Some(ErrorType::ServerError),
        success: false,
    });
    p.record(BatchUploadResult { blob_names: vec!["y".to_string(), "z".to_string()], latency_ms: 1, error_type: None, success: true });
    assert!(p.is_done());
    assert_eq!(p.uploaded_blob_names, vec!["x".to_string(), "y".to_string(), "z".to_string()]);
    assert_eq!(p.failed_batch_count, 1);
}

#[test]
fn retry_after_header() {
    assert_eq!(retry_after_secs(None), 1);
    assert_eq!(retry_after_secs(Some("30")), 30);
    assert_eq!(retry_after_secs(Some("+5")), 5);
    assert_eq!(retry_after_secs(Some("abc")), 1);
    assert_eq!(retry_after_secs(Some("")), 1);
    assert_eq!(retry_after_secs(Some("-3")), 1);
    assert_eq!(retry_after_secs(Some(" 3")), 1);
    assert_eq!(retry_after_secs(Some("18446744073709551615")), u64::MAX);
    assert_eq!(retry_after_secs(Some("18446744073709551616")), 1);
}

#[test]
fn timeout_messages() {
    assert!(is_timeout_message("operation timed out"));
    assert!(is_timeout_message("request timeout"));
    assert!(!is_timeout_message("connection refused"));
    assert!(!is_timeout_message("Timeout"));
}
