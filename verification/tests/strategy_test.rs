//! Tests for the adaptive upload strategy.

use ace_tool::config::CliOverrides;
use ace_tool::strategy::{AdaptiveStrategy, ErrorType};

fn none() -> CliOverrides {
    CliOverrides { upload_timeout_secs: None, upload_concurrency: None }
}

fn window(s: &mut AdaptiveStrategy, success: bool, latency: u64) {
    for _ in 0..5 {
        s.record_outcome(success, latency, if success { None } else { Some(ErrorType::ServerError) });
    }
}

#[test]
fn static_strategy_never_changes() {
    let mut s = AdaptiveStrategy::new(1000, &none(), false);
    assert_eq!((s.batch_size(), s.concurrency(), s.timeout_ms()), (50, 3, 60000));
    window(&mut s, false, 10);
    s.record_outcome(false, 10, Some(ErrorType::RateLimit));
    assert_eq!((s.concurrency(), s.timeout_ms()), (3, 60000));
}

#[test]
fn warmup_then_target_then_increase() {
    let mut s = AdaptiveStrategy::new(5000, &none(), true);
    assert_eq!((s.batch_size(), s.concurrency(), s.timeout_ms()), (70, 1, 90000));
    window(&mut s, true, 100);
    assert_eq!(s.concurrency(), 4);
    window(&mut s, true, 100);
    assert_eq!(s.concurrency(), 5);
    for _ in 0..10 {
        window(&mut s, true, 100);
    }
    assert_eq!(s.concurrency(), 8);
    // A slow window does not add.
    window(&mut s, true, 50000);
    assert_eq!(s.concurrency(), 8);
}

#[test]
fn failures_and_rate_limits_back_off() {
    let mut s = AdaptiveStrategy::new(5000, &none(), true);
    window(&mut s, true, 100);
    assert_eq!(s.concurrency(), 4);
    window(&mut s, false, 100);
    assert_eq!((s.concurrency(), s.timeout_ms()), (2, 135000));
    s.record_outcome(false, 10, Some(ErrorType::RateLimit));
    assert_eq!((s.concurrency(), s.timeout_ms()), (1, 180000));
    s.record_outcome(false, 10, Some(ErrorType::RateLimit));
    assert_eq!((s.concurrency(), s.timeout_ms()), (1, 180000));
    // A latency spike (over 80% of the timeout) counts as bad.
    let mut s = AdaptiveStrategy::new(50, &none(), true);
    window(&mut s, true, 25000);
    assert_eq!((s.concurrency(), s.timeout_ms()), (1, 45000));
}

#[test]
fn warmup_ends_without_good_window() {
    let mut s = AdaptiveStrategy::new(600, &none(), true);
    // Four of five succeed: neither good nor bad.
    for _ in 0..2 {
        for i in 0..5 {
            s.record_outcome(i != 0, 10, None);
        }
    }
    assert_eq!(s.concurrency(), 1);
    // Warm-up is over: a good window now adds one.
    window(&mut s, true, 10);
    assert_eq!(s.concurrency(), 2);
}

#[test]
fn overrides_are_kept() {
    let o = CliOverrides { upload_timeout_secs: Some(60), upload_concurrency: Some(6) };
    let mut s = AdaptiveStrategy::new(10, &o, true);
    assert_eq!((s.concurrency(), s.timeout_ms()), (6, 60000));
    window(&mut s, false, 10);
    assert_eq!((s.concurrency(), s.timeout_ms()), (6, 60000));
    // Only the timeout given: the concurrency still adapts.
    let o = CliOverrides { upload_timeout_secs: Some(20), upload_concurrency: None };
    let mut s = AdaptiveStrategy::new(10, &o, true);
    window(&mut s, true, 10);
    assert_eq!((s.concurrency(), s.timeout_ms()), (1, 20000));
    let zero = CliOverrides { upload_timeout_secs: None, upload_concurrency: Some(0) };
    assert_eq!(AdaptiveStrategy::new(10, &zero, true).concurrency(), 1);
}
