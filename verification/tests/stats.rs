use http_probe::cli::ProbeConfig;
use http_probe::model::{
    AttemptResult, HttpFailureAttempt, ResponseMetadata, RunSummary, SuccessfulAttempt,
    TimingSample, TransportFailureAttempt, TransportFailureKind,
};
use http_probe::stats::{build_run_summary, nearest_rank, summarize, MetricStats};

fn average(stats: &MetricStats) -> f64 {
    stats.total_us as f64 / stats.samples as f64
}

fn median(stats: &MetricStats) -> f64 {
    (stats.median_low_us as f64 + stats.median_high_us as f64) / 2.0
}

fn failure_rate(summary: &RunSummary) -> f64 {
    if summary.requested_attempts == 0 {
        0.0
    } else {
        summary.failed_attempts as f64 / summary.requested_attempts as f64 * 100.0
    }
}

fn transport_count(summary: &RunSummary, kind: TransportFailureKind) -> Option<u32> {
    summary
        .transport_failure_counts
        .iter()
        .find(|(k, _)| *k == kind)
        .map(|(_, count)| *count)
}

#[test]
fn empty_input_returns_none() {
    assert!(summarize(&[]).is_none());
}

#[test]
fn one_value_has_all_fields_equal() {
    let stats = summarize(&[42]).unwrap();
    assert_eq!(stats.min_us, 42);
    assert_eq!(stats.max_us, 42);
    assert_eq!(average(&stats), 42.0);
    assert_eq!(median(&stats), 42.0);
    assert_eq!(stats.p95_us, 42);
    assert_eq!(stats.p99_us, 42);
}

#[test]
fn calculates_odd_median() {
    assert_eq!(median(&summarize(&[3, 1, 2]).unwrap()), 2.0);
}

#[test]
fn calculates_even_median() {
    assert_eq!(median(&summarize(&[4, 1, 2, 3]).unwrap()), 2.5);
}

#[test]
fn average_preserves_fractional_result() {
    assert_eq!(average(&summarize(&[1, 2]).unwrap()), 1.5);
}

#[test]
fn nearest_rank_p95_for_100_values() {
    let values = (1..=100).collect::<Vec<u64>>();
    assert_eq!(nearest_rank(&values, 95, 100), 95);
}

#[test]
fn nearest_rank_p99_for_100_values() {
    let values = (1..=100).collect::<Vec<u64>>();
    assert_eq!(nearest_rank(&values, 99, 100), 99);
}

#[test]
fn p99_for_fewer_than_100_values_can_equal_max() {
    assert_eq!(summarize(&[1, 2, 3]).unwrap().p99_us, 3);
}

#[test]
fn unsorted_input_is_handled() {
    assert_eq!(summarize(&[10, 1, 5]).unwrap().min_us, 1);
}

#[test]
fn duplicate_values_are_handled() {
    assert_eq!(summarize(&[5, 5, 5]).unwrap().p95_us, 5);
}

#[test]
fn zero_duration_values_are_handled() {
    assert_eq!(summarize(&[0, 0, 1]).unwrap().min_us, 0);
}

#[test]
fn very_large_values_do_not_overflow_integer_sum() {
    let stats = summarize(&[u64::MAX, u64::MAX]).unwrap();
    assert!(average(&stats) > 0.0);
    assert_eq!(stats.total_us, 2 * u64::MAX as u128);
}

#[test]
fn builds_all_successful_summary() {
    let summary = build_run_summary(&config(2, true), vec![success(1, 200), success(2, 200)]);
    assert_eq!(summary.successful_attempts, 2);
    assert_eq!(summary.failed_attempts, 0);
    assert_eq!(failure_rate(&summary), 0.0);
    assert!(summary.latency.is_some());
}

#[test]
fn builds_mixed_status_summary() {
    let summary = build_run_summary(
        &config(2, true),
        vec![success(1, 200), http_failure(2, 503)],
    );
    assert_eq!(summary.successful_attempts, 1);
    assert_eq!(summary.failed_attempts, 1);
    assert_eq!(failure_rate(&summary), 50.0);
    assert_eq!(summary.status_counts.get(&200), Some(&1));
    assert_eq!(summary.status_counts.get(&503), Some(&1));
    assert_eq!(summary.latency.unwrap().total.samples, 1);
}

#[test]
fn builds_transport_failures_only_summary() {
    let summary = build_run_summary(&config(1, true), vec![transport_failure(1)]);
    assert_eq!(summary.successful_attempts, 0);
    assert_eq!(summary.failed_attempts, 1);
    assert!(summary.latency.is_none());
    assert_eq!(
        transport_count(&summary, TransportFailureKind::Timeout),
        Some(1)
    );
}

#[test]
fn statistics_figures_are_exact() {
    let stats = summarize(&[40, 10, 30, 20]).unwrap();
    assert_eq!(stats.samples, 4);
    assert_eq!(stats.min_us, 10);
    assert_eq!(stats.max_us, 40);
    assert_eq!(stats.total_us, 100);
    assert_eq!(stats.median_low_us, 20);
    assert_eq!(stats.median_high_us, 30);
    assert_eq!(stats.p95_us, 40);
    assert_eq!(stats.p99_us, 40);
}

#[test]
fn statistics_are_ordered_and_are_samples() {
    let values = [17, 3, 99, 42, 8, 8, 61, 25, 5, 70, 12];
    let stats = summarize(&values).unwrap();
    assert!(stats.min_us <= stats.median_low_us);
    assert!(stats.median_low_us <= stats.median_high_us);
    assert!(stats.median_high_us <= stats.max_us);
    assert!(stats.min_us <= stats.p95_us && stats.p95_us <= stats.p99_us);
    assert!(stats.p99_us <= stats.max_us);
    for figure in [stats.min_us, stats.max_us, stats.median_low_us, stats.p95_us, stats.p99_us] {
        assert!(values.contains(&figure));
    }
    for value in values {
        assert!(stats.min_us <= value && value <= stats.max_us);
    }
    let n = values.len() as u128;
    assert!(n * stats.min_us as u128 <= stats.total_us);
    assert!(stats.total_us <= n * stats.max_us as u128);
}

#[test]
fn statistics_ignore_sample_order() {
    let a = summarize(&[9, 2, 7, 2, 5]).unwrap();
    let b = summarize(&[2, 5, 9, 7, 2]).unwrap();
    assert_eq!(a, b);
}

#[test]
fn percentiles_reach_max_for_small_counts() {
    let values = (1..=99).collect::<Vec<u64>>();
    assert_eq!(summarize(&values).unwrap().p99_us, 99);
    let values = (1..=19).collect::<Vec<u64>>();
    assert_eq!(summarize(&values).unwrap().p95_us, 19);
    let values = (1..=20).collect::<Vec<u64>>();
    assert_eq!(summarize(&values).unwrap().p95_us, 19);
}

#[test]
fn nearest_rank_grows_with_the_percentile() {
    let values = (1..=37).collect::<Vec<u64>>();
    let mut previous = 0;
    for percent in 0..=100 {
        let value = nearest_rank(&values, percent, 100);
        assert!(value >= previous);
        previous = value;
    }
    assert_eq!(nearest_rank(&values, 0, 100), 1);
    assert_eq!(nearest_rank(&values, 1, 2), 19);
    assert_eq!(nearest_rank(&values, 1, 1), 37);
}

#[test]
fn every_attempt_is_counted_once() {
    let attempts = vec![
        success(1, 200),
        http_failure(2, 503),
        transport_failure(3),
        success(4, 204),
        http_failure(5, 503),
        transport_failure(6),
        http_failure(7, 404),
    ];
    let summary = build_run_summary(&config(7, false), attempts);
    let status_total: u32 = summary.status_counts.values().sum();
    let transport_total: u32 = summary
        .transport_failure_counts
        .iter()
        .map(|(_, count)| *count)
        .sum();
    assert_eq!(status_total + transport_total, 7);
    assert_eq!(summary.status_counts.get(&503), Some(&2));
    assert_eq!(summary.status_counts.get(&404), Some(&1));
    assert_eq!(summary.status_counts.get(&204), Some(&1));
    assert_eq!(summary.successful_attempts + summary.failed_attempts, 7);
    assert_eq!(summary.attempts.len(), 7);
}

#[test]
fn transport_counts_follow_kind_order() {
    let attempts = vec![
        transport_failure_of(1, TransportFailureKind::Other),
        transport_failure_of(2, TransportFailureKind::Dns),
        transport_failure_of(3, TransportFailureKind::Tls),
        transport_failure_of(4, TransportFailureKind::Dns),
    ];
    let summary = build_run_summary(&config(4, true), attempts);
    assert_eq!(
        summary.transport_failure_counts,
        vec![
            (TransportFailureKind::Dns, 2),
            (TransportFailureKind::Tls, 1),
            (TransportFailureKind::Other, 1)
        ]
    );
}

#[test]
fn latency_comes_only_from_successes() {
    let summary = build_run_summary(
        &config(3, false),
        vec![success(1, 200), http_failure(2, 500), success(3, 201)],
    );
    let latency = summary.latency.unwrap();
    assert_eq!(latency.total.samples, 2);
    assert_eq!(latency.dns.samples, 2);
    assert!(latency.tls.is_none());
}

#[test]
fn https_latency_has_tls_statistics() {
    let summary = build_run_summary(&config(1, true), vec![success(1, 200)]);
    let tls = summary.latency.unwrap().tls.unwrap();
    assert_eq!(tls.min_us, 3);
}

#[test]
fn failed_counts_requested_not_recorded() {
    let summary = build_run_summary(&config(5, true), vec![success(1, 200)]);
    assert_eq!(summary.failed_attempts, 4);
    assert_eq!(summary.requested_attempts, 5);
}

fn config(count: u32, is_https: bool) -> ProbeConfig {
    ProbeConfig {
        url: if is_https {
            "https://example.com".to_string()
        } else {
            "http://example.com".to_string()
        },
        count,
        timeout_ms: 5000,
        connect_timeout_ms: 3000,
        interval_ms: 0,
        follow_redirects: false,
        verbose: false,
        is_https,
    }
}

fn timing() -> TimingSample {
    TimingSample {
        dns_us: 1,
        tcp_us: 2,
        tls_us: Some(3),
        ttfb_us: 4,
        download_us: 5,
        total_us: 15,
    }
}

fn response(status_code: u32) -> ResponseMetadata {
    ResponseMetadata {
        status_code,
        primary_ip: Some("127.0.0.1".to_string()),
        downloaded_bytes: 2,
    }
}

fn success(attempt: u32, status_code: u32) -> AttemptResult {
    AttemptResult::Success(SuccessfulAttempt {
        attempt,
        timing: timing(),
        response: response(status_code),
    })
}

fn http_failure(attempt: u32, status_code: u32) -> AttemptResult {
    AttemptResult::HttpFailure(HttpFailureAttempt {
        attempt,
        timing: timing(),
        response: response(status_code),
    })
}

fn transport_failure(attempt: u32) -> AttemptResult {
    transport_failure_of(attempt, TransportFailureKind::Timeout)
}

fn transport_failure_of(attempt: u32, kind: TransportFailureKind) -> AttemptResult {
    AttemptResult::TransportFailure(TransportFailureAttempt {
        attempt,
        kind,
        message: "timeout".to_string(),
        elapsed_us: 100,
    })
}
