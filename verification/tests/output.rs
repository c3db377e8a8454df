use std::collections::BTreeMap;

use http_probe::model::{
    AttemptResult, LatencySummary, ResponseMetadata, RunSummary, SuccessfulAttempt, TimingSample,
    TransportFailureAttempt, TransportFailureKind,
};
use http_probe::output::{format_ms_u64, write_report, write_verbose_attempt, LatencyText, MetricText};
use http_probe::stats::summarize;

fn summary_without_latency() -> RunSummary {
    RunSummary {
        target: "http://example.com".to_string(),
        requested_attempts: 1,
        successful_attempts: 0,
        failed_attempts: 1,
        latency: None,
        status_counts: BTreeMap::from([(503, 1)]),
        transport_failure_counts: Vec::new(),
        attempts: Vec::new(),
        follow_redirects: false,
        is_https: false,
    }
}

#[test]
fn prints_no_success_message() {
    let summary = summary_without_latency();
    let mut output = String::new();
    write_report(&summary, "100.00", &None, &mut output);
    assert!(output.contains("Latency statistics: unavailable"));
    assert!(output.contains("HTTP 503"));
}

#[test]
fn formats_verbose_transport_failure() {
    let result = AttemptResult::TransportFailure(TransportFailureAttempt {
        attempt: 1,
        kind: TransportFailureKind::Timeout,
        message: "timed out".to_string(),
        elapsed_us: 1234,
    });
    let mut output = String::new();
    write_verbose_attempt(&result, 2, &mut output);
    assert!(output.contains("[1/2] failure kind=timeout"));
    assert!(output.contains("elapsed=1.234ms"));
}

#[test]
fn verbose_transport_failure_line_is_exact() {
    let result = AttemptResult::TransportFailure(TransportFailureAttempt {
        attempt: 1,
        kind: TransportFailureKind::Dns,
        message: "say \"hi\"".to_string(),
        elapsed_us: 5,
    });
    let mut output = String::new();
    write_verbose_attempt(&result, 3, &mut output);
    assert_eq!(
        output,
        "[1/3] failure kind=dns elapsed=0.005ms error=\"say \\\"hi\\\"\"\n"
    );
}

#[test]
fn verbose_success_line_is_exact() {
    let result = AttemptResult::Success(SuccessfulAttempt {
        attempt: 2,
        timing: TimingSample {
            dns_us: 1,
            tcp_us: 2,
            tls_us: None,
            ttfb_us: 3,
            download_us: 4,
            total_us: 12_345,
        },
        response: ResponseMetadata {
            status_code: 200,
            primary_ip: None,
            downloaded_bytes: 5,
        },
    });
    let mut output = String::new();
    write_verbose_attempt(&result, 2, &mut output);
    assert_eq!(output, "[2/2] success status=200 total=12.345ms ip=- bytes=5\n");
}

#[test]
fn formats_milliseconds_with_three_decimals() {
    assert_eq!(format_ms_u64(0), "0.000ms");
    assert_eq!(format_ms_u64(7), "0.007ms");
    assert_eq!(format_ms_u64(1234), "1.234ms");
    assert_eq!(format_ms_u64(1_000_000), "1000.000ms");
    assert_eq!(format_ms_u64(u64::MAX), "18446744073709551.615ms");
}

fn texts(latency: &LatencySummary) -> LatencyText {
    let text = |average: &str, median: &str| MetricText {
        average: average.to_string(),
        median: median.to_string(),
    };
    LatencyText {
        dns: text("0.001", "0.001"),
        tcp: text("0.002", "0.002"),
        tls: latency.tls.map(|_| text("0.003", "0.003")),
        ttfb: text("0.004", "0.004"),
        download: text("0.005", "0.005"),
        total: text("0.015", "0.015"),
    }
}

fn latency(with_tls: bool) -> LatencySummary {
    LatencySummary {
        dns: summarize(&[1]).unwrap(),
        tcp: summarize(&[2]).unwrap(),
        tls: if with_tls { summarize(&[3]) } else { None },
        ttfb: summarize(&[4]).unwrap(),
        download: summarize(&[5]).unwrap(),
        total: summarize(&[15]).unwrap(),
    }
}

#[test]
fn report_for_successful_https_run() {
    let latency = latency(true);
    let latency_text = Some(texts(&latency));
    let summary = RunSummary {
        target: "https://example.com".to_string(),
        requested_attempts: 1,
        successful_attempts: 1,
        failed_attempts: 0,
        latency: Some(latency),
        status_counts: BTreeMap::from([(200, 1)]),
        transport_failure_counts: Vec::new(),
        attempts: Vec::new(),
        follow_redirects: true,
        is_https: true,
    };
    let mut output = String::new();
    write_report(&summary, "0.00", &latency_text, &mut output);
    let expected = "HTTP Latency Probe\n\
Target:           https://example.com\n\
Measurement:      fresh DNS and connection per attempt\n\
Attempts:         1\n\
Successful:       1\n\
Failed:           0\n\
Failure rate:     0.00%\n\
HTTP redirects:   enabled\n\
\n\
Latency statistics for successful requests (milliseconds)\n\
\n\
Phase                  Min       Avg    Median       P95       P99       Max\n\
DNS                  0.001     0.001     0.001     0.001     0.001     0.001\n\
TCP connection       0.002     0.002     0.002     0.002     0.002     0.002\n\
TLS handshake        0.003     0.003     0.003     0.003     0.003     0.003\n\
TTFB                 0.004     0.004     0.004     0.004     0.004     0.004\n\
Body transfer        0.005     0.005     0.005     0.005     0.005     0.005\n\
Total                0.015     0.015     0.015     0.015     0.015     0.015\n\
\n\
Failures: none\n";
    assert_eq!(output, expected);
}

#[test]
fn http_report_shows_tls_as_unavailable() {
    let latency = latency(false);
    let latency_text = Some(texts(&latency));
    let summary = RunSummary {
        target: "http://example.com".to_string(),
        requested_attempts: 1,
        successful_attempts: 1,
        failed_attempts: 0,
        latency: Some(latency),
        status_counts: BTreeMap::from([(200, 1)]),
        transport_failure_counts: Vec::new(),
        attempts: Vec::new(),
        follow_redirects: false,
        is_https: false,
    };
    let mut output = String::new();
    write_report(&summary, "0.00", &latency_text, &mut output);
    assert!(output.contains(
        "TLS handshake            -         -         -         -         -         -\n"
    ));
    assert!(output.contains("HTTP redirects:   disabled\n"));
}

#[test]
fn report_lists_failures_in_order() {
    let summary = RunSummary {
        target: "http://example.com".to_string(),
        requested_attempts: 6,
        successful_attempts: 0,
        failed_attempts: 6,
        latency: None,
        status_counts: BTreeMap::from([(503, 2), (200, 0), (404, 1)]),
        transport_failure_counts: vec![
            (TransportFailureKind::Dns, 1),
            (TransportFailureKind::Timeout, 2),
        ],
        attempts: Vec::new(),
        follow_redirects: false,
        is_https: false,
    };
    let mut output = String::new();
    write_report(&summary, "100.00", &None, &mut output);
    let expected_tail = "Latency statistics: unavailable because no request succeeded.\n\
\n\
Failures\n\
HTTP 404:                1\n\
HTTP 503:                2\n\
DNS:                     1\n\
Timeout:                 2\n";
    assert!(output.ends_with(expected_tail), "{output}");
    assert!(!output.contains("HTTP statuses"));
}

#[test]
fn report_matches_the_sample_layout() {
    let latency = latency(true);
    let latency_text = Some(texts(&latency));
    let summary = RunSummary {
        target: "https://example.com/api/health".to_string(),
        requested_attempts: 100,
        successful_attempts: 98,
        failed_attempts: 2,
        latency: Some(latency),
        status_counts: BTreeMap::from([(200, 98), (503, 1)]),
        transport_failure_counts: vec![(TransportFailureKind::Timeout, 1)],
        attempts: Vec::new(),
        follow_redirects: false,
        is_https: true,
    };
    let mut output = String::new();
    write_report(&summary, "2.00", &latency_text, &mut output);
    assert!(output.starts_with(
        "HTTP Latency Probe\n\
Target:           https://example.com/api/health\n\
Measurement:      fresh DNS and connection per attempt\n\
Attempts:         100\n\
Successful:       98\n\
Failed:           2\n\
Failure rate:     2.00%\n\
HTTP redirects:   disabled\n\
\n\
Latency statistics for successful requests (milliseconds)\n"
    ));
    assert!(output.ends_with(
        "Total                0.015     0.015     0.015     0.015     0.015     0.015\n\
\n\
Failures\n\
HTTP 503:                1\n\
Timeout:                 1\n"
    ), "{output}");
    assert!(!output.contains("HTTP statuses"));
}

#[test]
fn single_status_has_no_status_table() {
    let mut output = String::new();
    write_report(&summary_without_latency(), "100.00", &None, &mut output);
    assert!(!output.contains("HTTP statuses"));
    assert!(output.contains("Failure rate:     100.00%\n"));
}
