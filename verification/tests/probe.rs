use std::time::Duration;

use curl::easy::{Easy2, Handler, WriteError};
use http_probe::cli::ProbeConfig;
use http_probe::model::{
    AttemptResult, ResponseMetadata, TimingSample, TransportFailureKind,
};
use http_probe::probe::{
    build_timing_sample, classify_curl_error, completed_attempt, configure_handle,
    duration_to_micros, failed_attempt, failed_attempt_from_error, read_response_metadata, read_timing, response_from_reads, timing_from_reads,
    ProbeHandle,
};

fn nanos(micros: u64) -> u128 {
    Duration::from_micros(micros).as_nanos()
}

#[test]
fn decomposes_normal_http_timings() {
    let timing = build_timing_sample(
        nanos(10),
        nanos(30),
        nanos(30),
        nanos(40),
        nanos(90),
        nanos(120),
        false,
    );
    assert_eq!(timing.dns_us, 10);
    assert_eq!(timing.tcp_us, 20);
    assert_eq!(timing.tls_us, None);
    assert_eq!(timing.ttfb_us, 50);
    assert_eq!(timing.download_us, 30);
    assert_eq!(timing.total_us, 120);
}

#[test]
fn decomposes_normal_https_timings() {
    let timing = build_timing_sample(
        nanos(10),
        nanos(30),
        nanos(60),
        nanos(70),
        nanos(90),
        nanos(120),
        true,
    );
    assert_eq!(timing.tls_us, Some(30));
}

#[test]
fn equal_cumulative_fields_do_not_panic() {
    let timing = build_timing_sample(
        nanos(10),
        nanos(10),
        nanos(10),
        nanos(10),
        nanos(10),
        nanos(10),
        true,
    );
    assert_eq!(timing.tcp_us, 0);
    assert_eq!(timing.tls_us, Some(0));
    assert_eq!(timing.ttfb_us, 0);
    assert_eq!(timing.download_us, 0);
}

#[test]
fn out_of_order_cumulative_values_saturate() {
    let timing = build_timing_sample(
        nanos(30),
        nanos(10),
        nanos(5),
        nanos(90),
        nanos(50),
        nanos(40),
        true,
    );
    assert_eq!(timing.tcp_us, 0);
    assert_eq!(timing.tls_us, Some(0));
    assert_eq!(timing.ttfb_us, 0);
    assert_eq!(timing.download_us, 0);
}

#[test]
fn converts_microseconds() {
    assert_eq!(duration_to_micros(Duration::from_micros(12_345).as_nanos()), 12_345);
}

#[test]
fn microseconds_truncate_and_clamp() {
    assert_eq!(duration_to_micros(1_999), 1);
    assert_eq!(duration_to_micros(999), 0);
    assert_eq!(duration_to_micros(u128::MAX), u64::MAX);
    assert_eq!(duration_to_micros(u64::MAX as u128 * 1000 + 999), u64::MAX);
}

#[test]
fn phases_are_cut_before_truncation() {
    // 1.9us .. 3.0us is 1.1us of TCP, one whole microsecond.
    let timing = build_timing_sample(1_900, 3_000, 3_000, 3_000, 3_000, 3_000, false);
    assert_eq!(timing.dns_us, 1);
    assert_eq!(timing.tcp_us, 1);
}

#[test]
fn ordered_phases_fit_in_total() {
    let timing = build_timing_sample(
        1_500, 12_700, 33_300, 34_100, 90_900, 120_400, true,
    );
    let sum = timing.dns_us + timing.tcp_us + timing.tls_us.unwrap() + timing.ttfb_us + timing.download_us;
    assert!(sum <= timing.total_us);
}

#[test]
fn classifies_curl_error_codes() {
    assert_eq!(classify_curl_error(6), TransportFailureKind::Dns);
    assert_eq!(classify_curl_error(5), TransportFailureKind::Dns);
    assert_eq!(classify_curl_error(7), TransportFailureKind::Connect);
    assert_eq!(classify_curl_error(28), TransportFailureKind::Timeout);
    assert_eq!(classify_curl_error(35), TransportFailureKind::Tls);
    assert_eq!(classify_curl_error(60), TransportFailureKind::Tls);
    assert_eq!(classify_curl_error(77), TransportFailureKind::Tls);
    assert_eq!(classify_curl_error(47), TransportFailureKind::Redirect);
    assert_eq!(classify_curl_error(52), TransportFailureKind::Receive);
    assert_eq!(classify_curl_error(56), TransportFailureKind::Receive);
    assert_eq!(classify_curl_error(3), TransportFailureKind::Other);
    assert_eq!(classify_curl_error(-1), TransportFailureKind::Other);
}

#[test]
fn curl_codes_match_the_classification() {
    let dns = curl::Error::new(6);
    assert!(dns.is_couldnt_resolve_host());
    assert_eq!(classify_curl_error(i64::from(dns.code())), TransportFailureKind::Dns);
    let timeout = curl::Error::new(28);
    assert!(timeout.is_operation_timedout());
    assert_eq!(classify_curl_error(i64::from(timeout.code())), TransportFailureKind::Timeout);
    let tls = curl::Error::new(60);
    assert!(tls.is_peer_failed_verification());
    assert_eq!(classify_curl_error(i64::from(tls.code())), TransportFailureKind::Tls);
}

fn response(status_code: u32) -> ResponseMetadata {
    ResponseMetadata {
        status_code,
        primary_ip: None,
        downloaded_bytes: 0,
    }
}

fn timing() -> TimingSample {
    build_timing_sample(0, 0, 0, 0, 0, 0, false)
}

#[test]
fn success_is_exactly_2xx() {
    for (status, ok) in [(199, false), (200, true), (204, true), (299, true), (300, false), (503, false)] {
        let result = completed_attempt(1, timing(), response(status));
        assert_eq!(matches!(result, AttemptResult::Success(_)), ok, "status {status}");
        assert_eq!(matches!(result, AttemptResult::HttpFailure(_)), !ok, "status {status}");
    }
}

#[test]
fn failed_transfer_keeps_its_details() {
    match failed_attempt(3, 28, "timed out".to_string(), 77) {
        AttemptResult::TransportFailure(failure) => {
            assert_eq!(failure.attempt, 3);
            assert_eq!(failure.kind, TransportFailureKind::Timeout);
            assert_eq!(failure.message, "timed out");
            assert_eq!(failure.elapsed_us, 77);
        }
        other => panic!("unexpected result: {other:?}"),
    }
}

struct Sink;

impl Handler for Sink {
    fn write(&mut self, data: &[u8]) -> Result<usize, WriteError> {
        Ok(data.len())
    }
}

fn config() -> ProbeConfig {
    ProbeConfig {
        url: "http://127.0.0.1:9/".to_string(),
        count: 1,
        timeout_ms: 1000,
        connect_timeout_ms: 500,
        interval_ms: 0,
        follow_redirects: true,
        verbose: false,
        is_https: false,
    }
}

#[test]
fn configures_a_fresh_handle() {
    let mut handle = ProbeHandle::new(Easy2::new(Sink));
    assert!(configure_handle(&mut handle, &config()).is_ok());
}

#[test]
fn reads_an_unused_handle() {
    let mut handle = ProbeHandle::new(Easy2::new(Sink));
    configure_handle(&mut handle, &config()).unwrap();
    let easy = handle.easy();
    let timing = read_timing(easy, true).unwrap();
    assert_eq!(timing.total_us, 0);
    assert_eq!(timing.tls_us, Some(0));
    let metadata = read_response_metadata(easy, 5).unwrap();
    assert_eq!(metadata.status_code, 0);
    assert_eq!(metadata.downloaded_bytes, 5);
}

#[test]
fn refused_option_is_named_in_the_error() {
    let mut handle = ProbeHandle::new(Easy2::new(Sink));
    let mut bad = config();
    bad.url = "http://example.com/\0".to_string();
    match configure_handle(&mut handle, &bad) {
        Ok(()) => panic!("a URL with a NUL byte cannot be handed to libcurl"),
        Err(error) => {
            assert!(error
                .message()
                .starts_with("failed to configure curl option url: "));
            assert!(error.source().is_some());
            assert_eq!(error.exit_code(), 3);
        }
    }
}

#[test]
fn body_bytes_saturate() {
    assert_eq!(http_probe::probe::add_body_bytes(3, 2), 5);
    assert_eq!(http_probe::probe::add_body_bytes(u64::MAX - 1, 5), u64::MAX);
}

#[test]
fn timing_reads_name_the_first_failure() {
    let result = timing_from_reads(
        Ok(nanos(10)),
        Err(curl::Error::new(43)),
        Ok(nanos(60)),
        Err(curl::Error::new(48)),
        Ok(nanos(90)),
        Ok(nanos(120)),
        true,
    );
    match result {
        Err(error) => {
            assert!(error.message().starts_with("failed to read curl timing field connect_time: "));
            assert_eq!(error.source().unwrap().code(), 43);
        }
        Ok(timing) => panic!("unexpected timing: {timing:?}"),
    }
}

#[test]
fn timing_reads_split_in_order() {
    let timing = timing_from_reads(
        Ok(nanos(10)),
        Ok(nanos(30)),
        Ok(nanos(60)),
        Ok(nanos(70)),
        Ok(nanos(90)),
        Ok(nanos(120)),
        true,
    )
    .unwrap();
    assert_eq!(timing.dns_us, 10);
    assert_eq!(timing.tcp_us, 20);
    assert_eq!(timing.tls_us, Some(30));
    assert_eq!(timing.ttfb_us, 20);
    assert_eq!(timing.download_us, 30);
    assert_eq!(timing.total_us, 120);
}

#[test]
fn response_reads_keep_status_and_address() {
    let metadata = response_from_reads(Ok(503), Ok(Some("10.0.0.1".to_string())), 7).unwrap();
    assert_eq!(metadata.status_code, 503);
    assert_eq!(metadata.primary_ip.as_deref(), Some("10.0.0.1"));
    assert_eq!(metadata.downloaded_bytes, 7);
    let result = completed_attempt(1, timing(), metadata);
    assert!(matches!(result, AttemptResult::HttpFailure(_)));
}

#[test]
fn unreadable_address_is_left_out() {
    let metadata = response_from_reads(Ok(200), Err(curl::Error::new(43)), 0).unwrap();
    assert_eq!(metadata.status_code, 200);
    assert_eq!(metadata.primary_ip, None);
}

#[test]
fn unreadable_status_is_an_error() {
    match response_from_reads(Err(curl::Error::new(43)), Ok(None), 0) {
        Err(error) => {
            assert!(error.message().starts_with("failed to read curl timing field response_code: "));
            assert_eq!(error.source().unwrap().code(), 43);
        }
        Ok(metadata) => panic!("unexpected metadata: {metadata:?}"),
    }
}

#[test]
fn curl_error_becomes_transport_failure() {
    let error = curl::Error::new(28);
    match failed_attempt_from_error(4, &error, 900) {
        AttemptResult::TransportFailure(failure) => {
            assert_eq!(failure.attempt, 4);
            assert_eq!(failure.kind, TransportFailureKind::Timeout);
            assert_eq!(failure.message, error.to_string());
            assert_eq!(failure.elapsed_us, 900);
        }
        other => panic!("unexpected result: {other:?}"),
    }
}
