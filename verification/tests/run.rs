use http_probe::cli::Cli;
use http_probe::exit_code_for_summary;
use http_probe::model::{
    AttemptResult, HttpFailureAttempt, ResponseMetadata, SuccessfulAttempt, TimingSample,
};
use http_probe::run::ProbeRun;

fn cli(count: u32, interval_ms: u64, verbose: bool) -> Cli {
    Cli {
        url: "http://example.com".to_string(),
        count,
        timeout_ms: 5000,
        connect_timeout_ms: 3000,
        interval_ms,
        follow_redirects: false,
        verbose,
    }
}

fn timing() -> TimingSample {
    TimingSample {
        dns_us: 1,
        tcp_us: 2,
        tls_us: None,
        ttfb_us: 4,
        download_us: 5,
        total_us: 15,
    }
}

fn response(status_code: u32) -> ResponseMetadata {
    ResponseMetadata {
        status_code,
        primary_ip: Some("127.0.0.1".to_string()),
        downloaded_bytes: 2,
    }
}

fn outcome(attempt: u32, status_code: u32) -> AttemptResult {
    if (200..=299).contains(&status_code) {
        AttemptResult::Success(SuccessfulAttempt { attempt, timing: timing(), response: response(status_code) })
    } else {
        AttemptResult::HttpFailure(HttpFailureAttempt { attempt, timing: timing(), response: response(status_code) })
    }
}

#[test]
fn run_asks_for_each_attempt_in_turn() {
    let mut run = ProbeRun::start(cli(3, 250, false)).unwrap();
    let mut numbers = Vec::new();
    let mut pauses = Vec::new();
    while let Some(number) = run.next_attempt() {
        numbers.push(number);
        let after = run.record(outcome(number, 200));
        assert!(after.verbose_line.is_none());
        pauses.push(after.pause_ms);
    }
    assert_eq!(numbers, vec![1, 2, 3]);
    assert_eq!(pauses, vec![250, 250, 0]);
    let summary = run.finish();
    assert_eq!(summary.requested_attempts, 3);
    assert_eq!(summary.successful_attempts, 3);
    assert_eq!(summary.failed_attempts, 0);
    assert_eq!(exit_code_for_summary(&summary), 0);
}

#[test]
fn run_without_interval_never_pauses() {
    let mut run = ProbeRun::start(cli(2, 0, false)).unwrap();
    while let Some(number) = run.next_attempt() {
        assert_eq!(run.record(outcome(number, 200)).pause_ms, 0);
    }
}

#[test]
fn verbose_run_prints_each_attempt() {
    let mut run = ProbeRun::start(cli(1, 0, true)).unwrap();
    let number = run.next_attempt().unwrap();
    let after = run.record(outcome(number, 200));
    assert_eq!(
        after.verbose_line.unwrap(),
        "[1/1] success status=200 total=0.015ms ip=127.0.0.1 bytes=2\n"
    );
}

#[test]
fn failed_attempt_makes_exit_code_one() {
    let mut run = ProbeRun::start(cli(2, 0, false)).unwrap();
    run.record(outcome(1, 200));
    run.record(outcome(2, 503));
    assert!(run.next_attempt().is_none());
    let summary = run.finish();
    assert_eq!(summary.successful_attempts + summary.failed_attempts, summary.requested_attempts);
    assert_eq!(summary.failed_attempts, 1);
    assert_eq!(exit_code_for_summary(&summary), 1);
}

#[test]
fn invalid_options_do_not_start_a_run() {
    match ProbeRun::start(cli(0, 0, false)) {
        Ok(_) => panic!("expected a configuration error"),
        Err(error) => assert_eq!(error.exit_code(), 2),
    }
}
