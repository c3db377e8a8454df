//! One probe attempt: configuring the curl handle, reading its timings and
//! response after the transfer, and classifying the outcome.

use curl::easy::Easy2;
use vstd::prelude::*;

use crate::cli::ProbeConfig;
use crate::error::AppError;
use crate::model::{
    AttemptResult, HttpFailureAttempt, ResponseMetadata, SuccessfulAttempt, TimingSample,
    TransportFailureAttempt, TransportFailureKind,
};

verus! {

#[verifier::external_type_specification]
#[verifier::external_body]
#[verifier::reject_recursive_types(H)]
pub struct ExEasy2<H>(Easy2<H>);

/// One option that this library handed to a curl handle and libcurl accepted.
pub enum CurlSetting {
    Url(Seq<char>),
    Get(bool),
    UserAgent(Seq<char>),
    TimeoutMs(u64),
    ConnectTimeoutMs(u64),
    FollowLocation(bool),
    MaxRedirections(u32),
    FreshConnect(bool),
    ForbidReuse(bool),
    DnsCacheTimeoutSecs(u64),
    Signal(bool),
}

/// A curl handle together with the record of the options this library set on
/// it, in the order they were accepted.
#[verifier::reject_recursive_types(H)]
pub struct ProbeHandle<H> {
    easy: Easy2<H>,
    settings: Ghost<Seq<CurlSetting>>,
}

impl<H> ProbeHandle<H> {
    /// The options set through this handle so far, in order.
    pub closed spec fn settings(self) -> Seq<CurlSetting> {
        self.settings@
    }

    /// Takes over a curl handle; no option has been set through it yet.
    pub fn new(easy: Easy2<H>) -> (handle: ProbeHandle<H>)
        ensures
            handle.settings() == Seq::<CurlSetting>::empty(),
    {
        ProbeHandle { easy, settings: Ghost(Seq::empty()) }
    }

    /// The curl handle whose options `settings` records.
    pub closed spec fn curl_handle(self) -> Easy2<H> {
        self.easy
    }

    /// The curl handle, to perform the transfer and read its results.
    pub fn easy(&self) -> (easy: &Easy2<H>)
        ensures
            *easy == self.curl_handle(),
    {
        &self.easy
    }
}

/// Whole microseconds in a span of nanoseconds, clamped to `u64::MAX`.
pub open spec fn micros_of(nanos: nat) -> u64 {
    if nanos / 1000 > u64::MAX {
        u64::MAX
    } else {
        (nanos / 1000) as u64
    }
}

/// `a - b`, or zero when `b` is the larger.
pub open spec fn saturating_diff(a: nat, b: nat) -> nat {
    if a >= b {
        (a - b) as nat
    } else {
        0
    }
}

/// The phases of a transfer from curl's cumulative timestamps (nanoseconds
/// since the start of the transfer).
pub open spec fn timing_of(
    name_lookup: nat,
    connect: nat,
    app_connect: nat,
    pre_transfer: nat,
    start_transfer: nat,
    total: nat,
    is_https: bool,
) -> TimingSample {
    TimingSample {
        dns_us: micros_of(name_lookup),
        tcp_us: micros_of(saturating_diff(connect, name_lookup)),
        tls_us: if is_https {
            Some(micros_of(saturating_diff(app_connect, connect)))
        } else {
            None
        },
        ttfb_us: micros_of(saturating_diff(start_transfer, pre_transfer)),
        download_us: micros_of(saturating_diff(total, start_transfer)),
        total_us: micros_of(total),
    }
}

/// Whether a final HTTP status counts as success.
pub open spec fn is_success_status(code: u32) -> bool {
    200 <= code <= 299
}

/// A final status counts as success exactly when it lies in `200..=299`: every
/// 1xx, 3xx, 4xx and 5xx status is a failure (redirects that are not followed
/// included).
pub proof fn lemma_success_is_2xx(code: u32)
    ensures
        is_success_status(code) <==> (200 <= code && code <= 299),
        code < 200 ==> !is_success_status(code),
        300 <= code ==> !is_success_status(code),
{
}

/// The transport failure kind of a libcurl error code.
///
/// Resolving a host or proxy (5, 6) is DNS; 7 is connect; 28 is timeout;
/// 35, 51, 60 and 77 concern TLS peers and certificates; 47 is too many
/// redirects; 52 and 56 are receive failures; anything else is other.
pub open spec fn kind_of_code(code: int) -> TransportFailureKind {
    if code == 6 || code == 5 {
        TransportFailureKind::Dns
    } else if code == 7 {
        TransportFailureKind::Connect
    } else if code == 28 {
        TransportFailureKind::Timeout
    } else if code == 35 || code == 51 || code == 77 || code == 60 {
        TransportFailureKind::Tls
    } else if code == 47 {
        TransportFailureKind::Redirect
    } else if code == 56 || code == 52 {
        TransportFailureKind::Receive
    } else {
        TransportFailureKind::Other
    }
}

/// Whole microseconds in a span of nanoseconds, clamped to `u64::MAX`.
pub fn duration_to_micros(nanos: u128) -> (us: u64)
    ensures
        us == micros_of(nanos as nat),
{
    let micros = nanos / 1000;
    if micros > u64::MAX as u128 {
        u64::MAX
    } else {
        micros as u64
    }
}

/// Splits curl's cumulative timestamps (nanoseconds since the start of the
/// transfer) into phases; a phase whose end lies before its start is zero.
pub fn build_timing_sample(
    name_lookup: u128,
    connect: u128,
    app_connect: u128,
    pre_transfer: u128,
    start_transfer: u128,
    total: u128,
    is_https: bool,
) -> (t: TimingSample)
    ensures
        t == timing_of(
            name_lookup as nat,
            connect as nat,
            app_connect as nat,
            pre_transfer as nat,
            start_transfer as nat,
            total as nat,
            is_https,
        ),
{
    let tls_us = if is_https {
        Some(duration_to_micros(app_connect.saturating_sub(connect)))
    } else {
        None
    };
    TimingSample {
        dns_us: duration_to_micros(name_lookup),
        tcp_us: duration_to_micros(connect.saturating_sub(name_lookup)),
        tls_us,
        ttfb_us: duration_to_micros(start_transfer.saturating_sub(pre_transfer)),
        download_us: duration_to_micros(total.saturating_sub(start_transfer)),
        total_us: duration_to_micros(total),
    }
}

/// The transport failure kind of a libcurl error code (`curl::Error::code`).
pub fn classify_curl_error(code: i64) -> (kind: TransportFailureKind)
    ensures
        kind == kind_of_code(code as int),
{
    if code == 6 || code == 5 {
        TransportFailureKind::Dns
    } else if code == 7 {
        TransportFailureKind::Connect
    } else if code == 28 {
        TransportFailureKind::Timeout
    } else if code == 35 || code == 51 || code == 77 || code == 60 {
        TransportFailureKind::Tls
    } else if code == 47 {
        TransportFailureKind::Redirect
    } else if code == 56 || code == 52 {
        TransportFailureKind::Receive
    } else {
        TransportFailureKind::Other
    }
}

/// The body byte count after a further chunk of `chunk_len` bytes, saturating
/// at `u64::MAX`.
pub fn add_body_bytes(received: u64, chunk_len: usize) -> (total: u64)
    ensures
        total == if received + chunk_len > u64::MAX {
            u64::MAX as int
        } else {
            received + chunk_len
        },
{
    let chunk = chunk_len as u64;
    received.saturating_add(chunk)
}

/// The outcome of a transfer that completed: success exactly for a final
/// status in `200..=299`.
pub fn completed_attempt(attempt: u32, timing: TimingSample, response: ResponseMetadata) -> (r:
    AttemptResult)
    ensures
        (r is Success) <==> (200 <= response.status_code && response.status_code <= 299),
        (r is HttpFailure) <==> !(200 <= response.status_code && response.status_code <= 299),
        if is_success_status(response.status_code) {
            r == AttemptResult::Success(SuccessfulAttempt { attempt, timing, response })
        } else {
            r == AttemptResult::HttpFailure(HttpFailureAttempt { attempt, timing, response })
        },
{
    if 200 <= response.status_code && response.status_code <= 299 {
        AttemptResult::Success(SuccessfulAttempt { attempt, timing, response })
    } else {
        AttemptResult::HttpFailure(HttpFailureAttempt { attempt, timing, response })
    }
}

/// The outcome of a transfer that failed with a libcurl error code, its
/// message, and the time it took.
pub fn failed_attempt(attempt: u32, code: i64, message: String, elapsed_us: u64) -> (r:
    AttemptResult)
    ensures
        r == AttemptResult::TransportFailure(
            TransportFailureAttempt { attempt, kind: kind_of_code(code as int), message, elapsed_us },
        ),
{
    AttemptResult::TransportFailure(
        TransportFailureAttempt {
            attempt,
            kind: classify_curl_error(code),
            message,
            elapsed_us,
        },
    )
}

/// The outcome of a transfer that failed with a libcurl error code.
pub open spec fn transport_failure_of(attempt: u32, code: i64, message: String, elapsed_us: u64) -> AttemptResult {
    AttemptResult::TransportFailure(
        TransportFailureAttempt { attempt, kind: kind_of_code(code as int), message, elapsed_us },
    )
}

/// The libcurl code of a curl error.
///
/// Calls `curl::Error::code`; the error is opaque here, so nothing about the
/// code is stated.
#[verifier::external_body]
fn curl_error_code(error: &curl::Error) -> i64 {
    i64::from(error.code())
}

/// The outcome of a transfer that failed with a curl error after
/// `elapsed_us`: the kind comes from the error's libcurl code
/// (`failed_attempt`, exact in the code) and the message is the error's text.
pub fn failed_attempt_from_error(attempt: u32, error: &curl::Error, elapsed_us: u64) -> (r:
    AttemptResult)
    ensures
        exists|code: i64, message: String|
            r == #[trigger] transport_failure_of(attempt, code, message, elapsed_us),
{
    let code = curl_error_code(error);
    let message = crate::error::curl_error_text(error);
    let ghost parts = (code, message);
    let r = failed_attempt(attempt, code, message, elapsed_us);
    proof {
        assert(r == transport_failure_of(attempt, parts.0, parts.1, elapsed_us));
    }
    r
}

// Options of the handle. Each of the following calls one setter of
// `curl::easy::Easy2`, which hands the value to libcurl (`curl_easy_setopt`)
// and returns libcurl's verdict. The verdict itself is not stated; what is
// stated is the record of `ProbeHandle::settings`: an accepted option is
// appended to it, a refused one leaves it as it was.
/// Calls `Easy2::url`. That setter first copies the URL into a C string
/// (`CString::new`), so a URL holding a NUL character is refused before
/// libcurl sees it.
#[verifier::external_body]
fn set_url<H>(handle: &mut ProbeHandle<H>, url: &str) -> (r: Result<(), curl::Error>)
    ensures
        r is Ok ==> final(handle).settings() == old(handle).settings().push(CurlSetting::Url(url@)),
        r is Err ==> final(handle).settings() == old(handle).settings(),
        url@.contains('\0') ==> r is Err,
{
    handle.easy.url(url)
}

/// Calls `Easy2::get`.
#[verifier::external_body]
fn set_get<H>(handle: &mut ProbeHandle<H>, enable: bool) -> (r: Result<(), curl::Error>)
    ensures
        r is Ok ==> final(handle).settings() == old(handle).settings().push(CurlSetting::Get(enable)),
        r is Err ==> final(handle).settings() == old(handle).settings(),
{
    handle.easy.get(enable)
}

/// Calls `Easy2::useragent`.
#[verifier::external_body]
fn set_useragent<H>(handle: &mut ProbeHandle<H>, agent: &str) -> (r: Result<(), curl::Error>)
    ensures
        r is Ok ==> final(handle).settings() == old(handle).settings().push(CurlSetting::UserAgent(agent@)),
        r is Err ==> final(handle).settings() == old(handle).settings(),
{
    handle.easy.useragent(agent)
}

/// Calls `Easy2::timeout` with `ms` milliseconds.
#[verifier::external_body]
fn set_timeout_ms<H>(handle: &mut ProbeHandle<H>, ms: u64) -> (r: Result<(), curl::Error>)
    ensures
        r is Ok ==> final(handle).settings() == old(handle).settings().push(CurlSetting::TimeoutMs(ms)),
        r is Err ==> final(handle).settings() == old(handle).settings(),
{
    handle.easy.timeout(std::time::Duration::from_millis(ms))
}

/// Calls `Easy2::connect_timeout` with `ms` milliseconds.
#[verifier::external_body]
fn set_connect_timeout_ms<H>(handle: &mut ProbeHandle<H>, ms: u64) -> (r: Result<(), curl::Error>)
    ensures
        r is Ok ==> final(handle).settings() == old(handle).settings().push(CurlSetting::ConnectTimeoutMs(ms)),
        r is Err ==> final(handle).settings() == old(handle).settings(),
{
    handle.easy.connect_timeout(std::time::Duration::from_millis(ms))
}

/// Calls `Easy2::follow_location`.
#[verifier::external_body]
fn set_follow_location<H>(handle: &mut ProbeHandle<H>, enable: bool) -> (r: Result<(), curl::Error>)
    ensures
        r is Ok ==> final(handle).settings() == old(handle).settings().push(CurlSetting::FollowLocation(enable)),
        r is Err ==> final(handle).settings() == old(handle).settings(),
{
    handle.easy.follow_location(enable)
}

/// Calls `Easy2::max_redirections`.
#[verifier::external_body]
fn set_max_redirections<H>(handle: &mut ProbeHandle<H>, max: u32) -> (r: Result<(), curl::Error>)
    ensures
        r is Ok ==> final(handle).settings() == old(handle).settings().push(CurlSetting::MaxRedirections(max)),
        r is Err ==> final(handle).settings() == old(handle).settings(),
{
    handle.easy.max_redirections(max)
}

/// Calls `Easy2::fresh_connect`.
#[verifier::external_body]
fn set_fresh_connect<H>(handle: &mut ProbeHandle<H>, enable: bool) -> (r: Result<(), curl::Error>)
    ensures
        r is Ok ==> final(handle).settings() == old(handle).settings().push(CurlSetting::FreshConnect(enable)),
        r is Err ==> final(handle).settings() == old(handle).settings(),
{
    handle.easy.fresh_connect(enable)
}

/// Calls `Easy2::forbid_reuse`.
#[verifier::external_body]
fn set_forbid_reuse<H>(handle: &mut ProbeHandle<H>, enable: bool) -> (r: Result<(), curl::Error>)
    ensures
        r is Ok ==> final(handle).settings() == old(handle).settings().push(CurlSetting::ForbidReuse(enable)),
        r is Err ==> final(handle).settings() == old(handle).settings(),
{
    handle.easy.forbid_reuse(enable)
}

/// Calls `Easy2::dns_cache_timeout` with `secs` seconds.
#[verifier::external_body]
fn set_dns_cache_timeout_secs<H>(handle: &mut ProbeHandle<H>, secs: u64) -> (r: Result<(), curl::Error>)
    ensures
        r is Ok ==> final(handle).settings() == old(handle).settings().push(CurlSetting::DnsCacheTimeoutSecs(secs)),
        r is Err ==> final(handle).settings() == old(handle).settings(),
{
    handle.easy.dns_cache_timeout(std::time::Duration::from_secs(secs))
}

/// Calls `Easy2::signal`; `false` is libcurl's `CURLOPT_NOSIGNAL`.
#[verifier::external_body]
fn set_signal<H>(handle: &mut ProbeHandle<H>, enable: bool) -> (r: Result<(), curl::Error>)
    ensures
        r is Ok ==> final(handle).settings() == old(handle).settings().push(CurlSetting::Signal(enable)),
        r is Err ==> final(handle).settings() == old(handle).settings(),
{
    handle.easy.signal(enable)
}

// Measurements of the last transfer. Each of the following calls one getter
// of `curl::easy::Easy2` (`curl_easy_getinfo`); what it returns depends on the
// transfer that took place, so nothing about it is stated. Durations are
// handed back as whole nanoseconds (`Duration::as_nanos`).
/// Calls `Easy2::namelookup_time`.
#[verifier::external_body]
fn namelookup_nanos<H>(easy: &Easy2<H>) -> Result<u128, curl::Error> {
    match easy.namelookup_time() {
        Ok(d) => Ok(d.as_nanos()),
        Err(e) => Err(e),
    }
}

/// Calls `Easy2::connect_time`.
#[verifier::external_body]
fn connect_nanos<H>(easy: &Easy2<H>) -> Result<u128, curl::Error> {
    match easy.connect_time() {
        Ok(d) => Ok(d.as_nanos()),
        Err(e) => Err(e),
    }
}

/// Calls `Easy2::appconnect_time`.
#[verifier::external_body]
fn appconnect_nanos<H>(easy: &Easy2<H>) -> Result<u128, curl::Error> {
    match easy.appconnect_time() {
        Ok(d) => Ok(d.as_nanos()),
        Err(e) => Err(e),
    }
}

/// Calls `Easy2::pretransfer_time`.
#[verifier::external_body]
fn pretransfer_nanos<H>(easy: &Easy2<H>) -> Result<u128, curl::Error> {
    match easy.pretransfer_time() {
        Ok(d) => Ok(d.as_nanos()),
        Err(e) => Err(e),
    }
}

/// Calls `Easy2::starttransfer_time`.
#[verifier::external_body]
fn starttransfer_nanos<H>(easy: &Easy2<H>) -> Result<u128, curl::Error> {
    match easy.starttransfer_time() {
        Ok(d) => Ok(d.as_nanos()),
        Err(e) => Err(e),
    }
}

/// Calls `Easy2::total_time`.
#[verifier::external_body]
fn total_nanos<H>(easy: &Easy2<H>) -> Result<u128, curl::Error> {
    match easy.total_time() {
        Ok(d) => Ok(d.as_nanos()),
        Err(e) => Err(e),
    }
}

/// Calls `Easy2::response_code`.
#[verifier::external_body]
fn response_code<H>(easy: &Easy2<H>) -> Result<u32, curl::Error> {
    easy.response_code()
}

/// Calls `Easy2::primary_ip`, copying the address out of the handle.
#[verifier::external_body]
fn primary_ip<H>(easy: &Easy2<H>) -> Result<Option<String>, curl::Error> {
    match easy.primary_ip() {
        Ok(Some(ip)) => Ok(Some(ip.to_string())),
        Ok(None) => Ok(None),
        Err(e) => Err(e),
    }
}

/// The options of a cold GET probe for `config`, in the order they are set:
/// the target URL, GET, the user agent, the two timeouts, redirects as
/// configured and at most 10 of them, a fresh connection that is not reused,
/// no DNS cache, and no signals.
pub open spec fn probe_settings(config: ProbeConfig) -> Seq<CurlSetting> {
    seq![
        CurlSetting::Url(config.url@),
        CurlSetting::Get(true),
        CurlSetting::UserAgent("http-probe/0.1.0"@),
        CurlSetting::TimeoutMs(config.timeout_ms),
        CurlSetting::ConnectTimeoutMs(config.connect_timeout_ms),
        CurlSetting::FollowLocation(config.follow_redirects),
        CurlSetting::MaxRedirections(10),
        CurlSetting::FreshConnect(true),
        CurlSetting::ForbidReuse(true),
        CurlSetting::DnsCacheTimeoutSecs(0),
        CurlSetting::Signal(false),
    ]
}

/// The names of the options that `configure_handle` sets, in order.
pub open spec fn setup_operations() -> Seq<Seq<char>> {
    seq![
        "url"@,
        "get"@,
        "useragent"@,
        "timeout"@,
        "connect_timeout"@,
        "follow_location"@,
        "max_redirections"@,
        "fresh_connect"@,
        "forbid_reuse"@,
        "dns_cache_timeout"@,
        "nosignal"@,
    ]
}

fn setup_error(operation: &'static str, source: curl::Error) -> (e: AppError)
    ensures
        e == (AppError::CurlSetup { operation, source }),
{
    AppError::CurlSetup { operation, source }
}

fn timing_error(field: &'static str, source: curl::Error) -> (e: AppError)
    ensures
        e == (AppError::TimingRead { field, source }),
{
    AppError::TimingRead { field, source }
}

/// Setting the next option of `all` extends the record by it.
proof fn lemma_record_step(start: Seq<CurlSetting>, all: Seq<CurlSetting>, k: int)
    requires
        0 <= k < all.len(),
    ensures
        (start + all.take(k)).push(all[k]) == start + all.take(k + 1),
{
    assert(all.take(k + 1) =~= all.take(k).push(all[k]));
    assert((start + all.take(k)).push(all[k]) =~= start + all.take(k + 1));
}

/// Sets the options of a cold GET probe (`probe_settings`), in order. On
/// success all of them are set; otherwise the error names the first option
/// that was refused, and only the options before it are set. A URL holding a
/// NUL character is always refused.
pub fn configure_handle<H>(handle: &mut ProbeHandle<H>, config: &ProbeConfig) -> (r: Result<
    (),
    AppError,
>)
    ensures
        config.url@.contains('\0') ==> (r matches Err(AppError::CurlSetup { operation, .. })
            && operation@ == "url"@),
        match r {
            Ok(()) => final(handle).settings() == old(handle).settings() + probe_settings(*config),
            Err(AppError::CurlSetup { operation, .. }) => exists|k: int|
                0 <= k < 11 && operation@ == #[trigger] setup_operations()[k] && final(handle).settings()
                    == old(handle).settings() + probe_settings(*config).take(k),
            Err(_) => false,
        },
{
    let ghost start = handle.settings();
    let ghost all = probe_settings(*config);
    proof {
        reveal_strlit("url");
        reveal_strlit("get");
        reveal_strlit("useragent");
        reveal_strlit("timeout");
        reveal_strlit("connect_timeout");
        reveal_strlit("follow_location");
        reveal_strlit("max_redirections");
        reveal_strlit("fresh_connect");
        reveal_strlit("forbid_reuse");
        reveal_strlit("dns_cache_timeout");
        reveal_strlit("nosignal");
        reveal_strlit("http-probe/0.1.0");
        assert(setup_operations()[0] == "url"@);
        assert(setup_operations()[1] == "get"@);
        assert(setup_operations()[2] == "useragent"@);
        assert(setup_operations()[3] == "timeout"@);
        assert(setup_operations()[4] == "connect_timeout"@);
        assert(setup_operations()[5] == "follow_location"@);
        assert(setup_operations()[6] == "max_redirections"@);
        assert(setup_operations()[7] == "fresh_connect"@);
        assert(setup_operations()[8] == "forbid_reuse"@);
        assert(setup_operations()[9] == "dns_cache_timeout"@);
        assert(setup_operations()[10] == "nosignal"@);
        assert(start + all.take(0) == start);
    }
    if let Err(e) = set_url(handle, config.url.as_str()) {
        proof {
            assert(handle.settings() == start + all.take(0));
        }
        return Err(setup_error("url", e));
    }
    proof {
        lemma_record_step(start, all, 0);
    }
    if let Err(e) = set_get(handle, true) {
        proof {
            assert(handle.settings() == start + all.take(1));
        }
        return Err(setup_error("get", e));
    }
    proof {
        lemma_record_step(start, all, 1);
    }
    if let Err(e) = set_useragent(handle, "http-probe/0.1.0") {
        proof {
            assert(handle.settings() == start + all.take(2));
        }
        return Err(setup_error("useragent", e));
    }
    proof {
        lemma_record_step(start, all, 2);
    }
    if let Err(e) = set_timeout_ms(handle, config.timeout_ms) {
        proof {
            assert(handle.settings() == start + all.take(3));
        }
        return Err(setup_error("timeout", e));
    }
    proof {
        lemma_record_step(start, all, 3);
    }
    if let Err(e) = set_connect_timeout_ms(handle, config.connect_timeout_ms) {
        proof {
            assert(handle.settings() == start + all.take(4));
        }
        return Err(setup_error("connect_timeout", e));
    }
    proof {
        lemma_record_step(start, all, 4);
    }
    if let Err(e) = set_follow_location(handle, config.follow_redirects) {
        proof {
            assert(handle.settings() == start + all.take(5));
        }
        return Err(setup_error("follow_location", e));
    }
    proof {
        lemma_record_step(start, all, 5);
    }
    if let Err(e) = set_max_redirections(handle, 10) {
        proof {
            assert(handle.settings() == start + all.take(6));
        }
        return Err(setup_error("max_redirections", e));
    }
    proof {
        lemma_record_step(start, all, 6);
    }
    if let Err(e) = set_fresh_connect(handle, true) {
        proof {
            assert(handle.settings() == start + all.take(7));
        }
        return Err(setup_error("fresh_connect", e));
    }
    proof {
        lemma_record_step(start, all, 7);
    }
    if let Err(e) = set_forbid_reuse(handle, true) {
        proof {
            assert(handle.settings() == start + all.take(8));
        }
        return Err(setup_error("forbid_reuse", e));
    }
    proof {
        lemma_record_step(start, all, 8);
    }
    if let Err(e) = set_dns_cache_timeout_secs(handle, 0) {
        proof {
            assert(handle.settings() == start + all.take(9));
        }
        return Err(setup_error("dns_cache_timeout", e));
    }
    proof {
        lemma_record_step(start, all, 9);
    }
    if let Err(e) = set_signal(handle, false) {
        proof {
            assert(handle.settings() == start + all.take(10));
        }
        return Err(setup_error("nosignal", e));
    }
    proof {
        lemma_record_step(start, all, 10);
    }
    proof {
        assert(all.take(11) =~= all);
    }
    Ok(())
}

/// What the six timestamp reads of a transfer come to, in the order
/// name lookup, connect, app connect, pre-transfer, start transfer, total: the
/// error of the first read that failed, naming its measurement, or the phases
/// of the six values.
pub open spec fn timing_result(
    name_lookup: Result<u128, curl::Error>,
    connect: Result<u128, curl::Error>,
    app_connect: Result<u128, curl::Error>,
    pre_transfer: Result<u128, curl::Error>,
    start_transfer: Result<u128, curl::Error>,
    total: Result<u128, curl::Error>,
    is_https: bool,
) -> Result<TimingSample, AppError> {
    match name_lookup {
        Err(err) => Err(AppError::TimingRead { field: "namelookup_time", source: err }),
        Ok(a) => {
            match connect {
                Err(err) => Err(AppError::TimingRead { field: "connect_time", source: err }),
                Ok(b) => {
                    match app_connect {
                        Err(err) => Err(AppError::TimingRead { field: "appconnect_time", source: err }),
                        Ok(c) => {
                            match pre_transfer {
                                Err(err) => Err(AppError::TimingRead { field: "pretransfer_time", source: err }),
                                Ok(d) => {
                                    match start_transfer {
                                        Err(err) => Err(AppError::TimingRead { field: "starttransfer_time", source: err }),
                                        Ok(e) => {
                                            match total {
                                                Err(err) => Err(AppError::TimingRead { field: "total_time", source: err }),
                                                Ok(f) => {
                                                    Ok(timing_of(a as nat, b as nat, c as nat, d as nat, e as nat, f as nat, is_https))
                                                },
                                            }
                                        },
                                    }
                                },
                            }
                        },
                    }
                },
            }
        },
    }
}

/// The timing of a transfer from its six timestamp reads (see
/// `timing_result`): the first failed read becomes a `TimingRead` error naming
/// it, else the values are split into phases.
pub fn timing_from_reads(
    name_lookup: Result<u128, curl::Error>,
    connect: Result<u128, curl::Error>,
    app_connect: Result<u128, curl::Error>,
    pre_transfer: Result<u128, curl::Error>,
    start_transfer: Result<u128, curl::Error>,
    total: Result<u128, curl::Error>,
    is_https: bool,
) -> (r: Result<TimingSample, AppError>)
    ensures
        r == timing_result(name_lookup, connect, app_connect, pre_transfer, start_transfer, total, is_https),
{
    let a = match name_lookup {
        Ok(v) => v,
        Err(err) => return Err(timing_error("namelookup_time", err)),
    };
    let b = match connect {
        Ok(v) => v,
        Err(err) => return Err(timing_error("connect_time", err)),
    };
    let c = match app_connect {
        Ok(v) => v,
        Err(err) => return Err(timing_error("appconnect_time", err)),
    };
    let d = match pre_transfer {
        Ok(v) => v,
        Err(err) => return Err(timing_error("pretransfer_time", err)),
    };
    let e = match start_transfer {
        Ok(v) => v,
        Err(err) => return Err(timing_error("starttransfer_time", err)),
    };
    let f = match total {
        Ok(v) => v,
        Err(err) => return Err(timing_error("total_time", err)),
    };
    Ok(build_timing_sample(a, b, c, d, e, f, is_https))
}

/// Reads the six cumulative timestamps of the last transfer and hands them to
/// `timing_from_reads`: the first refused read is named in the error, else the
/// timestamps are split into phases.
pub fn read_timing<H>(easy: &Easy2<H>, is_https: bool) -> (r: Result<TimingSample, AppError>)
    ensures
        exists|
            r1: Result<u128, curl::Error>,
            r2: Result<u128, curl::Error>,
            r3: Result<u128, curl::Error>,
            r4: Result<u128, curl::Error>,
            r5: Result<u128, curl::Error>,
            r6: Result<u128, curl::Error>,
        | r == #[trigger] timing_result(r1, r2, r3, r4, r5, r6, is_https),
{
    let name_lookup = namelookup_nanos(easy);
    let connect = connect_nanos(easy);
    let app_connect = appconnect_nanos(easy);
    let pre_transfer = pretransfer_nanos(easy);
    let start_transfer = starttransfer_nanos(easy);
    let total = total_nanos(easy);
    let ghost reads = (name_lookup, connect, app_connect, pre_transfer, start_transfer, total);
    let r = timing_from_reads(name_lookup, connect, app_connect, pre_transfer, start_transfer, total, is_https);
    proof {
        assert(r == timing_result(reads.0, reads.1, reads.2, reads.3, reads.4, reads.5, is_https));
    }
    r
}

/// What the status and address reads of a transfer come to: a failed status
/// read is an error naming `response_code`; otherwise the metadata holds the
/// status, the address (left out when its read failed) and the body size.
pub open spec fn response_result(
    code: Result<u32, curl::Error>,
    ip: Result<Option<String>, curl::Error>,
    downloaded_bytes: u64,
) -> Result<ResponseMetadata, AppError> {
    match code {
        Err(e) => Err(AppError::TimingRead { field: "response_code", source: e }),
        Ok(c) => Ok(
            ResponseMetadata {
                status_code: c,
                primary_ip: match ip {
                    Ok(i) => i,
                    Err(_) => None,
                },
                downloaded_bytes,
            },
        ),
    }
}

/// The response metadata of a transfer from its status and address reads
/// (see `response_result`).
pub fn response_from_reads(
    code: Result<u32, curl::Error>,
    ip: Result<Option<String>, curl::Error>,
    downloaded_bytes: u64,
) -> (r: Result<ResponseMetadata, AppError>)
    ensures
        r == response_result(code, ip, downloaded_bytes),
{
    let status_code = match code {
        Ok(c) => c,
        Err(e) => return Err(timing_error("response_code", e)),
    };
    let primary_ip = match ip {
        Ok(i) => i,
        Err(_) => None,
    };
    Ok(ResponseMetadata { status_code, primary_ip, downloaded_bytes })
}

/// Reads the final status and the address of the last transfer and hands them
/// to `response_from_reads`; the body size is counted by the caller's handler.
/// An address that cannot be read is left out; a status that cannot be read is
/// an error.
pub fn read_response_metadata<H>(easy: &Easy2<H>, downloaded_bytes: u64) -> (r: Result<
    ResponseMetadata,
    AppError,
>)
    ensures
        exists|c: Result<u32, curl::Error>, i: Result<Option<String>, curl::Error>|
            r == #[trigger] response_result(c, i, downloaded_bytes),
{
    let code = response_code(easy);
    let ip = primary_ip(easy);
    let ghost reads = (code, ip);
    let r = response_from_reads(code, ip, downloaded_bytes);
    proof {
        assert(r == response_result(reads.0, reads.1, downloaded_bytes));
    }
    r
}


proof fn lemma_floor_sum(a: nat, b: nat)
    ensures
        a / 1000 + b / 1000 <= (a + b) / 1000,
{
    vstd::arithmetic::div_mod::lemma_fundamental_div_mod(a as int, 1000);
    vstd::arithmetic::div_mod::lemma_fundamental_div_mod(b as int, 1000);
    vstd::arithmetic::div_mod::lemma_fundamental_div_mod((a + b) as int, 1000);
    vstd::arithmetic::div_mod::lemma_mod_pos_bound(a as int, 1000);
    vstd::arithmetic::div_mod::lemma_mod_pos_bound(b as int, 1000);
    vstd::arithmetic::div_mod::lemma_mod_pos_bound((a + b) as int, 1000);
}

/// When curl's timestamps come in transfer order, the phases never add up to
/// more than the total (HTTPS counts its TLS phase too). This holds while the
/// total fits in `u64` microseconds.
pub proof fn lemma_phases_within_total(
    name_lookup: nat,
    connect: nat,
    app_connect: nat,
    pre_transfer: nat,
    start_transfer: nat,
    total: nat,
    is_https: bool,
)
    requires
        name_lookup <= connect <= app_connect <= pre_transfer <= start_transfer <= total,
        total / 1000 <= u64::MAX,
    ensures
        ({
            let t = timing_of(name_lookup, connect, app_connect, pre_transfer, start_transfer, total, is_https);
            let tls: int = match t.tls_us {
                Some(v) => v as int,
                None => 0,
            };
            t.dns_us + t.tcp_us + tls + t.ttfb_us + t.download_us <= t.total_us
        }),
{
    let d_tcp = (connect - name_lookup) as nat;
    let d_tls = (app_connect - connect) as nat;
    let d_ttfb = (start_transfer - pre_transfer) as nat;
    let d_dl = (total - start_transfer) as nat;
    let gap = (pre_transfer - app_connect) as nat;
    lemma_floor_sum(name_lookup, d_tcp);
    lemma_floor_sum(name_lookup + d_tcp, d_tls);
    lemma_floor_sum(name_lookup + d_tcp + d_tls, gap);
    lemma_floor_sum(name_lookup + d_tcp + d_tls + gap, d_ttfb);
    lemma_floor_sum(name_lookup + d_tcp + d_tls + gap + d_ttfb, d_dl);
    assert(name_lookup + d_tcp + d_tls + gap + d_ttfb + d_dl == total);
    vstd::arithmetic::div_mod::lemma_div_pos_is_pos(gap as int, 1000);
    assert(connect / 1000 <= total / 1000) by {
        vstd::arithmetic::div_mod::lemma_div_is_ordered(connect as int, total as int, 1000);
    }
    vstd::arithmetic::div_mod::lemma_div_is_ordered(name_lookup as int, total as int, 1000);
    vstd::arithmetic::div_mod::lemma_div_is_ordered(d_tcp as int, total as int, 1000);
    vstd::arithmetic::div_mod::lemma_div_is_ordered(d_tls as int, total as int, 1000);
    vstd::arithmetic::div_mod::lemma_div_is_ordered(d_ttfb as int, total as int, 1000);
    vstd::arithmetic::div_mod::lemma_div_is_ordered(d_dl as int, total as int, 1000);
}

} // verus!
