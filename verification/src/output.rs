//! The text of the report and of the per-attempt lines.

use vstd::prelude::*;
use vstd::string::*;

use std::collections::BTreeMap;

use vstd::std_specs::iter::IteratorSpec;

use crate::model::{
    kind_label, kinds_ascending, kind_verbose_label, AttemptResult, ResponseMetadata, RunSummary, TimingSample,
    TransportFailureKind,
};
use crate::ordered::{ascending_keys, entry_keys, lemma_map_iter_entries};
use crate::probe::is_success_status;
use crate::stats::MetricStats;
use crate::text::{
    decimal, millis_text, pad_left, pad_right, push_decimal, push_millis, push_padded_left,
    push_padded_right, push_str,
};

verus! {

/// Rust's `Debug` rendering of a string: the text in double quotes, with
/// quotes, backslashes and non-printable characters escaped.
pub uninterp spec fn debug_rendering(s: Seq<char>) -> Seq<char>;

/// Renders a string as Rust's `Debug` does.
///
/// Calls `<str as Debug>::fmt` through `format!`; the result is named by
/// `debug_rendering` and nothing more is stated of it.
#[verifier::external_body]
fn debug_string(s: &str) -> (r: String)
    ensures
        r@ == debug_rendering(s@),
{
    format!("{:?}", s)
}

/// A microsecond count as milliseconds with three decimals and the unit.
pub open spec fn ms_text(us: nat) -> Seq<char> {
    millis_text(us) + "ms"@
}

/// The address shown for a response: the address, or `-` when unknown.
pub open spec fn ip_text(ip: Option<String>) -> Seq<char> {
    match ip {
        Some(s) => s@,
        None => "-"@,
    }
}

/// The part of a verbose line shared by completed transfers.
pub open spec fn completed_line(
    attempt: u32,
    requested: u32,
    outcome: Seq<char>,
    timing: TimingSample,
    response: ResponseMetadata,
) -> Seq<char> {
    "["@ + decimal(attempt as nat) + "/"@ + decimal(requested as nat) + "] "@ + outcome
        + " status="@ + decimal(response.status_code as nat) + " total="@ + ms_text(
        timing.total_us as nat,
    ) + " ip="@ + ip_text(response.primary_ip) + " bytes="@ + decimal(
        response.downloaded_bytes as nat,
    ) + "\n"@
}

/// The verbose line of one attempt, with its newline.
pub open spec fn verbose_line(result: AttemptResult, requested: u32) -> Seq<char> {
    match result {
        AttemptResult::Success(a) => completed_line(
            a.attempt,
            requested,
            "success"@,
            a.timing,
            a.response,
        ),
        AttemptResult::HttpFailure(a) => completed_line(
            a.attempt,
            requested,
            "failure"@,
            a.timing,
            a.response,
        ),
        AttemptResult::TransportFailure(a) => "["@ + decimal(a.attempt as nat) + "/"@ + decimal(
            requested as nat,
        ) + "] failure kind="@ + kind_verbose_label(a.kind) + " elapsed="@ + ms_text(
            a.elapsed_us as nat,
        ) + " error="@ + debug_rendering(a.message@) + "\n"@,
    }
}

/// A microsecond count as milliseconds with three decimals, e.g. `1.234ms`.
pub fn format_ms_u64(microseconds: u64) -> (r: String)
    ensures
        r@ == ms_text(microseconds as nat),
{
    let mut r = String::new();
    push_millis(&mut r, microseconds);
    push_str(&mut r, "ms");
    r
}

fn push_completed(
    out: &mut String,
    attempt: u32,
    requested: u32,
    outcome: &str,
    timing: &TimingSample,
    response: &ResponseMetadata,
)
    ensures
        final(out)@ == old(out)@ + completed_line(attempt, requested, outcome@, *timing, *response),
{
    push_str(out, "[");
    push_decimal(out, attempt as u64);
    push_str(out, "/");
    push_decimal(out, requested as u64);
    push_str(out, "] ");
    push_str(out, outcome);
    push_str(out, " status=");
    push_decimal(out, response.status_code as u64);
    push_str(out, " total=");
    push_millis(out, timing.total_us);
    push_str(out, "ms");
    push_str(out, " ip=");
    match &response.primary_ip {
        Some(ip) => push_str(out, ip.as_str()),
        None => push_str(out, "-"),
    }
    push_str(out, " bytes=");
    push_decimal(out, response.downloaded_bytes);
    push_str(out, "\n");
    proof {
        reveal_strlit("-");
    }
}

/// Appends the verbose line of one attempt, with its newline.
pub fn write_verbose_attempt(result: &AttemptResult, requested_attempts: u32, out: &mut String)
    ensures
        final(out)@ == old(out)@ + verbose_line(*result, requested_attempts),
{
    proof {
        reveal_strlit("success");
        reveal_strlit("failure");
    }
    match result {
        AttemptResult::Success(a) => {
            push_completed(out, a.attempt, requested_attempts, "success", &a.timing, &a.response);
        },
        AttemptResult::HttpFailure(a) => {
            push_completed(out, a.attempt, requested_attempts, "failure", &a.timing, &a.response);
        },
        AttemptResult::TransportFailure(a) => {
            push_str(out, "[");
            push_decimal(out, a.attempt as u64);
            push_str(out, "/");
            push_decimal(out, requested_attempts as u64);
            push_str(out, "] failure kind=");
            push_str(out, a.kind.verbose_label());
            push_str(out, " elapsed=");
            push_millis(out, a.elapsed_us);
            push_str(out, "ms");
            push_str(out, " error=");
            let quoted = debug_string(a.message.as_str());
            push_str(out, quoted.as_str());
            push_str(out, "\n");
        },
    }
}


/// The mean and median of one phase, already rendered as milliseconds.
///
/// These two figures are fractional; they are rendered outside the library
/// and handed in as text.
#[derive(Debug, Clone)]
pub struct MetricText {
    pub average: String,
    pub median: String,
}

/// The rendered means and medians of every phase of a latency summary.
#[derive(Debug, Clone)]
pub struct LatencyText {
    pub dns: MetricText,
    pub tcp: MetricText,
    pub tls: Option<MetricText>,
    pub ttfb: MetricText,
    pub download: MetricText,
    pub total: MetricText,
}

/// A row of the latency table: the label in 16 columns, then six cells
/// right-aligned in 9 columns each, separated by single spaces.
#[verifier::opaque]
pub open spec fn table_row(
    label: Seq<char>,
    c1: Seq<char>,
    c2: Seq<char>,
    c3: Seq<char>,
    c4: Seq<char>,
    c5: Seq<char>,
    c6: Seq<char>,
) -> Seq<char> {
    pad_right(label, 16) + " "@ + pad_left(c1, 9) + " "@ + pad_left(c2, 9) + " "@ + pad_left(c3, 9)
        + " "@ + pad_left(c4, 9) + " "@ + pad_left(c5, 9) + " "@ + pad_left(c6, 9) + "\n"@
}

/// The heading row of the latency table.
#[verifier::opaque]
pub open spec fn heading_row() -> Seq<char> {
    table_row("Phase"@, "Min"@, "Avg"@, "Median"@, "P95"@, "P99"@, "Max"@)
}

/// The row of one phase: min, mean, median, P95, P99, max in milliseconds.
#[verifier::opaque]
pub open spec fn metric_row(label: Seq<char>, m: MetricStats, t: MetricText) -> Seq<char> {
    table_row(
        label,
        millis_text(m.min_us as nat),
        t.average@,
        t.median@,
        millis_text(m.p95_us as nat),
        millis_text(m.p99_us as nat),
        millis_text(m.max_us as nat),
    )
}

/// The row of a phase without figures.
#[verifier::opaque]
pub open spec fn empty_row(label: Seq<char>) -> Seq<char> {
    table_row(label, "-"@, "-"@, "-"@, "-"@, "-"@, "-"@)
}

/// A count row: the key in 16 columns and the count right-aligned in 9.
#[verifier::opaque]
pub open spec fn count_row(key: Seq<char>, count: u32) -> Seq<char> {
    pad_right(key, 16) + " "@ + pad_left(decimal(count as nat), 9) + "\n"@
}

/// The failure rows of the given statuses that are not successes, in order:
/// `HTTP <status>:` and the count.
pub open spec fn failed_status_rows(codes: Seq<u32>, m: Map<u32, u32>) -> Seq<char>
    decreases codes.len(),
{
    if codes.len() == 0 {
        Seq::empty()
    } else {
        let code = codes.last();
        failed_status_rows(codes.drop_last(), m) + if is_success_status(code) {
            Seq::empty()
        } else {
            count_row("HTTP "@ + decimal(code as nat) + ":"@, m[code])
        }
    }
}

/// The failure rows of the transport failure kinds, in order: the kind's
/// name with a colon, and the count.
pub open spec fn kind_rows_text(rows: Seq<(TransportFailureKind, u32)>) -> Seq<char>
    decreases rows.len(),
{
    if rows.len() == 0 {
        Seq::empty()
    } else {
        kind_rows_text(rows.drop_last()) + count_row(kind_label(rows.last().0) + ":"@, rows.last().1)
    }
}

/// The opening lines of the report, up to the blank line after the redirect
/// setting. `failure_rate` is the rate already rendered with two decimals.
pub open spec fn header_section(s: RunSummary, failure_rate: Seq<char>) -> Seq<char> {
    "HTTP Latency Probe\n"@ + "Target:           "@ + s.target@ + "\n"@
        + "Measurement:      fresh DNS and connection per attempt\n"@ + "Attempts:         "@
        + decimal(s.requested_attempts as nat) + "\n"@ + "Successful:       "@ + decimal(
        s.successful_attempts as nat,
    ) + "\n"@ + "Failed:           "@ + decimal(s.failed_attempts as nat) + "\n"@
        + "Failure rate:     "@ + failure_rate + "%\n"@ + "HTTP redirects:   "@ + (if s.follow_redirects {
        "enabled"@
    } else {
        "disabled"@
    }) + "\n"@ + "\n"@
}

/// The TLS row: figures only for HTTPS targets that have TLS statistics.
#[verifier::opaque]
pub open spec fn tls_row(is_https: bool, m: Option<MetricStats>, t: Option<MetricText>) -> Seq<char> {
    if is_https && m is Some && t is Some {
        metric_row("TLS handshake"@, m->Some_0, t->Some_0)
    } else {
        empty_row("TLS handshake"@)
    }
}

/// The latency table of a run with successful attempts.
pub open spec fn latency_table(l: crate::model::LatencySummary, t: LatencyText, is_https: bool) -> Seq<char> {
    "Latency statistics for successful requests (milliseconds)\n"@ + "\n"@ + heading_row()
        + metric_row("DNS"@, l.dns, t.dns) + metric_row("TCP connection"@, l.tcp, t.tcp) + tls_row(
        is_https,
        l.tls,
        t.tls,
    ) + metric_row("TTFB"@, l.ttfb, t.ttfb) + metric_row("Body transfer"@, l.download, t.download)
        + metric_row("Total"@, l.total, t.total)
}

/// The latency part of the report.
pub open spec fn latency_section(s: RunSummary, lt: Option<LatencyText>) -> Seq<char> {
    match s.latency {
        Some(l) => latency_table(l, lt->Some_0, s.is_https),
        None => "Latency statistics: unavailable because no request succeeded.\n"@,
    }
}

/// The failure part of the report.
pub open spec fn failures_section(s: RunSummary) -> Seq<char> {
    if s.failed_attempts == 0 {
        "Failures: none\n"@
    } else {
        "Failures\n"@ + failed_status_rows(ascending_keys(s.status_counts@), s.status_counts@)
            + kind_rows_text(s.transport_failure_counts@)
    }
}

/// The whole report.
pub open spec fn report_text(s: RunSummary, failure_rate: Seq<char>, lt: Option<LatencyText>) -> Seq<
    char,
> {
    header_section(s, failure_rate) + latency_section(s, lt) + "\n"@ + failures_section(s)
}

/// The rendered means and medians cover the statistics of the summary.
pub open spec fn texts_cover(latency: Option<crate::model::LatencySummary>, lt: Option<LatencyText>) -> bool {
    &&& (latency is Some <==> lt is Some)
    &&& (latency matches Some(l) ==> (l.tls is Some ==> lt->Some_0.tls is Some))
}

fn push_table_row(
    out: &mut String,
    label: &str,
    c1: &str,
    c2: &str,
    c3: &str,
    c4: &str,
    c5: &str,
    c6: &str,
)
    ensures
        final(out)@ == old(out)@ + table_row(label@, c1@, c2@, c3@, c4@, c5@, c6@),
{
    proof {
        reveal(table_row);
        reveal_strlit(" ");
        reveal_strlit("\n");
    }
    push_padded_right(out, label, 16);
    push_str(out, " ");
    push_padded_left(out, c1, 9);
    push_str(out, " ");
    push_padded_left(out, c2, 9);
    push_str(out, " ");
    push_padded_left(out, c3, 9);
    push_str(out, " ");
    push_padded_left(out, c4, 9);
    push_str(out, " ");
    push_padded_left(out, c5, 9);
    push_str(out, " ");
    push_padded_left(out, c6, 9);
    push_str(out, "\n");
}

/// A microsecond count as milliseconds with three decimals, without the unit.
fn format_table_ms_u64(microseconds: u64) -> (r: String)
    ensures
        r@ == millis_text(microseconds as nat),
{
    let mut r = String::new();
    push_millis(&mut r, microseconds);
    r
}

fn print_metric_row(out: &mut String, label: &str, stats: &MetricStats, text: &MetricText)
    ensures
        final(out)@ == old(out)@ + metric_row(label@, *stats, *text),
{
    proof {
        reveal(metric_row);
    }
    let min = format_table_ms_u64(stats.min_us);
    let p95 = format_table_ms_u64(stats.p95_us);
    let p99 = format_table_ms_u64(stats.p99_us);
    let max = format_table_ms_u64(stats.max_us);
    push_table_row(
        out,
        label,
        min.as_str(),
        text.average.as_str(),
        text.median.as_str(),
        p95.as_str(),
        p99.as_str(),
        max.as_str(),
    );
}

fn print_empty_metric_row(out: &mut String, label: &str)
    ensures
        final(out)@ == old(out)@ + empty_row(label@),
{
    proof {
        reveal(empty_row);
        reveal_strlit("-");
    }
    push_table_row(out, label, "-", "-", "-", "-", "-", "-");
}

fn push_count_row(out: &mut String, key: &str, count: u32)
    ensures
        final(out)@ == old(out)@ + count_row(key@, count),
{
    proof {
        reveal(count_row);
        reveal_strlit(" ");
        reveal_strlit("\n");
    }
    push_padded_right(out, key, 16);
    push_str(out, " ");
    let c = crate::text::decimal_string(count as u64);
    push_padded_left(out, c.as_str(), 9);
    push_str(out, "\n");
}

/// Appends one failure row per status outside `200..=299`, in ascending order.
fn push_failed_status_rows(out: &mut String, m: &BTreeMap<u32, u32>)
    ensures
        final(out)@ == old(out)@ + failed_status_rows(ascending_keys(m@), m@),
{
    let ghost start = out@;
    let iter = m.iter();
    let ghost all = iter.remaining();
    proof {
        lemma_map_iter_entries(m, all);
        reveal_strlit("HTTP ");
        reveal_strlit(":");
    }
    for p in it: iter
        invariant
            it.seq() == all,
            entry_keys(all) == ascending_keys(m@),
            forall|i: int| 0 <= i < all.len() ==> m@.contains_key(*all[i].0) && m@[*all[i].0] == *all[i].1,
            out@ == start + failed_status_rows(entry_keys(all).take(it.index() as int), m@),
    {
        let (code, count) = p;
        let ghost idx = it.index();
        proof {
            assert(entry_keys(all).take(idx + 1).drop_last() == entry_keys(all).take(idx as int));
        }
        if !(200 <= *code && *code <= 299) {
            let mut key = String::new();
            push_str(&mut key, "HTTP ");
            push_decimal(&mut key, *code as u64);
            push_str(&mut key, ":");
            push_count_row(out, key.as_str(), *count);
        }
    }
    proof {
        assert(entry_keys(all).take(all.len() as int) == entry_keys(all));
    }
}

/// Appends one failure row per transport failure kind in the table.
fn push_kind_rows(out: &mut String, rows: &Vec<(TransportFailureKind, u32)>)
    ensures
        final(out)@ == old(out)@ + kind_rows_text(rows@),
{
    proof {
        reveal_strlit(":");
    }
    let ghost start = out@;
    let mut i: usize = 0;
    while i < rows.len()
        invariant
            i <= rows@.len(),
            out@ == start + kind_rows_text(rows@.take(i as int)),
        decreases rows@.len() - i,
    {
        proof {
            assert(rows@.take(i + 1).drop_last() == rows@.take(i as int));
        }
        let (kind, count) = rows[i];
        let mut key = String::new();
        push_str(&mut key, kind.label());
        push_str(&mut key, ":");
        push_count_row(out, key.as_str(), count);
        i = i + 1;
    }
    proof {
        assert(rows@.take(rows@.len() as int) == rows@);
    }
}

fn push_header(out: &mut String, summary: &RunSummary, failure_rate: &str)
    ensures
        final(out)@ == old(out)@ + header_section(*summary, failure_rate@),
{
    proof {
        reveal_strlit("HTTP Latency Probe\n");
        reveal_strlit("Target:           ");
        reveal_strlit("\n");
        reveal_strlit("Measurement:      fresh DNS and connection per attempt\n");
        reveal_strlit("Attempts:         ");
        reveal_strlit("Successful:       ");
        reveal_strlit("Failed:           ");
        reveal_strlit("Failure rate:     ");
        reveal_strlit("%\n");
        reveal_strlit("HTTP redirects:   ");
        reveal_strlit("enabled");
        reveal_strlit("disabled");
    }
    push_str(out, "HTTP Latency Probe\n");
    push_str(out, "Target:           ");
    push_str(out, summary.target.as_str());
    push_str(out, "\n");
    push_str(out, "Measurement:      fresh DNS and connection per attempt\n");
    push_str(out, "Attempts:         ");
    push_decimal(out, summary.requested_attempts as u64);
    push_str(out, "\n");
    push_str(out, "Successful:       ");
    push_decimal(out, summary.successful_attempts as u64);
    push_str(out, "\n");
    push_str(out, "Failed:           ");
    push_decimal(out, summary.failed_attempts as u64);
    push_str(out, "\n");
    push_str(out, "Failure rate:     ");
    push_str(out, failure_rate);
    push_str(out, "%\n");
    push_str(out, "HTTP redirects:   ");
    if summary.follow_redirects {
        push_str(out, "enabled");
    } else {
        push_str(out, "disabled");
    }
    push_str(out, "\n");
    push_str(out, "\n");
}

fn push_tls_row(
    out: &mut String,
    is_https: bool,
    m: &Option<MetricStats>,
    t: &Option<MetricText>,
)
    ensures
        final(out)@ == old(out)@ + tls_row(is_https, *m, *t),
{
    proof {
        reveal(tls_row);
        reveal_strlit("TLS handshake");
    }
    if is_https {
        match (m, t) {
            (Some(m), Some(mt)) => print_metric_row(out, "TLS handshake", m, mt),
            _ => print_empty_metric_row(out, "TLS handshake"),
        }
    } else {
        print_empty_metric_row(out, "TLS handshake");
    }
}

#[verifier::rlimit(40)]
fn push_latency_table(
    out: &mut String,
    l: &crate::model::LatencySummary,
    t: &LatencyText,
    is_https: bool,
)
    ensures
        final(out)@ == old(out)@ + latency_table(*l, *t, is_https),
{
    let ghost s0 = out@;
    proof {
        reveal_strlit("Latency statistics for successful requests (milliseconds)\n");
        reveal_strlit("\n");
        reveal_strlit("Phase");
        reveal_strlit("Min");
        reveal_strlit("Avg");
        reveal_strlit("Median");
        reveal_strlit("P95");
        reveal_strlit("P99");
        reveal_strlit("Max");
        reveal_strlit("DNS");
        reveal_strlit("TCP connection");
        reveal_strlit("TTFB");
        reveal_strlit("Body transfer");
        reveal_strlit("Total");
    }
    push_str(out, "Latency statistics for successful requests (milliseconds)\n");
    push_str(out, "\n");
    push_table_row(out, "Phase", "Min", "Avg", "Median", "P95", "P99", "Max");
    proof {
        reveal(heading_row);
    }
    let ghost s1 = out@;
    print_metric_row(out, "DNS", &l.dns, &t.dns);
    print_metric_row(out, "TCP connection", &l.tcp, &t.tcp);
    push_tls_row(out, is_https, &l.tls, &t.tls);
    let ghost s2 = out@;
    print_metric_row(out, "TTFB", &l.ttfb, &t.ttfb);
    print_metric_row(out, "Body transfer", &l.download, &t.download);
    print_metric_row(out, "Total", &l.total, &t.total);
    proof {
        let head = "Latency statistics for successful requests (milliseconds)\n"@ + "\n"@ + heading_row();
        let mid = metric_row("DNS"@, l.dns, t.dns) + metric_row("TCP connection"@, l.tcp, t.tcp)
            + tls_row(is_https, l.tls, t.tls);
        let tail = metric_row("TTFB"@, l.ttfb, t.ttfb) + metric_row("Body transfer"@, l.download, t.download)
            + metric_row("Total"@, l.total, t.total);
        assert(s1 =~= s0 + head);
        assert(s2 =~= s1 + mid);
        assert(out@ =~= s2 + tail);
        assert(latency_table(*l, *t, is_https) =~= head + mid + tail);
        vstd::seq_lib::lemma_concat_associative(s0, head, mid);
        vstd::seq_lib::lemma_concat_associative(s0, head + mid, tail);
    }
}

fn push_latency(out: &mut String, summary: &RunSummary, latency_text: &Option<LatencyText>)
    requires
        texts_cover(summary.latency, *latency_text),
    ensures
        final(out)@ == old(out)@ + latency_section(*summary, *latency_text),
{
    proof {
        reveal_strlit("Latency statistics: unavailable because no request succeeded.\n");
    }
    match (&summary.latency, latency_text) {
        (Some(l), Some(t)) => {
            push_latency_table(out, l, t, summary.is_https);
        },
        _ => {
            push_str(out, "Latency statistics: unavailable because no request succeeded.\n");
        },
    }
}

/// Appends the report of a run.
///
/// `failure_rate` is the failure rate in percent rendered with two decimals,
/// and `latency_text` the rendered means and medians of the latency summary;
/// everything else is rendered here.
pub fn write_report(
    summary: &RunSummary,
    failure_rate: &str,
    latency_text: &Option<LatencyText>,
    out: &mut String,
)
    requires
        texts_cover(summary.latency, *latency_text),
        kinds_ascending(summary.transport_failure_counts@),
    ensures
        final(out)@ == old(out)@ + report_text(*summary, failure_rate@, *latency_text),
{
    let ghost start = out@;
    push_header(out, summary, failure_rate);
    let ghost after_header = out@;
    push_latency(out, summary, latency_text);
    let ghost after_latency = out@;
    proof {
        reveal_strlit("\n");
        reveal_strlit("Failures: none\n");
        reveal_strlit("Failures\n");
    }
    push_str(out, "\n");
    if summary.failed_attempts == 0 {
        push_str(out, "Failures: none\n");
    } else {
        push_str(out, "Failures\n");
        push_failed_status_rows(out, &summary.status_counts);
        push_kind_rows(out, &summary.transport_failure_counts);
    }
    proof {
        assert(out@ == start + report_text(*summary, failure_rate@, *latency_text));
    }
}

/// An HTTP target shows its TLS row as unavailable, whatever statistics it
/// has.
pub proof fn lemma_http_tls_unavailable(m: Option<MetricStats>, t: Option<MetricText>)
    ensures
        tls_row(false, m, t) == empty_row("TLS handshake"@),
{
    reveal(tls_row);
}

/// The failure section says "Failures: none" exactly when no attempt failed.
pub proof fn lemma_no_failures_line(s: RunSummary)
    ensures
        (failures_section(s) == "Failures: none\n"@) <==> s.failed_attempts == 0,
{
    if s.failed_attempts != 0 {
        reveal_strlit("Failures: none\n");
        reveal_strlit("Failures\n");
        let t = failures_section(s);
        assert(t[8] == '\n');
        assert("Failures: none\n"@[8] == ':');
    }
}

} // verus!
