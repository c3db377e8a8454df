//! The records that one probe attempt produces, and the summary of a run.

use std::collections::BTreeMap;

use vstd::prelude::*;

use crate::stats::MetricStats;

verus! {

/// Phase timings of one completed transfer, in whole microseconds.
#[derive(Debug, Clone, Copy)]
pub struct TimingSample {
    pub dns_us: u64,
    pub tcp_us: u64,
    /// Present exactly for HTTPS targets.
    pub tls_us: Option<u64>,
    pub ttfb_us: u64,
    pub download_us: u64,
    pub total_us: u64,
}

/// What the final response of a completed transfer looked like.
#[derive(Debug, Clone)]
pub struct ResponseMetadata {
    pub status_code: u32,
    pub primary_ip: Option<String>,
    pub downloaded_bytes: u64,
}

/// A completed transfer whose final status was in `200..=299`.
#[derive(Debug, Clone)]
pub struct SuccessfulAttempt {
    pub attempt: u32,
    pub timing: TimingSample,
    pub response: ResponseMetadata,
}

/// A completed transfer whose final status was outside `200..=299`.
#[derive(Debug, Clone)]
pub struct HttpFailureAttempt {
    pub attempt: u32,
    pub timing: TimingSample,
    pub response: ResponseMetadata,
}

/// Why a transfer did not complete.
#[derive(Debug, Clone, Copy, PartialEq, Eq, PartialOrd, Ord, Structural)]
pub enum TransportFailureKind {
    Dns,
    Connect,
    Timeout,
    Tls,
    Redirect,
    Receive,
    Other,
}

/// Position of a kind in the declaration order, which is also the order of the
/// failure table.
pub open spec fn kind_rank(kind: TransportFailureKind) -> nat {
    match kind {
        TransportFailureKind::Dns => 0,
        TransportFailureKind::Connect => 1,
        TransportFailureKind::Timeout => 2,
        TransportFailureKind::Tls => 3,
        TransportFailureKind::Redirect => 4,
        TransportFailureKind::Receive => 5,
        TransportFailureKind::Other => 6,
    }
}

/// The kind at a given rank; the inverse of `kind_rank`.
pub open spec fn kind_at_rank(rank: nat) -> TransportFailureKind {
    if rank == 0 {
        TransportFailureKind::Dns
    } else if rank == 1 {
        TransportFailureKind::Connect
    } else if rank == 2 {
        TransportFailureKind::Timeout
    } else if rank == 3 {
        TransportFailureKind::Tls
    } else if rank == 4 {
        TransportFailureKind::Redirect
    } else if rank == 5 {
        TransportFailureKind::Receive
    } else {
        TransportFailureKind::Other
    }
}

/// Number of transport failure kinds.
pub const KIND_COUNT: usize = 7;

/// The name of a kind in the report's failure table.
pub open spec fn kind_label(kind: TransportFailureKind) -> Seq<char> {
    match kind {
        TransportFailureKind::Dns => "DNS"@,
        TransportFailureKind::Connect => "Connect"@,
        TransportFailureKind::Timeout => "Timeout"@,
        TransportFailureKind::Tls => "TLS"@,
        TransportFailureKind::Redirect => "Redirect"@,
        TransportFailureKind::Receive => "Receive"@,
        TransportFailureKind::Other => "Other"@,
    }
}

/// The name of a kind in the per-attempt verbose line.
pub open spec fn kind_verbose_label(kind: TransportFailureKind) -> Seq<char> {
    match kind {
        TransportFailureKind::Dns => "dns"@,
        TransportFailureKind::Connect => "connect"@,
        TransportFailureKind::Timeout => "timeout"@,
        TransportFailureKind::Tls => "tls"@,
        TransportFailureKind::Redirect => "redirect"@,
        TransportFailureKind::Receive => "receive"@,
        TransportFailureKind::Other => "other"@,
    }
}

impl TransportFailureKind {
    /// The name of the kind in the report's failure table.
    pub fn label(&self) -> (r: &'static str)
        ensures
            r@ == kind_label(*self),
    {
        match self {
            TransportFailureKind::Dns => {
                proof {
                    reveal_strlit("DNS");
                }
                "DNS"
            },
            TransportFailureKind::Connect => {
                proof {
                    reveal_strlit("Connect");
                }
                "Connect"
            },
            TransportFailureKind::Timeout => {
                proof {
                    reveal_strlit("Timeout");
                }
                "Timeout"
            },
            TransportFailureKind::Tls => {
                proof {
                    reveal_strlit("TLS");
                }
                "TLS"
            },
            TransportFailureKind::Redirect => {
                proof {
                    reveal_strlit("Redirect");
                }
                "Redirect"
            },
            TransportFailureKind::Receive => {
                proof {
                    reveal_strlit("Receive");
                }
                "Receive"
            },
            TransportFailureKind::Other => {
                proof {
                    reveal_strlit("Other");
                }
                "Other"
            },
        }
    }

    /// The name of the kind in the per-attempt verbose line.
    pub fn verbose_label(&self) -> (r: &'static str)
        ensures
            r@ == kind_verbose_label(*self),
    {
        match self {
            TransportFailureKind::Dns => {
                proof {
                    reveal_strlit("dns");
                }
                "dns"
            },
            TransportFailureKind::Connect => {
                proof {
                    reveal_strlit("connect");
                }
                "connect"
            },
            TransportFailureKind::Timeout => {
                proof {
                    reveal_strlit("timeout");
                }
                "timeout"
            },
            TransportFailureKind::Tls => {
                proof {
                    reveal_strlit("tls");
                }
                "tls"
            },
            TransportFailureKind::Redirect => {
                proof {
                    reveal_strlit("redirect");
                }
                "redirect"
            },
            TransportFailureKind::Receive => {
                proof {
                    reveal_strlit("receive");
                }
                "receive"
            },
            TransportFailureKind::Other => {
                proof {
                    reveal_strlit("other");
                }
                "other"
            },
        }
    }

    /// Position of this kind in the declaration order.
    pub fn rank(&self) -> (r: usize)
        ensures
            r == kind_rank(*self),
            r < KIND_COUNT,
    {
        match self {
            TransportFailureKind::Dns => 0,
            TransportFailureKind::Connect => 1,
            TransportFailureKind::Timeout => 2,
            TransportFailureKind::Tls => 3,
            TransportFailureKind::Redirect => 4,
            TransportFailureKind::Receive => 5,
            TransportFailureKind::Other => 6,
        }
    }

    /// The kind at a given position of the declaration order.
    pub fn from_rank(rank: usize) -> (kind: TransportFailureKind)
        requires
            rank < KIND_COUNT,
        ensures
            kind == kind_at_rank(rank as nat),
            kind_rank(kind) == rank,
    {
        if rank == 0 {
            TransportFailureKind::Dns
        } else if rank == 1 {
            TransportFailureKind::Connect
        } else if rank == 2 {
            TransportFailureKind::Timeout
        } else if rank == 3 {
            TransportFailureKind::Tls
        } else if rank == 4 {
            TransportFailureKind::Redirect
        } else if rank == 5 {
            TransportFailureKind::Receive
        } else {
            TransportFailureKind::Other
        }
    }
}

/// `kind_at_rank` undoes `kind_rank`.
pub proof fn lemma_kind_rank_roundtrip(kind: TransportFailureKind)
    ensures
        kind_at_rank(kind_rank(kind)) == kind,
        kind_rank(kind) < KIND_COUNT,
{
}

/// Kinds in strictly ascending declaration order, each at most once: the
/// order in which the failure table lists them.
pub open spec fn kinds_ascending(rows: Seq<(TransportFailureKind, u32)>) -> bool {
    forall|i: int, j: int| 0 <= i < j < rows.len() ==> kind_rank(rows[i].0) < kind_rank(rows[j].0)
}

/// A transfer that did not complete.
#[derive(Debug, Clone)]
pub struct TransportFailureAttempt {
    pub attempt: u32,
    pub kind: TransportFailureKind,
    pub message: String,
    pub elapsed_us: u64,
}

/// The outcome of one probe attempt.
#[derive(Debug, Clone)]
pub enum AttemptResult {
    Success(SuccessfulAttempt),
    HttpFailure(HttpFailureAttempt),
    TransportFailure(TransportFailureAttempt),
}

/// Statistics per phase over the successful attempts of a run.
#[derive(Debug, Clone)]
pub struct LatencySummary {
    pub dns: MetricStats,
    pub tcp: MetricStats,
    pub tls: Option<MetricStats>,
    pub ttfb: MetricStats,
    pub download: MetricStats,
    pub total: MetricStats,
}

/// Everything the report shows about a run.
///
/// The failure rate, in percent, is `failed_attempts * 100 / requested_attempts`
/// (zero when nothing was requested); it is kept as these two integers.
#[derive(Debug, Clone)]
pub struct RunSummary {
    pub target: String,
    pub requested_attempts: u32,
    pub successful_attempts: u32,
    pub failed_attempts: u32,
    pub latency: Option<LatencySummary>,
    /// Completed transfers (successful or not) per final HTTP status.
    pub status_counts: BTreeMap<u32, u32>,
    /// Transport failures per kind, in the kinds' declaration order
    /// (`kinds_ascending`), only the kinds that occurred.
    pub transport_failure_counts: Vec<(TransportFailureKind, u32)>,
    pub attempts: Vec<AttemptResult>,
    pub follow_redirects: bool,
    pub is_https: bool,
}

} // verus!
