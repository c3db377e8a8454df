//! Repeated cold HTTP(S) probes of one endpoint, and their latency report.

pub mod cli;
pub mod error;
pub mod model;
pub mod ordered;
pub mod output;
pub mod probe;
pub mod run;
pub mod stats;
pub mod text;

use vstd::prelude::*;

use crate::model::{AttemptResult, RunSummary};

verus! {

/// Every attempt of the run succeeded.
pub open spec fn all_succeeded(attempts: Seq<AttemptResult>) -> bool {
    forall|i: int| 0 <= i < attempts.len() ==> #[trigger] attempts[i] is Success
}

/// The process exit status for a completed run: 0 when every attempt
/// succeeded, else 1.
pub fn exit_code_for_summary(summary: &RunSummary) -> (code: u8)
    ensures
        code == if all_succeeded(summary.attempts@) {
            0u8
        } else {
            1u8
        },
{
    let mut i: usize = 0;
    while i < summary.attempts.len()
        invariant
            i <= summary.attempts@.len(),
            forall|j: int| 0 <= j < i ==> #[trigger] summary.attempts@[j] is Success,
        decreases summary.attempts@.len() - i,
    {
        if !matches!(summary.attempts[i], AttemptResult::Success(_)) {
            return 1;
        }
        i = i + 1;
    }
    0
}

} // verus!
