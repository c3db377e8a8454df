//! The decisions of a probe run: which attempt comes next, what to print and
//! how long to pause after each, and the summary at the end. The caller
//! performs the transfers and the pauses.

use vstd::prelude::*;

use crate::cli::{config_of, validation_error, Cli, ProbeConfig, MAX_COUNT};
use crate::error::AppError;
use crate::model::AttemptResult;
use crate::output::{verbose_line, write_verbose_attempt};
use crate::stats::{build_run_summary, summarizes_run};

verus! {

/// What the caller does after recording an attempt.
#[derive(Debug)]
pub struct AfterAttempt {
    /// The verbose line to print, in verbose mode.
    pub verbose_line: Option<String>,
    /// How long to pause before the next attempt, in milliseconds.
    pub pause_ms: u64,
}

/// A run in progress: its configuration and the attempts recorded so far.
pub struct ProbeRun {
    config: ProbeConfig,
    attempts: Vec<AttemptResult>,
}

/// The pause after attempt `number` (counted from 1) of a run of `config`:
/// the interval between attempts, none after the last one.
pub open spec fn pause_after(config: ProbeConfig, number: nat) -> u64 {
    if number != config.count && config.interval_ms != 0 {
        config.interval_ms
    } else {
        0
    }
}

impl ProbeRun {
    #[verifier::type_invariant]
    spec fn well_formed(self) -> bool {
        &&& self.attempts@.len() <= self.config.count
        &&& self.config.count <= MAX_COUNT
    }

    /// The configuration of the run.
    pub closed spec fn configuration(self) -> ProbeConfig {
        self.config
    }

    /// The attempts recorded so far, in order.
    pub closed spec fn recorded(self) -> Seq<AttemptResult> {
        self.attempts@
    }

    /// Validates the options and starts a run with no attempts recorded.
    pub fn start(cli: Cli) -> (r: Result<ProbeRun, AppError>)
        ensures
            match r {
                Ok(run) => validation_error(cli) is None && run.configuration() == config_of(cli)
                    && run.recorded() == Seq::<AttemptResult>::empty(),
                Err(e) => validation_error(cli) matches Some(m) && (e matches AppError::InvalidConfiguration(
                    msg,
                ) && msg@ == m),
            },
    {
        let config = cli.validate()?;
        Ok(ProbeRun { config, attempts: Vec::new() })
    }

    /// The configuration of the run.
    pub fn config(&self) -> (c: &ProbeConfig)
        ensures
            *c == self.configuration(),
    {
        &self.config
    }

    /// The number of the next attempt (counted from 1), or nothing once all
    /// requested attempts are recorded.
    pub fn next_attempt(&self) -> (n: Option<u32>)
        ensures
            n == if self.recorded().len() < self.configuration().count {
                Some((self.recorded().len() + 1) as u32)
            } else {
                None::<u32>
            },
    {
        proof {
            use_type_invariant(self);
        }
        let done = self.attempts.len() as u32;
        if done < self.config.count {
            Some(done + 1)
        } else {
            None
        }
    }

    /// Records the outcome of the next attempt and says what to do before the
    /// one after it.
    pub fn record(&mut self, result: AttemptResult) -> (after: AfterAttempt)
        requires
            old(self).recorded().len() < old(self).configuration().count,
        ensures
            final(self).configuration() == old(self).configuration(),
            final(self).recorded() == old(self).recorded().push(result),
            after.pause_ms == pause_after(old(self).configuration(), final(self).recorded().len()),
            match after.verbose_line {
                Some(line) => old(self).configuration().verbose && line@ == verbose_line(
                    result,
                    old(self).configuration().count,
                ),
                None => !old(self).configuration().verbose,
            },
    {
        proof {
            use_type_invariant(&*self);
        }
        let verbose_line = if self.config.verbose {
            let mut line = String::new();
            write_verbose_attempt(&result, self.config.count, &mut line);
            Some(line)
        } else {
            None
        };
        let mut attempts = Vec::new();
        std::mem::swap(&mut attempts, &mut self.attempts);
        attempts.push(result);
        let number = attempts.len() as u32;
        self.attempts = attempts;
        let pause_ms = if number != self.config.count && self.config.interval_ms != 0 {
            self.config.interval_ms
        } else {
            0
        };
        AfterAttempt { verbose_line, pause_ms }
    }

    /// Ends the run and summarizes the recorded attempts.
    pub fn finish(self) -> (s: crate::model::RunSummary)
        ensures
            summarizes_run(s, self.configuration(), self.recorded()),
    {
        proof {
            use_type_invariant(&self);
        }
        let ProbeRun { config, attempts } = self;
        build_run_summary(&config, attempts)
    }
}

} // verus!
