//! Command-line options and their validation into a probe configuration.

use vstd::prelude::*;
use vstd::string::*;

use crate::error::AppError;
use crate::text::{decimal, push_decimal};

verus! {

pub const MAX_COUNT: u32 = 1_000_000;

pub const MAX_DURATION_MS: u64 = 600_000;

/// The command-line options as given.
#[derive(Debug, Clone)]
pub struct Cli {
    pub url: String,
    pub count: u32,
    pub timeout_ms: u64,
    pub connect_timeout_ms: u64,
    pub interval_ms: u64,
    pub follow_redirects: bool,
    pub verbose: bool,
}

/// A validated probe configuration. Durations are whole milliseconds.
#[derive(Debug, Clone)]
pub struct ProbeConfig {
    pub url: String,
    pub count: u32,
    pub timeout_ms: u64,
    pub connect_timeout_ms: u64,
    pub interval_ms: u64,
    pub follow_redirects: bool,
    pub verbose: bool,
    pub is_https: bool,
}

/// `prefix` begins `s`.
pub open spec fn starts_with(s: Seq<char>, prefix: Seq<char>) -> bool {
    prefix.len() <= s.len() && s.subrange(0, prefix.len() as int) == prefix
}

/// The complaint about a duration option outside `min..=max`.
pub open spec fn range_message(name: Seq<char>, min: nat, max: nat) -> Seq<char> {
    name + " must be in the range "@ + decimal(min) + "..="@ + decimal(max)
}

/// Whether a duration option lies outside `min..=max`.
pub open spec fn out_of_range(value: u64, min: u64, max: u64) -> bool {
    value < min || value > max
}

/// The message of the first check that `c` fails, in the order the checks are
/// made; nothing when it passes them all.
pub open spec fn validation_error(c: Cli) -> Option<Seq<char>> {
    if c.url@.len() == 0 {
        Some("URL must not be empty"@)
    } else if !starts_with(c.url@, "https://"@) && !starts_with(c.url@, "http://"@) {
        Some("URL must start with http:// or https://"@)
    } else if c.count == 0 || c.count > MAX_COUNT {
        Some("count must be in the range 1..="@ + decimal(MAX_COUNT as nat))
    } else if out_of_range(c.timeout_ms, 1, MAX_DURATION_MS) {
        Some(range_message("timeout-ms"@, 1, MAX_DURATION_MS as nat))
    } else if out_of_range(c.connect_timeout_ms, 1, MAX_DURATION_MS) {
        Some(range_message("connect-timeout-ms"@, 1, MAX_DURATION_MS as nat))
    } else if out_of_range(c.interval_ms, 0, MAX_DURATION_MS) {
        Some(range_message("interval-ms"@, 0, MAX_DURATION_MS as nat))
    } else if c.connect_timeout_ms > c.timeout_ms {
        Some("connect-timeout-ms must not exceed timeout-ms"@)
    } else {
        None
    }
}

/// The configuration that valid options describe.
pub open spec fn config_of(c: Cli) -> ProbeConfig {
    ProbeConfig {
        url: c.url,
        count: c.count,
        timeout_ms: c.timeout_ms,
        connect_timeout_ms: c.connect_timeout_ms,
        interval_ms: c.interval_ms,
        follow_redirects: c.follow_redirects,
        verbose: c.verbose,
        is_https: starts_with(c.url@, "https://"@),
    }
}

/// Whether `s` begins with `prefix`.
fn has_prefix(s: &str, prefix: &str) -> (r: bool)
    ensures
        r == starts_with(s@, prefix@),
{
    let n = s.unicode_len();
    let k = prefix.unicode_len();
    if k > n {
        return false;
    }
    let mut i: usize = 0;
    while i < k
        invariant
            k == prefix@.len(),
            n == s@.len(),
            k <= n,
            i <= k,
            forall|j: int| 0 <= j < i ==> s@[j] == prefix@[j],
        decreases k - i,
    {
        if s.get_char(i) != prefix.get_char(i) {
            assert(s@.subrange(0, k as int)[i as int] != prefix@[i as int]);
            return false;
        }
        i = i + 1;
    }
    assert(s@.subrange(0, k as int) == prefix@);
    true
}

/// An invalid-configuration error with the given message.
fn invalid(message: String) -> (e: AppError)
    ensures
        e == AppError::InvalidConfiguration(message),
{
    AppError::InvalidConfiguration(message)
}

/// Checks that a duration option lies in `min..=max`.
fn validate_duration(name: &str, value: u64, min: u64, max: u64) -> (r: Result<(), AppError>)
    ensures
        match r {
            Ok(()) => !out_of_range(value, min, max),
            Err(e) => out_of_range(value, min, max) && (e matches AppError::InvalidConfiguration(m)
                && m@ == range_message(name@, min as nat, max as nat)),
        },
{
    if value < min || value > max {
        let mut m = String::from_str(name);
        m.append(" must be in the range ");
        push_decimal(&mut m, min);
        m.append("..=");
        push_decimal(&mut m, max);
        return Err(invalid(m));
    }
    Ok(())
}

impl Cli {
    /// Checks the options and turns them into a probe configuration.
    pub fn validate(self) -> (r: Result<ProbeConfig, AppError>)
        ensures
            (r is Ok) <==> ((starts_with(self.url@, "https://"@) || starts_with(self.url@, "http://"@))
                && 1 <= self.count <= 1_000_000 && 1 <= self.connect_timeout_ms
                && self.connect_timeout_ms <= self.timeout_ms && self.timeout_ms <= 600_000
                && self.interval_ms <= 600_000),
            match r {
                Ok(config) => validation_error(self) is None && config == config_of(self),
                Err(e) => validation_error(self) matches Some(m) && (e matches AppError::InvalidConfiguration(msg)
                    && msg@ == m),
            },
    {
        proof {
            reveal_strlit("URL must not be empty");
            reveal_strlit("URL must start with http:// or https://");
            reveal_strlit("https://");
            reveal_strlit("http://");
        }
        if self.url.as_str().is_empty() {
            return Err(invalid(String::from_str("URL must not be empty")));
        }
        let is_https = if has_prefix(self.url.as_str(), "https://") {
            true
        } else if has_prefix(self.url.as_str(), "http://") {
            false
        } else {
            return Err(invalid(String::from_str("URL must start with http:// or https://")));
        };
        if self.count == 0 || self.count > MAX_COUNT {
            let mut m = String::from_str("count must be in the range 1..=");
            push_decimal(&mut m, MAX_COUNT as u64);
            return Err(invalid(m));
        }
        validate_duration("timeout-ms", self.timeout_ms, 1, MAX_DURATION_MS)?;
        validate_duration("connect-timeout-ms", self.connect_timeout_ms, 1, MAX_DURATION_MS)?;
        validate_duration("interval-ms", self.interval_ms, 0, MAX_DURATION_MS)?;
        if self.connect_timeout_ms > self.timeout_ms {
            return Err(
                invalid(String::from_str("connect-timeout-ms must not exceed timeout-ms")),
            );
        }
        Ok(
            ProbeConfig {
                url: self.url,
                count: self.count,
                timeout_ms: self.timeout_ms,
                connect_timeout_ms: self.connect_timeout_ms,
                interval_ms: self.interval_ms,
                follow_redirects: self.follow_redirects,
                verbose: self.verbose,
                is_https,
            },
        )
    }
}


/// Every accepted configuration targets an `http://` or `https://` URL
/// (`is_https` telling which), asks for 1 to `MAX_COUNT` attempts, and has a
/// connection timeout between 1 ms and the total timeout, which is at most
/// `MAX_DURATION_MS`, as is the interval.
pub proof fn lemma_accepted_config_bounds(c: Cli)
    requires
        validation_error(c) is None,
    ensures
        ({
            let config = config_of(c);
            &&& starts_with(config.url@, "https://"@) || starts_with(config.url@, "http://"@)
            &&& config.is_https == starts_with(config.url@, "https://"@)
            &&& 1 <= config.count <= MAX_COUNT
            &&& 1 <= config.connect_timeout_ms <= config.timeout_ms <= MAX_DURATION_MS
            &&& config.interval_ms <= MAX_DURATION_MS
        }),
{
}

/// Validation accepts exactly the options with an `http://` or `https://`
/// URL, 1 to 1 000 000 attempts, a connection timeout of at least 1 ms that does
/// not exceed the total timeout, a total timeout of at most 600 000 ms, and an
/// interval of at most 600 000 ms; everything else is refused.
pub proof fn lemma_validation_accepts_exactly(c: Cli)
    ensures
        (validation_error(c) is None) <==> ((starts_with(c.url@, "https://"@) || starts_with(
            c.url@,
            "http://"@,
        )) && 1 <= c.count <= 1_000_000 && 1 <= c.connect_timeout_ms && c.connect_timeout_ms
            <= c.timeout_ms && c.timeout_ms <= 600_000 && c.interval_ms <= 600_000),
{
    reveal_strlit("https://");
    reveal_strlit("http://");
    if starts_with(c.url@, "http://"@) {
        assert(c.url@.len() >= 7);
    }
    if starts_with(c.url@, "https://"@) {
        assert(c.url@.len() >= 8);
    }
}

} // verus!
