//! Errors that stop a run before its report.

use vstd::prelude::*;
use vstd::string::*;

verus! {

#[verifier::external_type_specification]
#[verifier::external_body]
pub struct ExCurlError(curl::Error);

/// Why a run could not complete.
#[derive(Debug)]
pub enum AppError {
    InvalidConfiguration(String),
    CurlSetup { operation: &'static str, source: curl::Error },
    TimingRead { field: &'static str, source: curl::Error },
    Internal(String),
}

/// The text of a curl error.
///
/// Calls curl's `Display` impl for `curl::Error` (`[code] description`, with
/// the extra detail in parentheses when there is one). Nothing about the text
/// is stated: `curl::Error` is opaque here.
#[verifier::external_body]
pub(crate) fn curl_error_text(error: &curl::Error) -> String {
    error.to_string()
}

/// The process exit status for an error: 2 for invalid configuration, else 3.
pub open spec fn error_exit_code(e: AppError) -> u8 {
    match e {
        AppError::InvalidConfiguration(_) => 2,
        _ => 3,
    }
}

/// The message of an error; `source_text` is the text of the curl error
/// underneath, for the errors that come from curl (it is not used otherwise).
pub open spec fn message_text(e: AppError, source_text: Seq<char>) -> Seq<char> {
    match e {
        AppError::InvalidConfiguration(m) => "invalid configuration: "@ + m@,
        AppError::CurlSetup { operation, .. } => "failed to configure curl option "@ + operation@
            + ": "@ + source_text,
        AppError::TimingRead { field, .. } => "failed to read curl timing field "@ + field@ + ": "@
            + source_text,
        AppError::Internal(m) => "internal error: "@ + m@,
    }
}

impl AppError {
    /// The human-readable message of the error, given the text of the curl
    /// error underneath (for the errors that come from curl).
    pub fn message_with_source(&self, source_text: &str) -> (r: String)
        ensures
            r@ == message_text(*self, source_text@),
    {
        match self {
            AppError::InvalidConfiguration(m) => {
                let mut r = String::from_str("invalid configuration: ");
                r.append(m.as_str());
                r
            },
            AppError::CurlSetup { operation, .. } => {
                let mut r = String::from_str("failed to configure curl option ");
                r.append(operation);
                r.append(": ");
                r.append(source_text);
                r
            },
            AppError::TimingRead { field, .. } => {
                let mut r = String::from_str("failed to read curl timing field ");
                r.append(field);
                r.append(": ");
                r.append(source_text);
                r
            },
            AppError::Internal(m) => {
                let mut r = String::from_str("internal error: ");
                r.append(m.as_str());
                r
            },
        }
    }

    /// The human-readable message of the error. For the errors that come from
    /// curl, the text of the curl error (its `Display`) follows the prefix;
    /// `message_with_source` is exact in that text.
    pub fn message(&self) -> (r: String)
        ensures
            exists|t: Seq<char>| r@ == #[trigger] message_text(*self, t),
            match self {
                AppError::InvalidConfiguration(m) => r@ == "invalid configuration: "@ + m@,
                AppError::Internal(m) => r@ == "internal error: "@ + m@,
                _ => true,
            },
    {
        let text = match self {
            AppError::CurlSetup { source, .. } => curl_error_text(source),
            AppError::TimingRead { source, .. } => curl_error_text(source),
            _ => String::new(),
        };
        let r = self.message_with_source(text.as_str());
        proof {
            assert(r@ == message_text(*self, text@));
        }
        r
    }

    /// The curl error underneath, for the errors that come from curl.
    pub fn source(&self) -> (r: Option<&curl::Error>)
        ensures
            match self {
                AppError::CurlSetup { source, .. } => r == Some(source),
                AppError::TimingRead { source, .. } => r == Some(source),
                _ => r is None,
            },
    {
        match self {
            AppError::CurlSetup { source, .. } => Some(source),
            AppError::TimingRead { source, .. } => Some(source),
            _ => None,
        }
    }

    /// The process exit status that reports this error.
    pub fn exit_code(&self) -> (code: u8)
        ensures
            code == error_exit_code(*self),
    {
        match self {
            AppError::InvalidConfiguration(_) => 2,
            _ => 3,
        }
    }
}

} // verus!
