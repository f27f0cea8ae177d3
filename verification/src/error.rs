//! The errors of the pipeline. An underlying I/O failure is carried as the
//! text that it displays.
use vstd::prelude::*;

use crate::text::{decimal, decimal_chars, string_from_chars};

verus! {

/// The error type for `cargo-qc` operations.
/// Represents all possible failure modes when executing the quality control pipeline.
#[derive(Debug)]
pub enum QcError {
    /// Failed to execute the `cargo pkgid` command.
    VersionDetection(String),
    /// The output of `cargo pkgid` was not in the expected format.
    VersionParse,
    /// Failed to create the `tools/cargo-qc` directory.
    LogDirectoryCreation(String),
    /// The `cargo fmt` check failed to execute.
    FmtCheck(String),
    /// The `cargo clippy` check failed to execute.
    ClippyCheck(String),
    /// The `cargo build` command failed to execute.
    BuildCheck(String),
    /// The `cargo test` command failed to execute.
    TestCheck(String),
    /// Failed to write to `.qc_history.md`.
    HistoryFile(String),
    /// Failed to write to `.qc_errors.log`.
    ErrorsFile(String),
    /// One or more quality control checks failed. This is the normal failure state when code is incorrect.
    ChecksFailed {
        /// Number of checks that failed.
        failed_count: usize,
        /// Path to the error log file.
        log_path: String,
    },
}

impl QcError {
    /// The text of the error, as the program prints it.
    pub open spec fn message_spec(&self) -> Seq<char> {
        match self {
            QcError::VersionDetection(e) => "could not detect project version: "@ + e@,
            QcError::VersionParse => "failed to parse cargo pkgid output"@,
            QcError::LogDirectoryCreation(e) => "failed to create log directory: "@ + e@,
            QcError::FmtCheck(e) => "failed to run cargo fmt: "@ + e@,
            QcError::ClippyCheck(e) => "failed to run cargo clippy: "@ + e@,
            QcError::BuildCheck(e) => "failed to run cargo build: "@ + e@,
            QcError::TestCheck(e) => "failed to run cargo test: "@ + e@,
            QcError::HistoryFile(e) => "failed to open history file: "@ + e@,
            QcError::ErrorsFile(e) => "failed to open errors file: "@ + e@,
            QcError::ChecksFailed { failed_count, log_path } => decimal(*failed_count as nat)
                + " check(s) failed. See "@ + log_path@ + " for details."@,
        }
    }

    /// Builds the text of the error.
    pub fn message(&self) -> (r: String)
        ensures
            r@ == self.message_spec(),
    {
        let (head, detail): (&str, &String) = match self {
            QcError::VersionDetection(e) => ("could not detect project version: ", e),
            QcError::VersionParse => {
                return "failed to parse cargo pkgid output".to_owned();
            },
            QcError::LogDirectoryCreation(e) => ("failed to create log directory: ", e),
            QcError::FmtCheck(e) => ("failed to run cargo fmt: ", e),
            QcError::ClippyCheck(e) => ("failed to run cargo clippy: ", e),
            QcError::BuildCheck(e) => ("failed to run cargo build: ", e),
            QcError::TestCheck(e) => ("failed to run cargo test: ", e),
            QcError::HistoryFile(e) => ("failed to open history file: ", e),
            QcError::ErrorsFile(e) => ("failed to open errors file: ", e),
            QcError::ChecksFailed { failed_count, log_path } => {
                let digits = decimal_chars(*failed_count as u64);
                let mut r = string_from_chars(&digits);
                r.append(" check(s) failed. See ");
                r.append(log_path.as_str());
                r.append(" for details.");
                return r;
            },
        };
        let mut r = head.to_owned();
        r.append(detail.as_str());
        r
    }

    /// The underlying failure's text, for the errors that wrap one.
    pub fn source(&self) -> (r: Option<&String>)
        ensures
            r == match self {
                QcError::VersionDetection(e) | QcError::LogDirectoryCreation(e) | QcError::FmtCheck(
                    e,
                ) | QcError::ClippyCheck(e) | QcError::BuildCheck(e) | QcError::TestCheck(e)
                | QcError::HistoryFile(e) | QcError::ErrorsFile(e) => Some(e),
                QcError::VersionParse | QcError::ChecksFailed { .. } => None,
            },
    {
        match self {
            QcError::VersionDetection(e)
            | QcError::LogDirectoryCreation(e)
            | QcError::FmtCheck(e)
            | QcError::ClippyCheck(e)
            | QcError::BuildCheck(e)
            | QcError::TestCheck(e)
            | QcError::HistoryFile(e)
            | QcError::ErrorsFile(e) => Some(e),
            QcError::VersionParse | QcError::ChecksFailed { .. } => None,
        }
    }
}

} // verus!
