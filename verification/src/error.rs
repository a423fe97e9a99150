//! The ways in which a run ends without a report, or with one that fails.

use crate::text::{decimal, decimal_text, quoted, quoted_text};
use vstd::prelude::*;

verus! {

/// Why a run failed. Each failure ends the run; none is retried.
#[derive(Clone, Debug, PartialEq, Eq)]
pub enum Failure {
    /// The analyzer could not be started.
    SpawnFailure,
    /// The analyzer ended unsuccessfully; `status` describes how.
    AnalyzerFailure { status: String },
    /// The analyzer's output could not be read to its end.
    StreamFailure,
    /// The analyzer's output is not UTF-8 text.
    InvalidOutput,
    /// The analyzer wrote nothing.
    EmptyOutput,
    /// The last line of the analyzer's output holds no token.
    NoPathToken { line: String },
    /// No file exists at the path that the analyzer named.
    ReportFileMissing { path: String },
    /// The report file could not be read.
    ReadFailure { path: String },
    /// The report file does not hold a diagnostics report; `reason` is what
    /// the parser said of it.
    MalformedReport { path: String, reason: String },
    /// A key of the report is not a URI.
    InvalidUri { uri: String },
    /// A URI has another scheme than `file`.
    UnsupportedUriScheme { uri: String, scheme: String },
    /// A `file` URI does not name a path on this system. No run ends with
    /// this: the diagnostics of such a file are shown under the URI itself.
    NoFilePath { uri: String },
    /// As many diagnostics as `count` says were at the `fail` threshold or stronger.
    AggregateFailure { count: u128 },
}

/// A failure, with the text of each string it carries.
pub enum FailureView {
    SpawnFailure,
    AnalyzerFailure { status: Seq<char> },
    StreamFailure,
    InvalidOutput,
    EmptyOutput,
    NoPathToken { line: Seq<char> },
    ReportFileMissing { path: Seq<char> },
    ReadFailure { path: Seq<char> },
    MalformedReport { path: Seq<char>, reason: Seq<char> },
    InvalidUri { uri: Seq<char> },
    UnsupportedUriScheme { uri: Seq<char>, scheme: Seq<char> },
    NoFilePath { uri: Seq<char> },
    AggregateFailure { count: nat },
}

impl DeepView for Failure {
    type V = FailureView;

    open spec fn deep_view(&self) -> FailureView {
        match self {
            Failure::SpawnFailure => FailureView::SpawnFailure,
            Failure::AnalyzerFailure { status } => FailureView::AnalyzerFailure { status: status@ },
            Failure::StreamFailure => FailureView::StreamFailure,
            Failure::InvalidOutput => FailureView::InvalidOutput,
            Failure::EmptyOutput => FailureView::EmptyOutput,
            Failure::NoPathToken { line } => FailureView::NoPathToken { line: line@ },
            Failure::ReportFileMissing { path } => FailureView::ReportFileMissing { path: path@ },
            Failure::ReadFailure { path } => FailureView::ReadFailure { path: path@ },
            Failure::MalformedReport { path, reason } => FailureView::MalformedReport {
                path: path@,
                reason: reason@,
            },
            Failure::InvalidUri { uri } => FailureView::InvalidUri { uri: uri@ },
            Failure::UnsupportedUriScheme { uri, scheme } => FailureView::UnsupportedUriScheme {
                uri: uri@,
                scheme: scheme@,
            },
            Failure::NoFilePath { uri } => FailureView::NoFilePath { uri: uri@ },
            Failure::AggregateFailure { count } => FailureView::AggregateFailure {
                count: *count as nat,
            },
        }
    }
}

impl View for Failure {
    type V = FailureView;

    open spec fn view(&self) -> FailureView {
        self.deep_view()
    }
}

impl FailureView {
    /// The one-line message for this failure, in a run of the analyzer called `analyzer`.
    pub open spec fn message_text(self, analyzer: Seq<char>) -> Seq<char> {
        match self {
            FailureView::SpawnFailure => "Failed to start "@ + analyzer,
            FailureView::AnalyzerFailure { status } => analyzer + " failed: "@ + status,
            FailureView::StreamFailure => "Failed to read the output of "@ + analyzer,
            FailureView::InvalidOutput => analyzer + " wrote invalid UTF-8 to stdout"@,
            FailureView::EmptyOutput => analyzer + " didn't write any lines: \"\""@,
            FailureView::NoPathToken { line } => "Last line of "@ + analyzer
                + " output doesn't contain any data: "@ + quoted_text(line),
            FailureView::ReportFileMissing { path } => analyzer
                + " diagnostics file doesn't exist: "@ + quoted_text(path),
            FailureView::ReadFailure { path } => "Failed to read diagnostics file: "@
                + quoted_text(path),
            FailureView::MalformedReport { path, reason } =>
                "Failed to deserialize diagnostics file: "@ + quoted_text(path) + ": "@ + reason,
            FailureView::InvalidUri { uri } => "Failed to parse URL: "@ + quoted_text(uri),
            FailureView::UnsupportedUriScheme { uri, scheme } => "URL has unknown scheme "@
                + quoted_text(scheme) + "; expected \"file\""@,
            FailureView::NoFilePath { uri } => "Failed to convert URL to file path: "@
                + quoted_text(uri),
            FailureView::AggregateFailure { count } => analyzer + " found "@ + decimal_text(count)
                + " problems"@,
        }
    }
}

impl Failure {
    /// The one-line message for this failure, in a run of the analyzer called `analyzer`.
    pub fn message(&self, analyzer: &str) -> (text: String)
        ensures
            text@ == self@.message_text(analyzer@),
    {
        match self {
            Failure::SpawnFailure => {
                let mut text = String::from_str("Failed to start ");
                text.append(analyzer);
                text
            },
            Failure::AnalyzerFailure { status } => {
                let mut text = String::from_str(analyzer);
                text.append(" failed: ");
                text.append(status.as_str());
                text
            },
            Failure::StreamFailure => {
                let mut text = String::from_str("Failed to read the output of ");
                text.append(analyzer);
                text
            },
            Failure::InvalidOutput => {
                let mut text = String::from_str(analyzer);
                text.append(" wrote invalid UTF-8 to stdout");
                text
            },
            Failure::EmptyOutput => {
                let mut text = String::from_str(analyzer);
                text.append(" didn't write any lines: \"\"");
                text
            },
            Failure::NoPathToken { line } => {
                let mut text = String::from_str("Last line of ");
                text.append(analyzer);
                text.append(" output doesn't contain any data: ");
                text.append(quoted(line.as_str()).as_str());
                text
            },
            Failure::ReportFileMissing { path } => {
                let mut text = String::from_str(analyzer);
                text.append(" diagnostics file doesn't exist: ");
                text.append(quoted(path.as_str()).as_str());
                text
            },
            Failure::ReadFailure { path } => {
                let mut text = String::from_str("Failed to read diagnostics file: ");
                text.append(quoted(path.as_str()).as_str());
                text
            },
            Failure::MalformedReport { path, reason } => {
                let mut text = String::from_str("Failed to deserialize diagnostics file: ");
                text.append(quoted(path.as_str()).as_str());
                text.append(": ");
                text.append(reason.as_str());
                text
            },
            Failure::InvalidUri { uri } => {
                let mut text = String::from_str("Failed to parse URL: ");
                text.append(quoted(uri.as_str()).as_str());
                text
            },
            Failure::UnsupportedUriScheme { uri, scheme } => {
                let mut text = String::from_str("URL has unknown scheme ");
                text.append(quoted(scheme.as_str()).as_str());
                text.append("; expected \"file\"");
                text
            },
            Failure::NoFilePath { uri } => {
                let mut text = String::from_str("Failed to convert URL to file path: ");
                text.append(quoted(uri.as_str()).as_str());
                text
            },
            Failure::AggregateFailure { count } => {
                let mut text = String::from_str(analyzer);
                text.append(" found ");
                text.append(decimal(*count).as_str());
                text.append(" problems");
                text
            },
        }
    }
}

} // verus!
