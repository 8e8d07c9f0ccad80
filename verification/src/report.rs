//! The lines that the program logs, and the stream each one goes to.

use crate::clipboard::CopyOutcome;
use crate::loader::{LoadFailure, SOURCE_PATH};
use vstd::prelude::*;
use vstd::string::StringExecFns;

verus! {

/// The stream that a line is written to.
#[derive(Clone, Copy, Debug, PartialEq, Eq, Structural)]
pub enum Stream {
    /// Standard output.
    Stdout,
    /// Standard error.
    Stderr,
}

/// One line of the log.
#[derive(Clone, Debug, PartialEq, Eq)]
pub struct LogLine {
    pub stream: Stream,
    pub text: String,
}

/// [`LogLine`] as contracts see it.
pub struct LogLineView {
    pub stream: Stream,
    pub text: Seq<char>,
}

impl View for LogLine {
    type V = LogLineView;

    open spec fn view(&self) -> LogLineView {
        LogLineView { stream: self.stream, text: self.text@ }
    }
}

impl DeepView for LogLine {
    type V = LogLineView;

    open spec fn deep_view(&self) -> LogLineView {
        self@
    }
}

/// The line logged before the source file is first opened: it names the file
/// by its path from the working directory.
pub open spec fn opening_report() -> LogLineView {
    LogLineView { stream: Stream::Stdout, text: "Opening file: ./"@ + SOURCE_PATH@ }
}

/// The line logged for a load that failed.
pub open spec fn failure_report(failure: LoadFailure) -> LogLineView {
    LogLineView {
        stream: Stream::Stdout,
        text: match failure {
            LoadFailure::Open => "Failed to open file"@,
            LoadFailure::Read => "Failed to read file"@,
            LoadFailure::Parse => "Failed to parse JSON data"@,
        },
    }
}

/// The line logged after the platform answered a request to copy `payload`:
/// success goes to standard output with the text copied, failure to standard
/// error with the platform's description.
pub open spec fn copy_report(payload: Seq<char>, outcome: CopyOutcome) -> LogLineView {
    match outcome {
        CopyOutcome::Stored => LogLineView {
            stream: Stream::Stdout,
            text: "Text copied to clipboard: "@ + payload,
        },
        CopyOutcome::Failed(reason) => LogLineView {
            stream: Stream::Stderr,
            text: "Error copying text to clipboard: "@ + reason@,
        },
    }
}

/// Makes the line logged before the source file is first opened.
pub fn opening_line() -> (line: LogLine)
    ensures
        line@ == opening_report(),
{
    LogLine { stream: Stream::Stdout, text: "Opening file: ./".to_owned().concat(SOURCE_PATH) }
}

/// Makes the line logged for a load that failed.
pub fn failure_line(failure: LoadFailure) -> (line: LogLine)
    ensures
        line@ == failure_report(failure),
{
    let text = match failure {
        LoadFailure::Open => "Failed to open file",
        LoadFailure::Read => "Failed to read file",
        LoadFailure::Parse => "Failed to parse JSON data",
    };
    LogLine { stream: Stream::Stdout, text: text.to_owned() }
}

/// Makes the line logged after the platform answered a request to copy
/// `payload`.
pub fn copy_line(payload: &str, outcome: &CopyOutcome) -> (line: LogLine)
    ensures
        line@ == copy_report(payload@, *outcome),
{
    match outcome {
        CopyOutcome::Stored => LogLine {
            stream: Stream::Stdout,
            text: "Text copied to clipboard: ".to_owned().concat(payload),
        },
        CopyOutcome::Failed(reason) => LogLine {
            stream: Stream::Stderr,
            text: "Error copying text to clipboard: ".to_owned().concat(reason.as_str()),
        },
    }
}

} // verus!
