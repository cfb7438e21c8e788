//! The failures a download run can end in.

use vstd::prelude::*;

verus! {

/// Why an operation of the downloader failed.
#[derive(Debug, PartialEq, Eq)]
pub enum DlmError {
    /// Cancellation overtook the operation.
    ProgramInterrupted,
    /// A probe or a body request was answered with a status outside 2xx.
    ResponseStatusNotSuccess { status_code: String },
    /// No chunk of the body arrived within the per-chunk timeout.
    TimedOut,
    /// The connection failed below HTTP: DNS, TLS, a reset.
    TransportError { message: String },
    /// The local file system refused an operation.
    IoError { message: String },
    /// The input held no link at all.
    EmptyInputFile,
    /// The link could not be turned into a file name.
    UnresolvableLink { message: String },
}

/// A `DlmError` with its texts as sequences of characters.
pub enum ErrorModel {
    ProgramInterrupted,
    ResponseStatusNotSuccess { status_code: Seq<char> },
    TimedOut,
    TransportError { message: Seq<char> },
    IoError { message: Seq<char> },
    EmptyInputFile,
    UnresolvableLink { message: Seq<char> },
}

impl View for DlmError {
    type V = ErrorModel;

    open spec fn view(&self) -> ErrorModel {
        match self {
            DlmError::ProgramInterrupted => ErrorModel::ProgramInterrupted,
            DlmError::ResponseStatusNotSuccess { status_code } => {
                ErrorModel::ResponseStatusNotSuccess { status_code: status_code@ }
            },
            DlmError::TimedOut => ErrorModel::TimedOut,
            DlmError::TransportError { message } => ErrorModel::TransportError {
                message: message@,
            },
            DlmError::IoError { message } => ErrorModel::IoError { message: message@ },
            DlmError::EmptyInputFile => ErrorModel::EmptyInputFile,
            DlmError::UnresolvableLink { message } => ErrorModel::UnresolvableLink {
                message: message@,
            },
        }
    }
}

/// The line that reports an error to the user.
pub open spec fn description(e: ErrorModel) -> Seq<char> {
    match e {
        ErrorModel::ProgramInterrupted => "program interrupted"@,
        ErrorModel::ResponseStatusNotSuccess { status_code } => "response status not success: "@
            + status_code,
        ErrorModel::TimedOut => "timed out while waiting for data"@,
        ErrorModel::TransportError { message } => "transport error: "@ + message,
        ErrorModel::IoError { message } => "I/O error: "@ + message,
        ErrorModel::EmptyInputFile => "input file is empty"@,
        ErrorModel::UnresolvableLink { message } => "unresolvable link: "@ + message,
    }
}

/// Errors worth another attempt: those that the network may have caused.
/// Cancellation is never retried; nor are local file-system failures and
/// unresolvable links, which another attempt would meet again.
pub open spec fn retryable(e: ErrorModel) -> bool {
    e is ResponseStatusNotSuccess || e is TimedOut || e is TransportError
}

impl DlmError {
    /// The line that reports this error to the user.
    pub fn describe(&self) -> (text: String)
        ensures
            text@ == description(self@),
    {
        match self {
            DlmError::ProgramInterrupted => String::from_str("program interrupted"),
            DlmError::ResponseStatusNotSuccess { status_code } => String::from_str(
                "response status not success: ",
            ).concat(status_code.as_str()),
            DlmError::TimedOut => String::from_str("timed out while waiting for data"),
            DlmError::TransportError { message } => String::from_str("transport error: ").concat(
                message.as_str(),
            ),
            DlmError::IoError { message } => String::from_str("I/O error: ").concat(
                message.as_str(),
            ),
            DlmError::EmptyInputFile => String::from_str("input file is empty"),
            DlmError::UnresolvableLink { message } => String::from_str(
                "unresolvable link: ",
            ).concat(message.as_str()),
        }
    }

    /// Whether the retry policy grants this error another attempt.
    pub fn is_retryable(&self) -> (r: bool)
        ensures
            r == retryable(self@),
    {
        match self {
            DlmError::ResponseStatusNotSuccess { .. } => true,
            DlmError::TimedOut => true,
            DlmError::TransportError { .. } => true,
            _ => false,
        }
    }

    /// Whether this error reports a cancellation.
    pub fn is_interruption(&self) -> (r: bool)
        ensures
            r == (self@ is ProgramInterrupted),
    {
        match self {
            DlmError::ProgramInterrupted => true,
            _ => false,
        }
    }
}

} // verus!
