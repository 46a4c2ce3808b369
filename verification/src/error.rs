//! The ways in which a launcher run can fail.

use vstd::prelude::*;
use vstd::string::*;
use crate::text::enclose;

verus! {

/// A failure of one stage of the launcher. Every failure is fatal for the run.
#[derive(Debug)]
pub enum Error {
    /// The host reported an operating system name that no alias matches. Carries the
    /// name as it was reported.
    UnrecognizedPlatform(String),
    /// The host reported a machine architecture that no alias matches. Carries the name
    /// as it was reported.
    UnrecognizedArchitecture(String),
    /// No cache directory could be determined.
    UnresolvableBasePath,
    /// The artifact could not be fetched or stored. Carries the underlying cause.
    DownloadFailed(String),
    /// The archive could not be read, decompressed or extracted. Carries the cause.
    UnpackFailed(String),
    /// The cached binary could not be started. Carries the cause.
    ExecutionFailed(String),
    /// The cached binary printed bytes that are not UTF-8 text. Carries the cause.
    OutputDecodingFailed(String),
}

/// The mathematical value of an [`Error`]: the same cases, with the carried text as a
/// sequence of characters.
pub enum ErrorView {
    UnrecognizedPlatform(Seq<char>),
    UnrecognizedArchitecture(Seq<char>),
    UnresolvableBasePath,
    DownloadFailed(Seq<char>),
    UnpackFailed(Seq<char>),
    ExecutionFailed(Seq<char>),
    OutputDecodingFailed(Seq<char>),
}

impl View for Error {
    type V = ErrorView;

    open spec fn view(&self) -> ErrorView {
        match self {
            Error::UnrecognizedPlatform(name) => ErrorView::UnrecognizedPlatform(name@),
            Error::UnrecognizedArchitecture(name) => ErrorView::UnrecognizedArchitecture(name@),
            Error::UnresolvableBasePath => ErrorView::UnresolvableBasePath,
            Error::DownloadFailed(cause) => ErrorView::DownloadFailed(cause@),
            Error::UnpackFailed(cause) => ErrorView::UnpackFailed(cause@),
            Error::ExecutionFailed(cause) => ErrorView::ExecutionFailed(cause@),
            Error::OutputDecodingFailed(cause) => ErrorView::OutputDecodingFailed(cause@),
        }
    }
}

impl ErrorView {
    /// The line that reports this failure to the operator.
    pub open spec fn message(self) -> Seq<char> {
        match self {
            ErrorView::UnrecognizedPlatform(name) => "Cannot parse Operating System Name ("@
                + name + ")"@,
            ErrorView::UnrecognizedArchitecture(name) => "Cannot parse System Architecture ("@
                + name + ")"@,
            ErrorView::UnresolvableBasePath => "Invalid Base Path"@,
            ErrorView::DownloadFailed(cause) => "Error downloading the file ("@ + cause + ")"@,
            ErrorView::UnpackFailed(cause) => "IO("@ + cause + ")"@,
            ErrorView::ExecutionFailed(cause) => "Cannot run the binary ("@ + cause + ")"@,
            ErrorView::OutputDecodingFailed(cause) => "Encoding error ("@ + cause + ")"@,
        }
    }
}

impl Error {
    /// Renders the failure as the line that is shown to the operator.
    pub fn message(&self) -> (line: String)
        ensures
            line@ == self@.message(),
    {
        match self {
            Error::UnrecognizedPlatform(name) => enclose(
                "Cannot parse Operating System Name (",
                name.as_str(),
                ")",
            ),
            Error::UnrecognizedArchitecture(name) => enclose(
                "Cannot parse System Architecture (",
                name.as_str(),
                ")",
            ),
            Error::UnresolvableBasePath => "Invalid Base Path".to_owned(),
            Error::DownloadFailed(cause) => enclose(
                "Error downloading the file (",
                cause.as_str(),
                ")",
            ),
            Error::UnpackFailed(cause) => enclose("IO(", cause.as_str(), ")"),
            Error::ExecutionFailed(cause) => enclose("Cannot run the binary (", cause.as_str(), ")"),
            Error::OutputDecodingFailed(cause) => enclose("Encoding error (", cause.as_str(), ")"),
        }
    }
}

} // verus!
