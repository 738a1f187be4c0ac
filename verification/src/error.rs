//! The error type of the pipeline and the texts shown for it.

use crate::text::join2;
use vstd::prelude::*;
use vstd::string::*;

verus! {

/// `std::io::Error`, known to the verifier as a value that is only carried
/// through.
#[verifier::external_type_specification]
#[verifier::external_body]
pub struct ExIoError(std::io::Error);

/// What can go wrong in a run.
#[derive(Debug)]
pub enum AppError {
    /// The input file is missing or unfit.
    File(String),
    /// The cloud account could not be used.
    Aws(String),
    /// The object store refused or failed an operation.
    S3(String),
    /// The transcription service refused or failed an operation.
    Transcribe(String),
    /// The transcription job was still running when waiting was given up.
    Timeout(String),
    /// Reading or writing a local file failed.
    Io(std::io::Error),
}

/// The mathematical value of an [`AppError`]: its kind and its detail text.
pub enum ErrorView {
    File(Seq<char>),
    Aws(Seq<char>),
    S3(Seq<char>),
    Transcribe(Seq<char>),
    Timeout(Seq<char>),
    Io(std::io::Error),
}

impl View for AppError {
    type V = ErrorView;

    open spec fn view(&self) -> ErrorView {
        match self {
            AppError::File(detail) => ErrorView::File(detail@),
            AppError::Aws(detail) => ErrorView::Aws(detail@),
            AppError::S3(detail) => ErrorView::S3(detail@),
            AppError::Transcribe(detail) => ErrorView::Transcribe(detail@),
            AppError::Timeout(detail) => ErrorView::Timeout(detail@),
            AppError::Io(cause) => ErrorView::Io(*cause),
        }
    }
}

/// The value of a result that carries nothing on success.
pub open spec fn outcome_view(result: Result<(), AppError>) -> Result<(), ErrorView> {
    match result {
        Ok(_) => Ok(()),
        Err(error) => Err(error@),
    }
}

/// The value of a result that carries a text on success.
pub open spec fn text_result_view(result: Result<String, AppError>) -> Result<
    Seq<char>,
    ErrorView,
> {
    match result {
        Ok(text) => Ok(text@),
        Err(error) => Err(error@),
    }
}

/// The value of an error that may be absent.
pub open spec fn failure_view(failure: Option<AppError>) -> Option<ErrorView> {
    match failure {
        Some(error) => Some(error@),
        None => None,
    }
}

/// Calls `to_string` on a `std::io::Error`, which renders the error through
/// its `Display` impl. The text depends on the platform, so nothing is
/// claimed of it.
#[verifier::external_body]
fn io_error_text(cause: &std::io::Error) -> (text: String) {
    cause.to_string()
}

impl ErrorView {
    /// The words that introduce an error of this kind.
    pub open spec fn prefix(self) -> Seq<char> {
        match self {
            ErrorView::File(_) => "File error: "@,
            ErrorView::Aws(_) => "AWS error: "@,
            ErrorView::S3(_) => "S3 error: "@,
            ErrorView::Transcribe(_) => "Transcribe error: "@,
            ErrorView::Timeout(_) => "Timeout error: "@,
            ErrorView::Io(_) => "IO error: "@,
        }
    }

    /// The advice shown below an error of this kind.
    pub open spec fn hint(self) -> Seq<char> {
        match self {
            ErrorView::File(_) => "Please verify the file path and permissions."@,
            ErrorView::Aws(_) => "Please check your AWS credentials and configuration."@,
            ErrorView::S3(_) => "Please verify the S3 bucket exists and you have access to it."@,
            ErrorView::Transcribe(_) =>
                "Please check the Amazon Transcribe service status and your permissions."@,
            ErrorView::Timeout(_) =>
                "The job may still finish; please check it in Amazon Transcribe before trying again."@,
            ErrorView::Io(_) => "Please check file permissions and disk space."@,
        }
    }

    /// Whether `text` is the one-line rendering of this error: the prefix of
    /// its kind, then the detail. For an I/O error the detail is whatever the
    /// platform says of the cause.
    pub open spec fn renders_as(self, text: Seq<char>) -> bool {
        match self {
            ErrorView::File(detail) => text == self.prefix() + detail,
            ErrorView::Aws(detail) => text == self.prefix() + detail,
            ErrorView::S3(detail) => text == self.prefix() + detail,
            ErrorView::Transcribe(detail) => text == self.prefix() + detail,
            ErrorView::Timeout(detail) => text == self.prefix() + detail,
            ErrorView::Io(_) => exists|detail: Seq<char>| text == self.prefix() + detail,
        }
    }
}

impl AppError {
    /// The one-line rendering of the error.
    pub fn message(&self) -> (text: String)
        ensures
            self@.renders_as(text@),
    {
        match self {
            AppError::File(detail) => join2("File error: ", detail.as_str()),
            AppError::Aws(detail) => join2("AWS error: ", detail.as_str()),
            AppError::S3(detail) => join2("S3 error: ", detail.as_str()),
            AppError::Transcribe(detail) => join2("Transcribe error: ", detail.as_str()),
            AppError::Timeout(detail) => join2("Timeout error: ", detail.as_str()),
            AppError::Io(cause) => {
                let detail = io_error_text(cause);
                let text = join2("IO error: ", detail.as_str());
                assert(text@ == self@.prefix() + detail@);
                text
            },
        }
    }

    /// The advice that goes with the error's kind.
    pub fn hint(&self) -> (text: &'static str)
        ensures
            text@ == self@.hint(),
    {
        match self {
            AppError::File(_) => "Please verify the file path and permissions.",
            AppError::Aws(_) => "Please check your AWS credentials and configuration.",
            AppError::S3(_) => "Please verify the S3 bucket exists and you have access to it.",
            AppError::Transcribe(_) =>
                "Please check the Amazon Transcribe service status and your permissions.",
            AppError::Timeout(_) =>
                "The job may still finish; please check it in Amazon Transcribe before trying again.",
            AppError::Io(_) => "Please check file permissions and disk space.",
        }
    }
}

/// The lines to show the user for `error`: the error itself behind a stop
/// sign, then the advice for its kind.
pub fn display_error(error: &AppError) -> (lines: Vec<String>)
    ensures
        lines@.len() == 2,
        exists|message: Seq<char>| #[trigger]
            error@.renders_as(message) && lines@[0]@ == "🛑 Error: "@ + message,
        lines@[1]@ == error@.hint(),
{
    let message = error.message();
    let mut lines: Vec<String> = Vec::new();
    lines.push(join2("🛑 Error: ", message.as_str()));
    lines.push(String::from_str(error.hint()));
    lines
}

} // verus!
