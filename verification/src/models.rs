//! Values that travel between the stages of the pipeline.

use vstd::prelude::*;

verus! {

/// How a transcription job ended.
#[derive(Debug)]
pub enum TranscriptionStatus {
    /// The job is done; the text is where the transcript can be fetched.
    Completed(String),
    /// The service gave the job up; the text is its reason.
    Failed(String),
}

/// The mathematical value of a [`TranscriptionStatus`].
pub enum StatusView {
    Completed(Seq<char>),
    Failed(Seq<char>),
}

impl View for TranscriptionStatus {
    type V = StatusView;

    open spec fn view(&self) -> StatusView {
        match self {
            TranscriptionStatus::Completed(uri) => StatusView::Completed(uri@),
            TranscriptionStatus::Failed(reason) => StatusView::Failed(reason@),
        }
    }
}

} // verus!
