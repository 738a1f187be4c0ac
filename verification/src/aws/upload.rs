//! Starting an upload with the strategy that fits the file, and stepping it.

use crate::aws::multipart::{MultipartUpload, MultipartView};
use crate::aws::s3::{UploadAction, UploadActionView, UploadEvent, UploadEventView};
use crate::aws::single::{SimpleUpload, SimpleView};
use crate::progress::{ProgressTracker, TrackerView, UploadProgressBar, UploadStrategy};
use crate::utils::{
    file_name_of, file_name_or_unknown, name_or_unknown, s3_key_at, s3_key_text, unix_timestamp,
};
use std::path::Path;
use vstd::prelude::*;

verus! {

/// An upload under way, of either kind.
#[derive(Debug)]
pub enum Upload {
    Simple(SimpleUpload),
    Multipart(MultipartUpload),
}

/// The mathematical value of an [`Upload`].
pub enum UploadView {
    Simple(SimpleView),
    Multipart(MultipartView),
}

impl View for Upload {
    type V = UploadView;

    open spec fn view(&self) -> UploadView {
        match self {
            Upload::Simple(upload) => UploadView::Simple(upload@),
            Upload::Multipart(upload) => UploadView::Multipart(upload@),
        }
    }
}

impl UploadView {
    /// The upload of a file of `file_size` bytes, and its first action: the
    /// strategy goes by the size; a chunked upload begins by asking for a
    /// session, a single-request upload by opening the file.
    pub open spec fn start(
        bucket: Seq<char>,
        key: Seq<char>,
        file_name: Seq<char>,
        file_size: u64,
        terminal: bool,
    ) -> (UploadView, UploadActionView) {
        match UploadStrategy::for_size(file_size) {
            UploadStrategy::Simple => (
                UploadView::Simple(SimpleView::start(bucket, key, file_name, file_size, terminal)),
                UploadActionView::OpenSource,
            ),
            UploadStrategy::Multipart { part_size } => (
                UploadView::Multipart(
                    MultipartView::start(
                        bucket,
                        key,
                        file_name,
                        file_size,
                        part_size as nat,
                        terminal,
                    ),
                ),
                UploadActionView::CreateSession,
            ),
        }
    }

    /// What holds of every upload that was started and stepped.
    pub open spec fn wf(self) -> bool {
        match self {
            UploadView::Simple(upload) => upload.wf(),
            UploadView::Multipart(upload) => upload.wf(),
        }
    }

    /// The next state and the next action, for every state and event.
    pub open spec fn step(self, event: UploadEventView) -> (UploadView, UploadActionView) {
        match self {
            UploadView::Simple(upload) => (
                UploadView::Simple(upload.step(event).0),
                upload.step(event).1,
            ),
            UploadView::Multipart(upload) => (
                UploadView::Multipart(upload.step(event).0),
                upload.step(event).1,
            ),
        }
    }

    /// The progress of the upload.
    pub open spec fn tracker(self) -> TrackerView {
        match self {
            UploadView::Simple(upload) => upload.tracker,
            UploadView::Multipart(upload) => upload.tracker,
        }
    }
}

impl Upload {
    /// Takes what the last action brought back and gives the next action.
    pub fn step(self, event: UploadEvent) -> (next: (Upload, UploadAction))
        requires
            self@.wf(),
        ensures
            (next.0@, next.1@) == self@.step(event@),
            next.0@.wf(),
    {
        match self {
            Upload::Simple(upload) => {
                let (upload, action) = upload.step(event);
                (Upload::Simple(upload), action)
            },
            Upload::Multipart(upload) => {
                let (upload, action) = upload.step(event);
                (Upload::Multipart(upload), action)
            },
        }
    }

    /// The progress of the upload.
    pub fn tracker(&self) -> (tracker: &ProgressTracker)
        ensures
            tracker@ == self@.tracker(),
    {
        match self {
            Upload::Simple(upload) => upload.tracker(),
            Upload::Multipart(upload) => upload.tracker(),
        }
    }
}

/// Starts the upload of a file of `file_size` bytes to `key` in `bucket`
/// and gives its first action.
pub fn begin_upload(
    bucket: &str,
    key: &str,
    file_name: &str,
    file_size: u64,
    terminal_supported: bool,
) -> (begun: (Upload, UploadAction))
    ensures
        (begun.0@, begun.1@) == UploadView::start(
            bucket@,
            key@,
            file_name@,
            file_size,
            terminal_supported,
        ),
        begun.0@.wf(),
{
    match UploadStrategy::determine(file_size) {
        UploadStrategy::Simple => (
            Upload::Simple(
                SimpleUpload::begin(bucket, key, file_name, file_size, terminal_supported),
            ),
            UploadAction::OpenSource,
        ),
        UploadStrategy::Multipart { part_size } => (
            Upload::Multipart(
                MultipartUpload::begin(
                    bucket,
                    key,
                    file_name,
                    file_size,
                    part_size,
                    terminal_supported,
                ),
            ),
            UploadAction::CreateSession,
        ),
    }
}

/// Starts the upload of the file at `file_path`, of `file_size` bytes, to
/// `bucket`, under a fresh key made from the file's name and the current
/// time. Progress is drawn as a bar where the terminal can show one.
pub fn upload_file_to_s3(bucket: &str, file_path: &Path, file_size: u64) -> (begun: (
    Upload,
    UploadAction,
))
    ensures
        exists|timestamp: u64, terminal: bool| #[trigger]
            UploadView::start(
                bucket@,
                s3_key_text(timestamp, name_or_unknown(file_name_of(file_path))),
                name_or_unknown(file_name_of(file_path)),
                file_size,
                terminal,
            ) == (begun.0@, begun.1@),
        begun.0@.wf(),
{
    let file_name = file_name_or_unknown(file_path);
    let timestamp = unix_timestamp();
    let key = s3_key_at(timestamp, file_name);
    let terminal = UploadProgressBar::is_terminal_supported();
    begin_upload(bucket, key.as_str(), file_name, file_size, terminal)
}

} // verus!
