//! The single-request upload: the file is read into memory and stored in
//! one piece.

use crate::aws::s3::{
    s3_error, s3_location, s3_uri, unexpected_event, upload_too_large, UploadAction,
    UploadActionView, UploadEvent, UploadEventView,
};
use crate::error::{AppError, ErrorView};
use crate::progress::{BarStatus, ProgressTracker, TrackerView};
use vstd::prelude::*;
use vstd::string::*;

verus! {

/// Most bytes asked of the source file in one read.
pub const READ_CHUNK_SIZE: usize = 65536;

/// Below this size, in bytes, a file counts as small.
pub const SMALL_FILE_LIMIT: u64 = 1048576;

/// Milliseconds to pause after each read of a small file, so that its
/// progress can be seen.
pub const SMALL_FILE_PAUSE_MILLIS: u64 = 10;

/// Where a single-request upload stands.
#[derive(Debug, Clone, Copy, PartialEq, Eq, Structural)]
pub enum SimplePhase {
    /// Asked for the source file to be opened.
    Opening,
    /// Asked for more bytes.
    Reading,
    /// Asked for a pause.
    Pausing,
    /// Sent the object to the store.
    Storing,
    /// Nothing is left to do.
    Done,
}

/// A single-request upload under way.
#[derive(Debug)]
pub struct SimpleUpload {
    bucket: String,
    key: String,
    file_size: u64,
    buffer: Vec<u8>,
    tracker: ProgressTracker,
    phase: SimplePhase,
}

/// The mathematical value of a [`SimpleUpload`].
pub struct SimpleView {
    pub bucket: Seq<char>,
    pub key: Seq<char>,
    /// The size that the file was said to have when the upload began.
    pub file_size: u64,
    /// The bytes read so far; empty once they were handed to the store.
    pub buffer: Seq<u8>,
    pub tracker: TrackerView,
    pub phase: SimplePhase,
}

impl View for SimpleUpload {
    type V = SimpleView;

    closed spec fn view(&self) -> SimpleView {
        SimpleView {
            bucket: self.bucket@,
            key: self.key@,
            file_size: self.file_size,
            buffer: self.buffer@,
            tracker: self.tracker@,
            phase: self.phase,
        }
    }
}

impl SimpleView {
    /// The state of an upload that has just asked for its source file. A
    /// file said to be empty gets a tracker without a total.
    pub open spec fn start(
        bucket: Seq<char>,
        key: Seq<char>,
        file_name: Seq<char>,
        file_size: u64,
        terminal: bool,
    ) -> SimpleView {
        SimpleView {
            bucket,
            key,
            file_size,
            buffer: Seq::empty(),
            tracker: if file_size == 0 {
                TrackerView::start(0, file_name, false)
            } else {
                TrackerView::start(file_size, file_name, terminal)
            },
            phase: SimplePhase::Opening,
        }
    }

    /// Whether the bytes read so far are still held.
    pub open spec fn collecting(self) -> bool {
        self.phase == SimplePhase::Opening || self.phase == SimplePhase::Reading || self.phase
            == SimplePhase::Pausing
    }

    /// What holds of every upload that was started and stepped: the buffer
    /// fits in memory, and while bytes are collected the tracker has counted
    /// exactly those in the buffer.
    pub open spec fn wf(self) -> bool {
        &&& self.buffer.len() <= usize::MAX
        &&& self.tracker.wf()
        &&& self.collecting() ==> self.tracker.bytes_uploaded == self.buffer.len()
    }

    /// Where the object will live.
    pub open spec fn location(self) -> Seq<char> {
        s3_uri(self.bucket, self.key)
    }

    /// The upload ends with `error`.
    pub open spec fn fail(self, error: ErrorView) -> (SimpleView, UploadActionView) {
        (SimpleView { phase: SimplePhase::Done, ..self }, UploadActionView::Finish(Err(error)))
    }

    /// The state that asks for the next read.
    pub open spec fn read_more(self) -> (SimpleView, UploadActionView) {
        (
            SimpleView { phase: SimplePhase::Reading, ..self },
            UploadActionView::Read { max: READ_CHUNK_SIZE as nat },
        )
    }

    /// A read returned `bytes`. At the end of the file everything read goes
    /// to the store in one request. Else the bytes join the buffer and are
    /// counted; reading goes on, for a small file after a short pause.
    pub open spec fn on_data(self, bytes: Seq<u8>) -> (SimpleView, UploadActionView) {
        if bytes.len() > READ_CHUNK_SIZE {
            self.fail(unexpected_event())
        } else if bytes.len() == 0 {
            (
                SimpleView { phase: SimplePhase::Storing, buffer: Seq::empty(), ..self },
                UploadActionView::PutObject { body: self.buffer },
            )
        } else if self.buffer.len() + bytes.len() > usize::MAX {
            self.fail(upload_too_large())
        } else {
            let grown = SimpleView {
                buffer: self.buffer + bytes,
                tracker: self.tracker.advance(bytes.len()),
                ..self
            };
            if self.file_size < SMALL_FILE_LIMIT {
                (
                    SimpleView { phase: SimplePhase::Pausing, ..grown },
                    UploadActionView::Pause { millis: SMALL_FILE_PAUSE_MILLIS as nat },
                )
            } else {
                grown.read_more()
            }
        }
    }

    /// The next state and the next action, for every state and event.
    pub open spec fn step(self, event: UploadEventView) -> (SimpleView, UploadActionView) {
        match self.phase {
            SimplePhase::Opening => match event {
                UploadEventView::SourceOpened => self.read_more(),
                UploadEventView::SourceFailed(cause) => self.fail(ErrorView::Io(cause)),
                _ => self.fail(unexpected_event()),
            },
            SimplePhase::Reading => match event {
                UploadEventView::Data(bytes) => self.on_data(bytes),
                UploadEventView::SourceFailed(cause) => self.fail(ErrorView::Io(cause)),
                _ => self.fail(unexpected_event()),
            },
            SimplePhase::Pausing => match event {
                UploadEventView::PauseElapsed => self.read_more(),
                _ => self.fail(unexpected_event()),
            },
            SimplePhase::Storing => match event {
                UploadEventView::ObjectStored => (
                    SimpleView {
                        phase: SimplePhase::Done,
                        tracker: self.tracker.frozen(BarStatus::Finished),
                        ..self
                    },
                    UploadActionView::Finish(Ok(self.location())),
                ),
                UploadEventView::ObjectRefused(why) => (
                    SimpleView {
                        phase: SimplePhase::Done,
                        tracker: self.tracker.frozen(BarStatus::Abandoned),
                        ..self
                    },
                    UploadActionView::Finish(
                        Err(ErrorView::S3("Failed to upload file to S3: "@ + why)),
                    ),
                ),
                _ => self.fail(unexpected_event()),
            },
            SimplePhase::Done => self.fail(unexpected_event()),
        }
    }
}

impl SimpleUpload {
    /// Starts a single-request upload of a file of `file_size` bytes to
    /// `key` in `bucket`. The first action is [`UploadAction::OpenSource`].
    pub fn begin(
        bucket: &str,
        key: &str,
        file_name: &str,
        file_size: u64,
        terminal_supported: bool,
    ) -> (upload: Self)
        ensures
            upload@ == SimpleView::start(bucket@, key@, file_name@, file_size, terminal_supported),
            upload@.wf(),
    {
        let tracker = if file_size == 0 {
            ProgressTracker::new_indeterminate(file_name)
        } else {
            ProgressTracker::with_terminal(file_size, file_name, terminal_supported)
        };
        SimpleUpload {
            bucket: String::from_str(bucket),
            key: String::from_str(key),
            file_size,
            buffer: Vec::new(),
            tracker,
            phase: SimplePhase::Opening,
        }
    }

    /// The progress of the upload.
    pub fn tracker(&self) -> (tracker: &ProgressTracker)
        ensures
            tracker@ == self@.tracker,
    {
        &self.tracker
    }

    /// Where the upload stands.
    pub fn phase(&self) -> (phase: SimplePhase)
        ensures
            phase == self@.phase,
    {
        self.phase
    }

    fn fail(self, error: AppError) -> (next: (SimpleUpload, UploadAction))
        ensures
            (next.0@, next.1@) == self@.fail(error@),
    {
        let mut upload = self;
        upload.phase = SimplePhase::Done;
        (upload, UploadAction::Finish(Err(error)))
    }

    fn fail_unexpected(self) -> (next: (SimpleUpload, UploadAction))
        ensures
            (next.0@, next.1@) == self@.fail(unexpected_event()),
    {
        self.fail(AppError::S3(String::from_str("Unexpected event for the upload in progress")))
    }

    fn read_more(self) -> (next: (SimpleUpload, UploadAction))
        ensures
            (next.0@, next.1@) == self@.read_more(),
    {
        let mut upload = self;
        upload.phase = SimplePhase::Reading;
        (upload, UploadAction::Read { max: READ_CHUNK_SIZE })
    }

    fn on_data(self, bytes: Vec<u8>) -> (next: (SimpleUpload, UploadAction))
        requires
            self@.wf(),
            self@.phase == SimplePhase::Reading,
        ensures
            (next.0@, next.1@) == self@.on_data(bytes@),
    {
        if bytes.len() > READ_CHUNK_SIZE {
            self.fail_unexpected()
        } else if bytes.len() == 0 {
            let mut upload = self;
            let mut body: Vec<u8> = Vec::new();
            core::mem::swap(&mut upload.buffer, &mut body);
            upload.phase = SimplePhase::Storing;
            (upload, UploadAction::PutObject { body })
        } else if bytes.len() > usize::MAX - self.buffer.len() {
            self.fail(AppError::S3(String::from_str("Upload exceeds the supported size")))
        } else {
            let mut upload = self;
            upload.buffer.extend_from_slice(bytes.as_slice());
            assert(upload.buffer@ =~= self.buffer@ + bytes@);
            upload.tracker.update_progress(bytes.len() as u64);
            if upload.file_size < SMALL_FILE_LIMIT {
                upload.phase = SimplePhase::Pausing;
                (upload, UploadAction::Pause { millis: SMALL_FILE_PAUSE_MILLIS })
            } else {
                upload.read_more()
            }
        }
    }

    /// Takes what the last action brought back and gives the next action.
    ///
    /// An event that does not answer the last action, or a read that
    /// returned more than was asked for, ends the upload with an error.
    pub fn step(self, event: UploadEvent) -> (next: (SimpleUpload, UploadAction))
        requires
            self@.wf(),
        ensures
            (next.0@, next.1@) == self@.step(event@),
            next.0@.wf(),
    {
        proof {
            lemma_simple_step_keeps_wf(self@, event@);
        }
        match self.phase {
            SimplePhase::Opening => match event {
                UploadEvent::SourceOpened => self.read_more(),
                UploadEvent::SourceFailed(cause) => self.fail(AppError::Io(cause)),
                _ => self.fail_unexpected(),
            },
            SimplePhase::Reading => match event {
                UploadEvent::Data(bytes) => self.on_data(bytes),
                UploadEvent::SourceFailed(cause) => self.fail(AppError::Io(cause)),
                _ => self.fail_unexpected(),
            },
            SimplePhase::Pausing => match event {
                UploadEvent::PauseElapsed => self.read_more(),
                _ => self.fail_unexpected(),
            },
            SimplePhase::Storing => match event {
                UploadEvent::ObjectStored => {
                    let mut upload = self;
                    upload.tracker.finish();
                    upload.phase = SimplePhase::Done;
                    let location = s3_location(upload.bucket.as_str(), upload.key.as_str());
                    (upload, UploadAction::Finish(Ok(location)))
                },
                UploadEvent::ObjectRefused(why) => {
                    let mut upload = self;
                    upload.tracker.abandon();
                    upload.phase = SimplePhase::Done;
                    let error = s3_error("Failed to upload file to S3: ", why.as_str());
                    (upload, UploadAction::Finish(Err(error)))
                },
                _ => self.fail_unexpected(),
            },
            SimplePhase::Done => self.fail_unexpected(),
        }
    }
}

/// Every step of a well-formed upload leaves it well-formed.
pub proof fn lemma_simple_step_keeps_wf(upload: SimpleView, event: UploadEventView)
    requires
        upload.wf(),
    ensures
        upload.step(event).0.wf(),
{
}

/// No step takes back bytes that were counted: the progress of an upload
/// never decreases.
pub proof fn lemma_simple_progress_never_decreases(upload: SimpleView, event: UploadEventView)
    requires
        upload.wf(),
    ensures
        upload.step(event).0.tracker.bytes_uploaded >= upload.tracker.bytes_uploaded,
{
}

/// An upload that has just been started is well-formed.
pub proof fn lemma_simple_start_is_well_formed(
    bucket: Seq<char>,
    key: Seq<char>,
    file_name: Seq<char>,
    file_size: u64,
    terminal: bool,
)
    ensures
        SimpleView::start(bucket, key, file_name, file_size, terminal).wf(),
{
}

/// An upload that is done stays done: whatever it is told, it asks the
/// store for nothing more.
pub proof fn lemma_simple_done_is_final(upload: SimpleView, event: UploadEventView)
    requires
        upload.phase == SimplePhase::Done,
    ensures
        upload.step(event) == (upload, UploadActionView::Finish(Err(unexpected_event()))),
{
}

} // verus!
