//! The chunked upload: a session with the object store that takes the file
//! part by part.

use crate::aws::s3::{
    clone_parts, parts_view, s3_error, s3_location, s3_uri, unexpected_event,
    upload_too_large, CompletedPart, PartView, UploadAction, UploadActionView, UploadEvent,
    UploadEventView,
};
use crate::error::{AppError, ErrorView};
use crate::progress::{BarStatus, ProgressTracker, TrackerView};
use crate::text::{decimal, decimal_string, join2, text_view};
use vstd::prelude::*;
use vstd::string::*;

verus! {

/// What the object store knows of a chunked upload under way.
#[derive(Debug)]
pub struct UploadSession {
    /// The store's name for the session; empty until the store gave one.
    pub upload_id: String,
    /// The parts stored so far, in upload order.
    pub parts: Vec<CompletedPart>,
    /// Bytes held by the parts stored so far.
    pub offset: u64,
}

/// The mathematical value of an [`UploadSession`].
pub struct SessionView {
    pub upload_id: Seq<char>,
    pub parts: Seq<PartView>,
    pub offset: nat,
}

impl View for UploadSession {
    type V = SessionView;

    open spec fn view(&self) -> SessionView {
        SessionView {
            upload_id: self.upload_id@,
            parts: parts_view(self.parts@),
            offset: self.offset as nat,
        }
    }
}

impl SessionView {
    /// Parts are numbered 1, 2, 3, ... in upload order, and each carries the
    /// tag that the store gave it.
    pub open spec fn wf(self) -> bool {
        forall|i: int|
            0 <= i < self.parts.len() ==> (#[trigger] self.parts[i]).part_number == i + 1
                && self.parts[i].e_tag.len() > 0
    }

    /// The number that the next part gets.
    pub open spec fn next_part_number(self) -> int {
        (self.parts.len() + 1) as int
    }
}

/// Where a chunked upload stands.
#[derive(Debug, Clone, Copy, PartialEq, Eq, Structural)]
pub enum MultipartPhase {
    /// Asked the store for a session.
    Creating,
    /// Asked for the source file to be opened.
    Opening,
    /// Asked for more bytes of the current part.
    Reading,
    /// Sent the current part to the store.
    Sending,
    /// Asked the store to assemble the parts.
    Completing,
    /// Assembly was refused; asked the store to abort the session.
    Aborting,
    /// Nothing is left to do.
    Done,
}

/// A chunked upload under way.
#[derive(Debug)]
pub struct MultipartUpload {
    bucket: String,
    key: String,
    part_size: usize,
    session: UploadSession,
    chunk: Vec<u8>,
    failure: String,
    tracker: ProgressTracker,
    phase: MultipartPhase,
}

/// The mathematical value of a [`MultipartUpload`].
pub struct MultipartView {
    pub bucket: Seq<char>,
    pub key: Seq<char>,
    /// Bytes in every part but the last.
    pub part_size: nat,
    pub session: SessionView,
    /// The bytes read so far of the part that is being filled or sent.
    pub chunk: Seq<u8>,
    /// Why assembly was refused, while the session is being aborted.
    pub failure: Seq<char>,
    pub tracker: TrackerView,
    pub phase: MultipartPhase,
}

impl View for MultipartUpload {
    type V = MultipartView;

    closed spec fn view(&self) -> MultipartView {
        MultipartView {
            bucket: self.bucket@,
            key: self.key@,
            part_size: self.part_size as nat,
            session: self.session@,
            chunk: self.chunk@,
            failure: self.failure@,
            tracker: self.tracker@,
            phase: self.phase,
        }
    }
}

impl MultipartView {
    /// The state of an upload that has just asked for its session.
    pub open spec fn start(
        bucket: Seq<char>,
        key: Seq<char>,
        file_name: Seq<char>,
        file_size: u64,
        part_size: nat,
        terminal: bool,
    ) -> MultipartView {
        MultipartView {
            bucket,
            key,
            part_size,
            session: SessionView { upload_id: Seq::empty(), parts: Seq::empty(), offset: 0 },
            chunk: Seq::empty(),
            failure: Seq::empty(),
            tracker: TrackerView::start(file_size, file_name, terminal),
            phase: MultipartPhase::Creating,
        }
    }

    /// What holds of every upload that was started and stepped: counters
    /// fit their machine types, the display shows the bytes of the stored
    /// parts, and the current part is within its size.
    pub open spec fn wf(self) -> bool {
        &&& 0 < self.part_size <= usize::MAX
        &&& self.session.wf()
        &&& self.session.parts.len() <= i32::MAX
        &&& self.session.offset <= u64::MAX
        &&& self.tracker.wf()
        &&& self.tracker.bytes_uploaded == self.session.offset
        &&& self.chunk.len() <= self.part_size
        &&& (self.phase == MultipartPhase::Creating || self.phase == MultipartPhase::Opening)
            ==> self.chunk.len() == 0
        &&& self.phase == MultipartPhase::Reading ==> self.chunk.len() < self.part_size
        &&& self.phase == MultipartPhase::Sending ==> {
            &&& self.chunk.len() > 0
            &&& self.session.parts.len() < i32::MAX
            &&& self.session.offset + self.chunk.len() <= u64::MAX
        }
        &&& (self.phase == MultipartPhase::Completing || self.phase == MultipartPhase::Aborting)
            ==> self.session.parts.len() > 0
    }

    /// Bytes taken from the source file so far.
    pub open spec fn bytes_read(self) -> nat {
        self.session.offset + self.chunk.len()
    }

    /// Where the object will live.
    pub open spec fn location(self) -> Seq<char> {
        s3_uri(self.bucket, self.key)
    }

    /// The upload ends with `error`, and the store is asked for nothing
    /// more. This is how an upload ends that has no session to give up:
    /// before the store has opened one, and after it was asked to abort it.
    pub open spec fn fail(self, error: ErrorView) -> (MultipartView, UploadActionView) {
        (MultipartView { phase: MultipartPhase::Done, ..self }, UploadActionView::Finish(Err(error)))
    }

    /// The upload ends with `error`, and its session is given up: the
    /// store is asked, in the background, to abort it. This is how an
    /// upload fails while its session is open.
    pub open spec fn abandon(self, error: ErrorView) -> (MultipartView, UploadActionView) {
        (
            MultipartView { phase: MultipartPhase::Done, ..self },
            UploadActionView::Abandon { upload_id: self.session.upload_id, error },
        )
    }

    /// The current part is ready: it goes to the store under the next
    /// number, unless that number or the byte count no longer fits.
    pub open spec fn send_chunk(self) -> (MultipartView, UploadActionView) {
        if self.session.parts.len() >= i32::MAX || self.session.offset + self.chunk.len()
            > u64::MAX {
            self.abandon(upload_too_large())
        } else {
            (
                MultipartView { phase: MultipartPhase::Sending, ..self },
                UploadActionView::UploadPart {
                    upload_id: self.session.upload_id,
                    part_number: self.session.next_part_number(),
                    body: self.chunk,
                },
            )
        }
    }

    /// The source was read out: without a stored part there is nothing to
    /// assemble, and the upload fails and gives its session up; else the
    /// store is asked to assemble.
    pub open spec fn finish_reading(self) -> (MultipartView, UploadActionView) {
        if self.session.parts.len() == 0 {
            (MultipartView { tracker: self.tracker.frozen(BarStatus::Abandoned), ..self }).abandon(
                ErrorView::S3("No parts were successfully uploaded"@),
            )
        } else {
            (
                MultipartView { phase: MultipartPhase::Completing, ..self },
                UploadActionView::CompleteSession {
                    upload_id: self.session.upload_id,
                    parts: self.session.parts,
                },
            )
        }
    }

    /// A read returned `bytes`. They join the current part. A part is sent
    /// when it is full, or when the file ended and left it short. When the
    /// file ended between two parts, reading is over.
    pub open spec fn on_data(self, bytes: Seq<u8>) -> (MultipartView, UploadActionView) {
        if bytes.len() > self.part_size - self.chunk.len() {
            self.abandon(unexpected_event())
        } else if bytes.len() == 0 {
            if self.chunk.len() > 0 {
                self.send_chunk()
            } else {
                self.finish_reading()
            }
        } else {
            let grown = MultipartView { chunk: self.chunk + bytes, ..self };
            if grown.chunk.len() == self.part_size {
                grown.send_chunk()
            } else {
                (
                    grown,
                    UploadActionView::Read { max: (self.part_size - grown.chunk.len()) as nat },
                )
            }
        }
    }

    /// The store took the current part. With its tag the part joins the
    /// list, its bytes are counted, and the next part is begun; without a
    /// tag the upload fails and gives its session up.
    pub open spec fn on_part_stored(self, tag: Option<Seq<char>>) -> (
        MultipartView,
        UploadActionView,
    ) {
        if tag is Some && tag->0.len() > 0 {
            (
                MultipartView {
                    session: SessionView {
                        parts: self.session.parts.push(
                            PartView {
                                part_number: self.session.next_part_number(),
                                e_tag: tag->0,
                            },
                        ),
                        offset: self.session.offset + self.chunk.len(),
                        ..self.session
                    },
                    chunk: Seq::empty(),
                    tracker: self.tracker.advance(self.chunk.len()),
                    phase: MultipartPhase::Reading,
                    ..self
                },
                UploadActionView::Read { max: self.part_size },
            )
        } else {
            self.abandon(
                ErrorView::S3(
                    "No ETag returned for part "@ + decimal(
                        self.session.next_part_number() as nat,
                    ),
                ),
            )
        }
    }

    /// The store refused the current part: the session is given up in the
    /// background and the upload ends with the store's complaint.
    pub open spec fn on_part_refused(self, why: Seq<char>) -> (MultipartView, UploadActionView) {
        self.abandon(
            ErrorView::S3(
                "Failed to upload part "@ + decimal(self.session.next_part_number() as nat)
                    + ": "@ + why,
            ),
        )
    }

    /// The next state and the next action, for every state and event.
    ///
    /// Once the store has opened the session, every failure gives the
    /// session up: a source that cannot be opened or read, a part that is
    /// refused or comes back without its tag, a file without a byte, an
    /// upload too large to count, and an event that was not asked for. A
    /// refused assembly is followed by an abort whose answer is waited for.
    pub open spec fn step(self, event: UploadEventView) -> (MultipartView, UploadActionView) {
        match self.phase {
            MultipartPhase::Creating => match event {
                UploadEventView::SessionCreated(Some(id)) => (
                    MultipartView {
                        session: SessionView { upload_id: id, ..self.session },
                        phase: MultipartPhase::Opening,
                        ..self
                    },
                    UploadActionView::OpenSource,
                ),
                UploadEventView::SessionCreated(None) => self.fail(
                    ErrorView::S3("No upload ID returned"@),
                ),
                UploadEventView::SessionRefused(why) => self.fail(
                    ErrorView::S3("Failed to create multipart upload: "@ + why),
                ),
                _ => self.fail(unexpected_event()),
            },
            MultipartPhase::Opening => match event {
                UploadEventView::SourceOpened => (
                    MultipartView { phase: MultipartPhase::Reading, ..self },
                    UploadActionView::Read { max: (self.part_size - self.chunk.len()) as nat },
                ),
                UploadEventView::SourceFailed(cause) => self.abandon(ErrorView::Io(cause)),
                _ => self.abandon(unexpected_event()),
            },
            MultipartPhase::Reading => match event {
                UploadEventView::Data(bytes) => self.on_data(bytes),
                UploadEventView::SourceFailed(cause) => self.abandon(ErrorView::Io(cause)),
                _ => self.abandon(unexpected_event()),
            },
            MultipartPhase::Sending => match event {
                UploadEventView::PartStored(tag) => self.on_part_stored(tag),
                UploadEventView::PartRefused(why) => self.on_part_refused(why),
                _ => self.abandon(unexpected_event()),
            },
            MultipartPhase::Completing => match event {
                UploadEventView::SessionCompleted => (
                    MultipartView {
                        phase: MultipartPhase::Done,
                        tracker: self.tracker.frozen(BarStatus::Finished),
                        ..self
                    },
                    UploadActionView::Finish(Ok(self.location())),
                ),
                UploadEventView::CompletionRefused(why) => (
                    MultipartView {
                        phase: MultipartPhase::Aborting,
                        tracker: self.tracker.frozen(BarStatus::Abandoned),
                        failure: why,
                        ..self
                    },
                    UploadActionView::AbortSession { upload_id: self.session.upload_id },
                ),
                _ => self.abandon(unexpected_event()),
            },
            MultipartPhase::Aborting => match event {
                UploadEventView::SessionAborted(_) => self.fail(
                    ErrorView::S3("Failed to complete multipart upload: "@ + self.failure),
                ),
                _ => self.fail(unexpected_event()),
            },
            MultipartPhase::Done => self.fail(unexpected_event()),
        }
    }
}

impl MultipartUpload {
    /// Starts a chunked upload of a file of `file_size` bytes to `key` in
    /// `bucket`, in parts of `part_size` bytes. The first action is
    /// [`UploadAction::CreateSession`].
    pub fn begin(
        bucket: &str,
        key: &str,
        file_name: &str,
        file_size: u64,
        part_size: usize,
        terminal_supported: bool,
    ) -> (upload: Self)
        requires
            part_size > 0,
        ensures
            upload@ == MultipartView::start(
                bucket@,
                key@,
                file_name@,
                file_size,
                part_size as nat,
                terminal_supported,
            ),
            upload@.wf(),
    {
        let upload = MultipartUpload {
            bucket: String::from_str(bucket),
            key: String::from_str(key),
            part_size,
            session: UploadSession { upload_id: String::new(), parts: Vec::new(), offset: 0 },
            chunk: Vec::new(),
            failure: String::new(),
            tracker: ProgressTracker::with_terminal(file_size, file_name, terminal_supported),
            phase: MultipartPhase::Creating,
        };
        assert(upload@.session.parts =~= Seq::empty());
        upload
    }

    /// The progress of the upload.
    pub fn tracker(&self) -> (tracker: &ProgressTracker)
        ensures
            tracker@ == self@.tracker,
    {
        &self.tracker
    }

    /// The session with the store.
    pub fn session(&self) -> (session: &UploadSession)
        ensures
            session@ == self@.session,
    {
        &self.session
    }

    /// Where the upload stands.
    pub fn phase(&self) -> (phase: MultipartPhase)
        ensures
            phase == self@.phase,
    {
        self.phase
    }

    fn fail(self, error: AppError) -> (next: (MultipartUpload, UploadAction))
        ensures
            (next.0@, next.1@) == self@.fail(error@),
    {
        let mut upload = self;
        upload.phase = MultipartPhase::Done;
        (upload, UploadAction::Finish(Err(error)))
    }

    fn fail_unexpected(self) -> (next: (MultipartUpload, UploadAction))
        ensures
            (next.0@, next.1@) == self@.fail(unexpected_event()),
    {
        self.fail(AppError::S3(String::from_str("Unexpected event for the upload in progress")))
    }

    fn abandon(self, error: AppError) -> (next: (MultipartUpload, UploadAction))
        ensures
            (next.0@, next.1@) == self@.abandon(error@),
    {
        let mut upload = self;
        upload.phase = MultipartPhase::Done;
        let action = UploadAction::Abandon { upload_id: upload.session.upload_id.clone(), error };
        (upload, action)
    }

    fn abandon_unexpected(self) -> (next: (MultipartUpload, UploadAction))
        ensures
            (next.0@, next.1@) == self@.abandon(unexpected_event()),
    {
        self.abandon(AppError::S3(String::from_str("Unexpected event for the upload in progress")))
    }

    fn send_chunk(self) -> (next: (MultipartUpload, UploadAction))
        ensures
            (next.0@, next.1@) == self@.send_chunk(),
    {
        if self.session.parts.len() >= i32::MAX as usize || self.chunk.len() as u64 > u64::MAX
            - self.session.offset {
            self.abandon(AppError::S3(String::from_str("Upload exceeds the supported size")))
        } else {
            let mut upload = self;
            upload.phase = MultipartPhase::Sending;
            let action = UploadAction::UploadPart {
                upload_id: upload.session.upload_id.clone(),
                part_number: (upload.session.parts.len() + 1) as i32,
                body: upload.chunk.clone(),
            };
            (upload, action)
        }
    }

    fn finish_reading(self) -> (next: (MultipartUpload, UploadAction))
        ensures
            (next.0@, next.1@) == self@.finish_reading(),
    {
        let mut upload = self;
        if upload.session.parts.len() == 0 {
            upload.tracker.abandon();
            upload.abandon(AppError::S3(String::from_str("No parts were successfully uploaded")))
        } else {
            upload.phase = MultipartPhase::Completing;
            let action = UploadAction::CompleteSession {
                upload_id: upload.session.upload_id.clone(),
                parts: clone_parts(&upload.session.parts),
            };
            (upload, action)
        }
    }

    fn on_data(self, bytes: Vec<u8>) -> (next: (MultipartUpload, UploadAction))
        requires
            self@.wf(),
            self@.phase == MultipartPhase::Reading,
        ensures
            (next.0@, next.1@) == self@.on_data(bytes@),
    {
        if bytes.len() > self.part_size - self.chunk.len() {
            self.abandon_unexpected()
        } else if bytes.len() == 0 {
            if self.chunk.len() > 0 {
                self.send_chunk()
            } else {
                self.finish_reading()
            }
        } else {
            let mut upload = self;
            upload.chunk.extend_from_slice(bytes.as_slice());
            assert(upload.chunk@ =~= self.chunk@ + bytes@);
            if upload.chunk.len() == upload.part_size {
                upload.send_chunk()
            } else {
                let max = upload.part_size - upload.chunk.len();
                (upload, UploadAction::Read { max })
            }
        }
    }

    fn on_part_stored(self, tag: Option<String>) -> (next: (MultipartUpload, UploadAction))
        requires
            self@.wf(),
            self@.phase == MultipartPhase::Sending,
        ensures
            (next.0@, next.1@) == self@.on_part_stored(text_view(tag)),
    {
        let part_number = (self.session.parts.len() + 1) as i32;
        match tag {
            Some(e_tag) => {
                if e_tag.as_str().is_empty() {
                    let number = decimal_string(part_number as u64);
                    self.abandon(s3_error("No ETag returned for part ", number.as_str()))
                } else {
                    let mut upload = self;
                    let sent = upload.chunk.len() as u64;
                    upload.session.parts.push(CompletedPart { part_number, e_tag });
                    upload.session.offset = upload.session.offset + sent;
                    upload.tracker.update_progress(sent);
                    upload.chunk = Vec::new();
                    upload.phase = MultipartPhase::Reading;
                    assert(upload@.session.parts =~= self@.session.parts.push(
                        PartView { part_number: self@.session.next_part_number(), e_tag: e_tag@ },
                    ));
                    let max = upload.part_size;
                    (upload, UploadAction::Read { max })
                }
            },
            None => {
                let number = decimal_string(part_number as u64);
                self.abandon(s3_error("No ETag returned for part ", number.as_str()))
            },
        }
    }

    fn on_part_refused(self, why: String) -> (next: (MultipartUpload, UploadAction))
        requires
            self@.wf(),
            self@.phase == MultipartPhase::Sending,
        ensures
            (next.0@, next.1@) == self@.on_part_refused(why@),
    {
        let part_number = (self.session.parts.len() + 1) as u64;
        let mut text = join2("Failed to upload part ", decimal_string(part_number).as_str());
        text.append(": ");
        text.append(why.as_str());
        self.abandon(AppError::S3(text))
    }

    /// Takes what the last action brought back and gives the next action.
    ///
    /// An event that does not answer the last action, or a read that
    /// returned more than was asked for, ends the upload with an error.
    /// An upload that fails while its session is open gives the session
    /// up: its last action is [`UploadAction::Abandon`].
    pub fn step(self, event: UploadEvent) -> (next: (MultipartUpload, UploadAction))
        requires
            self@.wf(),
        ensures
            (next.0@, next.1@) == self@.step(event@),
            next.0@.wf(),
    {
        proof {
            lemma_step_keeps_wf(self@, event@);
        }
        match self.phase {
            MultipartPhase::Creating => match event {
                UploadEvent::SessionCreated(Some(id)) => {
                    let mut upload = self;
                    upload.session.upload_id = id;
                    upload.phase = MultipartPhase::Opening;
                    (upload, UploadAction::OpenSource)
                },
                UploadEvent::SessionCreated(None) => self.fail(
                    AppError::S3(String::from_str("No upload ID returned")),
                ),
                UploadEvent::SessionRefused(why) => self.fail(
                    s3_error("Failed to create multipart upload: ", why.as_str()),
                ),
                _ => self.fail_unexpected(),
            },
            MultipartPhase::Opening => match event {
                UploadEvent::SourceOpened => {
                    let mut upload = self;
                    upload.phase = MultipartPhase::Reading;
                    let max = upload.part_size - upload.chunk.len();
                    (upload, UploadAction::Read { max })
                },
                UploadEvent::SourceFailed(cause) => self.abandon(AppError::Io(cause)),
                _ => self.abandon_unexpected(),
            },
            MultipartPhase::Reading => match event {
                UploadEvent::Data(bytes) => self.on_data(bytes),
                UploadEvent::SourceFailed(cause) => self.abandon(AppError::Io(cause)),
                _ => self.abandon_unexpected(),
            },
            MultipartPhase::Sending => match event {
                UploadEvent::PartStored(tag) => self.on_part_stored(tag),
                UploadEvent::PartRefused(why) => self.on_part_refused(why),
                _ => self.abandon_unexpected(),
            },
            MultipartPhase::Completing => match event {
                UploadEvent::SessionCompleted => {
                    let mut upload = self;
                    upload.tracker.finish();
                    upload.phase = MultipartPhase::Done;
                    let location = s3_location(upload.bucket.as_str(), upload.key.as_str());
                    (upload, UploadAction::Finish(Ok(location)))
                },
                UploadEvent::CompletionRefused(why) => {
                    let mut upload = self;
                    upload.tracker.abandon();
                    upload.failure = why;
                    upload.phase = MultipartPhase::Aborting;
                    let action = UploadAction::AbortSession {
                        upload_id: upload.session.upload_id.clone(),
                    };
                    (upload, action)
                },
                _ => self.abandon_unexpected(),
            },
            MultipartPhase::Aborting => match event {
                UploadEvent::SessionAborted(_) => {
                    let error = s3_error(
                        "Failed to complete multipart upload: ",
                        self.failure.as_str(),
                    );
                    self.fail(error)
                },
                _ => self.fail_unexpected(),
            },
            MultipartPhase::Done => self.fail_unexpected(),
        }
    }
}

/// Every step of a well-formed upload leaves it well-formed.
pub proof fn lemma_step_keeps_wf(upload: MultipartView, event: UploadEventView)
    requires
        upload.wf(),
    ensures
        upload.step(event).0.wf(),
{
    let next = upload.step(event).0;
    match upload.phase {
        MultipartPhase::Creating => {
            assert(next.wf());
        },
        MultipartPhase::Opening => {
            assert(next.wf());
        },
        MultipartPhase::Reading => {
            assert(next.wf());
        },
        MultipartPhase::Sending => {
            assert(next.wf());
        },
        MultipartPhase::Completing => {
            assert(next.wf());
        },
        MultipartPhase::Aborting => {
            assert(next.wf());
        },
        MultipartPhase::Done => {
            assert(next.wf());
        },
    }
}

/// No step takes back bytes that were counted: the progress of an upload
/// never decreases.
pub proof fn lemma_progress_never_decreases(upload: MultipartView, event: UploadEventView)
    requires
        upload.wf(),
    ensures
        upload.step(event).0.tracker.bytes_uploaded >= upload.tracker.bytes_uploaded,
{
}

/// An upload that has just been started is well-formed.
pub proof fn lemma_start_is_well_formed(
    bucket: Seq<char>,
    key: Seq<char>,
    file_name: Seq<char>,
    file_size: u64,
    part_size: nat,
    terminal: bool,
)
    requires
        0 < part_size <= usize::MAX,
    ensures
        MultipartView::start(bucket, key, file_name, file_size, part_size, terminal).wf(),
{
}

/// An upload that is done stays done: whatever it is told, it asks the
/// store for nothing more.
pub proof fn lemma_done_is_final(upload: MultipartView, event: UploadEventView)
    requires
        upload.phase == MultipartPhase::Done,
    ensures
        upload.step(event) == (upload, UploadActionView::Finish(Err(unexpected_event()))),
{
}

/// Every read asks for at least one byte and for no more than the current
/// part still lacks.
pub proof fn lemma_reads_ask_for_bytes(upload: MultipartView, event: UploadEventView)
    requires
        upload.wf(),
        upload.step(event).1 is Read,
    ensures
        0 < upload.step(event).1->Read_max,
        upload.step(event).1->Read_max + upload.step(event).0.chunk.len() == upload.part_size,
        upload.step(event).0.phase == MultipartPhase::Reading,
{
}

} // verus!
