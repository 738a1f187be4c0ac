//! Requests to the object store and what it answers.

use crate::error::{AppError, ErrorView};
use crate::text::{join2, text_view};
use vstd::prelude::*;
use vstd::string::*;

verus! {

/// One stored part of a chunked upload.
#[derive(Debug)]
pub struct CompletedPart {
    /// Position of the part in the object, counted from 1.
    pub part_number: i32,
    /// The tag that the store returned for the part.
    pub e_tag: String,
}

/// The mathematical value of a [`CompletedPart`].
pub struct PartView {
    pub part_number: int,
    pub e_tag: Seq<char>,
}

impl View for CompletedPart {
    type V = PartView;

    open spec fn view(&self) -> PartView {
        PartView { part_number: self.part_number as int, e_tag: self.e_tag@ }
    }
}

/// The values of a list of parts.
pub open spec fn parts_view(parts: Seq<CompletedPart>) -> Seq<PartView> {
    Seq::new(parts.len(), |i: int| parts[i]@)
}

/// What the driver observed after performing an [`UploadAction`].
#[derive(Debug)]
pub enum UploadEvent {
    /// The store opened a multi-part session; it may have left out its id.
    SessionCreated(Option<String>),
    /// The store refused to open a session.
    SessionRefused(String),
    /// The source file is open.
    SourceOpened,
    /// Opening or reading the source file failed.
    SourceFailed(std::io::Error),
    /// A read returned these bytes; none means the end of the file.
    Data(Vec<u8>),
    /// The store took a part; it may have left out the part's tag.
    PartStored(Option<String>),
    /// The store refused a part.
    PartRefused(String),
    /// The store assembled the parts into the object.
    SessionCompleted,
    /// The store refused to assemble the parts.
    CompletionRefused(String),
    /// The request to abort the session returned; the text is the failure
    /// that it reported, if any.
    SessionAborted(Option<String>),
    /// The store took the object in one piece.
    ObjectStored,
    /// The store refused the object.
    ObjectRefused(String),
    /// The pause is over.
    PauseElapsed,
}

/// The mathematical value of an [`UploadEvent`].
pub enum UploadEventView {
    SessionCreated(Option<Seq<char>>),
    SessionRefused(Seq<char>),
    SourceOpened,
    SourceFailed(std::io::Error),
    Data(Seq<u8>),
    PartStored(Option<Seq<char>>),
    PartRefused(Seq<char>),
    SessionCompleted,
    CompletionRefused(Seq<char>),
    SessionAborted(Option<Seq<char>>),
    ObjectStored,
    ObjectRefused(Seq<char>),
    PauseElapsed,
}

impl View for UploadEvent {
    type V = UploadEventView;

    open spec fn view(&self) -> UploadEventView {
        match self {
            UploadEvent::SessionCreated(id) => UploadEventView::SessionCreated(text_view(*id)),
            UploadEvent::SessionRefused(why) => UploadEventView::SessionRefused(why@),
            UploadEvent::SourceOpened => UploadEventView::SourceOpened,
            UploadEvent::SourceFailed(cause) => UploadEventView::SourceFailed(*cause),
            UploadEvent::Data(bytes) => UploadEventView::Data(bytes@),
            UploadEvent::PartStored(tag) => UploadEventView::PartStored(text_view(*tag)),
            UploadEvent::PartRefused(why) => UploadEventView::PartRefused(why@),
            UploadEvent::SessionCompleted => UploadEventView::SessionCompleted,
            UploadEvent::CompletionRefused(why) => UploadEventView::CompletionRefused(why@),
            UploadEvent::SessionAborted(why) => UploadEventView::SessionAborted(text_view(*why)),
            UploadEvent::ObjectStored => UploadEventView::ObjectStored,
            UploadEvent::ObjectRefused(why) => UploadEventView::ObjectRefused(why@),
            UploadEvent::PauseElapsed => UploadEventView::PauseElapsed,
        }
    }
}

/// What the driver is to do next. Every request goes to the bucket and key
/// that the upload was started with.
#[derive(Debug)]
pub enum UploadAction {
    /// Open a multi-part session.
    CreateSession,
    /// Open the source file.
    OpenSource,
    /// Read up to `max` bytes from the source file.
    Read { max: usize },
    /// Wait for `millis` milliseconds.
    Pause { millis: u64 },
    /// Store `body` as the whole object.
    PutObject { body: Vec<u8> },
    /// Store `body` as part `part_number` of the session.
    UploadPart { upload_id: String, part_number: i32, body: Vec<u8> },
    /// Assemble the object from `parts`, in this order.
    CompleteSession { upload_id: String, parts: Vec<CompletedPart> },
    /// Abort the session and report how that went.
    AbortSession { upload_id: String },
    /// Have the session aborted in the background, without waiting for the
    /// answer, and end the upload with `error`.
    Abandon { upload_id: String, error: AppError },
    /// End the upload: with the object's location, or with an error.
    Finish(Result<String, AppError>),
}

/// The mathematical value of an [`UploadAction`].
pub enum UploadActionView {
    CreateSession,
    OpenSource,
    Read { max: nat },
    Pause { millis: nat },
    PutObject { body: Seq<u8> },
    UploadPart { upload_id: Seq<char>, part_number: int, body: Seq<u8> },
    CompleteSession { upload_id: Seq<char>, parts: Seq<PartView> },
    AbortSession { upload_id: Seq<char> },
    Abandon { upload_id: Seq<char>, error: ErrorView },
    Finish(Result<Seq<char>, ErrorView>),
}

impl View for UploadAction {
    type V = UploadActionView;

    open spec fn view(&self) -> UploadActionView {
        match self {
            UploadAction::CreateSession => UploadActionView::CreateSession,
            UploadAction::OpenSource => UploadActionView::OpenSource,
            UploadAction::Read { max } => UploadActionView::Read { max: *max as nat },
            UploadAction::Pause { millis } => UploadActionView::Pause { millis: *millis as nat },
            UploadAction::PutObject { body } => UploadActionView::PutObject { body: body@ },
            UploadAction::UploadPart { upload_id, part_number, body } => UploadActionView::UploadPart {
                upload_id: upload_id@,
                part_number: *part_number as int,
                body: body@,
            },
            UploadAction::CompleteSession { upload_id, parts } => UploadActionView::CompleteSession {
                upload_id: upload_id@,
                parts: parts_view(parts@),
            },
            UploadAction::AbortSession { upload_id } => UploadActionView::AbortSession {
                upload_id: upload_id@,
            },
            UploadAction::Abandon { upload_id, error } => UploadActionView::Abandon {
                upload_id: upload_id@,
                error: error@,
            },
            UploadAction::Finish(Ok(location)) => UploadActionView::Finish(Ok(location@)),
            UploadAction::Finish(Err(error)) => UploadActionView::Finish(Err(error@)),
        }
    }
}

impl UploadActionView {
    /// Whether the action asks for a session to be aborted.
    pub open spec fn aborts(self) -> bool {
        self is AbortSession || self is Abandon
    }

    /// Whether the action ends the upload.
    pub open spec fn ends(self) -> bool {
        self is Finish || self is Abandon
    }
}

/// Where an object lives: `s3://`, the bucket, a slash, the key.
pub open spec fn s3_uri(bucket: Seq<char>, key: Seq<char>) -> Seq<char> {
    "s3://"@ + bucket + "/"@ + key
}

/// Writes the location of the object `key` in `bucket`.
pub fn s3_location(bucket: &str, key: &str) -> (uri: String)
    ensures
        uri@ == s3_uri(bucket@, key@),
{
    let mut uri = join2("s3://", bucket);
    uri.append("/");
    uri.append(key);
    uri
}

/// An object-store error whose text is `prefix` followed by `detail`.
pub fn s3_error(prefix: &str, detail: &str) -> (error: AppError)
    ensures
        error@ == ErrorView::S3(prefix@ + detail@),
{
    AppError::S3(join2(prefix, detail))
}

/// The error of an upload that was handed an event it did not ask for.
pub open spec fn unexpected_event() -> ErrorView {
    ErrorView::S3("Unexpected event for the upload in progress"@)
}

/// The error of an upload that outgrew what can be counted.
pub open spec fn upload_too_large() -> ErrorView {
    ErrorView::S3("Upload exceeds the supported size"@)
}

/// A copy of `parts`.
pub fn clone_parts(parts: &Vec<CompletedPart>) -> (copy: Vec<CompletedPart>)
    ensures
        parts_view(copy@) == parts_view(parts@),
{
    let mut copy: Vec<CompletedPart> = Vec::new();
    let mut i: usize = 0;
    while i < parts.len()
        invariant
            i <= parts.len(),
            copy@.len() == i,
            forall|j: int| 0 <= j < i ==> copy@[j]@ == parts@[j]@,
        decreases parts.len() - i,
    {
        copy.push(
            CompletedPart { part_number: parts[i].part_number, e_tag: parts[i].e_tag.clone() },
        );
        i = i + 1;
    }
    assert(parts_view(copy@) =~= parts_view(parts@));
    copy
}

/// The result of the clean-up, given what the store answered to the request
/// to delete the uploaded object: `None` when it deleted it, else its
/// complaint. Clean-up is best effort: its result is success either way.
pub fn delete_file_from_s3(failure: &Option<String>) -> (result: Result<(), AppError>)
    ensures
        result is Ok,
{
    Ok(())
}

/// What to tell the user after the clean-up: that the object is gone, or
/// that it has to be removed by hand and why.
pub fn deletion_notice(failure: &Option<String>) -> (notice: String)
    ensures
        notice@ == match *failure {
            None => "✅ S3 file deleted successfully"@,
            Some(why) => "⚠️  Warning: Failed to delete S3 file, please do so manually: "@ + why@,
        },
{
    match failure {
        None => String::from_str("✅ S3 file deleted successfully"),
        Some(why) => join2(
            "⚠️  Warning: Failed to delete S3 file, please do so manually: ",
            why.as_str(),
        ),
    }
}

/// What to tell the user when the request to abort a session failed with
/// `why`.
pub fn abort_warning(why: &str) -> (notice: String)
    ensures
        notice@ == "⚠️  Warning: Failed to abort multipart upload: "@ + why@,
{
    join2("⚠️  Warning: Failed to abort multipart upload: ", why)
}

} // verus!
