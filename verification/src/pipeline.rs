//! The run as a whole: validate, connect, upload, transcribe, fetch,
//! deliver, clean up.
//!
//! Once the object store holds the file, the run does not end before the
//! store was asked to delete it, whatever happened in between.

use crate::error::{failure_view, outcome_view, text_result_view, AppError, ErrorView};
use crate::models::{StatusView, TranscriptionStatus};
use crate::text::{join2, text_view};
use crate::utils::{
    file_name_of, file_name_or_unknown, file_stem_of, file_stem_or_unknown, job_name_at,
    job_name_text, name_or_unknown, s3_key_at, s3_key_text, unix_timestamp,
};
use std::path::Path;
use vstd::prelude::*;
use vstd::string::*;

verus! {

/// Where a run stands: what it has asked for and waits to hear of.
#[derive(Debug, Clone, Copy, PartialEq, Eq, Structural)]
pub enum Stage {
    Validating,
    Connecting,
    Uploading,
    Submitting,
    Polling,
    Fetching,
    Delivering,
    Cleaning,
    Done,
}

/// What the driver observed after performing a [`PipelineAction`].
#[derive(Debug)]
pub enum PipelineEvent {
    /// The verdict on the input file.
    Validated(Result<(), AppError>),
    /// Whether the cloud account can be used.
    Connected(Result<(), AppError>),
    /// The upload's end: the object's location, or an error.
    Uploaded(Result<String, AppError>),
    /// Whether the service took the job.
    Submitted(Result<(), AppError>),
    /// The end of polling: the job's end, or an error.
    Polled(Result<TranscriptionStatus, AppError>),
    /// The end of the fetch: the transcript, or an error.
    Fetched(Result<String, AppError>),
    /// Whether the transcript was shown and, if asked for, saved.
    Delivered(Result<(), AppError>),
    /// The store answered the request to delete the object; the text is
    /// its complaint, if it had one.
    Cleaned(Option<String>),
}

/// What the driver is to do next.
#[derive(Debug)]
pub enum PipelineAction {
    /// Check the input file.
    Validate,
    /// Set up the cloud clients and check the credentials.
    Connect,
    /// Upload the input file to `key` in `bucket`.
    Upload { bucket: String, key: String },
    /// Submit the job `job_name` on the media file at `media_uri`.
    Submit { job_name: String, media_uri: String },
    /// Poll the job `job_name` until it ends.
    Poll { job_name: String },
    /// Fetch the transcript from `uri`.
    Fetch { uri: String },
    /// Show `transcript` and, if `save` is set, write it to the output file.
    Deliver { transcript: String, save: bool },
    /// Ask the store to delete `key` from `bucket`.
    Clean { bucket: String, key: String },
    /// End the run with this result.
    Exit(Result<(), AppError>),
}

/// The value of a polling result.
pub open spec fn status_result_view(result: Result<TranscriptionStatus, AppError>) -> Result<
    StatusView,
    ErrorView,
> {
    match result {
        Ok(status) => Ok(status@),
        Err(error) => Err(error@),
    }
}

/// The mathematical value of a [`PipelineEvent`].
pub enum PipelineEventView {
    Validated(Result<(), ErrorView>),
    Connected(Result<(), ErrorView>),
    Uploaded(Result<Seq<char>, ErrorView>),
    Submitted(Result<(), ErrorView>),
    Polled(Result<StatusView, ErrorView>),
    Fetched(Result<Seq<char>, ErrorView>),
    Delivered(Result<(), ErrorView>),
    Cleaned(Option<Seq<char>>),
}

/// The mathematical value of a [`PipelineAction`].
pub enum PipelineActionView {
    Validate,
    Connect,
    Upload { bucket: Seq<char>, key: Seq<char> },
    Submit { job_name: Seq<char>, media_uri: Seq<char> },
    Poll { job_name: Seq<char> },
    Fetch { uri: Seq<char> },
    Deliver { transcript: Seq<char>, save: bool },
    Clean { bucket: Seq<char>, key: Seq<char> },
    Exit(Result<(), ErrorView>),
}

impl View for PipelineEvent {
    type V = PipelineEventView;

    open spec fn view(&self) -> PipelineEventView {
        match self {
            PipelineEvent::Validated(result) => PipelineEventView::Validated(outcome_view(*result)),
            PipelineEvent::Connected(result) => PipelineEventView::Connected(outcome_view(*result)),
            PipelineEvent::Uploaded(result) => PipelineEventView::Uploaded(
                text_result_view(*result),
            ),
            PipelineEvent::Submitted(result) => PipelineEventView::Submitted(outcome_view(*result)),
            PipelineEvent::Polled(result) => PipelineEventView::Polled(status_result_view(*result)),
            PipelineEvent::Fetched(result) => PipelineEventView::Fetched(text_result_view(*result)),
            PipelineEvent::Delivered(result) => PipelineEventView::Delivered(outcome_view(*result)),
            PipelineEvent::Cleaned(complaint) => PipelineEventView::Cleaned(
                text_view(*complaint),
            ),
        }
    }
}

impl View for PipelineAction {
    type V = PipelineActionView;

    open spec fn view(&self) -> PipelineActionView {
        match self {
            PipelineAction::Validate => PipelineActionView::Validate,
            PipelineAction::Connect => PipelineActionView::Connect,
            PipelineAction::Upload { bucket, key } => PipelineActionView::Upload {
                bucket: bucket@,
                key: key@,
            },
            PipelineAction::Submit { job_name, media_uri } => PipelineActionView::Submit {
                job_name: job_name@,
                media_uri: media_uri@,
            },
            PipelineAction::Poll { job_name } => PipelineActionView::Poll { job_name: job_name@ },
            PipelineAction::Fetch { uri } => PipelineActionView::Fetch { uri: uri@ },
            PipelineAction::Deliver { transcript, save } => PipelineActionView::Deliver {
                transcript: transcript@,
                save: *save,
            },
            PipelineAction::Clean { bucket, key } => PipelineActionView::Clean {
                bucket: bucket@,
                key: key@,
            },
            PipelineAction::Exit(result) => PipelineActionView::Exit(outcome_view(*result)),
        }
    }
}

/// A run under way.
#[derive(Debug)]
pub struct Pipeline {
    bucket: String,
    file_name: String,
    file_stem: String,
    save: bool,
    key: String,
    job_name: String,
    failure: Option<AppError>,
    stage: Stage,
}

/// The mathematical value of a [`Pipeline`].
pub struct PipelineView {
    pub bucket: Seq<char>,
    /// Name of the input file.
    pub file_name: Seq<char>,
    /// Name of the input file without its extension.
    pub file_stem: Seq<char>,
    /// Whether the transcript is to be written to a file.
    pub save: bool,
    /// Key of the uploaded object; empty before the upload.
    pub key: Seq<char>,
    /// Name of the job; empty before it is submitted.
    pub job_name: Seq<char>,
    /// The error that the run will end with once the clean-up is over.
    pub failure: Option<ErrorView>,
    pub stage: Stage,
}

impl View for Pipeline {
    type V = PipelineView;

    closed spec fn view(&self) -> PipelineView {
        PipelineView {
            bucket: self.bucket@,
            file_name: self.file_name@,
            file_stem: self.file_stem@,
            save: self.save,
            key: self.key@,
            job_name: self.job_name@,
            failure: failure_view(self.failure),
            stage: self.stage,
        }
    }
}

/// The error of a run that was handed an event it did not ask for.
pub open spec fn unexpected_event() -> ErrorView {
    ErrorView::Transcribe("Unexpected event for the run in progress"@)
}

/// The error of a run whose job the service gave up, with its reason.
pub open spec fn job_failed(reason: Seq<char>) -> ErrorView {
    ErrorView::Transcribe("Transcription failed: "@ + reason)
}

impl PipelineView {
    /// The state of a run that has just asked for its input to be checked.
    pub open spec fn start(
        bucket: Seq<char>,
        file_name: Seq<char>,
        file_stem: Seq<char>,
        save: bool,
    ) -> PipelineView {
        PipelineView {
            bucket,
            file_name,
            file_stem,
            save,
            key: Seq::empty(),
            job_name: Seq::empty(),
            failure: None,
            stage: Stage::Validating,
        }
    }

    /// Whether the object store holds the uploaded file and has not yet
    /// been asked to delete it.
    pub open spec fn holds_object(self) -> bool {
        self.stage == Stage::Submitting || self.stage == Stage::Polling || self.stage
            == Stage::Fetching || self.stage == Stage::Delivering
    }

    /// The run ends with `error`, at once.
    pub open spec fn exit(self, error: ErrorView) -> (PipelineView, PipelineActionView) {
        (PipelineView { stage: Stage::Done, ..self }, PipelineActionView::Exit(Err(error)))
    }

    /// The store is asked to delete the object; the run will end with
    /// `failure`, or well if there is none.
    pub open spec fn clean_up(self, failure: Option<ErrorView>) -> (
        PipelineView,
        PipelineActionView,
    ) {
        (
            PipelineView { stage: Stage::Cleaning, failure, ..self },
            PipelineActionView::Clean { bucket: self.bucket, key: self.key },
        )
    }

    /// The next state and the next action, for every state and event, at
    /// the time `now` in seconds since 1970.
    ///
    /// A failure before the upload has succeeded ends the run at once. A
    /// failure after it, a job that the service gave up, or an event that
    /// was not asked for, leads to the clean-up first and ends the run
    /// after it. What the clean-up itself reports changes nothing.
    pub open spec fn advance(self, event: PipelineEventView, now: u64) -> (
        PipelineView,
        PipelineActionView,
    ) {
        match self.stage {
            Stage::Validating => match event {
                PipelineEventView::Validated(Ok(_)) => (
                    PipelineView { stage: Stage::Connecting, ..self },
                    PipelineActionView::Connect,
                ),
                PipelineEventView::Validated(Err(error)) => self.exit(error),
                _ => self.exit(unexpected_event()),
            },
            Stage::Connecting => match event {
                PipelineEventView::Connected(Ok(_)) => (
                    PipelineView {
                        stage: Stage::Uploading,
                        key: s3_key_text(now, self.file_name),
                        ..self
                    },
                    PipelineActionView::Upload {
                        bucket: self.bucket,
                        key: s3_key_text(now, self.file_name),
                    },
                ),
                PipelineEventView::Connected(Err(error)) => self.exit(error),
                _ => self.exit(unexpected_event()),
            },
            Stage::Uploading => match event {
                PipelineEventView::Uploaded(Ok(location)) => (
                    PipelineView {
                        stage: Stage::Submitting,
                        job_name: job_name_text(now, self.file_stem),
                        ..self
                    },
                    PipelineActionView::Submit {
                        job_name: job_name_text(now, self.file_stem),
                        media_uri: location,
                    },
                ),
                PipelineEventView::Uploaded(Err(error)) => self.exit(error),
                _ => self.exit(unexpected_event()),
            },
            Stage::Submitting => match event {
                PipelineEventView::Submitted(Ok(_)) => (
                    PipelineView { stage: Stage::Polling, ..self },
                    PipelineActionView::Poll { job_name: self.job_name },
                ),
                PipelineEventView::Submitted(Err(error)) => self.clean_up(Some(error)),
                _ => self.clean_up(Some(unexpected_event())),
            },
            Stage::Polling => match event {
                PipelineEventView::Polled(Ok(StatusView::Completed(uri))) => (
                    PipelineView { stage: Stage::Fetching, ..self },
                    PipelineActionView::Fetch { uri },
                ),
                PipelineEventView::Polled(Ok(StatusView::Failed(reason))) => self.clean_up(
                    Some(job_failed(reason)),
                ),
                PipelineEventView::Polled(Err(error)) => self.clean_up(Some(error)),
                _ => self.clean_up(Some(unexpected_event())),
            },
            Stage::Fetching => match event {
                PipelineEventView::Fetched(Ok(transcript)) => (
                    PipelineView { stage: Stage::Delivering, ..self },
                    PipelineActionView::Deliver { transcript, save: self.save },
                ),
                PipelineEventView::Fetched(Err(error)) => self.clean_up(Some(error)),
                _ => self.clean_up(Some(unexpected_event())),
            },
            Stage::Delivering => match event {
                PipelineEventView::Delivered(Ok(_)) => self.clean_up(None),
                PipelineEventView::Delivered(Err(error)) => self.clean_up(Some(error)),
                _ => self.clean_up(Some(unexpected_event())),
            },
            Stage::Cleaning => match event {
                PipelineEventView::Cleaned(_) => (
                    PipelineView { stage: Stage::Done, failure: None, ..self },
                    PipelineActionView::Exit(
                        match self.failure {
                            Some(error) => Err(error),
                            None => Ok(()),
                        },
                    ),
                ),
                _ => self.exit(unexpected_event()),
            },
            Stage::Done => self.exit(unexpected_event()),
        }
    }
}

fn unexpected() -> (error: AppError)
    ensures
        error@ == unexpected_event(),
{
    AppError::Transcribe(String::from_str("Unexpected event for the run in progress"))
}

impl Pipeline {
    /// Starts a run on the file named `file_name`, whose name without
    /// extension is `file_stem`, with `bucket` as the staging area. The
    /// first action is [`PipelineAction::Validate`].
    pub fn begin(bucket: &str, file_name: &str, file_stem: &str, save: bool) -> (run: Self)
        ensures
            run@ == PipelineView::start(bucket@, file_name@, file_stem@, save),
    {
        Pipeline {
            bucket: String::from_str(bucket),
            file_name: String::from_str(file_name),
            file_stem: String::from_str(file_stem),
            save,
            key: String::new(),
            job_name: String::new(),
            failure: None,
            stage: Stage::Validating,
        }
    }

    /// Starts a run on the file at `file_path`; a path that gives no name
    /// counts as the name "unknown".
    pub fn for_file(bucket: &str, file_path: &Path, save: bool) -> (run: Self)
        ensures
            run@ == PipelineView::start(
                bucket@,
                name_or_unknown(file_name_of(file_path)),
                name_or_unknown(file_stem_of(file_path)),
                save,
            ),
    {
        Pipeline::begin(
            bucket,
            file_name_or_unknown(file_path),
            file_stem_or_unknown(file_path),
            save,
        )
    }

    /// Where the run stands.
    pub fn stage(&self) -> (stage: Stage)
        ensures
            stage == self@.stage,
    {
        self.stage
    }

    /// Key of the uploaded object; empty before the upload.
    pub fn key(&self) -> (key: &str)
        ensures
            key@ == self@.key,
    {
        self.key.as_str()
    }

    /// Name of the job; empty before it is submitted.
    pub fn job_name(&self) -> (name: &str)
        ensures
            name@ == self@.job_name,
    {
        self.job_name.as_str()
    }

    fn exit(self, error: AppError) -> (next: (Pipeline, PipelineAction))
        ensures
            (next.0@, next.1@) == self@.exit(error@),
    {
        let mut run = self;
        run.stage = Stage::Done;
        (run, PipelineAction::Exit(Err(error)))
    }

    fn clean_up(self, failure: Option<AppError>) -> (next: (Pipeline, PipelineAction))
        ensures
            (next.0@, next.1@) == self@.clean_up(failure_view(failure)),
    {
        let mut run = self;
        run.stage = Stage::Cleaning;
        run.failure = failure;
        let action = PipelineAction::Clean { bucket: run.bucket.clone(), key: run.key.clone() };
        (run, action)
    }

    /// Takes what the last action brought back, and the time `now` in
    /// seconds since 1970, and gives the next action.
    pub fn advance(self, event: PipelineEvent, now: u64) -> (next: (Pipeline, PipelineAction))
        ensures
            (next.0@, next.1@) == self@.advance(event@, now),
    {
        match self.stage {
            Stage::Validating => match event {
                PipelineEvent::Validated(Ok(_)) => {
                    let mut run = self;
                    run.stage = Stage::Connecting;
                    (run, PipelineAction::Connect)
                },
                PipelineEvent::Validated(Err(error)) => self.exit(error),
                _ => self.exit(unexpected()),
            },
            Stage::Connecting => match event {
                PipelineEvent::Connected(Ok(_)) => {
                    let mut run = self;
                    run.key = s3_key_at(now, run.file_name.as_str());
                    run.stage = Stage::Uploading;
                    let action = PipelineAction::Upload {
                        bucket: run.bucket.clone(),
                        key: run.key.clone(),
                    };
                    (run, action)
                },
                PipelineEvent::Connected(Err(error)) => self.exit(error),
                _ => self.exit(unexpected()),
            },
            Stage::Uploading => match event {
                PipelineEvent::Uploaded(Ok(location)) => {
                    let mut run = self;
                    run.job_name = job_name_at(now, run.file_stem.as_str());
                    run.stage = Stage::Submitting;
                    let action = PipelineAction::Submit {
                        job_name: run.job_name.clone(),
                        media_uri: location,
                    };
                    (run, action)
                },
                PipelineEvent::Uploaded(Err(error)) => self.exit(error),
                _ => self.exit(unexpected()),
            },
            Stage::Submitting => match event {
                PipelineEvent::Submitted(Ok(_)) => {
                    let mut run = self;
                    run.stage = Stage::Polling;
                    let action = PipelineAction::Poll { job_name: run.job_name.clone() };
                    (run, action)
                },
                PipelineEvent::Submitted(Err(error)) => self.clean_up(Some(error)),
                _ => self.clean_up(Some(unexpected())),
            },
            Stage::Polling => match event {
                PipelineEvent::Polled(Ok(TranscriptionStatus::Completed(uri))) => {
                    let mut run = self;
                    run.stage = Stage::Fetching;
                    (run, PipelineAction::Fetch { uri })
                },
                PipelineEvent::Polled(Ok(TranscriptionStatus::Failed(reason))) => {
                    let error = AppError::Transcribe(
                        join2("Transcription failed: ", reason.as_str()),
                    );
                    self.clean_up(Some(error))
                },
                PipelineEvent::Polled(Err(error)) => self.clean_up(Some(error)),
                _ => self.clean_up(Some(unexpected())),
            },
            Stage::Fetching => match event {
                PipelineEvent::Fetched(Ok(transcript)) => {
                    let mut run = self;
                    run.stage = Stage::Delivering;
                    let save = run.save;
                    (run, PipelineAction::Deliver { transcript, save })
                },
                PipelineEvent::Fetched(Err(error)) => self.clean_up(Some(error)),
                _ => self.clean_up(Some(unexpected())),
            },
            Stage::Delivering => match event {
                PipelineEvent::Delivered(Ok(_)) => self.clean_up(None),
                PipelineEvent::Delivered(Err(error)) => self.clean_up(Some(error)),
                _ => self.clean_up(Some(unexpected())),
            },
            Stage::Cleaning => match event {
                PipelineEvent::Cleaned(_) => {
                    let mut run = self;
                    run.stage = Stage::Done;
                    let mut failure: Option<AppError> = None;
                    core::mem::swap(&mut run.failure, &mut failure);
                    let result = match failure {
                        Some(error) => Err(error),
                        None => Ok(()),
                    };
                    (run, PipelineAction::Exit(result))
                },
                _ => self.exit(unexpected()),
            },
            Stage::Done => self.exit(unexpected()),
        }
    }

    /// Takes what the last action brought back and gives the next action,
    /// reading the time from the machine's clock.
    pub fn step(self, event: PipelineEvent) -> (next: (Pipeline, PipelineAction))
        ensures
            exists|now: u64| #[trigger] self@.advance(event@, now) == (next.0@, next.1@),
    {
        let now = unix_timestamp();
        self.advance(event, now)
    }
}

} // verus!
