//! The transcription job: submitting it and waiting for its end.

use crate::error::{text_result_view, AppError, ErrorView};
use crate::models::{StatusView, TranscriptionStatus};
use crate::json::{parse_json, parsed_json, Json, JsonView};
use crate::text::{is_blank, is_blank_text, join2, text_view};
use vstd::prelude::*;
use vstd::string::*;

verus! {

/// Seconds to wait after the first status check.
pub const INITIAL_INTERVAL: u64 = 5;

/// Longest wait between two status checks, in seconds.
pub const MAX_INTERVAL: u64 = 30;

/// Status checks made before the job is given up.
pub const MAX_ATTEMPTS: u32 = 120;

/// The language that jobs are submitted in.
#[derive(Debug, Clone, Copy, PartialEq, Eq, Structural)]
pub enum LanguageCode {
    EnUs,
}

/// The request that starts a transcription job.
#[derive(Debug)]
pub struct StartJobRequest {
    pub job_name: String,
    pub media_file_uri: String,
    pub language_code: LanguageCode,
}

/// Builds the request that starts the job `job_name` on the media file at
/// `s3_uri`, in US English.
pub fn start_transcription_job(job_name: &str, s3_uri: &str) -> (request: StartJobRequest)
    ensures
        request.job_name@ == job_name@,
        request.media_file_uri@ == s3_uri@,
        request.language_code == LanguageCode::EnUs,
{
    StartJobRequest {
        job_name: String::from_str(job_name),
        media_file_uri: String::from_str(s3_uri),
        language_code: LanguageCode::EnUs,
    }
}

/// The result of submitting a job, given what the service answered: `None`
/// when it took the job, else its complaint. A refusal is final: the job is
/// not submitted again.
pub fn job_submission_result(refusal: Option<String>) -> (result: Result<(), AppError>)
    ensures
        refusal is None ==> result is Ok,
        refusal matches Some(why) ==> result matches Err(error) && error@ == ErrorView::Transcribe(
            "🛑 Error: Failed to start transcription job: "@ + why@,
        ),
{
    match refusal {
        None => Ok(()),
        Some(why) => Err(
            AppError::Transcribe(
                join2("🛑 Error: Failed to start transcription job: ", why.as_str()),
            ),
        ),
    }
}

/// The states that the service reports of a job.
#[derive(Debug, Clone, Copy, PartialEq, Eq, Structural)]
pub enum JobStatus {
    Queued,
    InProgress,
    Completed,
    Failed,
    /// A state that this library does not know.
    Other,
}

/// What the service says of a job.
#[derive(Debug)]
pub struct JobReport {
    /// The job's state, if the answer names one.
    pub status: Option<JobStatus>,
    /// Where the transcript is, if the answer says so.
    pub transcript_uri: Option<String>,
    /// Why the job failed, if the answer says so.
    pub failure_reason: Option<String>,
}

/// The answer to one status check.
#[derive(Debug)]
pub enum StatusReply {
    /// The service described the job.
    Job(JobReport),
    /// The service answered without a job.
    Missing,
    /// The check itself failed; the text says how.
    Unreachable(String),
}

/// The mathematical value of a [`JobReport`].
pub struct JobReportView {
    pub status: Option<JobStatus>,
    pub transcript_uri: Option<Seq<char>>,
    pub failure_reason: Option<Seq<char>>,
}

/// The mathematical value of a [`StatusReply`].
pub enum StatusReplyView {
    Job(JobReportView),
    Missing,
    Unreachable(Seq<char>),
}

impl View for JobReport {
    type V = JobReportView;

    open spec fn view(&self) -> JobReportView {
        JobReportView {
            status: self.status,
            transcript_uri: text_view(self.transcript_uri),
            failure_reason: text_view(self.failure_reason),
        }
    }
}

impl View for StatusReply {
    type V = StatusReplyView;

    open spec fn view(&self) -> StatusReplyView {
        match self {
            StatusReply::Job(report) => StatusReplyView::Job(report@),
            StatusReply::Missing => StatusReplyView::Missing,
            StatusReply::Unreachable(why) => StatusReplyView::Unreachable(why@),
        }
    }
}

/// Where the poller stands before a status check.
#[derive(Debug, Clone, Copy, PartialEq, Eq, Structural)]
pub struct PollState {
    /// Number of the check about to be made, counted from 1.
    pub attempt: u32,
    /// Seconds to wait if that check finds the job still running.
    pub interval: u64,
}

/// What the poller does after a status check.
#[derive(Debug)]
pub enum PollStep {
    /// Polling is over, with the job's end or with an error.
    Done(Result<TranscriptionStatus, AppError>),
    /// Wait `seconds`, then check again from `next`.
    Wait { seconds: u64, next: PollState },
}

/// The mathematical value of a [`PollStep`].
pub enum PollStepView {
    Done(Result<StatusView, ErrorView>),
    Wait { seconds: u64, next: PollState },
}

impl View for PollStep {
    type V = PollStepView;

    open spec fn view(&self) -> PollStepView {
        match self {
            PollStep::Done(Ok(status)) => PollStepView::Done(Ok(status@)),
            PollStep::Done(Err(error)) => PollStepView::Done(Err(error@)),
            PollStep::Wait { seconds, next } => PollStepView::Wait {
                seconds: *seconds,
                next: *next,
            },
        }
    }
}

/// The wait that follows `interval`: twice as long, but not beyond
/// [`MAX_INTERVAL`].
pub open spec fn next_interval(interval: u64) -> u64 {
    if interval * 2 < MAX_INTERVAL {
        (interval * 2) as u64
    } else {
        MAX_INTERVAL
    }
}

/// The error of a job that was still running at the last check. It is of
/// a kind of its own: no other end of polling gives an error of this kind.
pub open spec fn timed_out() -> ErrorView {
    ErrorView::Timeout("Transcription job timed out"@)
}

/// The error of a status check that failed with `why`.
pub open spec fn check_failed(why: Seq<char>) -> ErrorView {
    ErrorView::Transcribe("Failed to get job status: "@ + why)
}

/// The reason given for a failed job of which the service gave none.
pub open spec fn unknown_reason() -> Seq<char> {
    "Unknown failure reason"@
}

impl PollState {
    /// The state before the first check.
    pub open spec fn initial() -> PollState {
        PollState { attempt: 1, interval: INITIAL_INTERVAL }
    }

    /// The state before the first check.
    pub fn start() -> (state: PollState)
        ensures
            state == PollState::initial(),
    {
        PollState { attempt: 1, interval: INITIAL_INTERVAL }
    }

    /// What a job that is still running means: another check after a wait,
    /// unless this was the last check allowed.
    pub open spec fn keep_waiting(self) -> PollStepView {
        if self.attempt < MAX_ATTEMPTS {
            PollStepView::Wait {
                seconds: self.interval,
                next: PollState {
                    attempt: (self.attempt + 1) as u32,
                    interval: next_interval(self.interval),
                },
            }
        } else {
            PollStepView::Done(Err(timed_out()))
        }
    }

    /// What the poller does in this state on `reply`.
    ///
    /// A finished job must say where its transcript is. A failed job is a
    /// result, not an error, and carries the service's reason. A state other
    /// than running, completed or failed is an error, and so is a check that
    /// failed: it is not made again.
    pub open spec fn step(self, reply: StatusReplyView) -> PollStepView {
        match reply {
            StatusReplyView::Unreachable(why) => PollStepView::Done(Err(check_failed(why))),
            StatusReplyView::Missing => PollStepView::Done(
                Err(ErrorView::Transcribe("Job not found"@)),
            ),
            StatusReplyView::Job(report) => match report.status {
                Some(JobStatus::InProgress) => self.keep_waiting(),
                Some(JobStatus::Completed) => match report.transcript_uri {
                    Some(uri) => PollStepView::Done(Ok(StatusView::Completed(uri))),
                    None => PollStepView::Done(
                        Err(ErrorView::Transcribe("Job completed but no transcript URI found"@)),
                    ),
                },
                Some(JobStatus::Failed) => PollStepView::Done(
                    Ok(
                        StatusView::Failed(
                            match report.failure_reason {
                                Some(reason) => reason,
                                None => unknown_reason(),
                            },
                        ),
                    ),
                ),
                _ => PollStepView::Done(Err(ErrorView::Transcribe("Unknown job status"@))),
            },
        }
    }
}

fn transcribe_error(text: &str) -> (error: AppError)
    ensures
        error@ == ErrorView::Transcribe(text@),
{
    AppError::Transcribe(String::from_str(text))
}

/// Decides what follows the status check that was made in `state` and
/// answered with `reply`: the job's end, an error, or a wait before the
/// next check.
pub fn poll_transcription_status(state: PollState, reply: StatusReply) -> (step: PollStep)
    ensures
        step@ == state.step(reply@),
{
    match reply {
        StatusReply::Unreachable(why) => PollStep::Done(
            Err(AppError::Transcribe(join2("Failed to get job status: ", why.as_str()))),
        ),
        StatusReply::Missing => PollStep::Done(Err(transcribe_error("Job not found"))),
        StatusReply::Job(report) => match report.status {
            Some(JobStatus::InProgress) => {
                if state.attempt < MAX_ATTEMPTS {
                    let interval = if state.interval < MAX_INTERVAL / 2 {
                        state.interval * 2
                    } else {
                        MAX_INTERVAL
                    };
                    PollStep::Wait {
                        seconds: state.interval,
                        next: PollState { attempt: state.attempt + 1, interval },
                    }
                } else {
                    PollStep::Done(
                        Err(AppError::Timeout(String::from_str("Transcription job timed out"))),
                    )
                }
            },
            Some(JobStatus::Completed) => match report.transcript_uri {
                Some(uri) => PollStep::Done(Ok(TranscriptionStatus::Completed(uri))),
                None => PollStep::Done(
                    Err(transcribe_error("Job completed but no transcript URI found")),
                ),
            },
            Some(JobStatus::Failed) => {
                let reason = match report.failure_reason {
                    Some(reason) => reason,
                    None => String::from_str("Unknown failure reason"),
                };
                PollStep::Done(Ok(TranscriptionStatus::Failed(reason)))
            },
            _ => PollStep::Done(Err(transcribe_error("Unknown job status"))),
        },
    }
}

/// What the driver observed while fetching the transcript.
#[derive(Debug)]
pub enum FetchEvent {
    /// The request could not be made; the text says why.
    RequestFailed(String),
    /// The server answered with this status; `status_line` is the status as
    /// shown to a reader, such as `404 Not Found`.
    Responded { status: u16, status_line: String },
    /// The answer's body could not be read; the text says why.
    BodyFailed(String),
    /// The answer's body.
    Body(String),
}

/// What the driver is to do next while fetching the transcript.
#[derive(Debug)]
pub enum FetchAction {
    /// Read the body of the answer.
    ReadBody,
    /// The fetch is over, with the transcript or with an error.
    Finish(Result<String, AppError>),
}

/// The mathematical value of a [`FetchEvent`].
pub enum FetchEventView {
    RequestFailed(Seq<char>),
    Responded { status: u16, status_line: Seq<char> },
    BodyFailed(Seq<char>),
    Body(Seq<char>),
}

/// The mathematical value of a [`FetchAction`].
pub enum FetchActionView {
    ReadBody,
    Finish(Result<Seq<char>, ErrorView>),
}

impl View for FetchEvent {
    type V = FetchEventView;

    open spec fn view(&self) -> FetchEventView {
        match self {
            FetchEvent::RequestFailed(why) => FetchEventView::RequestFailed(why@),
            FetchEvent::Responded { status, status_line } => FetchEventView::Responded {
                status: *status,
                status_line: status_line@,
            },
            FetchEvent::BodyFailed(why) => FetchEventView::BodyFailed(why@),
            FetchEvent::Body(text) => FetchEventView::Body(text@),
        }
    }
}

impl View for FetchAction {
    type V = FetchActionView;

    open spec fn view(&self) -> FetchActionView {
        match self {
            FetchAction::ReadBody => FetchActionView::ReadBody,
            FetchAction::Finish(result) => FetchActionView::Finish(text_result_view(*result)),
        }
    }
}

/// An HTTP status from 200 to 299 reports success.
pub open spec fn is_success(status: u16) -> bool {
    200 <= status <= 299
}

/// The text of the first transcript in a result document: the member
/// `results`, in it the member `transcripts`, which is an array, in its
/// first item the member `transcript`, which is a string.
pub open spec fn transcript_in(doc: JsonView) -> Option<Seq<char>> {
    match doc.member("results"@) {
        Some(results) => match results.member("transcripts"@) {
            Some(transcripts) => match transcripts.items() {
                Some(items) => if items.len() > 0 {
                    match items[0].member("transcript"@) {
                        Some(transcript) => transcript.text(),
                        None => None,
                    }
                } else {
                    None
                },
                None => None,
            },
            None => None,
        },
        None => None,
    }
}

/// The transcript that a result document yields: its first transcript's
/// text, which must be there and must not be blank.
pub open spec fn transcript_result(doc: JsonView) -> Result<Seq<char>, ErrorView> {
    match transcript_in(doc) {
        None => Err(ErrorView::Transcribe("No transcript text found in results"@)),
        Some(text) => if is_blank(text) {
            Err(ErrorView::Transcribe("Transcription result is empty"@))
        } else {
            Ok(text)
        },
    }
}

/// The error for a result file whose body is not JSON; it quotes the
/// parser's complaint.
pub open spec fn not_json(complaint: Seq<char>) -> ErrorView {
    ErrorView::Transcribe("Failed to parse transcription JSON: "@ + complaint)
}

/// What the body of a result file yields: for a body that is JSON, what
/// its document yields; else the error that quotes the parser.
pub open spec fn body_result(body: Seq<char>) -> Result<Seq<char>, ErrorView> {
    match parsed_json(body) {
        Ok(doc) => transcript_result(doc),
        Err(complaint) => Err(not_json(complaint)),
    }
}

/// Takes the transcript out of a result document.
pub fn extract_transcript(doc: &Json) -> (result: Result<String, AppError>)
    ensures
        text_result_view(result) == transcript_result(doc@),
{
    let missing = "No transcript text found in results";
    let results = match doc.get("results") {
        Some(results) => results,
        None => {
            return Err(transcribe_error(missing));
        },
    };
    let transcripts = match results.get("transcripts") {
        Some(transcripts) => transcripts,
        None => {
            return Err(transcribe_error(missing));
        },
    };
    let items = match transcripts.as_array() {
        Some(items) => items,
        None => {
            return Err(transcribe_error(missing));
        },
    };
    if items.len() == 0 {
        return Err(transcribe_error(missing));
    }
    let transcript = match items[0].get("transcript") {
        Some(transcript) => transcript,
        None => {
            return Err(transcribe_error(missing));
        },
    };
    let text = match transcript.as_str() {
        Some(text) => text,
        None => {
            return Err(transcribe_error(missing));
        },
    };
    if is_blank_text(text) {
        return Err(transcribe_error("Transcription result is empty"));
    }
    Ok(String::from_str(text))
}

/// Reads the body of a result file and takes the transcript out of it.
pub fn parse_transcript(body: &str) -> (result: Result<String, AppError>)
    ensures
        text_result_view(result) == body_result(body@),
{
    match parse_json(body) {
        Ok(doc) => extract_transcript(&doc),
        Err(complaint) => Err(
            AppError::Transcribe(
                join2("Failed to parse transcription JSON: ", complaint.as_str()),
            ),
        ),
    }
}

/// The action that follows `event` while the transcript is fetched: a
/// failed request, a status outside 200 to 299 and an unreadable body each
/// end the fetch with an error that quotes the cause; a success status asks
/// for the body; the body ends the fetch with what it yields.
pub open spec fn fetch_step(event: FetchEventView) -> FetchActionView {
    match event {
        FetchEventView::RequestFailed(why) => FetchActionView::Finish(
            Err(ErrorView::Transcribe("Failed to fetch transcription results: "@ + why)),
        ),
        FetchEventView::Responded { status, status_line } => if is_success(status) {
            FetchActionView::ReadBody
        } else {
            FetchActionView::Finish(
                Err(
                    ErrorView::Transcribe(
                        "Failed to fetch transcription results: HTTP "@ + status_line,
                    ),
                ),
            )
        },
        FetchEventView::BodyFailed(why) => FetchActionView::Finish(
            Err(ErrorView::Transcribe("Failed to read transcription response: "@ + why)),
        ),
        FetchEventView::Body(text) => FetchActionView::Finish(body_result(text)),
    }
}

/// Decides what follows `event` while the transcript is fetched.
pub fn get_transcription_result(event: FetchEvent) -> (action: FetchAction)
    ensures
        action@ == fetch_step(event@),
{
    match event {
        FetchEvent::RequestFailed(why) => FetchAction::Finish(
            Err(
                AppError::Transcribe(
                    join2("Failed to fetch transcription results: ", why.as_str()),
                ),
            ),
        ),
        FetchEvent::Responded { status, status_line } => {
            if 200 <= status && status <= 299 {
                FetchAction::ReadBody
            } else {
                FetchAction::Finish(
                    Err(
                        AppError::Transcribe(
                            join2(
                                "Failed to fetch transcription results: HTTP ",
                                status_line.as_str(),
                            ),
                        ),
                    ),
                )
            }
        },
        FetchEvent::BodyFailed(why) => FetchAction::Finish(
            Err(
                AppError::Transcribe(
                    join2("Failed to read transcription response: ", why.as_str()),
                ),
            ),
        ),
        FetchEvent::Body(text) => FetchAction::Finish(parse_transcript(text.as_str())),
    }
}

/// A result document whose array of transcripts is empty yields an error,
/// and so does one whose first transcript is blank; any other first
/// transcript is returned as it stands.
pub proof fn lemma_transcript_must_be_there(doc: JsonView)
    ensures
        (doc.member("results"@) matches Some(results) && results.member(
            "transcripts"@,
        ) matches Some(transcripts) && transcripts.items() matches Some(items) && items.len() == 0)
            ==> transcript_result(doc) == Err::<Seq<char>, ErrorView>(
            ErrorView::Transcribe("No transcript text found in results"@),
        ),
        (transcript_in(doc) matches Some(text) && is_blank(text)) ==> transcript_result(doc)
            == Err::<Seq<char>, ErrorView>(ErrorView::Transcribe("Transcription result is empty"@)),
        (transcript_in(doc) matches Some(text) && !is_blank(text)) ==> transcript_result(doc)
            == Ok::<Seq<char>, ErrorView>(transcript_in(doc)->0),
{
}

} // verus!
