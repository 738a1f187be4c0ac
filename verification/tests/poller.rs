use prepis::aws::transcribe::{
    poll_transcription_status, JobReport, JobStatus, PollState, PollStep, StatusReply,
    INITIAL_INTERVAL, MAX_ATTEMPTS, MAX_INTERVAL,
};
use prepis::error::AppError;
use prepis::models::TranscriptionStatus;

fn report(status: Option<JobStatus>, uri: Option<&str>, reason: Option<&str>) -> StatusReply {
    StatusReply::Job(JobReport {
        status,
        transcript_uri: uri.map(|s| s.to_string()),
        failure_reason: reason.map(|s| s.to_string()),
    })
}

fn running() -> StatusReply {
    report(Some(JobStatus::InProgress), None, None)
}

fn timeout_text(step: PollStep) -> String {
    match step {
        PollStep::Done(Err(AppError::Timeout(text))) => text,
        other => panic!("expected the time-out, got {:?}", other),
    }
}

fn error_text(step: PollStep) -> String {
    match step {
        PollStep::Done(Err(AppError::Transcribe(text))) => text,
        other => panic!("expected a transcription error, got {:?}", other),
    }
}

#[test]
fn polling_starts_with_the_first_check_and_five_seconds() {
    assert_eq!(PollState::start(), PollState { attempt: 1, interval: 5 });
    assert_eq!(INITIAL_INTERVAL, 5);
    assert_eq!(MAX_INTERVAL, 30);
    assert_eq!(MAX_ATTEMPTS, 120);
}

#[test]
fn a_job_that_never_ends_times_out_after_120_checks() {
    let mut state = PollState::start();
    let mut waits = Vec::new();
    let mut checks = 0;
    let outcome = loop {
        checks += 1;
        match poll_transcription_status(state, running()) {
            PollStep::Wait { seconds, next } => {
                waits.push(seconds);
                assert_eq!(next.attempt, state.attempt + 1);
                state = next;
            }
            PollStep::Done(result) => break result,
        }
        assert!(checks < 1000);
    };
    assert_eq!(checks, 120);
    assert_eq!(waits.len(), 119);
    assert_eq!(&waits[..6], &[5, 10, 20, 30, 30, 30]);
    assert!(waits[3..].iter().all(|w| *w == 30));
    assert_eq!(waits.iter().sum::<u64>(), 5 + 10 + 20 + 116 * 30);
    match outcome {
        Err(AppError::Timeout(text)) => assert_eq!(text, "Transcription job timed out"),
        other => panic!("expected the time-out, got {:?}", other),
    }
}

#[test]
fn the_wait_doubles_up_to_thirty_seconds() {
    for (interval, expected) in [(5, 10), (10, 20), (14, 28), (15, 30), (20, 30), (30, 30), (0, 0), (1, 2), (u64::MAX, 30)] {
        match poll_transcription_status(PollState { attempt: 3, interval }, running()) {
            PollStep::Wait { seconds, next } => {
                assert_eq!(seconds, interval);
                assert_eq!(next, PollState { attempt: 4, interval: expected });
            }
            other => panic!("expected a wait, got {:?}", other),
        }
    }
}

#[test]
fn the_last_check_allowed_does_not_wait() {
    let step = poll_transcription_status(PollState { attempt: 119, interval: 30 }, running());
    assert!(matches!(step, PollStep::Wait { seconds: 30, next: PollState { attempt: 120, interval: 30 } }));
    let step = poll_transcription_status(PollState { attempt: 120, interval: 30 }, running());
    assert_eq!(timeout_text(step), "Transcription job timed out");
    let step = poll_transcription_status(PollState { attempt: u32::MAX, interval: 30 }, running());
    assert_eq!(timeout_text(step), "Transcription job timed out");
}

#[test]
fn the_time_out_is_a_failure_of_its_own_kind() {
    let timed_out = poll_transcription_status(PollState { attempt: 120, interval: 30 }, running());
    assert!(matches!(timed_out, PollStep::Done(Err(AppError::Timeout(_)))));
    let last = PollState { attempt: 120, interval: 30 };
    let unreachable = StatusReply::Unreachable("dispatch failure".to_string());
    assert!(matches!(
        poll_transcription_status(last, unreachable),
        PollStep::Done(Err(AppError::Transcribe(_)))
    ));
    assert!(matches!(
        poll_transcription_status(last, StatusReply::Missing),
        PollStep::Done(Err(AppError::Transcribe(_)))
    ));
    assert!(matches!(
        poll_transcription_status(last, report(Some(JobStatus::Queued), None, None)),
        PollStep::Done(Err(AppError::Transcribe(_)))
    ));
    assert!(matches!(
        poll_transcription_status(last, report(Some(JobStatus::Completed), None, None)),
        PollStep::Done(Err(AppError::Transcribe(_)))
    ));
    assert!(matches!(
        poll_transcription_status(last, report(Some(JobStatus::Failed), None, None)),
        PollStep::Done(Ok(TranscriptionStatus::Failed(_)))
    ));
}

#[test]
fn a_failed_job_is_a_result_with_its_reason() {
    let reply = report(Some(JobStatus::Failed), None, Some("reason"));
    match poll_transcription_status(PollState::start(), reply) {
        PollStep::Done(Ok(TranscriptionStatus::Failed(reason))) => assert_eq!(reason, "reason"),
        other => panic!("expected a failed job, got {:?}", other),
    }
    let reply = report(Some(JobStatus::Failed), Some("https://x/y.json"), Some("bad audio"));
    match poll_transcription_status(PollState { attempt: 120, interval: 30 }, reply) {
        PollStep::Done(Ok(TranscriptionStatus::Failed(reason))) => assert_eq!(reason, "bad audio"),
        other => panic!("expected a failed job, got {:?}", other),
    }
}

#[test]
fn a_failed_job_without_a_reason_gets_a_placeholder() {
    let reply = report(Some(JobStatus::Failed), None, None);
    match poll_transcription_status(PollState::start(), reply) {
        PollStep::Done(Ok(TranscriptionStatus::Failed(reason))) => {
            assert_eq!(reason, "Unknown failure reason")
        }
        other => panic!("expected a failed job, got {:?}", other),
    }
}

#[test]
fn a_completed_job_gives_the_location_of_its_transcript() {
    let reply = report(Some(JobStatus::Completed), Some("https://s3/result.json"), None);
    match poll_transcription_status(PollState::start(), reply) {
        PollStep::Done(Ok(TranscriptionStatus::Completed(uri))) => {
            assert_eq!(uri, "https://s3/result.json")
        }
        other => panic!("expected a completed job, got {:?}", other),
    }
}

#[test]
fn a_completed_job_without_a_location_is_an_error() {
    let reply = report(Some(JobStatus::Completed), None, Some("ignored"));
    let step = poll_transcription_status(PollState::start(), reply);
    assert_eq!(error_text(step), "Job completed but no transcript URI found");
}

#[test]
fn any_other_status_is_an_error() {
    for status in [Some(JobStatus::Queued), Some(JobStatus::Other), None] {
        let step = poll_transcription_status(PollState::start(), report(status, Some("u"), Some("r")));
        assert_eq!(error_text(step), "Unknown job status");
    }
}

#[test]
fn an_answer_without_a_job_is_an_error() {
    let step = poll_transcription_status(PollState::start(), StatusReply::Missing);
    assert_eq!(error_text(step), "Job not found");
}

#[test]
fn a_failed_check_is_an_error_at_once() {
    let reply = StatusReply::Unreachable("dispatch failure".to_string());
    let step = poll_transcription_status(PollState::start(), reply);
    assert_eq!(error_text(step), "Failed to get job status: dispatch failure");
}
