use prepis::aws::s3::{delete_file_from_s3, UploadAction, UploadEvent};
use prepis::aws::transcribe::{
    get_transcription_result, job_submission_result, poll_transcription_status,
    start_transcription_job, FetchAction, FetchEvent, JobReport, JobStatus, PollState, PollStep,
    StatusReply,
};
use prepis::aws::upload::{begin_upload, upload_file_to_s3, Upload};
use prepis::error::AppError;
use prepis::models::TranscriptionStatus;
use prepis::pipeline::{Pipeline, PipelineAction, PipelineEvent, Stage};
use prepis::progress::UploadStrategy;
use std::path::Path;

fn transcribe(text: &str) -> AppError {
    AppError::Transcribe(text.to_string())
}

fn exit_error(action: PipelineAction) -> String {
    match action {
        PipelineAction::Exit(Err(error)) => error.message(),
        other => panic!("expected a failed run, got {:?}", other),
    }
}

/// Takes a run up to the point where the store holds the object.
fn uploaded_run() -> Pipeline {
    let run = Pipeline::begin("bucket", "talk.mp4", "talk", false);
    let (run, _) = run.advance(PipelineEvent::Validated(Ok(())), 1);
    let (run, _) = run.advance(PipelineEvent::Connected(Ok(())), 100);
    let (run, action) = run.advance(PipelineEvent::Uploaded(Ok("s3://bucket/k".into())), 200);
    assert!(matches!(action, PipelineAction::Submit { .. }));
    run
}

fn expect_clean(action: PipelineAction) {
    match action {
        PipelineAction::Clean { bucket, key } => {
            assert_eq!(bucket, "bucket");
            assert_eq!(key, "transcribe-temp/100-talk.mp4");
        }
        other => panic!("expected the clean-up, got {:?}", other),
    }
}

#[test]
fn a_run_goes_through_its_stages_in_order() {
    let run = Pipeline::begin("bucket", "talk.mp4", "talk", true);
    assert_eq!(run.stage(), Stage::Validating);
    let (run, action) = run.advance(PipelineEvent::Validated(Ok(())), 1);
    assert!(matches!(action, PipelineAction::Connect));
    let (run, action) = run.advance(PipelineEvent::Connected(Ok(())), 1700000000);
    match action {
        PipelineAction::Upload { bucket, key } => {
            assert_eq!(bucket, "bucket");
            assert_eq!(key, "transcribe-temp/1700000000-talk.mp4");
        }
        other => panic!("expected the upload, got {:?}", other),
    }
    assert_eq!(run.key(), "transcribe-temp/1700000000-talk.mp4");
    let location = "s3://bucket/transcribe-temp/1700000000-talk.mp4";
    let (run, action) = run.advance(PipelineEvent::Uploaded(Ok(location.into())), 1700000042);
    match action {
        PipelineAction::Submit { job_name, media_uri } => {
            assert_eq!(job_name, "transcribe-job-1700000042-talk");
            assert_eq!(media_uri, location);
        }
        other => panic!("expected the submission, got {:?}", other),
    }
    assert_eq!(run.job_name(), "transcribe-job-1700000042-talk");
    let (run, action) = run.advance(PipelineEvent::Submitted(Ok(())), 3);
    assert!(matches!(action, PipelineAction::Poll { job_name } if job_name == "transcribe-job-1700000042-talk"));
    let done = TranscriptionStatus::Completed("https://s3/result.json".into());
    let (run, action) = run.advance(PipelineEvent::Polled(Ok(done)), 4);
    assert!(matches!(action, PipelineAction::Fetch { uri } if uri == "https://s3/result.json"));
    let (run, action) = run.advance(PipelineEvent::Fetched(Ok("hello world".into())), 5);
    assert!(matches!(action, PipelineAction::Deliver { transcript, save: true } if transcript == "hello world"));
    let (run, action) = run.advance(PipelineEvent::Delivered(Ok(())), 6);
    match action {
        PipelineAction::Clean { bucket, key } => {
            assert_eq!(bucket, "bucket");
            assert_eq!(key, "transcribe-temp/1700000000-talk.mp4");
        }
        other => panic!("expected the clean-up, got {:?}", other),
    }
    assert_eq!(run.stage(), Stage::Cleaning);
    let (run, action) = run.advance(PipelineEvent::Cleaned(None), 7);
    assert!(matches!(action, PipelineAction::Exit(Ok(()))));
    assert_eq!(run.stage(), Stage::Done);
}

#[test]
fn a_failed_clean_up_does_not_fail_the_run() {
    let run = uploaded_run();
    let (run, _) = run.advance(PipelineEvent::Submitted(Ok(())), 3);
    let done = TranscriptionStatus::Completed("https://s3/result.json".into());
    let (run, _) = run.advance(PipelineEvent::Polled(Ok(done)), 4);
    let (run, _) = run.advance(PipelineEvent::Fetched(Ok("hello world".into())), 5);
    let (run, action) = run.advance(PipelineEvent::Delivered(Ok(())), 6);
    expect_clean(action);
    let (run, action) = run.advance(PipelineEvent::Cleaned(Some("access denied".into())), 7);
    assert!(matches!(action, PipelineAction::Exit(Ok(()))));
    assert_eq!(run.stage(), Stage::Done);
}

#[test]
fn failures_before_the_object_exists_end_the_run_at_once() {
    let run = Pipeline::begin("bucket", "talk.mp4", "talk", false);
    let (run, action) =
        run.advance(PipelineEvent::Validated(Err(AppError::File("File is empty".into()))), 1);
    assert_eq!(exit_error(action), "File error: File is empty");
    assert_eq!(run.stage(), Stage::Done);

    let run = Pipeline::begin("bucket", "talk.mp4", "talk", false);
    let (run, _) = run.advance(PipelineEvent::Validated(Ok(())), 1);
    let (_, action) = run.advance(PipelineEvent::Connected(Err(AppError::Aws("denied".into()))), 1);
    assert_eq!(exit_error(action), "AWS error: denied");

    let run = Pipeline::begin("bucket", "talk.mp4", "talk", false);
    let (run, _) = run.advance(PipelineEvent::Validated(Ok(())), 1);
    let (run, _) = run.advance(PipelineEvent::Connected(Ok(())), 1);
    let (_, action) = run.advance(PipelineEvent::Uploaded(Err(AppError::S3("refused".into()))), 1);
    assert_eq!(exit_error(action), "S3 error: refused");
}

#[test]
fn a_refused_job_is_reported_after_the_clean_up() {
    let run = uploaded_run();
    let (run, action) = run.advance(PipelineEvent::Submitted(Err(transcribe("duplicate"))), 3);
    expect_clean(action);
    let (_, action) = run.advance(PipelineEvent::Cleaned(None), 4);
    assert_eq!(exit_error(action), "Transcribe error: duplicate");
}

#[test]
fn a_failed_job_is_reported_after_the_clean_up() {
    let run = uploaded_run();
    let (run, _) = run.advance(PipelineEvent::Submitted(Ok(())), 3);
    let failed = TranscriptionStatus::Failed("bad audio".into());
    let (run, action) = run.advance(PipelineEvent::Polled(Ok(failed)), 4);
    expect_clean(action);
    let (_, action) = run.advance(PipelineEvent::Cleaned(Some("also failed".into())), 5);
    assert_eq!(exit_error(action), "Transcribe error: Transcription failed: bad audio");
}

#[test]
fn a_polling_error_is_reported_after_the_clean_up() {
    let run = uploaded_run();
    let (run, _) = run.advance(PipelineEvent::Submitted(Ok(())), 3);
    let timed_out = AppError::Timeout("Transcription job timed out".to_string());
    let (run, action) = run.advance(PipelineEvent::Polled(Err(timed_out)), 4);
    expect_clean(action);
    let (_, action) = run.advance(PipelineEvent::Cleaned(None), 5);
    assert_eq!(exit_error(action), "Timeout error: Transcription job timed out");
}

#[test]
fn a_fetch_error_is_reported_after_the_clean_up() {
    let run = uploaded_run();
    let (run, _) = run.advance(PipelineEvent::Submitted(Ok(())), 3);
    let done = TranscriptionStatus::Completed("https://s3/result.json".into());
    let (run, _) = run.advance(PipelineEvent::Polled(Ok(done)), 4);
    let (run, action) =
        run.advance(PipelineEvent::Fetched(Err(transcribe("Transcription result is empty"))), 5);
    expect_clean(action);
    let (_, action) = run.advance(PipelineEvent::Cleaned(None), 6);
    assert_eq!(exit_error(action), "Transcribe error: Transcription result is empty");
}

#[test]
fn a_failure_to_save_is_reported_after_the_clean_up() {
    let run = uploaded_run();
    let (run, _) = run.advance(PipelineEvent::Submitted(Ok(())), 3);
    let done = TranscriptionStatus::Completed("https://s3/result.json".into());
    let (run, _) = run.advance(PipelineEvent::Polled(Ok(done)), 4);
    let (run, action) = run.advance(PipelineEvent::Fetched(Ok("text".into())), 5);
    assert!(matches!(action, PipelineAction::Deliver { save: false, .. }));
    let cause = std::io::Error::new(std::io::ErrorKind::Other, "disk full");
    let (run, action) = run.advance(PipelineEvent::Delivered(Err(AppError::Io(cause))), 6);
    expect_clean(action);
    let (_, action) = run.advance(PipelineEvent::Cleaned(None), 7);
    assert_eq!(exit_error(action), "IO error: disk full");
}

#[test]
fn an_event_out_of_turn_still_leads_to_the_clean_up() {
    let run = uploaded_run();
    let (run, action) = run.advance(PipelineEvent::Fetched(Ok("text".into())), 3);
    expect_clean(action);
    let (run, action) = run.advance(PipelineEvent::Cleaned(None), 4);
    assert_eq!(exit_error(action), "Transcribe error: Unexpected event for the run in progress");
    let (_, action) = run.advance(PipelineEvent::Cleaned(None), 5);
    assert_eq!(exit_error(action), "Transcribe error: Unexpected event for the run in progress");
}

#[test]
fn an_event_out_of_turn_before_the_upload_ends_the_run() {
    let run = Pipeline::begin("bucket", "talk.mp4", "talk", false);
    let (_, action) = run.advance(PipelineEvent::Cleaned(None), 1);
    assert_eq!(exit_error(action), "Transcribe error: Unexpected event for the run in progress");
}

#[test]
fn a_run_takes_names_from_the_path() {
    let run = Pipeline::for_file("bucket", Path::new("/media/my.talk.mp4"), false);
    let (run, _) = run.advance(PipelineEvent::Validated(Ok(())), 1);
    let (run, action) = run.advance(PipelineEvent::Connected(Ok(())), 7);
    assert!(matches!(action, PipelineAction::Upload { key, .. } if key == "transcribe-temp/7-my.talk.mp4"));
    let (_, action) = run.advance(PipelineEvent::Uploaded(Ok("s3://b/k".into())), 8);
    assert!(matches!(action, PipelineAction::Submit { job_name, .. } if job_name == "transcribe-job-8-my.talk"));
}

#[test]
fn a_step_stamps_names_with_the_clock() {
    let run = Pipeline::begin("bucket", "talk.mp4", "talk", false);
    let (run, _) = run.step(PipelineEvent::Validated(Ok(())));
    let (run, action) = run.step(PipelineEvent::Connected(Ok(())));
    match action {
        PipelineAction::Upload { bucket, key } => {
            assert_eq!(bucket, "bucket");
            let stamp = key
                .strip_prefix("transcribe-temp/")
                .and_then(|rest| rest.strip_suffix("-talk.mp4"))
                .expect("shape of the key");
            assert!(stamp.parse::<u64>().unwrap() > 1_600_000_000);
            assert_eq!(run.key(), key);
        }
        other => panic!("expected the upload, got {:?}", other),
    }
}

#[test]
fn an_upload_begins_by_the_size_of_the_file() {
    let (upload, action) = begin_upload("bucket", "key", "talk.mp4", 10 * 1024 * 1024, true);
    assert!(matches!(upload, Upload::Simple(_)));
    assert!(matches!(action, UploadAction::OpenSource));
    let (upload, action) = begin_upload("bucket", "key", "talk.mp4", 50 * 1024 * 1024, true);
    assert!(matches!(upload, Upload::Multipart(_)));
    assert!(matches!(action, UploadAction::CreateSession));
    assert_eq!(upload.tracker().total_bytes(), 50 * 1024 * 1024);
    let (upload, action) = upload_file_to_s3("bucket", Path::new("/media/talk.mp4"), 5);
    assert!(matches!(upload, Upload::Simple(_)));
    assert!(matches!(action, UploadAction::OpenSource));
}

#[test]
fn a_chunked_upload_of_fifty_mebibytes_has_seven_parts() {
    let size = 50 * 1024 * 1024;
    let (mut upload, mut action) = begin_upload("bucket", "key", "talk.mp4", size as u64, true);
    let mut remaining: usize = size;
    let mut numbers = Vec::new();
    let mut sizes = Vec::new();
    let result = loop {
        let event = match action {
            UploadAction::CreateSession => UploadEvent::SessionCreated(Some("id".into())),
            UploadAction::OpenSource => UploadEvent::SourceOpened,
            UploadAction::Read { max } => {
                let n = max.min(remaining).min(1024 * 1024);
                remaining -= n;
                UploadEvent::Data(vec![7; n])
            }
            UploadAction::UploadPart { part_number, body, .. } => {
                numbers.push(part_number);
                sizes.push(body.len());
                UploadEvent::PartStored(Some(format!("tag-{}", part_number)))
            }
            UploadAction::CompleteSession { parts, .. } => {
                assert_eq!(parts.len(), 7);
                UploadEvent::SessionCompleted
            }
            UploadAction::Finish(result) => break result,
            other => panic!("unexpected {:?}", other),
        };
        let next = upload.step(event);
        upload = next.0;
        action = next.1;
    };
    assert_eq!(result.unwrap(), "s3://bucket/key");
    assert_eq!(numbers, vec![1, 2, 3, 4, 5, 6, 7]);
    let eight = 8 * 1024 * 1024;
    assert_eq!(sizes, vec![eight, eight, eight, eight, eight, eight, 2 * 1024 * 1024]);
    assert_eq!(upload.tracker().bytes_uploaded(), size as u64);
}

#[test]
fn a_ten_mebibyte_file_is_transcribed_end_to_end() {
    let size: usize = 10 * 1024 * 1024;
    let path = Path::new("/media/talk.mp4");
    let mut printed: Vec<String> = Vec::new();
    let mut put_requests = 0;
    let mut clean_ups = 0;
    let mut status_checks = 0;
    let mut waits = Vec::new();

    let mut run = Pipeline::for_file("bucket", path, false);
    let mut action = PipelineAction::Validate;
    let outcome = loop {
        let event = match action {
            PipelineAction::Validate => PipelineEvent::Validated(Ok(())),
            PipelineAction::Connect => PipelineEvent::Connected(Ok(())),
            PipelineAction::Upload { bucket, key } => {
                assert_eq!(UploadStrategy::determine(size as u64), UploadStrategy::Simple);
                let (mut upload, mut step) = begin_upload(&bucket, &key, "talk.mp4", size as u64, true);
                assert!(matches!(upload, Upload::Simple(_)));
                let mut remaining = size;
                let result = loop {
                    let event = match step {
                        UploadAction::OpenSource => UploadEvent::SourceOpened,
                        UploadAction::Read { max } => {
                            let n = max.min(remaining);
                            remaining -= n;
                            UploadEvent::Data(vec![1; n])
                        }
                        UploadAction::PutObject { body } => {
                            put_requests += 1;
                            assert_eq!(body.len(), size);
                            UploadEvent::ObjectStored
                        }
                        UploadAction::Finish(result) => break result,
                        other => panic!("unexpected {:?}", other),
                    };
                    let next = upload.step(event);
                    upload = next.0;
                    step = next.1;
                };
                assert_eq!(upload.tracker().bytes_uploaded(), size as u64);
                PipelineEvent::Uploaded(result)
            }
            PipelineAction::Submit { job_name, media_uri } => {
                let request = start_transcription_job(&job_name, &media_uri);
                assert!(request.media_file_uri.starts_with("s3://bucket/transcribe-temp/"));
                assert!(request.media_file_uri.ends_with("-talk.mp4"));
                PipelineEvent::Submitted(job_submission_result(None))
            }
            PipelineAction::Poll { job_name } => {
                assert!(job_name.starts_with("transcribe-job-"));
                let mut state = PollState::start();
                let result = loop {
                    status_checks += 1;
                    let status = if status_checks <= 2 {
                        JobStatus::InProgress
                    } else {
                        JobStatus::Completed
                    };
                    let reply = StatusReply::Job(JobReport {
                        status: Some(status),
                        transcript_uri: if status_checks <= 2 {
                            None
                        } else {
                            Some("https://s3/result.json".to_string())
                        },
                        failure_reason: None,
                    });
                    match poll_transcription_status(state, reply) {
                        PollStep::Wait { seconds, next } => {
                            waits.push(seconds);
                            state = next;
                        }
                        PollStep::Done(result) => break result,
                    }
                };
                PipelineEvent::Polled(result)
            }
            PipelineAction::Fetch { uri } => {
                assert_eq!(uri, "https://s3/result.json");
                let answered = get_transcription_result(FetchEvent::Responded {
                    status: 200,
                    status_line: "200 OK".to_string(),
                });
                assert!(matches!(answered, FetchAction::ReadBody));
                let body = r#"{"results":{"transcripts":[{"transcript":"test transcript"}]}}"#;
                match get_transcription_result(FetchEvent::Body(body.to_string())) {
                    FetchAction::Finish(result) => PipelineEvent::Fetched(result),
                    other => panic!("unexpected {:?}", other),
                }
            }
            PipelineAction::Deliver { transcript, save } => {
                assert!(!save);
                printed.push(transcript);
                PipelineEvent::Delivered(Ok(()))
            }
            PipelineAction::Clean { bucket, key } => {
                clean_ups += 1;
                assert_eq!(bucket, "bucket");
                assert_eq!(key, run.key());
                let complaint = Some("access denied".to_string());
                assert!(delete_file_from_s3(&complaint).is_ok());
                PipelineEvent::Cleaned(complaint)
            }
            PipelineAction::Exit(result) => break result,
        };
        let next = run.step(event);
        run = next.0;
        action = next.1;
    };
    assert!(outcome.is_ok());
    assert_eq!(put_requests, 1);
    assert_eq!(status_checks, 3);
    assert_eq!(waits, vec![5, 10]);
    assert_eq!(printed, vec!["test transcript".to_string()]);
    assert_eq!(clean_ups, 1);
    assert_eq!(run.stage(), Stage::Done);
}
