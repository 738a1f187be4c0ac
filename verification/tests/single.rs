use prepis::aws::s3::{UploadAction, UploadEvent};
use prepis::aws::single::{SimplePhase, SimpleUpload, READ_CHUNK_SIZE};
use prepis::error::AppError;
use prepis::progress::BarStatus;

struct Log {
    upload: SimpleUpload,
    result: Result<String, AppError>,
    puts: Vec<Vec<u8>>,
    reads: usize,
    pauses: Vec<u64>,
}

fn run(data: &[u8], declared_size: u64, read_limit: usize, refuse: bool) -> Log {
    let mut upload =
        SimpleUpload::begin("bucket", "transcribe-temp/1-talk.mp4", "talk.mp4", declared_size, true);
    let mut action = UploadAction::OpenSource;
    let mut position = 0;
    let mut puts = Vec::new();
    let mut reads = 0;
    let mut pauses = Vec::new();
    loop {
        let event = match action {
            UploadAction::OpenSource => UploadEvent::SourceOpened,
            UploadAction::Read { max } => {
                assert_eq!(max, 65536);
                reads += 1;
                let n = max.min(read_limit).min(data.len() - position);
                let bytes = data[position..position + n].to_vec();
                position += n;
                UploadEvent::Data(bytes)
            }
            UploadAction::Pause { millis } => {
                pauses.push(millis);
                UploadEvent::PauseElapsed
            }
            UploadAction::PutObject { body } => {
                puts.push(body);
                if refuse {
                    UploadEvent::ObjectRefused("access denied".into())
                } else {
                    UploadEvent::ObjectStored
                }
            }
            UploadAction::Finish(result) => {
                return Log { upload, result, puts, reads, pauses };
            }
            other => panic!("a single-request upload does not ask for {:?}", other),
        };
        let next = upload.step(event);
        upload = next.0;
        action = next.1;
    }
}

fn sample(size: usize) -> Vec<u8> {
    (0..size).map(|i| (i % 253) as u8).collect()
}

#[test]
fn the_whole_file_goes_in_one_request() {
    for size in [1usize, 100, 65535, 65536, 65537, 200000] {
        let data = sample(size);
        let log = run(&data, size as u64, usize::MAX, false);
        assert_eq!(
            log.result.as_ref().ok().map(|s| s.as_str()),
            Some("s3://bucket/transcribe-temp/1-talk.mp4")
        );
        assert_eq!(log.puts.len(), 1);
        assert_eq!(log.puts[0], data);
        assert_eq!(log.upload.tracker().bytes_uploaded(), size as u64);
        assert_eq!(log.upload.tracker().progress_bar().status(), BarStatus::Finished);
        assert_eq!(log.upload.phase(), SimplePhase::Done);
        assert_eq!(log.reads, size / 65536 + 1 + if size % 65536 == 0 { 0 } else { 1 });
    }
}

#[test]
fn short_reads_are_collected_all_the_same() {
    let data = sample(1000);
    for read_limit in [1, 7, 999] {
        let log = run(&data, 1000, read_limit, false);
        assert!(log.result.is_ok());
        assert_eq!(log.puts, vec![data.clone()]);
        assert_eq!(log.upload.tracker().bytes_uploaded(), 1000);
    }
}

#[test]
fn a_small_file_pauses_after_each_read_with_data() {
    let data = sample(150000);
    let log = run(&data, 150000, usize::MAX, false);
    assert_eq!(log.pauses, vec![10, 10, 10]);
    assert_eq!(log.reads, 4);
}

#[test]
fn a_file_of_a_mebibyte_does_not_pause() {
    let data = sample(1024 * 1024);
    let log = run(&data, 1024 * 1024, usize::MAX, false);
    assert!(log.pauses.is_empty());
    assert_eq!(log.puts, vec![data]);
    let data = sample(1024 * 1024 - 1);
    let log = run(&data, 1024 * 1024 - 1, usize::MAX, false);
    assert_eq!(log.pauses.len(), 16);
}

#[test]
fn an_empty_file_is_stored_as_an_empty_object() {
    let log = run(&[], 0, usize::MAX, false);
    assert!(log.result.is_ok());
    assert_eq!(log.puts, vec![Vec::<u8>::new()]);
    assert_eq!(log.upload.tracker().bytes_uploaded(), 0);
    assert_eq!(log.upload.tracker().total_bytes(), 0);
    assert_eq!(log.upload.tracker().progress_bar().length(), None);
    assert!(log.pauses.is_empty());
}

#[test]
fn the_count_follows_the_bytes_read_not_the_declared_size() {
    let data = sample(500);
    let log = run(&data, 400, usize::MAX, false);
    assert_eq!(log.upload.tracker().bytes_uploaded(), 500);
    assert_eq!(log.upload.tracker().total_bytes(), 400);
    assert_eq!(log.puts, vec![data]);
}

#[test]
fn a_refused_object_fails_the_upload() {
    let data = sample(10);
    let log = run(&data, 10, usize::MAX, true);
    match &log.result {
        Err(AppError::S3(text)) => assert_eq!(text, "Failed to upload file to S3: access denied"),
        other => panic!("expected an S3 error, got {:?}", other),
    }
    assert_eq!(log.puts.len(), 1);
    assert_eq!(log.upload.tracker().progress_bar().status(), BarStatus::Abandoned);
    assert_eq!(log.upload.tracker().bytes_uploaded(), 10);
}

#[test]
fn a_source_that_fails_is_an_io_error() {
    let upload = SimpleUpload::begin("b", "k", "talk.mp4", 10, true);
    let cause = std::io::Error::new(std::io::ErrorKind::NotFound, "gone");
    let (upload, action) = upload.step(UploadEvent::SourceFailed(cause));
    assert!(matches!(action, UploadAction::Finish(Err(AppError::Io(_)))));
    assert_eq!(upload.phase(), SimplePhase::Done);

    let upload = SimpleUpload::begin("b", "k", "talk.mp4", 10, true);
    let (upload, _) = upload.step(UploadEvent::SourceOpened);
    let (upload, action) = upload.step(UploadEvent::Data(vec![1, 2]));
    assert!(matches!(action, UploadAction::Pause { millis: 10 }));
    let (upload, _) = upload.step(UploadEvent::PauseElapsed);
    let cause = std::io::Error::new(std::io::ErrorKind::Interrupted, "cut");
    let (_, action) = upload.step(UploadEvent::SourceFailed(cause));
    assert!(matches!(action, UploadAction::Finish(Err(AppError::Io(_)))));
}

#[test]
fn a_single_read_that_returns_too_much_is_refused() {
    let upload = SimpleUpload::begin("b", "k", "talk.mp4", 10, true);
    let (upload, _) = upload.step(UploadEvent::SourceOpened);
    let (upload, action) = upload.step(UploadEvent::Data(vec![0; READ_CHUNK_SIZE + 1]));
    match action {
        UploadAction::Finish(Err(AppError::S3(text))) => {
            assert_eq!(text, "Unexpected event for the upload in progress")
        }
        other => panic!("expected a refusal, got {:?}", other),
    }
    assert_eq!(upload.phase(), SimplePhase::Done);
}

#[test]
fn a_single_upload_refuses_events_out_of_turn() {
    let upload = SimpleUpload::begin("b", "k", "talk.mp4", 10, true);
    let (upload, action) = upload.step(UploadEvent::ObjectStored);
    assert!(matches!(action, UploadAction::Finish(Err(AppError::S3(_)))));
    let (_, action) = upload.step(UploadEvent::SourceOpened);
    assert!(matches!(action, UploadAction::Finish(Err(AppError::S3(_)))));
}
