use prepis::utils::{
    file_name_or_unknown, file_stem_or_unknown, generate_job_name, generate_s3_key, job_name_at,
    s3_key_at, timestamp_of, unix_timestamp,
};
use std::path::Path;
use std::time::{Duration, SystemTime, UNIX_EPOCH};

fn clock() -> u64 {
    SystemTime::now().duration_since(UNIX_EPOCH).unwrap().as_secs()
}

#[test]
fn the_object_key_holds_prefix_time_and_name() {
    assert_eq!(s3_key_at(1700000000, "talk.mp4"), "transcribe-temp/1700000000-talk.mp4");
    assert_eq!(s3_key_at(0, "unknown"), "transcribe-temp/0-unknown");
    assert_eq!(s3_key_at(u64::MAX, ""), "transcribe-temp/18446744073709551615-");
}

#[test]
fn the_job_name_holds_prefix_time_and_stem() {
    assert_eq!(job_name_at(1700000000, "talk"), "transcribe-job-1700000000-talk");
    assert_eq!(job_name_at(5, "my talk"), "transcribe-job-5-my talk");
}

#[test]
fn the_file_name_is_the_last_component() {
    assert_eq!(file_name_or_unknown(Path::new("/media/2024/talk.mp4")), "talk.mp4");
    assert_eq!(file_name_or_unknown(Path::new("talk.final.mp4")), "talk.final.mp4");
    assert_eq!(file_name_or_unknown(Path::new("/media/2024/")), "2024");
    assert_eq!(file_name_or_unknown(Path::new("/")), "unknown");
    assert_eq!(file_name_or_unknown(Path::new("..")), "unknown");
    assert_eq!(file_name_or_unknown(Path::new("")), "unknown");
}

#[test]
fn the_stem_is_the_name_without_its_extension() {
    assert_eq!(file_stem_or_unknown(Path::new("/media/2024/talk.mp4")), "talk");
    assert_eq!(file_stem_or_unknown(Path::new("talk.final.mp4")), "talk.final");
    assert_eq!(file_stem_or_unknown(Path::new("talk")), "talk");
    assert_eq!(file_stem_or_unknown(Path::new(".hidden")), ".hidden");
    assert_eq!(file_stem_or_unknown(Path::new("/")), "unknown");
}

#[test]
fn the_timestamp_is_the_clock_in_seconds() {
    let before = clock();
    let stamp = unix_timestamp();
    let after = clock();
    assert!(before <= stamp && stamp <= after);
}

#[test]
fn a_generated_key_is_stamped_with_the_current_time() {
    let before = clock();
    let key = generate_s3_key(Path::new("/media/talk.mp4"));
    let after = clock();
    let rest = key.strip_prefix("transcribe-temp/").expect("prefix");
    let stamp = rest.strip_suffix("-talk.mp4").expect("suffix");
    let stamp: u64 = stamp.parse().expect("digits");
    assert!(before <= stamp && stamp <= after);
    assert_eq!(key, s3_key_at(stamp, "talk.mp4"));
}

#[test]
fn a_generated_job_name_is_stamped_with_the_current_time() {
    let before = clock();
    let name = generate_job_name(Path::new("/media/talk.mp4"));
    let after = clock();
    let rest = name.strip_prefix("transcribe-job-").expect("prefix");
    let stamp = rest.strip_suffix("-talk").expect("suffix");
    let stamp: u64 = stamp.parse().expect("digits");
    assert!(before <= stamp && stamp <= after);
    assert_eq!(name, job_name_at(stamp, "talk"));
}

#[test]
fn a_path_without_a_name_gives_unknown() {
    let key = generate_s3_key(Path::new("/"));
    assert!(key.starts_with("transcribe-temp/"));
    assert!(key.ends_with("-unknown"));
    let name = generate_job_name(Path::new("/"));
    assert!(name.starts_with("transcribe-job-"));
    assert!(name.ends_with("-unknown"));
}

#[test]
fn a_reading_after_the_epoch_gives_its_whole_seconds() {
    assert_eq!(timestamp_of(Ok(Duration::from_secs(0))), 0);
    assert_eq!(timestamp_of(Ok(Duration::from_millis(999))), 0);
    assert_eq!(timestamp_of(Ok(Duration::from_millis(1000))), 1);
    assert_eq!(timestamp_of(Ok(Duration::new(1700000000, 999_999_999))), 1700000000);
    assert_eq!(timestamp_of(Ok(Duration::from_secs(u64::MAX))), u64::MAX);
    let later = UNIX_EPOCH + Duration::from_secs(42);
    assert_eq!(timestamp_of(later.duration_since(UNIX_EPOCH)), 42);
}

#[test]
fn a_reading_before_the_epoch_gives_zero() {
    let earlier = UNIX_EPOCH - Duration::from_secs(42);
    let reading = earlier.duration_since(UNIX_EPOCH);
    assert!(reading.is_err());
    assert_eq!(timestamp_of(reading), 0);
}
