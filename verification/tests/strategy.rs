use prepis::progress::{
    ProgressConfig, UploadStrategy, BAR_CHARS, BAR_TEMPLATE, MULTIPART_THRESHOLD, PART_SIZE,
    SPINNER_TEMPLATE, STEADY_TICK_MILLIS,
};
use std::time::Duration;

const MIB: u64 = 1024 * 1024;

#[test]
fn small_files_go_in_one_request() {
    assert_eq!(UploadStrategy::determine(0), UploadStrategy::Simple);
    assert_eq!(UploadStrategy::determine(1), UploadStrategy::Simple);
    assert_eq!(UploadStrategy::determine(10 * MIB), UploadStrategy::Simple);
    assert_eq!(UploadStrategy::determine(50 * MIB - 1), UploadStrategy::Simple);
}

#[test]
fn files_from_fifty_mebibytes_go_in_parts_of_eight() {
    let chunked = UploadStrategy::Multipart { part_size: 8 * 1024 * 1024 };
    assert_eq!(UploadStrategy::determine(50 * MIB), chunked);
    assert_eq!(UploadStrategy::determine(50 * MIB + 1), chunked);
    assert_eq!(UploadStrategy::determine(2048 * MIB), chunked);
    assert_eq!(UploadStrategy::determine(u64::MAX), chunked);
}

#[test]
fn the_strategy_switches_exactly_at_the_threshold() {
    let mut size = 50 * MIB - 1000;
    while size < 50 * MIB + 1000 {
        let simple = UploadStrategy::determine(size) == UploadStrategy::Simple;
        assert_eq!(simple, size < 50 * MIB, "size {}", size);
        size += 1;
    }
}

#[test]
fn threshold_and_part_size_are_exposed() {
    assert_eq!(MULTIPART_THRESHOLD, 50 * MIB);
    assert_eq!(PART_SIZE as u64, 8 * MIB);
}

#[test]
fn the_default_display_redraws_ten_times_a_second() {
    let config = ProgressConfig::default();
    assert_eq!(config.steady_tick, Duration::from_millis(100));
    assert_eq!(config.steady_tick.as_millis(), 100);
    assert_eq!(
        config.template,
        "{spinner:.green} [{elapsed_precise}] [{bar:40.cyan/blue}] {bytes}/{total_bytes} ({bytes_per_sec}, {eta})"
    );
    assert_eq!(config.progress_chars, "█▉▊▋▌▍▎▏  ");
    assert_eq!(config.template, BAR_TEMPLATE);
    assert_eq!(config.progress_chars, BAR_CHARS);
    assert_eq!(STEADY_TICK_MILLIS, 100);
    assert_eq!(SPINNER_TEMPLATE, "{spinner:.green} [{elapsed_precise}] Uploading {msg}");
}
