use prepis::error::AppError;
use prepis::file::validation::{
    format_megabytes, get_file_extension, is_supported_extension, validate_video_file, FileProbe,
    MAX_FILE_SIZE,
};
use std::path::Path;

fn found(size: u64) -> FileProbe {
    FileProbe { exists: true, is_file: true, size: Ok(size) }
}

fn file_error(result: Result<(), AppError>) -> String {
    match result {
        Err(AppError::File(text)) => text,
        other => panic!("expected a file error, got {:?}", other),
    }
}

#[test]
fn megabytes_are_written_with_two_decimals() {
    assert_eq!(format_megabytes(0), "0.00");
    assert_eq!(format_megabytes(1048576), "1.00");
    assert_eq!(format_megabytes(1572864), "1.50");
    assert_eq!(format_megabytes(2147483649), "2048.00");
    assert_eq!(format_megabytes(3221225472), "3072.00");
    assert_eq!(format_megabytes(10485), "0.01");
    assert_eq!(format_megabytes(5242), "0.00");
    assert_eq!(format_megabytes(5243), "0.01");
}

#[test]
fn megabytes_agree_with_floating_point_formatting() {
    let mut sizes: Vec<u64> = vec![0, 1, 131072, 393216, 655360, 917504, 1048575, 1048576];
    let mut size: u64 = 7;
    while size < (1u64 << 52) {
        sizes.push(size);
        sizes.push(size + 131072);
        size = size * 3 + 1;
    }
    let mut tie: u64 = 131072;
    while tie < (1u64 << 40) {
        sizes.push(tie);
        sizes.push(tie + 1);
        sizes.push(tie - 1);
        tie += 262144 * 1021;
    }
    for size in sizes {
        let expected = format!("{:.2}", size as f64 / (1024.0 * 1024.0));
        assert_eq!(format_megabytes(size), expected, "size {}", size);
    }
}

#[test]
fn a_missing_file_is_rejected_first() {
    let probe = FileProbe { exists: false, is_file: false, size: Ok(0) };
    let text = file_error(validate_video_file(Path::new("/media/talk.xyz"), probe));
    assert_eq!(text, "File does not exist: /media/talk.xyz");
}

#[test]
fn a_directory_is_rejected() {
    let probe = FileProbe { exists: true, is_file: false, size: Ok(10) };
    let text = file_error(validate_video_file(Path::new("/media/talks.mp4"), probe));
    assert_eq!(text, "Path is not a file: /media/talks.mp4");
}

#[test]
fn a_file_without_extension_is_rejected() {
    let text = file_error(validate_video_file(Path::new("/media/talk"), found(10)));
    assert_eq!(text, "File has no extension");
}

#[test]
fn an_unsupported_format_is_rejected_with_the_list() {
    let text = file_error(validate_video_file(Path::new("/media/talk.Txt"), found(10)));
    assert_eq!(
        text,
        "Unsupported file format: Txt. Supported formats: mp4, mov, avi, flv, mp3, wav, flac, m4a, webm, mkv"
    );
}

#[test]
fn an_unreadable_size_is_an_io_error() {
    let cause = std::io::Error::new(std::io::ErrorKind::PermissionDenied, "denied");
    let probe = FileProbe { exists: true, is_file: true, size: Err(cause) };
    match validate_video_file(Path::new("talk.mp4"), probe) {
        Err(AppError::Io(cause)) => assert_eq!(cause.kind(), std::io::ErrorKind::PermissionDenied),
        other => panic!("expected an I/O error, got {:?}", other),
    }
}

#[test]
fn a_file_above_the_limit_is_rejected() {
    let text = file_error(validate_video_file(Path::new("talk.mp4"), found(MAX_FILE_SIZE + 1)));
    assert_eq!(text, "File size (2048.00 MB) exceeds maximum limit of 2147483648 GB");
    let text = file_error(validate_video_file(Path::new("talk.mp4"), found(3 * 1024 * 1024 * 1024)));
    assert_eq!(text, "File size (3072.00 MB) exceeds maximum limit of 2147483648 GB");
}

#[test]
fn a_file_at_the_limit_is_accepted() {
    assert!(validate_video_file(Path::new("talk.mp4"), found(MAX_FILE_SIZE)).is_ok());
    assert_eq!(MAX_FILE_SIZE, 2 * 1024 * 1024 * 1024);
}

#[test]
fn an_empty_file_is_rejected() {
    let text = file_error(validate_video_file(Path::new("talk.mp4"), found(0)));
    assert_eq!(text, "File is empty");
}

#[test]
fn every_supported_format_is_accepted_in_any_case() {
    for extension in ["mp4", "mov", "avi", "flv", "mp3", "wav", "flac", "m4a", "webm", "mkv"] {
        let lower = format!("/media/talk.{}", extension);
        assert!(validate_video_file(Path::new(&lower), found(1)).is_ok(), "{}", lower);
        let upper = format!("/media/talk.{}", extension.to_uppercase());
        assert!(validate_video_file(Path::new(&upper), found(1)).is_ok(), "{}", upper);
    }
}

#[test]
fn the_format_is_checked_before_the_size() {
    let text = file_error(validate_video_file(Path::new("talk.doc"), found(0)));
    assert!(text.starts_with("Unsupported file format: doc."));
}

#[test]
fn supported_extensions_are_matched_exactly() {
    assert!(is_supported_extension("mp4"));
    assert!(is_supported_extension("webm"));
    assert!(is_supported_extension("flac"));
    assert!(!is_supported_extension("MP4"));
    assert!(!is_supported_extension("mp"));
    assert!(!is_supported_extension("mp44"));
    assert!(!is_supported_extension(""));
    assert!(!is_supported_extension("ogg"));
}

#[test]
fn the_extension_is_what_follows_the_last_dot() {
    assert_eq!(get_file_extension(Path::new("/a/b/talk.final.MP4")), Some("MP4".to_string()));
    assert_eq!(get_file_extension(Path::new("talk.mp4")), Some("mp4".to_string()));
    assert_eq!(get_file_extension(Path::new("/a/b/talk")), None);
    assert_eq!(get_file_extension(Path::new("/a/b/.hidden")), None);
    assert_eq!(get_file_extension(Path::new("")), None);
}
