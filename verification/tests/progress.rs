use prepis::progress::{BarStatus, ProgressTracker, UploadProgressBar};

#[test]
fn a_bar_starts_at_zero_with_its_total() {
    let bar = UploadProgressBar::new(500, "talk.mp4");
    assert_eq!(bar.length(), Some(500));
    assert_eq!(bar.position(), 0);
    assert_eq!(bar.file_name(), "talk.mp4");
    assert_eq!(bar.status(), BarStatus::Running);
    assert_eq!(bar.running_message(), "Uploading talk.mp4");
}

#[test]
fn a_spinner_has_no_total() {
    let bar = UploadProgressBar::new_indeterminate("talk.mp4");
    assert_eq!(bar.length(), None);
    assert_eq!(bar.position(), 0);
    assert_eq!(bar.status(), BarStatus::Running);
    assert_eq!(bar.running_message(), "talk.mp4");
}

#[test]
fn a_bar_is_set_and_incremented() {
    let mut bar = UploadProgressBar::new(500, "talk.mp4");
    bar.update(120);
    assert_eq!(bar.position(), 120);
    bar.increment(30);
    assert_eq!(bar.position(), 150);
    bar.update(10);
    assert_eq!(bar.position(), 10);
    assert_eq!(bar.length(), Some(500));
}

#[test]
fn a_bar_is_frozen_as_success_or_failure() {
    let mut bar = UploadProgressBar::new(500, "talk.mp4");
    bar.update(500);
    bar.finish();
    assert_eq!(bar.status(), BarStatus::Finished);
    assert_eq!(bar.position(), 500);
    let mut bar = UploadProgressBar::new_indeterminate("talk.mp4");
    bar.increment(7);
    bar.abandon();
    assert_eq!(bar.status(), BarStatus::Abandoned);
    assert_eq!(bar.position(), 7);
}

#[test]
fn the_closing_messages_name_the_file() {
    let bar = UploadProgressBar::new(500, "talk.mp4");
    assert_eq!(bar.finish_message(0), "✅ talk.mp4 uploaded successfully in 0.0s");
    assert_eq!(bar.finish_message(49), "✅ talk.mp4 uploaded successfully in 0.0s");
    assert_eq!(bar.finish_message(50), "✅ talk.mp4 uploaded successfully in 0.1s");
    assert_eq!(bar.finish_message(700), "✅ talk.mp4 uploaded successfully in 0.7s");
    assert_eq!(bar.finish_message(999), "✅ talk.mp4 uploaded successfully in 1.0s");
    assert_eq!(bar.finish_message(123449), "✅ talk.mp4 uploaded successfully in 123.4s");
    assert_eq!(bar.finish_message(123450), "✅ talk.mp4 uploaded successfully in 123.5s");
    assert_eq!(
        bar.finish_message(u64::MAX),
        "✅ talk.mp4 uploaded successfully in 18446744073709551.6s"
    );
    assert_eq!(bar.abandon_message(), "❌ Upload of talk.mp4 was interrupted");
}

#[test]
fn a_tracker_with_a_total_is_determinate() {
    let tracker = ProgressTracker::with_terminal(1000, "talk.mp4", true);
    assert_eq!(tracker.total_bytes(), 1000);
    assert_eq!(tracker.bytes_uploaded(), 0);
    assert_eq!(tracker.progress_bar().length(), Some(1000));
}

#[test]
fn a_tracker_without_a_terminal_draws_a_spinner() {
    let tracker = ProgressTracker::with_terminal(1000, "talk.mp4", false);
    assert_eq!(tracker.total_bytes(), 1000);
    assert_eq!(tracker.progress_bar().length(), None);
}

#[test]
fn a_tracker_of_unknown_size_has_total_zero() {
    let tracker = ProgressTracker::new_indeterminate("talk.mp4");
    assert_eq!(tracker.total_bytes(), 0);
    assert_eq!(tracker.bytes_uploaded(), 0);
    assert_eq!(tracker.progress_bar().length(), None);
}

#[test]
fn the_counter_adds_up_and_never_goes_back() {
    for terminal in [true, false] {
        let mut tracker = ProgressTracker::with_terminal(1000, "talk.mp4", terminal);
        let mut expected = 0;
        for step in [0u64, 1, 99, 400, 0, 500] {
            let before = tracker.bytes_uploaded();
            tracker.update_progress(step);
            expected += step;
            assert!(tracker.bytes_uploaded() >= before);
            assert_eq!(tracker.bytes_uploaded(), expected);
            assert_eq!(tracker.progress_bar().position(), expected);
        }
        assert_eq!(tracker.bytes_uploaded(), 1000);
    }
}

#[test]
fn the_counter_of_an_indeterminate_tracker_adds_up_too() {
    let mut tracker = ProgressTracker::new_indeterminate("talk.mp4");
    tracker.update_progress(64);
    tracker.update_progress(36);
    assert_eq!(tracker.bytes_uploaded(), 100);
    assert_eq!(tracker.progress_bar().position(), 100);
}

#[test]
fn finishing_and_abandoning_keep_the_count() {
    let mut tracker = ProgressTracker::with_terminal(10, "talk.mp4", true);
    tracker.update_progress(10);
    tracker.finish();
    assert_eq!(tracker.bytes_uploaded(), 10);
    assert_eq!(tracker.progress_bar().status(), BarStatus::Finished);
    let mut tracker = ProgressTracker::with_terminal(10, "talk.mp4", true);
    tracker.update_progress(4);
    tracker.abandon();
    assert_eq!(tracker.bytes_uploaded(), 4);
    assert_eq!(tracker.progress_bar().status(), BarStatus::Abandoned);
}

#[test]
fn a_tracker_draws_a_bar_where_the_terminal_can_show_one() {
    let supported = UploadProgressBar::is_terminal_supported();
    assert_eq!(supported, atty::is(atty::Stream::Stderr) || atty::is(atty::Stream::Stdout));
    let tracker = ProgressTracker::new(1000, "talk.mp4");
    assert_eq!(tracker.total_bytes(), 1000);
    assert_eq!(tracker.bytes_uploaded(), 0);
    assert_eq!(tracker.progress_bar().length(), if supported { Some(1000) } else { None });
    assert_eq!(tracker.progress_bar().file_name(), "talk.mp4");
}

#[test]
fn one_attached_stream_is_enough_for_a_bar() {
    assert!(UploadProgressBar::can_show_bar(true, true));
    assert!(UploadProgressBar::can_show_bar(true, false));
    assert!(UploadProgressBar::can_show_bar(false, true));
    assert!(!UploadProgressBar::can_show_bar(false, false));
    assert_eq!(
        UploadProgressBar::is_terminal_supported(),
        UploadProgressBar::can_show_bar(atty::is(atty::Stream::Stderr), atty::is(atty::Stream::Stdout))
    );
}
