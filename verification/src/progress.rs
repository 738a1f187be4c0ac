//! Upload strategy selection and progress accounting.
//!
//! The types here hold what a progress display shows; drawing it on a
//! terminal is left to the caller, who reads the state after each change.

use crate::text::{decimal, decimal_string, join2};
use core::time::Duration;
use vstd::prelude::*;
use vstd::string::*;

verus! {

/// File size, in bytes, from which an upload is split into parts.
pub const MULTIPART_THRESHOLD: u64 = 52428800;

/// Size of one part of a chunked upload, in bytes.
pub const PART_SIZE: usize = 8388608;

/// Milliseconds between two redraws of a running display.
pub const STEADY_TICK_MILLIS: u64 = 100;

/// Layout of a bar: spinner, elapsed time, forty cells, byte counts, rate
/// and remaining time.
pub const BAR_TEMPLATE: &'static str =
    "{spinner:.green} [{elapsed_precise}] [{bar:40.cyan/blue}] {bytes}/{total_bytes} ({bytes_per_sec}, {eta})";

/// The characters that fill the cells of a bar, from full to empty.
pub const BAR_CHARS: &'static str = "█▉▊▋▌▍▎▏  ";

/// Layout of a spinner: spinner, elapsed time, and what is uploaded.
pub const SPINNER_TEMPLATE: &'static str = "{spinner:.green} [{elapsed_precise}] Uploading {msg}";

/// The whole milliseconds that a `Duration` holds, which is what
/// `Duration::as_millis` returns.
pub uninterp spec fn duration_millis(d: Duration) -> nat;

/// `Duration::from_millis` makes the duration of that many milliseconds.
pub assume_specification[ Duration::from_millis ](millis: u64) -> (d: Duration)
    ensures
        duration_millis(d) == millis,
;

/// Appearance and pace of the progress display.
pub struct ProgressConfig {
    pub template: &'static str,
    pub progress_chars: &'static str,
    pub steady_tick: Duration,
}

impl Default for ProgressConfig {
    /// The layout of a bar, redrawn ten times a second.
    fn default() -> (config: Self)
        ensures
            config.template@ == BAR_TEMPLATE@,
            config.progress_chars@ == BAR_CHARS@,
            duration_millis(config.steady_tick) == STEADY_TICK_MILLIS,
    {
        ProgressConfig {
            template: BAR_TEMPLATE,
            progress_chars: BAR_CHARS,
            steady_tick: Duration::from_millis(STEADY_TICK_MILLIS),
        }
    }
}

/// How a file is sent to the object store.
#[derive(Debug, Clone, Copy, PartialEq, Eq, Structural)]
pub enum UploadStrategy {
    /// The whole file in one request.
    Simple,
    /// Parts of `part_size` bytes, the last one possibly shorter.
    Multipart { part_size: usize },
}

impl UploadStrategy {
    /// The strategy for a file of `file_size` bytes, as a mathematical function.
    pub open spec fn for_size(file_size: u64) -> UploadStrategy {
        if file_size >= MULTIPART_THRESHOLD {
            UploadStrategy::Multipart { part_size: PART_SIZE }
        } else {
            UploadStrategy::Simple
        }
    }

    /// A strategy is valid when its parts are not empty.
    pub open spec fn valid(self) -> bool {
        self matches UploadStrategy::Multipart { part_size } ==> part_size > 0
    }

    /// Chooses the strategy for a file of `file_size` bytes: files of at least
    /// 50 MiB go in parts of 8 MiB, smaller ones in a single request.
    pub fn determine(file_size: u64) -> (strategy: UploadStrategy)
        ensures
            strategy == Self::for_size(file_size),
            strategy.valid(),
            strategy is Simple <==> file_size < 50 * 1024 * 1024,
            strategy is Multipart ==> strategy->part_size == 8 * 1024 * 1024,
    {
        if file_size >= MULTIPART_THRESHOLD {
            UploadStrategy::Multipart { part_size: PART_SIZE }
        } else {
            UploadStrategy::Simple
        }
    }
}

/// The streams on which a display can be drawn.
#[derive(Debug, Clone, Copy, PartialEq, Eq, Structural)]
pub enum TerminalStream {
    Stdout,
    Stderr,
}

/// Calls `atty::is`, which asks the system whether the stream is attached
/// to a terminal. The answer depends on how the program was started, so
/// nothing is claimed of it.
#[verifier::external_body]
fn stream_is_terminal(stream: TerminalStream) -> (attached: bool) {
    match stream {
        TerminalStream::Stdout => atty::is(atty::Stream::Stdout),
        TerminalStream::Stderr => atty::is(atty::Stream::Stderr),
    }
}

/// Whether a display still moves, or how it was frozen.
#[derive(Debug, Clone, Copy, PartialEq, Eq, Structural)]
pub enum BarStatus {
    Running,
    Finished,
    Abandoned,
}

/// What the progress display of one upload shows.
#[derive(Debug)]
pub struct UploadProgressBar {
    length: Option<u64>,
    position: u64,
    file_name: String,
    status: BarStatus,
}

/// The mathematical value of an [`UploadProgressBar`].
pub struct BarView {
    /// The total that the bar is drawn against; `None` for a spinner.
    pub length: Option<u64>,
    /// Bytes shown as transferred.
    pub position: u64,
    /// Name of the file, as shown beside the display.
    pub file_name: Seq<char>,
    pub status: BarStatus,
}

impl View for UploadProgressBar {
    type V = BarView;

    closed spec fn view(&self) -> BarView {
        BarView {
            length: self.length,
            position: self.position,
            file_name: self.file_name@,
            status: self.status,
        }
    }
}

/// The text beside a running bar.
pub open spec fn uploading_text(file_name: Seq<char>) -> Seq<char> {
    "Uploading "@ + file_name
}

/// A time span of `millis` milliseconds in tenths of a second, rounded to
/// the nearest tenth, half a tenth upwards.
pub open spec fn tenths_of_second(millis: u64) -> nat {
    if millis % 100 >= 50 {
        (millis / 100 + 1) as nat
    } else {
        (millis / 100) as nat
    }
}

/// The text that replaces the display of an upload that succeeded after
/// `millis` milliseconds: it gives the time in seconds with one decimal.
pub open spec fn finished_text(file_name: Seq<char>, millis: u64) -> Seq<char> {
    "✅ "@ + file_name + " uploaded successfully in "@ + decimal(tenths_of_second(millis) / 10)
        + "."@ + decimal(tenths_of_second(millis) % 10) + "s"@
}

/// The text that replaces the display of an upload that failed.
pub open spec fn abandoned_text(file_name: Seq<char>) -> Seq<char> {
    "❌ Upload of "@ + file_name + " was interrupted"@
}

impl UploadProgressBar {
    /// A bar for a file of `file_size` bytes, at zero.
    pub fn new(file_size: u64, file_name: &str) -> (bar: Self)
        ensures
            bar@ == (BarView {
                length: Some(file_size),
                position: 0,
                file_name: file_name@,
                status: BarStatus::Running,
            }),
    {
        UploadProgressBar {
            length: Some(file_size),
            position: 0,
            file_name: String::from_str(file_name),
            status: BarStatus::Running,
        }
    }

    /// A spinner, for a file whose size is not known or not shown.
    pub fn new_indeterminate(file_name: &str) -> (bar: Self)
        ensures
            bar@ == (BarView {
                length: None,
                position: 0,
                file_name: file_name@,
                status: BarStatus::Running,
            }),
    {
        UploadProgressBar {
            length: None,
            position: 0,
            file_name: String::from_str(file_name),
            status: BarStatus::Running,
        }
    }

    /// Sets the number of bytes shown as transferred.
    pub fn update(&mut self, bytes_uploaded: u64)
        ensures
            final(self)@ == (BarView { position: bytes_uploaded, ..old(self)@ }),
    {
        self.position = bytes_uploaded;
    }

    /// Adds to the number of bytes shown as transferred.
    pub fn increment(&mut self, additional_bytes: u64)
        requires
            old(self)@.position + additional_bytes <= u64::MAX,
        ensures
            final(self)@ == (BarView {
                position: (old(self)@.position + additional_bytes) as u64,
                ..old(self)@
            }),
    {
        self.position = self.position + additional_bytes;
    }

    /// Whether a bar can be shown: whether the error stream or the output
    /// stream is attached to a terminal.
    pub fn is_terminal_supported() -> (supported: bool) {
        let stderr_attached = stream_is_terminal(TerminalStream::Stderr);
        let stdout_attached = stream_is_terminal(TerminalStream::Stdout);
        UploadProgressBar::can_show_bar(stderr_attached, stdout_attached)
    }

    /// Whether a bar can be shown, given which of the two streams are
    /// attached to a terminal: one of them is enough.
    pub fn can_show_bar(stderr_attached: bool, stdout_attached: bool) -> (supported: bool)
        ensures
            supported == (stderr_attached || stdout_attached),
    {
        stderr_attached || stdout_attached
    }

    /// Freezes the display as a success.
    pub fn finish(&mut self)
        ensures
            final(self)@ == (BarView { status: BarStatus::Finished, ..old(self)@ }),
    {
        self.status = BarStatus::Finished;
    }

    /// Freezes the display as a failure.
    pub fn abandon(&mut self)
        ensures
            final(self)@ == (BarView { status: BarStatus::Abandoned, ..old(self)@ }),
    {
        self.status = BarStatus::Abandoned;
    }

    /// The total that the bar is drawn against; `None` for a spinner.
    pub fn length(&self) -> (length: Option<u64>)
        ensures
            length == self@.length,
    {
        self.length
    }

    /// Bytes shown as transferred.
    pub fn position(&self) -> (position: u64)
        ensures
            position == self@.position,
    {
        self.position
    }

    /// Name of the file.
    pub fn file_name(&self) -> (name: &str)
        ensures
            name@ == self@.file_name,
    {
        self.file_name.as_str()
    }

    /// Whether the display still moves, or how it was frozen.
    pub fn status(&self) -> (status: BarStatus)
        ensures
            status == self@.status,
    {
        self.status
    }

    /// The text beside the display while it runs: for a bar the word
    /// "Uploading" and the file's name, for a spinner the name alone.
    pub fn running_message(&self) -> (text: String)
        ensures
            text@ == if self@.length is Some {
                uploading_text(self@.file_name)
            } else {
                self@.file_name
            },
    {
        if self.length.is_some() {
            join2("Uploading ", self.file_name.as_str())
        } else {
            self.file_name.clone()
        }
    }

    /// The text that replaces the display after a success that took
    /// `elapsed_millis` milliseconds.
    pub fn finish_message(&self, elapsed_millis: u64) -> (text: String)
        ensures
            text@ == finished_text(self@.file_name, elapsed_millis),
    {
        let tenths = if elapsed_millis % 100 >= 50 {
            elapsed_millis / 100 + 1
        } else {
            elapsed_millis / 100
        };
        let mut text = join2("✅ ", self.file_name.as_str());
        text.append(" uploaded successfully in ");
        text.append(decimal_string(tenths / 10).as_str());
        text.append(".");
        text.append(decimal_string(tenths % 10).as_str());
        text.append("s");
        text
    }

    /// The text that replaces the display after a failure.
    pub fn abandon_message(&self) -> (text: String)
        ensures
            text@ == abandoned_text(self@.file_name),
    {
        let mut text = join2("❌ Upload of ", self.file_name.as_str());
        text.append(" was interrupted");
        text
    }
}

/// Counts the bytes of one upload and keeps its display in step.
///
/// The counter is changed through an exclusive borrow only, so that no
/// reader ever sees it between two states.
#[derive(Debug)]
pub struct ProgressTracker {
    progress_bar: UploadProgressBar,
    bytes_uploaded: u64,
    total_bytes: u64,
}

/// The mathematical value of a [`ProgressTracker`].
pub struct TrackerView {
    pub bar: BarView,
    /// Bytes counted so far.
    pub bytes_uploaded: u64,
    /// Expected total; zero when it is not known.
    pub total_bytes: u64,
}

impl TrackerView {
    /// A tracker with a known total is determinate.
    pub open spec fn determinate(self) -> bool {
        self.total_bytes > 0
    }

    /// The display shows what was counted.
    pub open spec fn wf(self) -> bool {
        self.bar.position == self.bytes_uploaded
    }

    /// The tracker of a fresh upload.
    pub open spec fn start(file_size: u64, file_name: Seq<char>, terminal: bool) -> TrackerView {
        TrackerView {
            bar: BarView {
                length: if terminal {
                    Some(file_size)
                } else {
                    None
                },
                position: 0,
                file_name,
                status: BarStatus::Running,
            },
            bytes_uploaded: 0,
            total_bytes: file_size,
        }
    }

    /// The tracker after `additional_bytes` more were counted.
    pub open spec fn advance(self, additional_bytes: nat) -> TrackerView {
        TrackerView {
            bar: BarView {
                position: if self.determinate() {
                    (self.bytes_uploaded + additional_bytes) as u64
                } else {
                    (self.bar.position + additional_bytes) as u64
                },
                ..self.bar
            },
            bytes_uploaded: (self.bytes_uploaded + additional_bytes) as u64,
            ..self
        }
    }

    /// The tracker with its display frozen as `status`.
    pub open spec fn frozen(self, status: BarStatus) -> TrackerView {
        TrackerView { bar: BarView { status, ..self.bar }, ..self }
    }
}

impl View for ProgressTracker {
    type V = TrackerView;

    closed spec fn view(&self) -> TrackerView {
        TrackerView {
            bar: self.progress_bar@,
            bytes_uploaded: self.bytes_uploaded,
            total_bytes: self.total_bytes,
        }
    }
}

impl ProgressTracker {
    /// A tracker for a file of `file_size` bytes. It draws a bar if
    /// `terminal_supported` is set, and a spinner if not.
    pub fn with_terminal(file_size: u64, file_name: &str, terminal_supported: bool) -> (tracker:
        Self)
        ensures
            tracker@ == TrackerView::start(file_size, file_name@, terminal_supported),
            tracker@.wf(),
    {
        let progress_bar = if terminal_supported {
            UploadProgressBar::new(file_size, file_name)
        } else {
            UploadProgressBar::new_indeterminate(file_name)
        };
        ProgressTracker { progress_bar, bytes_uploaded: 0, total_bytes: file_size }
    }

    /// A tracker for a file of `file_size` bytes. It draws a bar where the
    /// terminal can show one, and a spinner elsewhere.
    pub fn new(file_size: u64, file_name: &str) -> (tracker: Self)
        ensures
            tracker@ == TrackerView::start(file_size, file_name@, true) || tracker@
                == TrackerView::start(file_size, file_name@, false),
            tracker@.wf(),
    {
        let terminal_supported = UploadProgressBar::is_terminal_supported();
        ProgressTracker::with_terminal(file_size, file_name, terminal_supported)
    }

    /// A tracker for a file of unknown size.
    pub fn new_indeterminate(file_name: &str) -> (tracker: Self)
        ensures
            tracker@ == TrackerView::start(0, file_name@, false),
            tracker@.wf(),
            !tracker@.determinate(),
    {
        let progress_bar = UploadProgressBar::new_indeterminate(file_name);
        ProgressTracker { progress_bar, bytes_uploaded: 0, total_bytes: 0 }
    }

    /// Counts `additional_bytes` more and moves the display.
    pub fn update_progress(&mut self, additional_bytes: u64)
        requires
            old(self)@.wf(),
            old(self)@.bytes_uploaded + additional_bytes <= u64::MAX,
        ensures
            final(self)@ == old(self)@.advance(additional_bytes as nat),
            final(self)@.wf(),
            final(self)@.bytes_uploaded == old(self)@.bytes_uploaded + additional_bytes,
            final(self)@.bytes_uploaded >= old(self)@.bytes_uploaded,
    {
        let new_total = self.bytes_uploaded + additional_bytes;
        self.bytes_uploaded = new_total;
        if self.total_bytes > 0 {
            self.progress_bar.update(new_total);
        } else {
            self.progress_bar.increment(additional_bytes);
        }
    }

    /// Marks the upload as done.
    pub fn finish(&mut self)
        ensures
            final(self)@ == old(self)@.frozen(BarStatus::Finished),
    {
        self.progress_bar.finish();
    }

    /// Marks the upload as failed.
    pub fn abandon(&mut self)
        ensures
            final(self)@ == old(self)@.frozen(BarStatus::Abandoned),
    {
        self.progress_bar.abandon();
    }

    /// Bytes counted so far.
    pub fn bytes_uploaded(&self) -> (bytes: u64)
        ensures
            bytes == self@.bytes_uploaded,
    {
        self.bytes_uploaded
    }

    /// Expected total; zero when it is not known.
    pub fn total_bytes(&self) -> (bytes: u64)
        ensures
            bytes == self@.total_bytes,
    {
        self.total_bytes
    }

    /// The display that this tracker drives.
    pub fn progress_bar(&self) -> (bar: &UploadProgressBar)
        ensures
            bar@ == self@.bar,
    {
        &self.progress_bar
    }
}

/// Success and failure are told apart at a glance: the two closing texts
/// of a display begin with different marks.
pub proof fn lemma_closing_texts_differ(file_name: Seq<char>, millis: u64)
    ensures
        finished_text(file_name, millis)[0] == '✅',
        abandoned_text(file_name)[0] == '❌',
        finished_text(file_name, millis) != abandoned_text(file_name),
{
    reveal_strlit("✅ ");
    reveal_strlit("❌ Upload of ");
    assert("✅ "@[0] == '✅');
    assert("❌ Upload of "@[0] == '❌');
}

} // verus!
