//! Names that are unique to a run, and what a path says of its file.

use crate::text::{decimal, decimal_string, join2, str_view};
use core::time::Duration;
use std::path::Path;
use std::time::{SystemTime, SystemTimeError};
use vstd::prelude::*;
use vstd::string::*;

verus! {

/// `std::path::Path`, known to the verifier as a value of which only the
/// functions below speak.
#[verifier::external_type_specification]
#[verifier::external_body]
pub struct ExPath(Path);

/// `std::time::SystemTime`, known to the verifier as a value that is only
/// carried through.
#[verifier::external_type_specification]
#[verifier::external_body]
pub struct ExSystemTime(SystemTime);

/// `std::time::SystemTimeError`, known to the verifier as a value that is
/// only carried through.
#[verifier::external_type_specification]
#[verifier::external_body]
pub struct ExSystemTimeError(SystemTimeError);

/// The final component of a path, as `Path::file_name` gives it, where that
/// component is valid Unicode.
pub uninterp spec fn file_name_of(path: &Path) -> Option<Seq<char>>;

/// The final component of a path without its extension, as
/// `Path::file_stem` gives it, where that is valid Unicode.
pub uninterp spec fn file_stem_of(path: &Path) -> Option<Seq<char>>;

/// The extension of a path's final component, as `Path::extension` gives
/// it, where that is valid Unicode.
pub uninterp spec fn extension_of(path: &Path) -> Option<Seq<char>>;

/// What `Path::display` shows of a path.
pub uninterp spec fn display_of(path: &Path) -> Seq<char>;

/// Calls `Path::file_name` and hands the name on as text; a name that is
/// not valid Unicode counts as absent.
#[verifier::external_body]
pub(crate) fn path_file_name(path: &Path) -> (name: Option<&str>)
    ensures
        str_view(name) == file_name_of(path),
{
    match path.file_name() {
        Some(name) => name.to_str(),
        None => None,
    }
}

/// Calls `Path::file_stem` and hands the stem on as text; a stem that is
/// not valid Unicode counts as absent.
#[verifier::external_body]
pub(crate) fn path_file_stem(path: &Path) -> (stem: Option<&str>)
    ensures
        str_view(stem) == file_stem_of(path),
{
    match path.file_stem() {
        Some(stem) => stem.to_str(),
        None => None,
    }
}

/// Calls `Path::extension` and hands the extension on as text; an extension
/// that is not valid Unicode counts as absent.
#[verifier::external_body]
pub(crate) fn path_extension(path: &Path) -> (extension: Option<&str>)
    ensures
        str_view(extension) == extension_of(path),
{
    match path.extension() {
        Some(extension) => extension.to_str(),
        None => None,
    }
}

/// Calls `Path::display` and collects what it shows.
#[verifier::external_body]
pub(crate) fn path_display(path: &Path) -> (text: String)
    ensures
        text@ == display_of(path),
{
    path.display().to_string()
}

/// Calls `SystemTime::now`. Nothing is claimed of the time it reads.
#[verifier::external_body]
fn system_time_now() -> (now: SystemTime) {
    SystemTime::now()
}

/// Calls `SystemTime::duration_since` with `UNIX_EPOCH`. It fails for a time
/// before the epoch; nothing more is claimed.
#[verifier::external_body]
fn since_unix_epoch(time: &SystemTime) -> (elapsed: Result<Duration, SystemTimeError>) {
    time.duration_since(std::time::UNIX_EPOCH)
}

/// Seconds since the start of 1970 on this machine's clock, or zero where
/// the clock stands before that.
///
/// The clock is read once and the reading is handed to [`timestamp_of`],
/// which says what is returned for each reading. Of the reading itself
/// nothing can be said: it differs from call to call.
pub fn unix_timestamp() -> (seconds: u64) {
    let now = system_time_now();
    let reading = since_unix_epoch(&now);
    timestamp_of(reading)
}

/// The whole seconds that a `Duration` holds, which is what
/// `Duration::as_secs` returns.
pub uninterp spec fn duration_seconds(d: Duration) -> nat;

/// `Duration::as_secs` gives the whole seconds of a duration.
pub assume_specification[ Duration::as_secs ](d: &Duration) -> (seconds: u64)
    ensures
        seconds == duration_seconds(*d),
;

/// The timestamp that a reading of the clock against the start of 1970
/// stands for: the whole seconds that have passed since then, or zero for
/// a clock that stands before it.
pub open spec fn epoch_seconds(reading: Result<Duration, SystemTimeError>) -> nat {
    match reading {
        Ok(elapsed) => duration_seconds(elapsed),
        Err(_) => 0,
    }
}

/// Makes a timestamp of a reading of the clock against the start of 1970.
pub fn timestamp_of(reading: Result<Duration, SystemTimeError>) -> (seconds: u64)
    ensures
        seconds == epoch_seconds(reading),
{
    match reading {
        Ok(elapsed) => elapsed.as_secs(),
        Err(_) => 0,
    }
}

/// The name used for a file whose path gives none.
pub open spec fn name_or_unknown(name: Option<Seq<char>>) -> Seq<char> {
    match name {
        Some(n) => n,
        None => "unknown"@,
    }
}

/// The object key for the file named `file_name`, made at `timestamp`.
pub open spec fn s3_key_text(timestamp: u64, file_name: Seq<char>) -> Seq<char> {
    "transcribe-temp/"@ + decimal(timestamp as nat) + "-"@ + file_name
}

/// The job name for the file with stem `file_stem`, made at `timestamp`.
pub open spec fn job_name_text(timestamp: u64, file_stem: Seq<char>) -> Seq<char> {
    "transcribe-job-"@ + decimal(timestamp as nat) + "-"@ + file_stem
}

/// The name of the file at `path`, or "unknown" where the path gives none.
pub fn file_name_or_unknown(path: &Path) -> (name: &str)
    ensures
        name@ == name_or_unknown(file_name_of(path)),
{
    match path_file_name(path) {
        Some(name) => name,
        None => "unknown",
    }
}

/// The stem of the file at `path`, or "unknown" where the path gives none.
pub fn file_stem_or_unknown(path: &Path) -> (stem: &str)
    ensures
        stem@ == name_or_unknown(file_stem_of(path)),
{
    match path_file_stem(path) {
        Some(stem) => stem,
        None => "unknown",
    }
}

/// Writes the object key for the file named `file_name`, made at
/// `timestamp`: the prefix `transcribe-temp/`, the timestamp, a hyphen, the
/// name.
pub fn s3_key_at(timestamp: u64, file_name: &str) -> (key: String)
    ensures
        key@ == s3_key_text(timestamp, file_name@),
{
    let mut key = join2("transcribe-temp/", decimal_string(timestamp).as_str());
    key.append("-");
    key.append(file_name);
    key
}

/// Writes the job name for the file with stem `file_stem`, made at
/// `timestamp`: the prefix `transcribe-job-`, the timestamp, a hyphen, the
/// stem.
pub fn job_name_at(timestamp: u64, file_stem: &str) -> (name: String)
    ensures
        name@ == job_name_text(timestamp, file_stem@),
{
    let mut name = join2("transcribe-job-", decimal_string(timestamp).as_str());
    name.append("-");
    name.append(file_stem);
    name
}

/// Makes the object key for the file at `file_path`, stamped with the
/// current time in seconds.
pub fn generate_s3_key(file_path: &Path) -> (key: String)
    ensures
        exists|timestamp: u64| #[trigger]
            s3_key_text(timestamp, name_or_unknown(file_name_of(file_path))) == key@,
{
    let timestamp = unix_timestamp();
    s3_key_at(timestamp, file_name_or_unknown(file_path))
}

/// Makes the job name for the file at `file_path`, stamped with the current
/// time in seconds.
pub fn generate_job_name(file_path: &Path) -> (name: String)
    ensures
        exists|timestamp: u64| #[trigger]
            job_name_text(timestamp, name_or_unknown(file_stem_of(file_path))) == name@,
{
    let timestamp = unix_timestamp();
    job_name_at(timestamp, file_stem_or_unknown(file_path))
}

} // verus!
