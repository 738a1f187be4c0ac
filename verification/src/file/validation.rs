//! Checks on the input file: that it is there, of a supported format, and
//! of a size that the transcription service takes.

use crate::error::{outcome_view, AppError, ErrorView};
use crate::text::{
    decimal, decimal_string, join2, same_text, text_view, two_digit_string, two_digits,
};
use crate::utils::{display_of, extension_of, path_display, path_extension};
use std::path::Path;
use vstd::prelude::*;
use vstd::string::*;

verus! {

/// Largest file that the transcription service takes: 2 GiB, in bytes.
pub const MAX_FILE_SIZE: u64 = 2147483648;

/// Bytes in one mebibyte.
pub const BYTES_PER_MB: u64 = 1048576;

/// The extensions of the formats that the service takes, in lower case.
pub open spec fn supported_extensions() -> Seq<Seq<char>> {
    seq![
        "mp4"@,
        "mov"@,
        "avi"@,
        "flv"@,
        "mp3"@,
        "wav"@,
        "flac"@,
        "m4a"@,
        "webm"@,
        "mkv"@,
    ]
}

/// The supported extensions as shown to the user.
pub open spec fn supported_list() -> Seq<char> {
    "mp4, mov, avi, flv, mp3, wav, flac, m4a, webm, mkv"@
}

/// What `str::to_lowercase` makes of a text.
pub uninterp spec fn lowercase_of(text: Seq<char>) -> Seq<char>;

/// Calls `str::to_lowercase`, which maps every character of the text to
/// its Unicode lower case.
#[verifier::external_body]
fn to_lowercase(text: &str) -> (lowered: String)
    ensures
        lowered@ == lowercase_of(text@),
{
    text.to_lowercase()
}

/// What was found on disk at a path.
#[derive(Debug)]
pub struct FileProbe {
    /// Whether anything is there.
    pub exists: bool,
    /// Whether it is a regular file.
    pub is_file: bool,
    /// Its size in bytes, or why the size could not be read.
    pub size: Result<u64, std::io::Error>,
}

/// A size in hundredths of a mebibyte, rounded to the nearest hundredth;
/// a size halfway between two goes to the even one.
pub open spec fn hundredths_of_mb(size: u64) -> nat {
    let scaled = size * 100;
    let whole = scaled / (BYTES_PER_MB as int);
    let rest = scaled % (BYTES_PER_MB as int);
    if rest * 2 > BYTES_PER_MB || (rest * 2 == BYTES_PER_MB && whole % 2 == 1) {
        (whole + 1) as nat
    } else {
        whole as nat
    }
}

/// A size in mebibytes with two decimals, such as `12.50`.
pub open spec fn megabytes_text(size: u64) -> Seq<char> {
    decimal(hundredths_of_mb(size) / 100) + "."@ + two_digits(hundredths_of_mb(size) % 100)
}

/// The complaint about a file of `size` bytes that is too large.
pub open spec fn too_large_text(size: u64) -> Seq<char> {
    "File size ("@ + megabytes_text(size) + " MB) exceeds maximum limit of "@ + decimal(
        MAX_FILE_SIZE as nat,
    ) + " GB"@
}

/// The complaint about a file with the unsupported extension `extension`.
pub open spec fn unsupported_text(extension: Seq<char>) -> Seq<char> {
    "Unsupported file format: "@ + extension + ". Supported formats: "@ + supported_list()
}

/// The verdict on a file, given what its path shows (`shown`), its
/// extension, and what was found on disk. The checks run in this order:
/// the file exists; it is a regular file; it has an extension; the
/// extension, in lower case, is supported; its size can be read; it is not
/// above the limit; it is not empty.
pub open spec fn verdict(
    shown: Seq<char>,
    extension: Option<Seq<char>>,
    probe: FileProbe,
) -> Result<(), ErrorView> {
    if !probe.exists {
        Err(ErrorView::File("File does not exist: "@ + shown))
    } else if !probe.is_file {
        Err(ErrorView::File("Path is not a file: "@ + shown))
    } else if extension is None {
        Err(ErrorView::File("File has no extension"@))
    } else if !supported_extensions().contains(lowercase_of(extension->0)) {
        Err(ErrorView::File(unsupported_text(extension->0)))
    } else {
        match probe.size {
            Err(cause) => Err(ErrorView::Io(cause)),
            Ok(size) => if size > MAX_FILE_SIZE {
                Err(ErrorView::File(too_large_text(size)))
            } else if size == 0 {
                Err(ErrorView::File("File is empty"@))
            } else {
                Ok(())
            },
        }
    }
}

/// Decides whether `lowered`, an extension in lower case, is one of the
/// supported ones.
pub fn is_supported_extension(lowered: &str) -> (supported: bool)
    ensures
        supported == supported_extensions().contains(lowered@),
{
    let found = same_text(lowered, "mp4") || same_text(lowered, "mov") || same_text(lowered, "avi")
        || same_text(lowered, "flv") || same_text(lowered, "mp3") || same_text(lowered, "wav")
        || same_text(lowered, "flac") || same_text(lowered, "m4a") || same_text(lowered, "webm")
        || same_text(lowered, "mkv");
    proof {
        let list = supported_extensions();
        if found {
            let i = choose|i: int| 0 <= i < 10 && list[i] == lowered@;
            assert(list[i] == lowered@);
        } else {
            assert forall|i: int| 0 <= i < list.len() implies list[i] != lowered@ by {}
        }
    }
    found
}

/// Writes `size` in mebibytes with two decimals.
pub fn format_megabytes(size: u64) -> (text: String)
    ensures
        text@ == megabytes_text(size),
{
    let scaled: u128 = size as u128 * 100;
    let whole: u128 = scaled / (BYTES_PER_MB as u128);
    let rest: u128 = scaled % (BYTES_PER_MB as u128);
    let hundredths: u128 = if rest * 2 > BYTES_PER_MB as u128 || (rest * 2 == BYTES_PER_MB as u128
        && whole % 2 == 1) {
        whole + 1
    } else {
        whole
    };
    assert(hundredths == hundredths_of_mb(size));
    let mut text = decimal_string((hundredths / 100) as u64);
    text.append(".");
    text.append(two_digit_string((hundredths % 100) as u64).as_str());
    text
}

/// The extension of the file at `path`, if it has one that is valid
/// Unicode.
pub fn get_file_extension(path: &Path) -> (extension: Option<String>)
    ensures
        text_view(extension) == extension_of(path),
{
    match path_extension(path) {
        Some(extension) => Some(String::from_str(extension)),
        None => None,
    }
}

/// Judges the file at `path` by what `probe` found on disk there.
pub fn validate_video_file(path: &Path, probe: FileProbe) -> (result: Result<(), AppError>)
    ensures
        outcome_view(result) == verdict(display_of(path), extension_of(path), probe),
{
    if !probe.exists {
        return Err(AppError::File(join2("File does not exist: ", path_display(path).as_str())));
    }
    if !probe.is_file {
        return Err(AppError::File(join2("Path is not a file: ", path_display(path).as_str())));
    }
    let extension = match path_extension(path) {
        Some(extension) => extension,
        None => {
            return Err(AppError::File(String::from_str("File has no extension")));
        },
    };
    let lowered = to_lowercase(extension);
    if !is_supported_extension(lowered.as_str()) {
        let mut text = join2("Unsupported file format: ", extension);
        text.append(". Supported formats: ");
        text.append("mp4, mov, avi, flv, mp3, wav, flac, m4a, webm, mkv");
        return Err(AppError::File(text));
    }
    match probe.size {
        Err(cause) => Err(AppError::Io(cause)),
        Ok(size) => {
            if size > MAX_FILE_SIZE {
                let mut text = join2("File size (", format_megabytes(size).as_str());
                text.append(" MB) exceeds maximum limit of ");
                text.append(decimal_string(MAX_FILE_SIZE).as_str());
                text.append(" GB");
                Err(AppError::File(text))
            } else if size == 0 {
                Err(AppError::File(String::from_str("File is empty")))
            } else {
                Ok(())
            }
        },
    }
}

} // verus!
