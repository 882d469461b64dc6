//! The container formats that the library tells apart, by file extension.
use vstd::prelude::*;
use crate::error::{Error, Unknown};
use crate::text::{ascii_folded, eq_ignoring_ascii_case};
use crate::utils::{extension, extension_of, file_name, file_name_of};

verus! {

/// The container format of an audio file.
///
/// `WAV`, `OGG` and `Unsupported` are containers whose tags are not read:
/// their tracks carry empty metadata.
#[derive(Debug, Clone, Copy, PartialEq, Eq, Structural)]
#[allow(non_camel_case_types)]
pub enum Format {
    FLAC,
    MP3,
    WAV,
    OGG,
    Unsupported,
}

/// Whether `a` and `b` differ at most in the case of ASCII letters.
pub open spec fn same_ignoring_case(a: Seq<char>, b: Seq<char>) -> bool {
    ascii_folded(a) == ascii_folded(b)
}

impl Format {
    /// The format that a file extension stands for, without regard to
    /// case; none for a missing extension and for any other extension.
    pub open spec fn of_extension(extension: Option<Seq<char>>) -> Option<Format> {
        match extension {
            None => None,
            Some(e) => if same_ignoring_case(e, "flac"@) {
                Some(Format::FLAC)
            } else if same_ignoring_case(e, "mp3"@) {
                Some(Format::MP3)
            } else if same_ignoring_case(e, "wav"@) {
                Some(Format::WAV)
            } else if same_ignoring_case(e, "ogg"@) {
                Some(Format::OGG)
            } else {
                None
            },
        }
    }

    /// The format that the path of a file stands for: that of the
    /// extension of its last component.
    pub open spec fn of_path(path: Seq<char>) -> Option<Format> {
        Format::of_extension(extension_of(file_name_of(path)))
    }

    /// Classifies a file extension.
    pub fn from_extension(extension: Option<&str>) -> (format: Result<Format, Error>)
        ensures
            match (Format::of_extension(
                match extension {
                    Some(e) => Some(e@),
                    None => None,
                },
            )) {
                Some(f) => format == Ok::<Format, Error>(f),
                None => format == Err::<Format, Error>(Error::Unknown(Unknown)),
            },
    {
        match extension {
            None => Err(Error::Unknown(Unknown)),
            Some(e) => {
                if eq_ignoring_ascii_case(e, "flac") {
                    Ok(Format::FLAC)
                } else if eq_ignoring_ascii_case(e, "mp3") {
                    Ok(Format::MP3)
                } else if eq_ignoring_ascii_case(e, "wav") {
                    Ok(Format::WAV)
                } else if eq_ignoring_ascii_case(e, "ogg") {
                    Ok(Format::OGG)
                } else {
                    Err(Error::Unknown(Unknown))
                }
            },
        }
    }

    /// Classifies the file at `path` by its extension alone. Fails with
    /// [`Unknown`] where the path has no extension or one that is not of a
    /// known container.
    pub fn new(path: &str) -> (format: Result<Format, Error>)
        ensures
            match Format::of_path(path@) {
                Some(f) => format == Ok::<Format, Error>(f),
                None => format == Err::<Format, Error>(Error::Unknown(Unknown)),
            },
    {
        let name = file_name(path);
        match extension(name.as_str()) {
            Some(e) => Format::from_extension(Some(e.as_str())),
            None => Format::from_extension(None),
        }
    }
}

} // verus!
