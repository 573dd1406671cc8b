//! Which container a recording is written in.
//!
//! `--record-format` wins; otherwise the container is inferred from the file
//! name's extension, and with neither it is an mp4.

use vstd::prelude::*;
use crate::text::{append, chars_of, owned, text_eq};
use crate::paths::{extension_of, path_extension};

verus! {

/// The word that chose the container: the flag if it said anything other
/// than `auto`, else the extension, else `mp4`.
pub open spec fn selector_spec(extension: Option<Seq<char>>, format: Option<Seq<char>>) -> Seq<char> {
    match format {
        Some(f) if f.len() > 0 && f != "auto"@ => f,
        _ => match extension {
            Some(e) => e,
            None => "mp4"@,
        },
    }
}

/// The muxer a selector names.
pub open spec fn muxer_for_selector(selector: Seq<char>) -> Seq<char> {
    if selector == "mkv"@ || selector == "mka"@ {
        "matroska"@
    } else if selector == "m4a"@ {
        "mp4"@
    } else if selector == "opus"@ {
        "opus"@
    } else if selector == "aac"@ {
        "adts"@
    } else if selector == "flac"@ {
        "flac"@
    } else if selector == "wav"@ {
        "wav"@
    } else {
        "mp4"@
    }
}

/// Whether a selector names a container that holds no picture, `None` for
/// one that is not a container at all.
pub open spec fn audio_only_spec(selector: Seq<char>) -> Option<bool> {
    if selector == "mp4"@ || selector == "mkv"@ {
        Some(false)
    } else if selector == "m4a"@ || selector == "mka"@ || selector == "opus"@ || selector == "aac"@
        || selector == "flac"@ || selector == "wav"@ {
        Some(true)
    } else {
        None
    }
}

/// Why a recording was refused before its file was made.
#[derive(Debug, Clone)]
pub enum FormatError {
    /// A selector that names none of the eight containers.
    Unsupported(String),
    /// A container that holds no picture, asked to hold one.
    AudioOnly,
}

impl FormatError {
    /// The refusal, as scrcpy words it.
    pub open spec fn message_spec(self) -> Seq<char> {
        match self {
            FormatError::Unsupported(selector) =>
                "Unsupported record format: "@ + selector@ + " (expected mp4, mkv, m4a, mka, opus, aac, flac or wav)"@,
            FormatError::AudioOnly => "Audio container does not support video stream"@,
        }
    }

    /// See `message_spec`.
    pub fn message(&self) -> (m: String)
        ensures
            m@ == self.message_spec(),
    {
        match self {
            FormatError::Unsupported(selector) => {
                let mut s = owned("Unsupported record format: ");
                append(&mut s, selector.as_str());
                append(&mut s, " (expected mp4, mkv, m4a, mka, opus, aac, flac or wav)");
                s
            },
            FormatError::AudioOnly => owned("Audio container does not support video stream"),
        }
    }
}

/// The selector, given the file name's extension.
pub fn selector_from(extension: Option<&str>, format: Option<&str>) -> (s: String)
    ensures
        s@ == selector_spec(
            match extension { Some(e) => Some(e@), None => None },
            match format { Some(f) => Some(f@), None => None },
        ),
{
    match format {
        Some(f) => {
            let chars = chars_of(f);
            if chars.len() > 0 && !text_eq(f, "auto") {
                return owned(f);
            }
        },
        None => {},
    }
    match extension {
        Some(e) => owned(e),
        None => owned("mp4"),
    }
}

/// The selector for a file name and a `--record-format`.
pub fn selector_for(filename: &str, format: Option<&str>) -> (s: String)
    ensures
        s@ == selector_spec(path_extension(filename@), match format { Some(f) => Some(f@), None => None }),
{
    let extension = extension_of(filename);
    match extension {
        Some(e) => selector_from(Some(e.as_str()), format),
        None => selector_from(None, format),
    }
}

/// The muxer a selector names.
pub fn muxer_for(selector: &str) -> (m: &'static str)
    ensures
        m@ == muxer_for_selector(selector@),
{
    if text_eq(selector, "mkv") || text_eq(selector, "mka") {
        "matroska"
    } else if text_eq(selector, "m4a") {
        "mp4"
    } else if text_eq(selector, "opus") {
        "opus"
    } else if text_eq(selector, "aac") {
        "adts"
    } else if text_eq(selector, "flac") {
        "flac"
    } else if text_eq(selector, "wav") {
        "wav"
    } else {
        "mp4"
    }
}

/// Which muxer the file wants.
pub fn muxer_format_for(filename: &str, format: Option<&str>) -> (m: &'static str)
    ensures
        m@ == muxer_for_selector(selector_spec(path_extension(filename@), match format {
            Some(f) => Some(f@),
            None => None,
        })),
{
    let selector = selector_for(filename, format);
    muxer_for(selector.as_str())
}

/// Whether a selector names a container, and whether it holds no picture.
pub fn audio_only(selector: &str) -> (r: Option<bool>)
    ensures
        r == audio_only_spec(selector@),
{
    if text_eq(selector, "mp4") || text_eq(selector, "mkv") {
        Some(false)
    } else if text_eq(selector, "m4a") || text_eq(selector, "mka") || text_eq(selector, "opus")
        || text_eq(selector, "aac") || text_eq(selector, "flac") || text_eq(selector, "wav") {
        Some(true)
    } else {
        None
    }
}

/// Refuse a recording the container cannot hold, before the file is made.
pub fn check_the_format(filename: &str, format: Option<&str>, has_video: bool) -> (r: Result<(), FormatError>)
    ensures
        ({
            let selector = selector_spec(path_extension(filename@), match format {
                Some(f) => Some(f@),
                None => None,
            });
            match audio_only_spec(selector) {
                None => r matches Err(FormatError::Unsupported(s)) && s@ == selector,
                Some(true) => if has_video { r matches Err(FormatError::AudioOnly) } else { r is Ok },
                Some(false) => r is Ok,
            }
        }),
{
    let selector = selector_for(filename, format);
    match audio_only(selector.as_str()) {
        None => Err(FormatError::Unsupported(selector)),
        Some(true) => if has_video { Err(FormatError::AudioOnly) } else { Ok(()) },
        Some(false) => Ok(()),
    }
}

/// Whether a recording carries a display matrix: only for a turn that is
/// not a whole number of turns.
pub fn writes_rotation(degrees: u16) -> (b: bool)
    ensures
        b == (degrees % 360 != 0),
{
    degrees % 360 != 0
}

} // verus!
