//! Decisions and commands for converting audio files.

use vstd::prelude::*;

use crate::compatibility::models::{AudioConverter, AudioType};
use crate::media_type::{is_audio_of, MediaType};
use crate::text::{push_str, str_eq, strings};

verus! {

/// The audio subtypes that attachments convert from: `CAF` in either case,
/// and Opus inside `CAF`.
pub open spec fn caf_subtypes() -> Seq<Seq<char>> {
    seq!["caf"@, "CAF"@, "x-caf; codecs=opus"@]
}

/// The format an audio attachment converts to, if any.
///
/// - Attachment `CAF` files convert to `MP4`
/// - Any other file keeps its original format
pub fn audio_output_type(mime_type: &MediaType) -> (res: Option<AudioType>)
    ensures
        is_audio_of(*mime_type, caf_subtypes()) ==> res == Some(AudioType::Mp4),
        !is_audio_of(*mime_type, caf_subtypes()) ==> res is None,
{
    match mime_type {
        MediaType::Audio(s) => {
            let caf = str_eq(s, "caf") || str_eq(s, "CAF") || str_eq(s, "x-caf; codecs=opus");
            proof {
                assert(caf_subtypes()[0] == "caf"@);
                assert(caf_subtypes()[1] == "CAF"@);
                assert(caf_subtypes()[2] == "x-caf; codecs=opus"@);
                if caf_subtypes().contains(s@) {
                    let i = choose|i: int| 0 <= i < 3 && caf_subtypes()[i] == s@;
                    assert(i == 0 || i == 1 || i == 2);
                }
            }
            if caf {
                Some(AudioType::Mp4)
            } else {
                None
            }
        },
        _ => None,
    }
}

/// The arguments of the program that converts the `CAF` file at `from_path`
/// into an `MP4` file at `to_path`.
pub fn caf_args(from_path: &str, to_path: &str, converter: &AudioConverter) -> (res: Vec<String>)
    ensures
        strings(res@) == match converter {
            AudioConverter::AfConvert => seq![
                "-f"@,
                "mp4f"@,
                "-d"@,
                "aac"@,
                "-v"@,
                from_path@,
                to_path@,
            ],
            AudioConverter::Ffmpeg => seq!["-i"@, from_path@, to_path@],
        },
{
    let mut args: Vec<String> = Vec::new();
    match converter {
        AudioConverter::AfConvert => {
            push_str(&mut args, "-f");
            push_str(&mut args, "mp4f");
            push_str(&mut args, "-d");
            push_str(&mut args, "aac");
            push_str(&mut args, "-v");
            push_str(&mut args, from_path);
            push_str(&mut args, to_path);
        },
        AudioConverter::Ffmpeg => {
            push_str(&mut args, "-i");
            push_str(&mut args, from_path);
            push_str(&mut args, to_path);
        },
    }
    args
}

} // verus!
