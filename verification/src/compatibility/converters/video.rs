//! Decisions and commands for converting video files.

use vstd::prelude::*;

use crate::compatibility::models::{HardwareEncoder, VideoType};
use crate::media_type::{is_video_of, MediaType};
use crate::text::{push_str, str_eq, strings};

verus! {

/// The video subtypes that attachments convert from: `MOV` in either case,
/// and `quicktime`.
pub open spec fn mov_subtypes() -> Seq<Seq<char>> {
    seq!["mov"@, "MOV"@, "quicktime"@]
}

/// The format a video attachment converts to, if any.
///
/// - Attachment `MOV` files convert to `MP4`
/// - Any other file keeps its original format
pub fn video_output_type(mime_type: &MediaType) -> (res: Option<VideoType>)
    ensures
        is_video_of(*mime_type, mov_subtypes()) ==> res == Some(VideoType::Mp4),
        !is_video_of(*mime_type, mov_subtypes()) ==> res is None,
{
    match mime_type {
        MediaType::Video(s) => {
            let mov = str_eq(s, "mov") || str_eq(s, "MOV") || str_eq(s, "quicktime");
            proof {
                assert(mov_subtypes()[0] == "mov"@);
                assert(mov_subtypes()[1] == "MOV"@);
                assert(mov_subtypes()[2] == "quicktime"@);
                if mov_subtypes().contains(s@) {
                    let i = choose|i: int| 0 <= i < 3 && mov_subtypes()[i] == s@;
                    assert(i == 0 || i == 1 || i == 2);
                }
            }
            if mov {
                Some(VideoType::Mp4)
            } else {
                None
            }
        },
        _ => None,
    }
}

/// The `ffmpeg` arguments that remux `from_path` into an `MP4` container
/// at `to_path`, without re-encoding.
pub open spec fn spec_remux_args(from_path: Seq<char>, to_path: Seq<char>) -> Seq<Seq<char>> {
    seq!["-i"@, from_path, "-c"@, "copy"@, "-f"@, VideoType::Mp4.spec_to_str(), to_path]
}

/// The `ffmpeg` arguments that re-encode `from_path` into `to_path` with
/// H.264, on the hardware encoder when one is given and with `libx264` otherwise.
pub open spec fn spec_encode_args(
    from_path: Seq<char>,
    to_path: Seq<char>,
    hw: Option<HardwareEncoder>,
) -> Seq<Seq<char>> {
    let codec = match hw {
        Some(hw) => hw.spec_codec_name(),
        None => "libx264"@,
    };
    seq![
        "-i"@,
        from_path,
        "-c:v"@,
        codec,
        "-preset"@,
        "fast"@,
        "-c:a"@,
        "copy"@,
        "-movflags"@,
        "+faststart"@,
        to_path,
    ]
}

/// Build ffmpeg arguments for remuxing without re-encoding
pub fn build_remux_args(from_path: &str, to_path: &str) -> (res: Vec<String>)
    ensures
        strings(res@) == spec_remux_args(from_path@, to_path@),
{
    let mut args: Vec<String> = Vec::new();
    push_str(&mut args, "-i");
    push_str(&mut args, from_path);
    push_str(&mut args, "-c");
    push_str(&mut args, "copy");
    push_str(&mut args, "-f");
    push_str(&mut args, VideoType::Mp4.to_str());
    push_str(&mut args, to_path);
    args
}

/// Build ffmpeg arguments for encoding with optional hardware acceleration
pub fn build_encode_args(from_path: &str, to_path: &str, hw: &Option<HardwareEncoder>) -> (res: Vec<
    String,
>)
    ensures
        strings(res@) == spec_encode_args(from_path@, to_path@, *hw),
{
    let mut args: Vec<String> = Vec::new();
    push_str(&mut args, "-i");
    push_str(&mut args, from_path);
    if let Some(hw) = hw {
        push_str(&mut args, "-c:v");
        push_str(&mut args, hw.codec_name());
        push_str(&mut args, "-preset");
        push_str(&mut args, "fast");
    } else {
        push_str(&mut args, "-c:v");
        push_str(&mut args, "libx264");
        push_str(&mut args, "-preset");
        push_str(&mut args, "fast");
    }
    push_str(&mut args, "-c:a");
    push_str(&mut args, "copy");
    push_str(&mut args, "-movflags");
    push_str(&mut args, "+faststart");
    push_str(&mut args, to_path);
    args
}

/// The `ffmpeg` argument lists to try, in order, when converting a `MOV`
/// file: first remuxing into an `MP4` container, and, if that fails,
/// re-encoding (on the hardware encoder when one is given).
/// The conversion succeeds as soon as one attempt succeeds.
pub fn convert_mov_attempts(from_path: &str, to_path: &str, hw: &Option<HardwareEncoder>) -> (res:
    Vec<Vec<String>>)
    ensures
        res@.len() == 2,
        strings(res@[0]@) == spec_remux_args(from_path@, to_path@),
        strings(res@[1]@) == spec_encode_args(from_path@, to_path@, *hw),
{
    let mut attempts: Vec<Vec<String>> = Vec::new();
    attempts.push(build_remux_args(from_path, to_path));
    attempts.push(build_encode_args(from_path, to_path, hw));
    attempts
}

} // verus!
