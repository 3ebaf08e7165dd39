//! Decisions for copying stickers and attachments, converting where possible.

use vstd::prelude::*;

use crate::compatibility::models::{AudioType, ImageType};
use crate::media_type::{is_audio_of, is_image_of, MediaType};
use crate::text::{push_str, str_eq, strings};

verus! {

/// Sticker subtypes that convert to `PNG`: `HEIC` in either case.
pub open spec fn sticker_png_subtypes() -> Seq<Seq<char>> {
    seq!["heic"@, "HEIC"@]
}

/// Sticker subtypes that convert to `GIF`: `HEICS` in either case and `heic-sequence`.
pub open spec fn sticker_gif_subtypes() -> Seq<Seq<char>> {
    seq!["heics"@, "HEICS"@, "heic-sequence"@]
}

/// Audio subtypes that convert to `MP4`: `CAF` in either case.
pub open spec fn legacy_caf_subtypes() -> Seq<Seq<char>> {
    seq!["caf"@, "CAF"@]
}

/// The format a sticker converts to, if any.
///
/// - Sticker `HEIC` files convert to `PNG`
/// - Sticker `HEICS` files convert to `GIF`
/// - Any other file keeps its original format
pub fn sticker_output_type(mime_type: &MediaType) -> (res: Option<ImageType>)
    ensures
        is_image_of(*mime_type, sticker_png_subtypes()) ==> res == Some(ImageType::Png),
        is_image_of(*mime_type, sticker_gif_subtypes()) ==> res == Some(ImageType::Gif),
        !is_image_of(*mime_type, sticker_png_subtypes()) && !is_image_of(
            *mime_type,
            sticker_gif_subtypes(),
        ) ==> res is None,
{
    proof {
        reveal_strlit("heic");
        reveal_strlit("HEIC");
        reveal_strlit("heics");
        reveal_strlit("HEICS");
        reveal_strlit("heic-sequence");
        assert(sticker_png_subtypes()[0] == "heic"@);
        assert(sticker_png_subtypes()[1] == "HEIC"@);
        assert(sticker_gif_subtypes()[0] == "heics"@);
        assert(sticker_gif_subtypes()[1] == "HEICS"@);
        assert(sticker_gif_subtypes()[2] == "heic-sequence"@);
    }
    match mime_type {
        MediaType::Image(s) => {
            proof {
                if sticker_png_subtypes().contains(s@) {
                    let i = choose|i: int| 0 <= i < 2 && sticker_png_subtypes()[i] == s@;
                    assert(i == 0 || i == 1);
                }
                if sticker_gif_subtypes().contains(s@) {
                    let i = choose|i: int| 0 <= i < 3 && sticker_gif_subtypes()[i] == s@;
                    assert(i == 0 || i == 1 || i == 2);
                    assert(s@.len() != "heic"@.len());
                    assert(s@ != "heic"@ && s@ != "HEIC"@);
                }
            }
            if str_eq(s, "heic") || str_eq(s, "HEIC") {
                Some(ImageType::Png)
            } else if str_eq(s, "heics") || str_eq(s, "HEICS") || str_eq(s, "heic-sequence") {
                Some(ImageType::Gif)
            } else {
                None
            }
        },
        _ => None,
    }
}

/// The format an audio attachment converts to, if any: `CAF` files convert to `MP4`.
pub fn audio_output_type(mime_type: &MediaType) -> (res: Option<AudioType>)
    ensures
        is_audio_of(*mime_type, legacy_caf_subtypes()) ==> res == Some(AudioType::Mp4),
        !is_audio_of(*mime_type, legacy_caf_subtypes()) ==> res is None,
{
    match mime_type {
        MediaType::Audio(s) => {
            proof {
                assert(legacy_caf_subtypes()[0] == "caf"@);
                assert(legacy_caf_subtypes()[1] == "CAF"@);
                if legacy_caf_subtypes().contains(s@) {
                    let i = choose|i: int| 0 <= i < 2 && legacy_caf_subtypes()[i] == s@;
                    assert(i == 0 || i == 1);
                }
            }
            if str_eq(s, "caf") || str_eq(s, "CAF") {
                Some(AudioType::Mp4)
            } else {
                None
            }
        },
        _ => None,
    }
}

/// The `ffmpeg` arguments that convert the `MOV` file at `from_path` to `to_path`.
pub fn convert_mov_args(from_path: &str, to_path: &str) -> (res: Vec<String>)
    ensures
        strings(res@) == seq!["-i"@, from_path@, to_path@],
{
    let mut args: Vec<String> = Vec::new();
    push_str(&mut args, "-i");
    push_str(&mut args, from_path);
    push_str(&mut args, to_path);
    args
}

} // verus!
