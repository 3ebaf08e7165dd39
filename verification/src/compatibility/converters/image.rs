//! Decisions and commands for converting image files.

use vstd::prelude::*;

use crate::compatibility::models::{Converter, ImageConverter, ImageType};
use crate::media_type::{is_image_of, MediaType};
use crate::text::{push_str, str_eq, strings};

verus! {

/// The image subtypes that attachments convert from: `HEIC` in either case.
pub open spec fn heic_subtypes() -> Seq<Seq<char>> {
    seq!["heic"@, "HEIC"@]
}

/// The format an image attachment converts to, if any.
///
/// - Attachment `HEIC` files convert to `JPEG`
/// - Any other file keeps its original format
pub fn image_output_type(mime_type: &MediaType) -> (res: Option<ImageType>)
    ensures
        is_image_of(*mime_type, heic_subtypes()) ==> res == Some(ImageType::Jpeg),
        !is_image_of(*mime_type, heic_subtypes()) ==> res is None,
{
    match mime_type {
        MediaType::Image(s) => {
            let heic = str_eq(s, "heic") || str_eq(s, "HEIC");
            proof {
                assert(heic_subtypes()[0] == "heic"@);
                assert(heic_subtypes()[1] == "HEIC"@);
                if heic_subtypes().contains(s@) {
                    let i = choose|i: int| 0 <= i < 2 && heic_subtypes()[i] == s@;
                    assert(i == 0 || i == 1);
                }
            }
            if heic {
                Some(ImageType::Jpeg)
            } else {
                None
            }
        },
        _ => None,
    }
}

/// The arguments of the program that converts a HEIC image at `from_path`
/// into `output_image_type` at `to_path`.
///
/// `sips` is the macOS builtin; see <https://www.unix.com/man-page/osx/1/sips/> (or `man sips`).
/// `magick` infers the output format from the extension of `to_path`.
pub fn heic_args(
    from_path: &str,
    to_path: &str,
    converter: &ImageConverter,
    output_image_type: &ImageType,
) -> (res: Vec<String>)
    ensures
        strings(res@) == match converter {
            ImageConverter::Sips => seq![
                "-s"@,
                "format"@,
                output_image_type.spec_to_str(),
                from_path@,
                "-o"@,
                to_path@,
            ],
            ImageConverter::Imagemagick => seq![from_path@, to_path@],
        },
{
    let mut args: Vec<String> = Vec::new();
    match converter {
        ImageConverter::Sips => {
            push_str(&mut args, "-s");
            push_str(&mut args, "format");
            push_str(&mut args, output_image_type.to_str());
            push_str(&mut args, from_path);
            push_str(&mut args, "-o");
            push_str(&mut args, to_path);
        },
        ImageConverter::Imagemagick => {
            push_str(&mut args, from_path);
            push_str(&mut args, to_path);
        },
    }
    args
}

} // verus!
