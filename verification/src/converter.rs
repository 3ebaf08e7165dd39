//! File types and converter programs, with the command that converts HEIC images.

use vstd::prelude::*;

use crate::text::{push_str, strings, NameSet};

verus! {

#[derive(Debug, PartialEq, Eq, Structural)]
pub enum ImageType {
    Jpeg,
    Gif,
    Png,
}

impl ImageType {
    /// The file extension of this image type.
    pub open spec fn spec_to_str(&self) -> Seq<char> {
        match self {
            ImageType::Jpeg => "jpeg"@,
            ImageType::Gif => "gif"@,
            ImageType::Png => "png"@,
        }
    }

    pub fn to_str(&self) -> (res: &'static str)
        ensures
            res@ == self.spec_to_str(),
    {
        match self {
            Self::Jpeg => "jpeg",
            Self::Gif => "gif",
            Self::Png => "png",
        }
    }
}

#[derive(Debug, PartialEq, Eq, Structural)]
pub enum VideoType {
    Mp4,
    Mov,
}

impl VideoType {
    /// The file extension of this video type.
    pub open spec fn spec_to_str(&self) -> Seq<char> {
        match self {
            VideoType::Mp4 => "mp4"@,
            VideoType::Mov => "mov"@,
        }
    }

    pub fn to_str(&self) -> (res: &'static str)
        ensures
            res@ == self.spec_to_str(),
    {
        match self {
            Self::Mp4 => "mp4",
            Self::Mov => "mov",
        }
    }
}

#[derive(Debug, PartialEq, Eq, Structural)]
pub enum AudioType {
    Caf,
    Mp3,
}

impl AudioType {
    /// The file extension of this audio type.
    pub open spec fn spec_to_str(&self) -> Seq<char> {
        match self {
            AudioType::Caf => "caf"@,
            AudioType::Mp3 => "mp3"@,
        }
    }

    pub fn to_str(&self) -> (res: &'static str)
        ensures
            res@ == self.spec_to_str(),
    {
        match self {
            Self::Caf => "caf",
            Self::Mp3 => "mp3",
        }
    }
}

/// A program that converts attachments from one format to another.
pub trait Converter: Sized {
    /// Determine the converter type for the current shell environment,
    /// given the programs that are installed there
    fn determine(installed: &NameSet) -> Option<Self>;
}

#[derive(Debug, PartialEq, Eq, Structural)]
pub enum ImageConverter {
    Sips,
    Imagemagick,
}

impl ImageConverter {
    /// How this converter is shown to the user.
    pub open spec fn spec_to_string(&self) -> Seq<char> {
        match self {
            ImageConverter::Sips => "sips"@,
            ImageConverter::Imagemagick => "imagemagick"@,
        }
    }

    /// The converter chosen when the given programs are installed:
    /// the first of `sips` and `magick` that is installed.
    pub open spec fn spec_determine(installed: Seq<Seq<char>>) -> Option<ImageConverter> {
        if installed.contains("sips"@) {
            Some(ImageConverter::Sips)
        } else if installed.contains("magick"@) {
            Some(ImageConverter::Imagemagick)
        } else {
            None
        }
    }

    /// The text that names this converter, as `Display` renders it.
    pub fn to_string(&self) -> (res: String)
        ensures
            res@ == self.spec_to_string(),
    {
        match self {
            ImageConverter::Sips => String::from_str("sips"),
            ImageConverter::Imagemagick => String::from_str("imagemagick"),
        }
    }
}

impl Converter for ImageConverter {
    /// Determine the converter type for the current shell environment
    fn determine(installed: &NameSet) -> (res: Option<ImageConverter>)
        ensures
            res == ImageConverter::spec_determine(installed@),
    {
        if installed.contains("sips") {
            return Some(ImageConverter::Sips);
        }
        if installed.contains("magick") {
            return Some(ImageConverter::Imagemagick);
        }
        None
    }
}

#[derive(Debug, PartialEq, Eq, Structural)]
pub enum AudioConverter {
    AfConvert,
    Ffmpeg,
}

impl AudioConverter {
    /// How this converter is shown to the user.
    pub open spec fn spec_to_string(&self) -> Seq<char> {
        match self {
            AudioConverter::AfConvert => "afconvert"@,
            AudioConverter::Ffmpeg => "ffmpeg"@,
        }
    }

    /// The converter chosen when the given programs are installed:
    /// the first of `afconvert` and `ffmpeg` that is installed.
    pub open spec fn spec_determine(installed: Seq<Seq<char>>) -> Option<AudioConverter> {
        if installed.contains("afconvert"@) {
            Some(AudioConverter::AfConvert)
        } else if installed.contains("ffmpeg"@) {
            Some(AudioConverter::Ffmpeg)
        } else {
            None
        }
    }

    /// The text that names this converter, as `Display` renders it.
    pub fn to_string(&self) -> (res: String)
        ensures
            res@ == self.spec_to_string(),
    {
        match self {
            AudioConverter::AfConvert => String::from_str("afconvert"),
            AudioConverter::Ffmpeg => String::from_str("ffmpeg"),
        }
    }
}

impl Converter for AudioConverter {
    fn determine(installed: &NameSet) -> (res: Option<AudioConverter>)
        ensures
            res == AudioConverter::spec_determine(installed@),
    {
        if installed.contains("afconvert") {
            return Some(AudioConverter::AfConvert);
        }
        if installed.contains("ffmpeg") {
            return Some(AudioConverter::Ffmpeg);
        }
        None
    }
}

#[derive(Debug, PartialEq, Eq, Structural)]
pub enum VideoConverter {
    Ffmpeg,
}

impl VideoConverter {
    /// How this converter is shown to the user.
    pub open spec fn spec_to_string(&self) -> Seq<char> {
        match self {
            VideoConverter::Ffmpeg => "ffmpeg"@,
        }
    }

    /// The converter chosen when the given programs are installed:
    /// `ffmpeg` when it is installed.
    pub open spec fn spec_determine(installed: Seq<Seq<char>>) -> Option<VideoConverter> {
        if installed.contains("ffmpeg"@) {
            Some(VideoConverter::Ffmpeg)
        } else {
            None
        }
    }

    /// The text that names this converter, as `Display` renders it.
    pub fn to_string(&self) -> (res: String)
        ensures
            res@ == self.spec_to_string(),
    {
        match self {
            VideoConverter::Ffmpeg => String::from_str("ffmpeg"),
        }
    }
}

impl Converter for VideoConverter {
    fn determine(installed: &NameSet) -> (res: Option<VideoConverter>)
        ensures
            res == VideoConverter::spec_determine(installed@),
    {
        if installed.contains("ffmpeg") {
            return Some(VideoConverter::Ffmpeg);
        }
        None
    }
}

/// The program and arguments that convert a HEIC image at `from_path` into
/// `output_image_type` at `to_path`: the macOS builtin `sips`
/// (<https://www.unix.com/man-page/osx/1/sips/>), or ImageMagick's `magick`,
/// which infers the output format from the extension of `to_path`.
pub fn convert_heic(
    from_path: &str,
    to_path: &str,
    converter: &ImageConverter,
    output_image_type: &ImageType,
) -> (res: (&'static str, Vec<String>))
    ensures
        match converter {
            ImageConverter::Sips => res.0@ == "sips"@ && strings(res.1@) == seq![
                "-s"@,
                "format"@,
                output_image_type.spec_to_str(),
                from_path@,
                "-o"@,
                to_path@,
            ],
            ImageConverter::Imagemagick => res.0@ == "magick"@ && strings(res.1@) == seq![
                from_path@,
                to_path@,
            ],
        },
{
    let mut args: Vec<String> = Vec::new();
    match converter {
        ImageConverter::Sips => {
            push_str(&mut args, "-s");
            push_str(&mut args, "format");
            push_str(&mut args, output_image_type.to_str());
            push_str(&mut args, from_path);
            push_str(&mut args, "-o");
            push_str(&mut args, to_path);
            ("sips", args)
        },
        ImageConverter::Imagemagick => {
            push_str(&mut args, from_path);
            push_str(&mut args, to_path);
            ("magick", args)
        },
    }
}

} // verus!
