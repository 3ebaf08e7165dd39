//! Contains data structures used to describe file converters and associated types.

use vstd::prelude::*;

use crate::text::NameSet;

verus! {

/// A program that converts attachments from one format to another.
pub trait Converter: Sized {
    /// Determine the converter type for the current shell environment,
    /// given the programs that are installed there
    fn determine(installed: &NameSet) -> Option<Self>;

    /// The name of the program the current variant represents
    fn name(&self) -> &'static str;
}

#[derive(Debug, PartialEq, Eq, Structural)]
pub enum ImageType {
    Jpeg,
    Gif,
    Png,
}

impl ImageType {
    /// The file extension of this image type.
    pub open spec fn spec_to_str(&self) -> Seq<char> {
        match self {
            ImageType::Jpeg => "jpeg"@,
            ImageType::Gif => "gif"@,
            ImageType::Png => "png"@,
        }
    }

    pub fn to_str(&self) -> (res: &'static str)
        ensures
            res@ == self.spec_to_str(),
    {
        match self {
            Self::Jpeg => "jpeg",
            Self::Gif => "gif",
            Self::Png => "png",
        }
    }
}

#[derive(Debug, PartialEq, Eq, Structural)]
pub enum VideoType {
    Mp4,
}

impl VideoType {
    /// The file extension of this video type.
    pub open spec fn spec_to_str(&self) -> Seq<char> {
        match self {
            VideoType::Mp4 => "mp4"@,
        }
    }

    pub fn to_str(&self) -> (res: &'static str)
        ensures
            res@ == self.spec_to_str(),
    {
        match self {
            Self::Mp4 => "mp4",
        }
    }
}

#[derive(Debug, PartialEq, Eq, Structural)]
pub enum AudioType {
    Mp4,
}

impl AudioType {
    /// The file extension of this audio type.
    pub open spec fn spec_to_str(&self) -> Seq<char> {
        match self {
            AudioType::Mp4 => "mp4"@,
        }
    }

    pub fn to_str(&self) -> (res: &'static str)
        ensures
            res@ == self.spec_to_str(),
    {
        match self {
            Self::Mp4 => "mp4",
        }
    }
}

/// Hardware video encoder available to `ffmpeg`
#[derive(Debug, PartialEq, Eq, Structural)]
pub enum HardwareEncoder {
    /// NVIDIA NVENC
    Nvenc,
}

impl HardwareEncoder {
    /// The `ffmpeg` codec that uses this encoder.
    pub open spec fn spec_codec_name(&self) -> Seq<char> {
        match self {
            HardwareEncoder::Nvenc => "h264_nvenc"@,
        }
    }

    pub fn codec_name(&self) -> (res: &'static str)
        ensures
            res@ == self.spec_codec_name(),
    {
        match self {
            HardwareEncoder::Nvenc => "h264_nvenc",
        }
    }
}

#[derive(Debug, PartialEq, Eq, Structural)]
/// Program used to convert/encode images
pub enum ImageConverter {
    /// macOS Builtin
    Sips,
    Imagemagick,
}

impl ImageConverter {
    /// The name of the program this variant represents.
    pub open spec fn spec_name(&self) -> Seq<char> {
        match self {
            ImageConverter::Sips => "sips"@,
            ImageConverter::Imagemagick => "magick"@,
        }
    }

    /// The converter chosen when the given programs are installed:
    /// the first of `sips` and `magick` that is installed.
    pub open spec fn spec_determine(installed: Seq<Seq<char>>) -> Option<ImageConverter> {
        if installed.contains("sips"@) {
            Some(ImageConverter::Sips)
        } else if installed.contains("magick"@) {
            Some(ImageConverter::Imagemagick)
        } else {
            None
        }
    }

    /// The text that names this converter, as `Display` renders it.
    pub fn to_string(&self) -> (res: String)
        ensures
            res@ == self.spec_name(),
    {
        String::from_str(self.name())
    }
}

impl Converter for ImageConverter {
    fn determine(installed: &NameSet) -> (res: Option<ImageConverter>)
        ensures
            res == ImageConverter::spec_determine(installed@),
    {
        if installed.contains(ImageConverter::Sips.name()) {
            return Some(ImageConverter::Sips);
        }
        if installed.contains(ImageConverter::Imagemagick.name()) {
            return Some(ImageConverter::Imagemagick);
        }
        None
    }

    fn name(&self) -> (res: &'static str)
        ensures
            res@ == self.spec_name(),
    {
        match self {
            ImageConverter::Sips => "sips",
            ImageConverter::Imagemagick => "magick",
        }
    }
}

#[derive(Debug, PartialEq, Eq, Structural)]
/// Program used to convert/encode audio
pub enum AudioConverter {
    /// macOS Builtin
    AfConvert,
    Ffmpeg,
}

impl AudioConverter {
    /// The name of the program this variant represents.
    pub open spec fn spec_name(&self) -> Seq<char> {
        match self {
            AudioConverter::AfConvert => "afconvert"@,
            AudioConverter::Ffmpeg => "ffmpeg"@,
        }
    }

    /// The converter chosen when the given programs are installed:
    /// the first of `afconvert` and `ffmpeg` that is installed.
    pub open spec fn spec_determine(installed: Seq<Seq<char>>) -> Option<AudioConverter> {
        if installed.contains("afconvert"@) {
            Some(AudioConverter::AfConvert)
        } else if installed.contains("ffmpeg"@) {
            Some(AudioConverter::Ffmpeg)
        } else {
            None
        }
    }

    /// The text that names this converter, as `Display` renders it.
    pub fn to_string(&self) -> (res: String)
        ensures
            res@ == self.spec_name(),
    {
        String::from_str(self.name())
    }
}

impl Converter for AudioConverter {
    fn determine(installed: &NameSet) -> (res: Option<AudioConverter>)
        ensures
            res == AudioConverter::spec_determine(installed@),
    {
        if installed.contains(AudioConverter::AfConvert.name()) {
            return Some(AudioConverter::AfConvert);
        }
        if installed.contains(AudioConverter::Ffmpeg.name()) {
            return Some(AudioConverter::Ffmpeg);
        }
        None
    }

    fn name(&self) -> (res: &'static str)
        ensures
            res@ == self.spec_name(),
    {
        match self {
            AudioConverter::AfConvert => "afconvert",
            AudioConverter::Ffmpeg => "ffmpeg",
        }
    }
}

#[derive(Debug, PartialEq, Eq, Structural)]
/// Program used to convert/encode videos
pub enum VideoConverter {
    Ffmpeg,
}

impl VideoConverter {
    /// The name of the program this variant represents.
    pub open spec fn spec_name(&self) -> Seq<char> {
        match self {
            VideoConverter::Ffmpeg => "ffmpeg"@,
        }
    }

    /// The converter chosen when the given programs are installed:
    /// `ffmpeg` when it is installed.
    pub open spec fn spec_determine(installed: Seq<Seq<char>>) -> Option<VideoConverter> {
        if installed.contains("ffmpeg"@) {
            Some(VideoConverter::Ffmpeg)
        } else {
            None
        }
    }

    /// The text that names this converter, as `Display` renders it.
    pub fn to_string(&self) -> (res: String)
        ensures
            res@ == self.spec_name(),
    {
        String::from_str(self.name())
    }
}

impl Converter for VideoConverter {
    fn determine(installed: &NameSet) -> (res: Option<VideoConverter>)
        ensures
            res == VideoConverter::spec_determine(installed@),
    {
        if installed.contains(VideoConverter::Ffmpeg.name()) {
            return Some(VideoConverter::Ffmpeg);
        }
        None
    }

    fn name(&self) -> (res: &'static str)
        ensures
            res@ == self.spec_name(),
    {
        match self {
            VideoConverter::Ffmpeg => "ffmpeg",
        }
    }
}

} // verus!
