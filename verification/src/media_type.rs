//! The MIME type of an attachment, split into its top-level kind and subtype.

use vstd::prelude::*;

verus! {

/// The MIME type of an attachment: the top-level kind, holding the subtype.
#[derive(Debug, PartialEq, Eq)]
pub enum MediaType<'a> {
    Image(&'a str),
    Video(&'a str),
    Audio(&'a str),
    Text(&'a str),
    Application(&'a str),
    Other(&'a str),
    Unknown,
}

/// Whether `mime` is an image whose subtype is one of `subtypes`.
pub open spec fn is_image_of(mime: MediaType, subtypes: Seq<Seq<char>>) -> bool {
    mime matches MediaType::Image(s) && subtypes.contains(s@)
}

/// Whether `mime` is a video whose subtype is one of `subtypes`.
pub open spec fn is_video_of(mime: MediaType, subtypes: Seq<Seq<char>>) -> bool {
    mime matches MediaType::Video(s) && subtypes.contains(s@)
}

/// Whether `mime` is an audio file whose subtype is one of `subtypes`.
pub open spec fn is_audio_of(mime: MediaType, subtypes: Seq<Seq<char>>) -> bool {
    mime matches MediaType::Audio(s) && subtypes.contains(s@)
}

} // verus!
