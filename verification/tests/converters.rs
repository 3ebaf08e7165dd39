use imessage_exporter::compatibility::converters::audio::{audio_output_type, caf_args};
use imessage_exporter::compatibility::converters::image::{heic_args, image_output_type};
use imessage_exporter::compatibility::converters::outcome::{
    after_attempt, audio_copy_outcome, image_copy_outcome, video_copy_outcome, AttemptOutcome,
    CopyOutcome,
};
use imessage_exporter::compatibility::models::{
    AudioConverter, AudioType, Converter, HardwareEncoder, ImageConverter, ImageType,
    VideoConverter, VideoType,
};
use imessage_exporter::converter;
use imessage_exporter::converters::convert;
use imessage_exporter::media_type::MediaType;
use imessage_exporter::text::NameSet;

fn installed(names: &[&str]) -> NameSet {
    NameSet::new(names.iter().map(|s| s.to_string()).collect())
}

fn strs(v: &[&str]) -> Vec<String> {
    v.iter().map(|s| s.to_string()).collect()
}

#[test]
fn file_types_have_their_extensions() {
    assert_eq!(ImageType::Jpeg.to_str(), "jpeg");
    assert_eq!(ImageType::Gif.to_str(), "gif");
    assert_eq!(ImageType::Png.to_str(), "png");
    assert_eq!(VideoType::Mp4.to_str(), "mp4");
    assert_eq!(AudioType::Mp4.to_str(), "mp4");
    assert_eq!(converter::ImageType::Jpeg.to_str(), "jpeg");
    assert_eq!(converter::VideoType::Mov.to_str(), "mov");
    assert_eq!(converter::AudioType::Caf.to_str(), "caf");
    assert_eq!(converter::AudioType::Mp3.to_str(), "mp3");
}

#[test]
fn converters_have_their_program_names() {
    assert_eq!(ImageConverter::Sips.name(), "sips");
    assert_eq!(ImageConverter::Imagemagick.name(), "magick");
    assert_eq!(AudioConverter::AfConvert.name(), "afconvert");
    assert_eq!(AudioConverter::Ffmpeg.name(), "ffmpeg");
    assert_eq!(VideoConverter::Ffmpeg.name(), "ffmpeg");
    assert_eq!(ImageConverter::Imagemagick.to_string(), "magick");
    assert_eq!(HardwareEncoder::Nvenc.codec_name(), "h264_nvenc");
    assert_eq!(converter::ImageConverter::Imagemagick.to_string(), "imagemagick");
    assert_eq!(converter::AudioConverter::AfConvert.to_string(), "afconvert");
    assert_eq!(converter::VideoConverter::Ffmpeg.to_string(), "ffmpeg");
}

#[test]
fn determine_prefers_the_builtin_program() {
    let both = installed(&["ls", "magick", "sips"]);
    assert_eq!(ImageConverter::determine(&both), Some(ImageConverter::Sips));
    let magick = installed(&["magick"]);
    assert_eq!(ImageConverter::determine(&magick), Some(ImageConverter::Imagemagick));
    let audio = installed(&["ffmpeg", "afconvert"]);
    assert_eq!(AudioConverter::determine(&audio), Some(AudioConverter::AfConvert));
    assert_eq!(VideoConverter::determine(&audio), Some(VideoConverter::Ffmpeg));
    assert_eq!(
        <converter::AudioConverter as converter::Converter>::determine(&installed(&["ffmpeg"])),
        Some(converter::AudioConverter::Ffmpeg)
    );
}

#[test]
fn determine_finds_nothing_without_programs() {
    let none = installed(&["ls", "fake_name"]);
    assert_eq!(ImageConverter::determine(&none), None);
    assert_eq!(AudioConverter::determine(&none), None);
    assert_eq!(VideoConverter::determine(&none), None);
    assert_eq!(<converter::ImageConverter as converter::Converter>::determine(&none), None);
}

#[test]
fn name_set_membership() {
    let set = installed(&["sips", "ffmpeg"]);
    assert!(set.contains("ffmpeg"));
    assert!(!set.contains("ffmpe"));
    assert!(!installed(&[]).contains(""));
}

#[test]
fn heic_images_convert_to_jpeg() {
    assert_eq!(image_output_type(&MediaType::Image("heic")), Some(ImageType::Jpeg));
    assert_eq!(image_output_type(&MediaType::Image("HEIC")), Some(ImageType::Jpeg));
    assert_eq!(image_output_type(&MediaType::Image("Heic")), None);
    assert_eq!(image_output_type(&MediaType::Image("png")), None);
    assert_eq!(image_output_type(&MediaType::Video("heic")), None);
}

#[test]
fn caf_audio_converts_to_mp4() {
    assert_eq!(audio_output_type(&MediaType::Audio("caf")), Some(AudioType::Mp4));
    assert_eq!(audio_output_type(&MediaType::Audio("CAF")), Some(AudioType::Mp4));
    assert_eq!(
        audio_output_type(&MediaType::Audio("x-caf; codecs=opus")),
        Some(AudioType::Mp4)
    );
    assert_eq!(audio_output_type(&MediaType::Audio("mp3")), None);
    assert_eq!(audio_output_type(&MediaType::Unknown), None);
    assert_eq!(convert::audio_output_type(&MediaType::Audio("CAF")), Some(AudioType::Mp4));
    assert_eq!(
        convert::audio_output_type(&MediaType::Audio("x-caf; codecs=opus")),
        None
    );
}

#[test]
fn stickers_convert_by_subtype() {
    assert_eq!(
        convert::sticker_output_type(&MediaType::Image("heic")),
        Some(ImageType::Png)
    );
    assert_eq!(
        convert::sticker_output_type(&MediaType::Image("HEICS")),
        Some(ImageType::Gif)
    );
    assert_eq!(
        convert::sticker_output_type(&MediaType::Image("heic-sequence")),
        Some(ImageType::Gif)
    );
    assert_eq!(convert::sticker_output_type(&MediaType::Image("gif")), None);
    assert_eq!(convert::sticker_output_type(&MediaType::Other("heic")), None);
}

#[test]
fn heic_arguments_per_converter() {
    assert_eq!(
        heic_args("a.heic", "b.jpeg", &ImageConverter::Sips, &ImageType::Jpeg),
        strs(&["-s", "format", "jpeg", "a.heic", "-o", "b.jpeg"])
    );
    assert_eq!(
        heic_args("a.heic", "b.png", &ImageConverter::Imagemagick, &ImageType::Png),
        strs(&["a.heic", "b.png"])
    );
}

#[test]
fn heic_command_per_converter() {
    let (program, args) = converter::convert_heic(
        "in.heic",
        "out.gif",
        &converter::ImageConverter::Sips,
        &converter::ImageType::Gif,
    );
    assert_eq!(program, "sips");
    assert_eq!(args, strs(&["-s", "format", "gif", "in.heic", "-o", "out.gif"]));
    let (program, args) = converter::convert_heic(
        "in.heic",
        "out.jpeg",
        &converter::ImageConverter::Imagemagick,
        &converter::ImageType::Jpeg,
    );
    assert_eq!(program, "magick");
    assert_eq!(args, strs(&["in.heic", "out.jpeg"]));
}

#[test]
fn caf_arguments_per_converter() {
    assert_eq!(
        caf_args("a.caf", "b.mp4", &AudioConverter::AfConvert),
        strs(&["-f", "mp4f", "-d", "aac", "-v", "a.caf", "b.mp4"])
    );
    assert_eq!(
        caf_args("a.caf", "b.mp4", &AudioConverter::Ffmpeg),
        strs(&["-i", "a.caf", "b.mp4"])
    );
}

#[test]
fn mov_arguments() {
    assert_eq!(
        convert::convert_mov_args("a.mov", "b.mp4"),
        strs(&["-i", "a.mov", "b.mp4"])
    );
}

#[test]
fn conversions_stop_at_the_first_success() {
    assert_eq!(after_attempt(0, 2, true), AttemptOutcome::Finished(true));
    assert_eq!(after_attempt(0, 2, false), AttemptOutcome::TryNext(1));
    assert_eq!(after_attempt(1, 2, true), AttemptOutcome::Finished(true));
    assert_eq!(after_attempt(1, 2, false), AttemptOutcome::Finished(false));
    assert_eq!(after_attempt(0, 1, false), AttemptOutcome::Finished(false));
}

#[test]
fn images_and_audio_keep_the_new_extension_when_conversion_fails() {
    assert_eq!(
        image_copy_outcome(&Some(ImageType::Jpeg), false),
        CopyOutcome { extension: Some("jpeg"), copy_raw: true, converted: None }
    );
    assert_eq!(
        image_copy_outcome(&Some(ImageType::Jpeg), true),
        CopyOutcome { extension: Some("jpeg"), copy_raw: false, converted: Some(MediaType::Image("jpeg")) }
    );
    assert_eq!(
        audio_copy_outcome(&Some(AudioType::Mp4), true),
        CopyOutcome { extension: Some("mp4"), copy_raw: false, converted: Some(MediaType::Audio("mp4")) }
    );
    assert_eq!(
        audio_copy_outcome(&None, false),
        CopyOutcome { extension: None, copy_raw: true, converted: None }
    );
}

#[test]
fn videos_keep_their_path_when_conversion_fails() {
    assert_eq!(
        video_copy_outcome(&Some(VideoType::Mp4), false),
        CopyOutcome { extension: None, copy_raw: true, converted: None }
    );
    assert_eq!(
        video_copy_outcome(&Some(VideoType::Mp4), true),
        CopyOutcome { extension: Some("mp4"), copy_raw: false, converted: Some(MediaType::Video("mp4")) }
    );
    assert_eq!(
        video_copy_outcome(&None, true),
        CopyOutcome { extension: None, copy_raw: true, converted: None }
    );
}
