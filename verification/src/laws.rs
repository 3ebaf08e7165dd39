//! Properties that hold across the library's functions.

use vstd::prelude::*;

use crate::attachment_manager::{spec_attachment_manager_from_cli, AttachmentManagerMode};
use crate::attachment_metadata::{is_key, last_key_before, text_after_key, ComponentKind};
use crate::bundle_id::spec_balloon_bundle_id;
use crate::compatibility::converters::audio::caf_subtypes;
use crate::compatibility::converters::image::heic_subtypes;
use crate::compatibility::converters::outcome::conversion_result;
use crate::compatibility::converters::video::mov_subtypes;
use crate::compatibility::models::{
    AudioConverter, AudioType, ImageConverter, ImageType, VideoConverter, VideoType,
};
use crate::converters::convert::{sticker_gif_subtypes, sticker_png_subtypes};
use crate::export_type::{spec_export_type_from_cli, ExportType};
use crate::converter as legacy;
use crate::exporters::json::{
    attachment_json, message_json, JsonModel, MessageRecord,
    cursor_after, exported_positions, is_exported, previous_row, step_at, written_positions,
};
use crate::media_type::{is_audio_of, is_image_of, is_video_of, MediaType};
use crate::options::{
    opt_view,
    diagnostic_conflict, format_dependency, options_built, spec_export_path_error,
    spec_options_error, spec_platform, spec_resolve_export_path, CliArgs, Environment,
    ExportDirState, Options, OptionsErrorView, DEFAULT_OUTPUT_DIR,
};
use crate::platform::{spec_platform_from_cli, Platform};
use crate::query_context::{days_in_month, digits_value, is_date_shaped, spec_parse_date, CalendarDate};
use crate::text::{strings, find_from, lemma_find_from_bounds, lemma_split_from_nonempty, split, split_from};

verus! {

proof fn lemma_pieces_have_no_separator(s: Seq<char>, c: char, from: int)
    requires
        0 <= from <= s.len(),
    ensures
        forall|k: int, j: int|
            0 <= k < split_from(s, c, from).len() && 0 <= j < split_from(s, c, from)[k].len()
                ==> split_from(s, c, from)[k][j] != c,
    decreases s.len() - from,
{
    lemma_find_from_bounds(s, c, from);
    let end = find_from(s, c, from);
    let parts = split_from(s, c, from);
    if end < s.len() {
        lemma_pieces_have_no_separator(s, c, end + 1);
        assert forall|k: int, j: int|
            0 <= k < parts.len() && 0 <= j < parts[k].len() implies parts[k][j] != c by {
            if k > 0 {
                assert(parts[k] == split_from(s, c, end + 1)[k - 1]);
            }
        }
    }
}

proof fn lemma_split_without_separator(s: Seq<char>, c: char)
    requires
        forall|j: int| 0 <= j < s.len() ==> s[j] != c,
    ensures
        split(s, c).len() == 1,
{
    lemma_find_from_bounds(s, c, 0);
    assert(find_from(s, c, 0) == s.len());
}

/// Parsing a balloon bundle identifier twice gives what parsing it once gives:
/// the application identifier found holds no `:`, so it names itself.
pub proof fn law_balloon_bundle_id_idempotent(s: Seq<char>)
    ensures
        spec_balloon_bundle_id(s) matches Some(r) ==> spec_balloon_bundle_id(r) == Some(r),
{
    let parts = split(s, ':');
    lemma_pieces_have_no_separator(s, ':', 0);
    lemma_split_from_nonempty(s, ':', 0);
    lemma_find_from_bounds(s, ':', 0);
    if parts.len() == 1 {
        assert(find_from(s, ':', 0) == s.len());
        lemma_split_without_separator(s, ':');
    } else if parts.len() >= 3 {
        let r = parts[2];
        assert forall|j: int| 0 <= j < r.len() implies r[j] != ':' by {}
        lemma_split_without_separator(r, ':');
    }
}

/// Every export type, platform and attachment copy mode is named on the command line
/// by the text it is shown as: reading that text back gives the same value.
pub proof fn law_cli_names_round_trip(t: ExportType, p: Platform, m: AttachmentManagerMode)
    ensures
        spec_export_type_from_cli(t.spec_to_str()) == Some(t),
        spec_platform_from_cli(p.spec_to_str()) == Some(p),
        spec_attachment_manager_from_cli(m.spec_to_str()) == Some(m),
{
    reveal_strlit("html");
    reveal_strlit("txt");
    reveal_strlit("macOS");
    reveal_strlit("macos");
    reveal_strlit("iOS");
    reveal_strlit("ios");
    reveal_strlit("clone");
    reveal_strlit("basic");
    reveal_strlit("full");
    reveal_strlit("disabled");
    assert(crate::ascii::ascii_lower("html"@) =~= "html"@);
    assert(crate::ascii::ascii_lower("txt"@) =~= "txt"@);
    assert(crate::ascii::ascii_lower("macOS"@) =~= "macos"@);
    assert(crate::ascii::ascii_lower("iOS"@) =~= "ios"@);
    assert(crate::ascii::ascii_lower("clone"@) =~= "clone"@);
    assert(crate::ascii::ascii_lower("basic"@) =~= "basic"@);
    assert(crate::ascii::ascii_lower("full"@) =~= "full"@);
    assert(crate::ascii::ascii_lower("disabled"@) =~= "disabled"@);
    assert("basic"@[0] != "clone"@[0]);
    assert("ios"@.len() != "macos"@.len());
    assert("txt"@.len() != "html"@.len());
    assert("full"@.len() != "clone"@.len() && "full"@.len() != "basic"@.len());
    assert("disabled"@.len() != "clone"@.len() && "disabled"@.len() != "basic"@.len()
        && "disabled"@.len() != "full"@.len());
}

/// The converter chosen for the installed programs is one of them, and a converter
/// is always found when the preferred program is installed.
pub proof fn law_determined_converter_is_installed(installed: Seq<Seq<char>>)
    ensures
        ImageConverter::spec_determine(installed) matches Some(c) ==> installed.contains(
            c.spec_name(),
        ),
        AudioConverter::spec_determine(installed) matches Some(c) ==> installed.contains(
            c.spec_name(),
        ),
        VideoConverter::spec_determine(installed) matches Some(c) ==> installed.contains(
            c.spec_name(),
        ),
        installed.contains(ImageConverter::Sips.spec_name()) ==> ImageConverter::spec_determine(
            installed,
        ) == Some(ImageConverter::Sips),
        installed.contains(AudioConverter::AfConvert.spec_name())
            ==> AudioConverter::spec_determine(installed) == Some(AudioConverter::AfConvert),
        ImageConverter::spec_determine(installed) is None <==> !installed.contains("sips"@)
            && !installed.contains("magick"@),
{
}

/// A converted attachment is not converted again: an attachment whose subtype is
/// the format that a conversion produces is kept as it is.
pub proof fn law_converted_files_are_final(subtype: &str)
    ensures
        subtype@ == ImageType::Jpeg.spec_to_str() ==> !is_image_of(
            MediaType::Image(subtype),
            heic_subtypes(),
        ),
        subtype@ == AudioType::Mp4.spec_to_str() ==> !is_audio_of(
            MediaType::Audio(subtype),
            caf_subtypes(),
        ),
        subtype@ == VideoType::Mp4.spec_to_str() ==> !is_video_of(
            MediaType::Video(subtype),
            mov_subtypes(),
        ),
        subtype@ == ImageType::Png.spec_to_str() || subtype@ == ImageType::Gif.spec_to_str()
            ==> !is_image_of(MediaType::Image(subtype), sticker_png_subtypes()) && !is_image_of(
            MediaType::Image(subtype),
            sticker_gif_subtypes(),
        ),
{
    reveal_strlit("jpeg");
    reveal_strlit("mp4");
    reveal_strlit("png");
    reveal_strlit("gif");
    reveal_strlit("heic");
    reveal_strlit("HEIC");
    reveal_strlit("heics");
    reveal_strlit("HEICS");
    reveal_strlit("heic-sequence");
    reveal_strlit("caf");
    reveal_strlit("CAF");
    reveal_strlit("x-caf; codecs=opus");
    reveal_strlit("mov");
    reveal_strlit("MOV");
    reveal_strlit("quicktime");
    let v = subtype@;
    if heic_subtypes().contains(v) {
        let i = choose|i: int| 0 <= i < heic_subtypes().len() && heic_subtypes()[i] == v;
        assert(v != ImageType::Jpeg.spec_to_str() && v != ImageType::Png.spec_to_str() && v
            != ImageType::Gif.spec_to_str()) by {
            assert(v.len() == 4);
            if v == ImageType::Jpeg.spec_to_str() {
                assert(v[0] == 'j');
            }
        }
    }
    if caf_subtypes().contains(v) {
        let i = choose|i: int| 0 <= i < caf_subtypes().len() && caf_subtypes()[i] == v;
        assert(v != AudioType::Mp4.spec_to_str()) by {
            if v.len() == 3 {
                assert(v[0] == 'c' || v[0] == 'C');
            }
        }
    }
    if mov_subtypes().contains(v) {
        let i = choose|i: int| 0 <= i < mov_subtypes().len() && mov_subtypes()[i] == v;
        assert(v != VideoType::Mp4.spec_to_str()) by {
            if v.len() == 3 {
                assert(v[0] == 'm' || v[0] == 'M');
                assert(v[1] == 'o' || v[1] == 'O');
            }
        }
    }
    if sticker_png_subtypes().contains(v) {
        let i = choose|i: int|
            0 <= i < sticker_png_subtypes().len() && sticker_png_subtypes()[i] == v;
        assert(v.len() == 4);
    }
    if sticker_gif_subtypes().contains(v) {
        let i = choose|i: int|
            0 <= i < sticker_gif_subtypes().len() && sticker_gif_subtypes()[i] == v;
        assert(v.len() >= 5);
    }
}

/// A date filter only ever holds a day that exists in the calendar.
pub proof fn law_parsed_dates_exist(s: Seq<char>)
    ensures
        spec_parse_date(s) matches Some(d) ==> 1 <= d.month <= 12 && 1 <= d.day <= days_in_month(
            d.year as int,
            d.month as int,
        ),
{
    if spec_parse_date(s) is Some {
        reveal_with_fuel(crate::query_context::digits_value, 5);
        let year = crate::query_context::digits_value(s, 0, 4);
        assert(0 <= year < 10000) by {
            assert(crate::ascii::is_digit(s[0]) && crate::ascii::is_digit(s[1])
                && crate::ascii::is_digit(s[2]) && crate::ascii::is_digit(s[3]));
        }
    }
}

/// Options that validate respect every rule the command line documents:
/// options that shape an export need `--format`, diagnostics run alone, a custom
/// name excludes the caller ID, a backup password needs an iOS source, and an
/// export never targets a directory that already holds data of its type.
pub proof fn law_valid_options_are_consistent(o: Options, a: CliArgs, env: Environment)
    requires
        spec_options_error(a, env) is None,
        options_built(o, a, env),
    ensures
        o.export_type is None ==> {
            &&& o.attachment_manager == AttachmentManagerMode::Disabled
            &&& !o.no_lazy
            &&& o.query_context.start is None
            &&& o.query_context.end is None
            &&& o.custom_name is None
            &&& !o.use_caller_id
            &&& o.conversation_filter is None
            &&& o.export_path@ == spec_resolve_export_path(None, env.home@)
        },
        o.diagnostic ==> o.export_type is None,
        !(o.custom_name is Some && o.use_caller_id),
        o.cleartext_password is Some ==> o.platform == Platform::iOS,
        o.attachment_root is Some ==> env.attachment_root_exists,
        o.export_type matches Some(t) ==> spec_export_path_error(
            crate::options::opt_view(a.export_path),
            Some(t),
            env.home@,
            env.export_dir,
        ) is None,
{
    if a.export_type is None {
        assert(format_dependency(a) is None);
    }
    if a.diagnostic {
        assert(diagnostic_conflict(a) is None);
    }
}

proof fn lemma_cursor_after(stream: Seq<(i64, bool)>, n: nat)
    requires
        n <= stream.len(),
        stream.len() < u64::MAX,
    ensures
        cursor_after(stream, n).current_message == n,
        cursor_after(stream, n).current_message_row == previous_row(stream, n as int),
        forall|i: int| 0 <= i < n ==> (#[trigger] step_at(stream, i as nat)).write == is_exported(stream, i),
        written_positions(stream, n) == exported_positions(stream, n),
    decreases n,
{
    if n > 0 {
        lemma_cursor_after(stream, (n - 1) as nat);
    }
}

/// A JSON export writes, in stream order, exactly the messages whose row differs from
/// the row of the message before them (the first message's predecessor has row `-1`)
/// and that are not tapbacks: a message repeated right after itself, and every tapback,
/// writes nothing. Each step counts one message.
pub proof fn law_export_writes_new_messages(stream: Seq<(i64, bool)>)
    requires
        stream.len() < u64::MAX,
    ensures
        written_positions(stream, stream.len()) == exported_positions(stream, stream.len()),
        forall|i: int|
            0 <= i < stream.len() ==> (#[trigger] step_at(stream, i as nat)).write
                == is_exported(stream, i),
        cursor_after(stream, stream.len()).current_message == stream.len(),
{
    lemma_cursor_after(stream, stream.len());
}

proof fn lemma_conversion_result(outcomes: Seq<bool>, i: int)
    requires
        0 <= i <= outcomes.len(),
        outcomes.len() <= usize::MAX,
    ensures
        conversion_result(outcomes, i) == (exists|j: int| i <= j < outcomes.len() && outcomes[j]),
    decreases outcomes.len() - i,
{
    if i < outcomes.len() {
        lemma_conversion_result(outcomes, i + 1);
        if outcomes[i] {
            assert(i <= i < outcomes.len() && outcomes[i]);
        } else if i + 1 < outcomes.len() {
            assert(conversion_result(outcomes, i) == conversion_result(outcomes, i + 1));
        }
    }
}

/// A conversion tried several ways succeeds exactly when one of its attempts succeeds:
/// attempts run in order, and the first success ends the conversion.
pub proof fn law_conversion_succeeds_when_an_attempt_does(outcomes: Seq<bool>)
    requires
        outcomes.len() <= usize::MAX,
    ensures
        conversion_result(outcomes, 0) == outcomes.contains(true),
{
    lemma_conversion_result(outcomes, 0);
    if outcomes.contains(true) {
        let j = choose|j: int| 0 <= j < outcomes.len() && outcomes[j] == true;
        assert(0 <= j < outcomes.len() && outcomes[j]);
    }
    if exists|j: int| 0 <= j < outcomes.len() && outcomes[j] {
        let j = choose|j: int| 0 <= j < outcomes.len() && outcomes[j];
        assert(outcomes[j] == true);
    }
}

/// An export never goes into a directory that already holds data of its type, whether
/// the directory was given on the command line or is the default one: the check fails
/// with the existing data, and only its `specified` flag says which. A directory without
/// files of that type, or a path where nothing exists, passes the check; a path that exists
/// but cannot be listed fails it with the reason; without an export type nothing is checked.
pub proof fn law_existing_export_data_is_refused(
    export_path: Option<Seq<char>>,
    t: ExportType,
    home: Seq<char>,
    extensions: Vec<String>,
    reason: String,
)
    ensures
        strings(extensions@).contains(t.spec_to_str()) ==> spec_export_path_error(
            export_path,
            Some(t),
            home,
            ExportDirState::Entries(extensions),
        ) == Some(
            OptionsErrorView::ExistingExportData {
                specified: export_path is Some,
                path: match export_path {
                    Some(p) => p,
                    None => home + "/"@ + DEFAULT_OUTPUT_DIR@,
                },
                export_type: t,
            },
        ),
        !strings(extensions@).contains(t.spec_to_str()) ==> spec_export_path_error(
            export_path,
            Some(t),
            home,
            ExportDirState::Entries(extensions),
        ) is None,
        spec_export_path_error(export_path, Some(t), home, ExportDirState::Missing) is None,
        spec_export_path_error(export_path, Some(t), home, ExportDirState::Unreadable(reason))
            == Some(
                OptionsErrorView::InvalidExportDirectory {
                    specified: export_path is Some,
                    path: match export_path {
                        Some(p) => p,
                        None => home + "/"@ + DEFAULT_OUTPUT_DIR@,
                    },
                    reason: reason@,
                },
            ),
        spec_export_path_error(export_path, None, home, ExportDirState::Entries(extensions)) is None,
{
}

/// The JSON object of a message has exactly the seven keys of the export, and each
/// holds the record's own field: the contents are the record's contents whatever its
/// attachments, the read time is `null` exactly when there is none, and the attachments
/// are the records' objects in order.
pub proof fn law_message_json_holds_the_record(m: MessageRecord)
    ensures
        message_json(m) matches JsonModel::Object(o) && {
            &&& o.dom() =~= set![
                "timestamp"@,
                "sender"@,
                "contents"@,
                "attachments"@,
                "readtime"@,
                "is_from_me"@,
                "guid"@,
            ]
            &&& o["contents"@] == JsonModel::String(m.contents@)
            &&& o["timestamp"@] == JsonModel::String(m.timestamp@)
            &&& o["sender"@] == JsonModel::String(m.sender@)
            &&& o["guid"@] == JsonModel::String(m.guid@)
            &&& o["is_from_me"@] == JsonModel::Bool(m.is_from_me)
            &&& (o["readtime"@] == JsonModel::Null <==> m.readtime is None)
            &&& (m.readtime matches Some(r) ==> o["readtime"@] == JsonModel::String(r@))
            &&& o["attachments"@] matches JsonModel::Array(items) && items.len()
                == m.attachments@.len() && forall|i: int|
                0 <= i < items.len() ==> #[trigger] items[i] == attachment_json(m.attachments@[i])
        },
{
    reveal_strlit("timestamp");
    reveal_strlit("sender");
    reveal_strlit("contents");
    reveal_strlit("attachments");
    reveal_strlit("readtime");
    reveal_strlit("is_from_me");
    reveal_strlit("guid");
    let o = match message_json(m) {
        JsonModel::Object(o) => o,
        _ => Map::empty(),
    };
    assert(o.dom() =~= set![
        "timestamp"@,
        "sender"@,
        "contents"@,
        "attachments"@,
        "readtime"@,
        "is_from_me"@,
        "guid"@,
    ]);
    assert("contents"@.len() == 8 && "readtime"@.len() == 8 && "is_from_me"@.len() == 10
        && "guid"@.len() == 4 && "attachments"@.len() == 11);
    assert("contents"@[0] != "readtime"@[0]);
    assert("contents"@[0] != "timestamp"@[0] && "contents"@[0] != "sender"@[0]);
    assert("readtime"@ != "is_from_me"@ && "readtime"@ != "guid"@);
    assert("attachments"@ != "readtime"@ && "attachments"@ != "is_from_me"@ && "attachments"@
        != "guid"@);
    assert("timestamp"@ != "sender"@ && "timestamp"@.len() != "attachments"@.len()
        && "timestamp"@ != "readtime"@ && "timestamp"@ != "is_from_me"@ && "timestamp"@ != "guid"@);
    assert("sender"@.len() != "attachments"@.len() && "sender"@ != "readtime"@ && "sender"@
        != "is_from_me"@ && "sender"@ != "guid"@);
    assert("is_from_me"@ != "guid"@);
}

/// Every `YYYY-MM-DD` text that names a day of the Gregorian calendar parses to that day:
/// January, March, May, July, August, October and December have 31 days, April, June,
/// September and November 30, and February 29 in leap years (every fourth year, except
/// centuries not divisible by 400) and 28 otherwise. No other text parses.
pub proof fn law_calendar_days_parse(s: Seq<char>)
    ensures
        ({
            let year = digits_value(s, 0, 4);
            let month = digits_value(s, 5, 2);
            let day = digits_value(s, 8, 2);
            let leap = year % 4 == 0 && (year % 100 != 0 || year % 400 == 0);
            let last_day: int = if month == 2 {
                if leap {
                    29
                } else {
                    28
                }
            } else if month == 4 || month == 6 || month == 9 || month == 11 {
                30
            } else {
                31
            };
            &&& (is_date_shaped(s) && 1 <= month <= 12 && 1 <= day <= last_day) ==> spec_parse_date(
                s,
            ) == Some(CalendarDate { year: year as u16, month: month as u8, day: day as u8 })
            &&& !(is_date_shaped(s) && 1 <= month <= 12 && 1 <= day <= last_day)
                ==> spec_parse_date(s) is None
        }),
        forall|y: int|
            #![trigger days_in_month(y, 1)]
            {
                &&& days_in_month(y, 1) == 31 && days_in_month(y, 3) == 31 && days_in_month(y, 5)
                    == 31 && days_in_month(y, 7) == 31 && days_in_month(y, 8) == 31
                    && days_in_month(y, 10) == 31 && days_in_month(y, 12) == 31
                &&& days_in_month(y, 4) == 30 && days_in_month(y, 6) == 30 && days_in_month(y, 9)
                    == 30 && days_in_month(y, 11) == 30
                &&& days_in_month(y, 2) == if y % 4 == 0 && (y % 100 != 0 || y % 400 == 0) {
                    29int
                } else {
                    28int
                }
            },
{
    assert forall|y: int|
        #![trigger days_in_month(y, 1)]
        {
            &&& days_in_month(y, 1) == 31 && days_in_month(y, 3) == 31 && days_in_month(y, 5)
                == 31 && days_in_month(y, 7) == 31 && days_in_month(y, 8) == 31 && days_in_month(
                y,
                10,
            ) == 31 && days_in_month(y, 12) == 31
            &&& days_in_month(y, 4) == 30 && days_in_month(y, 6) == 30 && days_in_month(y, 9) == 30
                && days_in_month(y, 11) == 30
            &&& days_in_month(y, 2) == if y % 4 == 0 && (y % 100 != 0 || y % 400 == 0) {
                29int
            } else {
                28int
            }
        } by {}
}

/// The date filter of `2021-08-31`, the last day of August, is that day.
pub proof fn law_last_day_of_august_parses()
    ensures
        spec_parse_date("2021-08-31"@) == Some(CalendarDate { year: 2021, month: 8, day: 31 }),
{
    reveal_strlit("2021-08-31");
    let s = "2021-08-31"@;
    reveal_with_fuel(crate::query_context::digits_value, 5);
    assert(is_date_shaped(s));
    assert(digits_value(s, 0, 4) == 2021);
    assert(digits_value(s, 5, 2) == 8);
    assert(digits_value(s, 8, 2) == 31);
}

/// The legacy converter choice: an image converter is found unless neither `sips` nor
/// `magick` is installed, and it is ImageMagick when only `magick` is; an audio converter
/// is found unless neither `afconvert` nor `ffmpeg` is; a video converter exactly when
/// `ffmpeg` is installed. The converter chosen is always an installed program.
pub proof fn law_legacy_converter_choice(installed: Seq<Seq<char>>)
    ensures
        legacy::ImageConverter::spec_determine(installed) is None <==> !installed.contains("sips"@)
            && !installed.contains("magick"@),
        installed.contains("magick"@) && !installed.contains("sips"@)
            ==> legacy::ImageConverter::spec_determine(installed) == Some(
            legacy::ImageConverter::Imagemagick,
        ),
        installed.contains("sips"@) ==> legacy::ImageConverter::spec_determine(installed) == Some(
            legacy::ImageConverter::Sips,
        ),
        legacy::AudioConverter::spec_determine(installed) is None <==> !installed.contains(
            "afconvert"@,
        ) && !installed.contains("ffmpeg"@),
        installed.contains("ffmpeg"@) && !installed.contains("afconvert"@)
            ==> legacy::AudioConverter::spec_determine(installed) == Some(
            legacy::AudioConverter::Ffmpeg,
        ),
        legacy::VideoConverter::spec_determine(installed) is None <==> !installed.contains(
            "ffmpeg"@,
        ),
        AudioConverter::spec_determine(installed) is None <==> !installed.contains("afconvert"@)
            && !installed.contains("ffmpeg"@),
        installed.contains("magick"@) && !installed.contains("sips"@)
            ==> ImageConverter::spec_determine(installed) == Some(ImageConverter::Imagemagick),
        VideoConverter::spec_determine(installed) is None <==> !installed.contains("ffmpeg"@),
{
}

/// The subtypes that convert are exactly those listed in the documentation: stickers
/// convert `heic` and `HEIC` to PNG and `heics`, `HEICS` and `heic-sequence` to GIF;
/// attachments convert `heic` and `HEIC` images, `caf`, `CAF` and `x-caf; codecs=opus`
/// audio, and `mov`, `MOV` and `quicktime` video.
pub proof fn law_converted_subtypes(subtype: Seq<char>)
    ensures
        sticker_gif_subtypes().contains(subtype) <==> (subtype == "heics"@ || subtype == "HEICS"@
            || subtype == "heic-sequence"@),
        sticker_png_subtypes().contains(subtype) <==> (subtype == "heic"@ || subtype == "HEIC"@),
        heic_subtypes().contains(subtype) <==> (subtype == "heic"@ || subtype == "HEIC"@),
        caf_subtypes().contains(subtype) <==> (subtype == "caf"@ || subtype == "CAF"@ || subtype
            == "x-caf; codecs=opus"@),
        mov_subtypes().contains(subtype) <==> (subtype == "mov"@ || subtype == "MOV"@ || subtype
            == "quicktime"@),
{
    lemma_contains_three(sticker_gif_subtypes(), subtype);
    lemma_contains_two(sticker_png_subtypes(), subtype);
    lemma_contains_two(heic_subtypes(), subtype);
    lemma_contains_three(caf_subtypes(), subtype);
    lemma_contains_three(mov_subtypes(), subtype);
}

proof fn lemma_contains_two(s: Seq<Seq<char>>, x: Seq<char>)
    requires
        s.len() == 2,
    ensures
        s.contains(x) <==> (x == s[0] || x == s[1]),
{
    if x == s[0] {
        assert(s[0] == x);
    }
    if x == s[1] {
        assert(s[1] == x);
    }
}

proof fn lemma_contains_three(s: Seq<Seq<char>>, x: Seq<char>)
    requires
        s.len() == 3,
    ensures
        s.contains(x) <==> (x == s[0] || x == s[1] || x == s[2]),
{
    if x == s[0] {
        assert(s[0] == x);
    }
    if x == s[1] {
        assert(s[1] == x);
    }
    if x == s[2] {
        assert(s[2] == x);
    }
}

/// Whether `t` holds no `:`.
pub open spec fn has_no_colon(t: Seq<char>) -> bool {
    forall|j: int| 0 <= j < t.len() ==> t[j] != ':'
}

/// What a balloon bundle identifier names: an identifier without `:` names itself; one
/// with a `:` names the piece after its second `:`, up to the next `:` or the end; and
/// one with a single `:` names nothing.
pub proof fn law_balloon_bundle_id_pieces(s: Seq<char>)
    ensures
        has_no_colon(s) ==> spec_balloon_bundle_id(s) == Some(s),
        spec_balloon_bundle_id(s) is Some && !has_no_colon(s) ==> exists|
            a: Seq<char>,
            b: Seq<char>,
            rest: Seq<char>,
        |
            #![trigger a + seq![':'] + b + seq![':'] + spec_balloon_bundle_id(s)->0 + rest]
            s == a + seq![':'] + b + seq![':'] + spec_balloon_bundle_id(s)->0 + rest
                && has_no_colon(a) && has_no_colon(b) && has_no_colon(spec_balloon_bundle_id(s)->0)
                && (rest.len() == 0 || rest[0] == ':'),
        spec_balloon_bundle_id(s) is None ==> exists|a: Seq<char>, b: Seq<char>|
            #![trigger a + seq![':'] + b]
            s == a + seq![':'] + b && has_no_colon(a) && has_no_colon(b),
{
    let c = ':';
    lemma_find_from_bounds(s, c, 0);
    lemma_split_from_nonempty(s, c, 0);
    let f1 = find_from(s, c, 0);
    let parts = split(s, c);
    if f1 == s.len() {
        assert(s.subrange(0, s.len() as int) =~= s);
        assert(has_no_colon(s));
    } else {
        lemma_find_from_bounds(s, c, f1 + 1);
        lemma_split_from_nonempty(s, c, f1 + 1);
        let f2 = find_from(s, c, f1 + 1);
        let a = s.subrange(0, f1);
        let b = s.subrange(f1 + 1, f2);
        assert(has_no_colon(a));
        assert(has_no_colon(b));
        assert(!has_no_colon(s)) by {
            assert(s[f1] == c);
        }
        if f2 == s.len() {
            assert(parts.len() == 2);
            assert(s =~= a + seq![':'] + b);
        } else {
            lemma_find_from_bounds(s, c, f2 + 1);
            lemma_split_from_nonempty(s, c, f2 + 1);
            let f3 = find_from(s, c, f2 + 1);
            let r = s.subrange(f2 + 1, f3);
            let rest = s.subrange(f3, s.len() as int);
            let rest1 = split_from(s, c, f1 + 1);
            let rest2 = split_from(s, c, f2 + 1);
            assert(parts[1] == rest1[0]);
            assert(parts[2] == rest1[1]);
            assert(rest1[1] == rest2[0]);
            assert(parts.len() >= 3);
            assert(spec_balloon_bundle_id(s) == Some(r));
            assert(has_no_colon(r));
            assert(s =~= a + seq![':'] + b + seq![':'] + r + rest);
            assert(rest.len() == 0 || rest[0] == ':');
            assert(s == a + seq![':'] + b + seq![':'] + spec_balloon_bundle_id(s)->0 + rest);
        }
    }
}

/// Each metadata field is read after the last component that names it: the position
/// found names the field, no later component among the first `n` does, and no
/// position is found exactly when none of them names it. The field's value is the
/// component right after that position.
pub proof fn law_metadata_reads_after_the_last_key(
    cs: Seq<ComponentKind>,
    key: Seq<char>,
    n: int,
)
    requires
        0 <= n <= cs.len(),
    ensures
        last_key_before(cs, key, n) matches Some(i) ==> {
            &&& 0 <= i < n
            &&& (cs[i] matches ComponentKind::NsString(k) && k@ == key)
            &&& forall|j: int| i < j < n ==> !(#[trigger] is_key(cs[j], key))
        },
        last_key_before(cs, key, n) is None <==> forall|j: int|
            0 <= j < n ==> !(#[trigger] is_key(cs[j], key)),
        last_key_before(cs, key, n) matches Some(i) ==> text_after_key(cs, key, n) == match cs[i
            + 1] {
            ComponentKind::NsString(t) => Some(t),
            _ => None,
        },
    decreases n,
{
    if n > 0 {
        law_metadata_reads_after_the_last_key(cs, key, n - 1);
    }
}

/// The digits of a date are read in decimal, most significant first.
pub proof fn law_date_digits_are_decimal(s: Seq<char>, from: int)
    ensures
        digits_value(s, from, 2) == 10 * ((s[from] as int) - ('0' as int)) + ((s[from + 1] as int)
            - ('0' as int)),
        digits_value(s, from, 4) == 1000 * ((s[from] as int) - ('0' as int)) + 100 * ((s[from
            + 1] as int) - ('0' as int)) + 10 * ((s[from + 2] as int) - ('0' as int)) + ((s[from
            + 3] as int) - ('0' as int)),
{
    reveal_with_fuel(crate::query_context::digits_value, 5);
}

} // verus!
