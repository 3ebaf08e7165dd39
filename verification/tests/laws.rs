use imessage_exporter::attachment_manager::AttachmentManagerMode;
use imessage_exporter::backup::{backup_password, ios_database_file_id};
use imessage_exporter::bundle_id::parse_balloon_bundle_id;
use imessage_exporter::compatibility::converters::audio::audio_output_type;
use imessage_exporter::compatibility::converters::image::image_output_type;
use imessage_exporter::compatibility::converters::video::video_output_type;
use imessage_exporter::compatibility::models::{AudioConverter, Converter, ImageConverter};
use imessage_exporter::converters::convert::sticker_output_type;
use imessage_exporter::export_type::ExportType;
use imessage_exporter::media_type::MediaType;
use imessage_exporter::options::{
    CliArgs, Environment, ExportDirState, Options, DEFAULT_PATH_IOS,
};
use imessage_exporter::platform::Platform;
use imessage_exporter::query_context::parse_date;
use imessage_exporter::text::NameSet;

fn env() -> Environment {
    Environment {
        default_db_path: "/Users/me/Library/Messages/chat.db".to_string(),
        home: "/Users/me".to_string(),
        detected_platform: Ok(Platform::iOS),
        attachment_root_exists: true,
        export_dir: ExportDirState::Entries(vec!["html".to_string()]),
    }
}

#[test]
fn parsing_a_bundle_id_twice_changes_nothing() {
    let raw = "com.apple.messages.MSMessageExtensionBalloonPlugin:0000000000:com.apple.SafetyMonitorApp.SafetyMonitorMessages";
    let once = parse_balloon_bundle_id(Some(raw));
    assert_eq!(once, Some("com.apple.SafetyMonitorApp.SafetyMonitorMessages"));
    assert_eq!(parse_balloon_bundle_id(once), once);
    let plain = parse_balloon_bundle_id(Some("com.apple.Handwriting.HandwritingProvider"));
    assert_eq!(parse_balloon_bundle_id(plain), plain);
}

#[test]
fn cli_names_read_back() {
    for t in [ExportType::Html, ExportType::Txt] {
        assert_eq!(ExportType::from_cli(t.to_str()), Some(t));
    }
    for p in [Platform::macOS, Platform::iOS] {
        assert_eq!(Platform::from_cli(p.to_str()), Some(p));
    }
    for m in [
        AttachmentManagerMode::Clone,
        AttachmentManagerMode::Basic,
        AttachmentManagerMode::Full,
        AttachmentManagerMode::Disabled,
    ] {
        assert_eq!(AttachmentManagerMode::from_cli(m.to_str()), Some(m));
    }
}

#[test]
fn cli_names_ignore_ascii_case() {
    assert_eq!(ExportType::from_cli("TxT"), Some(ExportType::Txt));
    assert_eq!(Platform::from_cli("IOS"), Some(Platform::iOS));
    assert_eq!(Platform::from_cli("MacOS"), Some(Platform::macOS));
    assert_eq!(AttachmentManagerMode::from_cli("FULL"), Some(AttachmentManagerMode::Full));
    assert_eq!(Platform::from_cli("iPad"), None);
    assert_eq!(ExportType::from_cli("pdf"), None);
}

#[test]
fn the_chosen_converter_is_installed() {
    let installed = NameSet::new(vec!["magick".to_string(), "ffmpeg".to_string()]);
    let image = ImageConverter::determine(&installed).unwrap();
    assert!(installed.contains(image.name()));
    let audio = AudioConverter::determine(&installed).unwrap();
    assert!(installed.contains(audio.name()));
}

#[test]
fn converted_files_are_not_converted_again() {
    assert_eq!(image_output_type(&MediaType::Image("jpeg")), None);
    assert_eq!(audio_output_type(&MediaType::Audio("mp4")), None);
    assert_eq!(video_output_type(&MediaType::Video("mp4")), None);
    assert_eq!(sticker_output_type(&MediaType::Image("png")), None);
    assert_eq!(sticker_output_type(&MediaType::Image("gif")), None);
}

#[test]
fn parsed_dates_exist() {
    let date = parse_date("2016-02-29").unwrap();
    assert_eq!((date.year, date.month, date.day), (2016, 2, 29));
    assert_eq!(parse_date("2015-02-29"), None);
}

#[test]
fn valid_options_are_consistent() {
    let args = CliArgs {
        export_type: Some("txt".to_string()),
        cleartext_password: Some("secret".to_string()),
        attachment_root: Some("/attachments".to_string()),
        custom_name: Some("Name".to_string()),
        ..Default::default()
    };
    let options = Options::from_args(&args, &env()).unwrap();
    assert_eq!(options.platform, Platform::iOS);
    assert_eq!(options.export_type, Some(ExportType::Txt));
    assert!(!options.use_caller_id);
    assert!(!options.diagnostic);
    assert_eq!(backup_password(&options), Some(&"secret".to_string()));

    let diagnostics = CliArgs { diagnostic: true, ..Default::default() };
    let options = Options::from_args(&diagnostics, &env()).unwrap();
    assert_eq!(options.export_type, None);
    assert_eq!(options.attachment_manager, AttachmentManagerMode::Disabled);
    assert_eq!(options.export_path, "/Users/me/imessage_export");
    assert_eq!(backup_password(&options), None);
}

#[test]
fn the_backup_database_id_drops_the_directory() {
    assert_eq!(ios_database_file_id(), "3d0d7e5fb2ce288813306e4d4636395e047a3d28");
    assert_eq!(&DEFAULT_PATH_IOS[3..], ios_database_file_id());
}
