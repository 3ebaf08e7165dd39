use imessage_exporter::attachment_manager::AttachmentManagerMode;
use imessage_exporter::export_type::ExportType;
use imessage_exporter::options::{
    validate_path, CliArgs, Environment, ExportDirState, Options, OptionsError,
    DEFAULT_OUTPUT_DIR, OPTION_EXPORT_PATH,
};
use imessage_exporter::platform::Platform;
use imessage_exporter::query_context::{CalendarDate, QueryContext};

const HOME: &str = "/home/tester";

fn default_db_path() -> String {
    format!("{HOME}/Library/Messages/chat.db")
}

fn env() -> Environment {
    Environment {
        default_db_path: default_db_path(),
        home: HOME.to_string(),
        detected_platform: Ok(Platform::default()),
        attachment_root_exists: false,
        export_dir: ExportDirState::Missing,
    }
}

fn default_export_path() -> String {
    validate_path(None, &None, HOME, &ExportDirState::Missing).unwrap()
}

fn expected_base() -> Options {
    Options {
        db_path: default_db_path(),
        attachment_root: None,
        attachment_manager: AttachmentManagerMode::Disabled,
        diagnostic: false,
        export_type: None,
        export_path: default_export_path(),
        query_context: QueryContext::default(),
        no_lazy: false,
        custom_name: None,
        use_caller_id: false,
        platform: Platform::default(),
        ignore_disk_space: false,
        conversation_filter: None,
        cleartext_password: None,
    }
}

fn some(s: &str) -> Option<String> {
    Some(s.to_string())
}

// `imessage-exporter -d`
#[test]
fn can_build_option_diagnostic_flag() {
    let args = CliArgs { diagnostic: true, ..Default::default() };
    let actual = Options::from_args(&args, &env()).unwrap();
    let expected = Options { diagnostic: true, ..expected_base() };
    assert_eq!(actual, expected);
}

// `imessage-exporter -d -f txt`
#[test]
fn cant_build_option_diagnostic_flag_with_export_type() {
    let args = CliArgs { diagnostic: true, export_type: some("txt"), ..Default::default() };
    assert!(Options::from_args(&args, &env()).is_err());
}

// `imessage-exporter -d -o ~/test`
#[test]
fn cant_build_option_diagnostic_flag_with_export_path() {
    let args = CliArgs { diagnostic: true, export_path: some("~/test"), ..Default::default() };
    assert!(Options::from_args(&args, &env()).is_err());
}

// `imessage-exporter -d -c basic`
#[test]
fn cant_build_option_diagnostic_flag_with_attachment_manager() {
    let args =
        CliArgs { diagnostic: true, attachment_manager: some("basic"), ..Default::default() };
    assert!(Options::from_args(&args, &env()).is_err());
}

// `imessage-exporter -d -s 2020-01-01`
#[test]
fn cant_build_option_diagnostic_flag_with_start_date() {
    let args = CliArgs { diagnostic: true, start_date: some("2020-01-01"), ..Default::default() };
    assert!(Options::from_args(&args, &env()).is_err());
}

// `imessage-exporter -d -e 2020-01-01`
#[test]
fn cant_build_option_diagnostic_flag_with_end() {
    let args = CliArgs { diagnostic: true, end_date: some("2020-01-01"), ..Default::default() };
    assert!(Options::from_args(&args, &env()).is_err());
}

// `imessage-exporter -d -i`
#[test]
fn cant_build_option_diagnostic_flag_with_caller_id() {
    let args = CliArgs { diagnostic: true, use_caller_id: true, ..Default::default() };
    assert!(Options::from_args(&args, &env()).is_err());
}

// `imessage-exporter -f html -o /tmp`
#[test]
fn can_build_option_export_html() {
    let args = CliArgs { export_type: some("html"), export_path: some("/tmp"), ..Default::default() };
    let environment = Environment { export_dir: ExportDirState::Entries(vec![]), ..env() };
    let actual = Options::from_args(&args, &environment).unwrap();
    let tmp_dir = String::from("/tmp");
    let expected = Options {
        export_type: Some(ExportType::Html),
        export_path: validate_path(Some(&tmp_dir), &None, HOME, &ExportDirState::Entries(vec![]))
            .unwrap(),
        ..expected_base()
    };
    assert_eq!(actual, expected);
}

// `imessage-exporter -f txt -l`
#[test]
fn can_build_option_export_txt_no_lazy() {
    let args = CliArgs { export_type: some("txt"), no_lazy: true, ..Default::default() };
    let actual = Options::from_args(&args, &env()).unwrap();
    let expected =
        Options { export_type: Some(ExportType::Txt), no_lazy: true, ..expected_base() };
    assert_eq!(actual, expected);
}

// `imessage-exporter -c clone`
#[test]
fn cant_build_option_attachment_manager_no_export_type() {
    let args = CliArgs { attachment_manager: some("clone"), ..Default::default() };
    assert!(Options::from_args(&args, &env()).is_err());
}

// `imessage-exporter -o ~/test`
#[test]
fn cant_build_option_export_path_no_export_type() {
    let args = CliArgs { export_path: some("~/test"), ..Default::default() };
    assert!(Options::from_args(&args, &env()).is_err());
}

// `imessage-exporter -s 2020-01-01`
#[test]
fn cant_build_option_start_date_path_no_export_type() {
    let args = CliArgs { start_date: some("2020-01-01"), ..Default::default() };
    assert!(Options::from_args(&args, &env()).is_err());
}

// `imessage-exporter -e 2020-01-01`
#[test]
fn cant_build_option_end_date_path_no_export_type() {
    let args = CliArgs { end_date: some("2020-01-01"), ..Default::default() };
    assert!(Options::from_args(&args, &env()).is_err());
}

// `imessage-exporter -f html -e 2020-32-32`
#[test]
fn cant_build_option_invalid_date() {
    let args =
        CliArgs { export_type: some("html"), end_date: some("2020-32-32"), ..Default::default() };
    assert!(Options::from_args(&args, &env()).is_err());
}

// `imessage-exporter -a iPad`
#[test]
fn cant_build_option_invalid_platform() {
    let args = CliArgs { platform: some("iPad"), ..Default::default() };
    assert!(Options::from_args(&args, &env()).is_err());
}

// `imessage-exporter -a ios -f txt`
#[test]
fn can_build_option_valid_platform() {
    let args = CliArgs { platform: some("ios"), export_type: some("txt"), ..Default::default() };
    let actual = Options::from_args(&args, &env()).unwrap();
    let expected =
        Options { export_type: Some(ExportType::Txt), platform: Platform::iOS, ..expected_base() };
    assert_eq!(actual, expected);
}

// `imessage-exporter -a ios -f txt -x password`
#[test]
fn can_build_option_ios_password() {
    let args = CliArgs {
        platform: some("ios"),
        export_type: some("txt"),
        cleartext_password: some("password"),
        ..Default::default()
    };
    let actual = Options::from_args(&args, &env()).unwrap();
    let expected = Options {
        export_type: Some(ExportType::Txt),
        platform: Platform::iOS,
        cleartext_password: Some("password".to_string()),
        ..expected_base()
    };
    assert_eq!(actual, expected);
}

// `imessage-exporter -a macos -f txt -x password`
#[test]
fn cant_build_option_macos_password() {
    let args = CliArgs {
        platform: some("macos"),
        export_type: some("txt"),
        cleartext_password: some("password"),
        ..Default::default()
    };
    assert!(Options::from_args(&args, &env()).is_err());
}

// `imessage-exporter -f pdf`
#[test]
fn cant_build_option_invalid_export_type() {
    let args = CliArgs { export_type: some("pdf"), ..Default::default() };
    assert!(Options::from_args(&args, &env()).is_err());
}

// `imessage-exporter -f txt -m Name`
#[test]
fn can_build_option_custom_name() {
    let args = CliArgs { export_type: some("txt"), custom_name: some("Name"), ..Default::default() };
    let actual = Options::from_args(&args, &env()).unwrap();
    let expected = Options {
        export_type: Some(ExportType::Txt),
        custom_name: Some("Name".to_string()),
        ..expected_base()
    };
    assert_eq!(actual, expected);
}

// `imessage-exporter -f txt -i`
#[test]
fn can_build_option_caller_id() {
    let args = CliArgs { export_type: some("txt"), use_caller_id: true, ..Default::default() };
    let actual = Options::from_args(&args, &env()).unwrap();
    let expected =
        Options { export_type: Some(ExportType::Txt), use_caller_id: true, ..expected_base() };
    assert_eq!(actual, expected);
}

// `imessage-exporter -t steve@apple.com -f txt`
#[test]
fn can_build_option_contact_filter() {
    let args = CliArgs {
        conversation_filter: some("steve@apple.com"),
        export_type: some("txt"),
        ..Default::default()
    };
    let actual = Options::from_args(&args, &env()).unwrap();
    let expected = Options {
        export_type: Some(ExportType::Txt),
        conversation_filter: Some(String::from("steve@apple.com")),
        ..expected_base()
    };
    assert_eq!(actual, expected);
}

// `imessage-exporter -f txt -c full`
#[test]
fn can_build_option_full() {
    let args =
        CliArgs { export_type: some("txt"), attachment_manager: some("full"), ..Default::default() };
    let actual = Options::from_args(&args, &env()).unwrap();
    let expected = Options {
        export_type: Some(ExportType::Txt),
        attachment_manager: AttachmentManagerMode::Full,
        ..expected_base()
    };
    assert_eq!(actual, expected);
}

// `imessage-exporter -f txt -c clone`
#[test]
fn can_build_option_clone() {
    let args = CliArgs {
        export_type: some("txt"),
        attachment_manager: some("clone"),
        ..Default::default()
    };
    let actual = Options::from_args(&args, &env()).unwrap();
    let expected = Options {
        export_type: Some(ExportType::Txt),
        attachment_manager: AttachmentManagerMode::Clone,
        ..expected_base()
    };
    assert_eq!(actual, expected);
}

// `imessage-exporter -f txt -m Name -i`
#[test]
fn cant_build_option_custom_name_and_caller_id() {
    let args = CliArgs {
        export_type: some("txt"),
        custom_name: some("Name"),
        use_caller_id: true,
        ..Default::default()
    };
    assert!(Options::from_args(&args, &env()).is_err());
}

// `imessage-exporter -i`
#[test]
fn cant_build_option_caller_id_no_export() {
    let args = CliArgs { use_caller_id: true, ..Default::default() };
    assert!(Options::from_args(&args, &env()).is_err());
}

// `imessage-exporter -m Name`
#[test]
fn cant_build_option_custom_name_no_export() {
    let args = CliArgs { custom_name: some("Name"), ..Default::default() };
    assert!(Options::from_args(&args, &env()).is_err());
}

// `imessage-exporter -t steve@apple.com`
#[test]
fn cant_build_option_contact_filter_no_export() {
    let args = CliArgs { conversation_filter: some("steve@apple.com"), ..Default::default() };
    assert!(Options::from_args(&args, &env()).is_err());
}

// `imessage-exporter -l`
#[test]
fn cant_build_option_no_lazy_without_format() {
    let args = CliArgs { no_lazy: true, ..Default::default() };
    assert!(Options::from_args(&args, &env()).is_err());
}

// `imessage-exporter -d -l`
#[test]
fn cant_build_option_no_lazy_with_diagnostics() {
    let args = CliArgs { diagnostic: true, no_lazy: true, ..Default::default() };
    assert!(Options::from_args(&args, &env()).is_err());
}

// `imessage-exporter -f txt -b`
#[test]
fn can_build_option_ignore_disk_space_flag() {
    let args = CliArgs { export_type: some("txt"), ignore_disk_space: true, ..Default::default() };
    let actual = Options::from_args(&args, &env()).unwrap();
    let expected =
        Options { export_type: Some(ExportType::Txt), ignore_disk_space: true, ..expected_base() };
    assert_eq!(actual, expected);
}

// `imessage-exporter -r /does/not/exist`
#[test]
fn cant_build_option_invalid_attachment_root() {
    let args = CliArgs { attachment_root: some("/does/not/exist"), ..Default::default() };
    assert!(Options::from_args(&args, &env()).is_err());
}

// `/tmp` holds no `txt` file when the path is validated.
#[test]
fn can_validate_empty() {
    let tmp = String::from("/tmp");
    let export_path = Some(&tmp);
    let export_type = Some(ExportType::Txt);
    let result =
        validate_path(export_path, &export_type.as_ref(), HOME, &ExportDirState::Entries(vec![]));
    assert_eq!(result.unwrap(), String::from("/tmp"));
}

// `/tmp` holds an `html` file when the path is validated for a `txt` export.
#[test]
fn can_validate_different_type() {
    let tmp = String::from("/tmp");
    let export_path = Some(&tmp);
    let export_type = Some(ExportType::Txt);
    let dir = ExportDirState::Entries(vec!["html".to_string()]);
    let result = validate_path(export_path, &export_type.as_ref(), HOME, &dir);
    assert_eq!(result.unwrap(), String::from("/tmp"));
}

// The `txt` file is only created after the path is validated.
#[test]
fn can_validate_same_type() {
    let tmp = String::from("/tmp");
    let export_path = Some(&tmp);
    let export_type = Some(ExportType::Txt);
    let result =
        validate_path(export_path, &export_type.as_ref(), HOME, &ExportDirState::Entries(vec![]));
    assert_eq!(result.unwrap(), String::from("/tmp"));
}

#[test]
fn can_validate_none() {
    let export_path = None;
    let export_type = None;
    let result = validate_path(export_path, &export_type, HOME, &ExportDirState::Missing);
    assert_eq!(result.unwrap(), format!("{}/{DEFAULT_OUTPUT_DIR}", HOME));
}

#[test]
fn cant_validate_existing_export_data() {
    let tmp = String::from("/tmp");
    let export_type = Some(ExportType::Txt);
    let dir = ExportDirState::Entries(vec!["html".to_string(), "txt".to_string()]);
    let result = validate_path(Some(&tmp), &export_type.as_ref(), HOME, &dir);
    assert_eq!(
        result,
        Err(OptionsError::ExistingExportData {
            specified: true,
            path: "/tmp".to_string(),
            export_type: ExportType::Txt
        })
    );
}

#[test]
fn cant_validate_unreadable_default_path() {
    let export_type = Some(ExportType::Html);
    let dir = ExportDirState::Unreadable("Not a directory".to_string());
    let result = validate_path(None, &export_type.as_ref(), HOME, &dir);
    assert_eq!(
        result,
        Err(OptionsError::InvalidExportDirectory {
            specified: false,
            path: format!("{HOME}/imessage_export"),
            reason: "Not a directory".to_string()
        })
    );
}

#[test]
fn existing_data_is_ignored_without_export_type() {
    let dir = ExportDirState::Entries(vec!["txt".to_string()]);
    assert_eq!(validate_path(None, &None, HOME, &dir), Ok(format!("{HOME}/imessage_export")));
}

#[test]
fn first_rule_broken_is_reported() {
    let args = CliArgs { diagnostic: true, export_path: some("~/test"), ..Default::default() };
    assert_eq!(
        Options::from_args(&args, &env()),
        Err(OptionsError::RequiresExportType(OPTION_EXPORT_PATH))
    );
    let args = CliArgs { diagnostic: true, export_type: some("txt"), ..Default::default() };
    assert_eq!(
        Options::from_args(&args, &env()),
        Err(OptionsError::DiagnosticsConflict("format"))
    );
    let args = CliArgs { export_type: some("pdf"), no_lazy: true, ..Default::default() };
    assert_eq!(
        Options::from_args(&args, &env()),
        Err(OptionsError::InvalidExportType("pdf".to_string()))
    );
}

#[test]
fn option_errors_carry_their_inputs() {
    let args = CliArgs { export_type: some("txt"), start_date: some("2021-02-29"), ..Default::default() };
    assert_eq!(
        Options::from_args(&args, &env()),
        Err(OptionsError::InvalidDate("2021-02-29".to_string()))
    );
    let args = CliArgs { export_type: some("txt"), attachment_manager: some("copy"), ..Default::default() };
    assert_eq!(
        Options::from_args(&args, &env()),
        Err(OptionsError::InvalidAttachmentManager("copy".to_string()))
    );
    let args = CliArgs { export_type: some("txt"), ..Default::default() };
    let environment = Environment { detected_platform: Err("no database".to_string()), ..env() };
    assert_eq!(
        Options::from_args(&args, &environment),
        Err(OptionsError::PlatformUndetermined("no database".to_string()))
    );
    let args = CliArgs { export_type: some("txt"), cleartext_password: some("pw"), ..Default::default() };
    assert_eq!(Options::from_args(&args, &env()), Err(OptionsError::PasswordRequiresIos));
    let args = CliArgs { export_type: some("txt"), attachment_root: some("/nowhere"), ..Default::default() };
    assert_eq!(
        Options::from_args(&args, &env()),
        Err(OptionsError::MissingAttachmentRoot("/nowhere".to_string()))
    );
    let args = CliArgs { export_type: some("txt"), custom_name: some("Me"), use_caller_id: true, ..Default::default() };
    assert_eq!(Options::from_args(&args, &env()), Err(OptionsError::CustomNameWithCallerId));
}

#[test]
fn options_hold_dates_paths_and_case_insensitive_names() {
    let args = CliArgs {
        export_type: some("HTML"),
        db_path: some("/backups/phone"),
        platform: some("iOS"),
        start_date: some("2020-02-29"),
        end_date: some("2020-12-31"),
        attachment_root: some("/attachments"),
        ..Default::default()
    };
    let environment = Environment { attachment_root_exists: true, ..env() };
    let options = Options::from_args(&args, &environment).unwrap();
    assert_eq!(options.export_type, Some(ExportType::Html));
    assert_eq!(options.platform, Platform::iOS);
    assert_eq!(options.db_path, "/backups/phone");
    assert_eq!(
        options.query_context.start,
        Some(CalendarDate { year: 2020, month: 2, day: 29 })
    );
    assert_eq!(
        options.query_context.end,
        Some(CalendarDate { year: 2020, month: 12, day: 31 })
    );
    assert_eq!(
        options.get_db_path(),
        "/backups/phone/3d/3d0d7e5fb2ce288813306e4d4636395e047a3d28"
    );
    assert!(options.attachment_root_ignored());
}

#[test]
fn db_path_join() {
    let mut options = expected_base();
    options.db_path = "/backups/phone/".to_string();
    options.platform = Platform::iOS;
    assert_eq!(
        options.get_db_path(),
        "/backups/phone/3d/3d0d7e5fb2ce288813306e4d4636395e047a3d28"
    );
    options.platform = Platform::macOS;
    assert_eq!(options.get_db_path(), "/backups/phone/");
    assert!(!options.attachment_root_ignored());
}

#[test]
fn option_errors_have_readable_messages() {
    assert_eq!(
        OptionsError::InvalidExportType("pdf".to_string()).message(),
        "pdf is not a valid export type! Must be one of <txt, html>"
    );
    assert_eq!(
        OptionsError::RequiresExportType("no-lazy").message(),
        "Option --no-lazy is enabled, which requires --format"
    );
    assert_eq!(
        OptionsError::DiagnosticsConflict("format").message(),
        "Diagnostics are enabled; `format` is disallowed"
    );
    assert_eq!(
        OptionsError::CustomNameWithCallerId.message(),
        "--custom-name is enabled; --use-caller-id is disallowed"
    );
    assert_eq!(
        OptionsError::InvalidPlatform("iPad".to_string()).message(),
        "iPad is not a valid platform! Must be one of <macOS, iOS>"
    );
    assert_eq!(
        OptionsError::PasswordRequiresIos.message(),
        "--cleartext-password is enabled; it can only be used with iOS backups."
    );
    assert_eq!(
        OptionsError::MissingAttachmentRoot("/does/not/exist".to_string()).message(),
        "Supplied attachment-root `/does/not/exist` does not exist!"
    );
    assert_eq!(
        OptionsError::InvalidAttachmentManager("copy".to_string()).message(),
        "copy is not a valid attachment manager mode! Must be one of <clone, basic, full, disabled>"
    );
    assert_eq!(
        OptionsError::PlatformUndetermined("no database".to_string()).message(),
        "no database"
    );
}

#[test]
fn export_path_errors_quote_the_path() {
    let existing = OptionsError::ExistingExportData {
        specified: true,
        path: "/tmp".to_string(),
        export_type: ExportType::Txt,
    };
    assert_eq!(
        existing.message(),
        "Specified export path \"/tmp\" contains existing \"txt\" export data!"
    );
    let invalid = OptionsError::InvalidExportDirectory {
        specified: false,
        path: "/home/a \"b\"".to_string(),
        reason: "Not a directory (os error 20)".to_string(),
    };
    assert_eq!(
        invalid.message(),
        "Default export path \"/home/a \\\"b\\\"\" is not a valid directory: Not a directory (os error 20)"
    );
}
