//! Represents CLI options and validation logic.

use vstd::prelude::*;

use crate::attachment_manager::{spec_attachment_manager_from_cli, AttachmentManagerMode};
use crate::export_type::{spec_export_type_from_cli, ExportType};
use crate::platform::{spec_platform_from_cli, Platform};
use crate::query_context::{spec_parse_date, QueryContext};
use crate::text::{str_eq, strings};

verus! {

/// Default export directory name
pub const DEFAULT_OUTPUT_DIR: &'static str = "imessage_export";

/// Location of the messages database inside an iOS backup
pub const DEFAULT_PATH_IOS: &'static str = "3d/3d0d7e5fb2ce288813306e4d4636395e047a3d28";

// CLI Arg Names
pub const OPTION_DB_PATH: &'static str = "db-path";
pub const OPTION_ATTACHMENT_ROOT: &'static str = "attachment-root";
pub const OPTION_ATTACHMENT_MANAGER: &'static str = "copy-method";
pub const OPTION_DIAGNOSTIC: &'static str = "diagnostics";
pub const OPTION_EXPORT_TYPE: &'static str = "format";
pub const OPTION_EXPORT_PATH: &'static str = "export-path";
pub const OPTION_START_DATE: &'static str = "start-date";
pub const OPTION_END_DATE: &'static str = "end-date";
pub const OPTION_DISABLE_LAZY_LOADING: &'static str = "no-lazy";
pub const OPTION_CUSTOM_NAME: &'static str = "custom-name";
pub const OPTION_PLATFORM: &'static str = "platform";
pub const OPTION_BYPASS_FREE_SPACE_CHECK: &'static str = "ignore-disk-warning";
pub const OPTION_USE_CALLER_ID: &'static str = "use-caller-id";
pub const OPTION_CONVERSATION_FILTER: &'static str = "conversation-filter";
pub const OPTION_CLEARTEXT_PASSWORD: &'static str = "cleartext-password";

// Other CLI Text
pub const SUPPORTED_FILE_TYPES: &'static str = "txt, html";
pub const SUPPORTED_PLATFORMS: &'static str = "macOS, iOS";
pub const SUPPORTED_ATTACHMENT_MANAGER_MODES: &'static str = "clone, basic, full, disabled";
pub const ABOUT: &'static str =
    "The `imessage-exporter` binary exports iMessage data to\n`txt` or `html` formats. It can also run diagnostics\nto find problems with the iMessage database.";

/// The values given on the command line, one field per option
#[derive(Debug, Default)]
pub struct CliArgs {
    pub db_path: Option<String>,
    pub attachment_root: Option<String>,
    pub attachment_manager: Option<String>,
    pub diagnostic: bool,
    pub export_type: Option<String>,
    pub export_path: Option<String>,
    pub start_date: Option<String>,
    pub end_date: Option<String>,
    pub no_lazy: bool,
    pub custom_name: Option<String>,
    pub use_caller_id: bool,
    pub platform: Option<String>,
    pub ignore_disk_space: bool,
    pub conversation_filter: Option<String>,
    pub cleartext_password: Option<String>,
}

/// What is found on disk at the resolved export path
#[derive(Debug)]
pub enum ExportDirState {
    /// Nothing exists at the path
    Missing,
    /// Something exists at the path, but it cannot be listed as a directory; holds the reason
    Unreadable(String),
    /// The path is a directory; holds the extensions of its entries that have one
    Entries(Vec<String>),
}

/// Facts about the system that option validation depends on
#[derive(Debug)]
pub struct Environment {
    /// The default location of the messages database
    pub default_db_path: String,
    /// The user's home directory
    pub home: String,
    /// The platform detected from the resolved database path, or why it could not be detected
    pub detected_platform: Result<Platform, String>,
    /// Whether the attachment root given on the command line exists
    pub attachment_root_exists: bool,
    /// What is on disk at the resolved export path
    pub export_dir: ExportDirState,
}

/// Why a set of command line options is invalid
#[derive(Debug, PartialEq, Eq)]
pub enum OptionsError {
    /// The export type is not one of the supported types
    InvalidExportType(String),
    /// The option is only allowed together with an export type
    RequiresExportType(&'static str),
    /// The option is not allowed while running diagnostics
    DiagnosticsConflict(&'static str),
    /// A custom name and the caller ID were both requested
    CustomNameWithCallerId,
    /// A date filter is not a valid `YYYY-MM-DD` date
    InvalidDate(String),
    /// The platform is not one of the supported platforms
    InvalidPlatform(String),
    /// The platform was not given and could not be detected
    PlatformUndetermined(String),
    /// A backup password was given for a source that is not an iOS backup
    PasswordRequiresIos,
    /// The custom attachment root does not exist
    MissingAttachmentRoot(String),
    /// The attachment copy method is not one of the supported modes
    InvalidAttachmentManager(String),
    /// The export path already holds data of the chosen export type
    ExistingExportData { specified: bool, path: String, export_type: ExportType },
    /// The export path exists but is not a directory that can be read
    InvalidExportDirectory { specified: bool, path: String, reason: String },
}

/// The mathematical content of an [`OptionsError`]
pub enum OptionsErrorView {
    InvalidExportType(Seq<char>),
    RequiresExportType(Seq<char>),
    DiagnosticsConflict(Seq<char>),
    CustomNameWithCallerId,
    InvalidDate(Seq<char>),
    InvalidPlatform(Seq<char>),
    PlatformUndetermined(Seq<char>),
    PasswordRequiresIos,
    MissingAttachmentRoot(Seq<char>),
    InvalidAttachmentManager(Seq<char>),
    ExistingExportData { specified: bool, path: Seq<char>, export_type: ExportType },
    InvalidExportDirectory { specified: bool, path: Seq<char>, reason: Seq<char> },
}

impl View for OptionsError {
    type V = OptionsErrorView;

    open spec fn view(&self) -> OptionsErrorView {
        match self {
            OptionsError::InvalidExportType(s) => OptionsErrorView::InvalidExportType(s@),
            OptionsError::RequiresExportType(s) => OptionsErrorView::RequiresExportType(s@),
            OptionsError::DiagnosticsConflict(s) => OptionsErrorView::DiagnosticsConflict(s@),
            OptionsError::CustomNameWithCallerId => OptionsErrorView::CustomNameWithCallerId,
            OptionsError::InvalidDate(s) => OptionsErrorView::InvalidDate(s@),
            OptionsError::InvalidPlatform(s) => OptionsErrorView::InvalidPlatform(s@),
            OptionsError::PlatformUndetermined(s) => OptionsErrorView::PlatformUndetermined(s@),
            OptionsError::PasswordRequiresIos => OptionsErrorView::PasswordRequiresIos,
            OptionsError::MissingAttachmentRoot(s) => OptionsErrorView::MissingAttachmentRoot(s@),
            OptionsError::InvalidAttachmentManager(s) => OptionsErrorView::InvalidAttachmentManager(
                s@,
            ),
            OptionsError::ExistingExportData { specified, path, export_type } =>
                OptionsErrorView::ExistingExportData {
                specified: *specified,
                path: path@,
                export_type: *export_type,
            },
            OptionsError::InvalidExportDirectory { specified, path, reason } =>
                OptionsErrorView::InvalidExportDirectory {
                specified: *specified,
                path: path@,
                reason: reason@,
            },
        }
    }
}

/// The characters of an optional string.
pub open spec fn opt_view(o: Option<String>) -> Option<Seq<char>> {
    match o {
        Some(s) => Some(s@),
        None => None,
    }
}

/// The export path: the one given, or `imessage_export` in the home directory.
pub open spec fn spec_resolve_export_path(export_path: Option<Seq<char>>, home: Seq<char>) -> Seq<
    char,
> {
    match export_path {
        Some(p) => p,
        None => home + "/"@ + DEFAULT_OUTPUT_DIR@,
    }
}

/// Why the export path cannot be used for an export of `export_type`, if it cannot:
/// it exists but cannot be listed, or it already holds files with that type's extension.
pub open spec fn spec_export_path_error(
    export_path: Option<Seq<char>>,
    export_type: Option<ExportType>,
    home: Seq<char>,
    export_dir: ExportDirState,
) -> Option<OptionsErrorView> {
    let path = spec_resolve_export_path(export_path, home);
    let specified = export_path is Some;
    match export_type {
        None => None,
        Some(t) => match export_dir {
            ExportDirState::Missing => None,
            ExportDirState::Unreadable(why) => Some(
                OptionsErrorView::InvalidExportDirectory { specified, path, reason: why@ },
            ),
            ExportDirState::Entries(extensions) => if strings(extensions@).contains(
                t.spec_to_str(),
            ) {
                Some(OptionsErrorView::ExistingExportData { specified, path, export_type: t })
            } else {
                None
            },
        },
    }
}

/// The first option that needs `--format` among those set, in the order they are checked.
pub open spec fn format_dependency(a: CliArgs) -> Option<Seq<char>> {
    if a.attachment_manager is Some {
        Some(OPTION_ATTACHMENT_MANAGER@)
    } else if a.export_path is Some {
        Some(OPTION_EXPORT_PATH@)
    } else if a.no_lazy {
        Some(OPTION_DISABLE_LAZY_LOADING@)
    } else if a.start_date is Some {
        Some(OPTION_START_DATE@)
    } else if a.end_date is Some {
        Some(OPTION_END_DATE@)
    } else if a.custom_name is Some {
        Some(OPTION_CUSTOM_NAME@)
    } else if a.use_caller_id {
        Some(OPTION_USE_CALLER_ID@)
    } else if a.conversation_filter is Some {
        Some(OPTION_CONVERSATION_FILTER@)
    } else {
        None
    }
}

/// The first option set alongside `--diagnostics` that diagnostics disallow,
/// in the order they are checked.
pub open spec fn diagnostic_conflict(a: CliArgs) -> Option<Seq<char>> {
    if !a.diagnostic {
        None
    } else if a.attachment_manager is Some {
        Some(OPTION_ATTACHMENT_MANAGER@)
    } else if a.export_path is Some {
        Some(OPTION_EXPORT_PATH@)
    } else if a.no_lazy {
        Some(OPTION_DISABLE_LAZY_LOADING@)
    } else if a.export_type is Some {
        Some(OPTION_EXPORT_TYPE@)
    } else if a.start_date is Some {
        Some(OPTION_START_DATE@)
    } else if a.end_date is Some {
        Some(OPTION_END_DATE@)
    } else if a.use_caller_id {
        Some(OPTION_USE_CALLER_ID@)
    } else if a.custom_name is Some {
        Some(OPTION_CUSTOM_NAME@)
    } else if a.conversation_filter is Some {
        Some(OPTION_CONVERSATION_FILTER@)
    } else {
        None
    }
}

/// The export type requested, when it is valid.
pub open spec fn spec_export_type(a: CliArgs) -> Option<ExportType> {
    match a.export_type {
        Some(t) => spec_export_type_from_cli(t@),
        None => None,
    }
}

/// The platform in use: the one given, or else the detected one.
pub open spec fn spec_platform(a: CliArgs, env: Environment) -> Option<Platform> {
    match a.platform {
        Some(p) => spec_platform_from_cli(p@),
        None => match env.detected_platform {
            Ok(p) => Some(p),
            Err(_) => None,
        },
    }
}

/// The attachment copy method in use: the one given, or else the default.
pub open spec fn spec_attachment_manager(a: CliArgs) -> Option<AttachmentManagerMode> {
    match a.attachment_manager {
        Some(m) => spec_attachment_manager_from_cli(m@),
        None => Some(AttachmentManagerMode::Disabled),
    }
}

/// The database path in use: the one given, or else the default.
pub open spec fn spec_db_path(a: CliArgs, env: Environment) -> Seq<char> {
    match a.db_path {
        Some(p) => p@,
        None => env.default_db_path@,
    }
}

/// Why the options are invalid: the first rule they break, in the order the rules are checked.
pub open spec fn spec_options_error(a: CliArgs, env: Environment) -> Option<OptionsErrorView> {
    if a.export_type is Some && spec_export_type(a) is None {
        Some(OptionsErrorView::InvalidExportType(a.export_type->0@))
    } else if a.export_type is None && format_dependency(a) is Some {
        Some(OptionsErrorView::RequiresExportType(format_dependency(a)->0))
    } else if diagnostic_conflict(a) is Some {
        Some(OptionsErrorView::DiagnosticsConflict(diagnostic_conflict(a)->0))
    } else if a.custom_name is Some && a.use_caller_id {
        Some(OptionsErrorView::CustomNameWithCallerId)
    } else if a.start_date is Some && spec_parse_date(a.start_date->0@) is None {
        Some(OptionsErrorView::InvalidDate(a.start_date->0@))
    } else if a.end_date is Some && spec_parse_date(a.end_date->0@) is None {
        Some(OptionsErrorView::InvalidDate(a.end_date->0@))
    } else if a.platform is Some && spec_platform(a, env) is None {
        Some(OptionsErrorView::InvalidPlatform(a.platform->0@))
    } else if a.platform is None && env.detected_platform is Err {
        Some(OptionsErrorView::PlatformUndetermined(env.detected_platform->Err_0@))
    } else if a.cleartext_password is Some && spec_platform(a, env) != Some(Platform::iOS) {
        Some(OptionsErrorView::PasswordRequiresIos)
    } else if a.attachment_root is Some && !env.attachment_root_exists {
        Some(OptionsErrorView::MissingAttachmentRoot(a.attachment_root->0@))
    } else if spec_attachment_manager(a) is None {
        Some(OptionsErrorView::InvalidAttachmentManager(a.attachment_manager->0@))
    } else {
        spec_export_path_error(opt_view(a.export_path), spec_export_type(a), env.home@, env.export_dir)
    }
}

#[derive(Debug, PartialEq, Eq)]
pub struct Options {
    /// Path to database file
    pub db_path: String,
    /// Custom path to attachments
    pub attachment_root: Option<String>,
    /// The attachment manager type used to copy files
    pub attachment_manager: AttachmentManagerMode,
    /// If true, emit diagnostic information to stdout
    pub diagnostic: bool,
    /// The type of file we are exporting data to
    pub export_type: Option<ExportType>,
    /// Where the app will save exported data
    pub export_path: String,
    /// Query context describing SQL query filters
    pub query_context: QueryContext,
    /// If true, do not include `loading="lazy"` in HTML exports
    pub no_lazy: bool,
    /// Custom name for database owner in output
    pub custom_name: Option<String>,
    /// If true, use the database owner's caller ID instead of "Me"
    pub use_caller_id: bool,
    /// The database source's platform
    pub platform: Platform,
    /// If true, disable the free disk space check
    pub ignore_disk_space: bool,
    /// An optional filter for conversation participants
    pub conversation_filter: Option<String>,
    /// An optional password for encrypted backups
    pub cleartext_password: Option<String>,
}

/// Whether `o` holds what valid options `a` in environment `env` describe.
pub open spec fn options_built(o: Options, a: CliArgs, env: Environment) -> bool {
    &&& o.db_path@ == spec_db_path(a, env)
    &&& opt_view(o.attachment_root) == opt_view(a.attachment_root)
    &&& Some(o.attachment_manager) == spec_attachment_manager(a)
    &&& o.diagnostic == a.diagnostic
    &&& o.export_type == spec_export_type(a)
    &&& o.export_path@ == spec_resolve_export_path(opt_view(a.export_path), env.home@)
    &&& o.query_context.start == match a.start_date {
        Some(d) => spec_parse_date(d@),
        None => None,
    }
    &&& o.query_context.end == match a.end_date {
        Some(d) => spec_parse_date(d@),
        None => None,
    }
    &&& o.no_lazy == a.no_lazy
    &&& opt_view(o.custom_name) == opt_view(a.custom_name)
    &&& o.use_caller_id == a.use_caller_id
    &&& Some(o.platform) == spec_platform(a, env)
    &&& o.ignore_disk_space == a.ignore_disk_space
    &&& opt_view(o.conversation_filter) == opt_view(a.conversation_filter)
    &&& opt_view(o.cleartext_password) == opt_view(a.cleartext_password)
}

/// `base` with the relative path `rel` appended, as `PathBuf::join` does on Unix:
/// a `/` goes between them unless `base` is empty or already ends with one.
pub open spec fn spec_join(base: Seq<char>, rel: Seq<char>) -> Seq<char> {
    if base.len() == 0 || base.last() == '/' {
        base + rel
    } else {
        base + seq!['/'] + rel
    }
}

/// Append the relative path `rel` to `base`
pub fn join_path(base: &str, rel: &str) -> (res: String)
    ensures
        res@ == spec_join(base@, rel@),
{
    let n = base.unicode_len();
    let mut path = String::from_str(base);
    if n > 0 && base.get_char(n - 1) != '/' {
        path.append("/");
        proof {
            reveal_strlit("/");
        }
        assert("/"@ =~= seq!['/']);
    }
    path.append(rel);
    path
}

fn clone_opt(o: &Option<String>) -> (res: Option<String>)
    ensures
        opt_view(res) == opt_view(*o),
{
    match o {
        Some(s) => Some(s.clone()),
        None => None,
    }
}

/// The export path: the one given, or `imessage_export` in the home directory
pub fn resolve_export_path(export_path: Option<&String>, home: &str) -> (res: String)
    ensures
        res@ == spec_resolve_export_path(
            match export_path {
                Some(p) => Some(p@),
                None => None,
            },
            home@,
        ),
{
    match export_path {
        Some(p) => p.clone(),
        None => {
            let mut path = String::from_str(home);
            path.append("/");
            path.append(DEFAULT_OUTPUT_DIR);
            path
        },
    }
}

/// The database path: the one given, or else the default one
pub fn resolve_db_path(db_path: Option<&String>, default_db_path: &str) -> (res: String)
    ensures
        res@ == match db_path {
            Some(p) => p@,
            None => default_db_path@,
        },
{
    match db_path {
        Some(p) => p.clone(),
        None => String::from_str(default_db_path),
    }
}

/// Whether `extensions` holds `ext`.
fn has_extension(extensions: &Vec<String>, ext: &str) -> (res: bool)
    ensures
        res == strings(extensions@).contains(ext@),
{
    let mut i: usize = 0;
    while i < extensions.len()
        invariant
            i <= extensions@.len(),
            forall|j: int| 0 <= j < i ==> strings(extensions@)[j] != ext@,
        decreases extensions@.len() - i,
    {
        if str_eq(extensions[i].as_str(), ext) {
            assert(strings(extensions@)[i as int] == ext@);
            return true;
        }
        i = i + 1;
    }
    false
}

/// Ensure export path is empty or does not contain files of the existing export type
///
/// `home` is the user's home directory and `export_dir` what is on disk at the resolved path.
pub fn validate_path(
    export_path: Option<&String>,
    export_type: &Option<&ExportType>,
    home: &str,
    export_dir: &ExportDirState,
) -> (res: Result<String, OptionsError>)
    ensures
        ({
            let given = match export_path {
                Some(p) => Some(p@),
                None => None,
            };
            let chosen = match export_type {
                Some(t) => Some(**t),
                None => None,
            };
            match spec_export_path_error(given, chosen, home@, *export_dir) {
                None => res matches Ok(p) && p@ == spec_resolve_export_path(given, home@),
                Some(e) => res matches Err(err) && err@ == e,
            }
        }),
{
    // Build a path from the user-provided data or the default location
    let resolved_path = resolve_export_path(export_path, home);
    // If there is an export type selected, ensure we do not overwrite files of the same type
    if let Some(export_type) = export_type {
        let specified = export_path.is_some();
        match export_dir {
            ExportDirState::Missing => {},
            ExportDirState::Unreadable(why) => {
                return Err(
                    OptionsError::InvalidExportDirectory {
                        specified,
                        path: resolved_path,
                        reason: why.clone(),
                    },
                );
            },
            ExportDirState::Entries(extensions) => {
                if has_extension(extensions, export_type.to_str()) {
                    let t = match export_type {
                        ExportType::Html => ExportType::Html,
                        ExportType::Txt => ExportType::Txt,
                    };
                    return Err(
                        OptionsError::ExistingExportData {
                            specified,
                            path: resolved_path,
                            export_type: t,
                        },
                    );
                }
            },
        }
    }
    Ok(resolved_path)
}

/// The first option that needs `--format` among those set.
fn first_format_dependency(args: &CliArgs) -> (res: Option<&'static str>)
    ensures
        match (res, format_dependency(*args)) {
            (Some(r), Some(o)) => r@ == o,
            (None, None) => true,
            _ => false,
        },
{
    if args.attachment_manager.is_some() {
        Some(OPTION_ATTACHMENT_MANAGER)
    } else if args.export_path.is_some() {
        Some(OPTION_EXPORT_PATH)
    } else if args.no_lazy {
        Some(OPTION_DISABLE_LAZY_LOADING)
    } else if args.start_date.is_some() {
        Some(OPTION_START_DATE)
    } else if args.end_date.is_some() {
        Some(OPTION_END_DATE)
    } else if args.custom_name.is_some() {
        Some(OPTION_CUSTOM_NAME)
    } else if args.use_caller_id {
        Some(OPTION_USE_CALLER_ID)
    } else if args.conversation_filter.is_some() {
        Some(OPTION_CONVERSATION_FILTER)
    } else {
        None
    }
}

/// The first option set alongside `--diagnostics` that diagnostics disallow.
fn first_diagnostic_conflict(args: &CliArgs) -> (res: Option<&'static str>)
    ensures
        match (res, diagnostic_conflict(*args)) {
            (Some(r), Some(o)) => r@ == o,
            (None, None) => true,
            _ => false,
        },
{
    if !args.diagnostic {
        None
    } else if args.attachment_manager.is_some() {
        Some(OPTION_ATTACHMENT_MANAGER)
    } else if args.export_path.is_some() {
        Some(OPTION_EXPORT_PATH)
    } else if args.no_lazy {
        Some(OPTION_DISABLE_LAZY_LOADING)
    } else if args.export_type.is_some() {
        Some(OPTION_EXPORT_TYPE)
    } else if args.start_date.is_some() {
        Some(OPTION_START_DATE)
    } else if args.end_date.is_some() {
        Some(OPTION_END_DATE)
    } else if args.use_caller_id {
        Some(OPTION_USE_CALLER_ID)
    } else if args.custom_name.is_some() {
        Some(OPTION_CUSTOM_NAME)
    } else if args.conversation_filter.is_some() {
        Some(OPTION_CONVERSATION_FILTER)
    } else {
        None
    }
}

impl Options {
    /// Build and validate the options given on the command line.
    ///
    /// `env` holds what the validation needs to know of the system: the default database
    /// path, the home directory, the platform detected at the resolved database path,
    /// whether the attachment root exists, and what is on disk at the resolved export path.
    pub fn from_args(args: &CliArgs, env: &Environment) -> (res: Result<Options, OptionsError>)
        ensures
            match spec_options_error(*args, *env) {
                None => res matches Ok(o) && options_built(o, *args, *env),
                Some(e) => res matches Err(err) && err@ == e,
            },
    {
        // Build the export type
        let export_type: Option<ExportType> = match &args.export_type {
            Some(export_type_str) => match ExportType::from_cli(export_type_str.as_str()) {
                Some(t) => Some(t),
                None => {
                    return Err(OptionsError::InvalidExportType(export_type_str.clone()));
                },
            },
            None => None,
        };

        // Anything in here requires `--format`
        if args.export_type.is_none() {
            if let Some(opt) = first_format_dependency(args) {
                return Err(OptionsError::RequiresExportType(opt));
            }
        }

        // During `diagnostics`, none of these may be set
        if let Some(opt) = first_diagnostic_conflict(args) {
            return Err(OptionsError::DiagnosticsConflict(opt));
        }

        // Prevent custom_name vs. use_caller_id collision
        if args.custom_name.is_some() && args.use_caller_id {
            return Err(OptionsError::CustomNameWithCallerId);
        }

        // Build query context
        let mut query_context = QueryContext::default();
        if let Some(start) = &args.start_date {
            if query_context.set_start(start.as_str()).is_err() {
                return Err(OptionsError::InvalidDate(start.clone()));
            }
        }
        if let Some(end) = &args.end_date {
            if query_context.set_end(end.as_str()).is_err() {
                return Err(OptionsError::InvalidDate(end.clone()));
            }
        }

        let db_path = resolve_db_path(args.db_path.as_ref(), env.default_db_path.as_str());

        // Build the Platform
        let platform = match &args.platform {
            Some(platform_str) => match Platform::from_cli(platform_str.as_str()) {
                Some(p) => p,
                None => {
                    return Err(OptionsError::InvalidPlatform(platform_str.clone()));
                },
            },
            None => match &env.detected_platform {
                Ok(Platform::macOS) => Platform::macOS,
                Ok(Platform::iOS) => Platform::iOS,
                Err(why) => {
                    return Err(OptionsError::PlatformUndetermined(why.clone()));
                },
            },
        };

        // Prevent cleartext_password from being set if the source is not an iOS backup
        if args.cleartext_password.is_some() && platform != Platform::iOS {
            return Err(OptionsError::PasswordRequiresIos);
        }

        // Validate that the custom attachment root exists, if provided
        if let Some(path) = &args.attachment_root {
            if !env.attachment_root_exists {
                return Err(OptionsError::MissingAttachmentRoot(path.clone()));
            }
        }

        // Determine the attachment manager mode
        let attachment_manager = match &args.attachment_manager {
            Some(manager) => match AttachmentManagerMode::from_cli(manager.as_str()) {
                Some(m) => m,
                None => {
                    return Err(OptionsError::InvalidAttachmentManager(manager.clone()));
                },
            },
            None => AttachmentManagerMode::default(),
        };

        // Validate the provided export path
        let export_path = validate_path(
            args.export_path.as_ref(),
            &export_type.as_ref(),
            env.home.as_str(),
            &env.export_dir,
        )?;

        Ok(
            Options {
                db_path,
                attachment_root: clone_opt(&args.attachment_root),
                attachment_manager,
                diagnostic: args.diagnostic,
                export_type,
                export_path,
                query_context,
                no_lazy: args.no_lazy,
                custom_name: clone_opt(&args.custom_name),
                use_caller_id: args.use_caller_id,
                platform,
                ignore_disk_space: args.ignore_disk_space,
                conversation_filter: clone_opt(&args.conversation_filter),
                cleartext_password: clone_opt(&args.cleartext_password),
            },
        )
    }

    /// Generate a path to the database based on the currently selected platform
    pub fn get_db_path(&self) -> (res: String)
        ensures
            res@ == match self.platform {
                Platform::iOS => spec_join(self.db_path@, DEFAULT_PATH_IOS@),
                Platform::macOS => self.db_path@,
            },
    {
        match self.platform {
            Platform::iOS => join_path(self.db_path.as_str(), DEFAULT_PATH_IOS),
            Platform::macOS => self.db_path.clone(),
        }
    }

    /// Whether a custom attachment root was given although it has no effect:
    /// attachment roots only apply to macOS sources.
    pub fn attachment_root_ignored(&self) -> (res: bool)
        ensures
            res == (self.attachment_root is Some && self.platform == Platform::iOS),
    {
        self.attachment_root.is_some() && self.platform == Platform::iOS
    }
}


/// The text that `Debug` writes for a path holding `p`: the path in double quotes,
/// with quotes, backslashes and control characters escaped.
pub uninterp spec fn path_debug_text(p: Seq<char>) -> Seq<char>;

/// `Debug` formatting of a `std::path::Path` holding `p`.
#[verifier::external_body]
fn path_debug(p: &str) -> (res: String)
    ensures
        res@ == path_debug_text(p@),
{
    format!("{:?}", std::path::Path::new(p))
}

/// How an export path is named in messages: `Specified` when it was given on the
/// command line, `Default` otherwise.
pub open spec fn path_word(specified: bool) -> Seq<char> {
    if specified {
        "Specified"@
    } else {
        "Default"@
    }
}

impl OptionsErrorView {
    /// The message shown to the user for this error.
    pub open spec fn spec_message(self) -> Seq<char> {
        match self {
            OptionsErrorView::InvalidExportType(t) => t
                + " is not a valid export type! Must be one of <"@ + SUPPORTED_FILE_TYPES@ + ">"@,
            OptionsErrorView::RequiresExportType(opt) => "Option --"@ + opt
                + " is enabled, which requires --"@ + OPTION_EXPORT_TYPE@,
            OptionsErrorView::DiagnosticsConflict(opt) => "Diagnostics are enabled; `"@ + opt
                + "` is disallowed"@,
            OptionsErrorView::CustomNameWithCallerId => "--"@ + OPTION_CUSTOM_NAME@
                + " is enabled; --"@ + OPTION_USE_CALLER_ID@ + " is disallowed"@,
            OptionsErrorView::InvalidDate(d) => "Invalid date provided: "@ + d
                + "! Must be in format YYYY-MM-DD."@,
            OptionsErrorView::InvalidPlatform(p) => p
                + " is not a valid platform! Must be one of <"@ + SUPPORTED_PLATFORMS@ + ">"@,
            OptionsErrorView::PlatformUndetermined(why) => why,
            OptionsErrorView::PasswordRequiresIos => "--"@ + OPTION_CLEARTEXT_PASSWORD@
                + " is enabled; it can only be used with iOS backups."@,
            OptionsErrorView::MissingAttachmentRoot(path) => "Supplied "@ + OPTION_ATTACHMENT_ROOT@
                + " `"@ + path + "` does not exist!"@,
            OptionsErrorView::InvalidAttachmentManager(m) => m
                + " is not a valid attachment manager mode! Must be one of <"@
                + SUPPORTED_ATTACHMENT_MANAGER_MODES@ + ">"@,
            OptionsErrorView::ExistingExportData { specified, path, export_type } => path_word(
                specified,
            ) + " export path "@ + path_debug_text(path) + " contains existing \""@
                + export_type.spec_to_str() + "\" export data!"@,
            OptionsErrorView::InvalidExportDirectory { specified, path, reason } => path_word(
                specified,
            ) + " export path "@ + path_debug_text(path) + " is not a valid directory: "@ + reason,
        }
    }
}

fn path_word_text(specified: bool) -> (res: &'static str)
    ensures
        res@ == path_word(specified),
{
    if specified {
        "Specified"
    } else {
        "Default"
    }
}

impl OptionsError {
    /// The message shown to the user for this error.
    pub fn message(&self) -> (res: String)
        ensures
            res@ == self@.spec_message(),
    {
        match self {
            OptionsError::InvalidExportType(t) => {
                let mut s = t.clone();
                s.append(" is not a valid export type! Must be one of <");
                s.append(SUPPORTED_FILE_TYPES);
                s.append(">");
                s
            },
            OptionsError::RequiresExportType(opt) => {
                let mut s = String::from_str("Option --");
                s.append(opt);
                s.append(" is enabled, which requires --");
                s.append(OPTION_EXPORT_TYPE);
                s
            },
            OptionsError::DiagnosticsConflict(opt) => {
                let mut s = String::from_str("Diagnostics are enabled; `");
                s.append(opt);
                s.append("` is disallowed");
                s
            },
            OptionsError::CustomNameWithCallerId => {
                let mut s = String::from_str("--");
                s.append(OPTION_CUSTOM_NAME);
                s.append(" is enabled; --");
                s.append(OPTION_USE_CALLER_ID);
                s.append(" is disallowed");
                s
            },
            OptionsError::InvalidDate(d) => {
                let mut s = String::from_str("Invalid date provided: ");
                s.append(d.as_str());
                s.append("! Must be in format YYYY-MM-DD.");
                s
            },
            OptionsError::InvalidPlatform(p) => {
                let mut s = p.clone();
                s.append(" is not a valid platform! Must be one of <");
                s.append(SUPPORTED_PLATFORMS);
                s.append(">");
                s
            },
            OptionsError::PlatformUndetermined(why) => why.clone(),
            OptionsError::PasswordRequiresIos => {
                let mut s = String::from_str("--");
                s.append(OPTION_CLEARTEXT_PASSWORD);
                s.append(" is enabled; it can only be used with iOS backups.");
                s
            },
            OptionsError::MissingAttachmentRoot(path) => {
                let mut s = String::from_str("Supplied ");
                s.append(OPTION_ATTACHMENT_ROOT);
                s.append(" `");
                s.append(path.as_str());
                s.append("` does not exist!");
                s
            },
            OptionsError::InvalidAttachmentManager(m) => {
                let mut s = m.clone();
                s.append(" is not a valid attachment manager mode! Must be one of <");
                s.append(SUPPORTED_ATTACHMENT_MANAGER_MODES);
                s.append(">");
                s
            },
            OptionsError::ExistingExportData { specified, path, export_type } => {
                let mut s = String::from_str(path_word_text(*specified));
                s.append(" export path ");
                s.append(path_debug(path.as_str()).as_str());
                s.append(" contains existing \"");
                s.append(export_type.to_str());
                s.append("\" export data!");
                s
            },
            OptionsError::InvalidExportDirectory { specified, path, reason } => {
                let mut s = String::from_str(path_word_text(*specified));
                s.append(" export path ");
                s.append(path_debug(path.as_str()).as_str());
                s.append(" is not a valid directory: ");
                s.append(reason.as_str());
                s
            },
        }
    }
}

} // verus!
