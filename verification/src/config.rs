//! The configuration, its defaults, and where the application keeps its files.

use crate::error::MemSparkError;
use crate::policy::ModePolicy;
use crate::text;
use vstd::prelude::*;

verus! {

/// The whole configuration.
#[derive(Debug, Clone)]
pub struct AppConfig {
    pub mode: ModeConfig,
    pub report: ReportConfig,
    pub advanced_cleanup: AdvancedCleanupConfig,
}

/// The policies of the modes.
#[derive(Debug, Clone, Copy)]
pub struct ModeConfig {
    pub optimization: ModePolicy,
}

/// Where reports and logs are kept.
#[derive(Debug, Clone)]
pub struct ReportConfig {
    pub save_last_report: bool,
    pub last_report_path: String,
    pub history_report_dir: String,
    pub developer_log_dir: String,
}

/// Which system-wide cleanups are switched on.
#[derive(Debug, Clone, Copy)]
pub struct AdvancedCleanupConfig {
    pub enable_standby_list_cleanup: bool,
    pub enable_system_working_set_cleanup: bool,
    pub enable_modified_page_list_cleanup: bool,
    pub require_admin_for_system_cleanup: bool,
}

impl AppConfig {
    /// Whether this is the configuration that holds where none was written.
    pub open spec fn is_default(self) -> bool {
        &&& self.mode.optimization == crate::policy::default_policy()
        &&& self.report.is_default()
        &&& self.advanced_cleanup.is_default()
    }

    /// The policy of the one mode.
    pub fn policy(&self) -> (r: &ModePolicy)
        ensures
            *r == self.mode.optimization,
    {
        &self.mode.optimization
    }
}

impl ReportConfig {
    /// Whether reports and logs are kept in the default places.
    pub open spec fn is_default(self) -> bool {
        &&& self.save_last_report
        &&& self.last_report_path@ == "%APPDATA%\\MemSpark\\last_report.json"@
        &&& self.history_report_dir@ == "%APPDATA%\\MemSpark\\history"@
        &&& self.developer_log_dir@ == "%APPDATA%\\MemSpark\\logs"@
    }
}

impl AdvancedCleanupConfig {
    /// Whether no system-wide cleanup is switched on, and one would need an administrator.
    pub open spec fn is_default(self) -> bool {
        &&& !self.enable_standby_list_cleanup
        &&& !self.enable_system_working_set_cleanup
        &&& !self.enable_modified_page_list_cleanup
        &&& self.require_admin_for_system_cleanup
    }
}

impl Default for AppConfig {
    fn default() -> (r: AppConfig)
        ensures
            r.is_default(),
    {
        AppConfig {
            mode: ModeConfig::default(),
            report: ReportConfig::default(),
            advanced_cleanup: AdvancedCleanupConfig::default(),
        }
    }
}

impl Default for ModeConfig {
    fn default() -> (r: ModeConfig)
        ensures
            r.optimization == crate::policy::default_policy(),
    {
        ModeConfig { optimization: ModePolicy::memory_optimization() }
    }
}

impl Default for ReportConfig {
    fn default() -> (r: ReportConfig)
        ensures
            r.is_default(),
    {
        ReportConfig {
            save_last_report: true,
            last_report_path: "%APPDATA%\\MemSpark\\last_report.json".to_owned(),
            history_report_dir: "%APPDATA%\\MemSpark\\history".to_owned(),
            developer_log_dir: "%APPDATA%\\MemSpark\\logs".to_owned(),
        }
    }
}

impl Default for AdvancedCleanupConfig {
    fn default() -> (r: AdvancedCleanupConfig)
        ensures
            r.is_default(),
    {
        AdvancedCleanupConfig {
            enable_standby_list_cleanup: false,
            enable_system_working_set_cleanup: false,
            enable_modified_page_list_cleanup: false,
            require_admin_for_system_cleanup: true,
        }
    }
}

/// The report history directory that a configuration without one gets.
pub fn default_report_history_dir_string() -> (r: String)
    ensures
        r@ == "%APPDATA%\\MemSpark\\history"@,
{
    ReportConfig::default().history_report_dir
}

/// The log directory that a configuration without one gets.
pub fn default_developer_log_dir_string() -> (r: String)
    ensures
        r@ == "%APPDATA%\\MemSpark\\logs"@,
{
    ReportConfig::default().developer_log_dir
}

// ---------------------------------------------------------------------------
// Places
// ---------------------------------------------------------------------------

/// What a path starts from.
#[derive(Debug, Clone)]
pub enum PathRoot {
    /// The directory that the `APPDATA` variable names.
    AppData,
    /// The current directory.
    CurrentDirectory,
    /// The directory `.`, when the current directory cannot be told.
    Here,
    /// A path written out.
    Literal(String),
}

/// A path: a root and the components below it.
#[derive(Debug, Clone)]
pub struct DataPath {
    pub root: PathRoot,
    pub components: Vec<String>,
}

/// What is known about the surroundings of the process.
#[derive(Debug, Clone, Copy)]
pub struct Surroundings {
    /// Whether the `APPDATA` variable is set.
    pub has_app_data: bool,
    /// Whether the current directory can be told.
    pub has_current_dir: bool,
}

impl Surroundings {
    /// The root of the application's own files.
    pub open spec fn root(self) -> PathRoot {
        if self.has_app_data {
            PathRoot::AppData
        } else if self.has_current_dir {
            PathRoot::CurrentDirectory
        } else {
            PathRoot::Here
        }
    }

    /// The components from that root down to the application's directory.
    pub open spec fn directory(self) -> Seq<Seq<char>> {
        if self.has_app_data {
            seq!["MemSpark"@]
        } else {
            seq![".appdata"@, "MemSpark"@]
        }
    }
}

impl DataPath {
    /// Whether this is the path `below` the application's own directory.
    pub open spec fn is_app_path(self, around: Surroundings, below: Seq<Seq<char>>) -> bool {
        self.root == around.root() && text::views(self.components@) == around.directory() + below
    }
}

/// The application's own directory.
pub fn app_data_dir(around: Surroundings) -> (r: DataPath)
    ensures
        r.is_app_path(around, Seq::empty()),
{
    let mut components: Vec<String> = Vec::new();
    let root: PathRoot = if around.has_app_data {
        PathRoot::AppData
    } else {
        components.push(".appdata".to_owned());
        if around.has_current_dir {
            PathRoot::CurrentDirectory
        } else {
            PathRoot::Here
        }
    };
    components.push("MemSpark".to_owned());
    assert(text::views(components@) =~= around.directory() + Seq::<Seq<char>>::empty());
    DataPath { root, components }
}

/// The path of a file in the application's own directory.
fn app_data_file(around: Surroundings, name: &str) -> (r: DataPath)
    ensures
        r.is_app_path(around, seq![name@]),
{
    let mut r: DataPath = app_data_dir(around);
    let ghost before = r.components@;
    r.components.push(name.to_owned());
    assert(text::views(r.components@) =~= text::views(before).push(name@));
    assert(text::views(r.components@) =~= around.directory() + seq![name@]);
    r
}

/// Where the configuration is kept.
pub fn default_config_path(around: Surroundings) -> (r: DataPath)
    ensures
        r.is_app_path(around, seq!["config.toml"@]),
{
    app_data_file(around, "config.toml")
}

/// Where the last report is kept.
pub fn default_report_path(around: Surroundings) -> (r: DataPath)
    ensures
        r.is_app_path(around, seq!["last_report.json"@]),
{
    app_data_file(around, "last_report.json")
}

/// Where earlier reports are kept.
pub fn default_report_history_dir(around: Surroundings) -> (r: DataPath)
    ensures
        r.is_app_path(around, seq!["history"@]),
{
    app_data_file(around, "history")
}

/// Where developer logs are kept.
pub fn default_developer_log_dir(around: Surroundings) -> (r: DataPath)
    ensures
        r.is_app_path(around, seq!["logs"@]),
{
    app_data_file(around, "logs")
}

/// Where the settings of the graphical interface are kept.
pub fn ui_settings_path(around: Surroundings) -> (r: DataPath)
    ensures
        r.is_app_path(around, seq!["ui_settings.toml"@]),
{
    app_data_file(around, "ui_settings.toml")
}

/// A path with the `APPDATA` variable put in; where it is not set, the directory `.` is.
pub open spec fn expanded(path: Seq<char>, app_data: Option<Seq<char>>) -> Seq<char> {
    text::replaced(
        path,
        "%APPDATA%"@,
        match app_data {
            Some(value) => value,
            None => "."@,
        },
    )
}

/// The view of an optional text.
pub open spec fn option_view(value: Option<&str>) -> Option<Seq<char>> {
    match value {
        Some(t) => Some(t@),
        None => None,
    }
}

/// Puts the value of the `APPDATA` variable into a path.
pub fn expand_env_path(path: &str, app_data: Option<&str>) -> (r: String)
    ensures
        r@ == expanded(path@, option_view(app_data)),
{
    proof {
        reveal_strlit("%APPDATA%");
    }
    let value: &str = match app_data {
        Some(value) => value,
        None => ".",
    };
    text::replace_text(path, "%APPDATA%", value)
}

/// The directory that a setting names: the setting itself, without surrounding white space
/// and with variables put in, or the application's own directory `name` if it is blank.
pub open spec fn is_configured_dir(
    r: DataPath,
    setting: Seq<char>,
    app_data: Option<Seq<char>>,
    around: Surroundings,
    name: Seq<char>,
) -> bool {
    if text::trimmed(setting).len() == 0 {
        r.is_app_path(around, seq![name])
    } else {
        &&& r.root matches PathRoot::Literal(path)
        &&& path@ == expanded(text::trimmed(setting), app_data)
        &&& r.components@.len() == 0
    }
}

/// The directory where earlier reports are kept.
pub fn report_history_dir(
    config: &AppConfig,
    app_data: Option<&str>,
    around: Surroundings,
) -> (r: DataPath)
    ensures
        is_configured_dir(
            r,
            config.report.history_report_dir@,
            option_view(app_data),
            around,
            "history"@,
        ),
{
    let configured: String = text::trim_text(config.report.history_report_dir.as_str());
    if configured.as_str().is_empty() {
        default_report_history_dir(around)
    } else {
        DataPath {
            root: PathRoot::Literal(expand_env_path(configured.as_str(), app_data)),
            components: Vec::new(),
        }
    }
}

/// The directory where developer logs are kept.
pub fn developer_log_dir(
    config: &AppConfig,
    app_data: Option<&str>,
    around: Surroundings,
) -> (r: DataPath)
    ensures
        is_configured_dir(
            r,
            config.report.developer_log_dir@,
            option_view(app_data),
            around,
            "logs"@,
        ),
{
    let configured: String = text::trim_text(config.report.developer_log_dir.as_str());
    if configured.as_str().is_empty() {
        default_developer_log_dir(around)
    } else {
        DataPath {
            root: PathRoot::Literal(expand_env_path(configured.as_str(), app_data)),
            components: Vec::new(),
        }
    }
}

// ---------------------------------------------------------------------------
// Loading and initializing
// ---------------------------------------------------------------------------

/// The configuration to work with: what was read from the file, or the default where there
/// is no file.
pub fn load_config_or_default(file: Option<Result<AppConfig, MemSparkError>>) -> (r: Result<
    AppConfig,
    MemSparkError,
>)
    ensures
        match file {
            Some(read) => r == read,
            None => r matches Ok(config) && config.is_default(),
        },
{
    match file {
        Some(read) => read,
        None => Ok(AppConfig::default()),
    }
}

/// What initializing the configuration does to its file.
#[derive(Debug, Clone)]
pub enum InitAction {
    /// The file stays as it is.
    Keep,
    /// The file is written with this configuration.
    Write(AppConfig),
}

/// Whether initializing leaves the file as it is.
pub open spec fn keeps_file(taken: bool, force: bool) -> bool {
    taken && !force
}

/// Decides what initializing does: an existing file is only overwritten by force.
pub fn init_config(exists: bool, force: bool) -> (r: InitAction)
    ensures
        (r is Keep) == keeps_file(exists, force),
        (r is Keep) == (exists && !force),
        r matches InitAction::Write(config) ==> config.is_default(),
{
    if exists && !force {
        InitAction::Keep
    } else {
        InitAction::Write(AppConfig::default())
    }
}

/// A path that holds no variable is used as it is written.
pub proof fn expansion_keeps_plain_paths(path: Seq<char>, app_data: Option<Seq<char>>)
    requires
        !text::contains(path, "%APPDATA%"@),
    ensures
        expanded(path, app_data) == path,
{
    let to = match app_data {
        Some(value) => value,
        None => "."@,
    };
    text::replacing_nothing(path, "%APPDATA%"@, to);
}

/// What holds where nothing is configured: working sets from 10 MiB on are trimmed in five
/// rounds with pauses of 150 milliseconds; the foreground, the system and the program itself
/// are spared, and so is the shell, but not browsers; reports are kept, in the application's
/// own directory; and no optional cleanup is switched on.
pub proof fn defaults_are_careful(config: AppConfig)
    requires
        config.is_default(),
    ensures
        ({
            let policy = config.mode.optimization;
            &&& policy.min_working_set_mb == 10
            &&& policy.skip_foreground
            &&& policy.skip_system_process
            &&& policy.skip_self
            &&& policy.skip_high_cpu
            &&& policy.high_cpu_threshold_percent == 100
            &&& policy.skip_high_io
            &&& policy.max_rounds == 5
            &&& policy.round_delay_ms == 150
            &&& policy.require_admin
            &&& policy.trim_method == crate::policy::TrimMethod::EmptyWorkingSet
            &&& !policy.allow_trim_explorer
            &&& policy.allow_trim_browser
        }),
        config.report.save_last_report,
        config.report.last_report_path@ == "%APPDATA%\\MemSpark\\last_report.json"@,
        config.report.history_report_dir@ == "%APPDATA%\\MemSpark\\history"@,
        config.report.developer_log_dir@ == "%APPDATA%\\MemSpark\\logs"@,
        !config.advanced_cleanup.enable_standby_list_cleanup,
        !config.advanced_cleanup.enable_system_working_set_cleanup,
        !config.advanced_cleanup.enable_modified_page_list_cleanup,
        config.advanced_cleanup.require_admin_for_system_cleanup,
{
}

/// A policy's floor is given in mebibytes.
pub proof fn floors_are_in_mebibytes(policy: ModePolicy)
    ensures
        policy.min_working_set_mb * 1048576 <= u64::MAX ==> policy.floor_bytes()
            == policy.min_working_set_mb * 1048576,
        policy.min_working_set_mb * 1048576 > u64::MAX ==> policy.floor_bytes() == u64::MAX,
{
}

/// The application's own files lie in `MemSpark` below the directory for application data, and
/// else in `.appdata` below the current directory, or below `.` where that cannot be told.
pub proof fn own_files_lie_in_one_directory(
    path: DataPath,
    around: Surroundings,
    below: Seq<Seq<char>>,
)
    requires
        path.is_app_path(around, below),
    ensures
        around.has_app_data ==> path.root == PathRoot::AppData && text::views(path.components@)
            == seq!["MemSpark"@] + below,
        !around.has_app_data && around.has_current_dir ==> path.root == PathRoot::CurrentDirectory,
        !around.has_app_data && !around.has_current_dir ==> path.root == PathRoot::Here,
        !around.has_app_data ==> text::views(path.components@) == seq![".appdata"@, "MemSpark"@]
            + below,
{
}

/// The variable at the begin of a path is replaced by its value, or by the directory `.` where
/// it has none; the rest of the path is gone through in the same way.
pub proof fn variables_are_put_in(rest: Seq<char>, value: Seq<char>)
    ensures
        expanded("%APPDATA%"@ + rest, Some(value)) == value + expanded(rest, Some(value)),
        expanded("%APPDATA%"@ + rest, None) == "."@ + expanded(rest, None),
        expanded(Seq::empty(), Some(value)) == Seq::<char>::empty(),
{
    reveal_strlit("%APPDATA%");
    text::replacing_goes_from_left_to_right(rest, "%APPDATA%"@, value, ' ');
    text::replacing_goes_from_left_to_right(rest, "%APPDATA%"@, "."@, ' ');
}

/// A directory that is configured is used as written, apart from white space around it and
/// with variables put in; a blank one stands for the application's own.
pub proof fn configured_directories_are_used(
    r: DataPath,
    setting: Seq<char>,
    app_data: Option<Seq<char>>,
    around: Surroundings,
    name: Seq<char>,
)
    requires
        is_configured_dir(r, setting, app_data, around, name),
    ensures
        text::trimmed(setting).len() == 0 ==> text::views(r.components@).last() == name && !(
        r.root is Literal),
        text::trimmed(setting).len() > 0 ==> (r.root matches PathRoot::Literal(path) && path@
            == expanded(text::trimmed(setting), app_data)) && r.components@.len() == 0,
{
    if text::trimmed(setting).len() == 0 {
        assert((around.directory() + seq![name]).last() == name);
    }
}

/// An existing file survives initializing unless force is used.
pub proof fn force_is_needed_to_overwrite(taken: bool, force: bool)
    ensures
        taken && !force ==> keeps_file(taken, force),
        force ==> !keeps_file(taken, force),
        !taken ==> !keeps_file(taken, force),
{
}

} // verus!
