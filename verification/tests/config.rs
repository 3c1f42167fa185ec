use memspark::config::{
    app_data_dir, default_config_path, default_developer_log_dir, default_developer_log_dir_string,
    default_report_history_dir, default_report_history_dir_string, default_report_path,
    developer_log_dir, expand_env_path, init_config, load_config_or_default, report_history_dir,
    ui_settings_path, AppConfig, DataPath, InitAction, PathRoot, Surroundings,
};
use memspark::MemSparkError;

#[test]
fn memory_optimization_is_the_only_mode_by_default() {
    let config = AppConfig::default();

    assert_eq!(config.mode.optimization.min_working_set_mb, 10);
    assert!(config.mode.optimization.require_admin);
}

#[test]
fn default_configuration_keeps_reports_and_switches_cleanups_off() {
    let config = AppConfig::default();
    assert!(config.report.save_last_report);
    assert_eq!(config.report.last_report_path, "%APPDATA%\\MemSpark\\last_report.json");
    assert_eq!(config.report.history_report_dir, default_report_history_dir_string());
    assert_eq!(config.report.developer_log_dir, default_developer_log_dir_string());
    assert_eq!(default_report_history_dir_string(), "%APPDATA%\\MemSpark\\history");
    assert_eq!(default_developer_log_dir_string(), "%APPDATA%\\MemSpark\\logs");
    assert!(!config.advanced_cleanup.enable_standby_list_cleanup);
    assert!(!config.advanced_cleanup.enable_system_working_set_cleanup);
    assert!(!config.advanced_cleanup.enable_modified_page_list_cleanup);
    assert!(config.advanced_cleanup.require_admin_for_system_cleanup);
    assert_eq!(config.policy().max_rounds, 5);
}

fn below(path: &DataPath) -> Vec<&str> {
    path.components.iter().map(|c| c.as_str()).collect()
}

#[test]
fn own_files_lie_below_the_application_directory() {
    let set = Surroundings { has_app_data: true, has_current_dir: true };
    assert!(matches!(app_data_dir(set).root, PathRoot::AppData));
    assert_eq!(below(&app_data_dir(set)), ["MemSpark"]);
    assert_eq!(below(&default_config_path(set)), ["MemSpark", "config.toml"]);
    assert_eq!(below(&default_report_path(set)), ["MemSpark", "last_report.json"]);
    assert_eq!(below(&default_report_history_dir(set)), ["MemSpark", "history"]);
    assert_eq!(below(&default_developer_log_dir(set)), ["MemSpark", "logs"]);
    assert_eq!(below(&ui_settings_path(set)), ["MemSpark", "ui_settings.toml"]);

    let unset = Surroundings { has_app_data: false, has_current_dir: true };
    assert!(matches!(app_data_dir(unset).root, PathRoot::CurrentDirectory));
    assert_eq!(below(&app_data_dir(unset)), [".appdata", "MemSpark"]);

    let lost = Surroundings { has_app_data: false, has_current_dir: false };
    assert!(matches!(app_data_dir(lost).root, PathRoot::Here));
}

#[test]
fn variables_are_put_into_paths() {
    assert_eq!(
        expand_env_path("%APPDATA%\\MemSpark\\x", Some("C:\\Users\\me")),
        "C:\\Users\\me\\MemSpark\\x"
    );
    assert_eq!(expand_env_path("%APPDATA%/a/%APPDATA%", None), "./a/.");
    // A path without a variable stays as it is.
    assert_eq!(expand_env_path("D:\\reports", Some("ignored")), "D:\\reports");
    assert_eq!(expand_env_path("%APPDATA", Some("ignored")), "%APPDATA");
}

#[test]
fn blank_directories_fall_back_to_the_own_directory() {
    let around = Surroundings { has_app_data: true, has_current_dir: true };
    let mut config = AppConfig::default();
    config.report.history_report_dir = "  ".to_owned();
    config.report.developer_log_dir = " %APPDATA%\\l ".to_owned();
    let history = report_history_dir(&config, Some("R"), around);
    assert_eq!(below(&history), ["MemSpark", "history"]);
    let logs = developer_log_dir(&config, Some("R"), around);
    match logs.root {
        PathRoot::Literal(path) => assert_eq!(path, "R\\l"),
        other => panic!("{other:?}"),
    }
    config.report.history_report_dir = "H".to_owned();
    config.report.developer_log_dir = "".to_owned();
    assert!(matches!(report_history_dir(&config, None, around).root, PathRoot::Literal(p) if p == "H"));
    assert_eq!(below(&developer_log_dir(&config, None, around)), ["MemSpark", "logs"]);
}

#[test]
fn loading_takes_the_file_or_the_default() {
    assert!(load_config_or_default(None).unwrap().report.save_last_report);
    let mut read = AppConfig::default();
    read.report.save_last_report = false;
    assert!(!load_config_or_default(Some(Ok(read))).unwrap().report.save_last_report);
    let error = load_config_or_default(Some(Err(MemSparkError::TomlDe("bad".to_owned()))));
    assert_eq!(error.unwrap_err().to_text(), "TOML parse error: bad");
}

#[test]
fn an_existing_configuration_is_only_overwritten_by_force() {
    assert!(matches!(init_config(true, false), InitAction::Keep));
    for (there, force) in [(true, true), (false, false), (false, true)] {
        match init_config(there, force) {
            InitAction::Write(config) => assert!(config.report.save_last_report),
            InitAction::Keep => panic!("must be written"),
        }
    }
}

#[test]
fn errors_are_shown_with_their_kind() {
    let cases = [
        (MemSparkError::Io("a".to_owned()), "I/O error: a"),
        (MemSparkError::TomlDe("b".to_owned()), "TOML parse error: b"),
        (MemSparkError::TomlSer("c".to_owned()), "TOML serialize error: c"),
        (MemSparkError::Json("d".to_owned()), "JSON error: d"),
        (MemSparkError::WinApi("e".to_owned()), "Windows API error: e"),
        (MemSparkError::Config("f".to_owned()), "configuration error: f"),
        (MemSparkError::Unsupported("g".to_owned()), "unsupported on this platform: g"),
    ];
    for (error, shown) in cases {
        assert_eq!(error.to_text(), shown);
    }
}
