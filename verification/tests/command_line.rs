use memspark::arguments::{
    child_exit_code, child_request, elevated_output_name, elevated_trim_arguments,
    elevated_window_arguments, join_windows_args, needs_elevation, quote_windows_arg, ChildRequest,
};
use memspark::cli::{
    config_init_text, config_show_text, elevated_outcome, save_report_artifacts, status,
    Announcement, Artifact,
};
use memspark::{MemSparkError, MemorySnapshot};

#[test]
fn arguments_are_quoted() {
    assert_eq!(quote_windows_arg(""), "\"\"");
    assert_eq!(quote_windows_arg("plain\\path\\"), "plain\\path\\");
    assert_eq!(quote_windows_arg("a b"), "\"a b\"");
    assert_eq!(quote_windows_arg("a b\\"), "\"a b\\\\\"");
    assert_eq!(quote_windows_arg("a\"b"), "\"a\\\"b\"");
    assert_eq!(quote_windows_arg("a\\\"b"), "\"a\\\\\\\"b\"");
    assert_eq!(quote_windows_arg("a\\b c"), "\"a\\b c\"");
    assert_eq!(quote_windows_arg("全角\u{3000}空格"), "\"全角\u{3000}空格\"");
}

/// Splits a command line as Windows programs do.
fn split(line: &str) -> Vec<String> {
    let mut args = Vec::new();
    let mut current: Option<String> = None;
    let mut quoted = false;
    let mut backslashes = 0;
    for c in line.chars() {
        if c == '\\' {
            backslashes += 1;
            current.get_or_insert_with(String::new);
            continue;
        }
        if c == '"' {
            let arg = current.get_or_insert_with(String::new);
            arg.push_str(&"\\".repeat(backslashes / 2));
            if backslashes % 2 == 1 {
                arg.push('"');
            } else {
                quoted = !quoted;
            }
            backslashes = 0;
            continue;
        }
        if let Some(arg) = &mut current {
            arg.push_str(&"\\".repeat(backslashes));
        }
        backslashes = 0;
        if (c == ' ' || c == '\t') && !quoted {
            args.extend(current.take());
        } else {
            current.get_or_insert_with(String::new).push(c);
        }
    }
    if let Some(mut arg) = current {
        arg.push_str(&"\\".repeat(backslashes));
        args.push(arg);
    }
    args
}

#[test]
fn a_command_line_keeps_its_arguments() {
    let args: Vec<String> = ["", "a", "b c", "d\\\\", "e f\\", "g\"h", "i\\\"j k", "\"", "\\"]
        .iter()
        .map(|arg| arg.to_string())
        .collect();
    assert_eq!(split(&join_windows_args(&args)), args);
    assert_eq!(join_windows_args(&Vec::new()), "");
    assert_eq!(join_windows_args(&vec!["a".to_owned(), "b c".to_owned()]), "a \"b c\"");
}

#[test]
fn the_application_starts_itself_again() {
    assert_eq!(
        elevated_trim_arguments(Some("c.toml"), true, "out"),
        [
            "--config",
            "c.toml",
            "trim",
            "--verbose",
            "--elevated-child",
            "--elevated-output",
            "out"
        ]
    );
    assert_eq!(
        elevated_trim_arguments(None, false, "out"),
        ["trim", "--elevated-child", "--elevated-output", "out"]
    );
    assert_eq!(child_request(&elevated_window_arguments("out")), ChildRequest::Report(2));
    assert_eq!(elevated_output_name("ui", 12, 345), "memspark-ui-12-345.json");
    assert!(needs_elevation(false, false, false));
    assert!(!needs_elevation(true, false, false));
    assert!(!needs_elevation(false, true, false));
    assert!(!needs_elevation(false, false, true));
}

fn request(args: &[&str]) -> ChildRequest {
    child_request(&args.iter().map(|arg| arg.to_string()).collect())
}

#[test]
fn a_child_reads_its_arguments() {
    assert_eq!(request(&[]), ChildRequest::NotAChild);
    assert_eq!(request(&["--elevated-output", "x"]), ChildRequest::NotAChild);
    assert_eq!(request(&["--elevated-child"]), ChildRequest::NoOutput);
    assert_eq!(request(&["--elevated-child", "--elevated-output"]), ChildRequest::NoOutput);
    assert_eq!(request(&["--elevated-output", "--elevated-child"]), ChildRequest::NotAChild);
    assert_eq!(
        request(&["--elevated-output", "x", "y", "--elevated-child"]),
        ChildRequest::Report(1)
    );
    assert_eq!(
        request(&["--elevated-output", "x", "--elevated-child", "--elevated-output", "z"]),
        ChildRequest::Report(4)
    );
    assert_eq!(
        request(&["--elevated-child", "--elevated-output", "x", "--elevated-output"]),
        ChildRequest::NoOutput
    );
    assert_eq!(child_exit_code(ChildRequest::NotAChild, true), None);
    assert_eq!(child_exit_code(ChildRequest::NoOutput, true), Some(2));
    assert_eq!(child_exit_code(ChildRequest::Report(0), true), Some(0));
    assert_eq!(child_exit_code(ChildRequest::Report(0), false), Some(1));
}

#[test]
fn the_command_line_prints() {
    let gib = 1u64 << 30;
    let snapshot = MemorySnapshot {
        total_physical: 8 * gib,
        available_physical: 2 * gib,
        memory_load_percent: 75,
        commit_total: 3 * gib,
        commit_limit: 9 * gib,
        system_cache: gib,
        process_count: 40,
        page_file_total: 0,
        page_file_available: 0,
        virtual_total: 0,
        virtual_available: 0,
    };
    assert_eq!(
        status(&snapshot, 39),
        "MemSpark Status\nPhysical Used: 6.0 GB / 8.0 GB (75.0%)\nAvailable:     2.0 GB\nSystem Cache:  1.0 GB\nCommit:        3.0 GB / 9.0 GB\nProcesses:     40 (enumerated: 39)\n"
    );
    assert!(elevated_outcome(0).is_ok());
    assert_eq!(
        elevated_outcome(3).unwrap_err().to_text(),
        "Windows API error: elevated memory optimization exited with code 3"
    );
    assert_eq!(config_init_text("p", true, true), "Config ready: p\n");
    assert_eq!(
        config_init_text("p", false, true),
        "Config ready: p\nExisting config was kept. Use --force to overwrite with defaults.\n"
    );
    assert_eq!(config_show_text("t", None), "t\n");
    assert_eq!(config_show_text("t", Some("p")), "t\n# Default path: p\n");
}

#[test]
fn saving_is_announced() {
    let saved = Ok(Some("p".to_owned()));
    assert!(matches!(
        save_report_artifacts(Artifact::Report, &saved),
        Announcement::Output(line) if line == "Report saved: p"
    ));
    assert!(matches!(
        save_report_artifacts(Artifact::DeveloperLog, &saved),
        Announcement::Output(line) if line == "Developer log saved: p"
    ));
    assert!(matches!(save_report_artifacts(Artifact::Report, &Ok(None)), Announcement::Nothing));
    let failed = Err(MemSparkError::Io("full".to_owned()));
    assert!(matches!(
        save_report_artifacts(Artifact::Report, &failed),
        Announcement::Warning(line)
            if line == "warning: report was generated but could not be saved: I/O error: full"
    ));
    assert!(matches!(
        save_report_artifacts(Artifact::DeveloperLog, &failed),
        Announcement::Warning(line)
            if line == "warning: developer log could not be saved: I/O error: full"
    ));
}
