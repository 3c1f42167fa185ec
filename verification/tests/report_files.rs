use memspark::report_files::{
    archive_existing_report, carry_out, file_extension, is_json_file, is_log_file,
    unique_developer_log_path, unique_history_path, FolderEntry, NameSearch, SaveAction, SavePlan,
    SaveReply,
};
use memspark::report_text::format_developer_log;
use memspark::{
    clear_developer_logs, clear_report_history, load_last_report, save_developer_log, save_report,
    AppConfig, CleanupEffectSummary, MemSparkError, MemorySnapshot, OptimizeMode, OptimizeReport,
};

fn sample_snapshot(available_physical: u64) -> MemorySnapshot {
    MemorySnapshot {
        total_physical: 8 * 1024 * 1024 * 1024,
        available_physical,
        memory_load_percent: 50,
        commit_total: 0,
        commit_limit: 0,
        system_cache: 0,
        process_count: 0,
        page_file_total: 0,
        page_file_available: 0,
        virtual_total: 0,
        virtual_available: 0,
    }
}

fn sample_report(timestamp_unix: u64) -> OptimizeReport {
    OptimizeReport {
        mode: OptimizeMode::MemoryOptimization,
        dry_run: false,
        timestamp_unix,
        duration_ms: 10,
        before: sample_snapshot(2 * 1024 * 1024 * 1024),
        after: sample_snapshot(4 * 1024 * 1024 * 1024),
        scanned_count: 0,
        trimmed_count: 0,
        skipped_count: 0,
        failed_count: 0,
        effect: CleanupEffectSummary::default(),
        results: Vec::new(),
    }
}

fn entry(name: &str, is_file: bool) -> FolderEntry {
    FolderEntry { name: name.to_owned(), is_file }
}

/// Finds a name that is not among `taken`.
fn search(mut search: NameSearch, taken: &[String], now: u64) -> String {
    while let Some(name) = search.candidate() {
        search.step(taken.contains(&name));
    }
    search.file_name(now)
}

/// The report that lies at one path, and the files of two directories.
struct Disk {
    last: Option<OptimizeReport>,
    history: Vec<(String, u64)>,
    logs: Vec<(String, String)>,
}

/// The step of saving that fails.
#[derive(Clone, Copy, PartialEq)]
enum Broken {
    Nothing,
    Folder,
    History,
    Copying,
    Writing,
}

fn broken(is_broken: bool) -> Result<(), MemSparkError> {
    if is_broken {
        Err(MemSparkError::Io("denied".to_owned()))
    } else {
        Ok(())
    }
}

fn try_save(
    disk: &mut Disk,
    config: &AppConfig,
    report: OptimizeReport,
    fault: Broken,
) -> (Result<bool, MemSparkError>, Vec<String>) {
    let timestamp = disk.last.as_ref().map(|last| last.timestamp_unix);
    let mut run = carry_out(save_report(config, disk.last.is_some(), timestamp, 999), 999);
    let mut report = Some(report);
    let mut actions = Vec::new();
    loop {
        let action = run.next_action();
        actions.push(format!("{action:?}"));
        let reply = match action {
            SaveAction::PrepareFolder => SaveReply::Prepared(broken(fault == Broken::Folder)),
            SaveAction::PrepareHistory => SaveReply::Prepared(broken(fault == Broken::History)),
            SaveAction::CheckName(name) => {
                SaveReply::Checked(disk.history.iter().any(|(taken, _)| *taken == name))
            }
            SaveAction::Archive(name) => {
                let copied = broken(fault == Broken::Copying);
                if copied.is_ok() {
                    disk.history.push((name, timestamp.unwrap()));
                }
                SaveReply::Archived(copied)
            }
            SaveAction::Write => {
                let written = broken(fault == Broken::Writing);
                if written.is_ok() {
                    disk.last = report.take();
                }
                SaveReply::Written(written)
            }
            SaveAction::Done => return (run.finish().unwrap(), actions),
        };
        run = run.step(reply);
    }
}

fn save(disk: &mut Disk, config: &AppConfig, report: OptimizeReport) {
    assert!(try_save(disk, config, report, Broken::Nothing).0.unwrap());
}

#[test]
fn previous_report_is_archived_before_overwrite() {
    let mut config = AppConfig::default();
    config.report.last_report_path = "%APPDATA%/root/last_report.json".to_owned();
    assert_eq!(load_last_report(&config, Some("/tmp")), "/tmp/root/last_report.json");
    let mut disk = Disk { last: None, history: Vec::new(), logs: Vec::new() };

    let first = sample_report(100);
    let second = sample_report(200);

    save(&mut disk, &config, first);
    save(&mut disk, &config, second);

    assert_eq!(disk.history, [("report-100.json".to_owned(), 100)]);
    assert_eq!(disk.last.as_ref().unwrap().timestamp_unix, 200);

    let entries: Vec<FolderEntry> =
        disk.history.iter().map(|(name, _)| entry(name, true)).collect();
    assert_eq!(clear_report_history(&entries).len(), 1);

    let second = disk.last.as_ref().unwrap();
    let log_path = search(save_developer_log(second), &[], 999);
    let log_content = format_developer_log(second, "{\n  \"timestamp_unix\": 200\n}");
    disk.logs.push((log_path, log_content));
    let (log_path, log_content) = &disk.logs[0];
    assert_eq!(log_path, "dev-report-200.log");
    assert!(log_content.contains("MemSpark Developer Log"));
    assert!(log_content.contains("[Raw Report JSON]"));
    assert!(log_content.contains("\"timestamp_unix\": 200"));
    assert_eq!(clear_developer_logs(&vec![entry(log_path, true)]).len(), 1);
}

#[test]
fn saving_asks_for_one_thing_at_a_time() {
    let config = AppConfig::default();
    let mut disk = Disk { last: None, history: Vec::new(), logs: Vec::new() };
    let (result, actions) = try_save(&mut disk, &config, sample_report(5), Broken::Nothing);
    assert!(result.unwrap());
    assert_eq!(actions, ["PrepareFolder", "Write", "Done"]);
    disk.history.push(("report-5.json".to_owned(), 5));
    let (result, actions) = try_save(&mut disk, &config, sample_report(6), Broken::Nothing);
    assert!(result.unwrap());
    assert_eq!(
        actions,
        [
            "PrepareFolder",
            "PrepareHistory",
            "CheckName(\"report-5.json\")",
            "CheckName(\"report-5-1.json\")",
            "Archive(\"report-5-1.json\")",
            "Write",
            "Done",
        ]
    );
    assert_eq!(disk.last.unwrap().timestamp_unix, 6);
}

#[test]
fn a_last_report_that_cannot_be_archived_is_not_overwritten() {
    let config = AppConfig::default();
    for fault in [Broken::Folder, Broken::History, Broken::Copying] {
        let last = Some(sample_report(100));
        let mut disk = Disk { last, history: Vec::new(), logs: Vec::new() };
        let (result, actions) = try_save(&mut disk, &config, sample_report(200), fault);
        assert!(matches!(result, Err(MemSparkError::Io(m)) if m == "denied"));
        assert!(!actions.contains(&"Write".to_owned()));
        assert_eq!(disk.last.unwrap().timestamp_unix, 100);
        assert!(disk.history.is_empty());
    }
    let mut disk = Disk { last: Some(sample_report(100)), history: Vec::new(), logs: Vec::new() };
    let (result, _) = try_save(&mut disk, &config, sample_report(200), Broken::Writing);
    assert!(result.is_err());
    assert_eq!(disk.history, [("report-100.json".to_owned(), 100)]);
}

#[test]
fn saving_ignores_replies_to_other_questions() {
    let run = carry_out(SavePlan::Write, 1);
    let run = run.step(SaveReply::Written(Ok(())));
    assert!(matches!(run.next_action(), SaveAction::PrepareFolder));
    let run = run.step(SaveReply::Archived(Err(MemSparkError::Io("x".to_owned()))));
    assert!(matches!(run.next_action(), SaveAction::PrepareFolder));
    assert!(run.finish().is_none());
    assert!(matches!(carry_out(SavePlan::Nothing, 1).finish(), Some(Ok(false))));
}

#[test]
fn reports_are_kept_only_where_that_is_configured() {
    let mut config = AppConfig::default();
    config.report.save_last_report = false;
    assert!(matches!(save_report(&config, true, Some(1), 2), SavePlan::Nothing));
    config.report.save_last_report = true;
    assert!(matches!(save_report(&config, false, None, 2), SavePlan::Write));
    assert!(matches!(
        save_report(&config, true, None, 2),
        SavePlan::ArchiveThenWrite(names) if names.candidate().as_deref() == Some("report-2.json")
    ));
    assert!(archive_existing_report(false, Some(1), 2).is_none());
    assert_eq!(
        archive_existing_report(true, Some(1), 2).unwrap().candidate().as_deref(),
        Some("report-1.json")
    );
}

#[test]
fn taken_names_are_numbered() {
    let mut names = unique_history_path(7);
    names.step(true);
    assert_eq!(names.candidate().as_deref(), Some("report-7-1.json"));
    names.step(false);
    assert_eq!(names.candidate(), None);
    assert_eq!(names.file_name(5), "report-7-1.json");
    names.step(true);
    assert_eq!(names.file_name(5), "report-7-1.json");
    let mut names = unique_developer_log_path(7);
    let mut tried = 0;
    while names.candidate().is_some() {
        names.step(true);
        tried += 1;
    }
    assert_eq!(tried, 1000);
    assert_eq!(names.file_name(5), "dev-report-7-5.log");
}

#[test]
fn extensions_are_found_as_std_finds_them() {
    for name in [
        "a.json", "a.b.JSON", ".json", "json", "a.", "..", "...", ".a.log", "x.Log", "", "报告.json",
    ] {
        let std = std::path::Path::new(name)
            .extension()
            .and_then(|extension| extension.to_str())
            .map(|extension| extension.to_owned());
        assert_eq!(file_extension(name), std, "{name}");
    }
    assert!(is_json_file("a.JsOn") && !is_json_file("a.log") && !is_json_file(".json"));
    assert!(is_log_file("a.LOG") && !is_log_file("a.log.txt"));
}

#[test]
fn only_files_of_the_kind_are_removed() {
    let entries = vec![
        entry("report-1.json", true),
        entry("report-2.json", false),
        entry("notes.txt", true),
        entry("dev-report-1.log", true),
        entry("x.JSON", true),
    ];
    assert_eq!(clear_report_history(&entries), [0, 4]);
    assert_eq!(clear_developer_logs(&entries), [3]);
}
