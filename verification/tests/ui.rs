use memspark::config::{PathRoot, Surroundings};
use memspark::hardware::{
    common_memory_type, common_speed, format_capacity_gb, format_memory_hardware_summary,
    format_module_layout, format_speed_summary, memory_type_label, non_empty_field,
    parse_memory_hardware_output, parse_u32_field, parse_u64_field, MemoryHardwareInfo,
};
use memspark::settings::{
    default_ui_settings, load_settings_draft, load_ui_settings, parse_ui_language, parse_ui_theme,
    report_paths_text, save_ui_settings, ui_language_code, UiSettings,
};
use memspark::ui_messages::{
    dashboard_texts, elevated_failure, folder_dialog_script, keep_feedback_visible, UiMessage,
};
use memspark::ui_report::{
    add_save_warnings, available_change_detail_text, format_ui_report_text,
    localized_system_release_reason, report_conclusion_text, report_view_data,
    skip_reason_explanation, skip_reason_label, skip_summary_text, system_release_detail_text,
    target_status_label, top_activity_text, unavailable_report_data, ReportViewData,
};
use memspark::ui_texts::{UiLanguage, UiTexts};
use memspark::window::{open_window, Window, WindowCommand, WindowEvent};
use memspark::{
    AppConfig, CleanupEffectSummary, MemSparkError, MemorySnapshot, OptimizeMode, OptimizeReport,
    SkipReason, TrimResult, TrimStatus,
};

const MIB: u64 = 1024 * 1024;
const GIB: u64 = 1024 * MIB;

/// Words that are their own names.
fn texts(locale: UiLanguage) -> UiTexts {
    UiTexts {
        locale,
        memspark_report: "memspark_report",
        mode: "mode",
        duration: "duration",
        before: "before",
        after: "after",
        result: "result",
        processes_trimmed: "processes_trimmed",
        available_increased: "available_increased",
        processes_scanned: "processes_scanned",
        processes_skipped: "processes_skipped",
        failed: "failed",
        top_trimmed_processes: "top_trimmed_processes",
        none: "none",
        no_report_loaded: "no_report_loaded",
        no_report_available: "no_report_available",
        report_save_warning: "report_save_warning",
        will_trim: "will_trim",
        dry_run: "dry_run",
        reason: "reason",
        reason_background_large_ws: "reason_background_large_ws",
        skipped_summary: "skipped_summary",
        skipped_details: "skipped_details",
        use_verbose: "use_verbose",
        current_memory: "current_memory",
        available_memory: "available_memory",
        system_cache: "system_cache",
        commit_usage: "commit_usage",
        process_count: "process_count",
        skip_system_process: "skip_system_process",
        skip_self_process: "skip_self_process",
        skip_foreground_process: "skip_foreground_process",
        skip_system_boundary: "skip_system_boundary",
        skip_legacy_recommended_rule: "skip_legacy_recommended_rule",
        skip_legacy_user_rule: "skip_legacy_user_rule",
        skip_working_set_small: "skip_working_set_small",
        skip_access_denied: "skip_access_denied",
        skip_open_process_failed: "skip_open_process_failed",
        skip_query_failed: "skip_query_failed",
        skip_process_exited: "skip_process_exited",
        skip_high_cpu: "skip_high_cpu",
        skip_high_io: "skip_high_io",
        skip_other: "skip_other",
        unknown: "unknown",
        unknown_frequency: "unknown_frequency",
        slots_label: "slots_label",
        hardware_unavailable: "hardware_unavailable",
        report_path_last_report: "report_path_last_report",
        report_path_history_dir: "report_path_history_dir",
        report_path_developer_logs: "report_path_developer_logs",
        config_ready: "config_ready",
        config_init_failed: "config_init_failed",
        optimize_running: "optimize_running",
        optimization_started: "optimization_started",
        optimization_completed: "optimization_completed",
        optimization_failed: "optimization_failed",
        dashboard_refresh_failed: "dashboard_refresh_failed",
        ready: "ready",
        loading: "loading",
    }
}

fn english() -> UiTexts {
    texts(UiLanguage::EnUs)
}

fn chinese() -> UiTexts {
    texts(UiLanguage::ZhCn)
}

fn memory(total: u64, available: u64) -> MemorySnapshot {
    MemorySnapshot {
        total_physical: total,
        available_physical: available,
        memory_load_percent: 0,
        commit_total: 3 * GIB,
        commit_limit: 10 * GIB,
        system_cache: GIB / 2,
        process_count: 123,
        page_file_total: 0,
        page_file_available: 0,
        virtual_total: 0,
        virtual_available: 0,
    }
}

fn result(name: &str, before: u64, after: Option<u64>, status: TrimStatus) -> TrimResult {
    TrimResult {
        pid: 1,
        name: name.to_owned(),
        before_working_set: before,
        after_working_set: after,
        status,
    }
}

fn report(dry_run: bool) -> OptimizeReport {
    OptimizeReport {
        mode: OptimizeMode::MemoryOptimization,
        dry_run,
        timestamp_unix: 77,
        duration_ms: 1234,
        before: memory(16 * GIB, 2 * GIB),
        after: memory(16 * GIB, 13 * GIB),
        scanned_count: 5,
        trimmed_count: 2,
        skipped_count: 2,
        failed_count: 1,
        effect: CleanupEffectSummary::default(),
        results: vec![
            result("small.exe", 40 * MIB, Some(30 * MIB), TrimStatus::Trimmed),
            result("large.exe", 900 * MIB, None, TrimStatus::Trimmed),
            result("own.exe", 5, None, TrimStatus::Skipped(SkipReason::SelfProcess)),
            result("me.exe", 5, None, TrimStatus::Skipped(SkipReason::SelfProcess)),
            result("odd.exe", 5, None, TrimStatus::Skipped(SkipReason::Other("why".to_owned()))),
        ],
    }
}

// ---------------------------------------------------------------------------
// Reports
// ---------------------------------------------------------------------------

#[test]
fn the_window_writes_a_report() {
    let snapshot = |used: &str, percent: &str, available: &str| {
        format!("current_memory: {used} GB / 16.0 GB ({percent}%)\navailable_memory: {available} GB\nsystem_cache: 0.5 GB\ncommit_usage: 3.0 GB / 10.0 GB\nprocess_count: 123\n")
    };
    let expected = format!(
        "memspark_report\nmode: 25% target reached\nduration: 1.23s\n\nbefore:\n{}\nafter:\n{}\nresult:\nprocesses_trimmed: 18.8%\navailable_increased: +11.0 GB\nprocesses_scanned: 5\nprocesses_skipped: 2 / 5\nKept/skipped processes: 2\nFailed: 1\nfailed: No visible change\nSystem release detail: No visible system-release effect was recorded after working-set handling.\n\ntop_trimmed_processes:\nsmall.exe    40 MB -> 30 MB\nlarge.exe    900 MB -> unknown\n",
        snapshot("14.0", "87.5", "2.0"),
        snapshot("3.0", "18.8", "13.0"),
    );
    assert_eq!(format_ui_report_text(&report(false), &english()), expected);
    let mut empty = report(false);
    empty.results.clear();
    let text = format_ui_report_text(&empty, &chinese());
    assert!(text.contains("保留/跳过进程: 2\n失败: 1\nfailed: 无可见变化\n系统释放说明: 工作集处理后未记录到系统释放的可见变化。\n\ntop_trimmed_processes:\nnone\n"));
}

#[test]
fn the_window_writes_a_preview() {
    let mut preview = report(true);
    preview.results[0].status = TrimStatus::WouldTrim;
    assert_eq!(
        format_ui_report_text(&preview, &english()),
        "dry_run - 25% target preview\n\nwill_trim:\nsmall.exe    40 MB    reason: reason_background_large_ws\n\nskipped_summary:\nskip_self_process: 2\nwhy: 1\n\nskipped_details: use_verbose\n"
    );
    preview.results.clear();
    assert_eq!(
        format_ui_report_text(&preview, &chinese()),
        "dry_run - 25% 目标预览\n\nwill_trim:\nnone\n\nskipped_summary:\nnone\n\nskipped_details: use_verbose\n"
    );
}

#[test]
fn the_window_shows_a_report() {
    let data = report_view_data(&report(false), &english());
    assert_eq!(data.text, format_ui_report_text(&report(false), &english()));
    assert_eq!(
        data.before_memory,
        "Memory load: 87.5%\nUsed memory: 14.0 GB\nAvailable memory: 2.0 GB\nTotal physical: 16.0 GB"
    );
    assert_eq!(data.available_increase, "+11.0 GB");
    assert_eq!((data.scanned.as_str(), data.trimmed.as_str()), ("5", "18.8%"));
    assert_eq!((data.skipped.as_str(), data.failed.as_str()), ("2 / 5", "No visible change"));
    assert_eq!(data.primary_process_title, "top_trimmed_processes");
    assert_eq!((data.report_type.as_str(), data.duration.as_str()), ("result", "1.23s"));
    assert_eq!(data.mode, "25% target reached");
    assert_eq!(
        data.top_trimmed,
        "small.exe    40 MB -> 30 MB    reason: reason_background_large_ws    Status: Handled\nlarge.exe    900 MB -> unknown    reason: reason_background_large_ws    Status: Handled\n"
    );
    assert_eq!(
        data.skip_summary,
        "skip_self_process: 2 - The MemSpark process is not handled.\nwhy: 1 - why\n"
    );
    assert_eq!(
        data.after_memory,
        "Memory load: 18.8%\nUsed memory: 3.0 GB\nAvailable memory: 13.0 GB\nTotal physical: 16.0 GB"
    );
    let preview = report_view_data(&report(true), &chinese());
    assert_eq!((preview.report_type.as_str(), preview.failed.as_str()), ("dry_run", "预览"));
    assert_eq!(preview.primary_process_title, "will_trim");
    assert_eq!(
        preview.before_memory,
        "内存占用：87.5%\n已用内存：14.0 GB\n可用内存：2.0 GB\n总物理内存：16.0 GB"
    );
}

#[test]
fn conclusions_are_drawn() {
    assert_eq!(
        report_conclusion_text(&report(false), &english()),
        "Optimization completed: memory load changed from 87.5% to 18.8%, reaching the <= 25% target; available memory changed by +11.0 GB. Working sets handled 2, scanned 5, kept/skipped 2, failed 1. System release: No visible change."
    );
    assert_eq!(
        report_conclusion_text(&report(false), &chinese()),
        "本次优化已完成：内存占用从 87.5% 变为 18.8%，已达到不高于 25% 的目标；可用内存变化 +11.0 GB。工作集处理 2 个，扫描 5 个，保留/跳过 2 个，失败 1 个。系统释放：无可见变化。"
    );
    let mut missed = report(false);
    missed.after = memory(16 * GIB, 3 * GIB);
    assert_eq!(
        report_conclusion_text(&missed, &english()),
        "All available optimization steps were run: memory load changed from 87.5% to 81.2%, but the <= 25% target was not reached; available memory changed by +1.0 GB. Working sets handled 2, scanned 5, kept/skipped 2, failed 1. System release: No visible change. Remaining usage usually comes from system reservations, drivers, kernel memory, foreground apps, or processes that cannot be handled."
    );
    assert_eq!(
        report_conclusion_text(&missed, &chinese()),
        "本次优化已执行全部可用步骤：内存占用从 87.5% 变为 81.2%，未达到不高于 25% 的目标；可用内存变化 +1.0 GB。工作集处理 2 个，扫描 5 个，保留/跳过 2 个，失败 1 个。系统释放：无可见变化。剩余占用通常来自系统保留、驱动、内核、前台程序或不可处理进程。"
    );
    let mut preview = report(true);
    preview.results[0].status = TrimStatus::WouldTrim;
    assert_eq!(
        report_conclusion_text(&preview, &english()),
        "dry_run: no memory is released. A real run will work toward the <= 25% memory-load target; this preview would handle 1 background candidates and keep/skip 2 processes."
    );
    assert_eq!(
        report_conclusion_text(&preview, &chinese()),
        "这是dry_run：不会实际释放内存。正式执行时会围绕“内存占用不高于 25%”处理；当前预览将处理 1 个后台候选进程，保留/跳过 2 个进程。"
    );
    assert_eq!(target_status_label(&missed, &english()), "25% target not reached");
    assert_eq!(target_status_label(&missed, &chinese()), "25% 目标未达成");
    assert_eq!(target_status_label(&report(false), &chinese()), "25% 目标已达成");
    assert_eq!(target_status_label(&preview, &chinese()), "25% 目标预览");
}

#[test]
fn changes_are_detailed() {
    assert_eq!(
        available_change_detail_text(&report(true), &english()),
        "before: 2.0 GB; after: 13.0 GB; change +11.0 GB. dry_run does not release memory, so +0.0 GB is expected."
    );
    assert_eq!(
        available_change_detail_text(&report(true), &chinese()),
        "before：2.0 GB；after：13.0 GB；变化 +11.0 GB。dry_run不会实际释放内存，所以 +0.0 GB 属于正常结果。"
    );
    assert_eq!(
        available_change_detail_text(&report(false), &english()),
        "Load 87.5% -> 18.8%; before: 2.0 GB; after: 13.0 GB; change +11.0 GB. This value comes from before/after GlobalMemoryStatusEx and GetPerformanceInfo snapshots."
    );
    let mut small = report(false);
    small.after = memory(16 * GIB, 2 * GIB - 64 * MIB + 1);
    assert_eq!(
        available_change_detail_text(&small, &english()),
        "Load 87.5% -> 87.9%; before: 2.0 GB; after: 1.9 GB; change -0.1 GB. The change may display as +0.0 GB when it is below display precision or cache is quickly reallocated."
    );
    assert_eq!(
        available_change_detail_text(&small, &chinese()),
        "占用率 87.5% -> 87.9%；before：2.0 GB；after：1.9 GB；变化 -0.1 GB。变化小于显示精度或系统很快重新分配缓存时，界面可能显示为 +0.0 GB。"
    );
    small.after = memory(16 * GIB, 2 * GIB - 64 * MIB);
    assert!(available_change_detail_text(&small, &chinese())
        .ends_with("该数值来自优化前后 GlobalMemoryStatusEx / GetPerformanceInfo 的快照差异。"));
}

#[test]
fn releases_are_detailed() {
    let mut r = report(false);
    r.effect.system_cleanup_executed = true;
    assert_eq!(
        system_release_detail_text(&r, &english()),
        "no available-memory delta recorded; system release produced a visible effect."
    );
    r.effect.standby_cleanup_delta_bytes = Some(GIB as i64);
    assert_eq!(
        system_release_detail_text(&r, &chinese()),
        "+1.0 GB；系统释放步骤已产生可见效果。"
    );
    r.effect.system_cleanup_skipped_reason = Some(String::new());
    assert_eq!(
        system_release_detail_text(&r, &english()),
        "+1.0 GB; system release produced a visible effect."
    );
    r.effect.system_cleanup_skipped_reason =
        Some("目标释放已进入终止阶段：候选 4，温和关闭 1，强制终止 2，失败 3".to_owned());
    assert_eq!(
        system_release_detail_text(&r, &english()),
        "+1.0 GB; target release entered termination stage: candidates 4, graceful close 1, force kill 2, failed 3"
    );
    assert_eq!(
        system_release_detail_text(&r, &chinese()),
        "+1.0 GB；目标释放已进入终止阶段：候选 4，温和关闭 1，强制终止 2，失败 3"
    );
    r.dry_run = true;
    assert_eq!(
        system_release_detail_text(&r, &english()),
        "Dry run does not release system working sets, standby lists, or candidate processes."
    );
    assert_eq!(
        localized_system_release_reason("低优先级 standby list 清理失败：x；y，z", &english()),
        "low-priority standby list cleanup failed: x; y, z"
    );
    assert_eq!(
        localized_system_release_reason("standby list 清理失败：x", &chinese()),
        "standby list 清理失败：x"
    );
}

#[test]
fn skipped_processes_are_explained() {
    assert_eq!(
        skip_reason_explanation(&SkipReason::Other(String::new()), &english()),
        "Other safety or system reason."
    );
    assert_eq!(
        skip_reason_explanation(&SkipReason::ProcessExited, &chinese()),
        "枚举后进程退出，属于正常竞争情况。"
    );
    assert_eq!(skip_reason_label(&SkipReason::Other(String::new()), &english()), "skip_other");
    assert_eq!(skip_reason_label(&SkipReason::HighIoActivity, &english()), "skip_high_io");
    let mut nothing = report(false);
    nothing.results.clear();
    assert_eq!(skip_summary_text(&nothing, &english()), "No skipped-reason records.");
    assert_eq!(skip_summary_text(&nothing, &chinese()), "没有跳过原因记录。");
    assert!(top_activity_text(&nothing, &english()).starts_with("No process was handled"));
    nothing.dry_run = true;
    assert!(top_activity_text(&nothing, &chinese()).starts_with("预览结果中没有可处理进程。"));
    let mut many = report(true);
    many.results = (0..9).map(|_| result("x", MIB, None, TrimStatus::WouldTrim)).collect();
    let text = top_activity_text(&many, &english());
    assert_eq!(text.lines().count(), 1 + 8);
    assert!(text.ends_with("x    1 MB    reason: reason_background_large_ws    Status: Would handle\n"));
}

#[test]
fn a_missing_report_is_told() {
    let data = unavailable_report_data("gone", &english());
    assert_eq!(data.text, "no_report_availablegone");
    assert_eq!((data.scanned.as_str(), data.conclusion.as_str()), ("--", "no_report_loaded"));
    let mut data = ReportViewData::empty(&english());
    add_save_warnings(&mut data, Some("a"), Some("b"), &english());
    assert_eq!(
        data.text,
        "no_report_loaded\nreport_save_warninga\n\nwarning: developer log could not be saved: b\n"
    );
    add_save_warnings(&mut data, None, None, &english());
    assert!(data.text.ends_with(": b\n"));
}

// ---------------------------------------------------------------------------
// Hardware
// ---------------------------------------------------------------------------

const LISTING: &str = "\r\nM|17179869184|26|0|2666|3200|Maker |P1|Slot 1\r\n  M|17179869184|26|0|3200||Maker|P2|\nM|0|26|0|1|1|a|b|c\nM|1|2\nA|2\nA|4\nA|x\nnoise\n";

#[test]
fn memory_modules_are_read() {
    let info = parse_memory_hardware_output(LISTING).unwrap();
    assert_eq!((info.total_capacity_bytes, info.module_count), (32 * GIB, 2));
    assert_eq!((info.slot_count, info.speed_mt_s), (Some(4), Some(3200)));
    assert_eq!(info.memory_type.as_deref(), Some("DDR4"));
    assert_eq!(info.modules[0].manufacturer.as_deref(), Some("Maker"));
    assert_eq!(info.modules[0].device_locator.as_deref(), Some("Slot 1"));
    assert_eq!(info.modules[1].device_locator, None);
    assert_eq!(
        format_memory_hardware_summary(&info, &english()),
        "DDR4 · 32 GB · 2 × 16 GB · 3200 MT/s · slots_label 2 / 4"
    );
    assert_eq!(
        parse_memory_hardware_output("A|4\n").unwrap_err(),
        "no physical memory modules reported"
    );
}

#[test]
fn mixed_modules_are_listed() {
    let info = parse_memory_hardware_output(
        "M|8589934592|34|0|0|4800|a|b|c\nM|17716740096|x|24|1600|0|a|b|c\nM|8589934592|99|1|||a|b|c",
    )
    .unwrap();
    assert_eq!(info.memory_type.as_deref(), Some("DDR3/DDR5"));
    assert_eq!((info.speed_mt_s, info.slot_count), (None, None));
    assert_eq!(format_speed_summary(&info, &english()), "1600/4800 MT/s");
    assert_eq!(format_module_layout(&info.modules, &english()), "8 GB + 16.5 GB + 8 GB");
    assert_eq!(common_memory_type(&Vec::new()), None);
    assert_eq!(common_speed(&info.modules), None);
    let nothing = MemoryHardwareInfo {
        total_capacity_bytes: 0,
        module_count: 1,
        slot_count: None,
        memory_type: None,
        speed_mt_s: None,
        modules: Vec::new(),
    };
    assert_eq!(format_memory_hardware_summary(&nothing, &english()), "hardware_unavailable");
    assert_eq!(format_speed_summary(&nothing, &english()), "unknown_frequency");
    assert_eq!(format_module_layout(&nothing.modules, &english()), "unknown");
}

#[test]
fn hardware_fields_are_read() {
    assert_eq!(parse_u64_field(" +7 "), Some(7));
    assert_eq!(parse_u64_field("0"), None);
    assert_eq!(parse_u64_field("18446744073709551616"), None);
    assert_eq!(parse_u32_field("4294967295"), Some(u32::MAX));
    assert_eq!(parse_u32_field("4294967296"), None);
    assert_eq!(non_empty_field(" a "), Some("a".to_owned()));
    assert_eq!(non_empty_field(" \t"), None);
    for (code, label) in [
        (20, "DDR"),
        (21, "DDR2"),
        (24, "DDR3"),
        (26, "DDR4"),
        (27, "LPDDR"),
        (28, "LPDDR2"),
        (29, "LPDDR3"),
        (30, "LPDDR4"),
        (34, "DDR5"),
        (35, "LPDDR5"),
    ] {
        assert_eq!(memory_type_label(Some(code), None), Some(label));
        assert_eq!(memory_type_label(Some(1), Some(code)), Some(label));
    }
    assert_eq!(memory_type_label(Some(26), Some(24)), Some("DDR4"));
    assert_eq!(memory_type_label(None, Some(2)), None);
}

#[test]
fn capacities_agree_with_double_precision() {
    let mut values = vec![0, 1, GIB / 2, GIB / 2 + 1, 53687091, 53687092, u64::MAX];
    for i in 0..200u64 {
        values.push(GIB / 40 * i + i);
        values.push(i * GIB + 53687090 + i % 4);
        values.push((i + 1) * GIB - 53687090 - i % 4);
    }
    for bytes in values {
        let gb = bytes as f64 / 1024.0 / 1024.0 / 1024.0;
        let expected = if (gb - gb.round()).abs() < 0.05 {
            format!("{gb:.0} GB")
        } else {
            format!("{gb:.1} GB")
        };
        assert_eq!(format_capacity_gb(bytes), expected, "{bytes}");
    }
}

// ---------------------------------------------------------------------------
// Settings
// ---------------------------------------------------------------------------

#[test]
fn languages_and_themes_are_read() {
    assert_eq!(parse_ui_language(" ZH-cn "), Some(UiLanguage::ZhCn));
    assert_eq!(parse_ui_language("zh"), Some(UiLanguage::ZhCn));
    assert_eq!(parse_ui_language("CN"), Some(UiLanguage::ZhCn));
    assert_eq!(parse_ui_language("en"), Some(UiLanguage::EnUs));
    assert_eq!(parse_ui_language("fr"), None);
    for language in [UiLanguage::ZhCn, UiLanguage::EnUs] {
        assert_eq!(parse_ui_language(ui_language_code(language)), Some(language));
    }
    assert_eq!(parse_ui_theme(" Dark"), Some("dark"));
    assert_eq!(parse_ui_theme("LIGHT"), Some("light"));
    assert_eq!(parse_ui_theme("blue"), None);
}

#[test]
fn settings_are_kept() {
    for language in [UiLanguage::ZhCn, UiLanguage::EnUs] {
        for theme in ["dark", "light"] {
            let settings = UiSettings { language, theme: theme.to_owned() };
            let written = save_ui_settings(&settings);
            let read = load_ui_settings(default_ui_settings(UiLanguage::EnUs), Some(&written));
            assert_eq!((read.language, read.theme.as_str()), (language, theme));
        }
    }
    assert_eq!(
        save_ui_settings(&default_ui_settings(UiLanguage::ZhCn)),
        "language = \"zh-CN\"\ntheme = \"dark\"\n"
    );
    let read = load_ui_settings(
        default_ui_settings(UiLanguage::EnUs),
        Some("theme=light\r\nnothing\nlanguage = 'zh'\ntheme = \"pink\"\nlanguage = \"\"cn\"\"\n"),
    );
    assert_eq!((read.language, read.theme.as_str()), (UiLanguage::ZhCn, "light"));
    let read = load_ui_settings(default_ui_settings(UiLanguage::EnUs), None);
    assert_eq!((read.language, read.theme.as_str()), (UiLanguage::EnUs, "dark"));
}

const AROUND: Surroundings = Surroundings { has_app_data: false, has_current_dir: true };

#[test]
fn a_draft_starts_from_the_configuration() {
    let settings = default_ui_settings(UiLanguage::EnUs);
    let draft = load_settings_draft(&settings, &Ok(AppConfig::default()), Some("D:"), AROUND);
    assert!(matches!(
        &draft.report_path.root,
        PathRoot::Literal(path) if path == "D:\\MemSpark\\last_report.json"
    ));
    assert!(matches!(
        &draft.developer_log_dir.root,
        PathRoot::Literal(path) if path == "D:\\MemSpark\\logs"
    ));
    let draft = load_settings_draft(
        &settings,
        &Err(MemSparkError::Config("x".to_owned())),
        Some("D:"),
        AROUND,
    );
    assert!(matches!(draft.report_path.root, PathRoot::CurrentDirectory));
    assert_eq!(draft.report_history_dir.components, [".appdata", "MemSpark", "history"]);
    assert_eq!(
        report_paths_text(&english(), "a", "b", "c"),
        "report_path_last_report: a\nreport_path_history_dir: b\nreport_path_developer_logs: c"
    );
}

// ---------------------------------------------------------------------------
// Messages
// ---------------------------------------------------------------------------

#[test]
fn messages_come_in_two_languages() {
    for (message, in_english, in_chinese) in [
        (
            UiMessage::HistoryCleared(3),
            "Cleared history reports: 3 file(s).",
            "已清理历史报告：3 个文件。",
        ),
        (
            UiMessage::FolderChosen("p".to_owned()),
            "Report save path selected: p; waiting to save.",
            "报告保存位置已选择：p，等待保存。",
        ),
        (UiMessage::ChoiceCanceled, "Folder selection canceled.", "已取消选择保存位置。"),
        (
            UiMessage::RestartFailed("e".to_owned()),
            "Settings saved, but automatic restart failed: e",
            "设置已保存，但自动重启失败：e",
        ),
        (UiMessage::ConfigReady("p".to_owned()), "config_readyp", "config_readyp"),
        (UiMessage::OptimizeRunning, "optimize_running", "optimize_running"),
        (
            UiMessage::OptimizeFailed("e".to_owned()),
            "optimization_failede",
            "optimization_failede",
        ),
    ] {
        assert_eq!(message.to_text(&english()), in_english);
        assert_eq!(message.to_text(&chinese()), in_chinese);
    }
    assert!(folder_dialog_script(&english()).contains("= 'Choose MemSpark report folder'; if"));
    assert!(folder_dialog_script(&chinese())
        .ends_with("::OK) { $dialog.SelectedPath }"));
}

#[test]
fn failed_children_are_described() {
    assert_eq!(elevated_failure(0, Some("x")), None);
    assert_eq!(elevated_failure(1, None).as_deref(), Some("管理员子进程退出码：1"));
    assert_eq!(elevated_failure(1, Some(" \n")).as_deref(), Some("管理员子进程退出码：1"));
    assert_eq!(
        elevated_failure(7, Some("why ")).as_deref(),
        Some("管理员子进程退出码：7；why ")
    );
    assert_eq!((keep_feedback_visible(0), keep_feedback_visible(449)), (450, 1));
    assert_eq!(keep_feedback_visible(451), 0);
}

#[test]
fn the_dashboard_is_labelled() {
    let labels = dashboard_texts(&memory(16 * GIB, 13 * GIB));
    assert_eq!(labels.memory_usage_text, "18.8%");
    assert_eq!(labels.physical_used_text, "3.0 GB");
    assert_eq!(labels.physical_total_text, "16.0 GB");
    assert_eq!(labels.available_text, "13.0 GB");
    assert_eq!(labels.commit_text, "3.0 GB / 10.0 GB");
    assert_eq!(labels.system_cache_text, "0.5 GB");
    assert_eq!(labels.process_count_text, "123");
}

// ---------------------------------------------------------------------------
// The window
// ---------------------------------------------------------------------------

fn window() -> Window {
    let settings = default_ui_settings(UiLanguage::EnUs);
    let draft = load_settings_draft(&settings, &Ok(AppConfig::default()), Some("D:"), AROUND);
    let (mut window, commands) = open_window(settings, draft, &english());
    assert_eq!(commands.len(), 10);
    assert!(matches!(
        &commands[0],
        WindowCommand::ShowReport(data) if data.text == "no_report_loaded"
    ));
    assert_eq!(logged(&commands), ["ready"]);
    assert!(matches!(commands[5], WindowCommand::ReadDashboard));
    assert!(matches!(commands[7], WindowCommand::StartTimer(2000)));
    let commands = window
        .handle(WindowEvent::DashboardRead(Ok(memory(16 * GIB, 13 * GIB))), &english());
    assert!(matches!(commands[0], WindowCommand::ShowDashboard(_)));
    assert!(matches!(commands[1], WindowCommand::ShowRefreshing(false)));
    window
}

fn handle(window: &mut Window, event: WindowEvent) -> Vec<WindowCommand> {
    window.handle(event, &english())
}

fn logged(commands: &[WindowCommand]) -> Vec<String> {
    commands
        .iter()
        .filter_map(|command| match command {
            WindowCommand::Log(message) => Some(message.to_text(&english())),
            _ => None,
        })
        .collect()
}

#[test]
fn the_dashboard_is_refreshed_once_at_a_time() {
    let mut window = window();
    assert_eq!(handle(&mut window, WindowEvent::TimerTicked).len(), 2);
    assert!(handle(&mut window, WindowEvent::RefreshAsked).is_empty());
    handle(&mut window, WindowEvent::DashboardLost);
    assert!(handle(&mut window, WindowEvent::PageChanged("About".to_owned())).is_empty());
    assert!(handle(&mut window, WindowEvent::TimerTicked).is_empty());
    assert!(matches!(
        handle(&mut window, WindowEvent::PageChanged("Settings".to_owned()))[..],
        [WindowCommand::ReadConfig]
    ));
    assert_eq!(handle(&mut window, WindowEvent::PageChanged("Dashboard".to_owned())).len(), 2);
    let failed = handle(
        &mut window,
        WindowEvent::DashboardRead(Err(MemSparkError::WinApi("x".to_owned()))),
    );
    assert_eq!(logged(&failed), ["dashboard_refresh_failedWindows API error: x"]);
    assert!(!window.refreshing);
}

#[test]
fn one_optimization_runs_at_a_time() {
    let mut window = window();
    let started = handle(&mut window, WindowEvent::TrimAsked(true));
    assert!(matches!(started[1], WindowCommand::ShowTask(UiMessage::OptimizeRunning, 8)));
    assert!(matches!(started[3], WindowCommand::RunTrim(true)));
    let again = handle(&mut window, WindowEvent::TrimAsked(false));
    assert_eq!(again.len(), 2);
    assert!(matches!(again[0], WindowCommand::ShowTask(UiMessage::OptimizeRunning, 35)));
    assert!(matches!(
        handle(&mut window, WindowEvent::TrimStarted)[..],
        [WindowCommand::ShowTask(UiMessage::OptimizeRunning, 55)]
    ));
    let ended = handle(
        &mut window,
        WindowEvent::TrimEnded(Ok(ReportViewData::empty(&english()))),
    );
    assert_eq!(ended.len(), 6);
    assert!(matches!(ended[0], WindowCommand::ShowBusy(false)));
    assert!(matches!(ended[5], WindowCommand::ReadDashboard));
    handle(&mut window, WindowEvent::TrimAsked(false));
    let failed = handle(&mut window, WindowEvent::TrimEnded(Err("no".to_owned())));
    assert_eq!(logged(&failed), ["optimization_failedno"]);
    assert!(!window.busy);
}

#[test]
fn settings_are_drafted_and_then_saved() {
    let mut window = window();
    assert!(handle(&mut window, WindowEvent::LanguageSelected("fr".to_owned())).is_empty());
    let chosen = handle(&mut window, WindowEvent::LanguageSelected("zh".to_owned()));
    assert_eq!(logged(&chosen), ["Language changed. Click Save and Apply to restart."]);
    handle(&mut window, WindowEvent::ThemeSelected("LIGHT".to_owned()));
    assert_eq!(window.settings.language, UiLanguage::EnUs);
    let canceled = handle(&mut window, WindowEvent::FolderChosen(Ok("\r\n".to_owned())));
    assert_eq!(logged(&canceled), ["Folder selection canceled."]);
    let chosen = handle(&mut window, WindowEvent::FolderChosen(Ok("E:\\x\r\n".to_owned())));
    assert!(matches!(chosen[1], WindowCommand::LogChosenPath));
    assert!(matches!(&window.draft.report_path.root, PathRoot::Literal(path) if path == "E:\\x"));
    assert_eq!(window.draft.report_path.components, ["last_report.json"]);
    let mut saving = handle(&mut window, WindowEvent::ApplyAsked);
    let settings = match saving.pop() {
        Some(WindowCommand::SaveSettings(settings)) => settings,
        other => panic!("{other:?}"),
    };
    assert_eq!((settings.language, settings.theme.as_str()), (UiLanguage::ZhCn, "light"));
    let saved = handle(&mut window, WindowEvent::SettingsSaved(Ok(settings)));
    assert!(matches!(saved[1], WindowCommand::Restart));
    assert_eq!(window.settings.language, UiLanguage::ZhCn);
    assert!(matches!(
        handle(&mut window, WindowEvent::Restarted(Ok(())))[..],
        [WindowCommand::Exit(500)]
    ));
    let failed = handle(&mut window, WindowEvent::SettingsSaved(Err("e".to_owned())));
    assert_eq!(logged(&failed), ["Failed to save settings: e"]);
}

#[test]
fn the_window_tells_what_became_of_requests() {
    let mut window = window();
    let error = || MemSparkError::Io("e".to_owned());
    let done = handle(&mut window, WindowEvent::ConfigInitialized(Ok("p".to_owned())));
    assert_eq!(logged(&done), ["config_readyp"]);
    assert!(matches!(done[1], WindowCommand::ReadConfig));
    let unread = handle(&mut window, WindowEvent::ConfigRead(Err(error()), None));
    assert_eq!(logged(&unread), ["config_init_failedI/O error: e"]);
    assert!(matches!(
        &unread[0],
        WindowCommand::ShowPathMessage(message)
            if message.to_text(&english()) == "Failed to read report paths: I/O error: e"
    ));
    handle(
        &mut window,
        WindowEvent::ConfigRead(Ok(AppConfig::default()), Some("F:".to_owned())),
    );
    assert!(matches!(
        &window.draft.report_history_dir.root,
        PathRoot::Literal(path) if path == "F:\\MemSpark\\history"
    ));
    for (event, line) in [
        (WindowEvent::HistoryCleared(Ok(2)), "Cleared history reports: 2 file(s)."),
        (WindowEvent::HistoryCleared(Err(error())), "Failed to clear history reports: I/O error: e"),
        (WindowEvent::LogsCleared(Ok(1)), "Cleared developer logs: 1 file(s)."),
        (WindowEvent::LogsCleared(Err(error())), "Failed to clear developer logs: I/O error: e"),
        (WindowEvent::ReportOpened(None), "No report file yet. Run optimization first."),
        (WindowEvent::ReportOpened(Some(Ok("p".to_owned()))), "Opened report: p"),
        (WindowEvent::ReportOpened(Some(Err("e".to_owned()))), "Failed to open report: e"),
        (WindowEvent::FolderOpened(Ok("p".to_owned())), "Opened report folder: p"),
        (WindowEvent::FolderOpened(Err("e".to_owned())), "Failed to open report folder: e"),
        (WindowEvent::FolderChosen(Err("e".to_owned())), "Failed to choose save path: e"),
        (
            WindowEvent::Restarted(Err("e".to_owned())),
            "Settings saved, but automatic restart failed: e",
        ),
        (WindowEvent::ChooseFolderAsked, "Choose a report save folder."),
    ] {
        assert_eq!(logged(&handle(&mut window, event)), [line]);
    }
    let shown = handle(&mut window, WindowEvent::ReportRead(Err(error())));
    assert!(matches!(
        &shown[0],
        WindowCommand::ShowReport(data) if data.text == "no_report_availableI/O error: e"
    ));
    let shown = handle(&mut window, WindowEvent::ReportRead(Ok(report(false))));
    assert!(matches!(&shown[0], WindowCommand::ShowReport(data) if data.scanned == "5"));
    for (event, expected) in [
        (WindowEvent::ReportAsked, "ReadReport"),
        (WindowEvent::InitAsked, "InitConfig"),
        (WindowEvent::OpenReportAsked, "OpenReport"),
        (WindowEvent::OpenFolderAsked, "OpenFolder"),
        (WindowEvent::ClearHistoryAsked, "ClearHistory"),
        (WindowEvent::ClearLogsAsked, "ClearLogs"),
    ] {
        let commands = handle(&mut window, event);
        assert_eq!(commands.len(), 1);
        assert_eq!(format!("{:?}", commands[0]), expected);
    }
}
