use memspark::report_text::{
    format_dry_run, format_gb, format_mb, format_optional_working_set, format_seconds,
    format_signed_bytes, format_snapshot, format_working_set, shown_rounds, skip_summary_counts,
    system_release_value_text, target_reached, top_trimmed,
};
use memspark::{
    format_report_text, format_report_text_with_options, CleanupEffectSummary, MemorySnapshot,
    OptimizeMode, OptimizeReport, SkipReason, TrimResult, TrimStatus,
};

const MIB: u64 = 1024 * 1024;
const GIB: u64 = 1024 * MIB;

fn memory(total: u64, available: u64) -> MemorySnapshot {
    MemorySnapshot {
        total_physical: total,
        available_physical: available,
        memory_load_percent: 0,
        commit_total: 3 * GIB,
        commit_limit: 10 * GIB,
        system_cache: GIB / 2,
        process_count: 123,
        page_file_total: 0,
        page_file_available: 0,
        virtual_total: 0,
        virtual_available: 0,
    }
}

fn result(name: &str, before: u64, after: Option<u64>, status: TrimStatus) -> TrimResult {
    TrimResult {
        pid: 1,
        name: name.to_owned(),
        before_working_set: before,
        after_working_set: after,
        status,
    }
}

fn report(dry_run: bool) -> OptimizeReport {
    OptimizeReport {
        mode: OptimizeMode::MemoryOptimization,
        dry_run,
        timestamp_unix: 77,
        duration_ms: 1234,
        before: memory(16 * GIB, 2 * GIB),
        after: memory(16 * GIB, 13 * GIB),
        scanned_count: 5,
        trimmed_count: 2,
        skipped_count: 2,
        failed_count: 1,
        effect: CleanupEffectSummary::default(),
        results: vec![
            result("small.exe", 40 * MIB, Some(30 * MIB), TrimStatus::Trimmed),
            result("large.exe", 900 * MIB, Some(100 * MIB), TrimStatus::Trimmed),
            result("own.exe", 5, None, TrimStatus::Skipped(SkipReason::SelfProcess)),
            result("odd.exe", 5, None, TrimStatus::Skipped(SkipReason::Other("why".to_owned()))),
            result("bad.exe", 5, None, TrimStatus::Failed("boom".to_owned())),
        ],
    }
}

fn next(seed: &mut u64) -> u64 {
    *seed = seed.wrapping_mul(6364136223846793005).wrapping_add(1442695040888963407);
    *seed ^ (*seed >> 29)
}

#[test]
fn sizes_and_times_agree_with_double_precision() {
    let mut seed = 5u64;
    let mut values = vec![0, 1, MIB - 1, MIB, GIB, 53687091, 53687092, u64::MAX, u64::MAX - 1];
    for shift in 0..40 {
        values.push(next(&mut seed) >> shift);
        values.push((MIB / 2) * (2 * (next(&mut seed) >> 40) + 1));
        values.push((GIB / 20) * shift);
    }
    for value in values {
        let gb = format!("{:.1} GB", value as f64 / 1024.0 / 1024.0 / 1024.0);
        assert_eq!(format_gb(value), gb, "{value}");
        assert_eq!(format_mb(value), format!("{:.0} MB", value as f64 / 1024.0 / 1024.0), "{value}");
        assert_eq!(format_seconds(value), format!("{:.2}", value as f64 / 1000.0), "{value}");
    }
    assert_eq!(format_seconds(125), "0.12");
    assert_eq!(format_seconds(1234), "1.23");
}

#[test]
fn working_sets_and_changes_are_written() {
    assert_eq!(format_working_set(0), "0 MB");
    assert_eq!(format_working_set(1), "<1 MB");
    assert_eq!(format_working_set(MIB), "1 MB");
    assert_eq!(format_optional_working_set(None), "unknown");
    assert_eq!(format_optional_working_set(Some(5 * MIB)), "5 MB");
    assert_eq!(format_signed_bytes(0), "+0.0 GB");
    assert_eq!(format_signed_bytes(-(GIB as i64)), "-1.0 GB");
    assert_eq!(format_signed_bytes(i64::MIN), "-8589934592.0 GB");
}

#[test]
fn snapshots_are_written() {
    assert_eq!(
        format_snapshot(&memory(16 * GIB, 13 * GIB)),
        "Physical Used: 3.0 GB / 16.0 GB (18.8%)\nAvailable:     13.0 GB\nSystem Cache:  0.5 GB\nCommit:        3.0 GB / 10.0 GB\nProcesses:     123\n"
    );
}

#[test]
fn a_report_is_written() {
    let mut report = report(false);
    report.effect.process_trim_delta_bytes = GIB;
    report.effect.working_set_rounds = 2;
    report.effect.system_cleanup_executed = true;
    report.effect.standby_cleanup_delta_bytes = Some(-(GIB as i64) / 4);
    report.effect.system_cleanup_skipped_reason = Some("because".to_owned());
    let text = format_report_text(&report);
    assert_eq!(text, format_report_text_with_options(&report, true));
    let lines: Vec<&str> = text.lines().collect();
    assert_eq!(
        lines,
        [
            "MemSpark Report",
            "Target: memory load <= 25% (reached)",
            "Final memory load: 18.8%",
            "Duration: 1.23s",
            "",
            "Before:",
            "Physical Used: 14.0 GB / 16.0 GB (87.5%)",
            "Available:     2.0 GB",
            "System Cache:  0.5 GB",
            "Commit:        3.0 GB / 10.0 GB",
            "Processes:     123",
            "",
            "After:",
            "Physical Used: 3.0 GB / 16.0 GB (18.8%)",
            "Available:     13.0 GB",
            "System Cache:  0.5 GB",
            "Commit:        3.0 GB / 10.0 GB",
            "Processes:     123",
            "",
            "Result:",
            "Available change:    +11.0 GB",
            "Working-set handled: 2 / 5",
            "Kept/skipped:        2",
            "Failed:              1",
            "System release:      released",
            "",
            "Effect summary:",
            "Working-set rounds:  2",
            "Working-set estimate: 1.0 GB",
            "System cleanup:      executed",
            "System cleanup delta: -0.2 GB",
            "System cleanup reason: because",
            "",
            "Top handled processes:",
            "large.exe                  900 MB ->   100 MB",
            "small.exe                   40 MB ->    30 MB",
        ]
    );
    assert!(text.ends_with('\n'));
}

#[test]
fn a_small_effect_is_explained() {
    let mut report = report(false);
    report.after = memory(16 * GIB, 2 * GIB + 256 * MIB - 1);
    report.results.clear();
    let text = format_report_text(&report);
    assert!(text.contains("Target: memory load <= 25% (not reached)\n"));
    assert!(text.contains("System cleanup:      skipped\nSmall-effect explanation:\n1. Most background processes may already have low working sets.\n2. Foreground, system boundary, or threshold rules may have skipped processes.\n3. System-level standby list cleanup may be disabled.\n4. Windows may keep pages in standby/cache state after process trimming.\n\nTop handled processes:\n(none)\n"));
    assert!(text.contains("Working-set rounds:  1\n"));
    report.after = memory(16 * GIB, 2 * GIB + 256 * MIB);
    assert!(!format_report_text(&report).contains("Small-effect"));
}

#[test]
fn a_dry_run_is_written() {
    let mut report = report(true);
    report.results[0].status = TrimStatus::WouldTrim;
    report.effect.working_set_rounds = 5;
    assert_eq!(
        format_report_text_with_options(&report, true),
        "Dry Run - 25% Target Preview\n\nWill handle working sets:\nsmall.exe                   40 MB    reason: background large working set\n\nSkipped summary:\nSelf process:                1\nOther:                       1\n\nSkipped details:\nown.exe                  reason: self process\nodd.exe                  reason: why\n\nPlanned working-set rounds: 5\nSystem cleanup: skipped\n"
    );
    report.effect.system_cleanup_executed = true;
    assert!(format_dry_run(&report, false).ends_with(
        "\nUse --verbose to show all skipped processes.\n\nPlanned working-set rounds: 5\nSystem cleanup: would execute when not dry-run\n"
    ));
    report.effect.system_cleanup_skipped_reason = Some("why not".to_owned());
    report.results.clear();
    assert_eq!(
        format_dry_run(&report, false),
        "Dry Run - 25% Target Preview\n\nWill handle working sets:\n(none)\n\nSkipped summary:\n(none)\n\nUse --verbose to show all skipped processes.\n\nPlanned working-set rounds: 5\nSystem cleanup: skipped (why not)\n"
    );
}

#[test]
fn the_target_and_the_release_are_judged() {
    let mut report = report(false);
    assert!(target_reached(&report));
    report.after = memory(16 * GIB, 12 * GIB);
    assert!(target_reached(&report));
    report.after = memory(16 * GIB, 12 * GIB - 1);
    assert!(!target_reached(&report));
    assert_eq!(system_release_value_text(&report), "no visible change");
    report.effect.system_cleanup_skipped_reason = Some("x".to_owned());
    assert_eq!(system_release_value_text(&report), "checked");
    report.effect.system_cleanup_executed = true;
    assert_eq!(system_release_value_text(&report), "released");
    report.dry_run = true;
    assert_eq!(system_release_value_text(&report), "preview");
    report.after = memory(16 * GIB, 16 * GIB);
    assert!(!target_reached(&report));
    assert_eq!(shown_rounds(&report), 1);
}

#[test]
fn the_largest_reductions_come_first() {
    let mut report = report(false);
    report.results.push(result("unknown", 999 * MIB, None, TrimStatus::Trimmed));
    report.results.push(result("grown", 1, Some(2), TrimStatus::Trimmed));
    let names: Vec<String> = top_trimmed(&report, 3).into_iter().map(|r| r.name).collect();
    assert_eq!(names, ["large.exe", "small.exe", "unknown"]);
    assert_eq!(top_trimmed(&report, 10).len(), 4);
}

#[test]
fn reasons_are_counted() {
    let mut report = report(false);
    for reason in [
        SkipReason::SystemProcess,
        SkipReason::SystemBoundaryProcess,
        SkipReason::LegacyRecommendedRule,
        SkipReason::LegacyUserRule,
        SkipReason::ForegroundProcess,
        SkipReason::SelfProcess,
        SkipReason::WorkingSetTooSmall,
        SkipReason::AccessDenied,
        SkipReason::OpenProcessFailed,
        SkipReason::QueryFailed,
        SkipReason::ProcessExited,
        SkipReason::HighCpuUsage,
        SkipReason::HighIoActivity,
    ] {
        report.results.push(result("x", 0, None, TrimStatus::Skipped(reason)));
    }
    assert_eq!(
        skip_summary_counts(&report),
        [
            ("System process:", 1),
            ("System boundary:", 1),
            ("Legacy recommended rule:", 1),
            ("Legacy user rule:", 1),
            ("Working set too small:", 1),
            ("Process query failed:", 1),
            ("Foreground process:", 1),
            ("Self process:", 2),
            ("Access denied:", 1),
            ("OpenProcess failed:", 1),
            ("Process exited:", 1),
            ("High CPU usage:", 1),
            ("High I/O activity:", 1),
            ("Other:", 1),
        ]
    );
    let labels: Vec<(String, usize)> =
        report.skip_reason_counts().into_iter().map(|c| (c.label, c.count)).collect();
    assert_eq!(labels.len(), 14);
    assert_eq!(labels[0], ("OpenProcess failed".to_owned(), 1));
    assert!(labels.contains(&("self process".to_owned(), 2)));
    let mut sorted = labels.clone();
    sorted.sort();
    assert_eq!(labels, sorted);
    let failed = report.failed_reason_counts();
    assert_eq!((failed[0].label.as_str(), failed[0].count), ("boom", 1));
}

#[test]
fn a_developer_log_holds_everything() {
    let mut report = report(false);
    report.effect.before_physical_used_bytes = 14 * GIB;
    report.effect.standby_cleanup_delta_bytes = Some(GIB as i64);
    let log = memspark::report_text::format_developer_log(&report, "{}");
    let expected = format!(
        "MemSpark Developer Log\nTimestamp Unix: 77\nDry Run: false\nDuration Ms: 1234\nTarget: memory load <= 25% (reached)\nMemory Load: 87.5% -> 18.8%\n\n[Counters]\nScanned: 5\nHandled Working Sets: 2\nKept/Skipped: 2\nFailed: 1\n\n[Effect Summary]\nBefore Physical Used: 14.0 GB\nAfter Physical Used: 0.0 GB\nBefore Available: 0.0 GB\nAfter Available: 0.0 GB\nAvailable Delta: +0.0 GB\nProcess Trim Estimate: 0.0 GB\nSystem Cleanup Delta: +1.0 GB\nSystem Cleanup Executed: false\nSystem Cleanup Reason: none\nWorking Set Rounds: 0\n\n[Skip Reason Counts]\nself process: 1\nwhy: 1\n\n[Failed Reason Counts]\nboom: 1\n\n[Detailed Text Report]\n{}\n\n[Process Results]\npid\tname\tbefore_working_set\tafter_working_set\tstatus\n1\tsmall.exe\t41943040\t31457280\ttrimmed\n1\tlarge.exe\t943718400\t104857600\ttrimmed\n1\town.exe\t5\tnull\tskipped: self process\n1\todd.exe\t5\tnull\tskipped: why\n1\tbad.exe\t5\tnull\tfailed: boom\n\n[Raw Report JSON]\n{{}}\n",
        format_report_text_with_options(&report, true)
    );
    assert_eq!(log, expected);
    report.results.clear();
    report.effect.standby_cleanup_delta_bytes = None;
    report.effect.system_cleanup_skipped_reason = Some("r".to_owned());
    let log = memspark::report_text::format_developer_log(&report, "{}");
    assert!(log.contains("System Cleanup Delta: not recorded\n"));
    assert!(log.contains("System Cleanup Reason: r\n"));
    assert!(log.contains("[Skip Reason Counts]\nnone\n\n[Failed Reason Counts]\nnone\n\n"));
}
