use memspark::optimizer::{
    count_results, OptimizeAction, OptimizeReply, OptimizeRun, TrimCount,
};
use memspark::release::{SessionAction, SessionReply, SystemReleaseAction, SystemReleaseReply};
use memspark::termination::{ReleaseAction, ReleaseReply};
use memspark::trim::{TrimAction, TrimReply};
use memspark::winapi::WinApiError;
use memspark::{
    optimize, AppConfig, MemSparkError, MemorySnapshot, OptimizeReport, ProcessInfo,
    SystemReleaseStep, TrimResult, TrimStatus,
};

const MIB: u64 = 1024 * 1024;

fn memory(load: u32, available: u64) -> MemorySnapshot {
    MemorySnapshot {
        total_physical: 1000 * MIB,
        available_physical: available,
        memory_load_percent: load,
        commit_total: 0,
        commit_limit: 0,
        system_cache: 0,
        process_count: 0,
        page_file_total: 0,
        page_file_available: 0,
        virtual_total: 0,
        virtual_available: 0,
    }
}

fn process(pid: u32, name: &str, working_set: u64) -> ProcessInfo {
    ProcessInfo {
        pid,
        name: name.to_owned(),
        path: None,
        working_set,
        private_usage: None,
        is_foreground: false,
        is_self: false,
        query_error: None,
    }
}

fn drive(
    mut run: OptimizeRun,
    mut reply: impl FnMut(OptimizeAction) -> OptimizeReply,
) -> (Result<OptimizeReport, MemSparkError>, Vec<OptimizeAction>) {
    let mut actions = Vec::new();
    loop {
        let action = run.next_action();
        if action == OptimizeAction::Done {
            return (run.finish().unwrap(), actions);
        }
        actions.push(action);
        run = run.step(reply(action));
        assert!(actions.len() < 10000);
    }
}

fn machine() -> Vec<ProcessInfo> {
    vec![
        process(20, "editor.exe", 200 * MIB),
        process(21, "tiny.exe", MIB),
        process(4, "System", 90 * MIB),
    ]
}

fn reply(action: OptimizeAction) -> OptimizeReply {
    match action {
        OptimizeAction::Start => OptimizeReply::Started(Ok(memory(80, 200 * MIB))),
        OptimizeAction::EnablePrivilege(_) => OptimizeReply::Enabled,
        OptimizeAction::ListProcesses => OptimizeReply::Listed(Ok(machine())),
        OptimizeAction::Trim(TrimAction::QueryWorkingSet(_)) => {
            OptimizeReply::Trimmed(TrimReply::Measured(Some(5 * MIB)))
        }
        OptimizeAction::Trim(TrimAction::Pause(_)) => OptimizeReply::Trimmed(TrimReply::Rested),
        OptimizeAction::Trim(_) => OptimizeReply::Trimmed(TrimReply::Called(Ok(()))),
        OptimizeAction::Release(SessionAction::StartRelease) => {
            OptimizeReply::Released(SessionReply::Started(Ok(memory(30, 300 * MIB))))
        }
        OptimizeAction::Release(SessionAction::ReadElapsed) => {
            OptimizeReply::Released(SessionReply::Elapsed(1))
        }
        OptimizeAction::Release(SessionAction::Release(SystemReleaseAction::Pause(_))) => {
            OptimizeReply::Released(SessionReply::Released(SystemReleaseReply::Rested))
        }
        OptimizeAction::Release(SessionAction::Release(SystemReleaseAction::ReadMemory)) => {
            OptimizeReply::Released(SessionReply::Released(SystemReleaseReply::Memory(Some(
                memory(20, 800 * MIB),
            ))))
        }
        OptimizeAction::Release(SessionAction::Release(_)) => {
            OptimizeReply::Released(SessionReply::Released(SystemReleaseReply::Called(Ok(()))))
        }
        OptimizeAction::ReadMemory => OptimizeReply::Memory(Some(memory(19, 810 * MIB))),
        OptimizeAction::ReadClock => OptimizeReply::Clock(1700, 42),
        other => panic!("{other:?}"),
    }
}

#[test]
fn an_optimization_trims_releases_and_reports() {
    let (result, actions) = drive(optimize(false, &AppConfig::default()), reply);
    assert_eq!(actions[0], OptimizeAction::Start);
    assert_eq!(
        actions[1..4],
        [
            OptimizeAction::EnablePrivilege(SystemReleaseStep::EnableDebugPrivilege),
            OptimizeAction::EnablePrivilege(SystemReleaseStep::EnableIncreaseQuotaPrivilege),
            OptimizeAction::EnablePrivilege(SystemReleaseStep::EnableProfilePrivilege),
        ]
    );
    assert_eq!(actions[4], OptimizeAction::ListProcesses);
    assert_eq!(actions[5], OptimizeAction::Trim(TrimAction::EmptyWorkingSet(20)));
    assert_eq!(actions[actions.len() - 2], OptimizeAction::ReadMemory);
    assert_eq!(actions[actions.len() - 1], OptimizeAction::ReadClock);
    let report = result.unwrap();
    assert_eq!((report.scanned_count, report.trimmed_count), (3, 1));
    assert_eq!((report.skipped_count, report.failed_count), (2, 0));
    assert_eq!((report.timestamp_unix, report.duration_ms), (1700, 42));
    assert_eq!(report.effect.process_trim_delta_bytes, 195 * MIB);
    assert_eq!(report.effect.working_set_rounds, 1);
    assert_eq!(report.effect.available_delta_bytes, (610 * MIB) as i64);
    assert_eq!(report.effect.standby_cleanup_delta_bytes, Some((500 * MIB) as i64));
    assert!(report.effect.system_cleanup_executed);
    assert_eq!(report.effect.system_cleanup_skipped_reason, None);
    assert_eq!(report.effect.before_physical_used_bytes, 800 * MIB);
    assert_eq!(report.effect.after_physical_used_bytes, 190 * MIB);
    assert_eq!(report.available_increase(), (610 * MIB) as i64);
}

#[test]
fn a_dry_run_changes_nothing() {
    let (result, actions) = drive(optimize(true, &AppConfig::default()), reply);
    assert_eq!(
        actions,
        [
            OptimizeAction::Start,
            OptimizeAction::ListProcesses,
            OptimizeAction::Release(SessionAction::StartRelease),
            OptimizeAction::Release(SessionAction::ReadElapsed),
            OptimizeAction::ReadMemory,
            OptimizeAction::ReadClock,
        ]
    );
    let report = result.unwrap();
    assert!(report.dry_run);
    assert_eq!((report.trimmed_count, report.skipped_count), (1, 2));
    assert_eq!(report.effect.working_set_rounds, 5);
    assert_eq!(
        report.effect.system_cleanup_skipped_reason.as_deref(),
        Some("dry-run 仅预览内存优化步骤；实际执行目标为内存占用不高于 25%")
    );
    assert_eq!(report.effect.standby_cleanup_delta_bytes, None);
}

#[test]
fn errors_at_the_start_end_an_optimization() {
    let (result, actions) = drive(optimize(false, &AppConfig::default()), |_| {
        OptimizeReply::Started(Err(MemSparkError::Unsupported("x".to_owned())))
    });
    assert_eq!(actions.len(), 1);
    assert!(matches!(result, Err(MemSparkError::Unsupported(_))));
    let (result, _) = drive(optimize(false, &AppConfig::default()), |action| match action {
        OptimizeAction::ListProcesses => {
            OptimizeReply::Listed(Err(MemSparkError::WinApi("list".to_owned())))
        }
        other => reply(other),
    });
    assert_eq!(result.unwrap_err().to_text(), "Windows API error: list");
}

#[test]
fn unknown_memory_at_the_end_shows_the_start_again() {
    let (result, _) = drive(optimize(true, &AppConfig::default()), |action| match action {
        OptimizeAction::ReadMemory => OptimizeReply::Memory(None),
        other => reply(other),
    });
    assert_eq!(result.unwrap().available_increase(), 0);
}

#[test]
fn a_failed_release_is_told_in_the_report() {
    let (result, _) = drive(optimize(false, &AppConfig::default()), |action| match action {
        OptimizeAction::Release(SessionAction::StartRelease) => OptimizeReply::Released(
            SessionReply::Started(Err(MemSparkError::WinApi("gone".to_owned()))),
        ),
        other => reply(other),
    });
    let report = result.unwrap();
    assert!(!report.effect.system_cleanup_executed);
    assert_eq!(
        report.effect.system_cleanup_skipped_reason.as_deref(),
        Some("内存优化目标释放失败：Windows API error: gone")
    );
}

/// Replies of a machine whose memory stays full and whose processes are gone when they are to
/// be closed.
fn full(action: OptimizeAction) -> OptimizeReply {
    match action {
        OptimizeAction::Release(SessionAction::Release(SystemReleaseAction::ReadMemory)) => {
            OptimizeReply::Released(SessionReply::Released(SystemReleaseReply::Memory(Some(
                memory(80, 200 * MIB),
            ))))
        }
        OptimizeAction::Release(SessionAction::Close(close)) => {
            OptimizeReply::Released(SessionReply::Closed(match close {
                ReleaseAction::ListProcesses => ReleaseReply::Listed(Ok(machine())),
                ReleaseAction::ReadMemoryLoad => ReleaseReply::Load(Some(80)),
                ReleaseAction::CloseWindows(_) => ReleaseReply::Posted(Err(WinApiError {
                    context: "C",
                    code: 18,
                    message: "m".to_owned(),
                })),
                ReleaseAction::Pause(_) => ReleaseReply::Rested,
                other => panic!("{other:?}"),
            }))
        }
        other => reply(other),
    }
}

#[test]
fn processes_closed_before_an_error_are_told_in_the_report() {
    let mut starts = 0;
    let (result, _) = drive(optimize(false, &AppConfig::default()), |action| match action {
        OptimizeAction::Release(SessionAction::StartRelease) => {
            starts += 1;
            OptimizeReply::Released(SessionReply::Started(if starts == 1 {
                Ok(memory(80, 200 * MIB))
            } else {
                Err(MemSparkError::WinApi("gone".to_owned()))
            }))
        }
        other => full(other),
    });
    let report = result.unwrap();
    assert!(report.effect.system_cleanup_executed);
    assert_eq!(
        report.effect.system_cleanup_skipped_reason.as_deref(),
        Some(
            "内存优化目标释放失败：Windows API error: gone; \
             目标释放已进入终止阶段：候选 6，温和关闭 6，强制终止 0，失败 0"
        )
    );
    let mut listings = 0;
    let (result, _) = drive(optimize(false, &AppConfig::default()), |action| match action {
        OptimizeAction::Release(SessionAction::Close(ReleaseAction::ListProcesses)) => {
            listings += 1;
            OptimizeReply::Released(SessionReply::Closed(ReleaseReply::Listed(
                if listings == 1 {
                    Ok(machine())
                } else {
                    Err(MemSparkError::WinApi("list".to_owned()))
                },
            )))
        }
        other => full(other),
    });
    let report = result.unwrap();
    assert!(report.effect.system_cleanup_executed);
    assert_eq!(
        report.effect.system_cleanup_skipped_reason.as_deref(),
        Some(
            "内存优化目标释放失败：Windows API error: list; \
             目标释放已进入终止阶段：候选 2，温和关闭 2，强制终止 0，失败 0"
        )
    );
}

#[test]
fn no_configuration_has_system_processes_or_the_process_itself_trimmed() {
    let mut config = AppConfig::default();
    config.mode.optimization.skip_system_process = false;
    config.mode.optimization.skip_self = false;
    let (result, actions) = drive(optimize(false, &config), |action| match action {
        OptimizeAction::ListProcesses => {
            let mut own = process(77, "program.exe", 500 * MIB);
            own.is_self = true;
            OptimizeReply::Listed(Ok(vec![
                own,
                process(500, "lsass.exe", 400 * MIB),
                process(4, "System", 300 * MIB),
                process(20, "editor.exe", 200 * MIB),
            ]))
        }
        other => reply(other),
    });
    for pid in [77, 500, 4] {
        assert!(!actions.contains(&OptimizeAction::Trim(TrimAction::EmptyWorkingSet(pid))));
    }
    let report = result.unwrap();
    assert_eq!((report.trimmed_count, report.skipped_count), (1, 3));
    assert!(report.results.iter().all(|result| match result.status {
        TrimStatus::Trimmed => result.pid == 20,
        _ => true,
    }));
}

#[test]
fn every_result_is_counted_once() {
    let result = |status| TrimResult {
        pid: 1,
        name: "x".to_owned(),
        before_working_set: 0,
        after_working_set: None,
        status,
    };
    let results = vec![
        result(TrimStatus::Trimmed),
        result(TrimStatus::WouldTrim),
        result(TrimStatus::Failed("f".to_owned())),
        result(TrimStatus::Skipped(memspark::SkipReason::SelfProcess)),
    ];
    assert_eq!(count_results(&results, TrimCount::Handled), 2);
    assert_eq!(count_results(&results, TrimCount::Skipped), 1);
    assert_eq!(count_results(&results, TrimCount::Failed), 1);
}
