use memspark::cleanup::{
    append_termination_activity, run_memory_optimization_target_cleanup,
    run_optional_system_cleanup, termination_activity_message, CleanupAction, CleanupReply,
    OptionalCleanupRun, SystemCleanupOutcome, TerminationTotals,
};
use memspark::release::run_targeted_system_release;
use memspark::winapi::{MemoryListCommand, WinApiError};
use memspark::{AdvancedCleanupConfig, MemSparkError, MemorySnapshot, SystemReleaseReport};

fn memory(load: u32, available: u64) -> MemorySnapshot {
    MemorySnapshot {
        total_physical: 1 << 30,
        available_physical: available,
        memory_load_percent: load,
        commit_total: 0,
        commit_limit: 0,
        system_cache: 0,
        process_count: 0,
        page_file_total: 0,
        page_file_available: 0,
        virtual_total: 0,
        virtual_available: 0,
    }
}

fn error(code: u32) -> WinApiError {
    WinApiError { context: "C", code, message: "m".to_owned() }
}

fn report(after_load: u32, before: u64, after: u64) -> SystemReleaseReport {
    let mut report = run_targeted_system_release(false, 25, 1, memory(80, before)).finish(0);
    report.after = memory(after_load, after);
    report.target_reached = after_load <= 25;
    report
}

#[test]
fn activity_is_told_when_there_was_any() {
    assert_eq!(termination_activity_message(&TerminationTotals::default()), None);
    let totals = TerminationTotals {
        matched_count: 4,
        closed_count: 1,
        force_killed_count: 2,
        failed_count: 3,
    };
    let words = "目标释放已进入终止阶段：候选 4，温和关闭 1，强制终止 2，失败 3";
    assert_eq!(termination_activity_message(&totals).as_deref(), Some(words));
    let once = append_termination_activity(Some("a".to_owned()), &totals);
    assert_eq!(once, Some(format!("a; {words}")));
    assert_eq!(append_termination_activity(once.clone(), &totals), once);
    assert_eq!(append_termination_activity(None, &totals).as_deref(), Some(words));
    assert_eq!(
        append_termination_activity(Some("a".to_owned()), &TerminationTotals::default()).as_deref(),
        Some("a")
    );
}

#[test]
fn a_release_is_summed_up() {
    let missed = run_memory_optimization_target_cleanup(false, Ok(report(60, 100, 90)));
    assert!(missed.executed);
    assert_eq!(missed.delta_bytes, Some(-10));
    assert_eq!(
        missed.skipped_reason.as_deref(),
        Some("内存优化已执行全部可用释放步骤，但当前内存占用仍为 60%，未达到 25% 目标；剩余占用可能来自系统保留、驱动、内核或不可终止进程")
    );
    let reached = run_memory_optimization_target_cleanup(false, Ok(report(25, 5, 5)));
    assert!(!reached.executed);
    assert_eq!((reached.delta_bytes, reached.skipped_reason), (Some(0), None));
    let mut closed = report(25, 5, 5);
    closed.termination_matched_count = 1;
    closed.termination_force_killed_count = 1;
    let closed = run_memory_optimization_target_cleanup(false, Ok(closed));
    assert!(closed.executed);
    assert_eq!(
        closed.skipped_reason.as_deref(),
        Some("目标释放已进入终止阶段：候选 1，温和关闭 0，强制终止 1，失败 0")
    );
    let failed = run_memory_optimization_target_cleanup(
        false,
        Err(MemSparkError::WinApi("x".to_owned())),
    );
    assert_eq!(
        failed.skipped_reason.as_deref(),
        Some("内存优化目标释放失败：Windows API error: x")
    );
    assert_eq!((failed.executed, failed.delta_bytes), (false, None));
}

fn drive(
    mut run: OptionalCleanupRun,
    mut reply: impl FnMut(CleanupAction) -> CleanupReply,
) -> (SystemCleanupOutcome, Vec<CleanupAction>) {
    let mut actions = Vec::new();
    loop {
        let action = run.next_action();
        if action == CleanupAction::Done {
            return (run.finish(), actions);
        }
        actions.push(action);
        run.step(reply(action));
        assert!(actions.len() < 20);
    }
}

fn everything() -> AdvancedCleanupConfig {
    AdvancedCleanupConfig {
        enable_standby_list_cleanup: true,
        enable_system_working_set_cleanup: true,
        enable_modified_page_list_cleanup: true,
        require_admin_for_system_cleanup: true,
    }
}

#[test]
fn an_optional_cleanup_has_conditions() {
    let (off, actions) =
        drive(run_optional_system_cleanup(&AdvancedCleanupConfig::default(), false), |_| {
            CleanupReply::Administrator(true)
        });
    assert!(actions.is_empty());
    assert_eq!(off.skipped_reason.as_deref(), Some("advanced_cleanup 未启用，已跳过系统级清理"));
    let (dry, actions) = drive(run_optional_system_cleanup(&everything(), true), |_| {
        CleanupReply::Administrator(true)
    });
    assert!(actions.is_empty());
    assert_eq!(dry.skipped_reason.as_deref(), Some("dry-run 只预览，不执行系统级清理"));
    let (denied, actions) = drive(run_optional_system_cleanup(&everything(), false), |_| {
        CleanupReply::Administrator(false)
    });
    assert_eq!(actions, [CleanupAction::AskAdministrator]);
    assert_eq!(
        denied.skipped_reason.as_deref(),
        Some("需要管理员权限，已跳过 standby list / 系统工作集清理")
    );
    let (refused, actions) =
        drive(run_optional_system_cleanup(&everything(), false), |action| match action {
            CleanupAction::AskAdministrator => CleanupReply::Administrator(true),
            CleanupAction::ReadMemory => CleanupReply::Memory(None),
            _ => CleanupReply::Called(Err(error(1300))),
        });
    assert_eq!(actions.last(), Some(&CleanupAction::EnablePrivilege));
    assert_eq!(
        refused.skipped_reason.as_deref(),
        Some("启用系统级清理权限失败：C failed with Windows error 1300 (m)")
    );
    assert_eq!((refused.executed, refused.delta_bytes), (false, None));
}

#[test]
fn an_optional_cleanup_runs_what_is_switched_on() {
    let mut reads = 0;
    let (outcome, actions) =
        drive(run_optional_system_cleanup(&everything(), false), |action| match action {
            CleanupAction::AskAdministrator => CleanupReply::Administrator(true),
            CleanupAction::ReadMemory => {
                reads += 1;
                CleanupReply::Memory(Some(memory(50, if reads == 1 { 100 } else { 350 })))
            }
            CleanupAction::SetMemoryList(MemoryListCommand::PurgeLowPriorityStandbyList) => {
                CleanupReply::Called(Err(error(5)))
            }
            _ => CleanupReply::Called(Ok(())),
        });
    assert_eq!(
        actions,
        [
            CleanupAction::AskAdministrator,
            CleanupAction::ReadMemory,
            CleanupAction::EnablePrivilege,
            CleanupAction::SetMemoryList(MemoryListCommand::EmptyWorkingSets),
            CleanupAction::SetMemoryList(MemoryListCommand::PurgeLowPriorityStandbyList),
            CleanupAction::SetMemoryList(MemoryListCommand::PurgeStandbyList),
            CleanupAction::ReadMemory,
        ]
    );
    assert!(outcome.executed);
    assert_eq!(outcome.delta_bytes, Some(250));
    assert_eq!(
        outcome.skipped_reason.as_deref(),
        Some("低优先级 standby list 清理失败：C failed with Windows error 5 (m); modified page list 清理已预留，本版本默认不执行")
    );
    let mut config = everything();
    config.enable_modified_page_list_cleanup = false;
    config.enable_standby_list_cleanup = false;
    config.require_admin_for_system_cleanup = false;
    let (outcome, actions) =
        drive(run_optional_system_cleanup(&config, false), |action| match action {
            CleanupAction::ReadMemory => CleanupReply::Memory(None),
            CleanupAction::EnablePrivilege => CleanupReply::Called(Ok(())),
            _ => CleanupReply::Called(Err(error(6))),
        });
    assert_eq!(actions.len(), 3);
    assert!(!outcome.executed);
    assert_eq!(
        outcome.skipped_reason.as_deref(),
        Some("系统工作集清理失败：C failed with Windows error 6 (m)")
    );
}
