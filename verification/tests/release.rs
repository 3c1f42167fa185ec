use memspark::cleanup::session_cleanup;
use memspark::release::{
    merge_release_pass, release_plan, release_step_delay_ms, run_step, run_system_release,
    run_targeted_system_release, SessionAction, SessionReply, SystemReleaseAction,
    SystemReleaseReply, SystemReleaseReport, SystemReleaseRun, SystemReleaseSession,
    SystemReleaseStep, SystemReleaseStepStatus,
};
use memspark::termination::{ReleaseAction, ReleaseReply};
use memspark::winapi::{MemoryListCommand, WinApiError};
use memspark::{MemSparkError, MemorySnapshot, ProcessInfo};

fn memory(load: u32, available: u64) -> MemorySnapshot {
    MemorySnapshot {
        total_physical: 1 << 40,
        available_physical: available,
        memory_load_percent: load,
        commit_total: 0,
        commit_limit: 0,
        system_cache: 0,
        process_count: 0,
        page_file_total: 0,
        page_file_available: 0,
        virtual_total: 0,
        virtual_available: 0,
    }
}

fn error(code: u32) -> WinApiError {
    WinApiError { context: "C", code, message: "m".to_owned() }
}

#[test]
fn plans_depend_on_pressure_and_round() {
    let empty = SystemReleaseStep::EmptySystemWorkingSets;
    let flush = SystemReleaseStep::FlushModifiedPageList;
    let low = SystemReleaseStep::PurgeLowPriorityStandbyList;
    let purge = SystemReleaseStep::PurgeStandbyList;
    assert_eq!(release_plan(60, 25, 0), [purge, empty, flush, low]);
    assert_eq!(release_plan(60, 25, 1), [empty, purge, low, flush]);
    assert_eq!(release_plan(59, 25, 2), [low, empty, flush]);
    assert_eq!(release_plan(40, 25, 3), [empty, purge]);
    assert_eq!(release_plan(39, 25, 4), [low, empty]);
    assert_eq!(release_plan(10, 25, 5), [flush, low]);
    assert_eq!(release_step_delay_ms(empty, 0), 110);
    assert_eq!(release_step_delay_ms(flush, 1), 185);
    assert_eq!(release_step_delay_ms(low, 4), 220);
    assert_eq!(release_step_delay_ms(purge, 9), 290);
    assert_eq!(release_step_delay_ms(SystemReleaseStep::EnableDebugPrivilege, 0), 0);
    assert_eq!(purge.memory_list_command(), Some(MemoryListCommand::PurgeStandbyList));
    assert_eq!(SystemReleaseStep::EnableProfilePrivilege.memory_list_command(), None);
}

#[test]
fn steps_are_recorded_with_their_outcome() {
    let mut steps = Vec::new();
    assert!(run_step(&mut steps, SystemReleaseStep::PurgeStandbyList, Ok(())));
    assert!(!run_step(&mut steps, SystemReleaseStep::FlushModifiedPageList, Err(error(5))));
    assert!(matches!(steps[0].status, SystemReleaseStepStatus::Succeeded));
    assert!(matches!(
        &steps[1].status,
        SystemReleaseStepStatus::Failed(m) if m == "C failed with Windows error 5 (m)"
    ));
}

#[test]
fn a_dry_release_previews_one_round() {
    let run = run_targeted_system_release(true, 25, 12, memory(80, 5));
    assert_eq!(run.next_action(), SystemReleaseAction::Done);
    let report = run.finish(3);
    assert_eq!(report.steps.len(), 7);
    assert!(report.steps.iter().all(|s| matches!(s.status, SystemReleaseStepStatus::WouldRun)));
    assert_eq!(report.steps[3].step, SystemReleaseStep::PurgeStandbyList);
    assert!(!report.target_reached);
    assert_eq!((report.failed_count, report.available_increase()), (0, 0));
    assert!(!run_targeted_system_release(true, 25, 0, memory(5, 5)).finish(0).target_reached);
}

fn drive(
    mut run: SystemReleaseRun,
    mut reply: impl FnMut(SystemReleaseAction) -> SystemReleaseReply,
) -> (SystemReleaseReport, Vec<SystemReleaseAction>) {
    let mut actions = Vec::new();
    loop {
        let action = run.next_action();
        if action == SystemReleaseAction::Done {
            return (run.finish(9), actions);
        }
        actions.push(action);
        run.step(reply(action));
        assert!(actions.len() < 1000);
    }
}

#[test]
fn a_release_stops_at_the_target() {
    let mut reads = 0;
    let run = run_targeted_system_release(false, 25, 12, memory(80, 0));
    let (report, actions) = drive(run, |action| match action {
        SystemReleaseAction::EnablePrivilege(SystemReleaseStep::EnableDebugPrivilege) => {
            SystemReleaseReply::Called(Err(error(1300)))
        }
        SystemReleaseAction::EnablePrivilege(_) => SystemReleaseReply::Called(Ok(())),
        SystemReleaseAction::SetMemoryList(_) => SystemReleaseReply::Called(Ok(())),
        SystemReleaseAction::Pause(_) => SystemReleaseReply::Rested,
        _ => {
            reads += 1;
            SystemReleaseReply::Memory(Some(memory(if reads == 2 { 20 } else { 60 }, 100)))
        }
    });
    // Two steps, then the closing measurement, which shows a load above the target again.
    assert_eq!(actions.iter().filter(|a| matches!(a, SystemReleaseAction::SetMemoryList(_))).count(), 2);
    assert_eq!((report.steps.len(), report.failed_count), (5, 1));
    assert!(!report.target_reached);
    assert_eq!(report.available_increase(), 100);
    assert_eq!(report.duration_ms, 9);
}

#[test]
fn two_stagnant_rounds_end_a_release() {
    let run = run_targeted_system_release(false, 25, 12, memory(60, 0));
    let (report, actions) = drive(run, |action| match action {
        SystemReleaseAction::EnablePrivilege(_) | SystemReleaseAction::SetMemoryList(_) => {
            SystemReleaseReply::Called(Ok(()))
        }
        SystemReleaseAction::Pause(_) => SystemReleaseReply::Rested,
        _ => SystemReleaseReply::Memory(Some(memory(60, 10))),
    });
    assert_eq!(report.steps.len(), 3 + 4 + 4);
    assert_eq!(actions.last(), Some(&SystemReleaseAction::ReadMemory));
}

#[test]
fn a_gain_keeps_a_release_going_to_its_last_round() {
    let mut available = 0u64;
    let run = run_targeted_system_release(false, 25, 3, memory(30, 0));
    let (report, _) = drive(run, |action| match action {
        SystemReleaseAction::EnablePrivilege(_) | SystemReleaseAction::SetMemoryList(_) => {
            SystemReleaseReply::Called(Ok(()))
        }
        SystemReleaseAction::Pause(_) => SystemReleaseReply::Rested,
        _ => {
            available += 64 * 1024 * 1024;
            SystemReleaseReply::Memory(Some(memory(30, available)))
        }
    });
    assert_eq!(report.steps.len(), 3 + 2 + 2 + 2);
}

#[test]
fn failing_steps_or_missing_privileges_end_a_release() {
    let run = run_targeted_system_release(false, 25, 12, memory(90, 0));
    let (report, _) = drive(run, |action| match action {
        SystemReleaseAction::EnablePrivilege(_) => SystemReleaseReply::Called(Ok(())),
        SystemReleaseAction::SetMemoryList(_) => SystemReleaseReply::Called(Err(error(5))),
        SystemReleaseAction::Pause(_) => SystemReleaseReply::Rested,
        _ => SystemReleaseReply::Memory(None),
    });
    assert_eq!((report.steps.len(), report.failed_count), (7, 4));
    let run = run_targeted_system_release(false, 25, 12, memory(90, 0));
    let (report, actions) = drive(run, |action| match action {
        SystemReleaseAction::EnablePrivilege(_) => SystemReleaseReply::Called(Err(error(1300))),
        _ => SystemReleaseReply::Memory(Some(memory(25, 0))),
    });
    assert_eq!((report.steps.len(), actions.len()), (3, 4));
    assert!(report.target_reached);
}

fn released(load: u32, steps: usize) -> SystemReleaseReport {
    let mut run = run_targeted_system_release(false, 25, 1, memory(load, 7));
    for _ in 0..steps {
        run.step(SystemReleaseReply::Called(Err(error(1))));
    }
    run.finish(steps as u64)
}

#[test]
fn merging_keeps_the_start_and_adds_the_counts() {
    let mut first = released(80, 2);
    first.termination_matched_count = 4;
    first.termination_failed_count = 1;
    let mut second = released(20, 1);
    second.after = memory(20, 50);
    let merged = merge_release_pass(first, second);
    assert_eq!(merged.before.memory_load_percent, 80);
    assert_eq!(merged.after.memory_load_percent, 20);
    assert_eq!((merged.steps.len(), merged.failed_count, merged.duration_ms), (3, 3, 1));
    assert!(merged.target_reached);
    assert_eq!((merged.termination_matched_count, merged.termination_failed_count), (4, 1));
}

fn process(pid: u32) -> ProcessInfo {
    ProcessInfo {
        pid,
        name: "x.exe".to_owned(),
        path: None,
        working_set: 1,
        private_usage: None,
        is_foreground: false,
        is_self: false,
        query_error: None,
    }
}

fn run_session(
    mut session: SystemReleaseSession,
    mut reply: impl FnMut(SessionAction) -> SessionReply,
) -> (Result<SystemReleaseReport, MemSparkError>, Vec<SessionAction>) {
    let mut actions = Vec::new();
    loop {
        let action = session.next_action();
        if action == SessionAction::Done {
            return (session.finish(), actions);
        }
        actions.push(action);
        session = session.step(reply(action));
        assert!(actions.len() < 20000);
    }
}

fn plain(action: SessionAction, load: u32, ends: bool) -> SessionReply {
    match action {
        SessionAction::StartRelease => SessionReply::Started(Ok(memory(load, 0))),
        SessionAction::ReadElapsed => SessionReply::Elapsed(1),
        SessionAction::Release(SystemReleaseAction::Pause(_)) => {
            SessionReply::Released(SystemReleaseReply::Rested)
        }
        SessionAction::Release(SystemReleaseAction::ReadMemory) => {
            SessionReply::Released(SystemReleaseReply::Memory(Some(memory(load, 0))))
        }
        SessionAction::Release(_) => SessionReply::Released(SystemReleaseReply::Called(Ok(()))),
        SessionAction::Close(ReleaseAction::ListProcesses) => {
            SessionReply::Closed(ReleaseReply::Listed(Ok(vec![process(99)])))
        }
        SessionAction::Close(ReleaseAction::ReadMemoryLoad) => {
            SessionReply::Closed(ReleaseReply::Load(Some(load)))
        }
        SessionAction::Close(ReleaseAction::CloseWindows(_)) => {
            SessionReply::Closed(ReleaseReply::Posted(if ends { Err(error(18)) } else { Ok(1) }))
        }
        SessionAction::Close(ReleaseAction::WaitForExit(_, _)) => {
            SessionReply::Closed(ReleaseReply::Waited(Err(error(5))))
        }
        SessionAction::Close(_) => SessionReply::Closed(ReleaseReply::Rested),
        SessionAction::Done => panic!("over"),
    }
}

#[test]
fn a_dry_session_only_measures() {
    let (result, actions) = run_session(run_system_release(true), |a| plain(a, 90, true));
    assert_eq!(actions, [SessionAction::StartRelease, SessionAction::ReadElapsed]);
    assert!(result.unwrap().dry_run);
}

#[test]
fn a_session_that_meets_the_target_closes_nothing() {
    let (result, actions) = run_session(run_system_release(false), |a| plain(a, 20, true));
    assert!(!actions.iter().any(|a| matches!(a, SessionAction::Close(_))));
    let report = result.unwrap();
    assert!(report.target_reached);
    assert_eq!(report.target_memory_load_percent, 25);
}

#[test]
fn sweeps_go_on_while_processes_end() {
    let (result, actions) = run_session(run_system_release(false), |a| plain(a, 90, true));
    let starts = actions.iter().filter(|a| **a == SessionAction::StartRelease).count();
    assert_eq!(starts, 1 + 8);
    let report = result.unwrap();
    assert_eq!(report.termination_graceful_closed_count, 8 * 3);
    assert_eq!(report.termination_matched_count, 8 * 3);
    assert!(!report.target_reached);
}

#[test]
fn a_sweep_without_success_is_the_last() {
    let (result, actions) = run_session(run_system_release(false), |a| plain(a, 90, false));
    let starts = actions.iter().filter(|a| **a == SessionAction::StartRelease).count();
    assert_eq!(starts, 2);
    let report = result.unwrap();
    assert_eq!(report.termination_graceful_closed_count, 0);
    assert_eq!(report.termination_failed_count, report.termination_matched_count);
}

#[test]
fn errors_end_a_session() {
    let (result, _) = run_session(run_system_release(false), |_| {
        SessionReply::Started(Err(MemSparkError::Unsupported("no".to_owned())))
    });
    assert_eq!(result.unwrap_err().to_text(), "unsupported on this platform: no");
    let (result, _) = run_session(run_system_release(false), |a| match a {
        SessionAction::Close(_) => SessionReply::Closed(ReleaseReply::Listed(Err(
            MemSparkError::WinApi("list".to_owned()),
        ))),
        other => plain(other, 90, true),
    });
    assert_eq!(result.unwrap_err().to_text(), "Windows API error: list");
}

#[test]
fn what_was_closed_stays_on_record_when_a_session_fails() {
    let mut session = run_system_release(false);
    let mut listings = 0;
    while session.next_action() != SessionAction::Done {
        let reply = match session.next_action() {
            SessionAction::Close(ReleaseAction::ListProcesses) if listings == 1 => {
                SessionReply::Closed(ReleaseReply::Listed(Err(MemSparkError::WinApi(
                    "list".to_owned(),
                ))))
            }
            SessionAction::Close(ReleaseAction::ListProcesses) => {
                listings += 1;
                plain(session.next_action(), 90, true)
            }
            other => plain(other, 90, true),
        };
        session = session.step(reply);
    }
    assert_eq!(session.report.as_ref().unwrap().termination_graceful_closed_count, 1);
    let outcome = session_cleanup(false, session);
    assert!(outcome.executed);
    assert_eq!(outcome.delta_bytes, None);
    assert_eq!(
        outcome.skipped_reason.as_deref(),
        Some(
            "内存优化目标释放失败：Windows API error: list; \
             目标释放已进入终止阶段：候选 1，温和关闭 1，强制终止 0，失败 0"
        )
    );
}
