use memspark::termination::{
    browser_priority, close_wait_progress, is_process_release_blocked, kill_wait_progress,
    posting_progress, release_skip_reason, run_process_release_all, run_targeted_process_release,
    target_reached, terminating_progress, CloseProgress, ProcessReleaseRun,
    ProcessReleaseSkipReason, ProcessReleaseStatus, ReleaseAction, ReleaseReply, ReleaseStage,
};
use memspark::winapi::WinApiError;
use memspark::{MemSparkError, ProcessInfo};

fn process(pid: u32, name: &str, working_set: u64) -> ProcessInfo {
    ProcessInfo {
        pid,
        name: name.to_owned(),
        path: None,
        working_set,
        private_usage: None,
        is_foreground: false,
        is_self: false,
        query_error: None,
    }
}

fn error(code: u32) -> WinApiError {
    WinApiError { context: "C", code, message: "m".to_owned() }
}

fn machine() -> Vec<ProcessInfo> {
    let mut own = process(77, "memspark.exe", 900);
    own.is_self = true;
    vec![
        process(0, "Idle", 0),
        process(4, "System", 100),
        process(20, "editor.exe", 700),
        process(21, "CHROME.exe", 50),
        process(22, "svchost.exe", 300),
        process(23, "vmmem", 200),
        own,
    ]
}

fn drive(
    mut run: ProcessReleaseRun,
    mut reply: impl FnMut(ReleaseAction) -> ReleaseReply,
) -> (ProcessReleaseRun, Vec<ReleaseAction>) {
    let mut actions = Vec::new();
    loop {
        let action = run.next_action();
        if action == ReleaseAction::Done {
            return (run, actions);
        }
        actions.push(action);
        run.step(reply(action));
        assert!(actions.len() < 1000);
    }
}

#[test]
fn browsers_have_priority_and_protected_names_are_blocked() {
    assert_eq!(browser_priority("MSEdge.exe"), 1);
    assert_eq!(browser_priority("edge.exe"), 0);
    assert!(is_process_release_blocked("Explorer.EXE", false));
    assert!(is_process_release_blocked("dwm.exe", false));
    assert!(!is_process_release_blocked("vmmem", false));
    assert!(is_process_release_blocked("VMMEM", true));
    let mut p = process(3, "svchost.exe", 0);
    p.is_self = true;
    assert_eq!(release_skip_reason(&p, true), Some(ProcessReleaseSkipReason::SelfProcess));
    p.is_self = false;
    assert_eq!(release_skip_reason(&p, true), Some(ProcessReleaseSkipReason::SystemBoundaryProcess));
    p.pid = 5;
    assert_eq!(
        release_skip_reason(&p, true),
        Some(ProcessReleaseSkipReason::BlockedSystemOrServiceProcess)
    );
    p.name = "x".to_owned();
    p.is_foreground = true;
    assert_eq!(release_skip_reason(&p, true), Some(ProcessReleaseSkipReason::ForegroundProcess));
    p.is_foreground = false;
    assert_eq!(release_skip_reason(&p, true), None);
    assert!(target_reached(Some(25), Some(25)));
    assert!(!target_reached(Some(25), Some(26)));
    assert!(!target_reached(Some(25), None));
    assert!(!target_reached(None, Some(0)));
}

#[test]
fn memspark_programs_are_blocked_under_all_their_names() {
    for name in [
        "memspark.exe",
        "memspark-ui.exe",
        "memspark-cli.exe",
        "MemSpark-CLI.exe",
        "MemSpark-GUI-v0.1.4-windows-x64.exe",
        "MemSpark-CLI-v0.1.4-windows-x64.exe",
        "memspark-gui-V9.exe",
    ] {
        assert!(is_process_release_blocked(name, true));
        assert!(is_process_release_blocked(name, false));
    }
    for name in ["memspark-gui", "xmemspark-gui-v1.exe", "memsparks.exe", ""] {
        assert!(!is_process_release_blocked(name, true));
    }
}

#[test]
fn the_foreground_process_is_left_running() {
    let listing = || {
        let mut front = process(30, "game.exe", 900);
        front.is_foreground = true;
        vec![front, process(31, "back.exe", 10)]
    };
    let (run, actions) = drive(run_process_release_all(false, true), |action| match action {
        ReleaseAction::ListProcesses => ReleaseReply::Listed(Ok(listing())),
        ReleaseAction::Continue => ReleaseReply::Continued,
        ReleaseAction::CloseWindows(31) => ReleaseReply::Posted(Err(error(5))),
        ReleaseAction::Terminate(31) => ReleaseReply::Terminated(Err(error(5))),
        ReleaseAction::Pause(500) => ReleaseReply::Rested,
        other => panic!("{other:?}"),
    });
    assert!(!actions.contains(&ReleaseAction::CloseWindows(30)));
    assert!(!actions.contains(&ReleaseAction::Terminate(30)));
    let report = run.finish(0).unwrap();
    assert_eq!((report.skipped_count, report.matched_count, report.failed_count), (2, 2, 2));
}

#[test]
fn a_turn_is_opened_by_the_reply_that_was_asked_for() {
    let mut run = run_targeted_process_release(false, true, 25, 5);
    run.step(ReleaseReply::Listed(Ok(vec![process(40, "a", 9)])));
    run.step(ReleaseReply::Continued);
    assert_eq!(run.next_action(), ReleaseAction::ReadMemoryLoad);
    run.step(ReleaseReply::Load(Some(25)));
    assert!(run.report.results.is_empty());
    let mut run = run_process_release_all(false, true);
    run.step(ReleaseReply::Listed(Ok(vec![process(40, "a", 9)])));
    run.step(ReleaseReply::Load(Some(0)));
    assert_eq!(run.next_action(), ReleaseAction::Continue);
    run.step(ReleaseReply::Continued);
    assert_eq!(run.next_action(), ReleaseAction::CloseWindows(40));
}

#[test]
fn a_dry_run_previews_every_process() {
    for (force, kind) in [(true, true), (false, false)] {
        let (run, actions) = drive(run_process_release_all(true, force), |action| match action {
            ReleaseAction::ListProcesses => ReleaseReply::Listed(Ok(machine())),
            ReleaseAction::Continue => ReleaseReply::Continued,
            other => panic!("{other:?}"),
        });
        assert_eq!(actions.len(), 8);
        let report = run.finish(12).unwrap();
        assert_eq!((report.scanned_count, report.matched_count, report.skipped_count), (7, 3, 4));
        assert_eq!((report.duration_ms, report.enabled, report.dry_run), (12, true, true));
        let names: Vec<&str> = report.results.iter().map(|r| r.name.as_str()).collect();
        assert_eq!(
            names,
            ["CHROME.exe", "memspark.exe", "editor.exe", "svchost.exe", "vmmem", "System", "Idle"]
        );
        assert_eq!(report.results[6].pid, None);
        assert_eq!(report.results[5].pid, Some(4));
        let would = matches!(
            report.results[0].status,
            ProcessReleaseStatus::WouldGracefulCloseThenForceIfNeeded
        );
        assert_eq!(would, kind);
    }
}

#[test]
fn processes_are_closed_then_killed() {
    let mut listings = 0;
    let (run, actions) = drive(run_process_release_all(false, true), |action| match action {
        ReleaseAction::ListProcesses => {
            listings += 1;
            ReleaseReply::Listed(Ok(if listings == 1 {
                vec![process(20, "editor.exe", 700), process(21, "chrome.exe", 1)]
            } else {
                Vec::new()
            }))
        }
        ReleaseAction::Continue => ReleaseReply::Continued,
        ReleaseAction::CloseWindows(21) => ReleaseReply::Posted(Ok(2)),
        ReleaseAction::WaitForExit(21, 5000) => ReleaseReply::Waited(Ok(true)),
        ReleaseAction::CloseWindows(20) => ReleaseReply::Posted(Ok(0)),
        ReleaseAction::Terminate(20) => ReleaseReply::Terminated(Ok(())),
        ReleaseAction::WaitForExit(20, 3000) => ReleaseReply::Waited(Err(error(87))),
        ReleaseAction::Pause(500) => ReleaseReply::Rested,
        other => panic!("{other:?}"),
    });
    assert_eq!(listings, 2);
    assert_eq!(actions.last(), Some(&ReleaseAction::ListProcesses));
    let report = run.finish(0).unwrap();
    assert_eq!((report.graceful_closed_count, report.force_killed_count), (1, 1));
    assert_eq!((report.matched_count, report.failed_count, report.skipped_count), (2, 0, 0));
}

#[test]
fn further_passes_follow_while_processes_end() {
    let mut listings = 0;
    let (run, _) = drive(run_process_release_all(false, true), |action| match action {
        ReleaseAction::ListProcesses => {
            listings += 1;
            ReleaseReply::Listed(Ok(vec![process(20 + listings, "x.exe", 1)]))
        }
        ReleaseAction::Continue => ReleaseReply::Continued,
        ReleaseAction::CloseWindows(_) => ReleaseReply::Posted(Err(error(18))),
        _ => ReleaseReply::Rested,
    });
    assert_eq!(listings, 3);
    assert_eq!(run.finish(0).unwrap().graceful_closed_count, 3);
}

#[test]
fn a_reached_target_ends_the_run() {
    let mut reads = 0;
    let (run, actions) = drive(run_targeted_process_release(false, true, 25, usize::MAX), |action| {
        match action {
            ReleaseAction::ListProcesses => ReleaseReply::Listed(Ok(machine())),
            ReleaseAction::ReadMemoryLoad => {
                reads += 1;
                ReleaseReply::Load(if reads == 1 { Some(60) } else { Some(25) })
            }
            ReleaseAction::CloseWindows(21) => ReleaseReply::Posted(Err(error(18))),
            ReleaseAction::Pause(_) => ReleaseReply::Rested,
            other => panic!("{other:?}"),
        }
    });
    // The first pass ends at the target; the second closes nothing.
    assert_eq!(actions.iter().filter(|a| **a == ReleaseAction::ListProcesses).count(), 2);
    assert_eq!(run.finish(0).unwrap().graceful_closed_count, 1);
}

#[test]
fn the_limit_on_ended_processes_holds() {
    let (run, _) = drive(run_targeted_process_release(false, true, 25, 1), |action| match action {
        ReleaseAction::ListProcesses => ReleaseReply::Listed(Ok(vec![
            process(30, "a", 3),
            process(31, "b", 2),
            process(32, "c", 1),
        ])),
        ReleaseAction::ReadMemoryLoad => ReleaseReply::Load(Some(90)),
        ReleaseAction::CloseWindows(_) => ReleaseReply::Posted(Err(error(87))),
        _ => ReleaseReply::Rested,
    });
    let report = run.finish(0).unwrap();
    assert_eq!((report.graceful_closed_count, report.results.len()), (1, 1));
}

#[test]
fn virtual_machines_are_kept_by_a_targeted_run() {
    let mut run = run_targeted_process_release(true, true, 10, 5);
    run.step(ReleaseReply::Listed(Ok(vec![process(40, "vmmemWSL", 9)])));
    run.step(ReleaseReply::Load(Some(50)));
    assert_eq!(run.stage, ReleaseStage::Finished);
    let report = run.finish(0).unwrap();
    assert!(matches!(
        report.results[0].status,
        ProcessReleaseStatus::Skipped(ProcessReleaseSkipReason::BlockedSystemOrServiceProcess)
    ));
}

#[test]
fn a_listing_that_fails_ends_the_run() {
    let mut run = run_process_release_all(false, true);
    run.step(ReleaseReply::Rested);
    assert_eq!(run.stage, ReleaseStage::Listing);
    run.step(ReleaseReply::Listed(Err(MemSparkError::WinApi("list".to_owned()))));
    assert_eq!(run.next_action(), ReleaseAction::Done);
    assert_eq!(run.finish(1).unwrap_err().to_text(), "Windows API error: list");
}

fn ended(progress: CloseProgress) -> ProcessReleaseStatus {
    match progress {
        CloseProgress::Ended(status) => status,
        CloseProgress::Next(stage) => panic!("{stage:?}"),
    }
}

fn moved(progress: CloseProgress) -> ReleaseStage {
    match progress {
        CloseProgress::Next(stage) => stage,
        CloseProgress::Ended(status) => panic!("{status:?}"),
    }
}

#[test]
fn replies_are_read_one_by_one() {
    assert_eq!(moved(posting_progress(&Ok(1), false)), ReleaseStage::AwaitingClose);
    assert_eq!(moved(posting_progress(&Ok(0), true)), ReleaseStage::Killing);
    assert!(matches!(
        ended(posting_progress(&Ok(0), false)),
        ProcessReleaseStatus::Skipped(ProcessReleaseSkipReason::ForceKillDisabled)
    ));
    assert!(matches!(
        ended(posting_progress(&Err(error(18)), true)),
        ProcessReleaseStatus::GracefulClosed
    ));
    assert_eq!(moved(posting_progress(&Err(error(5)), true)), ReleaseStage::Killing);
    assert!(matches!(
        ended(posting_progress(&Err(error(5)), false)),
        ProcessReleaseStatus::Failed(m) if m == "C failed with Windows error 5 (m)"
    ));
    assert!(matches!(
        ended(close_wait_progress(&Ok(true), false)),
        ProcessReleaseStatus::GracefulClosed
    ));
    assert_eq!(moved(close_wait_progress(&Ok(false), true)), ReleaseStage::Killing);
    assert!(matches!(
        ended(close_wait_progress(&Ok(false), false)),
        ProcessReleaseStatus::GracefulCloseRequested
    ));
    assert!(matches!(
        ended(close_wait_progress(&Err(error(87)), true)),
        ProcessReleaseStatus::GracefulClosed
    ));
    assert!(matches!(
        ended(close_wait_progress(&Err(error(5)), true)),
        ProcessReleaseStatus::Failed(_)
    ));
    assert_eq!(moved(terminating_progress(&Ok(()))), ReleaseStage::AwaitingKill);
    assert!(matches!(
        ended(terminating_progress(&Err(error(5)))),
        ProcessReleaseStatus::Failed(_)
    ));
    assert!(matches!(ended(kill_wait_progress(&Ok(true))), ProcessReleaseStatus::ForceKilled));
    assert!(matches!(
        ended(kill_wait_progress(&Ok(false))),
        ProcessReleaseStatus::Failed(m) if m == "强制终止已请求，但进程在超时时间内仍未退出。"
    ));
    assert!(matches!(
        ended(kill_wait_progress(&Err(error(1168)))),
        ProcessReleaseStatus::ForceKilled
    ));
    assert!(matches!(
        ended(kill_wait_progress(&Err(error(5)))),
        ProcessReleaseStatus::Failed(_)
    ));
}

#[test]
fn without_force_a_single_pass_asks_politely() {
    let (run, actions) = drive(run_process_release_all(false, false), |action| match action {
        ReleaseAction::ListProcesses => ReleaseReply::Listed(Ok(vec![
            process(50, "a", 3),
            process(51, "b", 2),
        ])),
        ReleaseAction::Continue => ReleaseReply::Continued,
        ReleaseAction::CloseWindows(50) => ReleaseReply::Posted(Ok(1)),
        ReleaseAction::CloseWindows(_) => ReleaseReply::Posted(Ok(0)),
        ReleaseAction::WaitForExit(_, _) => ReleaseReply::Waited(Ok(false)),
        other => panic!("{other:?}"),
    });
    assert!(!actions.iter().any(|a| matches!(a, ReleaseAction::Terminate(_))));
    let report = run.finish(0).unwrap();
    assert_eq!((report.matched_count, report.skipped_count, report.failed_count), (2, 1, 0));
    assert_eq!(report.results.len(), 2);
}
