use memspark::policy::{ModePolicy, SkipReason, TrimStatus};
use memspark::trim::{
    failure_status, skip_reason, trim_options, trim_working_sets_aggressive, AggressiveTrimOptions,
    TrimAction, TrimReply, TrimRun,
};
use memspark::winapi::WinApiError;
use memspark::ProcessInfo;

fn process(pid: u32, name: &str, working_set: u64) -> ProcessInfo {
    ProcessInfo {
        pid,
        name: name.to_owned(),
        path: None,
        working_set,
        private_usage: None,
        is_foreground: false,
        is_self: false,
        query_error: None,
    }
}

fn options() -> AggressiveTrimOptions {
    AggressiveTrimOptions {
        min_working_set_bytes: 100,
        rounds: 3,
        round_delay_ms: 150,
        allow_trim_explorer: false,
        allow_trim_browser: true,
        include_query_failed: true,
        skip_foreground: true,
        skip_system: true,
        skip_self: true,
    }
}

fn error(context: &'static str, code: u32) -> WinApiError {
    WinApiError { context, code, message: "m".to_owned() }
}

#[test]
fn options_follow_from_the_policy() {
    let derived = trim_options(&ModePolicy::memory_optimization());
    assert_eq!(derived.min_working_set_bytes, 10 * 1024 * 1024);
    assert_eq!((derived.rounds, derived.round_delay_ms), (5, 150));
    assert!(derived.include_query_failed && derived.skip_system && derived.skip_self);
    let mut policy = ModePolicy::memory_optimization();
    policy.max_rounds = 9;
    policy.round_delay_ms = 301;
    assert_eq!((trim_options(&policy).rounds, trim_options(&policy).round_delay_ms), (9, 150));
    policy.max_rounds = 0;
    policy.round_delay_ms = 300;
    assert_eq!((trim_options(&policy).rounds, trim_options(&policy).round_delay_ms), (5, 300));
    policy.round_delay_ms = 99;
    assert_eq!(trim_options(&policy).round_delay_ms, 150);
}

#[test]
fn no_policy_has_system_processes_or_the_process_itself_trimmed() {
    let mut policy = ModePolicy::memory_optimization();
    policy.skip_system_process = false;
    policy.skip_self = false;
    let options = trim_options(&policy);
    assert!(options.skip_system && options.skip_self);
    let mut own = process(77, "other.exe", 900 << 20);
    own.is_self = true;
    assert!(matches!(skip_reason(&own, &options), Some(SkipReason::SelfProcess)));
    assert!(matches!(
        skip_reason(&process(500, "lsass.exe", 900 << 20), &options),
        Some(SkipReason::SystemBoundaryProcess)
    ));
    assert!(matches!(
        skip_reason(&process(4, "other", 900 << 20), &options),
        Some(SkipReason::SystemProcess)
    ));
}

#[test]
fn reasons_are_tried_in_order() {
    let mut o = options();
    o.include_query_failed = false;
    let mut p = process(4, "lsass.exe", 1);
    p.is_self = true;
    p.is_foreground = true;
    p.query_error = Some("e".to_owned());
    assert!(matches!(skip_reason(&p, &o), Some(SkipReason::SystemBoundaryProcess)));
    p.name = "a.exe".to_owned();
    assert!(matches!(skip_reason(&p, &o), Some(SkipReason::SystemProcess)));
    p.pid = 5;
    assert!(matches!(skip_reason(&p, &o), Some(SkipReason::SelfProcess)));
    p.is_self = false;
    assert!(matches!(skip_reason(&p, &o), Some(SkipReason::ForegroundProcess)));
    p.is_foreground = false;
    assert!(matches!(skip_reason(&p, &o), Some(SkipReason::QueryFailed)));
    o.include_query_failed = true;
    assert!(skip_reason(&p, &o).is_none());
    p.query_error = None;
    assert!(matches!(skip_reason(&p, &o), Some(SkipReason::WorkingSetTooSmall)));
    p.working_set = 100;
    assert!(skip_reason(&p, &o).is_none());
    o.skip_system = false;
    p.name = "lsass.exe".to_owned();
    assert!(skip_reason(&p, &o).is_none());
}

#[test]
fn failures_are_classified() {
    assert!(matches!(
        failure_status(&error("x", 5)),
        TrimStatus::Skipped(SkipReason::AccessDenied)
    ));
    assert!(matches!(
        failure_status(&error("OpenProcess(trim)", 87)),
        TrimStatus::Skipped(SkipReason::ProcessExited)
    ));
    assert!(matches!(
        failure_status(&error("OpenProcess(trim)", 6)),
        TrimStatus::Skipped(SkipReason::OpenProcessFailed)
    ));
    assert!(matches!(
        failure_status(&error("EmptyWorkingSet", 6)),
        TrimStatus::Failed(m) if m == "EmptyWorkingSet failed with Windows error 6 (m)"
    ));
}

#[test]
fn a_dry_run_only_lists() {
    let list = vec![process(10, "small", 5), process(11, "big", 500), process(12, "bigger", 900)];
    let run = trim_working_sets_aggressive(options(), true, &list);
    assert_eq!(run.next_action(), TrimAction::Done);
    let report = run.finish();
    let rows: Vec<(u32, bool)> = report
        .results
        .iter()
        .map(|r| (r.pid, matches!(r.status, TrimStatus::WouldTrim)))
        .collect();
    assert_eq!(rows, [(10, false), (12, true), (11, true)]);
    assert_eq!((report.process_trim_delta_bytes, report.rounds_executed), (0, 3));
}

fn drive(mut run: TrimRun, mut reply: impl FnMut(TrimAction) -> TrimReply) -> (TrimRun, Vec<TrimAction>) {
    let mut actions = Vec::new();
    loop {
        let action = run.next_action();
        if action == TrimAction::Done {
            return (run, actions);
        }
        actions.push(action);
        run.step(reply(action));
        assert!(actions.len() < 1000);
    }
}

#[test]
fn every_round_trims_what_is_still_large() {
    let list = vec![process(10, "a", 500), process(11, "b", 900)];
    let run = trim_working_sets_aggressive(options(), false, &list);
    let (run, actions) = drive(run, |action| match action {
        TrimAction::EmptyWorkingSet(_) => TrimReply::Called(Ok(())),
        TrimAction::QueryWorkingSet(10) => TrimReply::Measured(Some(50)),
        TrimAction::QueryWorkingSet(_) => TrimReply::Measured(Some(200)),
        TrimAction::Pause(150) => TrimReply::Rested,
        other => panic!("{other:?}"),
    });
    assert_eq!(actions.len(), 10);
    assert_eq!(actions[..5], first_round());
    assert_eq!(actions[5], TrimAction::EmptyWorkingSet(11));
    assert_eq!(actions[7], TrimAction::Pause(150));
    assert_eq!(actions[9], TrimAction::QueryWorkingSet(11));
    let report = run.finish();
    assert_eq!(report.rounds_executed, 3);
    assert_eq!(report.process_trim_delta_bytes, (900 - 200) + (500 - 50));
    assert_eq!(report.results.len(), 2);
}

fn first_round() -> [TrimAction; 5] {
    [
        TrimAction::EmptyWorkingSet(11),
        TrimAction::QueryWorkingSet(11),
        TrimAction::EmptyWorkingSet(10),
        TrimAction::QueryWorkingSet(10),
        TrimAction::Pause(150),
    ]
}

#[test]
fn a_failure_in_the_first_round_is_final() {
    let list = vec![process(10, "a", 500)];
    let run = trim_working_sets_aggressive(options(), false, &list);
    let (run, actions) = drive(run, |action| match action {
        TrimAction::EmptyWorkingSet(_) => TrimReply::Called(Err(error("EmptyWorkingSet", 1))),
        TrimAction::ShrinkWorkingSet(_) => TrimReply::Called(Err(error("Set", 2))),
        _ => TrimReply::Rested,
    });
    assert_eq!(
        actions,
        [
            TrimAction::EmptyWorkingSet(10),
            TrimAction::ShrinkWorkingSet(10),
            TrimAction::Pause(150)
        ]
    );
    let report = run.finish();
    assert_eq!(report.rounds_executed, 1);
    assert!(matches!(
        &report.results[0].status,
        TrimStatus::Failed(m) if m == "Set failed with Windows error 2 (m)"
    ));
}

#[test]
fn a_later_failure_leaves_no_mark() {
    let list = vec![process(10, "a", 500)];
    let mut calls = 0;
    let run = trim_working_sets_aggressive(options(), false, &list);
    let (run, _) = drive(run, |action| match action {
        TrimAction::EmptyWorkingSet(_) => {
            calls += 1;
            if calls == 1 {
                TrimReply::Called(Ok(()))
            } else {
                TrimReply::Called(Err(error("E", 5)))
            }
        }
        TrimAction::ShrinkWorkingSet(_) => TrimReply::Called(Err(error("S", 5))),
        TrimAction::QueryWorkingSet(_) => TrimReply::Measured(None),
        _ => TrimReply::Rested,
    });
    let report = run.finish();
    assert!(matches!(report.results[0].status, TrimStatus::Trimmed));
    assert_eq!(report.results[0].after_working_set, None);
    assert_eq!((report.rounds_executed, report.process_trim_delta_bytes), (3, 0));
}

#[test]
fn a_shrunk_working_set_counts_as_trimmed() {
    let list = vec![process(10, "a", 500)];
    let mut run = trim_working_sets_aggressive(options(), false, &list);
    run.step(TrimReply::Rested);
    assert_eq!(run.next_action(), TrimAction::EmptyWorkingSet(10));
    run.step(TrimReply::Called(Err(error("E", 1))));
    run.step(TrimReply::Called(Ok(())));
    assert_eq!(run.next_action(), TrimAction::QueryWorkingSet(10));
    run.step(TrimReply::Measured(Some(600)));
    // Growth is no reduction.
    assert_eq!(run.finish().process_trim_delta_bytes, 0);
}

#[test]
fn unqueried_processes_are_tried_at_the_floor() {
    let mut p = process(10, "a", 0);
    p.query_error = Some("denied".to_owned());
    let run = trim_working_sets_aggressive(options(), false, &vec![p]);
    assert_eq!(run.candidates[0].current_working_set, 100);
    assert_eq!(run.next_action(), TrimAction::EmptyWorkingSet(10));
}

#[test]
fn no_candidate_means_no_round() {
    let run = trim_working_sets_aggressive(options(), false, &vec![process(10, "a", 1)]);
    assert_eq!(run.next_action(), TrimAction::Done);
    let report = run.finish();
    assert_eq!((report.rounds_executed, report.results.len()), (0, 1));
}
