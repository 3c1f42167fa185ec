use memspark::query::{
    begin_query, opening_progress, OpenProgress, QueryAction, QueryKind, QueryReply,
};
use memspark::winapi::{
    enable_debug_privilege, enable_increase_quota_privilege, enable_profile_privilege,
    enumerate_processes_raw, foreground_owner, foreground_process_id,
    graceful_close_process_windows, is_running_as_admin, memory_list_command_value,
    memory_list_outcome, memory_snapshot, ntstatus_error, privilege_outcome, query_attempts,
    query_memory_attempts, query_process, query_process_working_set, run_elevated_and_wait,
    set_system_memory_list, terminate_attempts, terminate_process, trim_attempts,
    trim_fallback_attempts, trim_process_empty_working_set, trim_process_set_working_set_size_ex,
    wait_attempts, wait_for_process_exit, wait_outcome, wide_array_to_string, wide_null,
    working_set_attempts, MemoryListCommand, WaitOutcome, WinApiError,
};

fn error(code: u32) -> WinApiError {
    WinApiError { context: "C", code, message: "m".to_owned() }
}

#[test]
fn error_codes_are_classified() {
    assert!(error(5).is_access_denied());
    assert!(!error(6).is_access_denied());
    for code in [87, 1168, 18] {
        assert!(error(code).is_process_exited());
    }
    assert!(!error(5).is_process_exited());
    assert_eq!(error(31).to_text(), "C failed with Windows error 31 (m)");
}

#[test]
fn statuses_become_errors() {
    assert!(memory_list_outcome(0).is_ok());
    let privilege = memory_list_outcome(0xC000_0061u32 as i32).unwrap_err();
    assert_eq!(privilege.message, "privilege not held; run MemSpark as administrator");
    assert_eq!(privilege.code, 0xC000_0061);
    assert_eq!(privilege.context, "NtSetSystemInformation(SystemMemoryListInformation)");
    let denied = ntstatus_error("X", 0xC000_0022u32 as i32);
    assert_eq!(denied.message, "access denied; run MemSpark as administrator");
    let other = ntstatus_error("X", 0x1f);
    assert_eq!((other.message.as_str(), other.code), ("NTSTATUS 0x0000001F", 31));
    assert_eq!(memory_list_command_value(MemoryListCommand::EmptyWorkingSets), 2);
    assert_eq!(memory_list_command_value(MemoryListCommand::FlushModifiedList), 3);
    assert_eq!(memory_list_command_value(MemoryListCommand::PurgeStandbyList), 4);
    assert_eq!(memory_list_command_value(MemoryListCommand::PurgeLowPriorityStandbyList), 5);
    assert!(privilege_outcome("P", 0).is_ok());
    let missing = privilege_outcome("P", 1300).unwrap_err();
    assert_eq!((missing.context, missing.code), ("P", 1300));
    assert_eq!(
        missing.message,
        "current token does not hold the required privilege; run as administrator"
    );
    assert_eq!(wait_outcome(0), WaitOutcome::Exited);
    assert_eq!(wait_outcome(0x102), WaitOutcome::StillRunning);
    assert_eq!(wait_outcome(0xffff_ffff), WaitOutcome::Failed);
    assert_eq!(foreground_owner(0), None);
    assert_eq!(foreground_owner(9), Some(9));
}

#[test]
fn wide_strings_agree_with_std() {
    for s in ["", "plain", "内存", "\u{1F600}x\u{10FFFF}"] {
        let wide = wide_null(s);
        let expected: Vec<u16> = s.encode_utf16().chain(std::iter::once(0)).collect();
        assert_eq!(wide, expected);
        assert_eq!(wide_array_to_string(&wide), s);
    }
    let odd = vec![0x41u16, 0xD800, 0x42, 0xDC00, 0xD83D, 0xDE00, 0xD83D];
    assert_eq!(wide_array_to_string(&odd), String::from_utf16_lossy(&odd));
    assert_eq!(wide_array_to_string(&vec![0x41, 0, 0x42]), "A");
}

#[test]
fn processes_are_opened_with_fewer_rights_each_time() {
    assert_eq!(query_attempts()[1].context, "OpenProcess(query)");
    assert_eq!(query_memory_attempts()[0].access, 0x0410);
    assert_eq!(working_set_attempts()[1].context, "OpenProcess(query working set)");
    assert_eq!(trim_attempts().len(), 4);
    assert_eq!(trim_fallback_attempts()[2].context, "OpenProcess(trim fallback quota only)");
    assert_eq!(wait_attempts()[0].access, 0x0010_0000);
    assert_eq!(terminate_attempts()[0].access, 1);
    let attempts = trim_attempts();
    assert!(matches!(opening_progress(&attempts, 0, Ok(())), OpenProgress::Opened));
    assert!(matches!(opening_progress(&attempts, 0, Err(error(5))), OpenProgress::Retry(1)));
    assert!(matches!(
        opening_progress(&attempts, 3, Err(error(6))),
        OpenProgress::Failed(e) if e.code == 6
    ));
}

#[test]
fn a_query_reads_memory_and_path() {
    let run = begin_query(QueryKind::Everything);
    assert!(matches!(run.next_action(), QueryAction::Open(a) if a.access == 0x1000));
    let run = run.step(QueryReply::Opened(Err(error(5))));
    assert!(matches!(run.next_action(), QueryAction::Open(a) if a.access == 0x0400));
    let run = run.step(QueryReply::Opened(Ok(())));
    assert!(matches!(run.next_action(), QueryAction::ReadMemory));
    let run = run.step(QueryReply::Memory(Err(error(5))));
    assert!(matches!(
        run.next_action(),
        QueryAction::Reopen(a) if a.access == 0x0410 && a.context == "OpenProcess(query memory)"
    ));
    let run = run.step(QueryReply::Opened(Ok(())));
    assert!(matches!(run.next_action(), QueryAction::RereadMemory));
    let run = run.step(QueryReply::Memory(Ok((7, Some(8)))));
    assert!(matches!(run.next_action(), QueryAction::ReadPath));
    let run = run.step(QueryReply::Path(Some("p".to_owned())));
    assert!(matches!(run.next_action(), QueryAction::Done));
    let info = run.finish().unwrap().unwrap();
    assert_eq!((info.working_set, info.private_usage), (7, Some(8)));
    assert_eq!(info.path.as_deref(), Some("p"));
}

#[test]
fn a_query_fails_with_the_last_error() {
    let run = begin_query(QueryKind::WorkingSet);
    let run = run.step(QueryReply::Opened(Err(error(5))));
    let run = run.step(QueryReply::Opened(Err(error(87))));
    assert_eq!(run.finish().unwrap().unwrap_err().code, 87);

    let run = begin_query(QueryKind::WorkingSet).step(QueryReply::Opened(Ok(())));
    let run = run.step(QueryReply::Memory(Err(error(1))));
    let run = run.step(QueryReply::Opened(Err(error(2))));
    assert!(matches!(
        run.next_action(),
        QueryAction::Reopen(a) if a.context == "OpenProcess(query working set)"
    ));
    let run = run.step(QueryReply::Opened(Ok(())));
    let run = run.step(QueryReply::Memory(Err(error(3))));
    assert_eq!(run.finish().unwrap().unwrap_err().code, 3);

    let run = begin_query(QueryKind::WorkingSet).step(QueryReply::Opened(Ok(())));
    // A reply that answers nothing changes nothing.
    let run = run.step(QueryReply::Path(None));
    let run = run.step(QueryReply::Memory(Ok((5, None))));
    assert_eq!(run.finish().unwrap().unwrap().working_set, 5);
}

#[test]
fn nothing_is_supported_elsewhere() {
    assert!(matches!(foreground_process_id(), Ok(None)));
    assert_eq!(
        memory_snapshot().unwrap_err().to_text(),
        "unsupported on this platform: MemSpark core memory snapshot requires Windows"
    );
    assert_eq!(
        enumerate_processes_raw().unwrap_err().to_text(),
        "unsupported on this platform: MemSpark process enumeration requires Windows"
    );
    assert!(!is_running_as_admin());
    let failures: Vec<(WinApiError, &str)> = vec![
        (query_process(1).unwrap_err(), "query_process"),
        (query_process_working_set(1).unwrap_err(), "query_process_working_set"),
        (trim_process_empty_working_set(1).unwrap_err(), "trim_process_empty_working_set"),
        (
            trim_process_set_working_set_size_ex(1).unwrap_err(),
            "trim_process_set_working_set_size_ex",
        ),
        (graceful_close_process_windows(1).unwrap_err(), "graceful_close_process_windows"),
        (wait_for_process_exit(1, 2).unwrap_err(), "wait_for_process_exit"),
        (terminate_process(1).unwrap_err(), "terminate_process"),
        (enable_profile_privilege().unwrap_err(), "enable_profile_privilege"),
        (enable_debug_privilege().unwrap_err(), "enable_debug_privilege"),
        (enable_increase_quota_privilege().unwrap_err(), "enable_increase_quota_privilege"),
        (run_elevated_and_wait("a", "b").unwrap_err(), "run_elevated_and_wait"),
        (
            set_system_memory_list(MemoryListCommand::PurgeStandbyList).unwrap_err(),
            "set_system_memory_list",
        ),
    ];
    for (failure, context) in failures {
        assert_eq!(failure.context, context);
        assert_eq!((failure.code, failure.message.as_str()), (0, "Windows-only API"));
    }
}
