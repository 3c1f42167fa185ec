use memspark::policy::{
    browser_processes, is_system_boundary, listed, same_process_name, system_boundary_processes,
    vm_memory_processes, vm_stack_processes, ModePolicy, OptimizeMode, SkipReason, TrimMethod,
    TrimStatus,
};

#[test]
fn the_mode_has_many_spellings() {
    for name in [
        "memory",
        " MEMORY_optimization ",
        "memory-optimization",
        "optimize",
        "optimization",
        "内存优化",
        "normal",
        "Strong",
    ] {
        assert_eq!(OptimizeMode::from_str(name), Ok(OptimizeMode::MemoryOptimization), "{name}");
    }
    assert_eq!("normal".parse::<OptimizeMode>(), Ok(OptimizeMode::MemoryOptimization));
    assert!("normal2".parse::<OptimizeMode>().is_err());
    assert_eq!(
        OptimizeMode::from_str(" Turbo "),
        Err("unsupported optimize mode: turbo".to_owned())
    );
    assert_eq!(OptimizeMode::MemoryOptimization.as_str(), "memory_optimization");
    assert_eq!(OptimizeMode::MemoryOptimization.display_name(), "内存优化");
    assert_eq!(OptimizeMode::MemoryOptimization.to_text(), "内存优化");
}

#[test]
fn the_floor_is_counted_in_bytes() {
    let mut policy = ModePolicy::memory_optimization();
    assert_eq!(policy.min_working_set_bytes(), 10 * 1024 * 1024);
    policy.min_working_set_mb = u64::MAX;
    assert_eq!(policy.min_working_set_bytes(), u64::MAX);
    assert_eq!(policy.trim_method, TrimMethod::EmptyWorkingSet);
    assert_eq!(TrimMethod::default().to_text(), "EmptyWorkingSet");
    assert_eq!(TrimMethod::SetProcessWorkingSetSizeEx.to_text(), "SetProcessWorkingSetSizeEx");
}

#[test]
fn names_are_the_same_whatever_the_letter_case() {
    assert!(same_process_name("Chrome.EXE", "chrome.exe"));
    assert!(same_process_name("CHROME.exe", "Chrome.EXE"));
    assert!(!same_process_name("chrome", "chrome.exe"));
    assert!(is_system_boundary("LSASS.exe"));
    assert!(!is_system_boundary("explorer.exe"));
    assert!(listed(browser_processes(), "FireFox.exe"));
    assert!(!listed(browser_processes(), "notepad.exe"));
    assert_eq!(system_boundary_processes().len(), 11);
    assert_eq!(browser_processes().len(), 12);
    assert_eq!(vm_memory_processes().len(), 9);
    assert_eq!(vm_stack_processes().len(), 21);
}

#[test]
fn statuses_and_reasons_have_words() {
    let reasons = [
        (SkipReason::SystemProcess, "system process"),
        (SkipReason::SelfProcess, "self process"),
        (SkipReason::ForegroundProcess, "foreground process"),
        (SkipReason::SystemBoundaryProcess, "system boundary process"),
        (SkipReason::LegacyRecommendedRule, "legacy recommended rule"),
        (SkipReason::LegacyUserRule, "legacy user rule"),
        (SkipReason::WorkingSetTooSmall, "working set below policy threshold"),
        (SkipReason::AccessDenied, "access denied"),
        (SkipReason::OpenProcessFailed, "OpenProcess failed"),
        (SkipReason::QueryFailed, "process query failed"),
        (SkipReason::ProcessExited, "process exited"),
        (SkipReason::HighCpuUsage, "high CPU usage"),
        (SkipReason::HighIoActivity, "high I/O activity"),
        (SkipReason::Other("odd".to_owned()), "odd"),
    ];
    for (reason, words) in reasons {
        assert_eq!(reason.to_text(), words);
        assert_eq!(TrimStatus::Skipped(reason.clone()).to_text(), format!("skipped: {words}"));
    }
    assert_eq!(TrimStatus::WouldTrim.to_text(), "would trim");
    assert_eq!(TrimStatus::Trimmed.to_text(), "trimmed");
    assert_eq!(TrimStatus::Failed("x".to_owned()).to_text(), "failed: x");
}
