//! Closing processes to release memory.
//!
//! A run goes through the processes in one pass, or in up to three when processes may be
//! killed. It decides which process is closed, which call comes next and what a reply means;
//! the calls themselves are made by whoever drives the run.

use crate::error::MemSparkError;
use crate::order;
use crate::policy::{
    browser_processes, is_system_boundary, listed, slice_views, vm_stack_processes,
};
use crate::process::ProcessInfo;
use crate::text;
use crate::text::{lower_text, starts_with};
use crate::winapi::WinApiError;
use vstd::prelude::*;

verus! {

/// What a run reports.
#[derive(Debug)]
pub struct ProcessReleaseReport {
    pub dry_run: bool,
    pub enabled: bool,
    pub allow_force_kill: bool,
    pub duration_ms: u64,
    pub scanned_count: usize,
    pub matched_count: usize,
    pub graceful_closed_count: usize,
    pub force_killed_count: usize,
    pub skipped_count: usize,
    pub failed_count: usize,
    pub results: Vec<ProcessReleaseResult>,
}

/// What happened to one process.
#[derive(Debug)]
pub struct ProcessReleaseResult {
    pub pid: Option<u32>,
    pub name: String,
    pub status: ProcessReleaseStatus,
}

/// What became of a process.
#[derive(Debug)]
pub enum ProcessReleaseStatus {
    WouldGracefulClose,
    WouldGracefulCloseThenForceIfNeeded,
    GracefulClosed,
    GracefulCloseRequested,
    ForceKilled,
    Skipped(ProcessReleaseSkipReason),
    Failed(String),
}

/// Why a process was left running.
#[derive(Debug, Clone, Copy, PartialEq, Eq, Structural)]
pub enum ProcessReleaseSkipReason {
    BlockedSystemOrServiceProcess,
    SystemBoundaryProcess,
    SelfProcess,
    ForegroundProcess,
    ForceKillDisabled,
}

// ---------------------------------------------------------------------------
// Which processes are closed, and in which order
// ---------------------------------------------------------------------------

/// The processes that are never closed, besides those at the system boundary.
pub open spec fn blocked_names() -> Seq<Seq<char>> {
    seq![
        "System"@,
        "Idle"@,
        "Registry"@,
        "smss.exe"@,
        "csrss.exe"@,
        "wininit.exe"@,
        "services.exe"@,
        "lsass.exe"@,
        "winlogon.exe"@,
        "fontdrvhost.exe"@,
        "dwm.exe"@,
        "explorer.exe"@,
        "svchost.exe"@,
        "conhost.exe"@,
        "sihost.exe"@,
        "RuntimeBroker.exe"@,
        "SearchIndexer.exe"@,
        "audiodg.exe"@,
        "spoolsv.exe"@,
        "memspark.exe"@,
        "memspark-ui.exe"@,
        "memspark-cli.exe"@,
    ]
}

/// The processes that are never closed, besides those at the system boundary.
pub fn process_release_blocked_processes() -> (r: &'static [&'static str])
    ensures
        slice_views(r@) == blocked_names(),
{
    let r: &'static [&'static str] = &[
        "System",
        "Idle",
        "Registry",
        "smss.exe",
        "csrss.exe",
        "wininit.exe",
        "services.exe",
        "lsass.exe",
        "winlogon.exe",
        "fontdrvhost.exe",
        "dwm.exe",
        "explorer.exe",
        "svchost.exe",
        "conhost.exe",
        "sihost.exe",
        "RuntimeBroker.exe",
        "SearchIndexer.exe",
        "audiodg.exe",
        "spoolsv.exe",
        "memspark.exe",
        "memspark-ui.exe",
        "memspark-cli.exe",
    ];
    assert(slice_views(r@) =~= blocked_names());
    r
}

/// Whether a name is that of a single-file MemSpark program, such as
/// `MemSpark-GUI-v0.1.4-windows-x64.exe`. Letter case does not matter.
pub open spec fn is_single_file_program(name: Seq<char>) -> bool {
    ||| text::occurs_at(text::lowered(name), "memspark-gui-"@, 0)
    ||| text::occurs_at(text::lowered(name), "memspark-cli-"@, 0)
}

/// Tells whether a name is that of a single-file MemSpark program.
pub fn is_single_file_name(name: &str) -> (r: bool)
    ensures
        r == is_single_file_program(name@),
{
    let lowered: String = lower_text(name);
    starts_with(lowered.as_str(), "memspark-gui-") || starts_with(
        lowered.as_str(),
        "memspark-cli-",
    )
}

/// Whether a name is one that is never closed.
pub open spec fn is_blocked(name: Seq<char>, keep_vm_stack: bool) -> bool {
    ||| crate::policy::is_listed(blocked_names(), name)
    ||| is_single_file_program(name)
    ||| crate::policy::is_listed(crate::policy::boundary_names(), name)
    ||| keep_vm_stack && crate::policy::is_listed(crate::policy::vm_stack_names(), name)
}

/// Tells whether a name is one that is never closed.
pub fn is_process_release_blocked(name: &str, keep_vm_stack: bool) -> (r: bool)
    ensures
        r == is_blocked(name@, keep_vm_stack),
{
    listed(process_release_blocked_processes(), name) || is_single_file_name(name)
        || is_system_boundary(name) || (keep_vm_stack && listed(vm_stack_processes(), name))
}

/// Whether a name is that of a web browser.
pub open spec fn is_browser(name: Seq<char>) -> bool {
    crate::policy::is_listed(crate::policy::browser_names(), name)
}

/// The rank of a name: browsers stand before all others.
pub fn browser_priority(process_name: &str) -> (r: u8)
    ensures
        r == if is_browser(process_name@) {
            1u8
        } else {
            0u8
        },
{
    if listed(browser_processes(), process_name) {
        1
    } else {
        0
    }
}

/// The sort key of a process: browsers first, then by working set.
pub open spec fn release_key(process: ProcessInfo) -> u128 {
    if is_browser(process.name@) {
        (0x1_0000_0000_0000_0000 + process.working_set) as u128
    } else {
        process.working_set as u128
    }
}

/// The sort keys of processes.
pub open spec fn release_keys(processes: Seq<ProcessInfo>) -> Seq<u128> {
    processes.map_values(|p: ProcessInfo| release_key(p))
}

/// The processes in the order in which they are closed: browsers first, larger working sets
/// first, equal ones in their order.
pub open spec fn by_release_key(processes: Seq<ProcessInfo>) -> Seq<ProcessInfo> {
    order::rearranged(
        processes,
        choose|o: Seq<usize>| order::is_descending_order(o, release_keys(processes)),
    )
}

/// Sorts processes into the order in which they are closed.
fn release_queue(processes: &Vec<ProcessInfo>) -> (r: Vec<ProcessInfo>)
    ensures
        r@ == by_release_key(processes@),
        r@.len() == processes@.len(),
{
    let mut keys: Vec<u128> = Vec::with_capacity(processes.len());
    let mut k: usize = 0;
    while k < processes.len()
        invariant
            k <= processes@.len(),
            keys@ == release_keys(processes@.take(k as int)),
        decreases processes@.len() - k,
    {
        let process: &ProcessInfo = &processes[k];
        let key: u128 = if browser_priority(process.name.as_str()) == 1 {
            0x1_0000_0000_0000_0000 + process.working_set as u128
        } else {
            process.working_set as u128
        };
        keys.push(key);
        k = k + 1;
        assert(keys@ =~= release_keys(processes@.take(k as int)));
    }
    assert(processes@.take(k as int) =~= processes@);
    let order: Vec<usize> = order::descending_order(&keys);
    proof {
        let picked = choose|o: Seq<usize>|
            order::is_descending_order(o, release_keys(processes@));
        order::descending_order_unique(order@, picked, release_keys(processes@));
    }
    let mut queue: Vec<ProcessInfo> = Vec::with_capacity(order.len());
    let mut i: usize = 0;
    while i < order.len()
        invariant
            i <= order@.len(),
            order@.len() == processes@.len(),
            order::is_descending_order(order@, release_keys(processes@)),
            queue@ == order::rearranged(processes@, order@).take(i as int),
        decreases order@.len() - i,
    {
        queue.push(processes[order[i]].clone());
        i = i + 1;
        assert(queue@ =~= order::rearranged(processes@, order@).take(i as int));
    }
    assert(queue@ =~= by_release_key(processes@));
    queue
}

/// Browsers are closed before other processes, and among either the one with the larger
/// working set comes first.
pub proof fn browsers_come_first(processes: Seq<ProcessInfo>, i: int, j: int)
    requires
        processes.len() <= usize::MAX,
        0 <= i < j < processes.len(),
    ensures
        is_browser(by_release_key(processes)[j].name@) ==> is_browser(
            by_release_key(processes)[i].name@,
        ),
        is_browser(by_release_key(processes)[i].name@) == is_browser(
            by_release_key(processes)[j].name@,
        ) ==> by_release_key(processes)[i].working_set >= by_release_key(processes)[j].working_set,
        by_release_key(processes).to_multiset() == processes.to_multiset(),
{
    let keys = release_keys(processes);
    order::descending_order_exists(keys);
    let o = choose|o: Seq<usize>| order::is_descending_order(o, keys);
    order::sorting_keeps_items(processes, o, keys);
    assert(order::comes_first(keys, o[i] as int, o[j] as int));
}

// ---------------------------------------------------------------------------
// Counting results
// ---------------------------------------------------------------------------

/// The sum of two counters; a sum out of range wraps around.
pub open spec fn wrapped_sum(a: int, b: int) -> int {
    if a + b <= usize::MAX {
        a + b
    } else {
        a + b - usize::MAX - 1
    }
}

/// What results are counted by.
#[derive(Debug, Clone, Copy, PartialEq, Eq, Structural)]
pub enum ReleaseCount {
    /// The process was to be closed.
    Matched,
    /// The process closed itself when asked to.
    Closed,
    /// The process was killed.
    Killed,
    /// The process was left running.
    Skipped,
    /// Closing failed.
    Failed,
}

impl ReleaseCount {
    /// Whether a status counts.
    pub open spec fn counts(self, status: ProcessReleaseStatus) -> bool {
        match self {
            ReleaseCount::Matched => match status {
                ProcessReleaseStatus::Skipped(reason) => reason
                    == ProcessReleaseSkipReason::ForceKillDisabled,
                _ => true,
            },
            ReleaseCount::Closed => status is GracefulClosed,
            ReleaseCount::Killed => status is ForceKilled,
            ReleaseCount::Skipped => status is Skipped,
            ReleaseCount::Failed => status is Failed,
        }
    }
}

/// How many results count.
pub open spec fn counted(results: Seq<ProcessReleaseResult>, what: ReleaseCount) -> nat
    decreases results.len(),
{
    if results.len() == 0 {
        0
    } else {
        counted(results.drop_last(), what) + if what.counts(results.last().status) {
            1nat
        } else {
            0nat
        }
    }
}

/// Bounds on what is counted.
proof fn lemma_counted(results: Seq<ProcessReleaseResult>)
    ensures
        counted(results, ReleaseCount::Matched) <= results.len(),
        counted(results, ReleaseCount::Skipped) <= results.len(),
        counted(results, ReleaseCount::Failed) <= results.len(),
        counted(results, ReleaseCount::Closed) + counted(results, ReleaseCount::Killed)
            <= results.len(),
    decreases results.len(),
{
    if results.len() > 0 {
        lemma_counted(results.drop_last());
    }
}

impl ProcessReleaseReport {
    /// Whether the counters agree with the results.
    pub open spec fn counters_agree(self) -> bool {
        &&& self.matched_count == counted(self.results@, ReleaseCount::Matched)
        &&& self.graceful_closed_count == counted(self.results@, ReleaseCount::Closed)
        &&& self.force_killed_count == counted(self.results@, ReleaseCount::Killed)
        &&& self.skipped_count == counted(self.results@, ReleaseCount::Skipped)
        &&& self.failed_count == counted(self.results@, ReleaseCount::Failed)
    }

    /// How many processes have come to an end.
    pub open spec fn terminated(self) -> int {
        self.graceful_closed_count + self.force_killed_count
    }

    /// Adds up how many processes have come to an end.
    pub fn terminated_count(&self) -> (r: usize)
        requires
            self.counters_agree(),
        ensures
            r == self.terminated(),
    {
        let total: usize = self.results.len();
        proof {
            lemma_counted(self.results@);
            assert(total == self.results@.len());
        }
        self.graceful_closed_count + self.force_killed_count
    }

    /// Whether `next` is this report with one more result.
    pub open spec fn records(self, next: ProcessReleaseReport, result: ProcessReleaseResult) -> bool {
        &&& next.dry_run == self.dry_run
        &&& next.enabled == self.enabled
        &&& next.allow_force_kill == self.allow_force_kill
        &&& next.duration_ms == self.duration_ms
        &&& next.scanned_count == self.scanned_count
        &&& next.results@ == self.results@.push(result)
        &&& next.counters_agree()
    }

    /// Adds a result and counts it.
    fn record(&mut self, result: ProcessReleaseResult)
        requires
            old(self).counters_agree(),
        ensures
            old(self).records(*final(self), result),
    {
        let matched: bool = match &result.status {
            ProcessReleaseStatus::Skipped(reason) => matches!(
                reason,
                ProcessReleaseSkipReason::ForceKillDisabled
            ),
            _ => true,
        };
        let closed: bool = matches!(&result.status, ProcessReleaseStatus::GracefulClosed);
        let killed: bool = matches!(&result.status, ProcessReleaseStatus::ForceKilled);
        let skipped: bool = matches!(&result.status, ProcessReleaseStatus::Skipped(_));
        let failed: bool = matches!(&result.status, ProcessReleaseStatus::Failed(_));
        self.results.push(result);
        let total: usize = self.results.len();
        proof {
            assert(self.results@.drop_last() =~= old(self).results@);
            lemma_counted(old(self).results@);
            assert(total == old(self).results@.len() + 1);
        }
        if matched {
            self.matched_count = self.matched_count + 1;
        }
        if closed {
            self.graceful_closed_count = self.graceful_closed_count + 1;
        }
        if killed {
            self.force_killed_count = self.force_killed_count + 1;
        }
        if skipped {
            self.skipped_count = self.skipped_count + 1;
        }
        if failed {
            self.failed_count = self.failed_count + 1;
        }
    }
}

/// A recorded result adds to the processes that have come to an end if it is one of them.
proof fn lemma_recorded(
    report: ProcessReleaseReport,
    next: ProcessReleaseReport,
    result: ProcessReleaseResult,
)
    requires
        report.counters_agree(),
        report.records(next, result),
    ensures
        next.terminated() == report.terminated() + if result.status is GracefulClosed
            || result.status is ForceKilled {
            1int
        } else {
            0int
        },
{
    assert(next.results@.drop_last() =~= report.results@);
}

// ---------------------------------------------------------------------------
// The run
// ---------------------------------------------------------------------------

/// Where a run stands.
#[derive(Debug, Clone, Copy, PartialEq, Eq, Structural)]
pub enum ReleaseStage {
    /// A pass begins; the processes are being listed.
    Listing,
    /// It is the turn of the process at the current position.
    Choosing,
    /// The process is being asked to close its windows.
    Closing,
    /// The process has been asked and may be exiting.
    AwaitingClose,
    /// The process is being killed.
    Killing,
    /// The process has been killed and may be exiting.
    AwaitingKill,
    /// A further pass has ended with processes closed.
    Judging,
    /// A pass has ended and another one follows.
    Resting,
    /// The run is over.
    Finished,
}

/// What a run needs next.
#[derive(Debug, Clone, Copy, PartialEq, Eq, Structural)]
pub enum ReleaseAction {
    ListProcesses,
    ReadMemoryLoad,
    Continue,
    CloseWindows(u32),
    WaitForExit(u32, u32),
    Terminate(u32),
    Pause(u64),
    Done,
}

/// The reply to what a run needed.
#[derive(Debug)]
pub enum ReleaseReply {
    /// The processes, in the order in which the system lists them.
    Listed(Result<Vec<ProcessInfo>, MemSparkError>),
    /// The memory load in percent, if it could be read.
    Load(Option<u32>),
    /// Nothing was to be done.
    Continued,
    /// To how many windows the request to close was posted.
    Posted(Result<u32, WinApiError>),
    /// Whether the process has exited.
    Waited(Result<bool, WinApiError>),
    /// How terminating the process ended.
    Terminated(Result<(), WinApiError>),
    /// The pause is over.
    Rested,
}

/// A run that closes processes.
#[derive(Debug)]
pub struct ProcessReleaseRun {
    pub target_memory_load_percent: Option<u32>,
    pub max_terminated_processes: usize,
    pub keep_vm_stack: bool,
    pub report: ProcessReleaseReport,
    pub queue: Vec<ProcessInfo>,
    pub position: usize,
    pub pass: u32,
    pub terminated_before: usize,
    pub stage: ReleaseStage,
    pub failure: Option<MemSparkError>,
}

/// How long a process that was asked to close may take, in milliseconds.
pub const CLOSE_TIMEOUT_MS: u32 = 5000;

/// How long a killed process may take, in milliseconds.
pub const KILL_TIMEOUT_MS: u32 = 3000;

/// The pause between two passes, in milliseconds.
pub const PASS_DELAY_MS: u64 = 500;

/// How many passes may follow the first.
pub const EXTRA_PASSES: u32 = 2;

/// Whether the load that was read meets the target. Without a target, or when the load could
/// not be read, it does not.
pub open spec fn reached(target: Option<u32>, load: Option<u32>) -> bool {
    target matches Some(t) && load matches Some(l) && l <= t
}

/// Tells whether the load that was read meets the target.
pub fn target_reached(target_memory_load_percent: Option<u32>, load: Option<u32>) -> (r: bool)
    ensures
        r == reached(target_memory_load_percent, load),
{
    match (target_memory_load_percent, load) {
        (Some(target), Some(load)) => load <= target,
        _ => false,
    }
}

/// Why a process is left running without trying, if it is.
pub open spec fn release_skip(process: ProcessInfo, keep_vm_stack: bool) -> Option<
    ProcessReleaseSkipReason,
> {
    if process.is_self {
        Some(ProcessReleaseSkipReason::SelfProcess)
    } else if process.pid <= 4 || crate::policy::is_listed(
        crate::policy::boundary_names(),
        process.name@,
    ) {
        Some(ProcessReleaseSkipReason::SystemBoundaryProcess)
    } else if is_blocked(process.name@, keep_vm_stack) {
        Some(ProcessReleaseSkipReason::BlockedSystemOrServiceProcess)
    } else if process.is_foreground {
        Some(ProcessReleaseSkipReason::ForegroundProcess)
    } else {
        None
    }
}

/// Decides whether a process is left running without trying, and why.
pub fn release_skip_reason(process: &ProcessInfo, keep_vm_stack: bool) -> (r: Option<
    ProcessReleaseSkipReason,
>)
    ensures
        r == release_skip(*process, keep_vm_stack),
{
    if process.is_self {
        return Some(ProcessReleaseSkipReason::SelfProcess);
    }
    if process.pid <= 4 || is_system_boundary(process.name.as_str()) {
        return Some(ProcessReleaseSkipReason::SystemBoundaryProcess);
    }
    if is_process_release_blocked(process.name.as_str(), keep_vm_stack) {
        return Some(ProcessReleaseSkipReason::BlockedSystemOrServiceProcess);
    }
    if process.is_foreground {
        return Some(ProcessReleaseSkipReason::ForegroundProcess);
    }
    None
}

/// The result for a process that is left running without trying; process 0 is not numbered.
pub open spec fn skipped_result(
    process: ProcessInfo,
    reason: ProcessReleaseSkipReason,
) -> ProcessReleaseResult {
    ProcessReleaseResult {
        pid: if process.pid == 0 {
            None
        } else {
            Some(process.pid)
        },
        name: process.name,
        status: ProcessReleaseStatus::Skipped(reason),
    }
}

/// The result for a process that was to be closed.
pub open spec fn closing_result(
    process: ProcessInfo,
    status: ProcessReleaseStatus,
) -> ProcessReleaseResult {
    ProcessReleaseResult { pid: Some(process.pid), name: process.name, status }
}

/// What a reply means for the process at hand: either its end or the next stage.
pub enum CloseProgress {
    Next(ReleaseStage),
    Ended(ProcessReleaseStatus),
}

impl CloseProgress {
    /// Whether closing has failed with `message`.
    pub open spec fn failed_with(self, message: Seq<char>) -> bool {
        self matches CloseProgress::Ended(status) && status matches ProcessReleaseStatus::Failed(
            text,
        ) && text@ == message
    }
}

/// Whether `progress` is what follows from asking a process to close its windows.
pub open spec fn after_posting(
    progress: CloseProgress,
    posted: Result<u32, WinApiError>,
    allow_force_kill: bool,
) -> bool {
    match posted {
        Ok(windows) => if windows > 0 {
            progress == CloseProgress::Next(ReleaseStage::AwaitingClose)
        } else if allow_force_kill {
            progress == CloseProgress::Next(ReleaseStage::Killing)
        } else {
            progress == CloseProgress::Ended(
                ProcessReleaseStatus::Skipped(ProcessReleaseSkipReason::ForceKillDisabled),
            )
        },
        Err(error) => if error.exited() {
            progress == CloseProgress::Ended(ProcessReleaseStatus::GracefulClosed)
        } else if allow_force_kill {
            progress == CloseProgress::Next(ReleaseStage::Killing)
        } else {
            progress.failed_with(error.described())
        },
    }
}

/// Reads the reply to asking a process to close its windows.
pub fn posting_progress(posted: &Result<u32, WinApiError>, allow_force_kill: bool) -> (r:
    CloseProgress)
    ensures
        after_posting(r, *posted, allow_force_kill),
{
    match posted {
        Ok(windows) => if *windows > 0 {
            CloseProgress::Next(ReleaseStage::AwaitingClose)
        } else if allow_force_kill {
            CloseProgress::Next(ReleaseStage::Killing)
        } else {
            CloseProgress::Ended(
                ProcessReleaseStatus::Skipped(ProcessReleaseSkipReason::ForceKillDisabled),
            )
        },
        Err(error) => if error.is_process_exited() {
            CloseProgress::Ended(ProcessReleaseStatus::GracefulClosed)
        } else if allow_force_kill {
            CloseProgress::Next(ReleaseStage::Killing)
        } else {
            CloseProgress::Ended(ProcessReleaseStatus::Failed(error.to_text()))
        },
    }
}

/// Whether `progress` is what follows from waiting for a process that was asked to close.
pub open spec fn after_close_wait(
    progress: CloseProgress,
    waited: Result<bool, WinApiError>,
    allow_force_kill: bool,
) -> bool {
    match waited {
        Ok(exited) => if exited {
            progress == CloseProgress::Ended(ProcessReleaseStatus::GracefulClosed)
        } else if allow_force_kill {
            progress == CloseProgress::Next(ReleaseStage::Killing)
        } else {
            progress == CloseProgress::Ended(ProcessReleaseStatus::GracefulCloseRequested)
        },
        Err(error) => if error.exited() {
            progress == CloseProgress::Ended(ProcessReleaseStatus::GracefulClosed)
        } else {
            progress.failed_with(error.described())
        },
    }
}

/// Reads the reply to waiting for a process that was asked to close.
pub fn close_wait_progress(waited: &Result<bool, WinApiError>, allow_force_kill: bool) -> (r:
    CloseProgress)
    ensures
        after_close_wait(r, *waited, allow_force_kill),
{
    match waited {
        Ok(exited) => if *exited {
            CloseProgress::Ended(ProcessReleaseStatus::GracefulClosed)
        } else if allow_force_kill {
            CloseProgress::Next(ReleaseStage::Killing)
        } else {
            CloseProgress::Ended(ProcessReleaseStatus::GracefulCloseRequested)
        },
        Err(error) => if error.is_process_exited() {
            CloseProgress::Ended(ProcessReleaseStatus::GracefulClosed)
        } else {
            CloseProgress::Ended(ProcessReleaseStatus::Failed(error.to_text()))
        },
    }
}

/// Whether `progress` is what follows from terminating a process.
pub open spec fn after_terminating(
    progress: CloseProgress,
    terminated: Result<(), WinApiError>,
) -> bool {
    match terminated {
        Ok(_) => progress == CloseProgress::Next(ReleaseStage::AwaitingKill),
        Err(error) => progress.failed_with(error.described()),
    }
}

/// Reads the reply to terminating a process.
pub fn terminating_progress(terminated: &Result<(), WinApiError>) -> (r: CloseProgress)
    ensures
        after_terminating(r, *terminated),
{
    match terminated {
        Ok(_) => CloseProgress::Next(ReleaseStage::AwaitingKill),
        Err(error) => CloseProgress::Ended(ProcessReleaseStatus::Failed(error.to_text())),
    }
}

/// Whether `progress` is what follows from waiting for a process that was killed.
pub open spec fn after_kill_wait(
    progress: CloseProgress,
    waited: Result<bool, WinApiError>,
) -> bool {
    match waited {
        Ok(exited) => if exited {
            progress == CloseProgress::Ended(ProcessReleaseStatus::ForceKilled)
        } else {
            progress.failed_with("强制终止已请求，但进程在超时时间内仍未退出。"@)
        },
        Err(error) => if error.exited() {
            progress == CloseProgress::Ended(ProcessReleaseStatus::ForceKilled)
        } else {
            progress.failed_with(error.described())
        },
    }
}

/// Reads the reply to waiting for a process that was killed.
pub fn kill_wait_progress(waited: &Result<bool, WinApiError>) -> (r: CloseProgress)
    ensures
        after_kill_wait(r, *waited),
{
    match waited {
        Ok(exited) => if *exited {
            CloseProgress::Ended(ProcessReleaseStatus::ForceKilled)
        } else {
            CloseProgress::Ended(
                ProcessReleaseStatus::Failed(
                    "强制终止已请求，但进程在超时时间内仍未退出。".to_owned(),
                ),
            )
        },
        Err(error) => if error.is_process_exited() {
            CloseProgress::Ended(ProcessReleaseStatus::ForceKilled)
        } else {
            CloseProgress::Ended(ProcessReleaseStatus::Failed(error.to_text()))
        },
    }
}

impl ProcessReleaseRun {
    /// The process whose turn it is.
    pub open spec fn current(self) -> ProcessInfo {
        self.queue@[self.position as int]
    }

    /// Whether the process at hand is being closed.
    pub open spec fn is_closing(self) -> bool {
        match self.stage {
            ReleaseStage::Closing => true,
            ReleaseStage::AwaitingClose => true,
            ReleaseStage::Killing => true,
            ReleaseStage::AwaitingKill => true,
            _ => false,
        }
    }

    /// Whether the run's parts fit together.
    pub open spec fn well_formed(self) -> bool {
        &&& self.report.counters_agree()
        &&& self.pass <= EXTRA_PASSES
        &&& self.pass > 0 ==> !self.report.dry_run && self.report.allow_force_kill
        &&& !self.report.dry_run ==> self.report.terminated() <= self.max_terminated_processes
        &&& self.stage == ReleaseStage::Choosing || self.is_closing() ==> self.position
            < self.queue@.len()
        &&& self.is_closing() ==> {
            &&& !self.report.dry_run
            &&& release_skip(self.current(), self.keep_vm_stack) is None
            &&& self.report.terminated() < self.max_terminated_processes
        }
        &&& self.stage == ReleaseStage::Killing || self.stage == ReleaseStage::AwaitingKill
            ==> self.report.allow_force_kill
        &&& self.stage == ReleaseStage::Judging ==> self.pass > 0
        &&& self.stage == ReleaseStage::Resting ==> {
            &&& self.pass < EXTRA_PASSES
            &&& !self.report.dry_run
            &&& self.report.allow_force_kill
        }
        &&& self.failure is Some ==> self.stage == ReleaseStage::Finished
    }

    /// Where the run stands when a pass has come to its end.
    pub open spec fn stage_after_pass(self) -> ReleaseStage {
        if self.pass == 0 {
            if !self.report.dry_run && self.report.allow_force_kill {
                ReleaseStage::Resting
            } else {
                ReleaseStage::Finished
            }
        } else if self.report.terminated() == self.terminated_before {
            ReleaseStage::Finished
        } else {
            ReleaseStage::Judging
        }
    }

    /// Where the run stands when the processes before the current position have had their turn.
    pub open spec fn stage_of_turn(self) -> ReleaseStage {
        if self.position < self.queue@.len() {
            ReleaseStage::Choosing
        } else {
            self.stage_after_pass()
        }
    }

    /// Whether `next` has the same task as this run.
    pub open spec fn same_task(self, next: ProcessReleaseRun) -> bool {
        &&& next.target_memory_load_percent == self.target_memory_load_percent
        &&& next.max_terminated_processes == self.max_terminated_processes
        &&& next.keep_vm_stack == self.keep_vm_stack
        &&& next.report.dry_run == self.report.dry_run
        &&& next.report.enabled == self.report.enabled
        &&& next.report.allow_force_kill == self.report.allow_force_kill
        &&& next.report.duration_ms == self.report.duration_ms
    }

    /// Whether `next` is this run after the turn of the process at hand has ended with `result`.
    pub open spec fn ends_turn(self, next: ProcessReleaseRun, result: ProcessReleaseResult) -> bool {
        &&& self.same_task(next)
        &&& self.report.records(next.report, result)
        &&& next.queue == self.queue
        &&& next.position == self.position + 1
        &&& next.pass == self.pass
        &&& next.terminated_before == self.terminated_before
        &&& next.failure == self.failure
        &&& next.stage == next.stage_of_turn()
    }

    /// Whether `next` is this run at the next stage.
    pub open spec fn moves_to(self, next: ProcessReleaseRun, stage: ReleaseStage) -> bool {
        next == ProcessReleaseRun { stage, ..self }
    }

    /// Whether `next` is this run after closing the process at hand has made `progress`.
    pub open spec fn progresses(self, next: ProcessReleaseRun, progress: CloseProgress) -> bool {
        match progress {
            CloseProgress::Next(stage) => self.moves_to(next, stage),
            CloseProgress::Ended(status) => self.ends_turn(
                next,
                closing_result(self.current(), status),
            ),
        }
    }

    /// Whether `next` is this run after the turn of the process at hand has begun.
    pub open spec fn chooses(self, next: ProcessReleaseRun, load: Option<u32>) -> bool {
        if reached(self.target_memory_load_percent, load) {
            self.moves_to(next, self.stage_after_pass())
        } else if !self.report.dry_run && self.report.terminated()
            >= self.max_terminated_processes {
            self.moves_to(next, self.stage_after_pass())
        } else {
            match release_skip(self.current(), self.keep_vm_stack) {
                Some(reason) => self.ends_turn(next, skipped_result(self.current(), reason)),
                None => if !self.report.dry_run {
                    self.moves_to(next, ReleaseStage::Closing)
                } else if self.report.allow_force_kill {
                    self.ends_turn(
                        next,
                        closing_result(
                            self.current(),
                            ProcessReleaseStatus::WouldGracefulCloseThenForceIfNeeded,
                        ),
                    )
                } else {
                    self.ends_turn(
                        next,
                        closing_result(
                            self.current(),
                            ProcessReleaseStatus::WouldGracefulClose,
                        ),
                    )
                },
            }
        }
    }

    /// Whether `next` is this run after a pass has been judged.
    pub open spec fn judges(self, next: ProcessReleaseRun, load: Option<u32>) -> bool {
        self.moves_to(
            next,
            if reached(self.target_memory_load_percent, load) || self.pass >= EXTRA_PASSES {
                ReleaseStage::Finished
            } else {
                ReleaseStage::Resting
            },
        )
    }

    /// Whether `next` is this run after a pass has begun with `processes`.
    pub open spec fn lists(self, next: ProcessReleaseRun, processes: Seq<ProcessInfo>) -> bool {
        &&& self.same_task(next)
        &&& next.report.scanned_count == wrapped_sum(
            self.report.scanned_count as int,
            processes.len() as int,
        )
        &&& next.report.results@ == self.report.results@
        &&& next.report.counters_agree()
        &&& next.queue@ == by_release_key(processes)
        &&& next.position == 0
        &&& next.pass == self.pass
        &&& next.terminated_before == self.terminated_before
        &&& next.failure == self.failure
        &&& next.stage == next.stage_of_turn()
    }

    /// Whether `reply` opens a turn: the memory load where there is a target, and the word to go
    /// on where there is none.
    pub open spec fn answers_turn(self, reply: ReleaseReply) -> bool {
        if self.target_memory_load_percent is Some {
            reply is Load
        } else {
            reply is Continued
        }
    }

    /// Whether `reply` answers what the run needs next.
    pub open spec fn expects(self, reply: ReleaseReply) -> bool {
        match self.stage {
            ReleaseStage::Listing => reply is Listed,
            ReleaseStage::Choosing => self.answers_turn(reply),
            ReleaseStage::Closing => reply is Posted,
            ReleaseStage::AwaitingClose => reply is Waited,
            ReleaseStage::Killing => reply is Terminated,
            ReleaseStage::AwaitingKill => reply is Waited,
            ReleaseStage::Judging => self.answers_turn(reply),
            ReleaseStage::Resting => reply is Rested,
            ReleaseStage::Finished => false,
        }
    }

    /// Whether `next` is this run after `reply`. A reply that answers nothing changes nothing.
    pub open spec fn steps(self, reply: ReleaseReply, next: ProcessReleaseRun) -> bool {
        let force = self.report.allow_force_kill;
        match (self.stage, reply) {
            (ReleaseStage::Listing, ReleaseReply::Listed(Ok(processes))) => {
                self.lists(next, processes@)
            },
            (ReleaseStage::Listing, ReleaseReply::Listed(Err(error))) => {
                next == (ProcessReleaseRun {
                    stage: ReleaseStage::Finished,
                    failure: Some(error),
                    ..self
                })
            },
            (ReleaseStage::Choosing, ReleaseReply::Load(load)) => {
                if self.target_memory_load_percent is Some {
                    self.chooses(next, load)
                } else {
                    next == self
                }
            },
            (ReleaseStage::Choosing, ReleaseReply::Continued) => {
                if self.target_memory_load_percent is None {
                    self.chooses(next, None)
                } else {
                    next == self
                }
            },
            (ReleaseStage::Closing, ReleaseReply::Posted(posted)) => {
                exists|progress: CloseProgress| #[trigger]
                    after_posting(progress, posted, force) && self.progresses(next, progress)
            },
            (ReleaseStage::AwaitingClose, ReleaseReply::Waited(waited)) => {
                exists|progress: CloseProgress| #[trigger]
                    after_close_wait(progress, waited, force) && self.progresses(next, progress)
            },
            (ReleaseStage::Killing, ReleaseReply::Terminated(terminated)) => {
                exists|progress: CloseProgress| #[trigger]
                    after_terminating(progress, terminated) && self.progresses(next, progress)
            },
            (ReleaseStage::AwaitingKill, ReleaseReply::Waited(waited)) => {
                exists|progress: CloseProgress| #[trigger]
                    after_kill_wait(progress, waited) && self.progresses(next, progress)
            },
            (ReleaseStage::Judging, ReleaseReply::Load(load)) => {
                if self.target_memory_load_percent is Some {
                    self.judges(next, load)
                } else {
                    next == self
                }
            },
            (ReleaseStage::Judging, ReleaseReply::Continued) => {
                if self.target_memory_load_percent is None {
                    self.judges(next, None)
                } else {
                    next == self
                }
            },
            (ReleaseStage::Resting, ReleaseReply::Rested) => {
                next == (ProcessReleaseRun {
                    pass: (self.pass + 1) as u32,
                    terminated_before: self.report.terminated() as usize,
                    stage: ReleaseStage::Listing,
                    ..self
                })
            },
            _ => next == self,
        }
    }

    /// What the run needs next.
    pub open spec fn needs(self) -> ReleaseAction {
        match self.stage {
            ReleaseStage::Listing => ReleaseAction::ListProcesses,
            ReleaseStage::Choosing => if self.target_memory_load_percent is Some {
                ReleaseAction::ReadMemoryLoad
            } else {
                ReleaseAction::Continue
            },
            ReleaseStage::Closing => ReleaseAction::CloseWindows(self.current().pid),
            ReleaseStage::AwaitingClose => ReleaseAction::WaitForExit(
                self.current().pid,
                CLOSE_TIMEOUT_MS,
            ),
            ReleaseStage::Killing => ReleaseAction::Terminate(self.current().pid),
            ReleaseStage::AwaitingKill => ReleaseAction::WaitForExit(
                self.current().pid,
                KILL_TIMEOUT_MS,
            ),
            ReleaseStage::Judging => if self.target_memory_load_percent is Some {
                ReleaseAction::ReadMemoryLoad
            } else {
                ReleaseAction::Continue
            },
            ReleaseStage::Resting => ReleaseAction::Pause(PASS_DELAY_MS),
            ReleaseStage::Finished => ReleaseAction::Done,
        }
    }

    /// Tells what the run needs next.
    pub fn next_action(&self) -> (r: ReleaseAction)
        requires
            self.well_formed(),
        ensures
            r == self.needs(),
    {
        let check: ReleaseAction = if self.target_memory_load_percent.is_some() {
            ReleaseAction::ReadMemoryLoad
        } else {
            ReleaseAction::Continue
        };
        match self.stage {
            ReleaseStage::Listing => ReleaseAction::ListProcesses,
            ReleaseStage::Choosing => check,
            ReleaseStage::Closing => ReleaseAction::CloseWindows(self.queue[self.position].pid),
            ReleaseStage::AwaitingClose => ReleaseAction::WaitForExit(
                self.queue[self.position].pid,
                CLOSE_TIMEOUT_MS,
            ),
            ReleaseStage::Killing => ReleaseAction::Terminate(self.queue[self.position].pid),
            ReleaseStage::AwaitingKill => ReleaseAction::WaitForExit(
                self.queue[self.position].pid,
                KILL_TIMEOUT_MS,
            ),
            ReleaseStage::Judging => check,
            ReleaseStage::Resting => ReleaseAction::Pause(PASS_DELAY_MS),
            ReleaseStage::Finished => ReleaseAction::Done,
        }
    }

    /// Ends a pass.
    fn end_pass(&mut self)
        requires
            old(self).report.counters_agree(),
        ensures
            old(self).moves_to(*final(self), old(self).stage_after_pass()),
    {
        let terminated: usize = self.report.terminated_count();
        self.stage = if self.pass == 0 {
            if !self.report.dry_run && self.report.allow_force_kill {
                ReleaseStage::Resting
            } else {
                ReleaseStage::Finished
            }
        } else if terminated == self.terminated_before {
            ReleaseStage::Finished
        } else {
            ReleaseStage::Judging
        };
    }

    /// Ends the turn of the process at hand.
    fn end_turn(&mut self, result: ProcessReleaseResult)
        requires
            old(self).report.counters_agree(),
            old(self).position < old(self).queue@.len(),
        ensures
            old(self).ends_turn(*final(self), result),
            final(self).report.terminated() == old(self).report.terminated()
                + if result.status is GracefulClosed || result.status is ForceKilled {
                1int
            } else {
                0int
            },
    {
        self.report.record(result);
        proof {
            lemma_recorded(old(self).report, self.report, result);
        }
        let count: usize = self.queue.len();
        self.position = self.position + 1;
        if self.position < count {
            self.stage = ReleaseStage::Choosing;
        } else {
            self.end_pass();
        }
    }

    /// Takes in the progress made with the process at hand.
    fn progress(&mut self, progress: CloseProgress)
        requires
            old(self).report.counters_agree(),
            old(self).position < old(self).queue@.len(),
        ensures
            old(self).progresses(*final(self), progress),
            progress is Ended ==> final(self).report.terminated()
                <= old(self).report.terminated() + 1,
    {
        match progress {
            CloseProgress::Next(stage) => {
                self.stage = stage;
            },
            CloseProgress::Ended(status) => {
                let process: &ProcessInfo = &self.queue[self.position];
                let result: ProcessReleaseResult = ProcessReleaseResult {
                    pid: Some(process.pid),
                    name: process.name.clone(),
                    status,
                };
                self.end_turn(result);
            },
        }
    }

    /// Begins the turn of the process at hand.
    fn choose_process(&mut self, load: Option<u32>)
        requires
            old(self).well_formed(),
            old(self).stage == ReleaseStage::Choosing,
        ensures
            old(self).chooses(*final(self), load),
            final(self).report.terminated() == old(self).report.terminated(),
    {
        let terminated: usize = self.report.terminated_count();
        if target_reached(self.target_memory_load_percent, load) {
            self.end_pass();
            return ;
        }
        if !self.report.dry_run && terminated >= self.max_terminated_processes {
            self.end_pass();
            return ;
        }
        let process: &ProcessInfo = &self.queue[self.position];
        let pid: u32 = process.pid;
        match release_skip_reason(process, self.keep_vm_stack) {
            Some(reason) => {
                let result: ProcessReleaseResult = ProcessReleaseResult {
                    pid: if pid == 0 {
                        None
                    } else {
                        Some(pid)
                    },
                    name: process.name.clone(),
                    status: ProcessReleaseStatus::Skipped(reason),
                };
                self.end_turn(result);
            },
            None => {
                if !self.report.dry_run {
                    self.stage = ReleaseStage::Closing;
                } else {
                    let result: ProcessReleaseResult = ProcessReleaseResult {
                        pid: Some(pid),
                        name: process.name.clone(),
                        status: if self.report.allow_force_kill {
                            ProcessReleaseStatus::WouldGracefulCloseThenForceIfNeeded
                        } else {
                            ProcessReleaseStatus::WouldGracefulClose
                        },
                    };
                    self.end_turn(result);
                }
            },
        }
    }

    /// Judges a pass.
    fn judge_pass(&mut self, load: Option<u32>)
        ensures
            old(self).judges(*final(self), load),
    {
        self.stage = if target_reached(self.target_memory_load_percent, load) || self.pass
            >= EXTRA_PASSES {
            ReleaseStage::Finished
        } else {
            ReleaseStage::Resting
        };
    }

    /// Begins a pass.
    fn begin_pass(&mut self, processes: &Vec<ProcessInfo>)
        requires
            old(self).well_formed(),
        ensures
            old(self).lists(*final(self), processes@),
    {
        self.queue = release_queue(processes);
        self.position = 0;
        self.report.scanned_count = self.report.scanned_count.wrapping_add(processes.len());
        if self.queue.len() > 0 {
            self.stage = ReleaseStage::Choosing;
        } else {
            self.end_pass();
        }
    }

    /// Takes in the reply to what the run needed.
    pub fn step(&mut self, reply: ReleaseReply)
        requires
            old(self).well_formed(),
        ensures
            old(self).steps(reply, *final(self)),
            final(self).well_formed(),
    {
        match (self.stage, reply) {
            (ReleaseStage::Listing, ReleaseReply::Listed(Ok(processes))) => {
                self.begin_pass(&processes);
            },
            (ReleaseStage::Listing, ReleaseReply::Listed(Err(error))) => {
                self.stage = ReleaseStage::Finished;
                self.failure = Some(error);
            },
            (ReleaseStage::Choosing, ReleaseReply::Load(load)) => {
                if self.target_memory_load_percent.is_some() {
                    self.choose_process(load);
                }
            },
            (ReleaseStage::Choosing, ReleaseReply::Continued) => {
                if self.target_memory_load_percent.is_none() {
                    self.choose_process(None);
                }
            },
            (ReleaseStage::Closing, ReleaseReply::Posted(posted)) => {
                let progress: CloseProgress = posting_progress(
                    &posted,
                    self.report.allow_force_kill,
                );
                self.progress(progress);
            },
            (ReleaseStage::AwaitingClose, ReleaseReply::Waited(waited)) => {
                let progress: CloseProgress = close_wait_progress(
                    &waited,
                    self.report.allow_force_kill,
                );
                self.progress(progress);
            },
            (ReleaseStage::Killing, ReleaseReply::Terminated(terminated)) => {
                let progress: CloseProgress = terminating_progress(&terminated);
                self.progress(progress);
            },
            (ReleaseStage::AwaitingKill, ReleaseReply::Waited(waited)) => {
                let progress: CloseProgress = kill_wait_progress(&waited);
                self.progress(progress);
            },
            (ReleaseStage::Judging, ReleaseReply::Load(load)) => {
                if self.target_memory_load_percent.is_some() {
                    self.judge_pass(load);
                }
            },
            (ReleaseStage::Judging, ReleaseReply::Continued) => {
                if self.target_memory_load_percent.is_none() {
                    self.judge_pass(None);
                }
            },
            (ReleaseStage::Resting, ReleaseReply::Rested) => {
                self.terminated_before = self.report.terminated_count();
                self.pass = self.pass + 1;
                self.stage = ReleaseStage::Listing;
            },
            _ => {},
        }
    }

    /// Sums up the run, or gives the error that ended it.
    pub fn finish(self, duration_ms: u64) -> (r: Result<ProcessReleaseReport, MemSparkError>)
        ensures
            r == match self.failure {
                Some(error) => Err::<ProcessReleaseReport, MemSparkError>(error),
                None => Ok(ProcessReleaseReport { duration_ms, ..self.report }),
            },
    {
        match self.failure {
            Some(error) => Err(error),
            None => {
                let mut report: ProcessReleaseReport = self.report;
                report.duration_ms = duration_ms;
                Ok(report)
            },
        }
    }
}

/// Whether `run` is about to begin with the given task.
pub open spec fn begins(
    run: ProcessReleaseRun,
    dry_run: bool,
    allow_force_kill: bool,
    target: Option<u32>,
    max_terminated: usize,
    keep_vm_stack: bool,
) -> bool {
    &&& run.well_formed()
    &&& run.report.dry_run == dry_run
    &&& run.report.enabled
    &&& run.report.allow_force_kill == allow_force_kill
    &&& run.report.duration_ms == 0
    &&& run.report.scanned_count == 0
    &&& run.report.results@.len() == 0
    &&& run.target_memory_load_percent == target
    &&& run.max_terminated_processes == max_terminated
    &&& run.keep_vm_stack == keep_vm_stack
    &&& run.pass == 0
    &&& run.stage == ReleaseStage::Listing
    &&& run.failure is None
}

/// Starts a run.
fn run_process_release(
    dry_run: bool,
    allow_force_kill: bool,
    target_memory_load_percent: Option<u32>,
    max_terminated_processes: usize,
    keep_vm_stack: bool,
) -> (r: ProcessReleaseRun)
    ensures
        begins(
            r,
            dry_run,
            allow_force_kill,
            target_memory_load_percent,
            max_terminated_processes,
            keep_vm_stack,
        ),
{
    ProcessReleaseRun {
        target_memory_load_percent,
        max_terminated_processes,
        keep_vm_stack,
        report: ProcessReleaseReport {
            dry_run,
            enabled: true,
            allow_force_kill,
            duration_ms: 0,
            scanned_count: 0,
            matched_count: 0,
            graceful_closed_count: 0,
            force_killed_count: 0,
            skipped_count: 0,
            failed_count: 0,
            results: Vec::new(),
        },
        queue: Vec::new(),
        position: 0,
        pass: 0,
        terminated_before: 0,
        stage: ReleaseStage::Listing,
        failure: None,
    }
}

/// Starts a run that closes every process that may be closed.
pub fn run_process_release_all(dry_run: bool, allow_force_kill: bool) -> (r: ProcessReleaseRun)
    ensures
        begins(r, dry_run, allow_force_kill, None, usize::MAX, false),
{
    run_process_release(dry_run, allow_force_kill, None, usize::MAX, false)
}

/// Starts a run that closes processes until the memory load meets a target or enough
/// processes have come to an end; the processes of virtual machines are left running.
pub fn run_targeted_process_release(
    dry_run: bool,
    allow_force_kill: bool,
    target_memory_load_percent: u32,
    max_terminated_processes: usize,
) -> (r: ProcessReleaseRun)
    ensures
        begins(
            r,
            dry_run,
            allow_force_kill,
            Some(target_memory_load_percent),
            max_terminated_processes,
            true,
        ),
{
    run_process_release(
        dry_run,
        allow_force_kill,
        Some(target_memory_load_percent),
        max_terminated_processes,
        true,
    )
}

// ---------------------------------------------------------------------------
// Laws
// ---------------------------------------------------------------------------

/// A process that is being closed is never the process itself, the one in the foreground, a
/// system process, one of the blocked processes, a MemSpark program of any name or, where they
/// are kept, a process of a virtual machine.
pub proof fn protected_processes_are_never_closed(run: ProcessReleaseRun)
    requires
        run.well_formed(),
        run.is_closing(),
    ensures
        !run.current().is_self,
        !run.current().is_foreground,
        run.current().pid > 4,
        !crate::policy::is_listed(crate::policy::boundary_names(), run.current().name@),
        !crate::policy::is_listed(blocked_names(), run.current().name@),
        !is_single_file_program(run.current().name@),
        run.keep_vm_stack ==> !crate::policy::is_listed(
            crate::policy::vm_stack_names(),
            run.current().name@,
        ),
{
}

/// A dry run closes nothing and never pauses: all it needs is the list of processes and the
/// memory load.
pub proof fn dry_run_closes_nothing(run: ProcessReleaseRun)
    requires
        run.well_formed(),
        run.report.dry_run,
    ensures
        !run.is_closing(),
        run.stage != ReleaseStage::Resting,
        run.stage != ReleaseStage::Judging,
        run.pass == 0,
{
}

/// No process is killed unless killing is allowed.
pub proof fn killing_needs_permission(run: ProcessReleaseRun)
    requires
        run.well_formed(),
        !run.report.allow_force_kill,
    ensures
        run.stage != ReleaseStage::Killing,
        run.stage != ReleaseStage::AwaitingKill,
{
}

/// No more processes come to an end than the run was given as its limit.
pub proof fn closing_keeps_to_its_limit(run: ProcessReleaseRun)
    requires
        run.well_formed(),
        !run.report.dry_run,
    ensures
        counted(run.report.results@, ReleaseCount::Closed) + counted(
            run.report.results@,
            ReleaseCount::Killed,
        ) <= run.max_terminated_processes,
        run.is_closing() ==> counted(run.report.results@, ReleaseCount::Closed) + counted(
            run.report.results@,
            ReleaseCount::Killed,
        ) < run.max_terminated_processes,
{
}

/// What has been recorded stays recorded.
pub proof fn results_are_kept(run: ProcessReleaseRun, reply: ReleaseReply, next: ProcessReleaseRun)
    requires
        run.well_formed(),
        run.steps(reply, next),
    ensures
        run.report.results@.is_prefix_of(next.report.results@),
        next.report.results@.len() <= run.report.results@.len() + 1,
{
}

/// The counters add up: a process that ended, or failed to, was to be closed, and every
/// process was to be closed or left running.
pub proof fn counters_add_up(report: ProcessReleaseReport)
    requires
        report.counters_agree(),
    ensures
        report.graceful_closed_count + report.force_killed_count + report.failed_count
            <= report.matched_count,
        report.graceful_closed_count + report.force_killed_count + report.failed_count
            + report.skipped_count <= report.results@.len(),
        report.results@.len() <= report.matched_count + report.skipped_count,
{
    lemma_counters_add_up(report.results@);
}

/// The counts of results add up.
proof fn lemma_counters_add_up(results: Seq<ProcessReleaseResult>)
    ensures
        counted(results, ReleaseCount::Closed) + counted(results, ReleaseCount::Killed) + counted(
            results,
            ReleaseCount::Failed,
        ) <= counted(results, ReleaseCount::Matched),
        counted(results, ReleaseCount::Closed) + counted(results, ReleaseCount::Killed) + counted(
            results,
            ReleaseCount::Failed,
        ) + counted(results, ReleaseCount::Skipped) <= results.len(),
        results.len() <= counted(results, ReleaseCount::Matched) + counted(
            results,
            ReleaseCount::Skipped,
        ),
    decreases results.len(),
{
    if results.len() > 0 {
        lemma_counters_add_up(results.drop_last());
    }
}

impl ProcessReleaseRun {
    /// How many passes the run can still begin, doubled; odd while one is about to begin.
    pub open spec fn passes_left(self) -> int {
        if self.stage == ReleaseStage::Listing {
            2 * (EXTRA_PASSES - self.pass) + 1
        } else {
            2 * (EXTRA_PASSES - self.pass)
        }
    }

    /// How many replies the run can still take in before another pass begins, at most.
    pub open spec fn work_left(self) -> int {
        let waiting = 6 * (self.queue@.len() - self.position);
        match self.stage {
            ReleaseStage::Listing => 0,
            ReleaseStage::Choosing => waiting + 3,
            ReleaseStage::Closing => waiting + 2,
            ReleaseStage::AwaitingClose => waiting + 1,
            ReleaseStage::Killing => waiting,
            ReleaseStage::AwaitingKill => waiting - 1,
            ReleaseStage::Judging => 2,
            ReleaseStage::Resting => 1,
            ReleaseStage::Finished => 0,
        }
    }
}

/// A run ends: with every reply that it expects, either fewer passes are left to begin, or as
/// many passes and less work within the current one.
pub proof fn closing_ends(run: ProcessReleaseRun, reply: ReleaseReply, next: ProcessReleaseRun)
    requires
        run.well_formed(),
        run.expects(reply),
        run.steps(reply, next),
    ensures
        next.stage == ReleaseStage::Finished || 0 <= next.passes_left() < run.passes_left() || (
        next.passes_left() == run.passes_left() && 0 <= next.work_left() < run.work_left()),
{
    let force = run.report.allow_force_kill;
    match (run.stage, reply) {
        (ReleaseStage::Listing, ReleaseReply::Listed(Ok(_))) => {},
        (ReleaseStage::Listing, ReleaseReply::Listed(Err(_))) => {},
        (ReleaseStage::Closing, ReleaseReply::Posted(posted)) => {
            let progress = choose|progress: CloseProgress| #[trigger]
                after_posting(progress, posted, force) && run.progresses(next, progress);
            assert(run.progresses(next, progress));
        },
        (ReleaseStage::AwaitingClose, ReleaseReply::Waited(waited)) => {
            let progress = choose|progress: CloseProgress| #[trigger]
                after_close_wait(progress, waited, force) && run.progresses(next, progress);
            assert(run.progresses(next, progress));
        },
        (ReleaseStage::Killing, ReleaseReply::Terminated(terminated)) => {
            let progress = choose|progress: CloseProgress| #[trigger]
                after_terminating(progress, terminated) && run.progresses(next, progress);
            assert(run.progresses(next, progress));
        },
        (ReleaseStage::AwaitingKill, ReleaseReply::Waited(waited)) => {
            let progress = choose|progress: CloseProgress| #[trigger]
                after_kill_wait(progress, waited) && run.progresses(next, progress);
            assert(run.progresses(next, progress));
        },
        _ => {},
    }
}

/// These processes are on the list of those that are never closed, and no others; letter case
/// does not matter.
pub proof fn blocked_processes_are_known(name: Seq<char>)
    ensures
        crate::policy::is_listed(blocked_names(), name) <==> {
            ||| text::same_ignoring_case("System"@, name)
            ||| text::same_ignoring_case("Idle"@, name)
            ||| text::same_ignoring_case("Registry"@, name)
            ||| text::same_ignoring_case("smss.exe"@, name)
            ||| text::same_ignoring_case("csrss.exe"@, name)
            ||| text::same_ignoring_case("wininit.exe"@, name)
            ||| text::same_ignoring_case("services.exe"@, name)
            ||| text::same_ignoring_case("lsass.exe"@, name)
            ||| text::same_ignoring_case("winlogon.exe"@, name)
            ||| text::same_ignoring_case("fontdrvhost.exe"@, name)
            ||| text::same_ignoring_case("dwm.exe"@, name)
            ||| text::same_ignoring_case("explorer.exe"@, name)
            ||| text::same_ignoring_case("svchost.exe"@, name)
            ||| text::same_ignoring_case("conhost.exe"@, name)
            ||| text::same_ignoring_case("sihost.exe"@, name)
            ||| text::same_ignoring_case("RuntimeBroker.exe"@, name)
            ||| text::same_ignoring_case("SearchIndexer.exe"@, name)
            ||| text::same_ignoring_case("audiodg.exe"@, name)
            ||| text::same_ignoring_case("spoolsv.exe"@, name)
            ||| text::same_ignoring_case("memspark.exe"@, name)
            ||| text::same_ignoring_case("memspark-ui.exe"@, name)
            ||| text::same_ignoring_case("memspark-cli.exe"@, name)
        },
{
    let names = blocked_names();
    assert(blocked_names()[0] == "System"@);
    assert(blocked_names()[1] == "Idle"@);
    assert(blocked_names()[2] == "Registry"@);
    assert(blocked_names()[3] == "smss.exe"@);
    assert(blocked_names()[4] == "csrss.exe"@);
    assert(blocked_names()[5] == "wininit.exe"@);
    assert(blocked_names()[6] == "services.exe"@);
    assert(blocked_names()[7] == "lsass.exe"@);
    assert(blocked_names()[8] == "winlogon.exe"@);
    assert(blocked_names()[9] == "fontdrvhost.exe"@);
    assert(blocked_names()[10] == "dwm.exe"@);
    assert(blocked_names()[11] == "explorer.exe"@);
    assert(blocked_names()[12] == "svchost.exe"@);
    assert(blocked_names()[13] == "conhost.exe"@);
    assert(blocked_names()[14] == "sihost.exe"@);
    assert(blocked_names()[15] == "RuntimeBroker.exe"@);
    assert(blocked_names()[16] == "SearchIndexer.exe"@);
    assert(blocked_names()[17] == "audiodg.exe"@);
    assert(blocked_names()[18] == "spoolsv.exe"@);
    assert(blocked_names()[19] == "memspark.exe"@);
    assert(blocked_names()[20] == "memspark-ui.exe"@);
    assert(blocked_names()[21] == "memspark-cli.exe"@);
    assert(names.len() == 22);
}

/// A name belongs to a single-file MemSpark program if it begins with `MemSpark-GUI-` or
/// `MemSpark-CLI-` in any letter case.
pub proof fn single_file_programs_are_known(name: Seq<char>)
    ensures
        is_single_file_program(name) <==> name.len() >= 13 && (text::same_ignoring_case(
            name.take(13),
            "MemSpark-GUI-"@,
        ) || text::same_ignoring_case(name.take(13), "MemSpark-CLI-"@)),
{
    reveal_strlit("MemSpark-GUI-");
    reveal_strlit("MemSpark-CLI-");
    reveal_strlit("memspark-gui-");
    reveal_strlit("memspark-cli-");
    assert(text::lowered("MemSpark-GUI-"@) =~= "memspark-gui-"@);
    assert(text::lowered("MemSpark-CLI-"@) =~= "memspark-cli-"@);
    if name.len() >= 13 {
        assert(text::lowered(name).subrange(0, 13) =~= text::lowered(name.take(13)));
    }
}

/// A process that nothing protects is not left running: it is neither the process itself nor
/// in the foreground, its number is above 4, and its name is not on the boundary list, not on
/// the list of blocked processes, not that of a MemSpark program and, where virtual machines
/// are kept, not on theirs. Any one of these leaves it running.
pub proof fn unprotected_processes_are_closed(process: ProcessInfo, keep_vm_stack: bool)
    ensures
        release_skip(process, keep_vm_stack) is None <==> {
            &&& !process.is_self
            &&& !process.is_foreground
            &&& process.pid > 4
            &&& !crate::policy::is_listed(crate::policy::boundary_names(), process.name@)
            &&& !crate::policy::is_listed(blocked_names(), process.name@)
            &&& !is_single_file_program(process.name@)
            &&& keep_vm_stack ==> !crate::policy::is_listed(
                crate::policy::vm_stack_names(),
                process.name@,
            )
        },
{
}

/// The reason for which a process is left running is true of it; a process that several
/// reasons hold for is left running for what it is rather than for its window.
pub proof fn reasons_to_spare_are_true(process: ProcessInfo, keep_vm_stack: bool)
    ensures
        process.is_self <==> release_skip(process, keep_vm_stack) == Some(
            ProcessReleaseSkipReason::SelfProcess,
        ),
        release_skip(process, keep_vm_stack) == Some(
            ProcessReleaseSkipReason::SystemBoundaryProcess,
        ) <==> !process.is_self && (process.pid <= 4 || crate::policy::is_listed(
            crate::policy::boundary_names(),
            process.name@,
        )),
        release_skip(process, keep_vm_stack) == Some(ProcessReleaseSkipReason::ForegroundProcess)
            ==> process.is_foreground && !is_blocked(process.name@, keep_vm_stack)
            && process.pid > 4,
        release_skip(process, keep_vm_stack) == Some(
            ProcessReleaseSkipReason::BlockedSystemOrServiceProcess,
        ) ==> is_blocked(process.name@, keep_vm_stack) && !process.is_self && process.pid > 4,
        release_skip(process, keep_vm_stack) != Some(ProcessReleaseSkipReason::ForceKillDisabled),
{
}

/// Where a process lies, how large it is, how much it has committed and whether it could be
/// queried have no say in whether it is left running; nor has the letter case of its name.
pub proof fn only_identity_spares_a_process(a: ProcessInfo, b: ProcessInfo, keep_vm_stack: bool)
    requires
        a.pid == b.pid,
        text::same_ignoring_case(a.name@, b.name@),
        a.is_self == b.is_self,
        a.is_foreground == b.is_foreground,
    ensures
        release_skip(a, keep_vm_stack) == release_skip(b, keep_vm_stack),
{
    crate::policy::listing_ignores_case(crate::policy::boundary_names(), a.name@, b.name@);
    crate::policy::listing_ignores_case(crate::policy::vm_stack_names(), a.name@, b.name@);
    crate::policy::listing_ignores_case(blocked_names(), a.name@, b.name@);
}

/// Keeping virtual machines spares their processes, and changes nothing for others.
pub proof fn keeping_virtual_machines_spares_no_one_else(process: ProcessInfo)
    ensures
        release_skip(process, false) is Some ==> release_skip(process, true) is Some,
        !crate::policy::is_listed(crate::policy::vm_stack_names(), process.name@) ==> release_skip(
            process,
            true,
        ) == release_skip(process, false),
{
}

/// A target is met by a load that was read and is not above it, and by nothing else.
pub proof fn targets_are_met_from_below(target: u32, load: u32)
    ensures
        reached(Some(target), Some(load)) <==> load <= target,
        !reached(Some(target), None),
        !reached(None, Some(load)),
        !reached(None, None),
{
}

/// A result is counted under what it says: each kind of end under its own count, and every
/// process that closing was tried on, or would be tried on, as one that was to be closed.
pub proof fn results_are_counted_by_status(
    results: Seq<ProcessReleaseResult>,
    result: ProcessReleaseResult,
    what: ReleaseCount,
)
    ensures
        ({
            let more = counted(results.push(result), what) - counted(results, what);
            match result.status {
                ProcessReleaseStatus::GracefulClosed => more == if what == ReleaseCount::Closed
                    || what == ReleaseCount::Matched {
                    1int
                } else {
                    0
                },
                ProcessReleaseStatus::ForceKilled => more == if what == ReleaseCount::Killed
                    || what == ReleaseCount::Matched {
                    1int
                } else {
                    0
                },
                ProcessReleaseStatus::Failed(_) => more == if what == ReleaseCount::Failed || what
                    == ReleaseCount::Matched {
                    1int
                } else {
                    0
                },
                ProcessReleaseStatus::Skipped(ProcessReleaseSkipReason::ForceKillDisabled) => more
                    == if what == ReleaseCount::Skipped || what == ReleaseCount::Matched {
                    1int
                } else {
                    0
                },
                ProcessReleaseStatus::Skipped(_) => more == if what == ReleaseCount::Skipped {
                    1int
                } else {
                    0
                },
                _ => more == if what == ReleaseCount::Matched {
                    1int
                } else {
                    0
                },
            }
        }),
        counted(Seq::empty(), what) == 0,
{
    assert(results.push(result).drop_last() =~= results);
}

impl ProcessReleaseRun {
    /// Whether `next` is this run once the process at hand has been recorded with `status`.
    pub open spec fn has_recorded(
        self,
        next: ProcessReleaseRun,
        status: ProcessReleaseStatus,
    ) -> bool {
        &&& next.report.results@.len() == self.report.results@.len() + 1
        &&& next.report.results@.last().pid == Some(self.current().pid)
        &&& next.report.results@.last().name@ == self.current().name@
        &&& next.report.results@.last().status == status
        &&& next.position == self.position + 1
        &&& next.queue == self.queue
    }

    /// Whether `next` is this run once closing the process at hand has been recorded as failed.
    pub open spec fn has_recorded_failure(self, next: ProcessReleaseRun) -> bool {
        &&& next.report.results@.last().status is Failed
        &&& self.has_recorded(next, next.report.results@.last().status)
    }
}

/// How a process is asked to close. Where it has windows, it is given five seconds. A process
/// that is gone counts as closed. One without windows, or that could not be asked, is killed
/// if that is allowed; else it is skipped, or closing it has failed.
pub proof fn asking_comes_first(
    run: ProcessReleaseRun,
    posted: Result<u32, WinApiError>,
    next: ProcessReleaseRun,
)
    requires
        run.well_formed(),
        run.stage == ReleaseStage::Closing,
        run.steps(ReleaseReply::Posted(posted), next),
    ensures
        run.needs() == ReleaseAction::CloseWindows(run.current().pid),
        match posted {
            Ok(windows) => {
                &&& windows > 0 ==> next.needs() == ReleaseAction::WaitForExit(
                    run.current().pid,
                    5000,
                )
                &&& windows == 0 && run.report.allow_force_kill ==> next.needs()
                    == ReleaseAction::Terminate(run.current().pid)
                &&& windows == 0 && !run.report.allow_force_kill ==> run.has_recorded(
                    next,
                    ProcessReleaseStatus::Skipped(ProcessReleaseSkipReason::ForceKillDisabled),
                )
            },
            Err(error) => {
                let gone = error.code == 18 || error.code == 87 || error.code == 1168;
                &&& gone ==> run.has_recorded(next, ProcessReleaseStatus::GracefulClosed)
                &&& !gone && run.report.allow_force_kill ==> next.needs()
                    == ReleaseAction::Terminate(run.current().pid)
                &&& !gone && !run.report.allow_force_kill ==> run.has_recorded_failure(next)
            },
        },
{
    let progress = choose|progress: CloseProgress| #[trigger]
        after_posting(progress, posted, run.report.allow_force_kill) && run.progresses(
            next,
            progress,
        );
    assert(run.progresses(next, progress));
}

/// What follows the wait for a process that was asked to close: one that has exited, or is
/// gone, counts as closed. One that has not is killed if that is allowed, and else recorded as
/// asked. A wait that failed has closing fail.
pub proof fn asked_processes_are_waited_for(
    run: ProcessReleaseRun,
    waited: Result<bool, WinApiError>,
    next: ProcessReleaseRun,
)
    requires
        run.well_formed(),
        run.stage == ReleaseStage::AwaitingClose,
        run.steps(ReleaseReply::Waited(waited), next),
    ensures
        run.needs() == ReleaseAction::WaitForExit(run.current().pid, 5000),
        match waited {
            Ok(exited) => {
                &&& exited ==> run.has_recorded(next, ProcessReleaseStatus::GracefulClosed)
                &&& !exited && run.report.allow_force_kill ==> next.needs()
                    == ReleaseAction::Terminate(run.current().pid)
                &&& !exited && !run.report.allow_force_kill ==> run.has_recorded(
                    next,
                    ProcessReleaseStatus::GracefulCloseRequested,
                )
            },
            Err(error) => {
                let gone = error.code == 18 || error.code == 87 || error.code == 1168;
                &&& gone ==> run.has_recorded(next, ProcessReleaseStatus::GracefulClosed)
                &&& !gone ==> run.has_recorded_failure(next)
            },
        },
{
    let progress = choose|progress: CloseProgress| #[trigger]
        after_close_wait(progress, waited, run.report.allow_force_kill) && run.progresses(
            next,
            progress,
        );
    assert(run.progresses(next, progress));
}

/// What follows a kill: the process is given three seconds. A kill that was refused has
/// closing fail, with the error in full.
pub proof fn killed_processes_are_waited_for(
    run: ProcessReleaseRun,
    terminated: Result<(), WinApiError>,
    next: ProcessReleaseRun,
)
    requires
        run.well_formed(),
        run.stage == ReleaseStage::Killing,
        run.steps(ReleaseReply::Terminated(terminated), next),
    ensures
        run.needs() == ReleaseAction::Terminate(run.current().pid),
        terminated is Ok ==> next.needs() == ReleaseAction::WaitForExit(run.current().pid, 3000),
        terminated matches Err(error) ==> run.has_recorded_failure(next) && (
        next.report.results@.last().status matches ProcessReleaseStatus::Failed(message)
            && message@ == error.described()),
{
    let progress = choose|progress: CloseProgress| #[trigger]
        after_terminating(progress, terminated) && run.progresses(next, progress);
    assert(run.progresses(next, progress));
}

/// What follows the wait for a process that was killed: one that has exited, or is gone,
/// counts as killed; with any other, closing has failed.
pub proof fn only_dead_processes_count_as_killed(
    run: ProcessReleaseRun,
    waited: Result<bool, WinApiError>,
    next: ProcessReleaseRun,
)
    requires
        run.well_formed(),
        run.stage == ReleaseStage::AwaitingKill,
        run.steps(ReleaseReply::Waited(waited), next),
    ensures
        run.needs() == ReleaseAction::WaitForExit(run.current().pid, 3000),
        match waited {
            Ok(exited) => {
                &&& exited ==> run.has_recorded(next, ProcessReleaseStatus::ForceKilled)
                &&& !exited ==> run.has_recorded_failure(next)
            },
            Err(error) => {
                let gone = error.code == 18 || error.code == 87 || error.code == 1168;
                &&& gone ==> run.has_recorded(next, ProcessReleaseStatus::ForceKilled)
                &&& !gone ==> run.has_recorded_failure(next)
            },
        },
{
    let progress = choose|progress: CloseProgress| #[trigger]
        after_kill_wait(progress, waited) && run.progresses(next, progress);
    assert(run.progresses(next, progress));
}

/// How a turn begins. Where the target is met, or enough processes have come to an end, no
/// more are closed in this pass. Else the process at hand is skipped for a reason, previewed
/// in a dry run, or asked to close. Without a target the load is not asked for.
pub proof fn turns_begin_with_a_decision(
    run: ProcessReleaseRun,
    load: Option<u32>,
    reply: ReleaseReply,
    next: ProcessReleaseRun,
)
    requires
        run.well_formed(),
        run.stage == ReleaseStage::Choosing,
        run.target_memory_load_percent is Some ==> reply == ReleaseReply::Load(load),
        run.target_memory_load_percent is None ==> reply == ReleaseReply::Continued,
        run.steps(reply, next),
    ensures
        run.current() == run.queue@[run.position as int],
        run.target_memory_load_percent is Some ==> run.needs() == ReleaseAction::ReadMemoryLoad,
        run.target_memory_load_percent is None ==> run.needs() == ReleaseAction::Continue,
        ({
            let met = run.target_memory_load_percent is Some && load is Some && load->0
                <= run.target_memory_load_percent->0;
            let full = !run.report.dry_run && run.report.graceful_closed_count
                + run.report.force_killed_count >= run.max_terminated_processes;
            let skip = release_skip(run.current(), run.keep_vm_stack);
            &&& met || full ==> {
                &&& next.stage != ReleaseStage::Choosing
                &&& !next.is_closing()
                &&& next.report == run.report
            }
            &&& !met && !full && skip is Some ==> {
                &&& next.report.results@.len() == run.report.results@.len() + 1
                &&& next.report.results@.last().status == ProcessReleaseStatus::Skipped(skip->0)
                &&& next.report.results@.last().name@ == run.current().name@
                &&& run.current().pid != 0 ==> next.report.results@.last().pid == Some(
                    run.current().pid,
                )
                &&& run.current().pid == 0 ==> next.report.results@.last().pid is None
                &&& next.position == run.position + 1
            }
            &&& !met && !full && skip is None && run.report.dry_run ==> run.has_recorded(
                next,
                if run.report.allow_force_kill {
                    ProcessReleaseStatus::WouldGracefulCloseThenForceIfNeeded
                } else {
                    ProcessReleaseStatus::WouldGracefulClose
                },
            )
            &&& !met && !full && skip is None && !run.report.dry_run ==> {
                &&& next.needs() == ReleaseAction::CloseWindows(run.current().pid)
                &&& next.report == run.report
                &&& next.position == run.position
            }
        }),
{
}

/// A listing is worked through from its start: every listed process is counted as scanned and
/// has its turn, browsers and larger ones first. A listing that failed ends the run.
pub proof fn listings_are_worked_through(
    run: ProcessReleaseRun,
    listed: Result<Vec<ProcessInfo>, MemSparkError>,
    next: ProcessReleaseRun,
)
    requires
        run.well_formed(),
        run.stage == ReleaseStage::Listing,
        run.steps(ReleaseReply::Listed(listed), next),
    ensures
        run.needs() == ReleaseAction::ListProcesses,
        next.report.results@ == run.report.results@,
        match listed {
            Ok(processes) => {
                &&& next.queue@.to_multiset() == processes@.to_multiset()
                &&& next.position == 0
                &&& processes@.len() > 0 ==> next.stage == ReleaseStage::Choosing
                &&& run.report.scanned_count + processes@.len() <= usize::MAX
                    ==> next.report.scanned_count == run.report.scanned_count + processes@.len()
                &&& next.failure is None
            },
            Err(error) => {
                &&& next.needs() == ReleaseAction::Done
                &&& next.failure == Some(error)
            },
        },
{
    if let Ok(processes) = listed {
        assert(processes.len() == processes@.len());
        let keys = release_keys(processes@);
        order::descending_order_exists(keys);
        let o = choose|o: Seq<usize>| order::is_descending_order(o, keys);
        order::sorting_keeps_items(processes@, o, keys);
    }
}

/// How passes follow each other. A dry run, and a run that may not kill, has one pass. A run
/// that may kill rests for half a second and goes through the processes again, up to three
/// times in all, as long as the passes after the first end processes and the target is not
/// met.
pub proof fn passes_follow_each_other(
    run: ProcessReleaseRun,
    reply: ReleaseReply,
    next: ProcessReleaseRun,
)
    requires
        run.well_formed(),
        run.expects(reply),
        run.steps(reply, next),
        next.stage != ReleaseStage::Choosing,
        !next.is_closing(),
    ensures
        run.stage == ReleaseStage::Choosing || run.is_closing() ==> {
            let ended = next.report.graceful_closed_count + next.report.force_killed_count;
            &&& run.pass == 0 && (run.report.dry_run || !run.report.allow_force_kill)
                ==> next.needs() == ReleaseAction::Done
            &&& run.pass == 0 && !run.report.dry_run && run.report.allow_force_kill
                ==> next.needs() == ReleaseAction::Pause(500)
            &&& run.pass > 0 && ended == run.terminated_before ==> next.needs()
                == ReleaseAction::Done
            &&& run.pass > 0 && ended != run.terminated_before ==> next.stage
                == ReleaseStage::Judging
        },
        run.stage == ReleaseStage::Judging ==> {
            let met = run.target_memory_load_percent is Some && reply->Load_0 is Some
                && reply->Load_0->0 <= run.target_memory_load_percent->0;
            &&& met || run.pass >= 2 ==> next.needs() == ReleaseAction::Done
            &&& !met && run.pass < 2 ==> next.needs() == ReleaseAction::Pause(500)
        },
        run.stage == ReleaseStage::Resting ==> {
            &&& next.needs() == ReleaseAction::ListProcesses
            &&& next.pass == run.pass + 1
            &&& next.terminated_before == run.report.graceful_closed_count
                + run.report.force_killed_count
            &&& next.report == run.report
        },
        run.pass <= 2,
{
    match (run.stage, reply) {
        (ReleaseStage::Closing, ReleaseReply::Posted(posted)) => {
            asking_comes_first(run, posted, next);
            let progress = choose|progress: CloseProgress| #[trigger]
                after_posting(progress, posted, run.report.allow_force_kill) && run.progresses(
                    next,
                    progress,
                );
            assert(run.progresses(next, progress));
        },
        (ReleaseStage::AwaitingClose, ReleaseReply::Waited(waited)) => {
            let progress = choose|progress: CloseProgress| #[trigger]
                after_close_wait(progress, waited, run.report.allow_force_kill) && run.progresses(
                    next,
                    progress,
                );
            assert(run.progresses(next, progress));
        },
        (ReleaseStage::Killing, ReleaseReply::Terminated(terminated)) => {
            let progress = choose|progress: CloseProgress| #[trigger]
                after_terminating(progress, terminated) && run.progresses(next, progress);
            assert(run.progresses(next, progress));
        },
        (ReleaseStage::AwaitingKill, ReleaseReply::Waited(waited)) => {
            let progress = choose|progress: CloseProgress| #[trigger]
                after_kill_wait(progress, waited) && run.progresses(next, progress);
            assert(run.progresses(next, progress));
        },
        _ => {},
    }
}

/// A run starts with nothing recorded and a first listing, and with the task it is given.
pub proof fn runs_start_with_a_listing(
    run: ProcessReleaseRun,
    dry_run: bool,
    allow_force_kill: bool,
    target: Option<u32>,
    max_terminated: usize,
    keep_vm_stack: bool,
)
    requires
        begins(run, dry_run, allow_force_kill, target, max_terminated, keep_vm_stack),
    ensures
        run.needs() == ReleaseAction::ListProcesses,
        run.report.results@.len() == 0,
        run.report.scanned_count == 0,
        run.report.matched_count == 0,
        run.report.graceful_closed_count == 0,
        run.report.force_killed_count == 0,
        run.report.skipped_count == 0,
        run.report.failed_count == 0,
        run.report.dry_run == dry_run,
        run.report.allow_force_kill == allow_force_kill,
        run.target_memory_load_percent == target,
        run.max_terminated_processes == max_terminated,
        run.keep_vm_stack == keep_vm_stack,
        run.pass == 0,
{
}

/// The processes that have come to an end are no more than the results.
pub proof fn terminated_fits(report: ProcessReleaseReport)
    requires
        report.counters_agree(),
    ensures
        0 <= report.terminated() <= report.results@.len() <= usize::MAX,
        report.terminated() == report.graceful_closed_count + report.force_killed_count,
{
    lemma_counted(report.results@);
    assert(report.results.len() == report.results@.len());
}

/// What a run is to do stays as it was asked for, whatever comes of it.
pub proof fn runs_keep_their_task(run: ProcessReleaseRun, reply: ReleaseReply, next: ProcessReleaseRun)
    requires
        run.well_formed(),
        run.expects(reply),
        run.steps(reply, next),
    ensures
        next.target_memory_load_percent == run.target_memory_load_percent,
        next.max_terminated_processes == run.max_terminated_processes,
        next.keep_vm_stack == run.keep_vm_stack,
        next.report.dry_run == run.report.dry_run,
        next.report.enabled == run.report.enabled,
        next.report.allow_force_kill == run.report.allow_force_kill,
        next.report.duration_ms == run.report.duration_ms,
{
}

/// A result is recorded behind those before it, and nothing else of the report changes but the
/// counts.
pub proof fn records_change_nothing_else(
    report: ProcessReleaseReport,
    next: ProcessReleaseReport,
    result: ProcessReleaseResult,
)
    requires
        report.records(next, result),
    ensures
        next.results@ == report.results@.push(result),
        next.scanned_count == report.scanned_count,
        next.dry_run == report.dry_run,
        next.enabled == report.enabled,
        next.allow_force_kill == report.allow_force_kill,
        next.duration_ms == report.duration_ms,
{
}

/// Sums of counters are exact as long as they are in range.
pub proof fn sums_in_range_are_exact(a: usize, b: usize)
    ensures
        a + b <= usize::MAX ==> wrapped_sum(a as int, b as int) == a + b,
        a + b > usize::MAX ==> wrapped_sum(a as int, b as int) == a + b - usize::MAX - 1,
{
}

} // verus!
