//! What the system-wide part of an optimization comes to, and how it is put into words.

use crate::config::AdvancedCleanupConfig;
use crate::error::MemSparkError;
use crate::memory::{byte_difference, MemorySnapshot, TARGET_MEMORY_LOAD_PERCENT};
use crate::process::clone_text;
use crate::release::{SystemReleaseReport, SystemReleaseSession};
use crate::report::CleanupEffectSummary;
use crate::text;
use crate::trim::AggressiveTrimReport;
use crate::winapi::{MemoryListCommand, WinApiError};
use vstd::prelude::*;

verus! {

/// What a system-wide cleanup came to.
#[derive(Debug)]
pub struct SystemCleanupOutcome {
    pub executed: bool,
    pub skipped_reason: Option<String>,
    pub delta_bytes: Option<i64>,
}

/// How many processes were closed.
#[derive(Debug, Clone, Copy)]
pub struct TerminationTotals {
    pub matched_count: usize,
    pub closed_count: usize,
    pub force_killed_count: usize,
    pub failed_count: usize,
}

impl Default for TerminationTotals {
    fn default() -> (r: TerminationTotals)
        ensures
            r == (TerminationTotals {
                matched_count: 0,
                closed_count: 0,
                force_killed_count: 0,
                failed_count: 0,
            }),
    {
        TerminationTotals {
            matched_count: 0,
            closed_count: 0,
            force_killed_count: 0,
            failed_count: 0,
        }
    }
}

/// The words for the closing of processes; there are none where none was tried.
pub open spec fn activity(totals: TerminationTotals) -> Option<Seq<char>> {
    if totals.matched_count == 0 && totals.closed_count + totals.force_killed_count == 0
        && totals.failed_count == 0 {
        None
    } else {
        Some(
            "目标释放已进入终止阶段：候选 "@ + text::decimal(totals.matched_count as nat)
                + "，温和关闭 "@ + text::decimal(totals.closed_count as nat) + "，强制终止 "@
                + text::decimal(totals.force_killed_count as nat) + "，失败 "@ + text::decimal(
                totals.failed_count as nat,
            ),
        )
    }
}

/// Puts the closing of processes into words.
pub fn termination_activity_message(totals: &TerminationTotals) -> (r: Option<String>)
    ensures
        text::optional(r) == activity(*totals),
{
    if totals.matched_count == 0 && totals.closed_count == 0 && totals.force_killed_count == 0
        && totals.failed_count == 0 {
        None
    } else {
        let mut r: String = "目标释放已进入终止阶段：候选 ".to_owned();
        r.append(text::decimal_text(totals.matched_count as u128).as_str());
        r.append("，温和关闭 ");
        r.append(text::decimal_text(totals.closed_count as u128).as_str());
        r.append("，强制终止 ");
        r.append(text::decimal_text(totals.force_killed_count as u128).as_str());
        r.append("，失败 ");
        r.append(text::decimal_text(totals.failed_count as u128).as_str());
        Some(r)
    }
}

/// A reason with the words for the closing of processes, unless it says them already.
pub open spec fn with_activity(reason: Option<Seq<char>>, totals: TerminationTotals) -> Option<
    Seq<char>,
> {
    match (reason, activity(totals)) {
        (Some(reason), Some(words)) => if text::contains(reason, words) {
            Some(reason)
        } else {
            Some(reason + "; "@ + words)
        },
        (Some(reason), None) => Some(reason),
        (None, words) => words,
    }
}

/// Adds the words for the closing of processes to a reason.
pub fn append_termination_activity(reason: Option<String>, totals: &TerminationTotals) -> (r:
    Option<String>)
    ensures
        text::optional(r) == with_activity(text::optional(reason), *totals),
{
    let words: Option<String> = termination_activity_message(totals);
    match (reason, words) {
        (Some(reason), Some(words)) => {
            if text::contains_text(reason.as_str(), words.as_str()) {
                Some(reason)
            } else {
                let mut r: String = reason;
                r.append("; ");
                r.append(words.as_str());
                Some(r)
            }
        },
        (Some(reason), None) => Some(reason),
        (None, words) => words,
    }
}

/// Adding the words for the closing of processes again adds nothing.
pub proof fn activity_is_said_once(reason: Option<Seq<char>>, totals: TerminationTotals)
    ensures
        with_activity(with_activity(reason, totals), totals) == with_activity(reason, totals),
{
    match (with_activity(reason, totals), activity(totals)) {
        (Some(said), Some(words)) => {
            if reason is None || !text::contains(reason->0, words) {
                assert(said.subrange(said.len() - words.len(), said.len() as int) =~= words);
                assert(text::occurs_at(said, words, said.len() - words.len()));
            }
        },
        _ => {},
    }
}

/// The counts of closed processes in a report.
pub open spec fn totals_of(report: SystemReleaseReport) -> TerminationTotals {
    TerminationTotals {
        matched_count: report.termination_matched_count,
        closed_count: report.termination_graceful_closed_count,
        force_killed_count: report.termination_force_killed_count,
        failed_count: report.termination_failed_count,
    }
}

/// What a release has to say, apart from the closing of processes.
pub open spec fn release_words(dry_run: bool, report: SystemReleaseReport) -> Option<Seq<char>> {
    if dry_run {
        Some(
            "dry-run 仅预览内存优化步骤；实际执行目标为内存占用不高于 "@ + text::decimal(
                TARGET_MEMORY_LOAD_PERCENT as nat,
            ) + "%"@,
        )
    } else if report.target_reached {
        activity(totals_of(report))
    } else {
        Some(
            "内存优化已执行全部可用释放步骤，但当前内存占用仍为 "@ + text::decimal(
                report.after.memory_load_percent as nat,
            ) + "%，未达到 "@ + text::decimal(report.target_memory_load_percent as nat)
                + "% 目标；剩余占用可能来自系统保留、驱动、内核或不可终止进程"@,
        )
    }
}

/// Whether `outcome` is what a release comes to.
pub open spec fn is_release_outcome(
    outcome: SystemCleanupOutcome,
    dry_run: bool,
    release: Result<SystemReleaseReport, MemSparkError>,
) -> bool {
    match release {
        Ok(report) => {
            let increase = crate::memory::signed_difference(
                report.after.available_physical,
                report.before.available_physical,
            );
            &&& outcome.executed == (!dry_run && (increase != 0
                || report.termination_graceful_closed_count > 0
                || report.termination_force_killed_count > 0))
            &&& text::optional(outcome.skipped_reason) == with_activity(
                release_words(dry_run, report),
                totals_of(report),
            )
            &&& outcome.delta_bytes == if dry_run {
                None::<i64>
            } else {
                Some(increase as i64)
            }
        },
        Err(error) => {
            &&& !outcome.executed
            &&& text::optional(outcome.skipped_reason) == Some(
                "内存优化目标释放失败："@ + error.described(),
            )
            &&& outcome.delta_bytes is None
        },
    }
}

/// Sums up a release for the report of an optimization.
pub fn run_memory_optimization_target_cleanup(
    dry_run: bool,
    release: Result<SystemReleaseReport, MemSparkError>,
) -> (r: SystemCleanupOutcome)
    ensures
        is_release_outcome(r, dry_run, release),
{
    match release {
        Ok(report) => {
            let totals: TerminationTotals = TerminationTotals {
                matched_count: report.termination_matched_count,
                closed_count: report.termination_graceful_closed_count,
                force_killed_count: report.termination_force_killed_count,
                failed_count: report.termination_failed_count,
            };
            let words: Option<String> = if dry_run {
                let mut r: String =
                    "dry-run 仅预览内存优化步骤；实际执行目标为内存占用不高于 ".to_owned();
                r.append(text::decimal_text(TARGET_MEMORY_LOAD_PERCENT as u128).as_str());
                r.append("%");
                Some(r)
            } else if report.target_reached {
                termination_activity_message(&totals)
            } else {
                let mut r: String =
                    "内存优化已执行全部可用释放步骤，但当前内存占用仍为 ".to_owned();
                r.append(text::decimal_text(report.after.memory_load_percent as u128).as_str());
                r.append("%，未达到 ");
                r.append(text::decimal_text(report.target_memory_load_percent as u128).as_str());
                r.append("% 目标；剩余占用可能来自系统保留、驱动、内核或不可终止进程");
                Some(r)
            };
            let increase: i64 = report.available_increase();
            SystemCleanupOutcome {
                executed: !dry_run && (increase != 0 || totals.closed_count > 0
                    || totals.force_killed_count > 0),
                skipped_reason: append_termination_activity(words, &totals),
                delta_bytes: if dry_run {
                    None
                } else {
                    Some(increase)
                },
            }
        },
        Err(error) => {
            let mut r: String = "内存优化目标释放失败：".to_owned();
            r.append(error.to_text().as_str());
            SystemCleanupOutcome { executed: false, skipped_reason: Some(r), delta_bytes: None }
        },
    }
}

/// How many processes a session closed, whether or not it ended in an error.
pub open spec fn session_totals(session: SystemReleaseSession) -> TerminationTotals {
    match session.report {
        Some(report) => totals_of(report),
        None => TerminationTotals {
            matched_count: 0,
            closed_count: 0,
            force_killed_count: 0,
            failed_count: 0,
        },
    }
}

/// Counts the processes that a session closed.
pub fn count_closed(session: &SystemReleaseSession) -> (r: TerminationTotals)
    ensures
        r == session_totals(*session),
{
    match &session.report {
        Some(report) => TerminationTotals {
            matched_count: report.termination_matched_count,
            closed_count: report.termination_graceful_closed_count,
            force_killed_count: report.termination_force_killed_count,
            failed_count: report.termination_failed_count,
        },
        None => TerminationTotals::default(),
    }
}

/// Whether `outcome` is what a session comes to. An error is told together with the closing of
/// processes before it, and the cleanup counts as executed where a process was closed.
pub open spec fn is_session_outcome(
    outcome: SystemCleanupOutcome,
    dry_run: bool,
    session: SystemReleaseSession,
) -> bool {
    match session.failure {
        None => is_release_outcome(outcome, dry_run, session.outcome()),
        Some(error) => {
            let totals = session_totals(session);
            &&& outcome.executed == (totals.closed_count > 0 || totals.force_killed_count > 0)
            &&& text::optional(outcome.skipped_reason) == with_activity(
                Some("内存优化目标释放失败："@ + error.described()),
                totals,
            )
            &&& outcome.delta_bytes is None
        },
    }
}

/// Sums up a session for the report of an optimization.
pub fn session_cleanup(dry_run: bool, session: SystemReleaseSession) -> (r: SystemCleanupOutcome)
    requires
        session.well_formed(),
        session.phase is Finished,
    ensures
        is_session_outcome(r, dry_run, session),
{
    let failed: bool = session.failure.is_some();
    let totals: TerminationTotals = count_closed(&session);
    let outcome: SystemCleanupOutcome = run_memory_optimization_target_cleanup(
        dry_run,
        session.finish(),
    );
    if !failed {
        return outcome;
    }
    SystemCleanupOutcome {
        executed: totals.closed_count > 0 || totals.force_killed_count > 0,
        skipped_reason: append_termination_activity(outcome.skipped_reason, &totals),
        delta_bytes: outcome.delta_bytes,
    }
}

/// Closed processes are always told of: where a session closed any, its outcome says how many
/// and counts as executed, also where the session ended in an error.
pub proof fn closing_is_told(
    outcome: SystemCleanupOutcome,
    session: SystemReleaseSession,
)
    requires
        session.well_formed(),
        session.phase is Finished,
        is_session_outcome(outcome, false, session),
        session_totals(session).closed_count > 0 || session_totals(session).force_killed_count
            > 0,
    ensures
        outcome.executed,
        outcome.skipped_reason is Some,
        text::contains(outcome.skipped_reason->0@, activity(session_totals(session))->0),
{
    let totals = session_totals(session);
    let words = activity(totals)->0;
    let reason = match session.failure {
        None => release_words(false, session.report->0),
        Some(error) => Some("内存优化目标释放失败："@ + error.described()),
    };
    let said = outcome.skipped_reason->0@;
    assert(text::optional(outcome.skipped_reason) == with_activity(reason, totals));
    if reason is None || !text::contains(reason->0, words) {
        assert(said.subrange(said.len() - words.len(), said.len() as int) =~= words);
        assert(text::occurs_at(said, words, said.len() - words.len()));
    }
}

// ---------------------------------------------------------------------------
// The optional cleanup
// ---------------------------------------------------------------------------

/// What an optional cleanup needs next.
#[derive(Debug, Clone, Copy, PartialEq, Eq, Structural)]
pub enum CleanupAction {
    AskAdministrator,
    ReadMemory,
    EnablePrivilege,
    SetMemoryList(MemoryListCommand),
    Done,
}

/// The reply to what an optional cleanup needed.
#[derive(Debug)]
pub enum CleanupReply {
    /// Whether the program runs as administrator.
    Administrator(bool),
    /// The memory, if it could be read.
    Memory(Option<MemorySnapshot>),
    /// How a call ended.
    Called(Result<(), WinApiError>),
}

/// An optional cleanup and the replies that it has had so far.
#[derive(Debug)]
pub struct OptionalCleanupRun {
    pub cleanup: AdvancedCleanupConfig,
    pub dry_run: bool,
    pub is_admin: Option<bool>,
    pub before: Option<Option<MemorySnapshot>>,
    pub privilege: Option<Result<(), WinApiError>>,
    pub empty_working_sets: Option<Result<(), WinApiError>>,
    pub purge_low_priority: Option<Result<(), WinApiError>>,
    pub purge_standby: Option<Result<(), WinApiError>>,
    pub after: Option<Option<MemorySnapshot>>,
}

/// Whether a call was made and succeeded.
pub open spec fn succeeded(result: Option<Result<(), WinApiError>>) -> bool {
    result matches Some(Ok(_))
}

/// Tells whether a call was made and succeeded.
fn call_succeeded(result: &Option<Result<(), WinApiError>>) -> (r: bool)
    ensures
        r == succeeded(*result),
{
    match result {
        Some(Ok(_)) => true,
        _ => false,
    }
}

/// The message that a call leaves behind, if it was due and failed.
pub open spec fn complaint(
    due: bool,
    result: Option<Result<(), WinApiError>>,
    words: Seq<char>,
) -> Seq<Seq<char>> {
    match result {
        Some(Err(error)) => if due {
            seq![words + error.described()]
        } else {
            Seq::empty()
        },
        _ => Seq::empty(),
    }
}

/// Keeps the message of a call that was due and failed.
fn note_call(
    messages: &mut Vec<String>,
    due: bool,
    result: &Option<Result<(), WinApiError>>,
    words: &str,
)
    ensures
        text::views(final(messages)@) == text::views(old(messages)@) + complaint(
            due,
            *result,
            words@,
        ),
{
    if due {
        if let Some(Err(error)) = result {
            let mut message: String = words.to_owned();
            message.append(error.to_text().as_str());
            messages.push(message);
        }
    }
    assert(text::views(messages@) =~= text::views(old(messages)@) + complaint(
        due,
        *result,
        words@,
    ));
}

/// The outcome of a cleanup that was not begun.
fn not_begun(reason: String) -> (r: SystemCleanupOutcome)
    ensures
        !r.executed,
        r.skipped_reason == Some(reason),
        r.delta_bytes is None,
{
    SystemCleanupOutcome { executed: false, skipped_reason: Some(reason), delta_bytes: None }
}

impl OptionalCleanupRun {
    /// Whether any part of the cleanup is switched on.
    pub open spec fn is_enabled(self) -> bool {
        self.cleanup.enable_standby_list_cleanup || self.cleanup.enable_system_working_set_cleanup
            || self.cleanup.enable_modified_page_list_cleanup
    }

    /// Whether a part of the cleanup has been carried out.
    pub open spec fn is_executed(self) -> bool {
        ||| self.cleanup.enable_system_working_set_cleanup && succeeded(self.empty_working_sets)
        ||| self.cleanup.enable_standby_list_cleanup && (succeeded(self.purge_low_priority)
            || succeeded(self.purge_standby))
    }

    /// Tells whether a part of the cleanup has been carried out.
    fn executed(&self) -> (r: bool)
        ensures
            r == self.is_executed(),
    {
        let emptied: bool = call_succeeded(&self.empty_working_sets);
        let purged: bool = call_succeeded(&self.purge_low_priority) || call_succeeded(
            &self.purge_standby,
        );
        (self.cleanup.enable_system_working_set_cleanup && emptied) || (
        self.cleanup.enable_standby_list_cleanup && purged)
    }

    /// What the cleanup needs next. Nothing is asked for before it is due.
    pub open spec fn needs(self) -> CleanupAction {
        if !self.is_enabled() || self.dry_run {
            CleanupAction::Done
        } else if self.cleanup.require_admin_for_system_cleanup && self.is_admin is None {
            CleanupAction::AskAdministrator
        } else if self.cleanup.require_admin_for_system_cleanup && self.is_admin == Some(false) {
            CleanupAction::Done
        } else if self.before is None {
            CleanupAction::ReadMemory
        } else if self.privilege is None {
            CleanupAction::EnablePrivilege
        } else if !succeeded(self.privilege) {
            CleanupAction::Done
        } else if self.cleanup.enable_system_working_set_cleanup && self.empty_working_sets is None {
            CleanupAction::SetMemoryList(MemoryListCommand::EmptyWorkingSets)
        } else if self.cleanup.enable_standby_list_cleanup && self.purge_low_priority is None {
            CleanupAction::SetMemoryList(MemoryListCommand::PurgeLowPriorityStandbyList)
        } else if self.cleanup.enable_standby_list_cleanup && self.purge_standby is None {
            CleanupAction::SetMemoryList(MemoryListCommand::PurgeStandbyList)
        } else if self.is_executed() && self.after is None {
            CleanupAction::ReadMemory
        } else {
            CleanupAction::Done
        }
    }

    /// Tells what the cleanup needs next.
    pub fn next_action(&self) -> (r: CleanupAction)
        ensures
            r == self.needs(),
    {
        let cleanup: &AdvancedCleanupConfig = &self.cleanup;
        let enabled: bool = cleanup.enable_standby_list_cleanup
            || cleanup.enable_system_working_set_cleanup
            || cleanup.enable_modified_page_list_cleanup;
        if !enabled || self.dry_run {
            return CleanupAction::Done;
        }
        if cleanup.require_admin_for_system_cleanup {
            match self.is_admin {
                None => {
                    return CleanupAction::AskAdministrator;
                },
                Some(is_admin) => {
                    if !is_admin {
                        return CleanupAction::Done;
                    }
                },
            }
        }
        if self.before.is_none() {
            return CleanupAction::ReadMemory;
        }
        if self.privilege.is_none() {
            return CleanupAction::EnablePrivilege;
        }
        if !call_succeeded(&self.privilege) {
            return CleanupAction::Done;
        }
        if cleanup.enable_system_working_set_cleanup && self.empty_working_sets.is_none() {
            return CleanupAction::SetMemoryList(MemoryListCommand::EmptyWorkingSets);
        }
        if cleanup.enable_standby_list_cleanup && self.purge_low_priority.is_none() {
            return CleanupAction::SetMemoryList(MemoryListCommand::PurgeLowPriorityStandbyList);
        }
        if cleanup.enable_standby_list_cleanup && self.purge_standby.is_none() {
            return CleanupAction::SetMemoryList(MemoryListCommand::PurgeStandbyList);
        }
        if self.executed() && self.after.is_none() {
            CleanupAction::ReadMemory
        } else {
            CleanupAction::Done
        }
    }

    /// The cleanup after `reply`. A reply that answers nothing changes nothing.
    pub open spec fn after_reply(self, reply: CleanupReply) -> OptionalCleanupRun {
        match (self.needs(), reply) {
            (CleanupAction::AskAdministrator, CleanupReply::Administrator(is_admin)) => {
                OptionalCleanupRun { is_admin: Some(is_admin), ..self }
            },
            (CleanupAction::ReadMemory, CleanupReply::Memory(memory)) => {
                if self.before is None {
                    OptionalCleanupRun { before: Some(memory), ..self }
                } else {
                    OptionalCleanupRun { after: Some(memory), ..self }
                }
            },
            (CleanupAction::EnablePrivilege, CleanupReply::Called(result)) => {
                OptionalCleanupRun { privilege: Some(result), ..self }
            },
            (CleanupAction::SetMemoryList(command), CleanupReply::Called(result)) => {
                match command {
                    MemoryListCommand::EmptyWorkingSets => OptionalCleanupRun {
                        empty_working_sets: Some(result),
                        ..self
                    },
                    MemoryListCommand::PurgeLowPriorityStandbyList => OptionalCleanupRun {
                        purge_low_priority: Some(result),
                        ..self
                    },
                    _ => OptionalCleanupRun { purge_standby: Some(result), ..self },
                }
            },
            _ => self,
        }
    }

    /// Takes in the reply to what the cleanup needed.
    pub fn step(&mut self, reply: CleanupReply)
        ensures
            *final(self) == old(self).after_reply(reply),
    {
        match (self.next_action(), reply) {
            (CleanupAction::AskAdministrator, CleanupReply::Administrator(is_admin)) => {
                self.is_admin = Some(is_admin);
            },
            (CleanupAction::ReadMemory, CleanupReply::Memory(memory)) => {
                if self.before.is_none() {
                    self.before = Some(memory);
                } else {
                    self.after = Some(memory);
                }
            },
            (CleanupAction::EnablePrivilege, CleanupReply::Called(result)) => {
                self.privilege = Some(result);
            },
            (CleanupAction::SetMemoryList(command), CleanupReply::Called(result)) => {
                match command {
                    MemoryListCommand::EmptyWorkingSets => {
                        self.empty_working_sets = Some(result);
                    },
                    MemoryListCommand::PurgeLowPriorityStandbyList => {
                        self.purge_low_priority = Some(result);
                    },
                    _ => {
                        self.purge_standby = Some(result);
                    },
                }
            },
            _ => {},
        }
    }

    /// Why the cleanup was not begun, if it was not.
    pub open spec fn skip_reason(self) -> Option<Seq<char>> {
        if !self.is_enabled() {
            Some("advanced_cleanup 未启用，已跳过系统级清理"@)
        } else if self.dry_run {
            Some("dry-run 只预览，不执行系统级清理"@)
        } else if self.cleanup.require_admin_for_system_cleanup && self.is_admin != Some(true) {
            Some("需要管理员权限，已跳过 standby list / 系统工作集清理"@)
        } else {
            match self.privilege {
                Some(Err(error)) => Some("启用系统级清理权限失败："@ + error.described()),
                _ => None,
            }
        }
    }

    /// The messages that the cleanup leaves behind.
    pub open spec fn complaints(self) -> Seq<Seq<char>> {
        complaint(
            self.cleanup.enable_system_working_set_cleanup,
            self.empty_working_sets,
            "系统工作集清理失败："@,
        ) + complaint(
            self.cleanup.enable_standby_list_cleanup,
            self.purge_low_priority,
            "低优先级 standby list 清理失败："@,
        ) + complaint(
            self.cleanup.enable_standby_list_cleanup,
            self.purge_standby,
            "standby list 清理失败："@,
        ) + if self.cleanup.enable_modified_page_list_cleanup {
            seq!["modified page list 清理已预留，本版本默认不执行"@]
        } else {
            Seq::empty()
        }
    }

    /// By how much the available memory has grown, if that was measured on both sides of a
    /// cleanup that was carried out.
    pub open spec fn growth(self) -> Option<i64> {
        match (self.before, self.after) {
            (Some(Some(before)), Some(Some(after))) => if self.is_executed() {
                Some(
                    crate::memory::signed_difference(
                        after.available_physical,
                        before.available_physical,
                    ) as i64,
                )
            } else {
                None
            },
            _ => None,
        }
    }

    /// Sums up the cleanup.
    pub fn finish(&self) -> (r: SystemCleanupOutcome)
        requires
            self.needs() == CleanupAction::Done,
        ensures
            match self.skip_reason() {
                Some(reason) => {
                    &&& !r.executed
                    &&& text::optional(r.skipped_reason) == Some(reason)
                    &&& r.delta_bytes is None
                },
                None => {
                    &&& r.executed == self.is_executed()
                    &&& text::optional(r.skipped_reason) == if self.complaints().len() == 0 {
                        None
                    } else {
                        Some(text::joined(self.complaints(), "; "@))
                    }
                    &&& r.delta_bytes == self.growth()
                },
            },
    {
        let cleanup: &AdvancedCleanupConfig = &self.cleanup;
        if !cleanup.enable_standby_list_cleanup && !cleanup.enable_system_working_set_cleanup
            && !cleanup.enable_modified_page_list_cleanup {
            return not_begun("advanced_cleanup 未启用，已跳过系统级清理".to_owned());
        }
        if self.dry_run {
            return not_begun("dry-run 只预览，不执行系统级清理".to_owned());
        }
        let is_admin: bool = match self.is_admin {
            Some(is_admin) => is_admin,
            None => false,
        };
        if cleanup.require_admin_for_system_cleanup && !is_admin {
            return not_begun(
                "需要管理员权限，已跳过 standby list / 系统工作集清理".to_owned(),
            );
        }
        if let Some(Err(error)) = &self.privilege {
            let mut reason: String = "启用系统级清理权限失败：".to_owned();
            reason.append(error.to_text().as_str());
            return not_begun(reason);
        }
        let mut messages: Vec<String> = Vec::new();
        note_call(
            &mut messages,
            cleanup.enable_system_working_set_cleanup,
            &self.empty_working_sets,
            "系统工作集清理失败：",
        );
        note_call(
            &mut messages,
            cleanup.enable_standby_list_cleanup,
            &self.purge_low_priority,
            "低优先级 standby list 清理失败：",
        );
        note_call(
            &mut messages,
            cleanup.enable_standby_list_cleanup,
            &self.purge_standby,
            "standby list 清理失败：",
        );
        if cleanup.enable_modified_page_list_cleanup {
            messages.push("modified page list 清理已预留，本版本默认不执行".to_owned());
        }
        assert(text::views(messages@) =~= self.complaints());
        let executed: bool = self.executed();
        let delta_bytes: Option<i64> = match (self.before, self.after) {
            (Some(Some(before)), Some(Some(after))) => if executed {
                Some(byte_difference(after.available_physical, before.available_physical))
            } else {
                None
            },
            _ => None,
        };
        SystemCleanupOutcome {
            executed,
            skipped_reason: if messages.len() == 0 {
                None
            } else {
                Some(text::join_texts(&messages, "; "))
            },
            delta_bytes,
        }
    }

    /// Whether `reply` answers what the cleanup needs next.
    pub open spec fn expects(self, reply: CleanupReply) -> bool {
        match self.needs() {
            CleanupAction::AskAdministrator => reply is Administrator,
            CleanupAction::ReadMemory => reply is Memory,
            CleanupAction::EnablePrivilege => reply is Called,
            CleanupAction::SetMemoryList(_) => reply is Called,
            CleanupAction::Done => false,
        }
    }

    /// How many replies the cleanup can still take in, at most.
    pub open spec fn replies_left(self) -> int {
        let missing = |answered: bool|
            if answered {
                0int
            } else {
                1int
            };
        missing(self.is_admin is Some) + missing(self.before is Some) + missing(
            self.privilege is Some,
        ) + missing(self.empty_working_sets is Some) + missing(self.purge_low_priority is Some)
            + missing(self.purge_standby is Some) + missing(self.after is Some)
    }
}

/// Starts an optional cleanup.
pub fn run_optional_system_cleanup(cleanup: &AdvancedCleanupConfig, dry_run: bool) -> (r:
    OptionalCleanupRun)
    ensures
        r == (OptionalCleanupRun {
            cleanup: *cleanup,
            dry_run,
            is_admin: None,
            before: None,
            privilege: None,
            empty_working_sets: None,
            purge_low_priority: None,
            purge_standby: None,
            after: None,
        }),
{
    OptionalCleanupRun {
        cleanup: *cleanup,
        dry_run,
        is_admin: None,
        before: None,
        privilege: None,
        empty_working_sets: None,
        purge_low_priority: None,
        purge_standby: None,
        after: None,
    }
}

/// A memory list is touched only outside dry runs, where the configuration asks for it, with
/// the administrator's rights that it demands, and with the privilege enabled.
pub proof fn optional_cleanup_needs_permission(run: OptionalCleanupRun, command: MemoryListCommand)
    requires
        run.needs() == CleanupAction::SetMemoryList(command),
    ensures
        !run.dry_run,
        run.cleanup.require_admin_for_system_cleanup ==> run.is_admin == Some(true),
        succeeded(run.privilege),
        command == MemoryListCommand::EmptyWorkingSets
            ==> run.cleanup.enable_system_working_set_cleanup,
        command != MemoryListCommand::EmptyWorkingSets ==> run.cleanup.enable_standby_list_cleanup,
        command != MemoryListCommand::FlushModifiedList,
{
}

/// An optional cleanup ends: every reply that it expects is one fewer to come.
pub proof fn optional_cleanup_ends(run: OptionalCleanupRun, reply: CleanupReply)
    requires
        run.expects(reply),
    ensures
        0 <= run.after_reply(reply).replies_left() < run.replies_left(),
{
}

// ---------------------------------------------------------------------------
// The effect of an optimization
// ---------------------------------------------------------------------------

/// Whether `effect` sums up what an optimization achieved.
pub open spec fn is_effect(
    effect: CleanupEffectSummary,
    before: MemorySnapshot,
    after: MemorySnapshot,
    trim: AggressiveTrimReport,
    cleanup: SystemCleanupOutcome,
) -> bool {
    &&& effect.before_physical_used_bytes == before.used()
    &&& effect.after_physical_used_bytes == after.used()
    &&& effect.before_available_bytes == before.available_physical
    &&& effect.after_available_bytes == after.available_physical
    &&& effect.available_delta_bytes == crate::memory::signed_difference(
        after.available_physical,
        before.available_physical,
    )
    &&& effect.process_trim_delta_bytes == trim.process_trim_delta_bytes
    &&& effect.standby_cleanup_delta_bytes == cleanup.delta_bytes
    &&& effect.system_cleanup_executed == cleanup.executed
    &&& effect.system_cleanup_skipped_reason == cleanup.skipped_reason
    &&& effect.working_set_rounds == trim.rounds_executed
}

/// Sums up what an optimization achieved.
pub fn cleanup_effect_summary(
    before: &MemorySnapshot,
    after: &MemorySnapshot,
    trim_report: &AggressiveTrimReport,
    system_cleanup: &SystemCleanupOutcome,
) -> (r: CleanupEffectSummary)
    ensures
        is_effect(r, *before, *after, *trim_report, *system_cleanup),
{
    CleanupEffectSummary {
        before_physical_used_bytes: before.used_physical(),
        after_physical_used_bytes: after.used_physical(),
        before_available_bytes: before.available_physical,
        after_available_bytes: after.available_physical,
        available_delta_bytes: byte_difference(
            after.available_physical,
            before.available_physical,
        ),
        process_trim_delta_bytes: trim_report.process_trim_delta_bytes,
        standby_cleanup_delta_bytes: system_cleanup.delta_bytes,
        system_cleanup_executed: system_cleanup.executed,
        system_cleanup_skipped_reason: clone_text(&system_cleanup.skipped_reason),
        working_set_rounds: trim_report.rounds_executed,
    }
}

/// The effect agrees with the snapshots: what was available and in use before and after, and
/// how the available memory has changed, which is positive exactly if there is more of it.
pub proof fn effects_agree_with_snapshots(
    effect: CleanupEffectSummary,
    before: MemorySnapshot,
    after: MemorySnapshot,
    trim: AggressiveTrimReport,
    cleanup: SystemCleanupOutcome,
)
    requires
        is_effect(effect, before, after, trim, cleanup),
    ensures
        effect.before_available_bytes == before.available_physical,
        effect.after_available_bytes == after.available_physical,
        before.available_physical <= before.total_physical ==> effect.before_physical_used_bytes
            + effect.before_available_bytes == before.total_physical,
        after.available_physical <= after.total_physical ==> effect.after_physical_used_bytes
            + effect.after_available_bytes == after.total_physical,
        before.available_physical <= i64::MAX && after.available_physical <= i64::MAX
            ==> effect.available_delta_bytes == effect.after_available_bytes
            - effect.before_available_bytes,
{
}

/// The effect takes over what trimming and the system-wide cleanup came to.
pub proof fn effects_take_over_what_was_done(
    effect: CleanupEffectSummary,
    before: MemorySnapshot,
    after: MemorySnapshot,
    trim: AggressiveTrimReport,
    cleanup: SystemCleanupOutcome,
)
    requires
        is_effect(effect, before, after, trim, cleanup),
    ensures
        effect.process_trim_delta_bytes == trim.process_trim_delta_bytes,
        effect.working_set_rounds == trim.rounds_executed,
        effect.system_cleanup_executed == cleanup.executed,
        effect.standby_cleanup_delta_bytes == cleanup.delta_bytes,
        effect.system_cleanup_skipped_reason == cleanup.skipped_reason,
{
}

/// What is said of closed processes names every count, in this order: those to be closed,
/// those that closed, those that were killed, and those that closing failed for.
pub proof fn activity_names_every_count(totals: TerminationTotals)
    ensures
        activity(totals) is None <==> totals.matched_count == 0 && totals.closed_count == 0
            && totals.force_killed_count == 0 && totals.failed_count == 0,
        activity(totals) matches Some(words) ==> words == "目标释放已进入终止阶段：候选 "@
            + text::decimal(totals.matched_count as nat) + "，温和关闭 "@ + text::decimal(
            totals.closed_count as nat,
        ) + "，强制终止 "@ + text::decimal(totals.force_killed_count as nat) + "，失败 "@
            + text::decimal(totals.failed_count as nat),
{
}

/// The words for closed processes are added behind what is said already, unless they are said
/// there; nothing that is said gets lost.
pub proof fn activity_is_added(reason: Option<Seq<char>>, totals: TerminationTotals)
    ensures
        activity(totals) is None ==> with_activity(reason, totals) == reason,
        activity(totals) matches Some(words) ==> with_activity(None, totals) == Some(words),
        reason matches Some(said) ==> with_activity(reason, totals) is Some
            && said.is_prefix_of(with_activity(reason, totals)->0),
        activity(totals) matches Some(words) ==> with_activity(reason, totals) is Some
            && text::contains(with_activity(reason, totals)->0, words),
{
    if let Some(words) = activity(totals) {
        let said = with_activity(reason, totals)->0;
        if reason is None || !text::contains(reason->0, words) {
            assert(said.subrange(said.len() - words.len(), said.len() as int) =~= words);
            assert(text::occurs_at(said, words, said.len() - words.len()));
        }
    }
}

/// What a release comes to. It counts as executed if the available memory has changed or a
/// process was closed or killed, and never in a dry run. Its growth is the difference of the
/// available memory. A release that missed the target says so and names the load and the
/// target; one that met it speaks only of closed processes.
pub proof fn releases_are_summed_up(
    outcome: SystemCleanupOutcome,
    dry_run: bool,
    report: SystemReleaseReport,
)
    requires
        is_release_outcome(outcome, dry_run, Ok(report)),
    ensures
        dry_run ==> !outcome.executed && outcome.delta_bytes is None,
        !dry_run ==> (outcome.executed <==> report.after.available_physical
            != report.before.available_physical || report.termination_graceful_closed_count > 0
            || report.termination_force_killed_count > 0),
        !dry_run ==> outcome.delta_bytes is Some,
        !dry_run && report.before.available_physical <= i64::MAX && report.after.available_physical
            <= i64::MAX ==> outcome.delta_bytes->0 == report.after.available_physical
            - report.before.available_physical,
        !dry_run && report.target_reached && report.termination_matched_count == 0
            && report.termination_graceful_closed_count == 0
            && report.termination_force_killed_count == 0 && report.termination_failed_count == 0
            ==> outcome.skipped_reason is None,
        !dry_run && !report.target_reached ==> outcome.skipped_reason is Some && (
        "内存优化已执行全部可用释放步骤，但当前内存占用仍为 "@ + text::decimal(
            report.after.memory_load_percent as nat,
        ) + "%，未达到 "@ + text::decimal(report.target_memory_load_percent as nat)
            + "% 目标；剩余占用可能来自系统保留、驱动、内核或不可终止进程"@).is_prefix_of(
            outcome.skipped_reason->0@,
        ),
        dry_run ==> outcome.skipped_reason is Some && (
        "dry-run 仅预览内存优化步骤；实际执行目标为内存占用不高于 "@ + text::decimal(25)
            + "%"@).is_prefix_of(outcome.skipped_reason->0@),
{
    activity_is_added(release_words(dry_run, report), totals_of(report));
    assert(report.after.available_physical != report.before.available_physical
        ==> crate::memory::signed_difference(
        report.after.available_physical,
        report.before.available_physical,
    ) != 0);
}

/// A release that failed says why, and counts as executed only if a process was closed.
pub proof fn failed_sessions_say_why(
    outcome: SystemCleanupOutcome,
    dry_run: bool,
    session: SystemReleaseSession,
    error: MemSparkError,
)
    requires
        session.failure == Some(error),
        is_session_outcome(outcome, dry_run, session),
    ensures
        outcome.skipped_reason is Some,
        ("内存优化目标释放失败："@ + error.described()).is_prefix_of(outcome.skipped_reason->0@),
        outcome.delta_bytes is None,
        outcome.executed <==> session.report is Some && (
        session.report->0.termination_graceful_closed_count > 0
            || session.report->0.termination_force_killed_count > 0),
{
    activity_is_added(
        Some("内存优化目标释放失败："@ + error.described()),
        session_totals(session),
    );
}

/// A session that came to its end is summed up as its report.
pub proof fn finished_sessions_are_summed_up(
    outcome: SystemCleanupOutcome,
    dry_run: bool,
    session: SystemReleaseSession,
)
    requires
        session.failure is None,
        session.report is Some,
        is_session_outcome(outcome, dry_run, session),
    ensures
        is_release_outcome(outcome, dry_run, Ok(session.report->0)),
{
}

impl OptionalCleanupRun {
    /// Whether the cleanup may go on to the memory lists.
    pub open spec fn may_clean(self) -> bool {
        &&& self.cleanup.enable_standby_list_cleanup
            || self.cleanup.enable_system_working_set_cleanup
            || self.cleanup.enable_modified_page_list_cleanup
        &&& !self.dry_run
        &&& self.cleanup.require_admin_for_system_cleanup ==> self.is_admin == Some(true)
        &&& self.before is Some
        &&& self.privilege matches Some(Ok(_))
    }
}

/// The order of an optional cleanup: the administrator's rights where they are demanded, the
/// memory, the privilege; then the working sets, the low-priority standby list and the whole
/// one, each where it is switched on and once; and the memory again if any of these succeeded.
pub proof fn optional_cleanup_goes_in_order(run: OptionalCleanupRun)
    ensures
        run.dry_run ==> run.needs() == CleanupAction::Done,
        !run.cleanup.enable_standby_list_cleanup && !run.cleanup.enable_system_working_set_cleanup
            && !run.cleanup.enable_modified_page_list_cleanup ==> run.needs()
            == CleanupAction::Done,
        run.needs() == CleanupAction::AskAdministrator
            ==> run.cleanup.require_admin_for_system_cleanup && run.is_admin is None,
        run.cleanup.require_admin_for_system_cleanup && run.is_admin == Some(false)
            ==> run.needs() == CleanupAction::Done,
        run.needs() == CleanupAction::EnablePrivilege ==> run.before is Some
            && run.privilege is None,
        (run.privilege matches Some(Err(_))) && run.before is Some
            && run.cleanup.require_admin_for_system_cleanup == false ==> run.needs()
            == CleanupAction::Done,
        run.may_clean() && run.cleanup.enable_system_working_set_cleanup
            && run.empty_working_sets is None ==> run.needs() == CleanupAction::SetMemoryList(
            MemoryListCommand::EmptyWorkingSets,
        ),
        run.may_clean() && (run.cleanup.enable_system_working_set_cleanup
            ==> run.empty_working_sets is Some) && run.cleanup.enable_standby_list_cleanup
            && run.purge_low_priority is None ==> run.needs() == CleanupAction::SetMemoryList(
            MemoryListCommand::PurgeLowPriorityStandbyList,
        ),
        run.may_clean() && (run.cleanup.enable_system_working_set_cleanup
            ==> run.empty_working_sets is Some) && run.cleanup.enable_standby_list_cleanup
            && run.purge_low_priority is Some && run.purge_standby is None ==> run.needs()
            == CleanupAction::SetMemoryList(MemoryListCommand::PurgeStandbyList),
        run.needs() is SetMemoryList ==> run.may_clean(),
        run.needs() == CleanupAction::ReadMemory && run.before is Some ==> run.after is None
            && run.may_clean() && ((run.cleanup.enable_system_working_set_cleanup && (
        run.empty_working_sets matches Some(Ok(_)))) || (run.cleanup.enable_standby_list_cleanup
            && ((run.purge_low_priority matches Some(Ok(_))) || (
        run.purge_standby matches Some(Ok(_)))))),
        run.may_clean() && (run.cleanup.enable_system_working_set_cleanup && (
        run.empty_working_sets matches Some(Ok(_)))) && !run.cleanup.enable_standby_list_cleanup
            && run.after is None ==> run.needs() == CleanupAction::ReadMemory,
{
    match run.is_admin {
        Some(is_admin) => {
            assert(run.is_admin == Some(true) || run.is_admin == Some(false)) by {
                assert(is_admin || !is_admin);
            }
        },
        None => {},
    }
}

/// A reply is kept where it belongs, and nothing else changes.
pub proof fn optional_cleanup_keeps_replies(
    run: OptionalCleanupRun,
    memory: Option<MemorySnapshot>,
    result: Result<(), WinApiError>,
    is_admin: bool,
)
    ensures
        run.needs() == CleanupAction::AskAdministrator ==> run.after_reply(
            CleanupReply::Administrator(is_admin),
        ) == (OptionalCleanupRun { is_admin: Some(is_admin), ..run }),
        run.needs() == CleanupAction::ReadMemory && run.before is None ==> run.after_reply(
            CleanupReply::Memory(memory),
        ) == (OptionalCleanupRun { before: Some(memory), ..run }),
        run.needs() == CleanupAction::ReadMemory && run.before is Some ==> run.after_reply(
            CleanupReply::Memory(memory),
        ) == (OptionalCleanupRun { after: Some(memory), ..run }),
        run.needs() == CleanupAction::EnablePrivilege ==> run.after_reply(
            CleanupReply::Called(result),
        ) == (OptionalCleanupRun { privilege: Some(result), ..run }),
        run.needs() == CleanupAction::SetMemoryList(MemoryListCommand::EmptyWorkingSets)
            ==> run.after_reply(CleanupReply::Called(result)) == (OptionalCleanupRun {
            empty_working_sets: Some(result),
            ..run
        }),
        run.needs() == CleanupAction::SetMemoryList(MemoryListCommand::PurgeLowPriorityStandbyList)
            ==> run.after_reply(CleanupReply::Called(result)) == (OptionalCleanupRun {
            purge_low_priority: Some(result),
            ..run
        }),
        run.needs() == CleanupAction::SetMemoryList(MemoryListCommand::PurgeStandbyList)
            ==> run.after_reply(CleanupReply::Called(result)) == (OptionalCleanupRun {
            purge_standby: Some(result),
            ..run
        }),
        run.needs() == CleanupAction::Done ==> run.after_reply(CleanupReply::Called(result))
            == run,
{
}

/// What an optional cleanup came to: it counts as executed if a part that is switched on
/// succeeded, and its growth is the difference of the available memory measured around it.
pub proof fn optional_cleanup_counts_what_succeeded(run: OptionalCleanupRun)
    ensures
        run.is_executed() <==> {
            ||| run.cleanup.enable_system_working_set_cleanup && (
            run.empty_working_sets matches Some(Ok(_)))
            ||| run.cleanup.enable_standby_list_cleanup && (
            run.purge_low_priority matches Some(Ok(_)))
            ||| run.cleanup.enable_standby_list_cleanup && (run.purge_standby matches Some(Ok(_)))
        },
        run.growth() is Some ==> run.is_executed(),
        run.is_executed() && run.before is Some && run.before->0 is Some && run.after is Some
            && run.after->0 is Some && run.before->0->0.available_physical <= i64::MAX
            && run.after->0->0.available_physical <= i64::MAX ==> run.growth() is Some
            && run.growth()->0 == run.after->0->0.available_physical
            - run.before->0->0.available_physical,
        run.before is Some && run.before->0 is None ==> run.growth() is None,
        run.after is Some && run.after->0 is None ==> run.growth() is None,
{
}

/// Why an optional cleanup was not begun: nothing is switched on, it is only a preview, the
/// administrator's rights are missing, or the privilege could not be enabled.
pub proof fn optional_cleanup_says_why_not(run: OptionalCleanupRun)
    ensures
        !run.is_enabled() ==> run.skip_reason()
            == Some("advanced_cleanup 未启用，已跳过系统级清理"@),
        run.is_enabled() <==> run.cleanup.enable_standby_list_cleanup
            || run.cleanup.enable_system_working_set_cleanup
            || run.cleanup.enable_modified_page_list_cleanup,
        run.is_enabled() && run.dry_run ==> run.skip_reason()
            == Some("dry-run 只预览，不执行系统级清理"@),
        run.is_enabled() && !run.dry_run && run.cleanup.require_admin_for_system_cleanup
            && run.is_admin != Some(true) ==> run.skip_reason()
            == Some("需要管理员权限，已跳过 standby list / 系统工作集清理"@),
        run.may_clean() ==> run.skip_reason() is None,
        run.is_enabled() && !run.dry_run && !run.cleanup.require_admin_for_system_cleanup && (
        run.privilege matches Some(Err(_))) ==> run.skip_reason() == Some(
            "启用系统级清理权限失败："@ + run.privilege->0->Err_0.described(),
        ),
{
}

/// A part of an optional cleanup that failed is told of, each under its own name, and the
/// part that is not implemented is told of where it is switched on.
pub proof fn optional_cleanup_tells_what_failed(run: OptionalCleanupRun, error: WinApiError)
    ensures
        run.cleanup.enable_system_working_set_cleanup && run.empty_working_sets == Some(
            Err::<(), WinApiError>(error),
        ) ==> run.complaints().contains("系统工作集清理失败："@ + error.described()),
        run.cleanup.enable_standby_list_cleanup && run.purge_low_priority == Some(
            Err::<(), WinApiError>(error),
        ) ==> run.complaints().contains("低优先级 standby list 清理失败："@ + error.described()),
        run.cleanup.enable_standby_list_cleanup && run.purge_standby == Some(
            Err::<(), WinApiError>(error),
        ) ==> run.complaints().contains("standby list 清理失败："@ + error.described()),
        run.cleanup.enable_modified_page_list_cleanup ==> run.complaints().contains(
            "modified page list 清理已预留，本版本默认不执行"@,
        ),
        !(run.empty_working_sets matches Some(Err(_))) && !(run.purge_low_priority matches Some(
            Err(_),
        )) && !(run.purge_standby matches Some(Err(_)))
            && !run.cleanup.enable_modified_page_list_cleanup ==> run.complaints().len() == 0,
{
    let a = complaint(
        run.cleanup.enable_system_working_set_cleanup,
        run.empty_working_sets,
        "系统工作集清理失败："@,
    );
    let b = complaint(
        run.cleanup.enable_standby_list_cleanup,
        run.purge_low_priority,
        "低优先级 standby list 清理失败："@,
    );
    let c = complaint(
        run.cleanup.enable_standby_list_cleanup,
        run.purge_standby,
        "standby list 清理失败："@,
    );
    let all = run.complaints();
    if a.len() > 0 {
        assert(all[0] == a[0]);
    }
    if b.len() > 0 {
        assert(all[a.len() as int] == b[0]);
    }
    if c.len() > 0 {
        assert(all[(a + b).len() as int] == c[0]);
    }
    if run.cleanup.enable_modified_page_list_cleanup {
        assert(all[all.len() - 1] == "modified page list 清理已预留，本版本默认不执行"@);
    }
}

/// A release that failed outright has done nothing and measured nothing, and says why.
pub proof fn failed_releases_say_why(
    outcome: SystemCleanupOutcome,
    dry_run: bool,
    error: MemSparkError,
)
    requires
        is_release_outcome(outcome, dry_run, Err(error)),
    ensures
        !outcome.executed,
        outcome.delta_bytes is None,
        outcome.skipped_reason is Some,
        outcome.skipped_reason->0@ == "内存优化目标释放失败："@ + error.described(),
{
}

} // verus!
