//! An optimization from start to end: trimming working sets, releasing what the system holds,
//! and reporting.
//!
//! The run decides what comes next; whatever touches the system is done by whoever drives it.

use crate::cleanup;
use crate::cleanup::{cleanup_effect_summary, session_cleanup, SystemCleanupOutcome};
use crate::config::AppConfig;
use crate::error::MemSparkError;
use crate::memory::MemorySnapshot;
use crate::policy::{OptimizeMode, TrimStatus};
use crate::process::ProcessInfo;
use crate::release;
use crate::release::{
    privilege_step, run_system_release, SessionAction, SessionPhase, SessionReply,
    SystemReleaseSession, SystemReleaseStep,
};
use crate::report::{OptimizeReport, TrimResult};
use crate::termination::ReleaseAction;
use crate::trim;
use crate::trim::{
    trim_options, trim_working_sets_aggressive, AggressiveTrimOptions, AggressiveTrimReport,
    TrimAction, TrimReply, TrimRun, TrimStage,
};
use vstd::prelude::*;

verus! {

// ---------------------------------------------------------------------------
// Counting results
// ---------------------------------------------------------------------------

/// What results are counted by.
#[derive(Debug, Clone, Copy, PartialEq, Eq, Structural)]
pub enum TrimCount {
    /// The working set was trimmed, or would be.
    Handled,
    /// The process was left alone.
    Skipped,
    /// Trimming failed.
    Failed,
}

impl TrimCount {
    /// Whether a status counts.
    pub open spec fn counts(self, status: TrimStatus) -> bool {
        match self {
            TrimCount::Handled => status is Trimmed || status is WouldTrim,
            TrimCount::Skipped => status is Skipped,
            TrimCount::Failed => status is Failed,
        }
    }
}

/// How many results count.
pub open spec fn counted(results: Seq<TrimResult>, what: TrimCount) -> nat
    decreases results.len(),
{
    if results.len() == 0 {
        0
    } else {
        counted(results.drop_last(), what) + if what.counts(results.last().status) {
            1nat
        } else {
            0nat
        }
    }
}

/// Counts results.
pub fn count_results(results: &Vec<TrimResult>, what: TrimCount) -> (r: usize)
    ensures
        r == counted(results@, what),
{
    let mut count: usize = 0;
    let mut i: usize = 0;
    while i < results.len()
        invariant
            i <= results@.len(),
            count <= i,
            count == counted(results@.take(i as int), what),
        decreases results@.len() - i,
    {
        assert(results@.take(i + 1).drop_last() =~= results@.take(i as int));
        let counts: bool = match (&results[i].status, what) {
            (TrimStatus::Trimmed, TrimCount::Handled) => true,
            (TrimStatus::WouldTrim, TrimCount::Handled) => true,
            (TrimStatus::Skipped(_), TrimCount::Skipped) => true,
            (TrimStatus::Failed(_), TrimCount::Failed) => true,
            _ => false,
        };
        if counts {
            count = count + 1;
        }
        i = i + 1;
    }
    assert(results@.take(i as int) =~= results@);
    count
}

/// Every result is handled, skipped or failed, and only one of these.
pub proof fn results_are_counted_once(results: Seq<TrimResult>)
    ensures
        counted(results, TrimCount::Handled) + counted(results, TrimCount::Skipped) + counted(
            results,
            TrimCount::Failed,
        ) == results.len(),
    decreases results.len(),
{
    if results.len() > 0 {
        results_are_counted_once(results.drop_last());
    }
}

// ---------------------------------------------------------------------------
// The run
// ---------------------------------------------------------------------------

/// What an optimization is doing, with what it has found out so far.
#[derive(Debug)]
pub enum OptimizePhase {
    /// The memory is being read.
    Starting,
    /// The privilege with this number is being enabled.
    Enabling(MemorySnapshot, usize),
    /// The processes are being listed.
    Listing(MemorySnapshot),
    /// Working sets are being trimmed.
    Trimming(MemorySnapshot, TrimRun),
    /// Memory that the system holds is being released.
    Releasing(MemorySnapshot, AggressiveTrimReport, SystemReleaseSession),
    /// The memory is being read again.
    Measuring(MemorySnapshot, AggressiveTrimReport, SystemCleanupOutcome),
    /// The clock is being read.
    Timing(MemorySnapshot, AggressiveTrimReport, SystemCleanupOutcome, MemorySnapshot),
    /// The optimization is over.
    Finished(Result<OptimizeReport, MemSparkError>),
}

/// What an optimization needs next.
#[derive(Debug, Clone, Copy, PartialEq, Eq, Structural)]
pub enum OptimizeAction {
    /// Start the stopwatch and read the memory.
    Start,
    EnablePrivilege(SystemReleaseStep),
    ListProcesses,
    Trim(TrimAction),
    Release(SessionAction),
    ReadMemory,
    ReadClock,
    Done,
}

/// The reply to what an optimization needed.
#[derive(Debug)]
pub enum OptimizeReply {
    /// The memory at the start.
    Started(Result<MemorySnapshot, MemSparkError>),
    /// The privilege is enabled, or cannot be; either way the optimization goes on.
    Enabled,
    /// The processes, in the order in which the system lists them.
    Listed(Result<Vec<ProcessInfo>, MemSparkError>),
    Trimmed(TrimReply),
    Released(SessionReply),
    /// The memory, if it could be read.
    Memory(Option<MemorySnapshot>),
    /// The seconds since the epoch and the milliseconds since the start.
    Clock(u64, u64),
}

/// An optimization.
#[derive(Debug)]
pub struct OptimizeRun {
    pub dry_run: bool,
    pub options: AggressiveTrimOptions,
    pub phase: OptimizePhase,
}

/// Whether `report` is the report of an optimization.
pub open spec fn is_report(
    report: OptimizeReport,
    dry_run: bool,
    before: MemorySnapshot,
    trimmed: AggressiveTrimReport,
    released: SystemCleanupOutcome,
    after: MemorySnapshot,
    timestamp_unix: u64,
    duration_ms: u64,
) -> bool {
    &&& report.mode == OptimizeMode::MemoryOptimization
    &&& report.dry_run == dry_run
    &&& report.timestamp_unix == timestamp_unix
    &&& report.duration_ms == duration_ms
    &&& report.before == before
    &&& report.after == after
    &&& report.scanned_count == trimmed.results@.len()
    &&& report.trimmed_count == counted(trimmed.results@, TrimCount::Handled)
    &&& report.skipped_count == counted(trimmed.results@, TrimCount::Skipped)
    &&& report.failed_count == counted(trimmed.results@, TrimCount::Failed)
    &&& cleanup::is_effect(report.effect, before, after, trimmed, released)
    &&& report.results == trimmed.results
}

/// Whether the effect in a report agrees with the report's own snapshots.
pub open spec fn effect_agrees(report: OptimizeReport) -> bool {
    &&& report.effect.before_available_bytes == report.before.available_physical
    &&& report.effect.after_available_bytes == report.after.available_physical
    &&& report.effect.before_physical_used_bytes == report.before.used()
    &&& report.effect.after_physical_used_bytes == report.after.used()
    &&& report.effect.available_delta_bytes == report.increase()
}

/// Writes the report of an optimization.
fn report_of(
    dry_run: bool,
    before: MemorySnapshot,
    trimmed: AggressiveTrimReport,
    released: &SystemCleanupOutcome,
    after: MemorySnapshot,
    timestamp_unix: u64,
    duration_ms: u64,
) -> (r: OptimizeReport)
    ensures
        is_report(r, dry_run, before, trimmed, *released, after, timestamp_unix, duration_ms),
{
    let scanned_count: usize = trimmed.results.len();
    let trimmed_count: usize = count_results(&trimmed.results, TrimCount::Handled);
    let skipped_count: usize = count_results(&trimmed.results, TrimCount::Skipped);
    let failed_count: usize = count_results(&trimmed.results, TrimCount::Failed);
    OptimizeReport {
        mode: OptimizeMode::MemoryOptimization,
        dry_run,
        timestamp_unix,
        duration_ms,
        before,
        after,
        scanned_count,
        trimmed_count,
        skipped_count,
        failed_count,
        effect: cleanup_effect_summary(&before, &after, &trimmed, released),
        results: trimmed.results,
    }
}

impl OptimizeRun {
    /// Whether the run's parts fit together.
    pub open spec fn well_formed(self) -> bool {
        match self.phase {
            OptimizePhase::Enabling(_, k) => k < 3 && !self.dry_run,
            OptimizePhase::Trimming(_, run) => {
                &&& run.well_formed()
                &&& run.stage != TrimStage::Finished
                &&& run.options == self.options
                &&& run.dry_run == self.dry_run
            },
            OptimizePhase::Releasing(_, _, session) => {
                &&& session.well_formed()
                &&& !(session.phase is Finished)
                &&& session.dry_run == self.dry_run
            },
            OptimizePhase::Finished(Ok(report)) => {
                &&& report.dry_run == self.dry_run
                &&& report.scanned_count == report.results@.len()
                &&& report.trimmed_count == counted(report.results@, TrimCount::Handled)
                &&& report.skipped_count == counted(report.results@, TrimCount::Skipped)
                &&& report.failed_count == counted(report.results@, TrimCount::Failed)
                &&& effect_agrees(report)
            },
            _ => true,
        }
    }

    /// This run at another phase.
    pub open spec fn at(self, phase: OptimizePhase) -> OptimizeRun {
        OptimizeRun { phase, ..self }
    }

    /// Whether `next` is this run with the trimming at `run`: trimming goes on, or the release
    /// begins.
    pub open spec fn goes_on_trimming(
        self,
        next: OptimizeRun,
        before: MemorySnapshot,
        run: TrimRun,
    ) -> bool {
        if run.stage != TrimStage::Finished {
            next == self.at(OptimizePhase::Trimming(before, run))
        } else {
            &&& next == self.at(next.phase)
            &&& next.phase matches OptimizePhase::Releasing(start, trimmed, session)
            &&& start == before
            &&& run.is_summed_up(trimmed)
            &&& release::session_begins(session, self.dry_run)
        }
    }

    /// Whether `next` is this run with the release at `session`: it goes on, or the outcome
    /// is measured.
    pub open spec fn goes_on_releasing(
        self,
        next: OptimizeRun,
        before: MemorySnapshot,
        trimmed: AggressiveTrimReport,
        session: SystemReleaseSession,
    ) -> bool {
        if !(session.phase is Finished) {
            next == self.at(OptimizePhase::Releasing(before, trimmed, session))
        } else {
            &&& next == self.at(next.phase)
            &&& next.phase matches OptimizePhase::Measuring(start, same, released)
            &&& start == before
            &&& same == trimmed
            &&& cleanup::is_session_outcome(released, self.dry_run, session)
        }
    }

    /// Whether `next` is this run after `reply`. A reply that answers nothing changes nothing.
    pub open spec fn steps_to(self, reply: OptimizeReply, next: OptimizeRun) -> bool {
        match (self.phase, reply) {
            (OptimizePhase::Starting, OptimizeReply::Started(Ok(memory))) => {
                next == self.at(
                    if self.dry_run {
                        OptimizePhase::Listing(memory)
                    } else {
                        OptimizePhase::Enabling(memory, 0)
                    },
                )
            },
            (OptimizePhase::Starting, OptimizeReply::Started(Err(error))) => {
                next == self.at(OptimizePhase::Finished(Err(error)))
            },
            (OptimizePhase::Enabling(before, k), OptimizeReply::Enabled) => {
                next == self.at(
                    if k < 2 {
                        OptimizePhase::Enabling(before, (k + 1) as usize)
                    } else {
                        OptimizePhase::Listing(before)
                    },
                )
            },
            (OptimizePhase::Listing(before), OptimizeReply::Listed(Ok(processes))) => {
                exists|run: TrimRun| #[trigger]
                    trim::trimming_begins(run, self.options, self.dry_run, processes@)
                        && self.goes_on_trimming(next, before, run)
            },
            (OptimizePhase::Listing(_), OptimizeReply::Listed(Err(error))) => {
                next == self.at(OptimizePhase::Finished(Err(error)))
            },
            (OptimizePhase::Trimming(before, run), OptimizeReply::Trimmed(inner)) => {
                exists|after: TrimRun| #[trigger]
                    run.steps(inner, after) && self.goes_on_trimming(next, before, after)
            },
            (
                OptimizePhase::Releasing(before, trimmed, session),
                OptimizeReply::Released(inner),
            ) => {
                exists|after: SystemReleaseSession| #[trigger]
                    session.steps_to(inner, after) && after.well_formed()
                        && self.goes_on_releasing(next, before, trimmed, after)
            },
            (
                OptimizePhase::Measuring(before, trimmed, released),
                OptimizeReply::Memory(memory),
            ) => {
                next == self.at(
                    OptimizePhase::Timing(
                        before,
                        trimmed,
                        released,
                        match memory {
                            Some(after) => after,
                            None => before,
                        },
                    ),
                )
            },
            (
                OptimizePhase::Timing(before, trimmed, released, after),
                OptimizeReply::Clock(timestamp_unix, duration_ms),
            ) => {
                &&& next == self.at(next.phase)
                &&& next.phase matches OptimizePhase::Finished(Ok(report))
                &&& is_report(
                    report,
                    self.dry_run,
                    before,
                    trimmed,
                    released,
                    after,
                    timestamp_unix,
                    duration_ms,
                )
            },
            _ => next == self,
        }
    }

    /// What the run needs next.
    pub open spec fn needs(self) -> OptimizeAction {
        match self.phase {
            OptimizePhase::Starting => OptimizeAction::Start,
            OptimizePhase::Enabling(_, k) => OptimizeAction::EnablePrivilege(
                release::privilege_steps()[k as int],
            ),
            OptimizePhase::Listing(_) => OptimizeAction::ListProcesses,
            OptimizePhase::Trimming(_, run) => OptimizeAction::Trim(run.needs()),
            OptimizePhase::Releasing(_, _, session) => OptimizeAction::Release(session.needs()),
            OptimizePhase::Measuring(_, _, _) => OptimizeAction::ReadMemory,
            OptimizePhase::Timing(_, _, _, _) => OptimizeAction::ReadClock,
            OptimizePhase::Finished(_) => OptimizeAction::Done,
        }
    }

    /// Tells what the run needs next.
    pub fn next_action(&self) -> (r: OptimizeAction)
        requires
            self.well_formed(),
        ensures
            r == self.needs(),
    {
        match &self.phase {
            OptimizePhase::Starting => OptimizeAction::Start,
            OptimizePhase::Enabling(_, k) => OptimizeAction::EnablePrivilege(privilege_step(*k)),
            OptimizePhase::Listing(_) => OptimizeAction::ListProcesses,
            OptimizePhase::Trimming(_, run) => OptimizeAction::Trim(run.next_action()),
            OptimizePhase::Releasing(_, _, session) => OptimizeAction::Release(
                session.next_action(),
            ),
            OptimizePhase::Measuring(_, _, _) => OptimizeAction::ReadMemory,
            OptimizePhase::Timing(_, _, _, _) => OptimizeAction::ReadClock,
            OptimizePhase::Finished(_) => OptimizeAction::Done,
        }
    }

    /// The phase with the trimming at `run`.
    fn phase_of_trimming(dry_run: bool, before: MemorySnapshot, run: TrimRun) -> (r: OptimizePhase)
        requires
            run.well_formed(),
        ensures
            if run.stage != TrimStage::Finished {
                r == OptimizePhase::Trimming(before, run)
            } else {
                &&& r matches OptimizePhase::Releasing(start, trimmed, session)
                &&& start == before
                &&& run.is_summed_up(trimmed)
                &&& release::session_begins(session, dry_run)
            },
    {
        if run.stage != TrimStage::Finished {
            OptimizePhase::Trimming(before, run)
        } else {
            OptimizePhase::Releasing(before, run.finish(), run_system_release(dry_run))
        }
    }

    /// Takes in the reply to what the run needed.
    pub fn step(self, reply: OptimizeReply) -> (next: OptimizeRun)
        requires
            self.well_formed(),
        ensures
            self.steps_to(reply, next),
            next.well_formed(),
    {
        let phase: OptimizePhase = match (self.phase, reply) {
            (OptimizePhase::Starting, OptimizeReply::Started(Ok(memory))) => {
                if self.dry_run {
                    OptimizePhase::Listing(memory)
                } else {
                    OptimizePhase::Enabling(memory, 0)
                }
            },
            (OptimizePhase::Starting, OptimizeReply::Started(Err(error))) => {
                OptimizePhase::Finished(Err(error))
            },
            (OptimizePhase::Enabling(before, k), OptimizeReply::Enabled) => {
                if k < 2 {
                    OptimizePhase::Enabling(before, k + 1)
                } else {
                    OptimizePhase::Listing(before)
                }
            },
            (OptimizePhase::Listing(before), OptimizeReply::Listed(Ok(processes))) => {
                let run: TrimRun = trim_working_sets_aggressive(
                    self.options,
                    self.dry_run,
                    &processes,
                );
                Self::phase_of_trimming(self.dry_run, before, run)
            },
            (OptimizePhase::Listing(_), OptimizeReply::Listed(Err(error))) => {
                OptimizePhase::Finished(Err(error))
            },
            (OptimizePhase::Trimming(before, run), OptimizeReply::Trimmed(inner)) => {
                let mut after: TrimRun = run;
                after.step(inner);
                Self::phase_of_trimming(self.dry_run, before, after)
            },
            (
                OptimizePhase::Releasing(before, trimmed, session),
                OptimizeReply::Released(inner),
            ) => {
                let after: SystemReleaseSession = session.step(inner);
                let over: bool = matches!(&after.phase, SessionPhase::Finished);
                if over {
                    OptimizePhase::Measuring(
                        before,
                        trimmed,
                        session_cleanup(self.dry_run, after),
                    )
                } else {
                    OptimizePhase::Releasing(before, trimmed, after)
                }
            },
            (
                OptimizePhase::Measuring(before, trimmed, released),
                OptimizeReply::Memory(memory),
            ) => {
                let after: MemorySnapshot = match memory {
                    Some(after) => after,
                    None => before,
                };
                OptimizePhase::Timing(before, trimmed, released, after)
            },
            (
                OptimizePhase::Timing(before, trimmed, released, after),
                OptimizeReply::Clock(timestamp_unix, duration_ms),
            ) => {
                let report: OptimizeReport = report_of(
                    self.dry_run,
                    before,
                    trimmed,
                    &released,
                    after,
                    timestamp_unix,
                    duration_ms,
                );
                OptimizePhase::Finished(Ok(report))
            },
            (phase, _) => phase,
        };
        OptimizeRun { dry_run: self.dry_run, options: self.options, phase }
    }

    /// Gives the report, or the error that ended the run; nothing while it is under way.
    pub fn finish(self) -> (r: Option<Result<OptimizeReport, MemSparkError>>)
        ensures
            r == match self.phase {
                OptimizePhase::Finished(result) => Some(result),
                _ => None,
            },
    {
        match self.phase {
            OptimizePhase::Finished(result) => Some(result),
            _ => None,
        }
    }
}

/// Starts an optimization as the configuration has it.
pub fn optimize(dry_run: bool, config: &AppConfig) -> (r: OptimizeRun)
    ensures
        r.well_formed(),
        r.dry_run == dry_run,
        r.options == trim::options_of(config.mode.optimization),
        r.phase is Starting,
{
    OptimizeRun {
        dry_run,
        options: trim_options(config.policy()),
        phase: OptimizePhase::Starting,
    }
}

/// A dry run changes nothing: no privilege is enabled, nothing is trimmed, no step of a
/// release is run and no process is closed.
pub proof fn dry_run_changes_nothing(run: OptimizeRun)
    requires
        run.well_formed(),
        run.dry_run,
    ensures
        match run.needs() {
            OptimizeAction::EnablePrivilege(_) => false,
            OptimizeAction::Trim(_) => false,
            OptimizeAction::Release(action) => action == SessionAction::StartRelease || action
                == SessionAction::ReadElapsed,
            _ => true,
        },
{
}

/// Processes are closed only as a last resort: after the trimming has ended, and while a
/// release has been made that has not met the target. Which processes are closed follows the
/// rules for closing, and those of virtual machines are left running.
pub proof fn closing_is_the_last_resort(run: OptimizeRun, action: ReleaseAction)
    requires
        run.well_formed(),
        run.needs() == OptimizeAction::Release(SessionAction::Close(action)),
    ensures
        !run.dry_run,
        ({
            &&& run.phase matches OptimizePhase::Releasing(_, _, session)
            &&& session.report matches Some(report)
            &&& !report.target_reached
            &&& session.phase matches SessionPhase::Closing(closing)
            &&& closing.well_formed()
            &&& closing.keep_vm_stack
            &&& action == closing.needs()
        }),
{
    release::closing_needs_a_missed_target(run.phase->Releasing_2);
}

/// The counters of a finished report add up to the number of processes looked at.
pub proof fn report_counters_add_up(run: OptimizeRun)
    requires
        run.well_formed(),
        run.phase matches OptimizePhase::Finished(Ok(_)),
    ensures
        run.phase matches OptimizePhase::Finished(Ok(report)) && report.scanned_count
            == report.trimmed_count + report.skipped_count + report.failed_count
            && report.scanned_count == report.results@.len(),
{
    results_are_counted_once(run.phase->Finished_0->Ok_0.results@);
}

impl OptimizeRun {
    /// Whether `reply` answers what the run needs next.
    pub open spec fn expects(self, reply: OptimizeReply) -> bool {
        match self.phase {
            OptimizePhase::Starting => reply is Started,
            OptimizePhase::Enabling(_, _) => reply is Enabled,
            OptimizePhase::Listing(_) => reply is Listed,
            OptimizePhase::Trimming(_, run) => reply matches OptimizeReply::Trimmed(inner)
                && run.expects(inner),
            OptimizePhase::Releasing(_, _, session) => {
                reply matches OptimizeReply::Released(inner) && session.expects(inner)
            },
            OptimizePhase::Measuring(_, _, _) => reply is Memory,
            OptimizePhase::Timing(_, _, _, _) => reply is Clock,
            OptimizePhase::Finished(_) => false,
        }
    }

    /// How many phases the run can still enter, at most.
    pub open spec fn phases_left(self) -> int {
        match self.phase {
            OptimizePhase::Starting => 9,
            OptimizePhase::Enabling(_, k) => 8 - k,
            OptimizePhase::Listing(_) => 5,
            OptimizePhase::Trimming(_, _) => 4,
            OptimizePhase::Releasing(_, _, _) => 3,
            OptimizePhase::Measuring(_, _, _) => 2,
            OptimizePhase::Timing(_, _, _, _) => 1,
            OptimizePhase::Finished(_) => 0,
        }
    }
}

/// An optimization ends: with every reply that it expects, fewer phases are left, or the
/// trimming or the release that is under way is nearer to its own end.
pub proof fn optimization_ends(run: OptimizeRun, reply: OptimizeReply, next: OptimizeRun)
    requires
        run.well_formed(),
        run.expects(reply),
        run.steps_to(reply, next),
    ensures
        ({
            ||| 0 <= next.phases_left() < run.phases_left()
            ||| (run.phase matches OptimizePhase::Trimming(_, before)
                && next.phase matches OptimizePhase::Trimming(_, after)
                && 0 <= after.work_left() < before.work_left())
            ||| (run.phase matches OptimizePhase::Releasing(_, _, before)
                && next.phase matches OptimizePhase::Releasing(_, _, after)
                && before.is_followed_by(after))
        }),
{
    match (run.phase, reply) {
        (OptimizePhase::Trimming(before, trimming), OptimizeReply::Trimmed(inner)) => {
            let after = choose|after: TrimRun| #[trigger]
                trimming.steps(inner, after) && run.goes_on_trimming(next, before, after);
            trim::trimming_ends(trimming, inner, after);
        },
        (
            OptimizePhase::Releasing(before, trimmed, session),
            OptimizeReply::Released(inner),
        ) => {
            let after = choose|after: SystemReleaseSession| #[trigger]
                session.steps_to(inner, after) && after.well_formed() && run.goes_on_releasing(
                    next,
                    before,
                    trimmed,
                    after,
                );
            release::session_ends(session, inner, after);
        },
        _ => {},
    }
}

// ---------------------------------------------------------------------------
// What an optimization does
// ---------------------------------------------------------------------------

/// The effect told in a finished report agrees with the report's own snapshots: the available
/// memory before and after, what was in use, and by how much the available memory grew.
pub proof fn finished_reports_agree_with_their_snapshots(run: OptimizeRun, report: OptimizeReport)
    requires
        run.well_formed(),
        run.phase == OptimizePhase::Finished(Ok(report)),
    ensures
        report.effect.before_available_bytes == report.before.available_physical,
        report.effect.after_available_bytes == report.after.available_physical,
        report.before.available_physical <= i64::MAX && report.after.available_physical <= i64::MAX
            ==> report.effect.available_delta_bytes == report.effect.after_available_bytes
            - report.effect.before_available_bytes,
        report.before.available_physical <= report.before.total_physical
            ==> report.effect.before_physical_used_bytes == report.before.total_physical
            - report.before.available_physical,
        report.after.available_physical <= report.after.total_physical
            ==> report.effect.after_physical_used_bytes == report.after.total_physical
            - report.after.available_physical,
        report.dry_run == run.dry_run,
{
}

/// A result adds to exactly one count: a trimmed process, or one that would be trimmed, to
/// those handled, a skipped one to those skipped, and a failed one to those failed.
pub proof fn results_are_counted_by_status(results: Seq<TrimResult>, result: TrimResult)
    ensures
        ({
            let handled = counted(results.push(result), TrimCount::Handled) - counted(
                results,
                TrimCount::Handled,
            );
            let skipped = counted(results.push(result), TrimCount::Skipped) - counted(
                results,
                TrimCount::Skipped,
            );
            let failed = counted(results.push(result), TrimCount::Failed) - counted(
                results,
                TrimCount::Failed,
            );
            match result.status {
                TrimStatus::Trimmed => handled == 1 && skipped == 0 && failed == 0,
                TrimStatus::WouldTrim => handled == 1 && skipped == 0 && failed == 0,
                TrimStatus::Skipped(_) => handled == 0 && skipped == 1 && failed == 0,
                TrimStatus::Failed(_) => handled == 0 && skipped == 0 && failed == 1,
            }
        }),
        counted(Seq::empty(), TrimCount::Handled) == 0,
        counted(Seq::empty(), TrimCount::Skipped) == 0,
        counted(Seq::empty(), TrimCount::Failed) == 0,
{
    assert(results.push(result).drop_last() =~= results);
}

/// How an optimization starts: with the memory, then, unless it is a dry run, with the three
/// privileges, and then with the list of processes. Memory that could not be read ends it.
pub proof fn optimizations_start_with_the_memory(
    run: OptimizeRun,
    memory: Result<MemorySnapshot, MemSparkError>,
    next: OptimizeRun,
)
    requires
        run.well_formed(),
        run.phase is Starting,
        run.steps_to(OptimizeReply::Started(memory), next),
    ensures
        run.needs() == OptimizeAction::Start,
        memory is Ok && run.dry_run ==> next.needs() == OptimizeAction::ListProcesses,
        memory is Ok && !run.dry_run ==> next.needs() == OptimizeAction::EnablePrivilege(
            SystemReleaseStep::EnableDebugPrivilege,
        ),
        memory matches Ok(snapshot) ==> next.phase == OptimizePhase::Listing(snapshot)
            || next.phase == OptimizePhase::Enabling(snapshot, 0),
        memory matches Err(error) ==> next.phase == OptimizePhase::Finished(
            Err::<OptimizeReport, MemSparkError>(error),
        ),
        next.options == run.options,
        next.dry_run == run.dry_run,
{
}

/// The privileges are enabled one after the other, and the processes are listed after the last.
pub proof fn optimizations_enable_three_privileges(
    run: OptimizeRun,
    before: MemorySnapshot,
    k: usize,
    next: OptimizeRun,
)
    requires
        run.well_formed(),
        run.phase == OptimizePhase::Enabling(before, k),
        run.steps_to(OptimizeReply::Enabled, next),
    ensures
        k == 0 ==> next.needs() == OptimizeAction::EnablePrivilege(
            SystemReleaseStep::EnableIncreaseQuotaPrivilege,
        ) && next.phase == OptimizePhase::Enabling(before, 1),
        k == 1 ==> next.needs() == OptimizeAction::EnablePrivilege(
            SystemReleaseStep::EnableProfilePrivilege,
        ) && next.phase == OptimizePhase::Enabling(before, 2),
        k == 2 ==> next.needs() == OptimizeAction::ListProcesses && next.phase
            == OptimizePhase::Listing(before),
        k <= 2,
        next.options == run.options,
        next.dry_run == run.dry_run,
{
}

/// The listed processes are trimmed with the options of the run, and what is trimmed comes
/// before what is released. A listing that failed ends the optimization.
pub proof fn optimizations_trim_what_is_listed(
    run: OptimizeRun,
    before: MemorySnapshot,
    listed: Result<Vec<ProcessInfo>, MemSparkError>,
    next: OptimizeRun,
)
    requires
        run.well_formed(),
        run.phase == OptimizePhase::Listing(before),
        run.steps_to(OptimizeReply::Listed(listed), next),
    ensures
        match listed {
            Ok(processes) => exists|trimming: TrimRun| #[trigger]
                trim::trimming_begins(trimming, run.options, run.dry_run, processes@) && {
                    &&& trimming.needs() != TrimAction::Done ==> next.phase
                        == OptimizePhase::Trimming(before, trimming)
                    &&& trimming.needs() == TrimAction::Done ==> {
                        &&& next.phase matches OptimizePhase::Releasing(start, trimmed, session)
                        &&& start == before
                        &&& trimming.is_summed_up(trimmed)
                        &&& next.needs() == OptimizeAction::Release(SessionAction::StartRelease)
                        &&& session.dry_run == run.dry_run
                    }
                },
            Err(error) => next.phase == OptimizePhase::Finished(
                Err::<OptimizeReport, MemSparkError>(error),
            ),
        },
        next.options == run.options,
        next.dry_run == run.dry_run,
{
    if let Ok(processes) = listed {
        let trimming = choose|trimming: TrimRun| #[trigger]
            trim::trimming_begins(trimming, run.options, run.dry_run, processes@)
                && run.goes_on_trimming(next, before, trimming);
        assert(trim::trimming_begins(trimming, run.options, run.dry_run, processes@));
    }
}

/// Trimming goes its own way; once it is over, a release follows with what was trimmed.
pub proof fn optimizations_release_after_trimming(
    run: OptimizeRun,
    before: MemorySnapshot,
    trimming: TrimRun,
    reply: TrimReply,
    next: OptimizeRun,
)
    requires
        run.well_formed(),
        run.phase == OptimizePhase::Trimming(before, trimming),
        run.steps_to(OptimizeReply::Trimmed(reply), next),
    ensures
        run.needs() == OptimizeAction::Trim(trimming.needs()),
        exists|after: TrimRun| #[trigger]
            trimming.steps(reply, after) && {
                &&& after.needs() != TrimAction::Done ==> next.phase == OptimizePhase::Trimming(
                    before,
                    after,
                )
                &&& after.needs() == TrimAction::Done ==> {
                    &&& next.phase matches OptimizePhase::Releasing(start, trimmed, session)
                    &&& start == before
                    &&& after.is_summed_up(trimmed)
                    &&& next.needs() == OptimizeAction::Release(SessionAction::StartRelease)
                    &&& session.dry_run == run.dry_run
                }
            },
{
    let after = choose|after: TrimRun| #[trigger]
        trimming.steps(reply, after) && run.goes_on_trimming(next, before, after);
    assert(trimming.steps(reply, after));
}

/// A release goes its own way; once it is over, the memory is measured. What was trimmed is
/// kept, and what the release came to is taken along.
pub proof fn optimizations_measure_after_releasing(
    run: OptimizeRun,
    before: MemorySnapshot,
    trimmed: AggressiveTrimReport,
    session: SystemReleaseSession,
    reply: SessionReply,
    next: OptimizeRun,
)
    requires
        run.well_formed(),
        run.phase == OptimizePhase::Releasing(before, trimmed, session),
        run.steps_to(OptimizeReply::Released(reply), next),
    ensures
        run.needs() == OptimizeAction::Release(session.needs()),
        exists|after: SystemReleaseSession| #[trigger]
            session.steps_to(reply, after) && {
                &&& after.needs() != SessionAction::Done ==> next.phase
                    == OptimizePhase::Releasing(before, trimmed, after)
                &&& after.needs() == SessionAction::Done ==> {
                    &&& next.phase matches OptimizePhase::Measuring(start, same, released)
                    &&& start == before
                    &&& same == trimmed
                    &&& cleanup::is_session_outcome(released, run.dry_run, after)
                    &&& next.needs() == OptimizeAction::ReadMemory
                }
            },
{
    let after = choose|after: SystemReleaseSession| #[trigger]
        session.steps_to(reply, after) && after.well_formed() && run.goes_on_releasing(
            next,
            before,
            trimmed,
            after,
        );
    assert(session.steps_to(reply, after));
}

/// The memory at the end is the one read; where it could not be read, it is taken to be as at
/// the start. Then the clock is read.
pub proof fn optimizations_end_with_a_measurement(
    run: OptimizeRun,
    before: MemorySnapshot,
    trimmed: AggressiveTrimReport,
    released: SystemCleanupOutcome,
    memory: Option<MemorySnapshot>,
    next: OptimizeRun,
)
    requires
        run.well_formed(),
        run.phase == OptimizePhase::Measuring(before, trimmed, released),
        run.steps_to(OptimizeReply::Memory(memory), next),
    ensures
        run.needs() == OptimizeAction::ReadMemory,
        memory matches Some(after) ==> next.phase == OptimizePhase::Timing(
            before,
            trimmed,
            released,
            after,
        ),
        memory is None ==> next.phase == OptimizePhase::Timing(before, trimmed, released, before),
        next.needs() == OptimizeAction::ReadClock,
{
}

/// The report holds what happened: the memory at the start and at the end, every result of
/// the trimming, the time, and what trimming and release came to.
pub proof fn reports_hold_what_happened(
    run: OptimizeRun,
    before: MemorySnapshot,
    trimmed: AggressiveTrimReport,
    released: SystemCleanupOutcome,
    after: MemorySnapshot,
    timestamp_unix: u64,
    duration_ms: u64,
    next: OptimizeRun,
)
    requires
        run.well_formed(),
        run.phase == OptimizePhase::Timing(before, trimmed, released, after),
        run.steps_to(OptimizeReply::Clock(timestamp_unix, duration_ms), next),
    ensures
        next.needs() == OptimizeAction::Done,
        ({
            &&& next.phase matches OptimizePhase::Finished(Ok(report))
            &&& report.before == before
            &&& report.after == after
            &&& report.timestamp_unix == timestamp_unix
            &&& report.duration_ms == duration_ms
            &&& report.dry_run == run.dry_run
            &&& report.results@ == trimmed.results@
            &&& report.scanned_count == trimmed.results@.len()
            &&& report.trimmed_count == counted(trimmed.results@, TrimCount::Handled)
            &&& report.skipped_count == counted(trimmed.results@, TrimCount::Skipped)
            &&& report.failed_count == counted(trimmed.results@, TrimCount::Failed)
            &&& report.effect.before_available_bytes == before.available_physical
            &&& report.effect.after_available_bytes == after.available_physical
            &&& report.effect.process_trim_delta_bytes == trimmed.process_trim_delta_bytes
            &&& report.effect.working_set_rounds == trimmed.rounds_executed
            &&& report.effect.system_cleanup_executed == released.executed
            &&& report.effect.system_cleanup_skipped_reason == released.skipped_reason
            &&& report.effect.standby_cleanup_delta_bytes == released.delta_bytes
        }),
{
}

} // verus!
