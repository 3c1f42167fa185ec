//! Trimming the working sets of processes, in rounds.
//!
//! The run decides which call comes next and what its reply means; the calls themselves are
//! made by whoever drives the run.

use crate::order;
use crate::policy::{is_system_boundary, ModePolicy, SkipReason, TrimStatus};
use crate::process::ProcessInfo;
use crate::report::TrimResult;
use crate::text;
use crate::winapi::WinApiError;
use vstd::prelude::*;

verus! {

// ---------------------------------------------------------------------------
// Options
// ---------------------------------------------------------------------------

/// How working sets are trimmed.
#[derive(Debug, Clone, Copy)]
pub struct AggressiveTrimOptions {
    pub min_working_set_bytes: u64,
    pub rounds: u32,
    pub round_delay_ms: u64,
    pub allow_trim_explorer: bool,
    pub allow_trim_browser: bool,
    pub include_query_failed: bool,
    pub skip_foreground: bool,
    pub skip_system: bool,
    pub skip_self: bool,
}

/// The larger of two numbers.
pub open spec fn max_of(a: int, b: int) -> int {
    if a >= b {
        a
    } else {
        b
    }
}

impl AggressiveTrimOptions {
    /// The options as an optimization uses them: at least five rounds, processes that could
    /// not be queried not left out, and a delay between rounds of 100 to 300 milliseconds.
    pub open spec fn normalized(self) -> AggressiveTrimOptions {
        AggressiveTrimOptions {
            rounds: max_of(self.rounds as int, 5) as u32,
            include_query_failed: true,
            round_delay_ms: if 100 <= self.round_delay_ms <= 300 {
                self.round_delay_ms
            } else {
                150
            },
            ..self
        }
    }

    /// Adjusts the options for an optimization.
    pub fn normalized_for_memory_optimization(self) -> (r: AggressiveTrimOptions)
        ensures
            r == self.normalized(),
    {
        let rounds: u32 = if self.rounds >= 5 {
            self.rounds
        } else {
            5
        };
        let round_delay_ms: u64 = if 100 <= self.round_delay_ms && self.round_delay_ms <= 300 {
            self.round_delay_ms
        } else {
            150
        };
        AggressiveTrimOptions { rounds, include_query_failed: true, round_delay_ms, ..self }
    }
}

/// The options that follow from a policy. System processes and the process itself are left
/// alone whatever the policy says of them.
pub open spec fn options_of(policy: ModePolicy) -> AggressiveTrimOptions {
    AggressiveTrimOptions {
        min_working_set_bytes: policy.floor_bytes() as u64,
        rounds: max_of(policy.max_rounds as int, 1) as u32,
        round_delay_ms: policy.round_delay_ms,
        allow_trim_explorer: policy.allow_trim_explorer,
        allow_trim_browser: policy.allow_trim_browser,
        include_query_failed: false,
        skip_foreground: policy.skip_foreground,
        skip_system: true,
        skip_self: true,
    }.normalized()
}

/// Derives the options from a policy.
pub fn trim_options(policy: &ModePolicy) -> (r: AggressiveTrimOptions)
    ensures
        r == options_of(*policy),
{
    AggressiveTrimOptions {
        min_working_set_bytes: policy.min_working_set_bytes(),
        rounds: if policy.max_rounds >= 1 {
            policy.max_rounds
        } else {
            1
        },
        round_delay_ms: policy.round_delay_ms,
        allow_trim_explorer: policy.allow_trim_explorer,
        allow_trim_browser: policy.allow_trim_browser,
        include_query_failed: false,
        skip_foreground: policy.skip_foreground,
        skip_system: true,
        skip_self: true,
    }.normalized_for_memory_optimization()
}

// ---------------------------------------------------------------------------
// Which processes are left alone
// ---------------------------------------------------------------------------

/// Why a process is left alone, if it is.
pub open spec fn skip_decision(process: ProcessInfo, options: AggressiveTrimOptions) -> Option<
    SkipReason,
> {
    if options.skip_system && crate::policy::is_listed(
        crate::policy::boundary_names(),
        process.name@,
    ) {
        Some(SkipReason::SystemBoundaryProcess)
    } else if options.skip_system && process.pid <= 4 {
        Some(SkipReason::SystemProcess)
    } else if options.skip_self && process.is_self {
        Some(SkipReason::SelfProcess)
    } else if options.skip_foreground && process.is_foreground {
        Some(SkipReason::ForegroundProcess)
    } else if process.query_error is Some && !options.include_query_failed {
        Some(SkipReason::QueryFailed)
    } else if process.working_set < options.min_working_set_bytes && process.query_error is None {
        Some(SkipReason::WorkingSetTooSmall)
    } else {
        None
    }
}

/// Decides whether a process is left alone, and why.
pub fn skip_reason(process: &ProcessInfo, options: &AggressiveTrimOptions) -> (r: Option<
    SkipReason,
>)
    ensures
        r == skip_decision(*process, *options),
{
    if options.skip_system && is_system_boundary(process.name.as_str()) {
        return Some(SkipReason::SystemBoundaryProcess);
    }
    if options.skip_system && process.pid <= 4 {
        return Some(SkipReason::SystemProcess);
    }
    if options.skip_self && process.is_self {
        return Some(SkipReason::SelfProcess);
    }
    if options.skip_foreground && process.is_foreground {
        return Some(SkipReason::ForegroundProcess);
    }
    if process.query_error.is_some() && !options.include_query_failed {
        return Some(SkipReason::QueryFailed);
    }
    if process.working_set < options.min_working_set_bytes && process.query_error.is_none() {
        return Some(SkipReason::WorkingSetTooSmall);
    }
    None
}

/// Whether `status` is what a failed trim leaves behind.
pub open spec fn is_failure_status(status: TrimStatus, error: WinApiError) -> bool {
    if error.denied() {
        status == TrimStatus::Skipped(SkipReason::AccessDenied)
    } else if error.exited() {
        status == TrimStatus::Skipped(SkipReason::ProcessExited)
    } else if text::occurs_at(error.context@, "OpenProcess"@, 0) {
        status == TrimStatus::Skipped(SkipReason::OpenProcessFailed)
    } else {
        status matches TrimStatus::Failed(message) && message@ == error.described()
    }
}

/// Tells what a failed trim leaves behind.
pub fn failure_status(error: &WinApiError) -> (r: TrimStatus)
    ensures
        is_failure_status(r, *error),
{
    if error.is_access_denied() {
        TrimStatus::Skipped(SkipReason::AccessDenied)
    } else if error.is_process_exited() {
        TrimStatus::Skipped(SkipReason::ProcessExited)
    } else if text::starts_with(error.context, "OpenProcess") {
        TrimStatus::Skipped(SkipReason::OpenProcessFailed)
    } else {
        TrimStatus::Failed(error.to_text())
    }
}

// ---------------------------------------------------------------------------
// The run
// ---------------------------------------------------------------------------

/// A process to be trimmed, and what is known of it so far.
#[derive(Debug)]
pub struct CandidateProcess {
    pub pid: u32,
    pub current_working_set: u64,
    pub result: TrimResult,
}

/// Where a run stands; the number is the index of a candidate.
#[derive(Debug, Clone, Copy, PartialEq, Eq, Structural)]
pub enum TrimStage {
    /// The candidate's working set is being emptied.
    Emptying(usize),
    /// Emptying failed; the candidate's working-set limits are being shrunk.
    Shrinking(usize),
    /// The trim succeeded; the candidate's working set is being measured.
    Measuring(usize),
    /// A round has ended and another one follows.
    Pausing,
    /// The run is over.
    Finished,
}

/// What a run needs next.
#[derive(Debug, Clone, Copy, PartialEq, Eq, Structural)]
pub enum TrimAction {
    EmptyWorkingSet(u32),
    ShrinkWorkingSet(u32),
    QueryWorkingSet(u32),
    Pause(u64),
    Done,
}

/// The reply to what a run needed.
#[derive(Debug)]
pub enum TrimReply {
    /// How a call that trims ended.
    Called(Result<(), WinApiError>),
    /// The working set measured, if it could be.
    Measured(Option<u64>),
    /// The pause is over.
    Rested,
}

/// A trimming run.
#[derive(Debug)]
pub struct TrimRun {
    pub options: AggressiveTrimOptions,
    pub dry_run: bool,
    pub skipped: Vec<TrimResult>,
    pub candidates: Vec<CandidateProcess>,
    pub round: u32,
    pub rounds_executed: u32,
    pub touched: bool,
    pub stage: TrimStage,
}

/// What a trimming run reports.
#[derive(Debug)]
pub struct AggressiveTrimReport {
    pub results: Vec<TrimResult>,
    pub process_trim_delta_bytes: u64,
    pub rounds_executed: u32,
}

/// The sort keys of processes: their working sets.
pub open spec fn working_set_keys(processes: Seq<ProcessInfo>) -> Seq<u128> {
    processes.map_values(|p: ProcessInfo| p.working_set as u128)
}

/// The processes by descending working set; those with equal ones keep their order.
pub open spec fn by_working_set(processes: Seq<ProcessInfo>) -> Seq<ProcessInfo> {
    order::rearranged(
        processes,
        choose|o: Seq<usize>| order::is_descending_order(o, working_set_keys(processes)),
    )
}

/// The processes that are left alone.
pub open spec fn left_alone(
    processes: Seq<ProcessInfo>,
    options: AggressiveTrimOptions,
) -> Seq<ProcessInfo>
    decreases processes.len(),
{
    if processes.len() == 0 {
        Seq::empty()
    } else if skip_decision(processes.last(), options) is Some {
        left_alone(processes.drop_last(), options).push(processes.last())
    } else {
        left_alone(processes.drop_last(), options)
    }
}

/// The processes that are to be trimmed.
pub open spec fn chosen(processes: Seq<ProcessInfo>, options: AggressiveTrimOptions) -> Seq<
    ProcessInfo,
>
    decreases processes.len(),
{
    if processes.len() == 0 {
        Seq::empty()
    } else if skip_decision(processes.last(), options) is None {
        chosen(processes.drop_last(), options).push(processes.last())
    } else {
        chosen(processes.drop_last(), options)
    }
}

/// Whether `result` starts out from `process` with nothing measured after.
pub open spec fn reports(result: TrimResult, process: ProcessInfo) -> bool {
    &&& result.pid == process.pid
    &&& result.name == process.name
    &&& result.before_working_set == process.working_set
    &&& result.after_working_set is None
}

/// Whether `result` reports that `process` was left alone.
pub open spec fn reports_skipped(
    result: TrimResult,
    process: ProcessInfo,
    options: AggressiveTrimOptions,
) -> bool {
    &&& reports(result, process)
    &&& skip_decision(process, options) matches Some(reason)
    &&& result.status == TrimStatus::Skipped(reason)
}

/// Whether `candidate` is `process` before its first trim.
pub open spec fn stands_for(
    candidate: CandidateProcess,
    process: ProcessInfo,
    options: AggressiveTrimOptions,
    dry_run: bool,
) -> bool {
    &&& candidate.pid == process.pid
    &&& candidate.current_working_set == max_of(
        process.working_set as int,
        options.min_working_set_bytes as int,
    )
    &&& reports(candidate.result, process)
    &&& candidate.result.status == if dry_run {
        TrimStatus::WouldTrim
    } else {
        TrimStatus::Trimmed
    }
}

/// Whether a candidate is trimmed in the next round: no trim of it has failed, and its
/// working set is not below the floor.
pub open spec fn is_target(candidate: CandidateProcess, floor: u64) -> bool {
    candidate.result.status is Trimmed && candidate.current_working_set >= floor
}

/// The first target at or after `from`, or the number of candidates.
pub open spec fn next_target(candidates: Seq<CandidateProcess>, floor: u64, from: int) -> int
    decreases candidates.len() - from,
{
    if from >= candidates.len() {
        candidates.len() as int
    } else if is_target(candidates[from], floor) {
        from
    } else {
        next_target(candidates, floor, from + 1)
    }
}

/// The bytes by which a trimmed and measured candidate shrank.
pub open spec fn reduction(candidate: CandidateProcess) -> nat {
    match (candidate.result.status, candidate.result.after_working_set) {
        (TrimStatus::Trimmed, Some(after)) => if after <= candidate.result.before_working_set {
            (candidate.result.before_working_set - after) as nat
        } else {
            0
        },
        _ => 0,
    }
}

/// The bytes by which the candidates shrank together.
pub open spec fn total_reduction(candidates: Seq<CandidateProcess>) -> nat
    decreases candidates.len(),
{
    if candidates.len() == 0 {
        0
    } else {
        total_reduction(candidates.drop_last()) + reduction(candidates.last())
    }
}

/// Whether `after` is `before` once trimming it has failed with `error`. A failure after the
/// first round leaves no mark.
pub open spec fn fails(
    before: CandidateProcess,
    after: CandidateProcess,
    error: WinApiError,
    round: u32,
) -> bool {
    &&& after.pid == before.pid
    &&& after.current_working_set == before.current_working_set
    &&& after.result.pid == before.result.pid
    &&& after.result.name == before.result.name
    &&& after.result.before_working_set == before.result.before_working_set
    &&& after.result.after_working_set == before.result.after_working_set
    &&& if round == 0 {
        is_failure_status(after.result.status, error)
    } else {
        after.result.status == before.result.status
    }
}

/// A candidate once its working set has been measured; `None` stands for a failed
/// measurement, which leaves the candidate as it was.
pub open spec fn measured(candidate: CandidateProcess, working_set: Option<u64>) -> CandidateProcess {
    match working_set {
        None => candidate,
        Some(_) => CandidateProcess {
            pid: candidate.pid,
            current_working_set: working_set->0,
            result: TrimResult { after_working_set: working_set, ..candidate.result },
        },
    }
}

impl TrimRun {
    /// How many rounds there are at most.
    pub open spec fn round_limit(self) -> int {
        max_of(self.options.rounds as int, 1)
    }

    /// Whether the run's parts fit together.
    pub open spec fn well_formed(self) -> bool {
        &&& self.round < self.round_limit()
        &&& self.rounds_executed <= self.round + 1
        &&& self.dry_run ==> self.stage == TrimStage::Finished
        &&& match self.stage {
            TrimStage::Emptying(i) | TrimStage::Shrinking(i) | TrimStage::Measuring(i) => {
                i < self.candidates@.len() && is_target(
                    self.candidates@[i as int],
                    self.options.min_working_set_bytes,
                )
            },
            TrimStage::Pausing => self.round + 1 < self.round_limit(),
            TrimStage::Finished => true,
        }
    }

    /// Where the run stands once the candidates before `from` have had their turn.
    pub open spec fn stage_from(self, from: int) -> TrimStage {
        let next = next_target(self.candidates@, self.options.min_working_set_bytes, from);
        if next < self.candidates@.len() {
            TrimStage::Emptying(next as usize)
        } else if self.touched && self.round + 1 < self.round_limit() {
            TrimStage::Pausing
        } else {
            TrimStage::Finished
        }
    }

    /// The rounds executed once the candidates before `from` have had their turn.
    pub open spec fn executed_from(self, executed: u32, from: int) -> u32 {
        if self.stage_from(from) is Emptying || !self.touched {
            executed
        } else {
            (self.round + 1) as u32
        }
    }

    /// Whether `next` has the same task as this run.
    pub open spec fn same_task(self, next: TrimRun) -> bool {
        &&& next.options == self.options
        &&& next.dry_run == self.dry_run
        &&& next.skipped == self.skipped
    }

    /// Whether `next` is this run after the candidate at `i` has become `candidate` and the
    /// run has gone on.
    pub open spec fn goes_on(self, next: TrimRun, i: int, candidate: CandidateProcess) -> bool {
        &&& self.same_task(next)
        &&& next.round == self.round
        &&& next.touched == self.touched
        &&& next.candidates@ == self.candidates@.update(i, candidate)
        &&& next.stage == next.stage_from(i + 1)
        &&& next.rounds_executed == next.executed_from(self.rounds_executed, i + 1)
    }

    /// Whether `reply` answers what the run needs next.
    pub open spec fn expects(self, reply: TrimReply) -> bool {
        match self.stage {
            TrimStage::Emptying(_) => reply is Called,
            TrimStage::Shrinking(_) => reply is Called,
            TrimStage::Measuring(_) => reply is Measured,
            TrimStage::Pausing => reply is Rested,
            TrimStage::Finished => false,
        }
    }

    /// Whether `next` is this run after `reply`. A reply that answers nothing changes nothing.
    pub open spec fn steps(self, reply: TrimReply, next: TrimRun) -> bool {
        match (self.stage, reply) {
            (TrimStage::Emptying(i), TrimReply::Called(Ok(_))) => next == (TrimRun {
                stage: TrimStage::Measuring(i),
                touched: true,
                ..self
            }),
            (TrimStage::Emptying(i), TrimReply::Called(Err(_))) => next == (TrimRun {
                stage: TrimStage::Shrinking(i),
                touched: true,
                ..self
            }),
            (TrimStage::Shrinking(i), TrimReply::Called(Ok(_))) => next == (TrimRun {
                stage: TrimStage::Measuring(i),
                ..self
            }),
            (TrimStage::Shrinking(i), TrimReply::Called(Err(error))) => {
                &&& self.goes_on(next, i as int, next.candidates@[i as int])
                &&& fails(
                    self.candidates@[i as int],
                    next.candidates@[i as int],
                    error,
                    self.round,
                )
            },
            (TrimStage::Measuring(i), TrimReply::Measured(working_set)) => {
                self.goes_on(next, i as int, measured(self.candidates@[i as int], working_set))
            },
            (TrimStage::Pausing, TrimReply::Rested) => {
                &&& self.same_task(next)
                &&& next.round == self.round + 1
                &&& !next.touched
                &&& next.candidates == self.candidates
                &&& next.stage == next.stage_from(0)
                &&& next.rounds_executed == self.rounds_executed
            },
            _ => next == self,
        }
    }

    /// Goes on to the next target, or to the end of the round.
    fn proceed(&mut self, from: usize)
        requires
            old(self).round < old(self).round_limit(),
            old(self).rounds_executed <= old(self).round + 1,
            !old(self).dry_run,
        ensures
            old(self).same_task(*final(self)),
            final(self).round == old(self).round,
            final(self).touched == old(self).touched,
            final(self).candidates == old(self).candidates,
            final(self).stage == final(self).stage_from(from as int),
            final(self).rounds_executed == final(self).executed_from(
                old(self).rounds_executed,
                from as int,
            ),
            final(self).well_formed(),
    {
        let mut i: usize = from;
        while i < self.candidates.len()
            invariant
                *self == *old(self),
                from <= i,
                next_target(self.candidates@, self.options.min_working_set_bytes, from as int)
                    == next_target(self.candidates@, self.options.min_working_set_bytes, i as int),
            ensures
                *self == *old(self),
                next_target(self.candidates@, self.options.min_working_set_bytes, from as int)
                    == if i < self.candidates@.len() {
                    i as int
                } else {
                    self.candidates@.len() as int
                },
                i < self.candidates@.len() ==> is_target(
                    self.candidates@[i as int],
                    self.options.min_working_set_bytes,
                ),
            decreases self.candidates@.len() - i,
        {
            let trimmed: bool = match &self.candidates[i].result.status {
                TrimStatus::Trimmed => true,
                _ => false,
            };
            if trimmed && self.candidates[i].current_working_set
                >= self.options.min_working_set_bytes {
                break ;
            }
            i = i + 1;
        }
        if i < self.candidates.len() {
            self.stage = TrimStage::Emptying(i);
            return ;
        }
        let limit: u32 = if self.options.rounds >= 1 {
            self.options.rounds
        } else {
            1
        };
        if self.touched {
            self.rounds_executed = self.round + 1;
        }
        self.stage = if self.touched && self.round + 1 < limit {
            TrimStage::Pausing
        } else {
            TrimStage::Finished
        };
    }

    /// What the run needs next.
    pub open spec fn needs(self) -> TrimAction {
        match self.stage {
            TrimStage::Emptying(i) => TrimAction::EmptyWorkingSet(
                self.candidates@[i as int].pid,
            ),
            TrimStage::Shrinking(i) => TrimAction::ShrinkWorkingSet(
                self.candidates@[i as int].pid,
            ),
            TrimStage::Measuring(i) => TrimAction::QueryWorkingSet(
                self.candidates@[i as int].pid,
            ),
            TrimStage::Pausing => TrimAction::Pause(self.options.round_delay_ms),
            TrimStage::Finished => TrimAction::Done,
        }
    }

    /// Tells what the run needs next.
    pub fn next_action(&self) -> (r: TrimAction)
        requires
            self.well_formed(),
        ensures
            r == self.needs(),
    {
        match self.stage {
            TrimStage::Emptying(i) => TrimAction::EmptyWorkingSet(self.candidates[i].pid),
            TrimStage::Shrinking(i) => TrimAction::ShrinkWorkingSet(self.candidates[i].pid),
            TrimStage::Measuring(i) => TrimAction::QueryWorkingSet(self.candidates[i].pid),
            TrimStage::Pausing => TrimAction::Pause(self.options.round_delay_ms),
            TrimStage::Finished => TrimAction::Done,
        }
    }

    /// Takes in the reply to what the run needed.
    pub fn step(&mut self, reply: TrimReply)
        requires
            old(self).well_formed(),
        ensures
            old(self).steps(reply, *final(self)),
            final(self).well_formed(),
    {
        let count: usize = self.candidates.len();
        assert(count == self.candidates@.len());
        match (self.stage, reply) {
            (TrimStage::Emptying(i), TrimReply::Called(result)) => {
                self.touched = true;
                self.stage = match result {
                    Ok(_) => TrimStage::Measuring(i),
                    Err(_) => TrimStage::Shrinking(i),
                };
            },
            (TrimStage::Shrinking(i), TrimReply::Called(result)) => {
                match result {
                    Ok(_) => {
                        self.stage = TrimStage::Measuring(i);
                    },
                    Err(error) => {
                        if self.round == 0 {
                            self.candidates[i].result.status = failure_status(&error);
                        }
                        assert(self.candidates@ =~= old(self).candidates@.update(
                            i as int,
                            self.candidates@[i as int],
                        ));
                        self.proceed(i + 1);
                    },
                }
            },
            (TrimStage::Measuring(i), TrimReply::Measured(working_set)) => {
                if let Some(after) = working_set {
                    self.candidates[i].current_working_set = after;
                    self.candidates[i].result.after_working_set = Some(after);
                }
                assert(self.candidates@ =~= old(self).candidates@.update(
                    i as int,
                    measured(old(self).candidates@[i as int], working_set),
                ));
                self.proceed(i + 1);
            },
            (TrimStage::Pausing, TrimReply::Rested) => {
                self.round = self.round + 1;
                self.touched = false;
                self.proceed(0);
            },
            _ => {},
        }
    }

    /// Whether `report` sums up this run.
    pub open spec fn is_summed_up(self, report: AggressiveTrimReport) -> bool {
        &&& report.results@ == self.skipped@ + self.candidates@.map_values(
            |c: CandidateProcess| c.result,
        )
        &&& report.process_trim_delta_bytes == if self.dry_run {
            0
        } else {
            total_reduction(self.candidates@) % 0x1_0000_0000_0000_0000
        }
        &&& report.rounds_executed == if self.dry_run {
            self.round_limit()
        } else if self.rounds_executed == 0 && self.candidates@.len() > 0 {
            1
        } else {
            self.rounds_executed as int
        }
    }

    /// Sums up the run.
    pub fn finish(self) -> (r: AggressiveTrimReport)
        ensures
            self.is_summed_up(r),
    {
        let mut results: Vec<TrimResult> = self.skipped.clone();
        let mut delta: u64 = 0;
        let mut i: usize = 0;
        assert(results@ =~= self.skipped@);
        assert(self.candidates@.take(0) =~= Seq::empty());
        while i < self.candidates.len()
            invariant
                i <= self.candidates@.len(),
                results@ == self.skipped@ + self.candidates@.take(i as int).map_values(
                    |c: CandidateProcess| c.result,
                ),
                delta == total_reduction(self.candidates@.take(i as int))
                    % 0x1_0000_0000_0000_0000,
            decreases self.candidates@.len() - i,
        {
            let ghost taken = self.candidates@.take(i as int);
            let ghost wider = self.candidates@.take(i + 1);
            assert(wider.drop_last() =~= taken);
            let result: &TrimResult = &self.candidates[i].result;
            let trimmed: bool = match &result.status {
                TrimStatus::Trimmed => true,
                _ => false,
            };
            if trimmed {
                if let Some(after) = result.after_working_set {
                    delta = delta.wrapping_add(result.before_working_set.saturating_sub(after));
                }
            }
            results.push(result.clone());
            assert(results@ =~= self.skipped@ + wider.map_values(|c: CandidateProcess| c.result));
            i = i + 1;
        }
        assert(self.candidates@.take(i as int) =~= self.candidates@);
        let rounds_executed: u32 = if self.dry_run {
            if self.options.rounds >= 1 {
                self.options.rounds
            } else {
                1
            }
        } else if self.rounds_executed == 0 && self.candidates.len() > 0 {
            1
        } else {
            self.rounds_executed
        };
        AggressiveTrimReport {
            results,
            process_trim_delta_bytes: if self.dry_run {
                0
            } else {
                delta
            },
            rounds_executed,
        }
    }
}

/// Whether `run` is about to begin with the given task.
pub open spec fn trimming_begins(
    run: TrimRun,
    options: AggressiveTrimOptions,
    dry_run: bool,
    processes: Seq<ProcessInfo>,
) -> bool {
    let left = left_alone(by_working_set(processes), options);
    let picked = chosen(by_working_set(processes), options);
    &&& run.well_formed()
    &&& run.options == options
    &&& run.dry_run == dry_run
    &&& run.round == 0
    &&& run.rounds_executed == 0
    &&& !run.touched
    &&& run.skipped@.len() == left.len()
    &&& forall|i: int|
        0 <= i < run.skipped@.len() ==> reports_skipped(
            #[trigger] run.skipped@[i],
            left[i],
            options,
        )
    &&& run.candidates@.len() == picked.len()
    &&& forall|i: int|
        0 <= i < run.candidates@.len() ==> stands_for(
            #[trigger] run.candidates@[i],
            picked[i],
            options,
            dry_run,
        )
    &&& run.stage == if dry_run {
        TrimStage::Finished
    } else {
        run.stage_from(0)
    }
}

/// Starts a run: sorts the processes by working set, sets aside those that are left alone,
/// and picks the first process to trim. A dry run ends here.
pub fn trim_working_sets_aggressive(
    options: AggressiveTrimOptions,
    dry_run: bool,
    processes: &Vec<ProcessInfo>,
) -> (r: TrimRun)
    ensures
        trimming_begins(r, options, dry_run, processes@),
{
    let mut keys: Vec<u128> = Vec::with_capacity(processes.len());
    let mut k: usize = 0;
    while k < processes.len()
        invariant
            k <= processes@.len(),
            keys@ == working_set_keys(processes@.take(k as int)),
        decreases processes@.len() - k,
    {
        keys.push(processes[k].working_set as u128);
        k = k + 1;
        assert(keys@ =~= working_set_keys(processes@.take(k as int)));
    }
    assert(processes@.take(k as int) =~= processes@);
    let order: Vec<usize> = order::descending_order(&keys);
    let ghost sorted = by_working_set(processes@);
    proof {
        let picked = choose|o: Seq<usize>|
            order::is_descending_order(o, working_set_keys(processes@));
        order::descending_order_unique(order@, picked, working_set_keys(processes@));
    }
    let mut skipped: Vec<TrimResult> = Vec::with_capacity(order.len());
    let mut candidates: Vec<CandidateProcess> = Vec::new();
    let mut i: usize = 0;
    while i < order.len()
        invariant
            i <= order@.len(),
            order@.len() == processes@.len(),
            sorted.len() == processes@.len(),
            order::is_descending_order(order@, working_set_keys(processes@)),
            forall|j: int|
                0 <= j < order@.len() ==> sorted[j] == processes@[(#[trigger] order@[j]) as int],
            skipped@.len() == left_alone(sorted.take(i as int), options).len(),
            forall|j: int|
                0 <= j < skipped@.len() ==> reports_skipped(
                    #[trigger] skipped@[j],
                    left_alone(sorted.take(i as int), options)[j],
                    options,
                ),
            candidates@.len() == chosen(sorted.take(i as int), options).len(),
            forall|j: int|
                0 <= j < candidates@.len() ==> stands_for(
                    #[trigger] candidates@[j],
                    chosen(sorted.take(i as int), options)[j],
                    options,
                    dry_run,
                ),
        decreases order@.len() - i,
    {
        assert(sorted.take(i + 1).drop_last() =~= sorted.take(i as int));
        let process: &ProcessInfo = &processes[order[i]];
        match skip_reason(process, &options) {
            Some(reason) => {
                skipped.push(
                    TrimResult {
                        pid: process.pid,
                        name: process.name.clone(),
                        before_working_set: process.working_set,
                        after_working_set: None,
                        status: TrimStatus::Skipped(reason),
                    },
                );
            },
            None => {
                let result: TrimResult = TrimResult {
                    pid: process.pid,
                    name: process.name.clone(),
                    before_working_set: process.working_set,
                    after_working_set: None,
                    status: if dry_run {
                        TrimStatus::WouldTrim
                    } else {
                        TrimStatus::Trimmed
                    },
                };
                candidates.push(
                    CandidateProcess {
                        pid: process.pid,
                        current_working_set: if process.working_set
                            >= options.min_working_set_bytes {
                            process.working_set
                        } else {
                            options.min_working_set_bytes
                        },
                        result,
                    },
                );
            },
        }
        i = i + 1;
    }
    assert(sorted.take(i as int) =~= sorted);
    let mut run: TrimRun = TrimRun {
        options,
        dry_run,
        skipped,
        candidates,
        round: 0,
        rounds_executed: 0,
        touched: false,
        stage: TrimStage::Finished,
    };
    if !dry_run {
        run.proceed(0);
    }
    run
}

// ---------------------------------------------------------------------------
// Laws
// ---------------------------------------------------------------------------

/// The next target lies at or after the place where the search starts.
proof fn lemma_next_target(candidates: Seq<CandidateProcess>, floor: u64, from: int)
    requires
        0 <= from <= candidates.len(),
    ensures
        from <= next_target(candidates, floor, from) <= candidates.len(),
    decreases candidates.len() - from,
{
    if from < candidates.len() && !is_target(candidates[from], floor) {
        lemma_next_target(candidates, floor, from + 1);
    }
}

impl TrimRun {
    /// How many replies the run can still take in, at most.
    pub open spec fn work_left(self) -> int {
        let count = self.candidates@.len();
        let later_rounds = (self.round_limit() - 1 - self.round) * (3 * count + 2);
        match self.stage {
            TrimStage::Emptying(i) => later_rounds + 3 * (count - i) + 1,
            TrimStage::Shrinking(i) => later_rounds + 3 * (count - i),
            TrimStage::Measuring(i) => later_rounds + 3 * (count - i) - 1,
            TrimStage::Pausing => later_rounds,
            TrimStage::Finished => 0,
        }
    }
}

/// A run ends: every reply that it expects brings it nearer to its end.
pub proof fn trimming_ends(run: TrimRun, reply: TrimReply, next: TrimRun)
    requires
        run.well_formed(),
        run.expects(reply),
        run.steps(reply, next),
    ensures
        0 <= next.work_left() < run.work_left(),
{
    let count = run.candidates.len() as int;
    assert(count == run.candidates@.len());
    let w = 3 * count + 2;
    let left = run.round_limit() - 1 - run.round;
    assert(left * w >= 0) by (nonlinear_arith)
        requires
            left >= 0,
            w >= 0,
    ;
    match run.stage {
        TrimStage::Emptying(_) => {},
        TrimStage::Shrinking(i) | TrimStage::Measuring(i) => {
            lemma_next_target(next.candidates@, next.options.min_working_set_bytes, i + 1);
        },
        TrimStage::Pausing => {
            lemma_next_target(next.candidates@, next.options.min_working_set_bytes, 0);
            assert((left - 1) * w == left * w - w) by (nonlinear_arith);
            assert((left - 1) * w >= 0) by (nonlinear_arith)
                requires
                    left >= 1,
                    w >= 0,
            ;
        },
        TrimStage::Finished => {},
    }
}

/// A dry run calls for nothing: it is over from the start, and no reply changes it.
pub proof fn dry_run_trims_nothing(run: TrimRun, reply: TrimReply, next: TrimRun)
    requires
        run.well_formed(),
        run.dry_run,
        run.steps(reply, next),
    ensures
        run.stage == TrimStage::Finished,
        next == run,
{
}

/// A run keeps to its candidates: none is added, taken away or exchanged, and what was
/// recorded before the first trim stays as it was. Only the candidate at hand changes, and
/// only as long as no trim of it has failed.
pub proof fn trimming_keeps_its_candidates(run: TrimRun, reply: TrimReply, next: TrimRun, i: int)
    requires
        run.well_formed(),
        run.steps(reply, next),
        0 <= i < run.candidates@.len(),
    ensures
        next.skipped == run.skipped,
        next.candidates@.len() == run.candidates@.len(),
        next.candidates@[i].pid == run.candidates@[i].pid,
        next.candidates@[i].result.pid == run.candidates@[i].result.pid,
        next.candidates@[i].result.name == run.candidates@[i].result.name,
        next.candidates@[i].result.before_working_set
            == run.candidates@[i].result.before_working_set,
        !(run.candidates@[i].result.status is Trimmed) ==> next.candidates@[i]
            == run.candidates@[i],
{
}

/// What is trimmed may be trimmed: with the respective options, no chosen process is a
/// system process, the process itself or the foreground process, and a process whose working
/// set is known to be below the floor is not chosen.
pub proof fn chosen_processes_are_eligible(
    processes: Seq<ProcessInfo>,
    options: AggressiveTrimOptions,
    i: int,
)
    requires
        0 <= i < chosen(processes, options).len(),
    ensures
        skip_decision(chosen(processes, options)[i], options) is None,
        processes.contains(chosen(processes, options)[i]),
        options.skip_system ==> chosen(processes, options)[i].pid > 4
            && !crate::policy::is_listed(
            crate::policy::boundary_names(),
            chosen(processes, options)[i].name@,
        ),
        options.skip_self ==> !chosen(processes, options)[i].is_self,
        options.skip_foreground ==> !chosen(processes, options)[i].is_foreground,
    decreases processes.len(),
{
    let shorter = processes.drop_last();
    if i < chosen(shorter, options).len() {
        chosen_processes_are_eligible(shorter, options, i);
        let at = choose|at: int|
            0 <= at < shorter.len() && shorter[at] == chosen(shorter, options)[i];
        assert(processes[at] == chosen(processes, options)[i]);
    } else {
        assert(processes[processes.len() - 1] == chosen(processes, options)[i]);
    }
}

/// The boundary is hard: under no policy is a system process or the process itself chosen.
pub proof fn no_policy_lifts_the_boundary(
    processes: Seq<ProcessInfo>,
    policy: ModePolicy,
    i: int,
)
    requires
        0 <= i < chosen(processes, options_of(policy)).len(),
    ensures
        chosen(processes, options_of(policy))[i].pid > 4,
        !crate::policy::is_listed(
            crate::policy::boundary_names(),
            chosen(processes, options_of(policy))[i].name@,
        ),
        !chosen(processes, options_of(policy))[i].is_self,
{
    chosen_processes_are_eligible(processes, options_of(policy), i);
}

/// Every process is accounted for exactly once: sorting loses and repeats none, and each is
/// either left alone or chosen.
pub proof fn every_process_is_accounted_for(
    processes: Seq<ProcessInfo>,
    options: AggressiveTrimOptions,
)
    requires
        processes.len() <= usize::MAX,
    ensures
        by_working_set(processes).to_multiset() == processes.to_multiset(),
        left_alone(by_working_set(processes), options).to_multiset().add(
            chosen(by_working_set(processes), options).to_multiset(),
        ) == processes.to_multiset(),
        left_alone(by_working_set(processes), options).len() + chosen(
            by_working_set(processes),
            options,
        ).len() == processes.len(),
{
    let keys = working_set_keys(processes);
    order::descending_order_exists(keys);
    let order = choose|o: Seq<usize>| order::is_descending_order(o, keys);
    order::sorting_keeps_items(processes, order, keys);
    assert(by_working_set(processes) =~= order::rearranged(processes, order));
    lemma_split(by_working_set(processes), options);
}

/// Each process is either left alone or chosen.
proof fn lemma_split(processes: Seq<ProcessInfo>, options: AggressiveTrimOptions)
    ensures
        left_alone(processes, options).to_multiset().add(chosen(processes, options).to_multiset())
            == processes.to_multiset(),
        left_alone(processes, options).len() + chosen(processes, options).len() == processes.len(),
    decreases processes.len(),
{
    broadcast use vstd::seq_lib::group_to_multiset_ensures;

    if processes.len() > 0 {
        let shorter = processes.drop_last();
        lemma_split(shorter, options);
        assert(processes =~= shorter.push(processes.last()));
        assert(left_alone(processes, options).to_multiset().add(
            chosen(processes, options).to_multiset(),
        ) =~= left_alone(shorter, options).to_multiset().add(
            chosen(shorter, options).to_multiset(),
        ).insert(processes.last()));
    } else {
        assert(left_alone(processes, options).to_multiset().add(
            chosen(processes, options).to_multiset(),
        ) =~= processes.to_multiset());
    }
}

/// An optimization trims in at least five rounds, and in more where more are asked for. It
/// pauses between rounds for as long as it is told to, if that is between a tenth and three
/// tenths of a second, and for 150 milliseconds otherwise. Nothing else is adjusted.
pub proof fn optimization_is_thorough(options: AggressiveTrimOptions)
    ensures
        ({
            let r = options.normalized();
            &&& r.rounds >= 5
            &&& r.rounds >= options.rounds
            &&& r.rounds == 5 || r.rounds == options.rounds
            &&& r.include_query_failed
            &&& options.round_delay_ms < 100 ==> r.round_delay_ms == 150
            &&& options.round_delay_ms > 300 ==> r.round_delay_ms == 150
            &&& 100 <= options.round_delay_ms && options.round_delay_ms <= 300
                ==> r.round_delay_ms == options.round_delay_ms
            &&& r.min_working_set_bytes == options.min_working_set_bytes
            &&& r.allow_trim_explorer == options.allow_trim_explorer
            &&& r.allow_trim_browser == options.allow_trim_browser
            &&& r.skip_foreground == options.skip_foreground
            &&& r.skip_system == options.skip_system
            &&& r.skip_self == options.skip_self
        }),
{
}

/// A policy is followed: its floor, given in mebibytes, becomes one in bytes, cut down to what
/// 64 bits hold; what it says of the foreground process, of browsers and of the shell is kept;
/// it has as many rounds as it asks for, if these are at least five.
pub proof fn policy_is_followed(policy: ModePolicy)
    ensures
        ({
            let r = options_of(policy);
            &&& policy.min_working_set_mb * 1048576 <= u64::MAX ==> r.min_working_set_bytes
                == policy.min_working_set_mb * 1048576
            &&& policy.min_working_set_mb * 1048576 > u64::MAX ==> r.min_working_set_bytes
                == u64::MAX
            &&& r.skip_foreground == policy.skip_foreground
            &&& r.allow_trim_explorer == policy.allow_trim_explorer
            &&& r.allow_trim_browser == policy.allow_trim_browser
            &&& policy.max_rounds >= 5 ==> r.rounds == policy.max_rounds
            &&& policy.max_rounds < 5 ==> r.rounds == 5
            &&& r.include_query_failed
            &&& 100 <= policy.round_delay_ms && policy.round_delay_ms <= 300 ==> r.round_delay_ms
                == policy.round_delay_ms
            &&& !(100 <= policy.round_delay_ms && policy.round_delay_ms <= 300)
                ==> r.round_delay_ms == 150
        }),
{
}

/// A process that nothing speaks against is trimmed, and one that something speaks against is
/// not: a protected name or number, being the process itself or the one in the foreground, a
/// failed query or a working set below the floor. A working set that could not be queried is
/// not held to be small.
pub proof fn nothing_else_spares_a_process(process: ProcessInfo, options: AggressiveTrimOptions)
    ensures
        skip_decision(process, options) is None <==> {
            &&& options.skip_system ==> process.pid > 4
            &&& options.skip_system ==> !crate::policy::is_listed(
                crate::policy::boundary_names(),
                process.name@,
            )
            &&& options.skip_self ==> !process.is_self
            &&& options.skip_foreground ==> !process.is_foreground
            &&& process.query_error is Some ==> options.include_query_failed
            &&& process.query_error is None ==> process.working_set
                >= options.min_working_set_bytes
        },
{
}

/// The reason given for leaving a process alone is true of it.
pub proof fn given_reasons_are_true(process: ProcessInfo, options: AggressiveTrimOptions)
    ensures
        skip_decision(process, options) matches Some(reason) ==> match reason {
            SkipReason::SystemBoundaryProcess => options.skip_system && crate::policy::is_listed(
                crate::policy::boundary_names(),
                process.name@,
            ),
            SkipReason::SystemProcess => options.skip_system && process.pid <= 4
                && !crate::policy::is_listed(crate::policy::boundary_names(), process.name@),
            SkipReason::SelfProcess => options.skip_self && process.is_self,
            SkipReason::ForegroundProcess => options.skip_foreground && process.is_foreground && !(
            options.skip_self && process.is_self),
            SkipReason::QueryFailed => process.query_error is Some
                && !options.include_query_failed,
            SkipReason::WorkingSetTooSmall => process.query_error is None && process.working_set
                < options.min_working_set_bytes && !(options.skip_self && process.is_self) && !(
            options.skip_foreground && process.is_foreground) && !(options.skip_system
                && process.pid <= 4),
            _ => false,
        },
        options.skip_system && crate::policy::is_listed(
            crate::policy::boundary_names(),
            process.name@,
        ) ==> skip_decision(process, options) == Some(SkipReason::SystemBoundaryProcess),
{
}

/// Where a process lies, how much it has committed and what a failed query says have no say in
/// whether it is trimmed.
pub proof fn paths_and_usage_do_not_matter(
    a: ProcessInfo,
    b: ProcessInfo,
    options: AggressiveTrimOptions,
)
    requires
        a.pid == b.pid,
        a.name@ == b.name@,
        a.working_set == b.working_set,
        a.is_foreground == b.is_foreground,
        a.is_self == b.is_self,
        a.query_error is Some == b.query_error is Some,
    ensures
        skip_decision(a, options) == skip_decision(b, options),
{
}

/// A larger working set never spares a process that a smaller one does not.
pub proof fn larger_processes_are_trimmed_sooner(
    smaller: ProcessInfo,
    larger: ProcessInfo,
    options: AggressiveTrimOptions,
)
    requires
        smaller.working_set <= larger.working_set,
        larger == (ProcessInfo { working_set: larger.working_set, ..smaller }),
        skip_decision(smaller, options) is None,
    ensures
        skip_decision(larger, options) is None,
{
}

/// What a failed trim leaves behind: a denied access and a process that is gone count as
/// reasons to skip it, and so does a process that could not be opened; anything else is a
/// failure that is told in full.
pub proof fn failed_trims_are_told(status: TrimStatus, error: WinApiError)
    requires
        is_failure_status(status, error),
    ensures
        error.code == 5 <==> status == TrimStatus::Skipped(SkipReason::AccessDenied),
        error.code == 18 || error.code == 87 || error.code == 1168 <==> status
            == TrimStatus::Skipped(SkipReason::ProcessExited),
        status == TrimStatus::Skipped(SkipReason::OpenProcessFailed) <==> {
            &&& text::occurs_at(error.context@, "OpenProcess"@, 0)
            &&& error.code != 5
            &&& error.code != 18
            &&& error.code != 87
            &&& error.code != 1168
        },
        status matches TrimStatus::Failed(message) ==> message@ == error.context@
            + " failed with Windows error "@ + text::decimal(error.code as nat) + " ("@
            + error.message@ + ")"@,
        !(status is Trimmed),
        !(status is WouldTrim),
{
}

/// The largest working sets come first.
pub proof fn largest_come_first(processes: Seq<ProcessInfo>, i: int, j: int)
    requires
        processes.len() <= usize::MAX,
        0 <= i < j < processes.len(),
    ensures
        by_working_set(processes).len() == processes.len(),
        by_working_set(processes)[i].working_set >= by_working_set(processes)[j].working_set,
        exists|a: int, b: int|
            0 <= a < processes.len() && 0 <= b < processes.len() && a != b && #[trigger] processes[a]
                == by_working_set(processes)[i] && #[trigger] processes[b] == by_working_set(
                processes,
            )[j] && (processes[a].working_set == processes[b].working_set ==> a < b),
{
    let keys = working_set_keys(processes);
    order::descending_order_exists(keys);
    let order = choose|o: Seq<usize>| order::is_descending_order(o, keys);
    let a = order[i] as int;
    let b = order[j] as int;
    assert(order::comes_first(keys, a, b));
    assert(processes[a] == by_working_set(processes)[i]);
    assert(processes[b] == by_working_set(processes)[j]);
}

/// What a run starts from: each process to be trimmed is recorded with its number, its name
/// and its working set, with nothing measured yet, and it is due for its first trim whatever
/// its working set. A dry run says of it that it would be trimmed.
pub proof fn candidates_are_due(
    run: TrimRun,
    options: AggressiveTrimOptions,
    dry_run: bool,
    processes: Seq<ProcessInfo>,
    i: int,
)
    requires
        trimming_begins(run, options, dry_run, processes),
        0 <= i < run.candidates@.len(),
    ensures
        ({
            let candidate = run.candidates@[i];
            let process = chosen(by_working_set(processes), options)[i];
            &&& candidate.pid == process.pid
            &&& candidate.result.pid == process.pid
            &&& candidate.result.name@ == process.name@
            &&& candidate.result.before_working_set == process.working_set
            &&& candidate.result.after_working_set is None
            &&& candidate.current_working_set >= process.working_set
            &&& candidate.current_working_set >= options.min_working_set_bytes
            &&& candidate.current_working_set == process.working_set
                || candidate.current_working_set == options.min_working_set_bytes
            &&& dry_run <==> candidate.result.status == TrimStatus::WouldTrim
            &&& !dry_run <==> candidate.result.status == TrimStatus::Trimmed
        }),
        !dry_run ==> run.needs() == TrimAction::EmptyWorkingSet(run.candidates@[0].pid),
        dry_run ==> run.needs() == TrimAction::Done,
{
    assert(stands_for(
        run.candidates@[i],
        chosen(by_working_set(processes), options)[i],
        options,
        dry_run,
    ));
    assert(stands_for(
        run.candidates@[0],
        chosen(by_working_set(processes), options)[0],
        options,
        dry_run,
    ));
}

/// Each process that is left alone is recorded with its number, its name, its working set and
/// the reason.
pub proof fn processes_left_alone_are_recorded(
    run: TrimRun,
    options: AggressiveTrimOptions,
    dry_run: bool,
    processes: Seq<ProcessInfo>,
    i: int,
)
    requires
        trimming_begins(run, options, dry_run, processes),
        0 <= i < run.skipped@.len(),
    ensures
        ({
            let result = run.skipped@[i];
            let process = left_alone(by_working_set(processes), options)[i];
            &&& result.pid == process.pid
            &&& result.name@ == process.name@
            &&& result.before_working_set == process.working_set
            &&& result.after_working_set is None
            &&& result.status matches TrimStatus::Skipped(reason)
            &&& skip_decision(process, options) == Some(reason)
        }),
        run.skipped@.len() == left_alone(by_working_set(processes), options).len(),
{
    assert(reports_skipped(
        run.skipped@[i],
        left_alone(by_working_set(processes), options)[i],
        options,
    ));
}

/// The last measurement counts: whatever was recorded before, the working set just measured is
/// what a process is recorded to have shrunk to, and what decides whether it is trimmed again.
/// A measurement that failed changes neither.
pub proof fn last_measurement_counts(run: TrimRun, working_set: Option<u64>, next: TrimRun, i: usize)
    requires
        run.well_formed(),
        run.stage == TrimStage::Measuring(i),
        i < run.candidates@.len(),
        run.steps(TrimReply::Measured(working_set), next),
    ensures
        working_set matches Some(after) ==> {
            &&& next.candidates@[i as int].result.after_working_set == Some(after)
            &&& next.candidates@[i as int].current_working_set == after
        },
        working_set is None ==> next.candidates@[i as int] == run.candidates@[i as int],
        next.candidates@[i as int].result.status == run.candidates@[i as int].result.status,
        next.candidates@[i as int].result.before_working_set
            == run.candidates@[i as int].result.before_working_set,
{
}

impl TrimRun {
    /// Whether every candidate that was measured is recorded with its current working set.
    pub open spec fn is_up_to_date(self) -> bool {
        forall|i: int|
            0 <= i < self.candidates@.len() ==> ((
            #[trigger] self.candidates@[i]).result.after_working_set matches Some(after) ==> after
                == self.candidates@[i].current_working_set)
    }
}

/// Records stay up to date: they are at the start, and every reply keeps them so.
pub proof fn records_stay_up_to_date(run: TrimRun, reply: TrimReply, next: TrimRun)
    requires
        run.well_formed(),
        run.is_up_to_date(),
        run.steps(reply, next),
    ensures
        next.is_up_to_date(),
{
}

/// At the start nothing was measured.
pub proof fn records_start_up_to_date(
    run: TrimRun,
    options: AggressiveTrimOptions,
    dry_run: bool,
    processes: Seq<ProcessInfo>,
)
    requires
        trimming_begins(run, options, dry_run, processes),
    ensures
        run.is_up_to_date(),
{
    assert forall|i: int| 0 <= i < run.candidates@.len() implies (
    #[trigger] run.candidates@[i]).result.after_working_set is None by {
        assert(stands_for(
            run.candidates@[i],
            chosen(by_working_set(processes), options)[i],
            options,
            dry_run,
        ));
    }
}

/// How one process is trimmed: its working set is emptied; where that fails its limits are
/// shrunk instead; after either has succeeded it is measured.
pub proof fn one_trim_after_another(run: TrimRun, reply: TrimReply, next: TrimRun, pid: u32)
    requires
        run.well_formed(),
        run.steps(reply, next),
    ensures
        run.needs() == TrimAction::EmptyWorkingSet(pid) && (reply matches TrimReply::Called(Ok(_)))
            ==> next.needs() == TrimAction::QueryWorkingSet(pid),
        run.needs() == TrimAction::EmptyWorkingSet(pid) && (reply matches TrimReply::Called(Err(_)))
            ==> next.needs() == TrimAction::ShrinkWorkingSet(pid),
        run.needs() == TrimAction::ShrinkWorkingSet(pid) && (reply matches TrimReply::Called(Ok(_)))
            ==> next.needs() == TrimAction::QueryWorkingSet(pid),
        run.needs() == TrimAction::EmptyWorkingSet(pid) ==> next.candidates == run.candidates,
        run.needs() == TrimAction::EmptyWorkingSet(pid) && reply is Called ==> next.touched,
        run.needs() == TrimAction::Done ==> next == run,
        next.options == run.options,
        next.skipped == run.skipped,
{
}

/// A trim that failed both ways marks the process in the first round, so that it is not tried
/// again; in a later round it leaves the process as it was.
pub proof fn first_failure_is_final(run: TrimRun, error: WinApiError, next: TrimRun, i: usize)
    requires
        run.well_formed(),
        run.stage == TrimStage::Shrinking(i),
        i < run.candidates@.len(),
        run.steps(TrimReply::Called(Err(error)), next),
    ensures
        run.round == 0 ==> is_failure_status(next.candidates@[i as int].result.status, error),
        run.round > 0 ==> next.candidates@[i as int] == run.candidates@[i as int],
        next.candidates@[i as int].current_working_set == run.candidates@[i as int].current_working_set,
        next.candidates@[i as int].result.after_working_set
            == run.candidates@[i as int].result.after_working_set,
{
}

/// The search for the next target passes over none.
proof fn lemma_none_passed_over(candidates: Seq<CandidateProcess>, floor: u64, from: int)
    requires
        0 <= from <= candidates.len(),
    ensures
        from <= next_target(candidates, floor, from) <= candidates.len(),
        forall|j: int|
            from <= j < next_target(candidates, floor, from) ==> !((
            #[trigger] candidates[j]).result.status is Trimmed && candidates[j].current_working_set
                >= floor),
        next_target(candidates, floor, from) < candidates.len() ==> {
            let target = candidates[next_target(candidates, floor, from)];
            target.result.status is Trimmed && target.current_working_set >= floor
        },
    decreases candidates.len() - from,
{
    if from < candidates.len() && !is_target(candidates[from], floor) {
        lemma_none_passed_over(candidates, floor, from + 1);
    }
}

/// No process is passed over: once one has had its turn, the next in line is the first of the
/// later ones that no trim has failed for and whose working set is not below the floor. Where
/// there is none the round is over.
pub proof fn none_is_passed_over(run: TrimRun, reply: TrimReply, next: TrimRun, i: usize)
    requires
        run.well_formed(),
        i < run.candidates@.len(),
        run.expects(reply),
        run.steps(reply, next),
        run.stage == TrimStage::Measuring(i) || (run.stage == TrimStage::Shrinking(i) && reply matches TrimReply::Called(Err(_))),
    ensures
        match next.stage {
            TrimStage::Emptying(k) => {
                &&& i < k < next.candidates@.len()
                &&& next.candidates@[k as int].result.status is Trimmed
                &&& next.candidates@[k as int].current_working_set
                    >= run.options.min_working_set_bytes
                &&& forall|j: int|
                    i < j < k ==> !((#[trigger] next.candidates@[j]).result.status is Trimmed
                        && next.candidates@[j].current_working_set
                        >= run.options.min_working_set_bytes)
                &&& next.rounds_executed == run.rounds_executed
            },
            TrimStage::Pausing | TrimStage::Finished => {
                &&& forall|j: int|
                    i < j < next.candidates@.len() ==> !((
                    #[trigger] next.candidates@[j]).result.status is Trimmed
                        && next.candidates@[j].current_working_set
                        >= run.options.min_working_set_bytes)
                &&& run.touched ==> next.rounds_executed == run.round + 1
            },
            _ => false,
        },
        next.round == run.round,
{
    assert(next.candidates.len() == next.candidates@.len());
    lemma_none_passed_over(next.candidates@, next.options.min_working_set_bytes, i + 1);
}

/// Another round follows a round in which a trim was tried, as long as rounds are left; the
/// pause before it is the one asked for. The next round begins with the first process that is
/// still due, and none is tried where none is.
pub proof fn rounds_follow_each_other(run: TrimRun, reply: TrimReply, next: TrimRun)
    requires
        run.well_formed(),
        run.expects(reply),
        run.steps(reply, next),
    ensures
        next.stage == TrimStage::Pausing ==> {
            &&& next.touched
            &&& next.round + 1 < run.options.rounds
            &&& next.needs() == TrimAction::Pause(run.options.round_delay_ms)
        },
        next.stage == TrimStage::Finished && next.touched ==> next.round + 1 >= run.options.rounds,
        run.stage == TrimStage::Pausing ==> {
            &&& next.round == run.round + 1
            &&& next.candidates == run.candidates
            &&& next.rounds_executed == run.rounds_executed
            &&& !next.touched
            &&& match next.stage {
                TrimStage::Emptying(k) => {
                    &&& k < next.candidates@.len()
                    &&& next.candidates@[k as int].current_working_set
                        >= run.options.min_working_set_bytes
                    &&& next.candidates@[k as int].result.status is Trimmed
                    &&& forall|j: int|
                        0 <= j < k ==> !((#[trigger] next.candidates@[j]).result.status is Trimmed
                            && next.candidates@[j].current_working_set
                            >= run.options.min_working_set_bytes)
                },
                TrimStage::Finished => forall|j: int|
                    0 <= j < next.candidates@.len() ==> !((
                    #[trigger] next.candidates@[j]).result.status is Trimmed
                        && next.candidates@[j].current_working_set
                        >= run.options.min_working_set_bytes),
                _ => false,
            }
        },
{
    assert(next.candidates.len() == next.candidates@.len());
    lemma_none_passed_over(next.candidates@, next.options.min_working_set_bytes, 0);
}

/// The sum of what the candidates shrank by grows with each trimmed and measured one by the
/// difference of its working sets; one that grew, failed or was not measured adds nothing.
pub proof fn reductions_add_up(candidates: Seq<CandidateProcess>, candidate: CandidateProcess)
    ensures
        ({
            let result = candidate.result;
            let more = total_reduction(candidates.push(candidate)) - total_reduction(candidates);
            &&& result.status is Trimmed && result.after_working_set is Some
                && result.after_working_set->0 <= result.before_working_set ==> more
                == result.before_working_set - result.after_working_set->0
            &&& !(result.status is Trimmed) ==> more == 0
            &&& result.after_working_set is None ==> more == 0
            &&& result.after_working_set is Some && result.after_working_set->0
                >= result.before_working_set ==> more == 0
        }),
        total_reduction(Seq::empty()) == 0,
{
    assert(candidates.push(candidate).drop_last() =~= candidates);
}

/// The report of a run lists the processes left alone and, behind them, the candidates, each
/// once; it claims what they shrank by together, and nothing for a dry run. A dry run shows
/// the rounds that there would be; a run that found a candidate counts at least one.
pub proof fn report_lists_everything(run: TrimRun, report: AggressiveTrimReport, i: int)
    requires
        run.is_summed_up(report),
    ensures
        report.results@.len() == run.skipped@.len() + run.candidates@.len(),
        0 <= i < run.skipped@.len() ==> report.results@[i] == run.skipped@[i],
        0 <= i < run.candidates@.len() ==> report.results@[run.skipped@.len() + i]
            == run.candidates@[i].result,
        run.dry_run ==> report.process_trim_delta_bytes == 0,
        !run.dry_run && total_reduction(run.candidates@) <= u64::MAX
            ==> report.process_trim_delta_bytes == total_reduction(run.candidates@),
        run.dry_run && run.options.rounds >= 1 ==> report.rounds_executed == run.options.rounds,
        !run.dry_run && run.rounds_executed >= 1 ==> report.rounds_executed
            == run.rounds_executed,
        !run.dry_run && run.candidates@.len() > 0 ==> report.rounds_executed >= 1,
        !run.dry_run && run.candidates@.len() == 0 ==> report.rounds_executed
            == run.rounds_executed,
{
}

/// Picking processes keeps their order: what is picked earlier stood earlier.
pub proof fn picking_keeps_order(
    processes: Seq<ProcessInfo>,
    options: AggressiveTrimOptions,
    i: int,
    j: int,
) -> (at: (int, int))
    requires
        0 <= i < j < chosen(processes, options).len(),
    ensures
        0 <= at.0 < at.1 < processes.len(),
        processes[at.0] == chosen(processes, options)[i],
        processes[at.1] == chosen(processes, options)[j],
    decreases processes.len(),
{
    let shorter = processes.drop_last();
    if j < chosen(shorter, options).len() {
        picking_keeps_order(shorter, options, i, j)
    } else {
        chosen_processes_are_eligible(shorter, options, i);
        let at = choose|at: int|
            0 <= at < shorter.len() && shorter[at] == chosen(shorter, options)[i];
        (at, processes.len() - 1)
    }
}

/// Processes are trimmed by descending working set.
pub proof fn larger_are_trimmed_before_smaller(
    run: TrimRun,
    options: AggressiveTrimOptions,
    dry_run: bool,
    processes: Seq<ProcessInfo>,
    i: int,
    j: int,
)
    requires
        processes.len() <= usize::MAX,
        trimming_begins(run, options, dry_run, processes),
        0 <= i < j < run.candidates@.len(),
    ensures
        run.candidates@[i].result.before_working_set >= run.candidates@[j].result.before_working_set,
{
    let sorted = by_working_set(processes);
    let keys = working_set_keys(processes);
    order::descending_order_exists(keys);
    let at = picking_keeps_order(sorted, options, i, j);
    largest_come_first(processes, at.0, at.1);
    assert(stands_for(run.candidates@[i], chosen(sorted, options)[i], options, dry_run));
    assert(stands_for(run.candidates@[j], chosen(sorted, options)[j], options, dry_run));
}

/// Every call is made for the candidate whose turn it is.
pub proof fn calls_are_for_the_candidate_at_hand(run: TrimRun, i: usize)
    requires
        run.well_formed(),
    ensures
        run.stage == TrimStage::Emptying(i) ==> run.needs() == TrimAction::EmptyWorkingSet(
            run.candidates@[i as int].pid,
        ),
        run.stage == TrimStage::Shrinking(i) ==> run.needs() == TrimAction::ShrinkWorkingSet(
            run.candidates@[i as int].pid,
        ),
        run.stage == TrimStage::Measuring(i) ==> run.needs() == TrimAction::QueryWorkingSet(
            run.candidates@[i as int].pid,
        ),
        run.stage == TrimStage::Pausing ==> run.needs() == TrimAction::Pause(
            run.options.round_delay_ms,
        ),
        run.stage == TrimStage::Finished <==> run.needs() == TrimAction::Done,
        run.stage == TrimStage::Emptying(i) || run.stage == TrimStage::Shrinking(i) || run.stage
            == TrimStage::Measuring(i) ==> {
            &&& run.candidates@[i as int].result.status is Trimmed
            &&& run.candidates@[i as int].current_working_set
                >= run.options.min_working_set_bytes
        },
{
}

/// What a run is to do stays as it was asked for, and what was left alone at the start stays
/// recorded as that.
pub proof fn runs_keep_their_task(run: TrimRun, reply: TrimReply, next: TrimRun)
    requires
        run.well_formed(),
        run.steps(reply, next),
    ensures
        next.options == run.options,
        next.dry_run == run.dry_run,
        next.skipped == run.skipped,
        next.candidates@.len() == run.candidates@.len(),
{
}

} // verus!
