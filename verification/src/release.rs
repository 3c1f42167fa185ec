//! Releasing memory that the system holds: purging its memory lists in rounds and, where that
//! is not enough, closing processes.
//!
//! The runs decide which step comes next and when to stop; the calls themselves are made by
//! whoever drives them.

use crate::error::MemSparkError;
use crate::memory::{byte_difference, MemorySnapshot, TARGET_MEMORY_LOAD_PERCENT};
use crate::termination;
use crate::termination::{
    run_targeted_process_release, ProcessReleaseReport, ProcessReleaseRun, ReleaseAction,
    ReleaseReply, ReleaseStage,
};
use crate::winapi::{MemoryListCommand, WinApiError};
use vstd::prelude::*;

verus! {

/// How many rounds the first release has at most.
pub const SYSTEM_ROUNDS: u32 = 12;

/// How many rounds a release after closing processes has at most.
pub const SWEEP_ROUNDS: u32 = 6;

/// How often processes are closed at most.
pub const TERMINATION_SWEEPS: u32 = 8;

/// A round that frees less than this, in bytes, has gained nothing.
pub const MIN_MEANINGFUL_AVAILABLE_GAIN_BYTES: u64 = 67_108_864;

/// What a release reports.
#[derive(Debug)]
pub struct SystemReleaseReport {
    pub dry_run: bool,
    pub duration_ms: u64,
    pub before: MemorySnapshot,
    pub after: MemorySnapshot,
    pub steps: Vec<SystemReleaseStepResult>,
    pub failed_count: usize,
    pub target_memory_load_percent: u32,
    pub target_reached: bool,
    pub termination_matched_count: usize,
    pub termination_graceful_closed_count: usize,
    pub termination_force_killed_count: usize,
    pub termination_failed_count: usize,
}

/// A step and how it ended.
#[derive(Debug)]
pub struct SystemReleaseStepResult {
    pub step: SystemReleaseStep,
    pub status: SystemReleaseStepStatus,
}

/// A step of a release.
#[derive(Debug, Clone, Copy, PartialEq, Eq, Structural)]
pub enum SystemReleaseStep {
    EnableDebugPrivilege,
    EnableIncreaseQuotaPrivilege,
    EnableProfilePrivilege,
    EmptySystemWorkingSets,
    FlushModifiedPageList,
    PurgeLowPriorityStandbyList,
    PurgeStandbyList,
}

/// How a step ended.
#[derive(Debug)]
pub enum SystemReleaseStepStatus {
    WouldRun,
    Succeeded,
    Failed(String),
}

impl SystemReleaseReport {
    /// By how much the available memory has grown, in bytes.
    pub fn available_increase(&self) -> (r: i64)
        ensures
            r == crate::memory::signed_difference(
                self.after.available_physical,
                self.before.available_physical,
            ),
    {
        byte_difference(self.after.available_physical, self.before.available_physical)
    }
}

// ---------------------------------------------------------------------------
// Steps
// ---------------------------------------------------------------------------

impl SystemReleaseStep {
    /// The memory-list command of a step; enabling a privilege is none.
    pub open spec fn command(self) -> Option<MemoryListCommand> {
        match self {
            SystemReleaseStep::EmptySystemWorkingSets => Some(MemoryListCommand::EmptyWorkingSets),
            SystemReleaseStep::FlushModifiedPageList => Some(MemoryListCommand::FlushModifiedList),
            SystemReleaseStep::PurgeLowPriorityStandbyList => Some(
                MemoryListCommand::PurgeLowPriorityStandbyList,
            ),
            SystemReleaseStep::PurgeStandbyList => Some(MemoryListCommand::PurgeStandbyList),
            _ => None,
        }
    }

    /// Gives the memory-list command of a step.
    pub fn memory_list_command(self) -> (r: Option<MemoryListCommand>)
        ensures
            r == self.command(),
    {
        match self {
            SystemReleaseStep::EmptySystemWorkingSets => Some(MemoryListCommand::EmptyWorkingSets),
            SystemReleaseStep::FlushModifiedPageList => Some(MemoryListCommand::FlushModifiedList),
            SystemReleaseStep::PurgeLowPriorityStandbyList => Some(
                MemoryListCommand::PurgeLowPriorityStandbyList,
            ),
            SystemReleaseStep::PurgeStandbyList => Some(MemoryListCommand::PurgeStandbyList),
            _ => None,
        }
    }
}

/// The privileges that a release asks for, in order.
pub open spec fn privilege_steps() -> Seq<SystemReleaseStep> {
    seq![
        SystemReleaseStep::EnableDebugPrivilege,
        SystemReleaseStep::EnableIncreaseQuotaPrivilege,
        SystemReleaseStep::EnableProfilePrivilege,
    ]
}

/// Gives the privilege with the given number.
pub fn privilege_step(index: usize) -> (r: SystemReleaseStep)
    requires
        index < 3,
    ensures
        r == privilege_steps()[index as int],
{
    if index == 0 {
        SystemReleaseStep::EnableDebugPrivilege
    } else if index == 1 {
        SystemReleaseStep::EnableIncreaseQuotaPrivilege
    } else {
        SystemReleaseStep::EnableProfilePrivilege
    }
}

/// The steps of a round. The further the load lies above the target, the more the round does;
/// even and odd rounds differ.
pub open spec fn plan(load: u32, target: u32, round: u32) -> Seq<SystemReleaseStep> {
    let even = round % 2 == 0;
    if load >= target + 35 {
        if even {
            seq![
                SystemReleaseStep::PurgeStandbyList,
                SystemReleaseStep::EmptySystemWorkingSets,
                SystemReleaseStep::FlushModifiedPageList,
                SystemReleaseStep::PurgeLowPriorityStandbyList,
            ]
        } else {
            seq![
                SystemReleaseStep::EmptySystemWorkingSets,
                SystemReleaseStep::PurgeStandbyList,
                SystemReleaseStep::PurgeLowPriorityStandbyList,
                SystemReleaseStep::FlushModifiedPageList,
            ]
        }
    } else if load >= target + 15 {
        if even {
            seq![
                SystemReleaseStep::PurgeLowPriorityStandbyList,
                SystemReleaseStep::EmptySystemWorkingSets,
                SystemReleaseStep::FlushModifiedPageList,
            ]
        } else {
            seq![
                SystemReleaseStep::EmptySystemWorkingSets,
                SystemReleaseStep::PurgeStandbyList,
            ]
        }
    } else if even {
        seq![
            SystemReleaseStep::PurgeLowPriorityStandbyList,
            SystemReleaseStep::EmptySystemWorkingSets,
        ]
    } else {
        seq![
            SystemReleaseStep::FlushModifiedPageList,
            SystemReleaseStep::PurgeLowPriorityStandbyList,
        ]
    }
}

/// Plans a round.
pub fn release_plan(
    memory_load_percent: u32,
    target_memory_load_percent: u32,
    round: u32,
) -> (r: Vec<SystemReleaseStep>)
    ensures
        r@ == plan(memory_load_percent, target_memory_load_percent, round),
{
    let pressure: u32 = memory_load_percent.saturating_sub(target_memory_load_percent);
    if pressure >= 35 {
        if round % 2 == 0 {
            vec![
                SystemReleaseStep::PurgeStandbyList,
                SystemReleaseStep::EmptySystemWorkingSets,
                SystemReleaseStep::FlushModifiedPageList,
                SystemReleaseStep::PurgeLowPriorityStandbyList,
            ]
        } else {
            vec![
                SystemReleaseStep::EmptySystemWorkingSets,
                SystemReleaseStep::PurgeStandbyList,
                SystemReleaseStep::PurgeLowPriorityStandbyList,
                SystemReleaseStep::FlushModifiedPageList,
            ]
        }
    } else if pressure >= 15 {
        if round % 2 == 0 {
            vec![
                SystemReleaseStep::PurgeLowPriorityStandbyList,
                SystemReleaseStep::EmptySystemWorkingSets,
                SystemReleaseStep::FlushModifiedPageList,
            ]
        } else {
            vec![
                SystemReleaseStep::EmptySystemWorkingSets,
                SystemReleaseStep::PurgeStandbyList,
            ]
        }
    } else if round % 2 == 0 {
        vec![
            SystemReleaseStep::PurgeLowPriorityStandbyList,
            SystemReleaseStep::EmptySystemWorkingSets,
        ]
    } else {
        vec![
            SystemReleaseStep::FlushModifiedPageList,
            SystemReleaseStep::PurgeLowPriorityStandbyList,
        ]
    }
}

/// The pause after a step, in milliseconds: later rounds pause longer.
pub open spec fn step_delay(step: SystemReleaseStep, round: u32) -> int {
    let base: int = match step {
        SystemReleaseStep::EmptySystemWorkingSets => 110,
        SystemReleaseStep::FlushModifiedPageList => 160,
        SystemReleaseStep::PurgeLowPriorityStandbyList => 120,
        SystemReleaseStep::PurgeStandbyList => 190,
        _ => 0,
    };
    base + 25 * if round <= 4 {
        round as int
    } else {
        4
    }
}

/// Gives the pause after a step, in milliseconds.
pub fn release_step_delay_ms(step: SystemReleaseStep, round: u32) -> (r: u64)
    ensures
        r == step_delay(step, round),
{
    let base: u64 = match step {
        SystemReleaseStep::EmptySystemWorkingSets => 110,
        SystemReleaseStep::FlushModifiedPageList => 160,
        SystemReleaseStep::PurgeLowPriorityStandbyList => 120,
        SystemReleaseStep::PurgeStandbyList => 190,
        _ => 0,
    };
    let growing: u64 = if round <= 4 {
        round as u64
    } else {
        4
    };
    base + growing * 25
}

/// Whether `status` says how a call ended.
pub open spec fn is_outcome(status: SystemReleaseStepStatus, result: Result<(), WinApiError>) -> bool {
    match result {
        Ok(_) => status == SystemReleaseStepStatus::Succeeded,
        Err(error) => status matches SystemReleaseStepStatus::Failed(message) && message@
            == error.described(),
    }
}

/// Records how a step ended, and tells whether it succeeded.
pub fn run_step(
    steps: &mut Vec<SystemReleaseStepResult>,
    step: SystemReleaseStep,
    result: Result<(), WinApiError>,
) -> (r: bool)
    ensures
        r == (result is Ok),
        final(steps)@.len() == old(steps)@.len() + 1,
        final(steps)@.drop_last() == old(steps)@,
        final(steps)@.last().step == step,
        is_outcome(final(steps)@.last().status, result),
{
    let (status, succeeded): (SystemReleaseStepStatus, bool) = match result {
        Ok(_) => (SystemReleaseStepStatus::Succeeded, true),
        Err(error) => (SystemReleaseStepStatus::Failed(error.to_text()), false),
    };
    steps.push(SystemReleaseStepResult { step, status });
    assert(steps@.drop_last() =~= old(steps)@);
    succeeded
}

/// The results of a preview: nothing is run.
pub open spec fn previewed(steps: Seq<SystemReleaseStep>) -> Seq<SystemReleaseStepResult> {
    steps.map_values(
        |step: SystemReleaseStep|
            SystemReleaseStepResult { step, status: SystemReleaseStepStatus::WouldRun },
    )
}

/// How many steps failed.
pub open spec fn failures(steps: Seq<SystemReleaseStepResult>) -> nat
    decreases steps.len(),
{
    if steps.len() == 0 {
        0
    } else {
        failures(steps.drop_last()) + if steps.last().status is Failed {
            1nat
        } else {
            0nat
        }
    }
}

/// Counts the steps that failed.
pub fn count_failures(steps: &Vec<SystemReleaseStepResult>) -> (r: usize)
    ensures
        r == failures(steps@),
{
    let mut count: usize = 0;
    let mut i: usize = 0;
    while i < steps.len()
        invariant
            i <= steps@.len(),
            count <= i,
            count == failures(steps@.take(i as int)),
        decreases steps@.len() - i,
    {
        assert(steps@.take(i + 1).drop_last() =~= steps@.take(i as int));
        if matches!(&steps[i].status, SystemReleaseStepStatus::Failed(_)) {
            count = count + 1;
        }
        i = i + 1;
    }
    assert(steps@.take(i as int) =~= steps@);
    count
}

// ---------------------------------------------------------------------------
// One release
// ---------------------------------------------------------------------------

/// Where a release stands.
#[derive(Debug, Clone, Copy, PartialEq, Eq, Structural)]
pub enum SystemReleaseStage {
    /// The privilege with this number is being enabled.
    Enabling(usize),
    /// The step at the current position is being run.
    Running,
    /// The step has been run and may still take effect.
    Settling,
    /// The effect of the step is being measured.
    Measuring,
    /// The rounds are over; the outcome is being measured.
    Concluding,
    /// The release is over.
    Finished,
}

/// What a release needs next.
#[derive(Debug, Clone, Copy, PartialEq, Eq, Structural)]
pub enum SystemReleaseAction {
    EnablePrivilege(SystemReleaseStep),
    SetMemoryList(MemoryListCommand),
    Pause(u64),
    ReadMemory,
    Done,
}

/// The reply to what a release needed.
#[derive(Debug)]
pub enum SystemReleaseReply {
    /// How a call ended.
    Called(Result<(), WinApiError>),
    /// The pause is over.
    Rested,
    /// The memory, if it could be read.
    Memory(Option<MemorySnapshot>),
}

/// A release of memory that the system holds.
#[derive(Debug)]
pub struct SystemReleaseRun {
    pub dry_run: bool,
    pub target_memory_load_percent: u32,
    pub rounds: u32,
    pub before: MemorySnapshot,
    pub after: MemorySnapshot,
    pub steps: Vec<SystemReleaseStepResult>,
    pub any_privilege: bool,
    pub round: u32,
    pub plan: Vec<SystemReleaseStep>,
    pub position: usize,
    pub round_before_available: u64,
    pub round_succeeded: bool,
    pub stagnant_rounds: u32,
    pub stage: SystemReleaseStage,
}

impl SystemReleaseRun {
    /// Whether a step is at hand.
    pub open spec fn in_round(self) -> bool {
        match self.stage {
            SystemReleaseStage::Running => true,
            SystemReleaseStage::Settling => true,
            SystemReleaseStage::Measuring => true,
            _ => false,
        }
    }

    /// Whether the memory last read meets the target.
    pub open spec fn at_target(self) -> bool {
        self.after.memory_load_percent <= self.target_memory_load_percent
    }

    /// Whether the release's parts fit together.
    pub open spec fn well_formed(self) -> bool {
        &&& self.rounds >= 1
        &&& self.dry_run ==> self.stage == SystemReleaseStage::Finished
        &&& self.stage matches SystemReleaseStage::Enabling(k) ==> {
            &&& k < 3
            &&& self.steps@.len() == k
        }
        &&& self.in_round() ==> {
            &&& self.round < self.rounds
            &&& self.stagnant_rounds < 2
            &&& self.position < self.plan@.len() <= 4
            &&& forall|i: int|
                0 <= i < self.plan@.len() ==> (#[trigger] self.plan@[i]).command() is Some
            &&& self.round > 0 || self.position > 0 ==> !self.at_target()
            &&& self.steps@.len() <= 3 + 4 * self.round + self.position + if self.stage
                == SystemReleaseStage::Running {
                0int
            } else {
                1int
            }
        }
        &&& self.steps@.len() <= 3 + 4 * self.rounds
    }

    /// Whether `next` has the same task as this release.
    pub open spec fn same_task(self, next: SystemReleaseRun) -> bool {
        &&& next.dry_run == self.dry_run
        &&& next.target_memory_load_percent == self.target_memory_load_percent
        &&& next.rounds == self.rounds
        &&& next.before == self.before
    }

    /// Whether `next` is this release at the begin of a round.
    pub open spec fn begins_round(self, next: SystemReleaseRun, round: int, stagnant: int) -> bool {
        &&& self.same_task(next)
        &&& next.after == self.after
        &&& next.steps == self.steps
        &&& next.any_privilege == self.any_privilege
        &&& next.round == round
        &&& next.plan@ == plan(
            self.after.memory_load_percent,
            self.target_memory_load_percent,
            round as u32,
        )
        &&& next.position == 0
        &&& next.round_before_available == self.after.available_physical
        &&& !next.round_succeeded
        &&& next.stagnant_rounds == stagnant
        &&& next.stage == SystemReleaseStage::Running
    }

    /// How many rounds in a row have gained nothing, with the current one.
    pub open spec fn stagnation(self) -> int {
        if self.after.available_physical - self.round_before_available
            < MIN_MEANINGFUL_AVAILABLE_GAIN_BYTES {
            self.stagnant_rounds + 1
        } else {
            0
        }
    }

    /// Whether the release stops after the current round: the target is met, every step of
    /// the round failed, two rounds in a row have gained nothing, or it was the last round.
    pub open spec fn stops(self) -> bool {
        self.at_target() || !self.round_succeeded || self.stagnation() >= 2 || self.round + 1
            >= self.rounds
    }

    /// Whether `next` is this release after the current round.
    pub open spec fn ends_round(self, next: SystemReleaseRun) -> bool {
        if self.stops() {
            &&& self.same_task(next)
            &&& next.after == self.after
            &&& next.steps == self.steps
            &&& next.stage == SystemReleaseStage::Concluding
        } else {
            self.begins_round(next, self.round + 1, self.stagnation())
        }
    }

    /// Whether `next` is this release with one more recorded step.
    pub open spec fn records(
        self,
        next: SystemReleaseRun,
        step: SystemReleaseStep,
        result: Result<(), WinApiError>,
    ) -> bool {
        &&& next.steps@.len() == self.steps@.len() + 1
        &&& next.steps@.drop_last() == self.steps@
        &&& next.steps@.last().step == step
        &&& is_outcome(next.steps@.last().status, result)
    }

    /// This release with what was measured.
    pub open spec fn with_memory(self, memory: Option<MemorySnapshot>) -> SystemReleaseRun {
        SystemReleaseRun {
            after: match memory {
                Some(snapshot) => snapshot,
                None => self.after,
            },
            ..self
        }
    }

    /// Whether `reply` answers what the release needs next.
    pub open spec fn expects(self, reply: SystemReleaseReply) -> bool {
        match self.stage {
            SystemReleaseStage::Enabling(_) => reply is Called,
            SystemReleaseStage::Running => reply is Called,
            SystemReleaseStage::Settling => reply is Rested,
            SystemReleaseStage::Measuring => reply is Memory,
            SystemReleaseStage::Concluding => reply is Memory,
            SystemReleaseStage::Finished => false,
        }
    }

    /// Whether `next` is this release after `reply`. A reply that answers nothing changes
    /// nothing.
    pub open spec fn steps_to(self, reply: SystemReleaseReply, next: SystemReleaseRun) -> bool {
        match (self.stage, reply) {
            (SystemReleaseStage::Enabling(k), SystemReleaseReply::Called(result)) => {
                &&& self.same_task(next)
                &&& next.after == self.after
                &&& self.records(next, privilege_steps()[k as int], result)
                &&& next.any_privilege == (self.any_privilege || result is Ok)
                &&& if k < 2 {
                    next.stage == SystemReleaseStage::Enabling((k + 1) as usize)
                } else if next.any_privilege {
                    (SystemReleaseRun {
                        steps: next.steps,
                        any_privilege: true,
                        ..self
                    }).begins_round(next, 0, 0)
                } else {
                    next.stage == SystemReleaseStage::Concluding
                }
            },
            (SystemReleaseStage::Running, SystemReleaseReply::Called(result)) => {
                &&& next == (SystemReleaseRun {
                    steps: next.steps,
                    round_succeeded: self.round_succeeded || result is Ok,
                    stage: SystemReleaseStage::Settling,
                    ..self
                })
                &&& self.records(next, self.plan@[self.position as int], result)
            },
            (SystemReleaseStage::Settling, SystemReleaseReply::Rested) => {
                next == (SystemReleaseRun { stage: SystemReleaseStage::Measuring, ..self })
            },
            (SystemReleaseStage::Measuring, SystemReleaseReply::Memory(memory)) => {
                let seen = self.with_memory(memory);
                if seen.at_target() || self.position + 1 >= self.plan@.len() {
                    seen.ends_round(next)
                } else {
                    next == (SystemReleaseRun {
                        position: (self.position + 1) as usize,
                        stage: SystemReleaseStage::Running,
                        ..seen
                    })
                }
            },
            (SystemReleaseStage::Concluding, SystemReleaseReply::Memory(memory)) => {
                next == (SystemReleaseRun {
                    stage: SystemReleaseStage::Finished,
                    ..self.with_memory(memory)
                })
            },
            _ => next == self,
        }
    }

    /// What the release needs next.
    pub open spec fn needs(self) -> SystemReleaseAction {
        match self.stage {
            SystemReleaseStage::Enabling(k) => SystemReleaseAction::EnablePrivilege(
                privilege_steps()[k as int],
            ),
            SystemReleaseStage::Running => match self.plan@[self.position as int].command() {
                Some(command) => SystemReleaseAction::SetMemoryList(command),
                None => SystemReleaseAction::Done,
            },
            SystemReleaseStage::Settling => SystemReleaseAction::Pause(
                step_delay(self.plan@[self.position as int], self.round) as u64,
            ),
            SystemReleaseStage::Measuring => SystemReleaseAction::ReadMemory,
            SystemReleaseStage::Concluding => SystemReleaseAction::ReadMemory,
            SystemReleaseStage::Finished => SystemReleaseAction::Done,
        }
    }

    /// Tells what the release needs next.
    pub fn next_action(&self) -> (r: SystemReleaseAction)
        requires
            self.well_formed(),
        ensures
            r == self.needs(),
            r == SystemReleaseAction::Done <==> self.stage == SystemReleaseStage::Finished,
    {
        match self.stage {
            SystemReleaseStage::Enabling(k) => SystemReleaseAction::EnablePrivilege(
                privilege_step(k),
            ),
            SystemReleaseStage::Running => {
                match self.plan[self.position].memory_list_command() {
                    Some(command) => SystemReleaseAction::SetMemoryList(command),
                    None => SystemReleaseAction::Done,
                }
            },
            SystemReleaseStage::Settling => SystemReleaseAction::Pause(
                release_step_delay_ms(self.plan[self.position], self.round),
            ),
            SystemReleaseStage::Measuring => SystemReleaseAction::ReadMemory,
            SystemReleaseStage::Concluding => SystemReleaseAction::ReadMemory,
            SystemReleaseStage::Finished => SystemReleaseAction::Done,
        }
    }

    /// Begins a round.
    fn begin_round(&mut self, round: u32, stagnant_rounds: u32)
        ensures
            old(self).begins_round(*final(self), round as int, stagnant_rounds as int),
    {
        self.round = round;
        self.plan = release_plan(
            self.after.memory_load_percent,
            self.target_memory_load_percent,
            round,
        );
        self.position = 0;
        self.round_before_available = self.after.available_physical;
        self.round_succeeded = false;
        self.stagnant_rounds = stagnant_rounds;
        self.stage = SystemReleaseStage::Running;
    }

    /// Ends a round.
    fn end_round(&mut self)
        requires
            old(self).round < old(self).rounds,
            old(self).stagnant_rounds < 2,
        ensures
            old(self).ends_round(*final(self)),
    {
        if self.after.memory_load_percent <= self.target_memory_load_percent
            || !self.round_succeeded {
            self.stage = SystemReleaseStage::Concluding;
            return ;
        }
        let gained: u64 = self.after.available_physical.saturating_sub(
            self.round_before_available,
        );
        let stagnant_rounds: u32 = if gained < MIN_MEANINGFUL_AVAILABLE_GAIN_BYTES {
            self.stagnant_rounds + 1
        } else {
            0
        };
        if stagnant_rounds >= 2 || self.round + 1 >= self.rounds {
            self.stage = SystemReleaseStage::Concluding;
            return ;
        }
        self.begin_round(self.round + 1, stagnant_rounds);
    }

    /// Takes in what was measured.
    fn take_memory(&mut self, memory: Option<MemorySnapshot>)
        ensures
            *final(self) == old(self).with_memory(memory),
    {
        if let Some(snapshot) = memory {
            self.after = snapshot;
        }
    }

    /// Takes in the reply to what the release needed.
    pub fn step(&mut self, reply: SystemReleaseReply)
        requires
            old(self).well_formed(),
        ensures
            old(self).steps_to(reply, *final(self)),
            final(self).well_formed(),
    {
        match (self.stage, reply) {
            (SystemReleaseStage::Enabling(k), SystemReleaseReply::Called(result)) => {
                let succeeded: bool = run_step(&mut self.steps, privilege_step(k), result);
                self.any_privilege = self.any_privilege || succeeded;
                if k < 2 {
                    self.stage = SystemReleaseStage::Enabling(k + 1);
                } else if self.any_privilege {
                    self.begin_round(0, 0);
                } else {
                    self.stage = SystemReleaseStage::Concluding;
                }
            },
            (SystemReleaseStage::Running, SystemReleaseReply::Called(result)) => {
                let succeeded: bool = run_step(
                    &mut self.steps,
                    self.plan[self.position],
                    result,
                );
                self.round_succeeded = self.round_succeeded || succeeded;
                self.stage = SystemReleaseStage::Settling;
            },
            (SystemReleaseStage::Settling, SystemReleaseReply::Rested) => {
                self.stage = SystemReleaseStage::Measuring;
            },
            (SystemReleaseStage::Measuring, SystemReleaseReply::Memory(memory)) => {
                self.take_memory(memory);
                if self.after.memory_load_percent <= self.target_memory_load_percent
                    || self.position + 1 >= self.plan.len() {
                    self.end_round();
                } else {
                    self.position = self.position + 1;
                    self.stage = SystemReleaseStage::Running;
                }
            },
            (SystemReleaseStage::Concluding, SystemReleaseReply::Memory(memory)) => {
                self.take_memory(memory);
                self.stage = SystemReleaseStage::Finished;
            },
            _ => {},
        }
    }

    /// Whether `report` sums up this release.
    pub open spec fn is_summed_up(self, report: SystemReleaseReport, duration_ms: u64) -> bool {
        &&& report.dry_run == self.dry_run
        &&& report.duration_ms == duration_ms
        &&& report.before == self.before
        &&& report.after == self.after
        &&& report.steps == self.steps
        &&& report.failed_count == failures(self.steps@)
        &&& report.target_memory_load_percent == self.target_memory_load_percent
        &&& report.target_reached == (!self.dry_run && self.at_target())
        &&& report.termination_matched_count == 0
        &&& report.termination_graceful_closed_count == 0
        &&& report.termination_force_killed_count == 0
        &&& report.termination_failed_count == 0
    }

    /// Sums up the release.
    pub fn finish(self, duration_ms: u64) -> (r: SystemReleaseReport)
        ensures
            self.is_summed_up(r, duration_ms),
    {
        let failed_count: usize = count_failures(&self.steps);
        SystemReleaseReport {
            dry_run: self.dry_run,
            duration_ms,
            before: self.before,
            after: self.after,
            steps: self.steps,
            failed_count,
            target_memory_load_percent: self.target_memory_load_percent,
            target_reached: !self.dry_run && self.after.memory_load_percent
                <= self.target_memory_load_percent,
            termination_matched_count: 0,
            termination_graceful_closed_count: 0,
            termination_force_killed_count: 0,
            termination_failed_count: 0,
        }
    }
}

/// Whether `run` is about to begin with the given task. A dry run only previews the
/// privileges and the first round.
pub open spec fn release_begins(
    run: SystemReleaseRun,
    dry_run: bool,
    target: u32,
    max_rounds: u32,
    before: MemorySnapshot,
) -> bool {
    &&& run.well_formed()
    &&& run.dry_run == dry_run
    &&& run.target_memory_load_percent == target
    &&& run.rounds == if dry_run || max_rounds == 0 {
        1
    } else {
        max_rounds
    }
    &&& run.before == before
    &&& run.after == before
    &&& !run.any_privilege
    &&& if dry_run {
        &&& run.steps@ == previewed(
            privilege_steps() + plan(before.memory_load_percent, target, 0),
        )
        &&& run.stage == SystemReleaseStage::Finished
    } else {
        &&& run.steps@.len() == 0
        &&& run.stage == SystemReleaseStage::Enabling(0)
    }
}

/// Starts a release that aims at a memory load.
pub fn run_targeted_system_release(
    dry_run: bool,
    target_memory_load_percent: u32,
    max_rounds: u32,
    before: MemorySnapshot,
) -> (r: SystemReleaseRun)
    ensures
        release_begins(r, dry_run, target_memory_load_percent, max_rounds, before),
{
    let rounds: u32 = if dry_run || max_rounds == 0 {
        1
    } else {
        max_rounds
    };
    let mut steps: Vec<SystemReleaseStepResult> = Vec::new();
    if dry_run {
        let planned: Vec<SystemReleaseStep> = release_plan(
            before.memory_load_percent,
            target_memory_load_percent,
            0,
        );
        let ghost all = privilege_steps() + planned@;
        let mut k: usize = 0;
        while k < 3
            invariant
                k <= 3,
                all == privilege_steps() + planned@,
                steps@ == previewed(all.take(k as int)),
            decreases 3 - k,
        {
            steps.push(
                SystemReleaseStepResult {
                    step: privilege_step(k),
                    status: SystemReleaseStepStatus::WouldRun,
                },
            );
            k = k + 1;
            assert(steps@ =~= previewed(all.take(k as int)));
        }
        let mut i: usize = 0;
        while i < planned.len()
            invariant
                i <= planned@.len(),
                all == privilege_steps() + planned@,
                steps@ == previewed(all.take(3 + i)),
            decreases planned@.len() - i,
        {
            steps.push(
                SystemReleaseStepResult {
                    step: planned[i],
                    status: SystemReleaseStepStatus::WouldRun,
                },
            );
            i = i + 1;
            assert(steps@ =~= previewed(all.take(3 + i)));
        }
        assert(all.take(3 + i) =~= all);
    }
    SystemReleaseRun {
        dry_run,
        target_memory_load_percent,
        rounds,
        before,
        after: before,
        steps,
        any_privilege: false,
        round: 0,
        plan: Vec::new(),
        position: 0,
        round_before_available: before.available_physical,
        round_succeeded: false,
        stagnant_rounds: 0,
        stage: if dry_run {
            SystemReleaseStage::Finished
        } else {
            SystemReleaseStage::Enabling(0)
        },
    }
}

/// A dry run releases nothing: it is over from the start, and no reply changes it.
pub proof fn dry_run_releases_nothing(
    run: SystemReleaseRun,
    reply: SystemReleaseReply,
    next: SystemReleaseRun,
)
    requires
        run.well_formed(),
        run.dry_run,
        run.steps_to(reply, next),
    ensures
        run.stage == SystemReleaseStage::Finished,
        next == run,
{
}

/// Once the target is met no further step is run. Only the first step of a release does not
/// ask for the target.
pub proof fn release_stops_at_the_target(run: SystemReleaseRun)
    requires
        run.well_formed(),
        run.stage == SystemReleaseStage::Running,
        run.round > 0 || run.position > 0,
    ensures
        run.after.memory_load_percent > run.target_memory_load_percent,
{
}

/// A release runs at most four steps in each of its rounds, after the three privileges.
pub proof fn release_is_bounded(run: SystemReleaseRun)
    requires
        run.well_formed(),
    ensures
        run.steps@.len() <= 3 + 4 * run.rounds,
        failures(run.steps@) <= run.steps@.len(),
{
    lemma_failures(run.steps@);
}

/// No more steps fail than there are.
proof fn lemma_failures(steps: Seq<SystemReleaseStepResult>)
    ensures
        failures(steps) <= steps.len(),
    decreases steps.len(),
{
    if steps.len() > 0 {
        lemma_failures(steps.drop_last());
    }
}

/// A release keeps what it has recorded, and what the memory was at its start.
pub proof fn release_keeps_its_record(
    run: SystemReleaseRun,
    reply: SystemReleaseReply,
    next: SystemReleaseRun,
)
    requires
        run.well_formed(),
        run.steps_to(reply, next),
    ensures
        run.steps@.is_prefix_of(next.steps@),
        next.before == run.before,
        next.rounds == run.rounds,
        next.target_memory_load_percent == run.target_memory_load_percent,
{
}

impl SystemReleaseRun {
    /// How many replies the release can still take in, at most.
    pub open spec fn work_left(self) -> int {
        let later_rounds = 13 * (self.rounds - 1 - self.round);
        let waiting = 3 * (self.plan@.len() - self.position);
        match self.stage {
            SystemReleaseStage::Enabling(k) => 13 * self.rounds + 4 - k,
            SystemReleaseStage::Running => later_rounds + waiting + 1,
            SystemReleaseStage::Settling => later_rounds + waiting,
            SystemReleaseStage::Measuring => later_rounds + waiting - 1,
            SystemReleaseStage::Concluding => 1,
            SystemReleaseStage::Finished => 0,
        }
    }
}

/// A release ends: every reply that it expects brings it nearer to its end.
pub proof fn release_ends(run: SystemReleaseRun, reply: SystemReleaseReply, next: SystemReleaseRun)
    requires
        run.well_formed(),
        run.expects(reply),
        run.steps_to(reply, next),
    ensures
        0 <= next.work_left() < run.work_left(),
{
}

// ---------------------------------------------------------------------------
// Releases and the closing of processes in turn
// ---------------------------------------------------------------------------

/// Whether `r` is two releases taken together: the start of the first, the outcome of the
/// second, and the steps and counts of both.
pub open spec fn is_merged(
    first: SystemReleaseReport,
    second: SystemReleaseReport,
    r: SystemReleaseReport,
) -> bool {
    &&& r.dry_run == second.dry_run
    &&& r.duration_ms == second.duration_ms
    &&& r.before == first.before
    &&& r.after == second.after
    &&& r.steps@ == first.steps@ + second.steps@
    &&& r.failed_count == termination::wrapped_sum(
        second.failed_count as int,
        first.failed_count as int,
    )
    &&& r.target_memory_load_percent == second.target_memory_load_percent
    &&& r.target_reached == second.target_reached
    &&& r.termination_matched_count == termination::wrapped_sum(
        second.termination_matched_count as int,
        first.termination_matched_count as int,
    )
    &&& r.termination_graceful_closed_count == termination::wrapped_sum(
        second.termination_graceful_closed_count as int,
        first.termination_graceful_closed_count as int,
    )
    &&& r.termination_force_killed_count == termination::wrapped_sum(
        second.termination_force_killed_count as int,
        first.termination_force_killed_count as int,
    )
    &&& r.termination_failed_count == termination::wrapped_sum(
        second.termination_failed_count as int,
        first.termination_failed_count as int,
    )
}

/// Takes two releases together.
pub fn merge_release_pass(first: SystemReleaseReport, second: SystemReleaseReport) -> (r:
    SystemReleaseReport)
    ensures
        is_merged(first, second, r),
{
    let mut steps: Vec<SystemReleaseStepResult> = first.steps;
    let mut later: Vec<SystemReleaseStepResult> = second.steps;
    steps.append(&mut later);
    SystemReleaseReport {
        dry_run: second.dry_run,
        duration_ms: second.duration_ms,
        before: first.before,
        after: second.after,
        steps,
        failed_count: second.failed_count.wrapping_add(first.failed_count),
        target_memory_load_percent: second.target_memory_load_percent,
        target_reached: second.target_reached,
        termination_matched_count: second.termination_matched_count.wrapping_add(
            first.termination_matched_count,
        ),
        termination_graceful_closed_count: second.termination_graceful_closed_count.wrapping_add(
            first.termination_graceful_closed_count,
        ),
        termination_force_killed_count: second.termination_force_killed_count.wrapping_add(
            first.termination_force_killed_count,
        ),
        termination_failed_count: second.termination_failed_count.wrapping_add(
            first.termination_failed_count,
        ),
    }
}

/// Whether `r` is a release with the counts of closed processes added.
pub open spec fn is_with_termination(
    report: SystemReleaseReport,
    closed: ProcessReleaseReport,
    r: SystemReleaseReport,
) -> bool {
    r == SystemReleaseReport {
        termination_matched_count: termination::wrapped_sum(
            report.termination_matched_count as int,
            closed.matched_count as int,
        ) as usize,
        termination_graceful_closed_count: termination::wrapped_sum(
            report.termination_graceful_closed_count as int,
            closed.graceful_closed_count as int,
        ) as usize,
        termination_force_killed_count: termination::wrapped_sum(
            report.termination_force_killed_count as int,
            closed.force_killed_count as int,
        ) as usize,
        termination_failed_count: termination::wrapped_sum(
            report.termination_failed_count as int,
            closed.failed_count as int,
        ) as usize,
        ..report
    }
}

/// Adds the counts of closed processes.
pub fn with_termination(report: SystemReleaseReport, closed: &ProcessReleaseReport) -> (r:
    SystemReleaseReport)
    ensures
        is_with_termination(report, *closed, r),
{
    let mut r: SystemReleaseReport = report;
    r.termination_matched_count = r.termination_matched_count.wrapping_add(closed.matched_count);
    r.termination_graceful_closed_count = r.termination_graceful_closed_count.wrapping_add(
        closed.graceful_closed_count,
    );
    r.termination_force_killed_count = r.termination_force_killed_count.wrapping_add(
        closed.force_killed_count,
    );
    r.termination_failed_count = r.termination_failed_count.wrapping_add(closed.failed_count);
    r
}

/// What a session is doing.
#[derive(Debug)]
pub enum SessionPhase {
    /// A release is about to start; the memory is being read.
    Starting,
    /// A release is under way.
    Releasing(SystemReleaseRun),
    /// Processes are being closed.
    Closing(ProcessReleaseRun),
    /// The session is over.
    Finished,
}

/// What a session needs next.
#[derive(Debug, Clone, Copy, PartialEq, Eq, Structural)]
pub enum SessionAction {
    /// Start the stopwatch and read the memory.
    StartRelease,
    Release(SystemReleaseAction),
    /// Read the stopwatch.
    ReadElapsed,
    Close(ReleaseAction),
    Done,
}

/// The reply to what a session needed.
#[derive(Debug)]
pub enum SessionReply {
    /// The memory at the start of a release.
    Started(Result<MemorySnapshot, MemSparkError>),
    Released(SystemReleaseReply),
    /// The milliseconds since the start of the release.
    Elapsed(u64),
    Closed(ReleaseReply),
}

/// A release and, as long as the target is not met, further sweeps: each closes processes and
/// releases again.
#[derive(Debug)]
pub struct SystemReleaseSession {
    pub dry_run: bool,
    pub sweep: u32,
    pub swept_processes: usize,
    pub report: Option<SystemReleaseReport>,
    pub phase: SessionPhase,
    pub failure: Option<MemSparkError>,
}

impl SystemReleaseSession {
    /// How many rounds the release at hand may have.
    pub open spec fn round_limit(self) -> u32 {
        if self.sweep == 0 {
            SYSTEM_ROUNDS
        } else {
            SWEEP_ROUNDS
        }
    }

    /// Whether the session's parts fit together.
    pub open spec fn well_formed(self) -> bool {
        &&& self.sweep <= TERMINATION_SWEEPS
        &&& self.sweep > 0 ==> !self.dry_run && self.report is Some
        &&& self.report matches Some(report) ==> {
            &&& report.failed_count == failures(report.steps@)
            &&& report.steps@.len() <= 51 + 27 * self.sweep
            &&& report.target_memory_load_percent == TARGET_MEMORY_LOAD_PERCENT
        }
        &&& match self.phase {
            SessionPhase::Starting => {
                &&& self.sweep == 0 ==> self.report is None
                &&& self.report matches Some(report) ==> report.steps@.len() <= 24 + 27
                    * self.sweep
            },
            SessionPhase::Releasing(run) => {
                &&& self.sweep == 0 ==> self.report is None
                &&& self.report matches Some(report) ==> report.steps@.len() <= 24 + 27
                    * self.sweep
                &&& run.well_formed()
                &&& run.dry_run == self.dry_run
                &&& run.target_memory_load_percent == TARGET_MEMORY_LOAD_PERCENT
                &&& run.rounds <= self.round_limit()
            },
            SessionPhase::Closing(run) => {
                &&& self.sweep > 0
                &&& self.report matches Some(report) && report.steps@.len() <= 24 + 27 * self.sweep
                    && !report.target_reached
                &&& run.well_formed()
                &&& run.stage != ReleaseStage::Finished
                &&& !run.report.dry_run
                &&& run.report.allow_force_kill
                &&& run.target_memory_load_percent == Some(TARGET_MEMORY_LOAD_PERCENT)
                &&& run.keep_vm_stack
            },
            SessionPhase::Finished => self.failure is Some || self.report is Some,
        }
    }

    /// Whether `next` is this session with another phase.
    pub open spec fn changes_phase(self, next: SystemReleaseSession) -> bool {
        next == SystemReleaseSession { phase: next.phase, ..self }
    }

    /// Whether `next` is this session ended by an error.
    pub open spec fn fails(self, next: SystemReleaseSession, error: MemSparkError) -> bool {
        next == SystemReleaseSession {
            phase: SessionPhase::Finished,
            failure: Some(error),
            ..self
        }
    }

    /// Whether the session is over once it has come to `total`: the target is met, nothing
    /// may be done, no process could be closed, or there was no sweep left.
    pub open spec fn is_enough(self, total: SystemReleaseReport) -> bool {
        if self.sweep == 0 {
            self.dry_run || total.target_reached
        } else {
            total.target_reached || self.swept_processes == 0 || self.sweep >= TERMINATION_SWEEPS
        }
    }

    /// Whether `next` is this session after a release has come to `pass`.
    pub open spec fn concludes(self, next: SystemReleaseSession, pass: SystemReleaseReport) -> bool {
        &&& next.report matches Some(total) && {
            &&& match self.report {
                None => total == pass,
                Some(first) => is_merged(first, pass, total),
            }
            &&& if self.is_enough(total) {
                next == (SystemReleaseSession {
                    report: next.report,
                    phase: SessionPhase::Finished,
                    ..self
                })
            } else {
                &&& next == (SystemReleaseSession {
                    report: next.report,
                    sweep: (self.sweep + 1) as u32,
                    phase: next.phase,
                    ..self
                })
                &&& next.phase matches SessionPhase::Closing(run)
                &&& termination::begins(
                    run,
                    false,
                    true,
                    Some(TARGET_MEMORY_LOAD_PERCENT),
                    usize::MAX,
                    true,
                )
            }
        }
    }

    /// Whether `next` is this session after the closing of processes has come to `run`. What
    /// was closed is added to the report, also where the closing ended in an error.
    pub open spec fn goes_on_closing(
        self,
        next: SystemReleaseSession,
        run: ProcessReleaseRun,
    ) -> bool {
        if run.stage != ReleaseStage::Finished {
            next == (SystemReleaseSession { phase: SessionPhase::Closing(run), ..self })
        } else {
            &&& self.report matches Some(report) && next.report matches Some(total)
                && is_with_termination(report, run.report, total)
            &&& match run.failure {
                Some(error) => next == (SystemReleaseSession {
                    report: next.report,
                    phase: SessionPhase::Finished,
                    failure: Some(error),
                    ..self
                }),
                None => next == (SystemReleaseSession {
                    report: next.report,
                    swept_processes: run.report.terminated() as usize,
                    phase: SessionPhase::Starting,
                    ..self
                }),
            }
        }
    }

    /// Whether `next` is this session after `reply`. A reply that answers nothing changes
    /// nothing.
    pub open spec fn steps_to(self, reply: SessionReply, next: SystemReleaseSession) -> bool {
        match (self.phase, reply) {
            (SessionPhase::Starting, SessionReply::Started(Ok(memory))) => {
                &&& self.changes_phase(next)
                &&& next.phase matches SessionPhase::Releasing(run)
                &&& release_begins(
                    run,
                    self.dry_run,
                    TARGET_MEMORY_LOAD_PERCENT,
                    self.round_limit(),
                    memory,
                )
            },
            (SessionPhase::Starting, SessionReply::Started(Err(error))) => self.fails(next, error),
            (SessionPhase::Releasing(run), SessionReply::Released(inner)) => {
                &&& self.changes_phase(next)
                &&& next.phase matches SessionPhase::Releasing(after)
                &&& run.steps_to(inner, after)
            },
            (SessionPhase::Releasing(run), SessionReply::Elapsed(duration_ms)) => {
                if run.stage == SystemReleaseStage::Finished {
                    exists|pass: SystemReleaseReport| #[trigger]
                        run.is_summed_up(pass, duration_ms) && self.concludes(next, pass)
                } else {
                    next == self
                }
            },
            (SessionPhase::Closing(run), SessionReply::Closed(inner)) => {
                exists|after: ProcessReleaseRun| #[trigger]
                    run.steps(inner, after) && after.well_formed() && self.goes_on_closing(
                        next,
                        after,
                    )
            },
            _ => next == self,
        }
    }

    /// What the session needs next.
    pub open spec fn needs(self) -> SessionAction {
        match self.phase {
            SessionPhase::Starting => SessionAction::StartRelease,
            SessionPhase::Releasing(run) => if run.stage == SystemReleaseStage::Finished {
                SessionAction::ReadElapsed
            } else {
                SessionAction::Release(run.needs())
            },
            SessionPhase::Closing(run) => SessionAction::Close(run.needs()),
            SessionPhase::Finished => SessionAction::Done,
        }
    }

    /// Tells what the session needs next.
    pub fn next_action(&self) -> (r: SessionAction)
        requires
            self.well_formed(),
        ensures
            r == self.needs(),
    {
        match &self.phase {
            SessionPhase::Starting => SessionAction::StartRelease,
            SessionPhase::Releasing(run) => {
                if run.stage == SystemReleaseStage::Finished {
                    SessionAction::ReadElapsed
                } else {
                    SessionAction::Release(run.next_action())
                }
            },
            SessionPhase::Closing(run) => SessionAction::Close(run.next_action()),
            SessionPhase::Finished => SessionAction::Done,
        }
    }

    /// Takes a release into the session's report, and starts the next sweep if one is due.
    fn conclude(self, pass: SystemReleaseReport) -> (next: SystemReleaseSession)
        requires
            self.well_formed(),
            self.phase is Starting,
            pass.failed_count == failures(pass.steps@),
            pass.steps@.len() <= 3 + 4 * self.round_limit(),
            pass.target_memory_load_percent == TARGET_MEMORY_LOAD_PERCENT,
        ensures
            self.concludes(next, pass),
            next.well_formed(),
    {
        let total: SystemReleaseReport = match self.report {
            None => pass,
            Some(first) => {
                proof {
                    lemma_failures(first.steps@);
                    lemma_failures(pass.steps@);
                    lemma_failures_sum(first.steps@, pass.steps@);
                }
                merge_release_pass(first, pass)
            },
        };
        let enough: bool = if self.sweep == 0 {
            self.dry_run || total.target_reached
        } else {
            total.target_reached || self.swept_processes == 0 || self.sweep >= TERMINATION_SWEEPS
        };
        if enough {
            SystemReleaseSession {
                dry_run: self.dry_run,
                sweep: self.sweep,
                swept_processes: self.swept_processes,
                report: Some(total),
                phase: SessionPhase::Finished,
                failure: self.failure,
            }
        } else {
            SystemReleaseSession {
                dry_run: self.dry_run,
                sweep: self.sweep + 1,
                swept_processes: self.swept_processes,
                report: Some(total),
                phase: SessionPhase::Closing(
                    run_targeted_process_release(
                        false,
                        true,
                        TARGET_MEMORY_LOAD_PERCENT,
                        usize::MAX,
                    ),
                ),
                failure: self.failure,
            }
        }
    }

    /// Takes in the reply to what the session needed.
    pub fn step(self, reply: SessionReply) -> (next: SystemReleaseSession)
        requires
            self.well_formed(),
        ensures
            self.steps_to(reply, next),
            next.well_formed(),
    {
        match (self.phase, reply) {
            (SessionPhase::Starting, SessionReply::Started(Ok(memory))) => {
                let rounds: u32 = if self.sweep == 0 {
                    SYSTEM_ROUNDS
                } else {
                    SWEEP_ROUNDS
                };
                let run: SystemReleaseRun = run_targeted_system_release(
                    self.dry_run,
                    TARGET_MEMORY_LOAD_PERCENT,
                    rounds,
                    memory,
                );
                SystemReleaseSession { phase: SessionPhase::Releasing(run), ..self }
            },
            (SessionPhase::Starting, SessionReply::Started(Err(error))) => {
                SystemReleaseSession {
                    phase: SessionPhase::Finished,
                    failure: Some(error),
                    ..self
                }
            },
            (SessionPhase::Releasing(run), SessionReply::Released(inner)) => {
                let mut after: SystemReleaseRun = run;
                after.step(inner);
                SystemReleaseSession { phase: SessionPhase::Releasing(after), ..self }
            },
            (SessionPhase::Releasing(run), SessionReply::Elapsed(duration_ms)) => {
                if run.stage == SystemReleaseStage::Finished {
                    let pass: SystemReleaseReport = run.finish(duration_ms);
                    SystemReleaseSession { phase: SessionPhase::Starting, ..self }.conclude(pass)
                } else {
                    SystemReleaseSession { phase: SessionPhase::Releasing(run), ..self }
                }
            },
            (SessionPhase::Closing(run), SessionReply::Closed(inner)) => {
                let mut after: ProcessReleaseRun = run;
                after.step(inner);
                if after.stage != ReleaseStage::Finished {
                    SystemReleaseSession { phase: SessionPhase::Closing(after), ..self }
                } else {
                    let swept_processes: usize = after.report.terminated_count();
                    let report: Option<SystemReleaseReport> = match self.report {
                        Some(report) => Some(with_termination(report, &after.report)),
                        None => None,
                    };
                    match after.failure {
                        Some(error) => SystemReleaseSession {
                            dry_run: self.dry_run,
                            sweep: self.sweep,
                            swept_processes: self.swept_processes,
                            report,
                            phase: SessionPhase::Finished,
                            failure: Some(error),
                        },
                        None => SystemReleaseSession {
                            dry_run: self.dry_run,
                            sweep: self.sweep,
                            swept_processes,
                            report,
                            phase: SessionPhase::Starting,
                            failure: self.failure,
                        },
                    }
                }
            },
            (phase, _) => SystemReleaseSession { phase, ..self },
        }
    }

    /// The report, or the error that ended the session.
    pub open spec fn outcome(self) -> Result<SystemReleaseReport, MemSparkError> {
        match self.failure {
            Some(error) => Err(error),
            None => Ok(self.report->0),
        }
    }

    /// Gives the report, or the error that ended the session.
    pub fn finish(self) -> (r: Result<SystemReleaseReport, MemSparkError>)
        requires
            self.well_formed(),
            self.phase is Finished,
        ensures
            r == self.outcome(),
    {
        match self.failure {
            Some(error) => Err(error),
            None => Ok(self.report.unwrap()),
        }
    }
}

/// Whether `session` is about to begin.
pub open spec fn session_begins(session: SystemReleaseSession, dry_run: bool) -> bool {
    &&& session.well_formed()
    &&& session.dry_run == dry_run
    &&& session.sweep == 0
    &&& session.swept_processes == 0
    &&& session.report is None
    &&& session.phase is Starting
    &&& session.failure is None
}

/// Starts a session.
pub fn run_system_release(dry_run: bool) -> (r: SystemReleaseSession)
    ensures
        session_begins(r, dry_run),
{
    SystemReleaseSession {
        dry_run,
        sweep: 0,
        swept_processes: 0,
        report: None,
        phase: SessionPhase::Starting,
        failure: None,
    }
}

/// The failures of two runs of steps add up.
proof fn lemma_failures_sum(a: Seq<SystemReleaseStepResult>, b: Seq<SystemReleaseStepResult>)
    ensures
        failures(a + b) == failures(a) + failures(b),
    decreases b.len(),
{
    if b.len() == 0 {
        assert(a + b =~= a);
    } else {
        lemma_failures_sum(a, b.drop_last());
        assert((a + b).drop_last() =~= a + b.drop_last());
    }
}

/// A dry session only reads the memory and the stopwatch: no step is run and no process is
/// closed.
pub proof fn dry_session_only_reads(session: SystemReleaseSession)
    requires
        session.well_formed(),
        session.dry_run,
    ensures
        session.needs() == SessionAction::StartRelease || session.needs()
            == SessionAction::ReadElapsed || session.needs() == SessionAction::Done,
{
}

/// Processes are closed only while the target is not met, and those of virtual machines are
/// left running.
pub proof fn closing_needs_a_missed_target(session: SystemReleaseSession)
    requires
        session.well_formed(),
        session.phase is Closing,
    ensures
        !session.dry_run,
        session.report is Some,
        !session.report->0.target_reached,
        session.phase->Closing_0.keep_vm_stack,
        session.phase->Closing_0.well_formed(),
        1 <= session.sweep <= TERMINATION_SWEEPS,
{
}

/// The count of failed steps in a session's report agrees with its steps.
pub proof fn session_failures_agree(session: SystemReleaseSession)
    requires
        session.well_formed(),
        session.report is Some,
    ensures
        session.report->0.failed_count == failures(session.report->0.steps@),
        session.report->0.target_memory_load_percent == TARGET_MEMORY_LOAD_PERCENT,
{
}

impl SystemReleaseSession {
    /// Whether `reply` answers what the session needs next.
    pub open spec fn expects(self, reply: SessionReply) -> bool {
        match self.phase {
            SessionPhase::Starting => reply is Started,
            SessionPhase::Releasing(run) => if run.stage == SystemReleaseStage::Finished {
                reply is Elapsed
            } else {
                reply matches SessionReply::Released(inner) && run.expects(inner)
            },
            SessionPhase::Closing(run) => reply matches SessionReply::Closed(inner) && run.expects(
                inner,
            ),
            SessionPhase::Finished => false,
        }
    }

    /// How many phases the session can still enter, at most.
    pub open spec fn phases_left(self) -> int {
        let later = 3 * (TERMINATION_SWEEPS - self.sweep);
        match self.phase {
            SessionPhase::Starting => later + 2,
            SessionPhase::Releasing(_) => later + 1,
            SessionPhase::Closing(_) => later + 3,
            SessionPhase::Finished => 0,
        }
    }

    /// How many passes over the processes the current phase can still begin.
    pub open spec fn passes_left(self) -> int {
        match self.phase {
            SessionPhase::Closing(run) => run.passes_left(),
            _ => 0,
        }
    }

    /// How many replies the current phase, or the current pass, can still take in.
    pub open spec fn work_left(self) -> int {
        match self.phase {
            SessionPhase::Releasing(run) => run.work_left(),
            SessionPhase::Closing(run) => run.work_left(),
            _ => 0,
        }
    }
}

impl SystemReleaseSession {
    /// Whether `next` is nearer to its end: fewer phases are left, or fewer passes within the
    /// phase, or less work within the pass.
    pub open spec fn is_followed_by(self, next: SystemReleaseSession) -> bool {
        ||| 0 <= next.phases_left() < self.phases_left()
        ||| {
            &&& next.phases_left() == self.phases_left()
            &&& {
                ||| 0 <= next.passes_left() < self.passes_left()
                ||| {
                    &&& next.passes_left() == self.passes_left()
                    &&& 0 <= next.work_left() < self.work_left()
                }
            }
        }
    }
}

/// A session ends: with every reply that it expects, fewer phases are left, or fewer passes
/// within the phase, or less work within the pass.
pub proof fn session_ends(
    session: SystemReleaseSession,
    reply: SessionReply,
    next: SystemReleaseSession,
)
    requires
        session.well_formed(),
        session.expects(reply),
        session.steps_to(reply, next),
    ensures
        session.is_followed_by(next),
{
    match (session.phase, reply) {
        (SessionPhase::Releasing(run), SessionReply::Released(inner)) => {
            release_ends(run, inner, next.phase->Releasing_0);
        },
        (SessionPhase::Closing(run), SessionReply::Closed(inner)) => {
            let after = choose|after: ProcessReleaseRun| #[trigger]
                run.steps(inner, after) && after.well_formed() && session.goes_on_closing(
                    next,
                    after,
                );
            termination::closing_ends(run, inner, after);
        },
        _ => {},
    }
}

// ---------------------------------------------------------------------------
// What steps and rounds do
// ---------------------------------------------------------------------------

/// Each memory-list step asks for the command that it is named after, and enabling a privilege
/// asks for none.
pub proof fn steps_ask_for_their_commands(step: SystemReleaseStep)
    ensures
        step == SystemReleaseStep::EmptySystemWorkingSets <==> step.command() == Some(
            MemoryListCommand::EmptyWorkingSets,
        ),
        step == SystemReleaseStep::FlushModifiedPageList <==> step.command() == Some(
            MemoryListCommand::FlushModifiedList,
        ),
        step == SystemReleaseStep::PurgeLowPriorityStandbyList <==> step.command() == Some(
            MemoryListCommand::PurgeLowPriorityStandbyList,
        ),
        step == SystemReleaseStep::PurgeStandbyList <==> step.command() == Some(
            MemoryListCommand::PurgeStandbyList,
        ),
        step.command() is None <==> step == SystemReleaseStep::EnableDebugPrivilege || step
            == SystemReleaseStep::EnableIncreaseQuotaPrivilege || step
            == SystemReleaseStep::EnableProfilePrivilege,
{
}

/// Different memory-list steps ask for different commands.
pub proof fn commands_tell_steps_apart(a: SystemReleaseStep, b: SystemReleaseStep)
    requires
        a.command() is Some,
        a.command() == b.command(),
    ensures
        a == b,
{
}

/// The privileges are enabled in a fixed order: debugging, quotas, profiling.
pub proof fn privileges_are_enabled_in_order(run: SystemReleaseRun)
    requires
        run.well_formed(),
    ensures
        run.stage == SystemReleaseStage::Enabling(0) ==> run.needs()
            == SystemReleaseAction::EnablePrivilege(SystemReleaseStep::EnableDebugPrivilege),
        run.stage == SystemReleaseStage::Enabling(1) ==> run.needs()
            == SystemReleaseAction::EnablePrivilege(
            SystemReleaseStep::EnableIncreaseQuotaPrivilege,
        ),
        run.stage == SystemReleaseStage::Enabling(2) ==> run.needs()
            == SystemReleaseAction::EnablePrivilege(SystemReleaseStep::EnableProfilePrivilege),
        run.stage is Enabling ==> run.stage == SystemReleaseStage::Enabling(0) || run.stage
            == SystemReleaseStage::Enabling(1) || run.stage == SystemReleaseStage::Enabling(2),
{
}

/// A load of 35 or more above the target calls for all four commands, whatever the round; the
/// standby list is purged first in even rounds and the working sets are emptied first in odd
/// ones.
pub proof fn high_pressure_runs_everything(load: u32, target: u32, round: u32)
    requires
        load - target >= 35,
    ensures
        plan(load, target, round).len() == 4,
        plan(load, target, round).contains(SystemReleaseStep::EmptySystemWorkingSets),
        plan(load, target, round).contains(SystemReleaseStep::FlushModifiedPageList),
        plan(load, target, round).contains(SystemReleaseStep::PurgeLowPriorityStandbyList),
        plan(load, target, round).contains(SystemReleaseStep::PurgeStandbyList),
        round % 2 == 0 ==> {
            &&& plan(load, target, round)[0] == SystemReleaseStep::PurgeStandbyList
            &&& plan(load, target, round)[1] == SystemReleaseStep::EmptySystemWorkingSets
            &&& plan(load, target, round)[2] == SystemReleaseStep::FlushModifiedPageList
        },
        round % 2 == 1 ==> {
            &&& plan(load, target, round)[0] == SystemReleaseStep::EmptySystemWorkingSets
            &&& plan(load, target, round)[1] == SystemReleaseStep::PurgeStandbyList
            &&& plan(load, target, round)[2] == SystemReleaseStep::PurgeLowPriorityStandbyList
        },
{
    let p = plan(load, target, round);
    let e = if round % 2 == 0 { 1int } else { 0 };
    assert(p[e] == SystemReleaseStep::EmptySystemWorkingSets);
    assert(p[1 - e] == SystemReleaseStep::PurgeStandbyList);
    assert(p[3 - e] == SystemReleaseStep::FlushModifiedPageList);
    assert(p[2 + e] == SystemReleaseStep::PurgeLowPriorityStandbyList);
}

/// A load of 15 to 34 above the target calls for the working sets to be emptied in every
/// round. Even rounds begin with the low-priority standby list and end with the modified
/// pages; odd rounds end with the whole standby list.
pub proof fn medium_pressure_spares_the_standby_list(load: u32, target: u32, round: u32)
    requires
        15 <= load - target < 35,
    ensures
        round % 2 == 0 ==> {
            &&& plan(load, target, round).len() == 3
            &&& plan(load, target, round)[0] == SystemReleaseStep::PurgeLowPriorityStandbyList
            &&& plan(load, target, round)[1] == SystemReleaseStep::EmptySystemWorkingSets
            &&& plan(load, target, round)[2] == SystemReleaseStep::FlushModifiedPageList
        },
        round % 2 == 1 ==> {
            &&& plan(load, target, round).len() == 2
            &&& plan(load, target, round)[0] == SystemReleaseStep::EmptySystemWorkingSets
            &&& plan(load, target, round)[1] == SystemReleaseStep::PurgeStandbyList
        },
{
}

/// A load of less than 15 above the target, or below it, calls for two steps: the low-priority
/// standby list is purged in every round, and never the whole one.
pub proof fn low_pressure_is_gentle(load: u32, target: u32, round: u32)
    requires
        load - target < 15,
    ensures
        plan(load, target, round).len() == 2,
        !plan(load, target, round).contains(SystemReleaseStep::PurgeStandbyList),
        round % 2 == 0 ==> {
            &&& plan(load, target, round)[0] == SystemReleaseStep::PurgeLowPriorityStandbyList
            &&& plan(load, target, round)[1] == SystemReleaseStep::EmptySystemWorkingSets
        },
        round % 2 == 1 ==> {
            &&& plan(load, target, round)[0] == SystemReleaseStep::FlushModifiedPageList
            &&& plan(load, target, round)[1] == SystemReleaseStep::PurgeLowPriorityStandbyList
        },
{
}

/// A plan depends on how far the load lies above the target and on the parity of the round.
pub proof fn plans_depend_on_pressure(load: u32, target: u32, round: u32, more: u32)
    requires
        load + more <= u32::MAX,
        target + more <= u32::MAX,
        round + 2 <= u32::MAX,
    ensures
        plan((load + more) as u32, (target + more) as u32, round) == plan(load, target, round),
        plan(load, target, (round + 2) as u32) == plan(load, target, round),
{
}

/// The pause after a step: 110 milliseconds for emptied working sets, 160 for flushed pages,
/// 120 and 190 for the purged standby lists, and 25 more in each of the first four rounds
/// after the first.
pub proof fn pauses_grow_for_four_rounds(round: u32)
    ensures
        step_delay(SystemReleaseStep::EmptySystemWorkingSets, 0) == 110,
        step_delay(SystemReleaseStep::FlushModifiedPageList, 0) == 160,
        step_delay(SystemReleaseStep::PurgeLowPriorityStandbyList, 0) == 120,
        step_delay(SystemReleaseStep::PurgeStandbyList, 0) == 190,
        forall|step: SystemReleaseStep|
            round < 4 ==> #[trigger] step_delay(step, (round + 1) as u32) == step_delay(step, round)
                + 25,
        forall|step: SystemReleaseStep|
            round >= 4 ==> #[trigger] step_delay(step, round) == step_delay(step, 4),
{
}

/// The number of failed steps goes up with each failed step, and with no other.
pub proof fn failed_steps_are_counted(
    steps: Seq<SystemReleaseStepResult>,
    result: SystemReleaseStepResult,
)
    ensures
        failures(Seq::empty()) == 0,
        result.status is Failed ==> failures(steps.push(result)) == failures(steps) + 1,
        result.status is Succeeded ==> failures(steps.push(result)) == failures(steps),
        result.status is WouldRun ==> failures(steps.push(result)) == failures(steps),
{
    assert(steps.push(result).drop_last() =~= steps);
}

/// A step is recorded as it ended: as a success if the call succeeded, and else as a failure
/// with the error in full.
pub proof fn recorded_outcomes_are_true(
    status: SystemReleaseStepStatus,
    result: Result<(), WinApiError>,
)
    requires
        is_outcome(status, result),
    ensures
        result is Ok <==> status == SystemReleaseStepStatus::Succeeded,
        result is Err <==> status is Failed,
        result matches Err(error) ==> (status matches SystemReleaseStepStatus::Failed(message)
            && message@ == error.context@ + " failed with Windows error "@ + crate::text::decimal(
            error.code as nat,
        ) + " ("@ + error.message@ + ")"@),
{
}

/// How the three privileges go: each is recorded with its outcome, and all three are tried.
/// Memory lists are touched only where at least one of them could be enabled.
pub proof fn rounds_need_a_privilege(
    run: SystemReleaseRun,
    result: Result<(), WinApiError>,
    next: SystemReleaseRun,
    k: usize,
)
    requires
        run.well_formed(),
        run.stage == SystemReleaseStage::Enabling(k),
        run.steps_to(SystemReleaseReply::Called(result), next),
    ensures
        k < 2 ==> next.stage == SystemReleaseStage::Enabling((k + 1) as usize),
        k == 2 && (run.any_privilege || result is Ok) ==> {
            &&& next.stage == SystemReleaseStage::Running
            &&& next.round == 0
            &&& next.position == 0
            &&& next.stagnant_rounds == 0
            &&& next.plan@ == plan(
                run.after.memory_load_percent,
                run.target_memory_load_percent,
                0,
            )
            &&& next.round_before_available == run.after.available_physical
        },
        k == 2 && !run.any_privilege && result is Err ==> next.stage
            == SystemReleaseStage::Concluding,
        next.any_privilege <==> run.any_privilege || result is Ok,
        next.steps@.len() == run.steps@.len() + 1,
        next.steps@.last().step == match k {
            0 => SystemReleaseStep::EnableDebugPrivilege,
            1 => SystemReleaseStep::EnableIncreaseQuotaPrivilege,
            _ => SystemReleaseStep::EnableProfilePrivilege,
        },
        is_outcome(next.steps@.last().status, result),
        next.after == run.after,
{
}

/// How a step goes: it is asked for, recorded under its name with its outcome, waited for and
/// measured; a step that failed does not end the round.
pub proof fn steps_are_run_recorded_and_measured(
    run: SystemReleaseRun,
    reply: SystemReleaseReply,
    next: SystemReleaseRun,
)
    requires
        run.well_formed(),
        run.expects(reply),
        run.steps_to(reply, next),
    ensures
        run.stage == SystemReleaseStage::Running ==> {
            let step = run.plan@[run.position as int];
            &&& run.needs() == SystemReleaseAction::SetMemoryList(step.command()->0)
            &&& next.needs() == SystemReleaseAction::Pause(step_delay(step, run.round) as u64)
            &&& next.steps@.len() == run.steps@.len() + 1
            &&& next.steps@.drop_last() == run.steps@
            &&& next.steps@.last().step == step
            &&& reply matches SystemReleaseReply::Called(result)
            &&& is_outcome(next.steps@.last().status, result)
            &&& next.round_succeeded == (run.round_succeeded || result is Ok)
            &&& next.after == run.after
            &&& next.plan == run.plan
            &&& next.position == run.position
        },
        run.stage == SystemReleaseStage::Settling ==> {
            &&& next.needs() == SystemReleaseAction::ReadMemory
            &&& next.stage == SystemReleaseStage::Measuring
            &&& next.steps == run.steps
            &&& next.round_succeeded == run.round_succeeded
        },
{
}

/// What is measured counts: the memory last read is the outcome so far, and a reading that
/// failed leaves the one before.
pub proof fn last_reading_counts(
    run: SystemReleaseRun,
    memory: Option<MemorySnapshot>,
    next: SystemReleaseRun,
)
    requires
        run.well_formed(),
        run.expects(SystemReleaseReply::Memory(memory)),
        run.steps_to(SystemReleaseReply::Memory(memory), next),
    ensures
        memory matches Some(snapshot) ==> next.after == snapshot,
        memory is None ==> next.after == run.after,
        next.before == run.before,
        next.steps == run.steps,
        run.stage == SystemReleaseStage::Concluding ==> next.stage
            == SystemReleaseStage::Finished,
{
}

/// When a release stops: as soon as the target is met, after a round whose steps all failed,
/// after two rounds in a row that freed less than 64 MiB each, or after its last round. It
/// goes on otherwise, first with the rest of the round and then with the next one, which is
/// planned for the load just measured.
pub proof fn releases_stop_for_a_reason(
    run: SystemReleaseRun,
    memory: Option<MemorySnapshot>,
    next: SystemReleaseRun,
)
    requires
        run.well_formed(),
        run.stage == SystemReleaseStage::Measuring,
        run.steps_to(SystemReleaseReply::Memory(memory), next),
    ensures
        ({
            let met = next.after.memory_load_percent <= run.target_memory_load_percent;
            let last_step = run.position + 1 == run.plan@.len();
            let idle = next.after.available_physical < run.round_before_available + 67_108_864;
            &&& met ==> next.stage == SystemReleaseStage::Concluding
            &&& !met && !last_step ==> {
                &&& next.stage == SystemReleaseStage::Running
                &&& next.position == run.position + 1
                &&& next.round == run.round
                &&& next.plan == run.plan
                &&& next.round_before_available == run.round_before_available
                &&& next.round_succeeded == run.round_succeeded
                &&& next.stagnant_rounds == run.stagnant_rounds
            }
            &&& !met && last_step && !run.round_succeeded ==> next.stage
                == SystemReleaseStage::Concluding
            &&& !met && last_step && idle && run.stagnant_rounds == 1 ==> next.stage
                == SystemReleaseStage::Concluding
            &&& !met && last_step && run.round + 1 == run.rounds ==> next.stage
                == SystemReleaseStage::Concluding
            &&& !met && last_step && run.round_succeeded && run.round + 1 < run.rounds && (!idle
                || run.stagnant_rounds == 0) ==> {
                &&& next.stage == SystemReleaseStage::Running
                &&& next.round == run.round + 1
                &&& next.position == 0
                &&& idle ==> next.stagnant_rounds == run.stagnant_rounds + 1
                &&& !idle ==> next.stagnant_rounds == 0
                &&& next.round_before_available == next.after.available_physical
                &&& !next.round_succeeded
                &&& next.plan@ == plan(
                    next.after.memory_load_percent,
                    run.target_memory_load_percent,
                    next.round,
                )
            }
        }),
{
}

/// What a release reports is what happened: the memory at its start and at its end, every
/// step, and that the target was reached if, and only if, the load at the end is not above it.
/// A dry run reaches nothing, and no release closes a process.
pub proof fn release_reports_what_happened(
    run: SystemReleaseRun,
    report: SystemReleaseReport,
    duration_ms: u64,
)
    requires
        run.is_summed_up(report, duration_ms),
    ensures
        report.before == run.before,
        report.after == run.after,
        report.steps@ == run.steps@,
        report.failed_count == failures(run.steps@),
        report.duration_ms == duration_ms,
        report.dry_run == run.dry_run,
        run.dry_run ==> !report.target_reached,
        !run.dry_run ==> (report.target_reached <==> report.after.memory_load_percent
            <= run.target_memory_load_percent),
        report.target_memory_load_percent == run.target_memory_load_percent,
        report.termination_matched_count + report.termination_graceful_closed_count
            + report.termination_force_killed_count + report.termination_failed_count == 0,
{
}

/// How a release begins: with the memory as it is and the privilege to debug, and with at
/// least one round. A dry run is over at once and shows the privileges and the steps of the
/// first round, none of which is run.
pub proof fn releases_begin_with_a_privilege(
    run: SystemReleaseRun,
    dry_run: bool,
    target: u32,
    max_rounds: u32,
    before: MemorySnapshot,
)
    requires
        release_begins(run, dry_run, target, max_rounds, before),
    ensures
        run.before == before,
        run.after == before,
        run.target_memory_load_percent == target,
        !dry_run ==> {
            &&& run.needs() == SystemReleaseAction::EnablePrivilege(
                SystemReleaseStep::EnableDebugPrivilege,
            )
            &&& run.steps@.len() == 0
            &&& !run.any_privilege
            &&& max_rounds >= 1 ==> run.rounds == max_rounds
            &&& max_rounds == 0 ==> run.rounds == 1
        },
        dry_run ==> {
            let planned = plan(before.memory_load_percent, target, 0);
            &&& run.needs() == SystemReleaseAction::Done
            &&& run.steps@.len() == 3 + planned.len()
            &&& run.steps@[0].step == SystemReleaseStep::EnableDebugPrivilege
            &&& run.steps@[1].step == SystemReleaseStep::EnableIncreaseQuotaPrivilege
            &&& run.steps@[2].step == SystemReleaseStep::EnableProfilePrivilege
            &&& forall|i: int|
                0 <= i < planned.len() ==> (#[trigger] run.steps@[3 + i]).step == planned[i]
            &&& forall|i: int|
                0 <= i < run.steps@.len() ==> (#[trigger] run.steps@[i]).status
                    == SystemReleaseStepStatus::WouldRun
        },
{
}

/// Two releases taken together go from the start of the first to the end of the second, with
/// the steps of both in order and with counts that add up.
pub proof fn merging_adds_up(
    first: SystemReleaseReport,
    second: SystemReleaseReport,
    r: SystemReleaseReport,
    i: int,
)
    requires
        is_merged(first, second, r),
    ensures
        r.before == first.before,
        r.after == second.after,
        r.target_reached == second.target_reached,
        r.steps@.len() == first.steps@.len() + second.steps@.len(),
        0 <= i < first.steps@.len() ==> r.steps@[i] == first.steps@[i],
        0 <= i < second.steps@.len() ==> r.steps@[first.steps@.len() + i] == second.steps@[i],
        first.failed_count + second.failed_count <= usize::MAX ==> r.failed_count
            == first.failed_count + second.failed_count,
        first.termination_matched_count + second.termination_matched_count <= usize::MAX
            ==> r.termination_matched_count == first.termination_matched_count
            + second.termination_matched_count,
        first.termination_graceful_closed_count + second.termination_graceful_closed_count
            <= usize::MAX ==> r.termination_graceful_closed_count
            == first.termination_graceful_closed_count + second.termination_graceful_closed_count,
        first.termination_force_killed_count + second.termination_force_killed_count <= usize::MAX
            ==> r.termination_force_killed_count == first.termination_force_killed_count
            + second.termination_force_killed_count,
        first.termination_failed_count + second.termination_failed_count <= usize::MAX
            ==> r.termination_failed_count == first.termination_failed_count
            + second.termination_failed_count,
        r.duration_ms == second.duration_ms,
        r.dry_run == second.dry_run,
        r.target_memory_load_percent == second.target_memory_load_percent,
{
}

/// Closed processes are added to a release each under its own count; nothing else changes.
pub proof fn closed_processes_are_added(
    report: SystemReleaseReport,
    closed: ProcessReleaseReport,
    r: SystemReleaseReport,
)
    requires
        is_with_termination(report, closed, r),
    ensures
        report.termination_matched_count + closed.matched_count <= usize::MAX
            ==> r.termination_matched_count == report.termination_matched_count
            + closed.matched_count,
        report.termination_graceful_closed_count + closed.graceful_closed_count <= usize::MAX
            ==> r.termination_graceful_closed_count == report.termination_graceful_closed_count
            + closed.graceful_closed_count,
        report.termination_force_killed_count + closed.force_killed_count <= usize::MAX
            ==> r.termination_force_killed_count == report.termination_force_killed_count
            + closed.force_killed_count,
        report.termination_failed_count + closed.failed_count <= usize::MAX
            ==> r.termination_failed_count == report.termination_failed_count
            + closed.failed_count,
        r.before == report.before,
        r.after == report.after,
        r.steps == report.steps,
        r.failed_count == report.failed_count,
        r.target_reached == report.target_reached,
        r.target_memory_load_percent == report.target_memory_load_percent,
        r.duration_ms == report.duration_ms,
        r.dry_run == report.dry_run,
{
}

// ---------------------------------------------------------------------------
// What sessions do
// ---------------------------------------------------------------------------

/// A session starts with a release; nothing is known and nothing was closed before it.
pub proof fn sessions_start_with_a_release(session: SystemReleaseSession, dry_run: bool)
    requires
        session_begins(session, dry_run),
    ensures
        session.needs() == SessionAction::StartRelease,
        session.dry_run == dry_run,
        session.report is None,
        session.failure is None,
        session.sweep == 0,
{
}

/// Every release of a session aims at a memory load of 25 percent and starts from the memory
/// just read. The first may take twelve rounds, each later one six. Memory that could not be
/// read ends the session with that error, and what was reported so far is kept.
pub proof fn releases_aim_at_a_quarter(
    session: SystemReleaseSession,
    memory: Result<MemorySnapshot, MemSparkError>,
    next: SystemReleaseSession,
)
    requires
        session.well_formed(),
        session.phase is Starting,
        session.steps_to(SessionReply::Started(memory), next),
    ensures
        session.needs() == SessionAction::StartRelease,
        next.report == session.report,
        next.sweep == session.sweep,
        next.dry_run == session.dry_run,
        match memory {
            Ok(snapshot) => {
                &&& next.phase matches SessionPhase::Releasing(run)
                &&& run.target_memory_load_percent == 25
                &&& run.before == snapshot
                &&& run.after == snapshot
                &&& run.dry_run == session.dry_run
                &&& !session.dry_run && session.sweep == 0 ==> run.rounds == 12
                &&& !session.dry_run && session.sweep > 0 ==> run.rounds == 6
                &&& next.failure == session.failure
            },
            Err(error) => {
                &&& next.needs() == SessionAction::Done
                &&& next.outcome() == Err::<SystemReleaseReport, MemSparkError>(error)
            },
        },
{
}

/// A release within a session goes its own way until it is over, and is then timed.
pub proof fn releases_go_their_own_way(
    session: SystemReleaseSession,
    reply: SystemReleaseReply,
    next: SystemReleaseSession,
)
    requires
        session.well_formed(),
        session.phase is Releasing,
        session.steps_to(SessionReply::Released(reply), next),
    ensures
        ({
            let run = session.phase->Releasing_0;
            &&& run.stage == SystemReleaseStage::Finished ==> session.needs()
                == SessionAction::ReadElapsed
            &&& run.stage != SystemReleaseStage::Finished ==> session.needs()
                == SessionAction::Release(run.needs())
            &&& next.phase matches SessionPhase::Releasing(after)
            &&& run.steps_to(reply, after)
        }),
        next.report == session.report,
        next.sweep == session.sweep,
        next.swept_processes == session.swept_processes,
{
}

/// What follows a release. The session is over where the load is no longer above 25 percent,
/// in a dry run, after eight sweeps, and after a sweep that ended no process. Else processes
/// are closed, by force where needed, towards the same 25 percent; virtual machines are kept.
/// The report goes from the memory at the first start to the memory now.
pub proof fn processes_are_closed_while_the_load_is_high(
    session: SystemReleaseSession,
    duration_ms: u64,
    next: SystemReleaseSession,
)
    requires
        session.well_formed(),
        session.phase is Releasing,
        session.phase->Releasing_0.stage == SystemReleaseStage::Finished,
        session.steps_to(SessionReply::Elapsed(duration_ms), next),
    ensures
        ({
            let run = session.phase->Releasing_0;
            let met = !session.dry_run && run.after.memory_load_percent <= 25;
            let over = session.dry_run || met || session.sweep >= 8 || (session.sweep > 0
                && session.swept_processes == 0);
            &&& next.report matches Some(total)
            &&& total.after == run.after
            &&& total.target_reached == met
            &&& session.report is None ==> total.before == run.before
            &&& session.report matches Some(first) ==> total.before == first.before
            &&& session.report is None ==> total.steps@ == run.steps@
            &&& session.report matches Some(first) ==> total.steps@ == first.steps@ + run.steps@
            &&& total.duration_ms == duration_ms
            &&& session.report is None ==> total.termination_graceful_closed_count == 0
                && total.termination_force_killed_count == 0 && total.termination_matched_count
                == 0 && total.termination_failed_count == 0
            &&& session.report matches Some(first) ==> {
                &&& total.termination_graceful_closed_count
                    == first.termination_graceful_closed_count
                &&& total.termination_force_killed_count == first.termination_force_killed_count
                &&& total.termination_matched_count == first.termination_matched_count
                &&& total.termination_failed_count == first.termination_failed_count
            }
            &&& over ==> next.needs() == SessionAction::Done
            &&& over ==> next.sweep == session.sweep
            &&& !over ==> {
                &&& next.needs() == SessionAction::Close(ReleaseAction::ListProcesses)
                &&& next.sweep == session.sweep + 1
                &&& next.phase->Closing_0.target_memory_load_percent == Some(25u32)
                &&& next.phase->Closing_0.report.allow_force_kill
                &&& !next.phase->Closing_0.report.dry_run
                &&& next.phase->Closing_0.keep_vm_stack
                &&& next.phase->Closing_0.max_terminated_processes == usize::MAX
            }
        }),
{
    let run = session.phase->Releasing_0;
    let pass = choose|pass: SystemReleaseReport| #[trigger]
        run.is_summed_up(pass, duration_ms) && session.concludes(next, pass);
    assert(session.concludes(next, pass));
}

/// Closing processes within a session goes its own way. Once it is over, what it closed is
/// added to the report and a release follows, or, where it ended in an error, the session is
/// over with that error.
pub proof fn closing_is_followed_by_a_release(
    session: SystemReleaseSession,
    reply: ReleaseReply,
    next: SystemReleaseSession,
)
    requires
        session.well_formed(),
        session.phase is Closing,
        session.steps_to(SessionReply::Closed(reply), next),
    ensures
        session.needs() == SessionAction::Close(session.phase->Closing_0.needs()),
        exists|after: ProcessReleaseRun| #[trigger]
            session.phase->Closing_0.steps(reply, after) && {
                &&& after.stage != ReleaseStage::Finished ==> {
                    &&& next.phase == SessionPhase::Closing(after)
                    &&& next.report == session.report
                }
                &&& after.stage == ReleaseStage::Finished ==> {
                    &&& is_with_termination(session.report->0, after.report, next.report->0)
                    &&& after.failure is None ==> next.needs() == SessionAction::StartRelease
                    &&& after.failure is None ==> next.swept_processes
                        == after.report.graceful_closed_count + after.report.force_killed_count
                    &&& after.failure matches Some(error) ==> {
                        &&& next.needs() == SessionAction::Done
                        &&& next.outcome() == Err::<SystemReleaseReport, MemSparkError>(error)
                    }
                }
            },
        next.sweep == session.sweep,
{
    let run = session.phase->Closing_0;
    let after = choose|after: ProcessReleaseRun| #[trigger]
        run.steps(reply, after) && after.well_formed() && session.goes_on_closing(next, after);
    assert(run.steps(reply, after));
    termination::terminated_fits(after.report);
}

/// A session that came to its end gives its report; one that an error ended gives the error.
pub proof fn sessions_give_what_they_came_to(session: SystemReleaseSession)
    requires
        session.well_formed(),
        session.phase is Finished,
    ensures
        session.failure is None ==> session.outcome() is Ok && session.outcome()->Ok_0
            == session.report->0 && session.report is Some,
        session.failure matches Some(error) ==> session.outcome() == Err::<
            SystemReleaseReport,
            MemSparkError,
        >(error),
{
}

/// A recorded step stands behind those before it, with what it came to; one and no more.
pub proof fn steps_are_recorded_once(
    run: SystemReleaseRun,
    next: SystemReleaseRun,
    step: SystemReleaseStep,
    result: Result<(), WinApiError>,
)
    requires
        run.records(next, step, result),
    ensures
        next.steps@ == run.steps@.push(next.steps@.last()),
        next.steps@.last().step == step,
        result is Ok <==> next.steps@.last().status is Succeeded,
{
    assert(next.steps@ =~= next.steps@.drop_last().push(next.steps@.last()));
}

} // verus!
