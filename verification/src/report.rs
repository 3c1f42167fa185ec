//! The report of an optimization: what it holds, and the files that reports are kept in.

use crate::memory::{byte_difference, MemorySnapshot};
use crate::order;
use crate::order::LabelCount;
use crate::policy::{OptimizeMode, TrimStatus};
use crate::process::clone_text;
use crate::text;
use vstd::prelude::*;

verus! {

/// What happened to one process.
#[derive(Debug)]
pub struct TrimResult {
    pub pid: u32,
    pub name: String,
    pub before_working_set: u64,
    pub after_working_set: Option<u64>,
    pub status: TrimStatus,
}

impl Clone for TrimResult {
    fn clone(&self) -> (r: TrimResult)
        ensures
            r == *self,
    {
        TrimResult {
            pid: self.pid,
            name: self.name.clone(),
            before_working_set: self.before_working_set,
            after_working_set: self.after_working_set,
            status: self.status.clone(),
        }
    }
}

/// What an optimization achieved; sizes are in bytes.
#[derive(Debug)]
pub struct CleanupEffectSummary {
    pub before_physical_used_bytes: u64,
    pub after_physical_used_bytes: u64,
    pub before_available_bytes: u64,
    pub after_available_bytes: u64,
    pub available_delta_bytes: i64,
    pub process_trim_delta_bytes: u64,
    pub standby_cleanup_delta_bytes: Option<i64>,
    pub system_cleanup_executed: bool,
    pub system_cleanup_skipped_reason: Option<String>,
    pub working_set_rounds: u32,
}

impl Clone for CleanupEffectSummary {
    fn clone(&self) -> (r: CleanupEffectSummary)
        ensures
            r == *self,
    {
        CleanupEffectSummary {
            before_physical_used_bytes: self.before_physical_used_bytes,
            after_physical_used_bytes: self.after_physical_used_bytes,
            before_available_bytes: self.before_available_bytes,
            after_available_bytes: self.after_available_bytes,
            available_delta_bytes: self.available_delta_bytes,
            process_trim_delta_bytes: self.process_trim_delta_bytes,
            standby_cleanup_delta_bytes: self.standby_cleanup_delta_bytes,
            system_cleanup_executed: self.system_cleanup_executed,
            system_cleanup_skipped_reason: clone_text(&self.system_cleanup_skipped_reason),
            working_set_rounds: self.working_set_rounds,
        }
    }
}

impl Default for CleanupEffectSummary {
    fn default() -> (r: CleanupEffectSummary)
        ensures
            r.before_physical_used_bytes == 0,
            r.after_physical_used_bytes == 0,
            r.before_available_bytes == 0,
            r.after_available_bytes == 0,
            r.available_delta_bytes == 0,
            r.process_trim_delta_bytes == 0,
            r.standby_cleanup_delta_bytes is None,
            !r.system_cleanup_executed,
            r.system_cleanup_skipped_reason is None,
            r.working_set_rounds == 0,
    {
        CleanupEffectSummary {
            before_physical_used_bytes: 0,
            after_physical_used_bytes: 0,
            before_available_bytes: 0,
            after_available_bytes: 0,
            available_delta_bytes: 0,
            process_trim_delta_bytes: 0,
            standby_cleanup_delta_bytes: None,
            system_cleanup_executed: false,
            system_cleanup_skipped_reason: None,
            working_set_rounds: 0,
        }
    }
}

/// The report of one optimization.
#[derive(Debug)]
pub struct OptimizeReport {
    pub mode: OptimizeMode,
    pub dry_run: bool,
    pub timestamp_unix: u64,
    pub duration_ms: u64,
    pub before: MemorySnapshot,
    pub after: MemorySnapshot,
    pub scanned_count: usize,
    pub trimmed_count: usize,
    pub skipped_count: usize,
    pub failed_count: usize,
    pub effect: CleanupEffectSummary,
    pub results: Vec<TrimResult>,
}

/// The texts of the reasons for which processes were left alone, in the order of the results.
pub open spec fn skip_labels(results: Seq<TrimResult>) -> Seq<Seq<char>>
    decreases results.len(),
{
    if results.len() == 0 {
        Seq::empty()
    } else {
        match results.last().status {
            TrimStatus::Skipped(reason) => skip_labels(results.drop_last()).push(
                reason.described(),
            ),
            _ => skip_labels(results.drop_last()),
        }
    }
}

/// The messages with which trims failed, in the order of the results.
pub open spec fn failure_labels(results: Seq<TrimResult>) -> Seq<Seq<char>>
    decreases results.len(),
{
    if results.len() == 0 {
        Seq::empty()
    } else {
        match results.last().status {
            TrimStatus::Failed(message) => failure_labels(results.drop_last()).push(message@),
            _ => failure_labels(results.drop_last()),
        }
    }
}

impl OptimizeReport {
    /// The growth of available memory, in bytes.
    pub open spec fn increase(self) -> int {
        crate::memory::signed_difference(
            self.after.available_physical,
            self.before.available_physical,
        )
    }

    /// By how much the available memory has grown, in bytes.
    pub fn available_increase(&self) -> (r: i64)
        ensures
            r == self.increase(),
    {
        byte_difference(self.after.available_physical, self.before.available_physical)
    }

    /// Counts the reasons for which processes were left alone.
    pub fn skip_reason_counts(&self) -> (r: Vec<LabelCount>)
        ensures
            order::is_tally(r@, skip_labels(self.results@)),
    {
        let mut labels: Vec<String> = Vec::new();
        let mut i: usize = 0;
        while i < self.results.len()
            invariant
                i <= self.results@.len(),
                text::views(labels@) == skip_labels(self.results@.take(i as int)),
            decreases self.results@.len() - i,
        {
            assert(self.results@.take(i + 1).drop_last() =~= self.results@.take(i as int));
            if let TrimStatus::Skipped(reason) = &self.results[i].status {
                labels.push(reason.to_text());
            }
            i = i + 1;
            assert(text::views(labels@) =~= skip_labels(self.results@.take(i as int)));
        }
        assert(self.results@.take(i as int) =~= self.results@);
        order::tally(&labels)
    }

    /// Counts the messages with which trims failed.
    pub fn failed_reason_counts(&self) -> (r: Vec<LabelCount>)
        ensures
            order::is_tally(r@, failure_labels(self.results@)),
    {
        let mut labels: Vec<String> = Vec::new();
        let mut i: usize = 0;
        while i < self.results.len()
            invariant
                i <= self.results@.len(),
                text::views(labels@) == failure_labels(self.results@.take(i as int)),
            decreases self.results@.len() - i,
        {
            assert(self.results@.take(i + 1).drop_last() =~= self.results@.take(i as int));
            if let TrimStatus::Failed(message) = &self.results[i].status {
                labels.push(message.clone());
            }
            i = i + 1;
            assert(text::views(labels@) =~= failure_labels(self.results@.take(i as int)));
        }
        assert(self.results@.take(i as int) =~= self.results@);
        order::tally(&labels)
    }
}

/// Every process that was left alone counts under the text of its reason, and every failure
/// under its message; nothing else counts.
pub proof fn reasons_and_failures_are_gathered(results: Seq<TrimResult>, result: TrimResult)
    ensures
        skip_labels(Seq::empty()) == Seq::<Seq<char>>::empty(),
        failure_labels(Seq::empty()) == Seq::<Seq<char>>::empty(),
        result.status matches TrimStatus::Skipped(reason) ==> skip_labels(results.push(result))
            == skip_labels(results).push(reason.described()),
        !(result.status is Skipped) ==> skip_labels(results.push(result)) == skip_labels(results),
        result.status matches TrimStatus::Failed(message) ==> failure_labels(results.push(result))
            == failure_labels(results).push(message@),
        !(result.status is Failed) ==> failure_labels(results.push(result)) == failure_labels(
            results,
        ),
{
    assert(results.push(result).drop_last() =~= results);
}

/// Available memory that has grown counts as an increase, and memory that has shrunk as a
/// decrease, by what there is more or less of it.
pub proof fn growth_is_an_increase(report: OptimizeReport)
    requires
        report.before.available_physical <= i64::MAX,
        report.after.available_physical <= i64::MAX,
    ensures
        report.increase() == report.after.available_physical - report.before.available_physical,
        report.increase() > 0 <==> report.after.available_physical
            > report.before.available_physical,
{
}

} // verus!
