//! The texts made from a report.

use crate::double;
use crate::memory::{load_text, load_within_target, MemorySnapshot};
use crate::order;
use crate::order::LabelCount;
use crate::policy::{SkipReason, TrimStatus};
use crate::report;
use crate::report::{OptimizeReport, TrimResult};
use crate::text;
use vstd::prelude::*;

verus! {

// ---------------------------------------------------------------------------
// Sizes and durations
// ---------------------------------------------------------------------------

/// A size in gibibytes, with one decimal.
pub open spec fn gb(bytes: nat) -> Seq<char> {
    text::tenths(double::rounded(10 * double::double_of(bytes), double::GIB as nat)) + " GB"@
}

/// Writes a size in gibibytes, with one decimal.
pub fn format_gb(bytes: u64) -> (r: String)
    ensures
        r@ == gb(bytes as nat),
{
    let size: u128 = double::round_to_double(bytes as u128);
    let mut r: String = text::tenths_text(double::round_quotient(10 * size, double::GIB));
    r.append(" GB");
    r
}

/// A size in whole mebibytes.
pub open spec fn mb(bytes: nat) -> Seq<char> {
    text::decimal(double::rounded(double::double_of(bytes), double::MIB as nat)) + " MB"@
}

/// Writes a size in whole mebibytes.
pub fn format_mb(bytes: u64) -> (r: String)
    ensures
        r@ == mb(bytes as nat),
{
    let size: u128 = double::round_to_double(bytes as u128);
    let mut r: String = text::decimal_text(double::round_quotient(size, double::MIB));
    r.append(" MB");
    r
}

/// The size of a working set.
pub open spec fn working_set(bytes: nat) -> Seq<char> {
    if bytes == 0 {
        "0 MB"@
    } else if bytes < 1048576 {
        "<1 MB"@
    } else {
        mb(bytes)
    }
}

/// Writes the size of a working set.
pub fn format_working_set(bytes: u64) -> (r: String)
    ensures
        r@ == working_set(bytes as nat),
{
    if bytes == 0 {
        "0 MB".to_owned()
    } else if bytes < 1048576 {
        "<1 MB".to_owned()
    } else {
        format_mb(bytes)
    }
}

/// The size of a working set that may be unknown.
pub open spec fn optional_working_set(bytes: Option<u64>) -> Seq<char> {
    match bytes {
        Some(bytes) => working_set(bytes as nat),
        None => "unknown"@,
    }
}

/// Writes the size of a working set that may be unknown.
pub fn format_optional_working_set(bytes: Option<u64>) -> (r: String)
    ensures
        r@ == optional_working_set(bytes),
{
    match bytes {
        Some(bytes) => format_working_set(bytes),
        None => "unknown".to_owned(),
    }
}

/// A number without its sign.
pub open spec fn magnitude(n: int) -> nat {
    if n >= 0 {
        n as nat
    } else {
        (-n) as nat
    }
}

/// Takes the sign off a number.
pub fn absolute(n: i64) -> (r: u64)
    ensures
        r == magnitude(n as int),
{
    if n >= 0 {
        n as u64
    } else {
        let wide: i128 = -(n as i128);
        wide as u64
    }
}

/// A change of size, with its sign.
pub open spec fn signed_bytes(bytes: int) -> Seq<char> {
    (if bytes >= 0 {
        "+"@
    } else {
        "-"@
    }) + gb(magnitude(bytes))
}

/// Writes a change of size, with its sign.
pub fn format_signed_bytes(bytes: i64) -> (r: String)
    ensures
        r@ == signed_bytes(bytes as int),
{
    let mut r: String = if bytes >= 0 {
        "+".to_owned()
    } else {
        "-".to_owned()
    };
    r.append(format_gb(absolute(bytes)).as_str());
    r
}

/// A duration in seconds, with two decimals.
pub open spec fn seconds(duration_ms: nat) -> Seq<char> {
    let quotient = double::double_quotient(double::double_of(duration_ms), 1000);
    text::hundredths(double::rounded(100 * quotient.0, quotient.1))
}

/// Writes a duration in seconds, with two decimals.
pub fn format_seconds(duration_ms: u64) -> (r: String)
    ensures
        r@ == seconds(duration_ms as nat),
{
    let size: u128 = double::round_to_double(duration_ms as u128);
    let quotient: (u128, u128) = double::divide_to_double(size, 1000);
    text::hundredths_text(double::round_quotient(100 * quotient.0, quotient.1))
}

/// The word for a truth value.
pub open spec fn truth(value: bool) -> Seq<char> {
    if value {
        "true"@
    } else {
        "false"@
    }
}

/// Gives the word for a truth value.
pub fn truth_word(value: bool) -> (r: &'static str)
    ensures
        r@ == truth(value),
{
    if value {
        "true"
    } else {
        "false"
    }
}

// ---------------------------------------------------------------------------
// Parts of a report
// ---------------------------------------------------------------------------

/// The lines for a snapshot.
pub open spec fn snapshot_lines(snapshot: MemorySnapshot) -> Seq<char> {
    "Physical Used: "@ + gb(snapshot.used()) + " / "@ + gb(snapshot.total_physical as nat) + " ("@
        + snapshot.load_tenths() + "%)\nAvailable:     "@ + gb(snapshot.available_physical as nat)
        + "\nSystem Cache:  "@ + gb(snapshot.system_cache as nat) + "\nCommit:        "@ + gb(
        snapshot.commit_total as nat,
    ) + " / "@ + gb(snapshot.commit_limit as nat) + "\nProcesses:     "@ + text::decimal(
        snapshot.process_count as nat,
    ) + "\n"@
}

/// Writes the lines for a snapshot.
pub fn format_snapshot(snapshot: &MemorySnapshot) -> (r: String)
    ensures
        r@ == snapshot_lines(*snapshot),
{
    let mut r: String = "Physical Used: ".to_owned();
    r.append(format_gb(snapshot.used_physical()).as_str());
    r.append(" / ");
    r.append(format_gb(snapshot.total_physical).as_str());
    r.append(" (");
    r.append(load_text(snapshot).as_str());
    r.append("%)\nAvailable:     ");
    r.append(format_gb(snapshot.available_physical).as_str());
    r.append("\nSystem Cache:  ");
    r.append(format_gb(snapshot.system_cache).as_str());
    r.append("\nCommit:        ");
    r.append(format_gb(snapshot.commit_total).as_str());
    r.append(" / ");
    r.append(format_gb(snapshot.commit_limit).as_str());
    r.append("\nProcesses:     ");
    r.append(text::decimal_text(snapshot.process_count as u128).as_str());
    r.append("\n");
    r
}

/// Whether an optimization met its target. A dry run does not.
pub open spec fn met_target(report: OptimizeReport) -> bool {
    !report.dry_run && report.after.within_target()
}

/// Tells whether an optimization met its target.
pub fn target_reached(report: &OptimizeReport) -> (r: bool)
    ensures
        r == met_target(*report),
{
    !report.dry_run && load_within_target(&report.after)
}

/// The word for whether the target was met.
pub open spec fn target_word(report: OptimizeReport) -> Seq<char> {
    if met_target(report) {
        "reached"@
    } else {
        "not reached"@
    }
}

/// Gives the word for whether the target was met.
pub fn target_text(report: &OptimizeReport) -> (r: &'static str)
    ensures
        r@ == target_word(*report),
{
    if target_reached(report) {
        "reached"
    } else {
        "not reached"
    }
}

/// The word for what the release of system memory came to.
pub open spec fn release_word(report: OptimizeReport) -> Seq<char> {
    if report.dry_run {
        "preview"@
    } else if report.effect.system_cleanup_executed {
        "released"@
    } else if report.effect.system_cleanup_skipped_reason is Some {
        "checked"@
    } else {
        "no visible change"@
    }
}

/// Gives the word for what the release of system memory came to.
pub fn system_release_value_text(report: &OptimizeReport) -> (r: &'static str)
    ensures
        r@ == release_word(*report),
{
    if report.dry_run {
        "preview"
    } else if report.effect.system_cleanup_executed {
        "released"
    } else if report.effect.system_cleanup_skipped_reason.is_some() {
        "checked"
    } else {
        "no visible change"
    }
}

/// The number of rounds shown: at least one.
pub open spec fn rounds_shown(report: OptimizeReport) -> nat {
    if report.effect.working_set_rounds >= 1 {
        report.effect.working_set_rounds as nat
    } else {
        1
    }
}

/// Gives the number of rounds shown.
pub fn shown_rounds(report: &OptimizeReport) -> (r: u32)
    ensures
        r == rounds_shown(*report),
{
    if report.effect.working_set_rounds >= 1 {
        report.effect.working_set_rounds
    } else {
        1
    }
}

// ---------------------------------------------------------------------------
// The processes that shrank most
// ---------------------------------------------------------------------------

/// The results of processes that were trimmed.
pub open spec fn trimmed_rows(results: Seq<TrimResult>) -> Seq<TrimResult>
    decreases results.len(),
{
    if results.len() == 0 {
        Seq::empty()
    } else if results.last().status is Trimmed {
        trimmed_rows(results.drop_last()).push(results.last())
    } else {
        trimmed_rows(results.drop_last())
    }
}

/// By how much a working set shrank; unknown and negative changes count as none.
pub open spec fn shrinkage(result: TrimResult) -> u128 {
    match result.after_working_set {
        Some(after) => if after <= result.before_working_set {
            (result.before_working_set - after) as u128
        } else {
            0
        },
        None => 0,
    }
}

/// The sort keys of results.
pub open spec fn shrinkage_keys(rows: Seq<TrimResult>) -> Seq<u128> {
    rows.map_values(|r: TrimResult| shrinkage(r))
}

/// The trimmed processes by descending shrinkage.
pub open spec fn by_shrinkage(results: Seq<TrimResult>) -> Seq<TrimResult> {
    order::rearranged(
        trimmed_rows(results),
        choose|o: Seq<usize>|
            order::is_descending_order(o, shrinkage_keys(trimmed_rows(results))),
    )
}

/// The first `limit` of the trimmed processes by descending shrinkage.
pub open spec fn top_rows(results: Seq<TrimResult>, limit: nat) -> Seq<TrimResult> {
    if by_shrinkage(results).len() <= limit {
        by_shrinkage(results)
    } else {
        by_shrinkage(results).take(limit as int)
    }
}

/// Picks the `limit` trimmed processes that shrank most.
pub fn top_trimmed(report: &OptimizeReport, limit: usize) -> (r: Vec<TrimResult>)
    ensures
        r@ == top_rows(report.results@, limit as nat),
{
    let mut rows: Vec<TrimResult> = Vec::new();
    let mut keys: Vec<u128> = Vec::new();
    let mut i: usize = 0;
    while i < report.results.len()
        invariant
            i <= report.results@.len(),
            rows@ == trimmed_rows(report.results@.take(i as int)),
            keys@ == shrinkage_keys(rows@),
        decreases report.results@.len() - i,
    {
        assert(report.results@.take(i + 1).drop_last() =~= report.results@.take(i as int));
        let result: &TrimResult = &report.results[i];
        if matches!(&result.status, TrimStatus::Trimmed) {
            let shrank: u64 = match result.after_working_set {
                Some(after) => result.before_working_set.saturating_sub(after),
                None => 0,
            };
            rows.push(result.clone());
            keys.push(shrank as u128);
            assert(keys@ =~= shrinkage_keys(rows@));
        }
        i = i + 1;
    }
    assert(report.results@.take(i as int) =~= report.results@);
    let order: Vec<usize> = order::descending_order(&keys);
    proof {
        let picked = choose|o: Seq<usize>| order::is_descending_order(o, shrinkage_keys(rows@));
        order::descending_order_unique(order@, picked, shrinkage_keys(rows@));
    }
    let ghost all = order::rearranged(rows@, order@);
    let mut top: Vec<TrimResult> = Vec::new();
    let mut k: usize = 0;
    while k < order.len() && k < limit
        invariant
            k <= order@.len(),
            k <= limit,
            order@.len() == rows@.len(),
            all == order::rearranged(rows@, order@),
            order::is_descending_order(order@, shrinkage_keys(rows@)),
            top@ == all.take(k as int),
        decreases order@.len() - k,
    {
        top.push(rows[order[k]].clone());
        k = k + 1;
        assert(top@ =~= all.take(k as int));
    }
    assert(top@ =~= top_rows(report.results@, limit as nat));
    top
}

/// The line for a trimmed process.
pub open spec fn row_line(row: TrimResult) -> Seq<char> {
    text::left_aligned(row.name@, 24) + " "@ + text::right_aligned(
        working_set(row.before_working_set as nat),
        8,
    ) + " -> "@ + text::right_aligned(optional_working_set(row.after_working_set), 8) + "\n"@
}

/// Writes the line for a trimmed process.
fn row_text(row: &TrimResult) -> (r: String)
    ensures
        r@ == row_line(*row),
{
    let mut r: String = String::new();
    text::push_left_aligned(&mut r, row.name.as_str(), 24);
    assert(r@ =~= text::left_aligned(row.name@, 24));
    r.append(" ");
    text::push_right_aligned(&mut r, format_working_set(row.before_working_set).as_str(), 8);
    r.append(" -> ");
    text::push_right_aligned(
        &mut r,
        format_optional_working_set(row.after_working_set).as_str(),
        8,
    );
    r.append("\n");
    r
}

/// The lines for trimmed processes.
pub open spec fn row_lines(rows: Seq<TrimResult>) -> Seq<char>
    decreases rows.len(),
{
    if rows.len() == 0 {
        Seq::empty()
    } else {
        row_lines(rows.drop_last()) + row_line(rows.last())
    }
}

/// The lines for the processes that shrank most.
pub open spec fn top_lines(report: OptimizeReport) -> Seq<char> {
    let rows = top_rows(report.results@, 10);
    if rows.len() == 0 {
        "(none)\n"@
    } else {
        row_lines(rows)
    }
}

/// Writes the lines for the processes that shrank most.
fn top_text(report: &OptimizeReport) -> (r: String)
    ensures
        r@ == top_lines(*report),
{
    let rows: Vec<TrimResult> = top_trimmed(report, 10);
    if rows.len() == 0 {
        return "(none)\n".to_owned();
    }
    let mut r: String = String::new();
    let mut i: usize = 0;
    while i < rows.len()
        invariant
            i <= rows@.len(),
            r@ == row_lines(rows@.take(i as int)),
        decreases rows@.len() - i,
    {
        assert(rows@.take(i + 1).drop_last() =~= rows@.take(i as int));
        r.append(row_text(&rows[i]).as_str());
        i = i + 1;
    }
    assert(rows@.take(i as int) =~= rows@);
    r
}

// ---------------------------------------------------------------------------
// The report
// ---------------------------------------------------------------------------

/// The opening lines of a report.
pub open spec fn opening(report: OptimizeReport) -> Seq<char> {
    "MemSpark Report\n"@ + "Target: memory load <= 25% ("@ + target_word(report) + ")\n"@
        + "Final memory load: "@ + report.after.load_tenths() + "%\n"@ + "Duration: "@ + seconds(
        report.duration_ms as nat,
    ) + "s\n\n"@ + "Before:\n"@ + snapshot_lines(report.before) + "\n"@ + "After:\n"@
        + snapshot_lines(report.after) + "\n"@
}

/// Writes the opening lines of a report.
fn opening_text(report: &OptimizeReport) -> (r: String)
    ensures
        r@ == opening(*report),
{
    let mut r: String = "MemSpark Report\n".to_owned();
    r.append("Target: memory load <= 25% (");
    r.append(target_text(report));
    r.append(")\n");
    r.append("Final memory load: ");
    r.append(load_text(&report.after).as_str());
    r.append("%\n");
    r.append("Duration: ");
    r.append(format_seconds(report.duration_ms).as_str());
    r.append("s\n\n");
    r.append("Before:\n");
    r.append(format_snapshot(&report.before).as_str());
    r.append("\n");
    r.append("After:\n");
    r.append(format_snapshot(&report.after).as_str());
    r.append("\n");
    r
}

/// The lines for the result.
pub open spec fn result_lines(report: OptimizeReport) -> Seq<char> {
    "Result:\n"@ + "Available change:    "@ + signed_bytes(report.increase()) + "\n"@
        + "Working-set handled: "@ + text::decimal(report.trimmed_count as nat) + " / "@
        + text::decimal(report.scanned_count as nat) + "\n"@ + "Kept/skipped:        "@
        + text::decimal(report.skipped_count as nat) + "\n"@ + "Failed:              "@
        + text::decimal(report.failed_count as nat) + "\n"@ + "System release:      "@
        + release_word(report) + "\n\n"@
}

/// Writes the lines for the result.
fn result_text(report: &OptimizeReport) -> (r: String)
    ensures
        r@ == result_lines(*report),
{
    let mut r: String = "Result:\n".to_owned();
    r.append("Available change:    ");
    r.append(format_signed_bytes(report.available_increase()).as_str());
    r.append("\n");
    r.append("Working-set handled: ");
    r.append(text::decimal_text(report.trimmed_count as u128).as_str());
    r.append(" / ");
    r.append(text::decimal_text(report.scanned_count as u128).as_str());
    r.append("\n");
    r.append("Kept/skipped:        ");
    r.append(text::decimal_text(report.skipped_count as u128).as_str());
    r.append("\n");
    r.append("Failed:              ");
    r.append(text::decimal_text(report.failed_count as u128).as_str());
    r.append("\n");
    r.append("System release:      ");
    r.append(system_release_value_text(report));
    r.append("\n\n");
    r
}

/// Changes below this, in bytes, are explained.
pub const SMALL_EFFECT_BYTES: u64 = 268_435_456;

/// The explanation of a small effect.
pub open spec fn small_effect_lines(report: OptimizeReport) -> Seq<char> {
    if magnitude(report.increase()) < SMALL_EFFECT_BYTES {
        "Small-effect explanation:\n1. Most background processes may already have low working sets.\n2. Foreground, system boundary, or threshold rules may have skipped processes.\n3. System-level standby list cleanup may be disabled.\n4. Windows may keep pages in standby/cache state after process trimming.\n"@
    } else {
        ""@
    }
}

/// The lines for the effect.
pub open spec fn effect_lines(report: OptimizeReport) -> Seq<char> {
    "Effect summary:\n"@ + "Working-set rounds:  "@ + text::decimal(rounds_shown(report)) + "\n"@
        + "Working-set estimate: "@ + gb(report.effect.process_trim_delta_bytes as nat) + "\n"@
        + "System cleanup:      "@ + (if report.effect.system_cleanup_executed {
        "executed"@
    } else {
        "skipped"@
    }) + "\n"@ + (match report.effect.standby_cleanup_delta_bytes {
        Some(delta) => "System cleanup delta: "@ + signed_bytes(delta as int) + "\n"@,
        None => ""@,
    }) + (match report.effect.system_cleanup_skipped_reason {
        Some(reason) => "System cleanup reason: "@ + reason@ + "\n"@,
        None => ""@,
    }) + small_effect_lines(report) + "\n"@
}

/// Writes the lines for the effect.
fn effect_text(report: &OptimizeReport) -> (r: String)
    ensures
        r@ == effect_lines(*report),
{
    let mut r: String = "Effect summary:\n".to_owned();
    r.append("Working-set rounds:  ");
    r.append(text::decimal_text(shown_rounds(report) as u128).as_str());
    r.append("\n");
    r.append("Working-set estimate: ");
    r.append(format_gb(report.effect.process_trim_delta_bytes).as_str());
    r.append("\n");
    r.append("System cleanup:      ");
    r.append(
        if report.effect.system_cleanup_executed {
            "executed"
        } else {
            "skipped"
        },
    );
    r.append("\n");
    let delta_line: String = match report.effect.standby_cleanup_delta_bytes {
        Some(delta) => {
            let mut line: String = "System cleanup delta: ".to_owned();
            line.append(format_signed_bytes(delta).as_str());
            line.append("\n");
            line
        },
        None => "".to_owned(),
    };
    r.append(delta_line.as_str());
    let reason_line: String = match &report.effect.system_cleanup_skipped_reason {
        Some(reason) => {
            let mut line: String = "System cleanup reason: ".to_owned();
            line.append(reason.as_str());
            line.append("\n");
            line
        },
        None => "".to_owned(),
    };
    r.append(reason_line.as_str());
    r.append(
        if absolute(report.available_increase()) < SMALL_EFFECT_BYTES {
            "Small-effect explanation:\n1. Most background processes may already have low working sets.\n2. Foreground, system boundary, or threshold rules may have skipped processes.\n3. System-level standby list cleanup may be disabled.\n4. Windows may keep pages in standby/cache state after process trimming.\n"
        } else {
            ""
        },
    );
    r.append("\n");
    r
}

/// The text of a report on an optimization that was carried out.
pub open spec fn full_text(report: OptimizeReport) -> Seq<char> {
    opening(report) + result_lines(report) + effect_lines(report) + "Top handled processes:\n"@
        + top_lines(report)
}

// ---------------------------------------------------------------------------
// The preview
// ---------------------------------------------------------------------------

/// The line for a process that would be trimmed.
pub open spec fn preview_line(row: TrimResult) -> Seq<char> {
    text::left_aligned(row.name@, 24) + " "@ + text::right_aligned(
        working_set(row.before_working_set as nat),
        8,
    ) + "    reason: background large working set\n"@
}

/// The lines for the processes that would be trimmed.
pub open spec fn preview_lines(results: Seq<TrimResult>) -> Seq<char>
    decreases results.len(),
{
    if results.len() == 0 {
        ""@
    } else if results.last().status is WouldTrim {
        preview_lines(results.drop_last()) + preview_line(results.last())
    } else {
        preview_lines(results.drop_last())
    }
}

/// Writes the line for a process that would be trimmed.
fn preview_row_text(row: &TrimResult) -> (r: String)
    ensures
        r@ == preview_line(*row),
{
    let mut r: String = String::new();
    text::push_left_aligned(&mut r, row.name.as_str(), 24);
    assert(r@ =~= text::left_aligned(row.name@, 24));
    r.append(" ");
    text::push_right_aligned(&mut r, format_working_set(row.before_working_set).as_str(), 8);
    r.append("    reason: background large working set\n");
    r
}

/// The line for a process that was left alone.
pub open spec fn skip_line(row: TrimResult, reason: SkipReason) -> Seq<char> {
    text::left_aligned(row.name@, 24) + " reason: "@ + reason.described() + "\n"@
}

/// The lines for the processes that were left alone.
pub open spec fn skip_lines(results: Seq<TrimResult>) -> Seq<char>
    decreases results.len(),
{
    if results.len() == 0 {
        ""@
    } else {
        match results.last().status {
            TrimStatus::Skipped(reason) => skip_lines(results.drop_last()) + skip_line(
                results.last(),
                reason,
            ),
            _ => skip_lines(results.drop_last()),
        }
    }
}

/// Writes the line for a process that was left alone.
fn skip_row_text(row: &TrimResult, reason: &SkipReason) -> (r: String)
    ensures
        r@ == skip_line(*row, *reason),
{
    let mut r: String = String::new();
    text::push_left_aligned(&mut r, row.name.as_str(), 24);
    assert(r@ =~= text::left_aligned(row.name@, 24));
    r.append(" reason: ");
    r.append(reason.to_text().as_str());
    r.append("\n");
    r
}

/// Where a reason stands in the summary of a preview.
pub open spec fn summary_place(reason: SkipReason) -> int {
    match reason {
        SkipReason::SystemProcess => 0,
        SkipReason::SystemBoundaryProcess => 1,
        SkipReason::LegacyRecommendedRule => 2,
        SkipReason::LegacyUserRule => 3,
        SkipReason::WorkingSetTooSmall => 4,
        SkipReason::QueryFailed => 5,
        SkipReason::ForegroundProcess => 6,
        SkipReason::SelfProcess => 7,
        SkipReason::AccessDenied => 8,
        SkipReason::OpenProcessFailed => 9,
        SkipReason::ProcessExited => 10,
        SkipReason::HighCpuUsage => 11,
        SkipReason::HighIoActivity => 12,
        SkipReason::Other(_) => 13,
    }
}

/// The labels in the summary of a preview.
pub open spec fn summary_labels() -> Seq<Seq<char>> {
    seq![
        "System process:"@,
        "System boundary:"@,
        "Legacy recommended rule:"@,
        "Legacy user rule:"@,
        "Working set too small:"@,
        "Process query failed:"@,
        "Foreground process:"@,
        "Self process:"@,
        "Access denied:"@,
        "OpenProcess failed:"@,
        "Process exited:"@,
        "High CPU usage:"@,
        "High I/O activity:"@,
        "Other:"@,
    ]
}

/// Gives the place of a reason in the summary of a preview.
fn place_of(reason: &SkipReason) -> (r: usize)
    ensures
        r == summary_place(*reason),
        r < 14,
{
    match reason {
        SkipReason::SystemProcess => 0,
        SkipReason::SystemBoundaryProcess => 1,
        SkipReason::LegacyRecommendedRule => 2,
        SkipReason::LegacyUserRule => 3,
        SkipReason::WorkingSetTooSmall => 4,
        SkipReason::QueryFailed => 5,
        SkipReason::ForegroundProcess => 6,
        SkipReason::SelfProcess => 7,
        SkipReason::AccessDenied => 8,
        SkipReason::OpenProcessFailed => 9,
        SkipReason::ProcessExited => 10,
        SkipReason::HighCpuUsage => 11,
        SkipReason::HighIoActivity => 12,
        SkipReason::Other(_) => 13,
    }
}

/// Gives a label in the summary of a preview.
fn summary_label(place: usize) -> (r: &'static str)
    requires
        place < 14,
    ensures
        r@ == summary_labels()[place as int],
{
    let labels: &'static [&'static str] = &[
        "System process:",
        "System boundary:",
        "Legacy recommended rule:",
        "Legacy user rule:",
        "Working set too small:",
        "Process query failed:",
        "Foreground process:",
        "Self process:",
        "Access denied:",
        "OpenProcess failed:",
        "Process exited:",
        "High CPU usage:",
        "High I/O activity:",
        "Other:",
    ];
    labels[place]
}

/// How many processes were left alone for the reasons at a place of the summary.
pub open spec fn skips_at(results: Seq<TrimResult>, place: int) -> nat
    decreases results.len(),
{
    if results.len() == 0 {
        0
    } else {
        skips_at(results.drop_last(), place) + match results.last().status {
            TrimStatus::Skipped(reason) => if summary_place(reason) == place {
                1nat
            } else {
                0nat
            },
            _ => 0nat,
        }
    }
}

/// Counts the processes that were left alone for the reasons at a place of the summary.
fn count_skips_at(results: &Vec<TrimResult>, place: usize) -> (r: usize)
    ensures
        r == skips_at(results@, place as int),
{
    let mut count: usize = 0;
    let mut i: usize = 0;
    while i < results.len()
        invariant
            i <= results@.len(),
            count <= i,
            count == skips_at(results@.take(i as int), place as int),
        decreases results@.len() - i,
    {
        assert(results@.take(i + 1).drop_last() =~= results@.take(i as int));
        if let TrimStatus::Skipped(reason) = &results[i].status {
            if place_of(reason) == place {
                count = count + 1;
            }
        }
        i = i + 1;
    }
    assert(results@.take(i as int) =~= results@);
    count
}

/// The entries of the summary before a place: the labels of reasons that occur, each with its
/// count.
pub open spec fn summary_before(results: Seq<TrimResult>, place: int) -> Seq<(Seq<char>, nat)>
    decreases place,
{
    if place <= 0 {
        Seq::empty()
    } else if skips_at(results, place - 1) > 0 {
        summary_before(results, place - 1).push(
            (summary_labels()[place - 1], skips_at(results, place - 1)),
        )
    } else {
        summary_before(results, place - 1)
    }
}

/// The entries of a summary, with their labels as texts.
pub open spec fn summary_views(entries: Seq<(&'static str, usize)>) -> Seq<(Seq<char>, nat)> {
    entries.map_values(|e: (&'static str, usize)| (e.0@, e.1 as nat))
}

/// Counts the reasons for which processes were left alone, grouped for a preview.
pub fn skip_summary_counts(report: &OptimizeReport) -> (r: Vec<(&'static str, usize)>)
    ensures
        summary_views(r@) == summary_before(report.results@, 14),
{
    let mut entries: Vec<(&'static str, usize)> = Vec::new();
    let mut place: usize = 0;
    assert(summary_views(entries@) =~= summary_before(report.results@, 0));
    while place < 14
        invariant
            place <= 14,
            summary_views(entries@) == summary_before(report.results@, place as int),
        decreases 14 - place,
    {
        let count: usize = count_skips_at(&report.results, place);
        if count > 0 {
            entries.push((summary_label(place), count));
        }
        place = place + 1;
        assert(summary_views(entries@) =~= summary_before(report.results@, place as int));
    }
    entries
}

/// The lines of a summary.
pub open spec fn summary_lines(entries: Seq<(Seq<char>, nat)>) -> Seq<char>
    decreases entries.len(),
{
    if entries.len() == 0 {
        ""@
    } else {
        summary_lines(entries.drop_last()) + (text::left_aligned(entries.last().0, 24) + " "@
            + text::right_aligned(text::decimal(entries.last().1), 5) + "\n"@)
    }
}

/// Writes the lines of a summary.
fn summary_text(entries: &Vec<(&'static str, usize)>) -> (r: String)
    ensures
        r@ == summary_lines(summary_views(entries@)),
{
    let ghost all = summary_views(entries@);
    let mut r: String = "".to_owned();
    let mut i: usize = 0;
    while i < entries.len()
        invariant
            i <= entries@.len(),
            all == summary_views(entries@),
            r@ == summary_lines(all.take(i as int)),
        decreases entries@.len() - i,
    {
        assert(all.take(i + 1).drop_last() =~= all.take(i as int));
        let mut line: String = String::new();
        text::push_left_aligned(&mut line, entries[i].0, 24);
        assert(line@ =~= text::left_aligned(entries@[i as int].0@, 24));
        line.append(" ");
        text::push_right_aligned(
            &mut line,
            text::decimal_text(entries[i].1 as u128).as_str(),
            5,
        );
        line.append("\n");
        r.append(line.as_str());
        i = i + 1;
    }
    assert(all.take(i as int) =~= all);
    r
}

/// Whether any process would be trimmed.
pub open spec fn any_would_trim(results: Seq<TrimResult>) -> bool {
    exists|i: int| 0 <= i < results.len() && (#[trigger] results[i]).status is WouldTrim
}

/// Whether any process was left alone.
pub open spec fn any_skipped(results: Seq<TrimResult>) -> bool {
    exists|i: int| 0 <= i < results.len() && (#[trigger] results[i]).status is Skipped
}

/// The text of a preview.
pub open spec fn preview_text(report: OptimizeReport, verbose: bool) -> Seq<char> {
    "Dry Run - 25% Target Preview\n\n"@ + "Will handle working sets:\n"@ + (if any_would_trim(
        report.results@,
    ) {
        preview_lines(report.results@)
    } else {
        "(none)\n"@
    }) + "\nSkipped summary:\n"@ + (if any_skipped(report.results@) {
        summary_lines(summary_before(report.results@, 14))
    } else {
        "(none)\n"@
    }) + (if verbose {
        "\nSkipped details:\n"@ + skip_lines(report.results@)
    } else {
        "\nUse --verbose to show all skipped processes.\n"@
    }) + "\nPlanned working-set rounds: "@ + text::decimal(rounds_shown(report)) + "\n"@ + (
    match report.effect.system_cleanup_skipped_reason {
        Some(reason) => "System cleanup: skipped ("@ + reason@ + ")\n"@,
        None => if report.effect.system_cleanup_executed {
            "System cleanup: would execute when not dry-run\n"@
        } else {
            "System cleanup: skipped\n"@
        },
    })
}

/// Writes the text of a preview.
pub fn format_dry_run(report: &OptimizeReport, verbose: bool) -> (r: String)
    ensures
        r@ == preview_text(*report, verbose),
{
    let mut handled: String = "".to_owned();
    let mut left_alone: String = "".to_owned();
    let mut any_handled: bool = false;
    let mut any_left: bool = false;
    let mut i: usize = 0;
    while i < report.results.len()
        invariant
            i <= report.results@.len(),
            handled@ == preview_lines(report.results@.take(i as int)),
            left_alone@ == skip_lines(report.results@.take(i as int)),
            any_handled == any_would_trim(report.results@.take(i as int)),
            any_left == any_skipped(report.results@.take(i as int)),
        decreases report.results@.len() - i,
    {
        let ghost shorter = report.results@.take(i as int);
        let ghost wider = report.results@.take(i + 1);
        assert(wider.drop_last() =~= shorter);
        let row: &TrimResult = &report.results[i];
        proof {
            assert(wider[i as int] == *row);
            assert forall|k: int| 0 <= k < i implies wider[k] == shorter[k] by {}
            if any_would_trim(shorter) {
                let k = choose|k: int|
                    0 <= k < shorter.len() && (#[trigger] shorter[k]).status is WouldTrim;
                assert(wider[k].status is WouldTrim);
            }
            if any_skipped(shorter) {
                let k = choose|k: int|
                    0 <= k < shorter.len() && (#[trigger] shorter[k]).status is Skipped;
                assert(wider[k].status is Skipped);
            }
            if any_would_trim(wider) && !(row.status is WouldTrim) {
                let k = choose|k: int|
                    0 <= k < wider.len() && (#[trigger] wider[k]).status is WouldTrim;
                assert(shorter[k].status is WouldTrim);
            }
            if any_skipped(wider) && !(row.status is Skipped) {
                let k = choose|k: int|
                    0 <= k < wider.len() && (#[trigger] wider[k]).status is Skipped;
                assert(shorter[k].status is Skipped);
            }
        }
        match &row.status {
            TrimStatus::WouldTrim => {
                any_handled = true;
                handled.append(preview_row_text(row).as_str());
            },
            TrimStatus::Skipped(reason) => {
                any_left = true;
                left_alone.append(skip_row_text(row, reason).as_str());
            },
            _ => {},
        }
        i = i + 1;
    }
    assert(report.results@.take(i as int) =~= report.results@);
    let mut r: String = "Dry Run - 25% Target Preview\n\n".to_owned();
    r.append("Will handle working sets:\n");
    r.append(
        if any_handled {
            handled.as_str()
        } else {
            "(none)\n"
        },
    );
    r.append("\nSkipped summary:\n");
    let summary: String = summary_text(&skip_summary_counts(report));
    r.append(
        if any_left {
            summary.as_str()
        } else {
            "(none)\n"
        },
    );
    let details: String = if verbose {
        let mut lines: String = "\nSkipped details:\n".to_owned();
        lines.append(left_alone.as_str());
        lines
    } else {
        "\nUse --verbose to show all skipped processes.\n".to_owned()
    };
    r.append(details.as_str());
    r.append("\nPlanned working-set rounds: ");
    r.append(text::decimal_text(shown_rounds(report) as u128).as_str());
    r.append("\n");
    let closing: String = match &report.effect.system_cleanup_skipped_reason {
        Some(reason) => {
            let mut line: String = "System cleanup: skipped (".to_owned();
            line.append(reason.as_str());
            line.append(")\n");
            line
        },
        None => if report.effect.system_cleanup_executed {
            "System cleanup: would execute when not dry-run\n".to_owned()
        } else {
            "System cleanup: skipped\n".to_owned()
        },
    };
    r.append(closing.as_str());
    r
}

/// The text of a report.
pub open spec fn report_text(report: OptimizeReport, verbose: bool) -> Seq<char> {
    if report.dry_run {
        preview_text(report, verbose)
    } else {
        full_text(report)
    }
}

/// Writes the text of a report; `verbose` lists in a preview each process that is left alone.
pub fn format_report_text_with_options(report: &OptimizeReport, verbose: bool) -> (r: String)
    ensures
        r@ == report_text(*report, verbose),
{
    if report.dry_run {
        return format_dry_run(report, verbose);
    }
    let mut r: String = opening_text(report);
    r.append(result_text(report).as_str());
    r.append(effect_text(report).as_str());
    r.append("Top handled processes:\n");
    r.append(top_text(report).as_str());
    r
}

/// Writes the text of a report.
pub fn format_report_text(report: &OptimizeReport) -> (r: String)
    ensures
        r@ == report_text(*report, false),
{
    format_report_text_with_options(report, false)
}

// ---------------------------------------------------------------------------
// The developer log
// ---------------------------------------------------------------------------

/// The lines of a tally.
pub open spec fn tally_lines(table: Seq<LabelCount>) -> Seq<char>
    decreases table.len(),
{
    if table.len() == 0 {
        ""@
    } else {
        tally_lines(table.drop_last()) + (table.last().label@ + ": "@ + text::decimal(
            table.last().count as nat,
        ) + "\n"@)
    }
}

/// The lines of a tally, or that there is none.
pub open spec fn counts_lines(table: Seq<LabelCount>) -> Seq<char> {
    if table.len() == 0 {
        "none\n"@
    } else {
        tally_lines(table)
    }
}

/// Writes the lines of a tally.
pub fn write_counts(counts: &Vec<LabelCount>) -> (r: String)
    ensures
        r@ == counts_lines(counts@),
{
    if counts.len() == 0 {
        return "none\n".to_owned();
    }
    let mut r: String = "".to_owned();
    let mut i: usize = 0;
    while i < counts.len()
        invariant
            i <= counts@.len(),
            r@ == tally_lines(counts@.take(i as int)),
        decreases counts@.len() - i,
    {
        assert(counts@.take(i + 1).drop_last() =~= counts@.take(i as int));
        let mut line: String = counts[i].label.clone();
        line.append(": ");
        line.append(text::decimal_text(counts[i].count as u128).as_str());
        line.append("\n");
        r.append(line.as_str());
        i = i + 1;
    }
    assert(counts@.take(i as int) =~= counts@);
    r
}

/// The opening of a developer log.
pub open spec fn log_opening(report: OptimizeReport) -> Seq<char> {
    "MemSpark Developer Log\n"@ + "Timestamp Unix: "@ + text::decimal(report.timestamp_unix as nat)
        + "\n"@ + "Dry Run: "@ + truth(report.dry_run) + "\n"@ + "Duration Ms: "@ + text::decimal(
        report.duration_ms as nat,
    ) + "\n"@ + "Target: memory load <= 25% ("@ + target_word(report) + ")\n"@ + "Memory Load: "@
        + report.before.load_tenths() + "% -> "@ + report.after.load_tenths() + "%\n"@ + "\n"@
}

/// Writes the opening of a developer log.
fn log_opening_text(report: &OptimizeReport) -> (r: String)
    ensures
        r@ == log_opening(*report),
{
    let mut r: String = "MemSpark Developer Log\n".to_owned();
    r.append("Timestamp Unix: ");
    r.append(text::decimal_text(report.timestamp_unix as u128).as_str());
    r.append("\n");
    r.append("Dry Run: ");
    r.append(truth_word(report.dry_run));
    r.append("\n");
    r.append("Duration Ms: ");
    r.append(text::decimal_text(report.duration_ms as u128).as_str());
    r.append("\n");
    r.append("Target: memory load <= 25% (");
    r.append(target_text(report));
    r.append(")\n");
    r.append("Memory Load: ");
    r.append(load_text(&report.before).as_str());
    r.append("% -> ");
    r.append(load_text(&report.after).as_str());
    r.append("%\n");
    r.append("\n");
    r
}

/// The counters in a developer log.
pub open spec fn log_counters(report: OptimizeReport) -> Seq<char> {
    "[Counters]\n"@ + "Scanned: "@ + text::decimal(report.scanned_count as nat) + "\n"@
        + "Handled Working Sets: "@ + text::decimal(report.trimmed_count as nat) + "\n"@
        + "Kept/Skipped: "@ + text::decimal(report.skipped_count as nat) + "\n"@ + "Failed: "@
        + text::decimal(report.failed_count as nat) + "\n"@ + "\n"@
}

/// Writes the counters in a developer log.
fn log_counters_text(report: &OptimizeReport) -> (r: String)
    ensures
        r@ == log_counters(*report),
{
    let mut r: String = "[Counters]\n".to_owned();
    r.append("Scanned: ");
    r.append(text::decimal_text(report.scanned_count as u128).as_str());
    r.append("\n");
    r.append("Handled Working Sets: ");
    r.append(text::decimal_text(report.trimmed_count as u128).as_str());
    r.append("\n");
    r.append("Kept/Skipped: ");
    r.append(text::decimal_text(report.skipped_count as u128).as_str());
    r.append("\n");
    r.append("Failed: ");
    r.append(text::decimal_text(report.failed_count as u128).as_str());
    r.append("\n");
    r.append("\n");
    r
}

/// The effect in a developer log.
pub open spec fn log_effect(report: OptimizeReport) -> Seq<char> {
    let effect = report.effect;
    "[Effect Summary]\n"@ + "Before Physical Used: "@ + gb(effect.before_physical_used_bytes as nat)
        + "\n"@ + "After Physical Used: "@ + gb(effect.after_physical_used_bytes as nat) + "\n"@
        + "Before Available: "@ + gb(effect.before_available_bytes as nat) + "\n"@
        + "After Available: "@ + gb(effect.after_available_bytes as nat) + "\n"@
        + "Available Delta: "@ + signed_bytes(effect.available_delta_bytes as int) + "\n"@
        + "Process Trim Estimate: "@ + gb(effect.process_trim_delta_bytes as nat) + "\n"@
        + "System Cleanup Delta: "@ + (match effect.standby_cleanup_delta_bytes {
        Some(delta) => signed_bytes(delta as int),
        None => "not recorded"@,
    }) + "\n"@ + "System Cleanup Executed: "@ + truth(effect.system_cleanup_executed) + "\n"@
        + "System Cleanup Reason: "@ + (match effect.system_cleanup_skipped_reason {
        Some(reason) => reason@,
        None => "none"@,
    }) + "\n"@ + "Working Set Rounds: "@ + text::decimal(effect.working_set_rounds as nat) + "\n"@
        + "\n"@
}

/// Writes the effect in a developer log.
fn log_effect_text(report: &OptimizeReport) -> (r: String)
    ensures
        r@ == log_effect(*report),
{
    let mut r: String = "[Effect Summary]\n".to_owned();
    r.append("Before Physical Used: ");
    r.append(format_gb(report.effect.before_physical_used_bytes).as_str());
    r.append("\n");
    r.append("After Physical Used: ");
    r.append(format_gb(report.effect.after_physical_used_bytes).as_str());
    r.append("\n");
    r.append("Before Available: ");
    r.append(format_gb(report.effect.before_available_bytes).as_str());
    r.append("\n");
    r.append("After Available: ");
    r.append(format_gb(report.effect.after_available_bytes).as_str());
    r.append("\n");
    r.append("Available Delta: ");
    r.append(format_signed_bytes(report.effect.available_delta_bytes).as_str());
    r.append("\n");
    r.append("Process Trim Estimate: ");
    r.append(format_gb(report.effect.process_trim_delta_bytes).as_str());
    r.append("\n");
    r.append("System Cleanup Delta: ");
    let delta: String = match report.effect.standby_cleanup_delta_bytes {
        Some(delta) => format_signed_bytes(delta),
        None => "not recorded".to_owned(),
    };
    r.append(delta.as_str());
    r.append("\n");
    r.append("System Cleanup Executed: ");
    r.append(truth_word(report.effect.system_cleanup_executed));
    r.append("\n");
    r.append("System Cleanup Reason: ");
    match &report.effect.system_cleanup_skipped_reason {
        Some(reason) => {
            r.append(reason.as_str());
        },
        None => {
            r.append("none");
        },
    }
    r.append("\n");
    r.append("Working Set Rounds: ");
    r.append(text::decimal_text(report.effect.working_set_rounds as u128).as_str());
    r.append("\n");
    r.append("\n");
    r
}

/// The line for a process in a developer log.
pub open spec fn log_row(row: TrimResult) -> Seq<char> {
    text::decimal(row.pid as nat) + "\t"@ + row.name@ + "\t"@ + text::decimal(
        row.before_working_set as nat,
    ) + "\t"@ + (match row.after_working_set {
        Some(after) => text::decimal(after as nat),
        None => "null"@,
    }) + "\t"@ + row.status.described() + "\n"@
}

/// Writes the line for a process in a developer log.
fn log_row_text(row: &TrimResult) -> (r: String)
    ensures
        r@ == log_row(*row),
{
    let mut r: String = text::decimal_text(row.pid as u128);
    r.append("\t");
    r.append(row.name.as_str());
    r.append("\t");
    r.append(text::decimal_text(row.before_working_set as u128).as_str());
    r.append("\t");
    let after: String = match row.after_working_set {
        Some(after) => text::decimal_text(after as u128),
        None => "null".to_owned(),
    };
    r.append(after.as_str());
    r.append("\t");
    r.append(row.status.to_text().as_str());
    r.append("\n");
    r
}

/// The lines for processes in a developer log.
pub open spec fn log_rows(results: Seq<TrimResult>) -> Seq<char>
    decreases results.len(),
{
    if results.len() == 0 {
        ""@
    } else {
        log_rows(results.drop_last()) + log_row(results.last())
    }
}

/// Writes the lines for processes in a developer log.
fn log_rows_text(results: &Vec<TrimResult>) -> (r: String)
    ensures
        r@ == log_rows(results@),
{
    let mut r: String = "".to_owned();
    let mut i: usize = 0;
    while i < results.len()
        invariant
            i <= results@.len(),
            r@ == log_rows(results@.take(i as int)),
        decreases results@.len() - i,
    {
        assert(results@.take(i + 1).drop_last() =~= results@.take(i as int));
        r.append(log_row_text(&results[i]).as_str());
        i = i + 1;
    }
    assert(results@.take(i as int) =~= results@);
    r
}

/// The parts of a developer log that are its own.
pub struct LogParts {
    pub opening: Seq<char>,
    pub counters: Seq<char>,
    pub effect: Seq<char>,
    pub skips: Seq<char>,
    pub failures: Seq<char>,
    pub detailed: Seq<char>,
    pub rows: Seq<char>,
    pub raw_json: Seq<char>,
}

/// The sections of a developer log.
pub open spec fn log_sections(parts: LogParts) -> Seq<Seq<char>> {
    seq![
        parts.opening,
        parts.counters,
        parts.effect,
        "[Skip Reason Counts]\n"@,
        parts.skips,
        "\n"@,
        "[Failed Reason Counts]\n"@,
        parts.failures,
        "\n"@,
        "[Detailed Text Report]\n"@,
        parts.detailed,
        "\n"@,
        "\n"@,
        "[Process Results]\n"@,
        "pid\tname\tbefore_working_set\tafter_working_set\tstatus\n"@,
        parts.rows,
        "\n"@,
        "[Raw Report JSON]\n"@,
        parts.raw_json,
        "\n"@,
    ]
}

/// Sections, one behind the other.
pub open spec fn all_sections(parts: Seq<Seq<char>>) -> Seq<char>
    decreases parts.len(),
{
    if parts.len() == 0 {
        Seq::empty()
    } else {
        all_sections(parts.drop_last()) + parts.last()
    }
}

/// The text of a developer log.
#[verifier::opaque]
pub open spec fn log_text(parts: LogParts) -> Seq<char> {
    all_sections(log_sections(parts))
}

/// The parts of the developer log of a report, given the report as JSON.
pub open spec fn parts_of(report: OptimizeReport, raw_json: Seq<char>) -> LogParts {
    LogParts {
        opening: log_opening(report),
        counters: log_counters(report),
        effect: log_effect(report),
        skips: counts_lines(order::tally_of(report::skip_labels(report.results@))),
        failures: counts_lines(order::tally_of(report::failure_labels(report.results@))),
        detailed: report_text(report, true),
        rows: log_rows(report.results@),
        raw_json,
    }
}

/// The developer log of a report, given the report as JSON.
pub open spec fn developer_log(report: OptimizeReport, raw_json: Seq<char>) -> Seq<char> {
    log_text(parts_of(report, raw_json))
}

/// Writes the developer log of a report, given the report as JSON.
pub fn format_developer_log(report: &OptimizeReport, raw_json: &str) -> (r: String)
    ensures
        r@ == developer_log(*report, raw_json@),
{
    let skips: Vec<LabelCount> = report.skip_reason_counts();
    let failures: Vec<LabelCount> = report.failed_reason_counts();
    proof {
        lemma_tally_lines(skips@, report::skip_labels(report.results@));
        lemma_tally_lines(failures@, report::failure_labels(report.results@));
    }
    log_of_parts(
        log_opening_text(report),
        log_counters_text(report),
        log_effect_text(report),
        write_counts(&skips),
        write_counts(&failures),
        format_report_text_with_options(report, true),
        log_rows_text(&report.results),
        raw_json,
    )
}

/// Puts the parts of a developer log together.
fn log_of_parts(
    opening: String,
    counters: String,
    effect: String,
    skips: String,
    failures: String,
    detailed: String,
    rows: String,
    raw_json: &str,
) -> (r: String)
    ensures
        r@ == log_text(
            LogParts {
                opening: opening@,
                counters: counters@,
                effect: effect@,
                skips: skips@,
                failures: failures@,
                detailed: detailed@,
                rows: rows@,
                raw_json: raw_json@,
            },
        ),
{
    let ghost parts = LogParts {
        opening: opening@,
        counters: counters@,
        effect: effect@,
        skips: skips@,
        failures: failures@,
        detailed: detailed@,
        rows: rows@,
        raw_json: raw_json@,
    };
    let sections: Vec<String> = vec![
        opening,
        counters,
        effect,
        "[Skip Reason Counts]\n".to_owned(),
        skips,
        "\n".to_owned(),
        "[Failed Reason Counts]\n".to_owned(),
        failures,
        "\n".to_owned(),
        "[Detailed Text Report]\n".to_owned(),
        detailed,
        "\n".to_owned(),
        "\n".to_owned(),
        "[Process Results]\n".to_owned(),
        "pid\tname\tbefore_working_set\tafter_working_set\tstatus\n".to_owned(),
        rows,
        "\n".to_owned(),
        "[Raw Report JSON]\n".to_owned(),
        raw_json.to_owned(),
        "\n".to_owned(),
    ];
    proof {
        reveal(log_text);
        assert(text::views(sections@) =~= log_sections(parts));
    }
    write_sections(&sections)
}

/// Writes sections one behind the other.
fn write_sections(parts: &Vec<String>) -> (r: String)
    ensures
        r@ == all_sections(text::views(parts@)),
{
    let mut r: String = String::new();
    let mut i: usize = 0;
    let ghost all = text::views(parts@);
    assert(r@ =~= all_sections(all.take(0)));
    while i < parts.len()
        invariant
            i <= parts@.len(),
            all == text::views(parts@),
            r@ == all_sections(all.take(i as int)),
        decreases parts@.len() - i,
    {
        assert(all.take(i + 1).drop_last() =~= all.take(i as int));
        r.append(parts[i].as_str());
        i = i + 1;
    }
    assert(all.take(i as int) =~= all);
    r
}

/// Any tally of labels has the lines of the tally of these labels.
pub proof fn lemma_tally_lines(table: Seq<LabelCount>, labels: Seq<Seq<char>>)
    requires
        order::is_tally(table, labels),
    ensures
        counts_lines(table) == counts_lines(order::tally_of(labels)),
        tally_lines(table) == tally_lines(order::tally_of(labels)),
        table.len() == order::tally_of(labels).len(),
{
    order::tally_unique(table, order::tally_of(labels), labels);
    lemma_same_lines(table, order::tally_of(labels));
}

/// Tables with the same labels and counts have the same lines.
proof fn lemma_same_lines(a: Seq<LabelCount>, b: Seq<LabelCount>)
    requires
        a.len() == b.len(),
        forall|i: int|
            0 <= i < a.len() ==> (#[trigger] a[i]).label@ == b[i].label@ && a[i].count == b[i].count,
    ensures
        tally_lines(a) == tally_lines(b),
    decreases a.len(),
{
    if a.len() > 0 {
        assert forall|i: int| 0 <= i < a.drop_last().len() implies (#[trigger] a.drop_last()[i]).label@
            == b.drop_last()[i].label@ && a.drop_last()[i].count == b.drop_last()[i].count by {
            assert(a[i].label@ == b[i].label@);
        }
        lemma_same_lines(a.drop_last(), b.drop_last());
        assert(a[a.len() - 1].label@ == b[a.len() - 1].label@);
    }
}

/// Sections that follow upon one another are all in the whole.
proof fn lemma_sections(parts: Seq<Seq<char>>, k: int)
    requires
        0 <= k < parts.len(),
    ensures
        text::contains(all_sections(parts), parts[k]),
        forall|needle: Seq<char>| #[trigger]
            text::contains(parts[k], needle) ==> text::contains(all_sections(parts), needle),
    decreases parts.len(),
{
    let earlier = all_sections(parts.drop_last());
    text::appending_keeps_contents(earlier, parts.last());
    if k < parts.len() - 1 {
        lemma_sections(parts.drop_last(), k);
        assert(parts.drop_last()[k] == parts[k]);
    }
}

/// The text of a developer log contains its parts.
proof fn lemma_log_parts(parts: LogParts)
    ensures
        text::contains(log_text(parts), parts.counters),
        text::contains(log_text(parts), parts.skips),
        text::contains(log_text(parts), parts.failures),
        text::contains(log_text(parts), parts.detailed),
        text::contains(log_text(parts), parts.raw_json),
{
    reveal(log_text);
    let sections = log_sections(parts);
    lemma_sections(sections, 1);
    lemma_sections(sections, 4);
    lemma_sections(sections, 7);
    lemma_sections(sections, 10);
    lemma_sections(sections, 18);
}

/// The text of a developer log contains what its rows contain.
proof fn lemma_log_rows(parts: LogParts, needle: Seq<char>)
    requires
        text::contains(parts.rows, needle),
    ensures
        text::contains(log_text(parts), needle),
{
    reveal(log_text);
    lemma_sections(log_sections(parts), 15);
}

/// A developer log holds the counters, the counts of reasons and failures, the detailed report,
/// and the report as JSON.
pub proof fn developer_log_holds_everything(report: OptimizeReport, raw_json: Seq<char>)
    ensures
        text::contains(developer_log(report, raw_json), log_counters(report)),
        text::contains(
            developer_log(report, raw_json),
            counts_lines(order::tally_of(report::skip_labels(report.results@))),
        ),
        text::contains(
            developer_log(report, raw_json),
            counts_lines(order::tally_of(report::failure_labels(report.results@))),
        ),
        text::contains(developer_log(report, raw_json), report_text(report, true)),
        text::contains(developer_log(report, raw_json), raw_json),
{
    lemma_log_parts(parts_of(report, raw_json));
}

/// A developer log says of every process what became of it.
pub proof fn developer_log_holds_every_process(
    report: OptimizeReport,
    raw_json: Seq<char>,
    i: int,
)
    requires
        0 <= i < report.results@.len(),
    ensures
        text::contains(developer_log(report, raw_json), log_row(report.results@[i])),
{
    lemma_row_in_rows(report.results@, i);
    lemma_log_rows(parts_of(report, raw_json), log_row(report.results@[i]));
}

/// The row of each result is among the rows.
proof fn lemma_row_in_rows(results: Seq<TrimResult>, i: int)
    requires
        0 <= i < results.len(),
    ensures
        text::contains(log_rows(results), log_row(results[i])),
    decreases results.len(),
{
    text::appending_keeps_contents(log_rows(results.drop_last()), log_row(results.last()));
    if i < results.len() - 1 {
        lemma_row_in_rows(results.drop_last(), i);
        assert(results.drop_last()[i] == results[i]);
    }
}

// ---------------------------------------------------------------------------
// What the texts say
// ---------------------------------------------------------------------------

/// Lines that follow upon one another are all in the whole.
proof fn lemma_snapshots_show_every_figure(used: Seq<char>, total: Seq<char>, load: Seq<char>, available: Seq<char>, cache: Seq<char>, committed: Seq<char>, limit: Seq<char>, processes: Seq<char>)
    ensures
        text::contains("Physical Used: "@ + used + " / "@ + total + " ("@ + load + "%)\nAvailable:     "@ + available + "\nSystem Cache:  "@ + cache + "\nCommit:        "@ + committed + " / "@ + limit + "\nProcesses:     "@ + processes + "\n"@, "Physical Used: "@ + used + " / "@ + total + " ("@ + load + "%)\nAvailable:     "@),
        text::contains("Physical Used: "@ + used + " / "@ + total + " ("@ + load + "%)\nAvailable:     "@ + available + "\nSystem Cache:  "@ + cache + "\nCommit:        "@ + committed + " / "@ + limit + "\nProcesses:     "@ + processes + "\n"@, "\nSystem Cache:  "@ + cache),
        text::contains("Physical Used: "@ + used + " / "@ + total + " ("@ + load + "%)\nAvailable:     "@ + available + "\nSystem Cache:  "@ + cache + "\nCommit:        "@ + committed + " / "@ + limit + "\nProcesses:     "@ + processes + "\n"@, "\nCommit:        "@ + committed + " / "@ + limit),
        text::contains("Physical Used: "@ + used + " / "@ + total + " ("@ + load + "%)\nAvailable:     "@ + available + "\nSystem Cache:  "@ + cache + "\nCommit:        "@ + committed + " / "@ + limit + "\nProcesses:     "@ + processes + "\n"@, "\nProcesses:     "@ + processes + "\n"@),
{
    let line0 = "Physical Used: "@ + used + " / "@ + total + " ("@ + load + "%)\nAvailable:     "@;
    let line1 = available;
    let line2 = "\nSystem Cache:  "@ + cache;
    let line3 = "\nCommit:        "@ + committed + " / "@ + limit;
    let line4 = "\nProcesses:     "@ + processes + "\n"@;
    let upto0 = line0;
    text::appending_keeps_contents(Seq::empty(), line0);
    assert(Seq::<char>::empty() + line0 =~= upto0);
    let upto1 = upto0 + line1;
    text::appending_keeps_contents(upto0, line1);
    let upto2 = upto1 + line2;
    assert(upto1 + "\nSystem Cache:  "@ + cache =~= upto2);
    text::appending_keeps_contents(upto1, line2);
    let upto3 = upto2 + line3;
    assert(upto2 + "\nCommit:        "@ + committed + " / "@ + limit =~= upto3);
    text::appending_keeps_contents(upto2, line3);
    let upto4 = upto3 + line4;
    assert(upto3 + "\nProcesses:     "@ + processes + "\n"@ =~= upto4);
    text::appending_keeps_contents(upto3, line4);
    assert("Physical Used: "@ + used + " / "@ + total + " ("@ + load + "%)\nAvailable:     "@ + available + "\nSystem Cache:  "@ + cache + "\nCommit:        "@ + committed + " / "@ + limit + "\nProcesses:     "@ + processes + "\n"@ == upto4);
}

/// The lines for a snapshot show what is in use of all there is, with the load, what is
/// available, the cache, the committed memory, and the number of processes.
pub proof fn snapshots_show_every_figure(snapshot: MemorySnapshot)
    ensures
        text::contains(snapshot_lines(snapshot), "Physical Used: "@ + gb(snapshot.used()) + " / "@ + gb(snapshot.total_physical as nat) + " ("@ + snapshot.load_tenths() + "%)\nAvailable:     "@),
        text::contains(snapshot_lines(snapshot), "\nSystem Cache:  "@ + gb(snapshot.system_cache as nat)),
        text::contains(snapshot_lines(snapshot), "\nCommit:        "@ + gb(snapshot.commit_total as nat) + " / "@ + gb(snapshot.commit_limit as nat)),
        text::contains(snapshot_lines(snapshot), "\nProcesses:     "@ + text::decimal(snapshot.process_count as nat) + "\n"@),
{
    lemma_snapshots_show_every_figure(gb(snapshot.used()), gb(snapshot.total_physical as nat), snapshot.load_tenths(), gb(snapshot.available_physical as nat), gb(snapshot.system_cache as nat), gb(snapshot.commit_total as nat), gb(snapshot.commit_limit as nat), text::decimal(snapshot.process_count as nat));
}

/// Lines that follow upon one another are all in the whole.
proof fn lemma_reports_open_with_the_outcome(word: Seq<char>, load: Seq<char>, duration: Seq<char>, before: Seq<char>, after: Seq<char>)
    ensures
        text::contains("MemSpark Report\n"@ + "Target: memory load <= 25% ("@ + word + ")\n"@ + "Final memory load: "@ + load + "%\n"@ + "Duration: "@ + duration + "s\n\n"@ + "Before:\n"@ + before + "\n"@ + "After:\n"@ + after + "\n"@, "Target: memory load <= 25% ("@ + word + ")\n"@),
        text::contains("MemSpark Report\n"@ + "Target: memory load <= 25% ("@ + word + ")\n"@ + "Final memory load: "@ + load + "%\n"@ + "Duration: "@ + duration + "s\n\n"@ + "Before:\n"@ + before + "\n"@ + "After:\n"@ + after + "\n"@, "Final memory load: "@ + load + "%\n"@),
        text::contains("MemSpark Report\n"@ + "Target: memory load <= 25% ("@ + word + ")\n"@ + "Final memory load: "@ + load + "%\n"@ + "Duration: "@ + duration + "s\n\n"@ + "Before:\n"@ + before + "\n"@ + "After:\n"@ + after + "\n"@, "Duration: "@ + duration + "s\n\n"@),
        text::contains("MemSpark Report\n"@ + "Target: memory load <= 25% ("@ + word + ")\n"@ + "Final memory load: "@ + load + "%\n"@ + "Duration: "@ + duration + "s\n\n"@ + "Before:\n"@ + before + "\n"@ + "After:\n"@ + after + "\n"@, "Before:\n"@ + before + "\n"@),
        text::contains("MemSpark Report\n"@ + "Target: memory load <= 25% ("@ + word + ")\n"@ + "Final memory load: "@ + load + "%\n"@ + "Duration: "@ + duration + "s\n\n"@ + "Before:\n"@ + before + "\n"@ + "After:\n"@ + after + "\n"@, "After:\n"@ + after + "\n"@),
{
    let line0 = "MemSpark Report\n"@;
    let line1 = "Target: memory load <= 25% ("@ + word + ")\n"@;
    let line2 = "Final memory load: "@ + load + "%\n"@;
    let line3 = "Duration: "@ + duration + "s\n\n"@;
    let line4 = "Before:\n"@ + before + "\n"@;
    let line5 = "After:\n"@ + after + "\n"@;
    let upto0 = line0;
    text::appending_keeps_contents(Seq::empty(), line0);
    assert(Seq::<char>::empty() + line0 =~= upto0);
    let upto1 = upto0 + line1;
    assert(upto0 + "Target: memory load <= 25% ("@ + word + ")\n"@ =~= upto1);
    text::appending_keeps_contents(upto0, line1);
    let upto2 = upto1 + line2;
    assert(upto1 + "Final memory load: "@ + load + "%\n"@ =~= upto2);
    text::appending_keeps_contents(upto1, line2);
    let upto3 = upto2 + line3;
    assert(upto2 + "Duration: "@ + duration + "s\n\n"@ =~= upto3);
    text::appending_keeps_contents(upto2, line3);
    let upto4 = upto3 + line4;
    assert(upto3 + "Before:\n"@ + before + "\n"@ =~= upto4);
    text::appending_keeps_contents(upto3, line4);
    let upto5 = upto4 + line5;
    assert(upto4 + "After:\n"@ + after + "\n"@ =~= upto5);
    text::appending_keeps_contents(upto4, line5);
    assert("MemSpark Report\n"@ + "Target: memory load <= 25% ("@ + word + ")\n"@ + "Final memory load: "@ + load + "%\n"@ + "Duration: "@ + duration + "s\n\n"@ + "Before:\n"@ + before + "\n"@ + "After:\n"@ + after + "\n"@ == upto5);
}

/// A report opens with the target and whether it was met, the final load and the duration, and
/// shows the memory before and after.
pub proof fn reports_open_with_the_outcome(report: OptimizeReport)
    ensures
        text::contains(opening(report), "Target: memory load <= 25% ("@ + target_word(report) + ")\n"@),
        text::contains(opening(report), "Final memory load: "@ + report.after.load_tenths() + "%\n"@),
        text::contains(opening(report), "Duration: "@ + seconds(report.duration_ms as nat) + "s\n\n"@),
        text::contains(opening(report), "Before:\n"@ + snapshot_lines(report.before) + "\n"@),
        text::contains(opening(report), "After:\n"@ + snapshot_lines(report.after) + "\n"@),
{
    lemma_reports_open_with_the_outcome(target_word(report), report.after.load_tenths(), seconds(report.duration_ms as nat), snapshot_lines(report.before), snapshot_lines(report.after));
}

/// Lines that follow upon one another are all in the whole.
proof fn lemma_reports_show_the_result(change: Seq<char>, handled: Seq<char>, scanned: Seq<char>, kept: Seq<char>, failed: Seq<char>, released: Seq<char>)
    ensures
        text::contains("Result:\n"@ + "Available change:    "@ + change + "\n"@ + "Working-set handled: "@ + handled + " / "@ + scanned + "\n"@ + "Kept/skipped:        "@ + kept + "\n"@ + "Failed:              "@ + failed + "\n"@ + "System release:      "@ + released + "\n\n"@, "Available change:    "@ + change + "\n"@),
        text::contains("Result:\n"@ + "Available change:    "@ + change + "\n"@ + "Working-set handled: "@ + handled + " / "@ + scanned + "\n"@ + "Kept/skipped:        "@ + kept + "\n"@ + "Failed:              "@ + failed + "\n"@ + "System release:      "@ + released + "\n\n"@, "Working-set handled: "@ + handled + " / "@ + scanned + "\n"@),
        text::contains("Result:\n"@ + "Available change:    "@ + change + "\n"@ + "Working-set handled: "@ + handled + " / "@ + scanned + "\n"@ + "Kept/skipped:        "@ + kept + "\n"@ + "Failed:              "@ + failed + "\n"@ + "System release:      "@ + released + "\n\n"@, "Kept/skipped:        "@ + kept + "\n"@),
        text::contains("Result:\n"@ + "Available change:    "@ + change + "\n"@ + "Working-set handled: "@ + handled + " / "@ + scanned + "\n"@ + "Kept/skipped:        "@ + kept + "\n"@ + "Failed:              "@ + failed + "\n"@ + "System release:      "@ + released + "\n\n"@, "Failed:              "@ + failed + "\n"@),
        text::contains("Result:\n"@ + "Available change:    "@ + change + "\n"@ + "Working-set handled: "@ + handled + " / "@ + scanned + "\n"@ + "Kept/skipped:        "@ + kept + "\n"@ + "Failed:              "@ + failed + "\n"@ + "System release:      "@ + released + "\n\n"@, "System release:      "@ + released + "\n\n"@),
{
    let line0 = "Result:\n"@;
    let line1 = "Available change:    "@ + change + "\n"@;
    let line2 = "Working-set handled: "@ + handled + " / "@ + scanned + "\n"@;
    let line3 = "Kept/skipped:        "@ + kept + "\n"@;
    let line4 = "Failed:              "@ + failed + "\n"@;
    let line5 = "System release:      "@ + released + "\n\n"@;
    let upto0 = line0;
    text::appending_keeps_contents(Seq::empty(), line0);
    assert(Seq::<char>::empty() + line0 =~= upto0);
    let upto1 = upto0 + line1;
    assert(upto0 + "Available change:    "@ + change + "\n"@ =~= upto1);
    text::appending_keeps_contents(upto0, line1);
    let upto2 = upto1 + line2;
    assert(upto1 + "Working-set handled: "@ + handled + " / "@ + scanned + "\n"@ =~= upto2);
    text::appending_keeps_contents(upto1, line2);
    let upto3 = upto2 + line3;
    assert(upto2 + "Kept/skipped:        "@ + kept + "\n"@ =~= upto3);
    text::appending_keeps_contents(upto2, line3);
    let upto4 = upto3 + line4;
    assert(upto3 + "Failed:              "@ + failed + "\n"@ =~= upto4);
    text::appending_keeps_contents(upto3, line4);
    let upto5 = upto4 + line5;
    assert(upto4 + "System release:      "@ + released + "\n\n"@ =~= upto5);
    text::appending_keeps_contents(upto4, line5);
    assert("Result:\n"@ + "Available change:    "@ + change + "\n"@ + "Working-set handled: "@ + handled + " / "@ + scanned + "\n"@ + "Kept/skipped:        "@ + kept + "\n"@ + "Failed:              "@ + failed + "\n"@ + "System release:      "@ + released + "\n\n"@ == upto5);
}

/// A report shows by how much the available memory changed, how many processes were handled of
/// those looked at, how many were kept and how many failed, and what the release came to.
pub proof fn reports_show_the_result(report: OptimizeReport)
    ensures
        text::contains(result_lines(report), "Available change:    "@ + signed_bytes(report.increase()) + "\n"@),
        text::contains(result_lines(report), "Working-set handled: "@ + text::decimal(report.trimmed_count as nat) + " / "@ + text::decimal(report.scanned_count as nat) + "\n"@),
        text::contains(result_lines(report), "Kept/skipped:        "@ + text::decimal(report.skipped_count as nat) + "\n"@),
        text::contains(result_lines(report), "Failed:              "@ + text::decimal(report.failed_count as nat) + "\n"@),
        text::contains(result_lines(report), "System release:      "@ + release_word(report) + "\n\n"@),
{
    lemma_reports_show_the_result(signed_bytes(report.increase()), text::decimal(report.trimmed_count as nat), text::decimal(report.scanned_count as nat), text::decimal(report.skipped_count as nat), text::decimal(report.failed_count as nat), release_word(report));
}

/// Lines that follow upon one another are all in the whole.
proof fn lemma_logs_open_with_the_outcome(time: Seq<char>, dry: Seq<char>, duration: Seq<char>, word: Seq<char>, before: Seq<char>, after: Seq<char>)
    ensures
        text::contains("MemSpark Developer Log\n"@ + "Timestamp Unix: "@ + time + "\n"@ + "Dry Run: "@ + dry + "\n"@ + "Duration Ms: "@ + duration + "\n"@ + "Target: memory load <= 25% ("@ + word + ")\n"@ + "Memory Load: "@ + before + "% -> "@ + after + "%\n"@ + "\n"@, "Timestamp Unix: "@ + time + "\n"@),
        text::contains("MemSpark Developer Log\n"@ + "Timestamp Unix: "@ + time + "\n"@ + "Dry Run: "@ + dry + "\n"@ + "Duration Ms: "@ + duration + "\n"@ + "Target: memory load <= 25% ("@ + word + ")\n"@ + "Memory Load: "@ + before + "% -> "@ + after + "%\n"@ + "\n"@, "Dry Run: "@ + dry + "\n"@),
        text::contains("MemSpark Developer Log\n"@ + "Timestamp Unix: "@ + time + "\n"@ + "Dry Run: "@ + dry + "\n"@ + "Duration Ms: "@ + duration + "\n"@ + "Target: memory load <= 25% ("@ + word + ")\n"@ + "Memory Load: "@ + before + "% -> "@ + after + "%\n"@ + "\n"@, "Duration Ms: "@ + duration + "\n"@),
        text::contains("MemSpark Developer Log\n"@ + "Timestamp Unix: "@ + time + "\n"@ + "Dry Run: "@ + dry + "\n"@ + "Duration Ms: "@ + duration + "\n"@ + "Target: memory load <= 25% ("@ + word + ")\n"@ + "Memory Load: "@ + before + "% -> "@ + after + "%\n"@ + "\n"@, "Target: memory load <= 25% ("@ + word + ")\n"@),
        text::contains("MemSpark Developer Log\n"@ + "Timestamp Unix: "@ + time + "\n"@ + "Dry Run: "@ + dry + "\n"@ + "Duration Ms: "@ + duration + "\n"@ + "Target: memory load <= 25% ("@ + word + ")\n"@ + "Memory Load: "@ + before + "% -> "@ + after + "%\n"@ + "\n"@, "Memory Load: "@ + before + "% -> "@ + after + "%\n"@),
{
    let line0 = "MemSpark Developer Log\n"@;
    let line1 = "Timestamp Unix: "@ + time + "\n"@;
    let line2 = "Dry Run: "@ + dry + "\n"@;
    let line3 = "Duration Ms: "@ + duration + "\n"@;
    let line4 = "Target: memory load <= 25% ("@ + word + ")\n"@;
    let line5 = "Memory Load: "@ + before + "% -> "@ + after + "%\n"@;
    let line6 = "\n"@;
    let upto0 = line0;
    text::appending_keeps_contents(Seq::empty(), line0);
    assert(Seq::<char>::empty() + line0 =~= upto0);
    let upto1 = upto0 + line1;
    assert(upto0 + "Timestamp Unix: "@ + time + "\n"@ =~= upto1);
    text::appending_keeps_contents(upto0, line1);
    let upto2 = upto1 + line2;
    assert(upto1 + "Dry Run: "@ + dry + "\n"@ =~= upto2);
    text::appending_keeps_contents(upto1, line2);
    let upto3 = upto2 + line3;
    assert(upto2 + "Duration Ms: "@ + duration + "\n"@ =~= upto3);
    text::appending_keeps_contents(upto2, line3);
    let upto4 = upto3 + line4;
    assert(upto3 + "Target: memory load <= 25% ("@ + word + ")\n"@ =~= upto4);
    text::appending_keeps_contents(upto3, line4);
    let upto5 = upto4 + line5;
    assert(upto4 + "Memory Load: "@ + before + "% -> "@ + after + "%\n"@ =~= upto5);
    text::appending_keeps_contents(upto4, line5);
    let upto6 = upto5 + line6;
    text::appending_keeps_contents(upto5, line6);
    assert("MemSpark Developer Log\n"@ + "Timestamp Unix: "@ + time + "\n"@ + "Dry Run: "@ + dry + "\n"@ + "Duration Ms: "@ + duration + "\n"@ + "Target: memory load <= 25% ("@ + word + ")\n"@ + "Memory Load: "@ + before + "% -> "@ + after + "%\n"@ + "\n"@ == upto6);
}

/// A developer log opens with the time, whether it was a dry run, the duration, whether the
/// target was met, and the load before and after.
pub proof fn logs_open_with_the_outcome(report: OptimizeReport)
    ensures
        text::contains(log_opening(report), "Timestamp Unix: "@ + text::decimal(report.timestamp_unix as nat) + "\n"@),
        text::contains(log_opening(report), "Dry Run: "@ + truth(report.dry_run) + "\n"@),
        text::contains(log_opening(report), "Duration Ms: "@ + text::decimal(report.duration_ms as nat) + "\n"@),
        text::contains(log_opening(report), "Target: memory load <= 25% ("@ + target_word(report) + ")\n"@),
        text::contains(log_opening(report), "Memory Load: "@ + report.before.load_tenths() + "% -> "@ + report.after.load_tenths() + "%\n"@),
{
    lemma_logs_open_with_the_outcome(text::decimal(report.timestamp_unix as nat), truth(report.dry_run), text::decimal(report.duration_ms as nat), target_word(report), report.before.load_tenths(), report.after.load_tenths());
}

/// Lines that follow upon one another are all in the whole.
proof fn lemma_logs_show_the_counters(scanned: Seq<char>, handled: Seq<char>, kept: Seq<char>, failed: Seq<char>)
    ensures
        text::contains("[Counters]\n"@ + "Scanned: "@ + scanned + "\n"@ + "Handled Working Sets: "@ + handled + "\n"@ + "Kept/Skipped: "@ + kept + "\n"@ + "Failed: "@ + failed + "\n"@ + "\n"@, "Scanned: "@ + scanned + "\n"@),
        text::contains("[Counters]\n"@ + "Scanned: "@ + scanned + "\n"@ + "Handled Working Sets: "@ + handled + "\n"@ + "Kept/Skipped: "@ + kept + "\n"@ + "Failed: "@ + failed + "\n"@ + "\n"@, "Handled Working Sets: "@ + handled + "\n"@),
        text::contains("[Counters]\n"@ + "Scanned: "@ + scanned + "\n"@ + "Handled Working Sets: "@ + handled + "\n"@ + "Kept/Skipped: "@ + kept + "\n"@ + "Failed: "@ + failed + "\n"@ + "\n"@, "Kept/Skipped: "@ + kept + "\n"@),
        text::contains("[Counters]\n"@ + "Scanned: "@ + scanned + "\n"@ + "Handled Working Sets: "@ + handled + "\n"@ + "Kept/Skipped: "@ + kept + "\n"@ + "Failed: "@ + failed + "\n"@ + "\n"@, "Failed: "@ + failed + "\n"@),
{
    let line0 = "[Counters]\n"@;
    let line1 = "Scanned: "@ + scanned + "\n"@;
    let line2 = "Handled Working Sets: "@ + handled + "\n"@;
    let line3 = "Kept/Skipped: "@ + kept + "\n"@;
    let line4 = "Failed: "@ + failed + "\n"@;
    let line5 = "\n"@;
    let upto0 = line0;
    text::appending_keeps_contents(Seq::empty(), line0);
    assert(Seq::<char>::empty() + line0 =~= upto0);
    let upto1 = upto0 + line1;
    assert(upto0 + "Scanned: "@ + scanned + "\n"@ =~= upto1);
    text::appending_keeps_contents(upto0, line1);
    let upto2 = upto1 + line2;
    assert(upto1 + "Handled Working Sets: "@ + handled + "\n"@ =~= upto2);
    text::appending_keeps_contents(upto1, line2);
    let upto3 = upto2 + line3;
    assert(upto2 + "Kept/Skipped: "@ + kept + "\n"@ =~= upto3);
    text::appending_keeps_contents(upto2, line3);
    let upto4 = upto3 + line4;
    assert(upto3 + "Failed: "@ + failed + "\n"@ =~= upto4);
    text::appending_keeps_contents(upto3, line4);
    let upto5 = upto4 + line5;
    text::appending_keeps_contents(upto4, line5);
    assert("[Counters]\n"@ + "Scanned: "@ + scanned + "\n"@ + "Handled Working Sets: "@ + handled + "\n"@ + "Kept/Skipped: "@ + kept + "\n"@ + "Failed: "@ + failed + "\n"@ + "\n"@ == upto5);
}

/// A developer log shows each counter of its report.
pub proof fn logs_show_the_counters(report: OptimizeReport)
    ensures
        text::contains(log_counters(report), "Scanned: "@ + text::decimal(report.scanned_count as nat) + "\n"@),
        text::contains(log_counters(report), "Handled Working Sets: "@ + text::decimal(report.trimmed_count as nat) + "\n"@),
        text::contains(log_counters(report), "Kept/Skipped: "@ + text::decimal(report.skipped_count as nat) + "\n"@),
        text::contains(log_counters(report), "Failed: "@ + text::decimal(report.failed_count as nat) + "\n"@),
{
    lemma_logs_show_the_counters(text::decimal(report.scanned_count as nat), text::decimal(report.trimmed_count as nat), text::decimal(report.skipped_count as nat), text::decimal(report.failed_count as nat));
}

/// Lines that follow upon one another are all in the whole.
proof fn lemma_logs_show_the_effect(used_before: Seq<char>, used_after: Seq<char>, free_before: Seq<char>, free_after: Seq<char>, change: Seq<char>, trimmed: Seq<char>, freed: Seq<char>, executed: Seq<char>, reason: Seq<char>, rounds: Seq<char>)
    ensures
        text::contains("[Effect Summary]\n"@ + "Before Physical Used: "@ + used_before + "\n"@ + "After Physical Used: "@ + used_after + "\n"@ + "Before Available: "@ + free_before + "\n"@ + "After Available: "@ + free_after + "\n"@ + "Available Delta: "@ + change + "\n"@ + "Process Trim Estimate: "@ + trimmed + "\n"@ + "System Cleanup Delta: "@ + freed + "\n"@ + "System Cleanup Executed: "@ + executed + "\n"@ + "System Cleanup Reason: "@ + reason + "\n"@ + "Working Set Rounds: "@ + rounds + "\n"@ + "\n"@, "Before Physical Used: "@ + used_before + "\n"@),
        text::contains("[Effect Summary]\n"@ + "Before Physical Used: "@ + used_before + "\n"@ + "After Physical Used: "@ + used_after + "\n"@ + "Before Available: "@ + free_before + "\n"@ + "After Available: "@ + free_after + "\n"@ + "Available Delta: "@ + change + "\n"@ + "Process Trim Estimate: "@ + trimmed + "\n"@ + "System Cleanup Delta: "@ + freed + "\n"@ + "System Cleanup Executed: "@ + executed + "\n"@ + "System Cleanup Reason: "@ + reason + "\n"@ + "Working Set Rounds: "@ + rounds + "\n"@ + "\n"@, "After Physical Used: "@ + used_after + "\n"@),
        text::contains("[Effect Summary]\n"@ + "Before Physical Used: "@ + used_before + "\n"@ + "After Physical Used: "@ + used_after + "\n"@ + "Before Available: "@ + free_before + "\n"@ + "After Available: "@ + free_after + "\n"@ + "Available Delta: "@ + change + "\n"@ + "Process Trim Estimate: "@ + trimmed + "\n"@ + "System Cleanup Delta: "@ + freed + "\n"@ + "System Cleanup Executed: "@ + executed + "\n"@ + "System Cleanup Reason: "@ + reason + "\n"@ + "Working Set Rounds: "@ + rounds + "\n"@ + "\n"@, "Before Available: "@ + free_before + "\n"@),
        text::contains("[Effect Summary]\n"@ + "Before Physical Used: "@ + used_before + "\n"@ + "After Physical Used: "@ + used_after + "\n"@ + "Before Available: "@ + free_before + "\n"@ + "After Available: "@ + free_after + "\n"@ + "Available Delta: "@ + change + "\n"@ + "Process Trim Estimate: "@ + trimmed + "\n"@ + "System Cleanup Delta: "@ + freed + "\n"@ + "System Cleanup Executed: "@ + executed + "\n"@ + "System Cleanup Reason: "@ + reason + "\n"@ + "Working Set Rounds: "@ + rounds + "\n"@ + "\n"@, "After Available: "@ + free_after + "\n"@),
        text::contains("[Effect Summary]\n"@ + "Before Physical Used: "@ + used_before + "\n"@ + "After Physical Used: "@ + used_after + "\n"@ + "Before Available: "@ + free_before + "\n"@ + "After Available: "@ + free_after + "\n"@ + "Available Delta: "@ + change + "\n"@ + "Process Trim Estimate: "@ + trimmed + "\n"@ + "System Cleanup Delta: "@ + freed + "\n"@ + "System Cleanup Executed: "@ + executed + "\n"@ + "System Cleanup Reason: "@ + reason + "\n"@ + "Working Set Rounds: "@ + rounds + "\n"@ + "\n"@, "Available Delta: "@ + change + "\n"@),
        text::contains("[Effect Summary]\n"@ + "Before Physical Used: "@ + used_before + "\n"@ + "After Physical Used: "@ + used_after + "\n"@ + "Before Available: "@ + free_before + "\n"@ + "After Available: "@ + free_after + "\n"@ + "Available Delta: "@ + change + "\n"@ + "Process Trim Estimate: "@ + trimmed + "\n"@ + "System Cleanup Delta: "@ + freed + "\n"@ + "System Cleanup Executed: "@ + executed + "\n"@ + "System Cleanup Reason: "@ + reason + "\n"@ + "Working Set Rounds: "@ + rounds + "\n"@ + "\n"@, "Process Trim Estimate: "@ + trimmed + "\n"@),
        text::contains("[Effect Summary]\n"@ + "Before Physical Used: "@ + used_before + "\n"@ + "After Physical Used: "@ + used_after + "\n"@ + "Before Available: "@ + free_before + "\n"@ + "After Available: "@ + free_after + "\n"@ + "Available Delta: "@ + change + "\n"@ + "Process Trim Estimate: "@ + trimmed + "\n"@ + "System Cleanup Delta: "@ + freed + "\n"@ + "System Cleanup Executed: "@ + executed + "\n"@ + "System Cleanup Reason: "@ + reason + "\n"@ + "Working Set Rounds: "@ + rounds + "\n"@ + "\n"@, "System Cleanup Delta: "@ + freed + "\n"@),
        text::contains("[Effect Summary]\n"@ + "Before Physical Used: "@ + used_before + "\n"@ + "After Physical Used: "@ + used_after + "\n"@ + "Before Available: "@ + free_before + "\n"@ + "After Available: "@ + free_after + "\n"@ + "Available Delta: "@ + change + "\n"@ + "Process Trim Estimate: "@ + trimmed + "\n"@ + "System Cleanup Delta: "@ + freed + "\n"@ + "System Cleanup Executed: "@ + executed + "\n"@ + "System Cleanup Reason: "@ + reason + "\n"@ + "Working Set Rounds: "@ + rounds + "\n"@ + "\n"@, "System Cleanup Executed: "@ + executed + "\n"@),
        text::contains("[Effect Summary]\n"@ + "Before Physical Used: "@ + used_before + "\n"@ + "After Physical Used: "@ + used_after + "\n"@ + "Before Available: "@ + free_before + "\n"@ + "After Available: "@ + free_after + "\n"@ + "Available Delta: "@ + change + "\n"@ + "Process Trim Estimate: "@ + trimmed + "\n"@ + "System Cleanup Delta: "@ + freed + "\n"@ + "System Cleanup Executed: "@ + executed + "\n"@ + "System Cleanup Reason: "@ + reason + "\n"@ + "Working Set Rounds: "@ + rounds + "\n"@ + "\n"@, "System Cleanup Reason: "@ + reason + "\n"@),
        text::contains("[Effect Summary]\n"@ + "Before Physical Used: "@ + used_before + "\n"@ + "After Physical Used: "@ + used_after + "\n"@ + "Before Available: "@ + free_before + "\n"@ + "After Available: "@ + free_after + "\n"@ + "Available Delta: "@ + change + "\n"@ + "Process Trim Estimate: "@ + trimmed + "\n"@ + "System Cleanup Delta: "@ + freed + "\n"@ + "System Cleanup Executed: "@ + executed + "\n"@ + "System Cleanup Reason: "@ + reason + "\n"@ + "Working Set Rounds: "@ + rounds + "\n"@ + "\n"@, "Working Set Rounds: "@ + rounds + "\n"@),
{
    let line0 = "[Effect Summary]\n"@;
    let line1 = "Before Physical Used: "@ + used_before + "\n"@;
    let line2 = "After Physical Used: "@ + used_after + "\n"@;
    let line3 = "Before Available: "@ + free_before + "\n"@;
    let line4 = "After Available: "@ + free_after + "\n"@;
    let line5 = "Available Delta: "@ + change + "\n"@;
    let line6 = "Process Trim Estimate: "@ + trimmed + "\n"@;
    let line7 = "System Cleanup Delta: "@ + freed + "\n"@;
    let line8 = "System Cleanup Executed: "@ + executed + "\n"@;
    let line9 = "System Cleanup Reason: "@ + reason + "\n"@;
    let line10 = "Working Set Rounds: "@ + rounds + "\n"@;
    let line11 = "\n"@;
    let upto0 = line0;
    text::appending_keeps_contents(Seq::empty(), line0);
    assert(Seq::<char>::empty() + line0 =~= upto0);
    let upto1 = upto0 + line1;
    assert(upto0 + "Before Physical Used: "@ + used_before + "\n"@ =~= upto1);
    text::appending_keeps_contents(upto0, line1);
    let upto2 = upto1 + line2;
    assert(upto1 + "After Physical Used: "@ + used_after + "\n"@ =~= upto2);
    text::appending_keeps_contents(upto1, line2);
    let upto3 = upto2 + line3;
    assert(upto2 + "Before Available: "@ + free_before + "\n"@ =~= upto3);
    text::appending_keeps_contents(upto2, line3);
    let upto4 = upto3 + line4;
    assert(upto3 + "After Available: "@ + free_after + "\n"@ =~= upto4);
    text::appending_keeps_contents(upto3, line4);
    let upto5 = upto4 + line5;
    assert(upto4 + "Available Delta: "@ + change + "\n"@ =~= upto5);
    text::appending_keeps_contents(upto4, line5);
    let upto6 = upto5 + line6;
    assert(upto5 + "Process Trim Estimate: "@ + trimmed + "\n"@ =~= upto6);
    text::appending_keeps_contents(upto5, line6);
    let upto7 = upto6 + line7;
    assert(upto6 + "System Cleanup Delta: "@ + freed + "\n"@ =~= upto7);
    text::appending_keeps_contents(upto6, line7);
    let upto8 = upto7 + line8;
    assert(upto7 + "System Cleanup Executed: "@ + executed + "\n"@ =~= upto8);
    text::appending_keeps_contents(upto7, line8);
    let upto9 = upto8 + line9;
    assert(upto8 + "System Cleanup Reason: "@ + reason + "\n"@ =~= upto9);
    text::appending_keeps_contents(upto8, line9);
    let upto10 = upto9 + line10;
    assert(upto9 + "Working Set Rounds: "@ + rounds + "\n"@ =~= upto10);
    text::appending_keeps_contents(upto9, line10);
    let upto11 = upto10 + line11;
    text::appending_keeps_contents(upto10, line11);
    assert("[Effect Summary]\n"@ + "Before Physical Used: "@ + used_before + "\n"@ + "After Physical Used: "@ + used_after + "\n"@ + "Before Available: "@ + free_before + "\n"@ + "After Available: "@ + free_after + "\n"@ + "Available Delta: "@ + change + "\n"@ + "Process Trim Estimate: "@ + trimmed + "\n"@ + "System Cleanup Delta: "@ + freed + "\n"@ + "System Cleanup Executed: "@ + executed + "\n"@ + "System Cleanup Reason: "@ + reason + "\n"@ + "Working Set Rounds: "@ + rounds + "\n"@ + "\n"@ == upto11);
}

/// A developer log shows what was in use and available before and after, by how much the
/// available memory changed, what trimming was estimated to free, and what the release of
/// system memory came to.
pub proof fn logs_show_the_effect(report: OptimizeReport)
    ensures
        text::contains(log_effect(report), "Before Physical Used: "@ + gb(report.effect.before_physical_used_bytes as nat) + "\n"@),
        text::contains(log_effect(report), "After Physical Used: "@ + gb(report.effect.after_physical_used_bytes as nat) + "\n"@),
        text::contains(log_effect(report), "Before Available: "@ + gb(report.effect.before_available_bytes as nat) + "\n"@),
        text::contains(log_effect(report), "After Available: "@ + gb(report.effect.after_available_bytes as nat) + "\n"@),
        text::contains(log_effect(report), "Available Delta: "@ + signed_bytes(report.effect.available_delta_bytes as int) + "\n"@),
        text::contains(log_effect(report), "Process Trim Estimate: "@ + gb(report.effect.process_trim_delta_bytes as nat) + "\n"@),
        text::contains(log_effect(report), "System Cleanup Delta: "@ + (match report.effect.standby_cleanup_delta_bytes { Some(delta) => signed_bytes(delta as int), None => "not recorded"@, }) + "\n"@),
        text::contains(log_effect(report), "System Cleanup Executed: "@ + truth(report.effect.system_cleanup_executed) + "\n"@),
        text::contains(log_effect(report), "System Cleanup Reason: "@ + (match report.effect.system_cleanup_skipped_reason { Some(reason) => reason@, None => "none"@, }) + "\n"@),
        text::contains(log_effect(report), "Working Set Rounds: "@ + text::decimal(report.effect.working_set_rounds as nat) + "\n"@),
{
    lemma_logs_show_the_effect(gb(report.effect.before_physical_used_bytes as nat), gb(report.effect.after_physical_used_bytes as nat), gb(report.effect.before_available_bytes as nat), gb(report.effect.after_available_bytes as nat), signed_bytes(report.effect.available_delta_bytes as int), gb(report.effect.process_trim_delta_bytes as nat), (match report.effect.standby_cleanup_delta_bytes { Some(delta) => signed_bytes(delta as int), None => "not recorded"@, }), truth(report.effect.system_cleanup_executed), (match report.effect.system_cleanup_skipped_reason { Some(reason) => reason@, None => "none"@, }), text::decimal(report.effect.working_set_rounds as nat));
}

/// Lines that follow upon one another are all in the whole.
proof fn lemma_reports_show_the_effect(rounds: Seq<char>, trimmed: Seq<char>, executed: Seq<char>, freed: Seq<char>, reason: Seq<char>, explanation: Seq<char>)
    ensures
        text::contains("Effect summary:\n"@ + "Working-set rounds:  "@ + rounds + "\n"@ + "Working-set estimate: "@ + trimmed + "\n"@ + "System cleanup:      "@ + executed + "\n"@ + freed + reason + explanation + "\n"@, "Working-set rounds:  "@ + rounds + "\n"@),
        text::contains("Effect summary:\n"@ + "Working-set rounds:  "@ + rounds + "\n"@ + "Working-set estimate: "@ + trimmed + "\n"@ + "System cleanup:      "@ + executed + "\n"@ + freed + reason + explanation + "\n"@, "Working-set estimate: "@ + trimmed + "\n"@),
        text::contains("Effect summary:\n"@ + "Working-set rounds:  "@ + rounds + "\n"@ + "Working-set estimate: "@ + trimmed + "\n"@ + "System cleanup:      "@ + executed + "\n"@ + freed + reason + explanation + "\n"@, "System cleanup:      "@ + executed + "\n"@),
        text::contains("Effect summary:\n"@ + "Working-set rounds:  "@ + rounds + "\n"@ + "Working-set estimate: "@ + trimmed + "\n"@ + "System cleanup:      "@ + executed + "\n"@ + freed + reason + explanation + "\n"@, freed),
        text::contains("Effect summary:\n"@ + "Working-set rounds:  "@ + rounds + "\n"@ + "Working-set estimate: "@ + trimmed + "\n"@ + "System cleanup:      "@ + executed + "\n"@ + freed + reason + explanation + "\n"@, reason),
        text::contains("Effect summary:\n"@ + "Working-set rounds:  "@ + rounds + "\n"@ + "Working-set estimate: "@ + trimmed + "\n"@ + "System cleanup:      "@ + executed + "\n"@ + freed + reason + explanation + "\n"@, explanation),
{
    let line0 = "Effect summary:\n"@;
    let line1 = "Working-set rounds:  "@ + rounds + "\n"@;
    let line2 = "Working-set estimate: "@ + trimmed + "\n"@;
    let line3 = "System cleanup:      "@ + executed + "\n"@;
    let line4 = freed;
    let line5 = reason;
    let line6 = explanation;
    let line7 = "\n"@;
    let upto0 = line0;
    text::appending_keeps_contents(Seq::empty(), line0);
    assert(Seq::<char>::empty() + line0 =~= upto0);
    let upto1 = upto0 + line1;
    assert(upto0 + "Working-set rounds:  "@ + rounds + "\n"@ =~= upto1);
    text::appending_keeps_contents(upto0, line1);
    let upto2 = upto1 + line2;
    assert(upto1 + "Working-set estimate: "@ + trimmed + "\n"@ =~= upto2);
    text::appending_keeps_contents(upto1, line2);
    let upto3 = upto2 + line3;
    assert(upto2 + "System cleanup:      "@ + executed + "\n"@ =~= upto3);
    text::appending_keeps_contents(upto2, line3);
    let upto4 = upto3 + line4;
    text::appending_keeps_contents(upto3, line4);
    let upto5 = upto4 + line5;
    text::appending_keeps_contents(upto4, line5);
    let upto6 = upto5 + line6;
    text::appending_keeps_contents(upto5, line6);
    let upto7 = upto6 + line7;
    text::appending_keeps_contents(upto6, line7);
    assert("Effect summary:\n"@ + "Working-set rounds:  "@ + rounds + "\n"@ + "Working-set estimate: "@ + trimmed + "\n"@ + "System cleanup:      "@ + executed + "\n"@ + freed + reason + explanation + "\n"@ == upto7);
}

/// A report shows the rounds, what trimming was estimated to free, whether the system-wide
/// cleanup was executed and, where known, by how much it changed the available memory and what
/// there is to say of it.
pub proof fn reports_show_the_effect(report: OptimizeReport)
    ensures
        text::contains(effect_lines(report), "Working-set rounds:  "@ + text::decimal(rounds_shown(report)) + "\n"@),
        text::contains(effect_lines(report), "Working-set estimate: "@ + gb(report.effect.process_trim_delta_bytes as nat) + "\n"@),
        text::contains(effect_lines(report), "System cleanup:      "@ + (if report.effect.system_cleanup_executed { "executed"@ } else { "skipped"@ }) + "\n"@),
        text::contains(effect_lines(report), (match report.effect.standby_cleanup_delta_bytes { Some(delta) => "System cleanup delta: "@ + signed_bytes(delta as int) + "\n"@, None => ""@, })),
        text::contains(effect_lines(report), (match report.effect.system_cleanup_skipped_reason { Some(reason) => "System cleanup reason: "@ + reason@ + "\n"@, None => ""@, })),
        text::contains(effect_lines(report), small_effect_lines(report)),
{
    lemma_reports_show_the_effect(text::decimal(rounds_shown(report)), gb(report.effect.process_trim_delta_bytes as nat), (if report.effect.system_cleanup_executed { "executed"@ } else { "skipped"@ }), (match report.effect.standby_cleanup_delta_bytes { Some(delta) => "System cleanup delta: "@ + signed_bytes(delta as int) + "\n"@, None => ""@, }), (match report.effect.system_cleanup_skipped_reason { Some(reason) => "System cleanup reason: "@ + reason@ + "\n"@, None => ""@, }), small_effect_lines(report));
}

/// Lines that follow upon one another are all in the whole.
proof fn lemma_reports_are_complete(start: Seq<char>, result: Seq<char>, effect: Seq<char>, top: Seq<char>)
    ensures
        text::contains(start + result + effect + "Top handled processes:\n"@ + top, start),
        text::contains(start + result + effect + "Top handled processes:\n"@ + top, result),
        text::contains(start + result + effect + "Top handled processes:\n"@ + top, effect),
        text::contains(start + result + effect + "Top handled processes:\n"@ + top, "Top handled processes:\n"@ + top),
{
    let line0 = start;
    let line1 = result;
    let line2 = effect;
    let line3 = "Top handled processes:\n"@ + top;
    let upto0 = line0;
    text::appending_keeps_contents(Seq::empty(), line0);
    assert(Seq::<char>::empty() + line0 =~= upto0);
    let upto1 = upto0 + line1;
    text::appending_keeps_contents(upto0, line1);
    let upto2 = upto1 + line2;
    text::appending_keeps_contents(upto1, line2);
    let upto3 = upto2 + line3;
    assert(upto2 + "Top handled processes:\n"@ + top =~= upto3);
    text::appending_keeps_contents(upto2, line3);
    assert(start + result + effect + "Top handled processes:\n"@ + top == upto3);
}

/// The report of an optimization that was carried out holds its outcome, its result and its
/// effect, and the processes that shrank most.
pub proof fn reports_are_complete(report: OptimizeReport)
    ensures
        text::contains(full_text(report), opening(report)),
        text::contains(full_text(report), result_lines(report)),
        text::contains(full_text(report), effect_lines(report)),
        text::contains(full_text(report), "Top handled processes:\n"@ + top_lines(report)),
{
    lemma_reports_are_complete(opening(report), result_lines(report), effect_lines(report), top_lines(report));
}

/// Lines that follow upon one another are all in the whole.
proof fn lemma_previews_are_complete(handled: Seq<char>, summary: Seq<char>, details: Seq<char>, rounds: Seq<char>, cleanup: Seq<char>)
    ensures
        text::contains("Dry Run - 25% Target Preview\n\n"@ + "Will handle working sets:\n"@ + handled + "\nSkipped summary:\n"@ + summary + details + "\nPlanned working-set rounds: "@ + rounds + "\n"@ + cleanup, "Dry Run - 25% Target Preview\n\n"@),
        text::contains("Dry Run - 25% Target Preview\n\n"@ + "Will handle working sets:\n"@ + handled + "\nSkipped summary:\n"@ + summary + details + "\nPlanned working-set rounds: "@ + rounds + "\n"@ + cleanup, "Will handle working sets:\n"@ + handled),
        text::contains("Dry Run - 25% Target Preview\n\n"@ + "Will handle working sets:\n"@ + handled + "\nSkipped summary:\n"@ + summary + details + "\nPlanned working-set rounds: "@ + rounds + "\n"@ + cleanup, "\nSkipped summary:\n"@ + summary),
        text::contains("Dry Run - 25% Target Preview\n\n"@ + "Will handle working sets:\n"@ + handled + "\nSkipped summary:\n"@ + summary + details + "\nPlanned working-set rounds: "@ + rounds + "\n"@ + cleanup, details),
        text::contains("Dry Run - 25% Target Preview\n\n"@ + "Will handle working sets:\n"@ + handled + "\nSkipped summary:\n"@ + summary + details + "\nPlanned working-set rounds: "@ + rounds + "\n"@ + cleanup, "\nPlanned working-set rounds: "@ + rounds + "\n"@),
        text::contains("Dry Run - 25% Target Preview\n\n"@ + "Will handle working sets:\n"@ + handled + "\nSkipped summary:\n"@ + summary + details + "\nPlanned working-set rounds: "@ + rounds + "\n"@ + cleanup, cleanup),
{
    let line0 = "Dry Run - 25% Target Preview\n\n"@;
    let line1 = "Will handle working sets:\n"@ + handled;
    let line2 = "\nSkipped summary:\n"@ + summary;
    let line3 = details;
    let line4 = "\nPlanned working-set rounds: "@ + rounds + "\n"@;
    let line5 = cleanup;
    let upto0 = line0;
    text::appending_keeps_contents(Seq::empty(), line0);
    assert(Seq::<char>::empty() + line0 =~= upto0);
    let upto1 = upto0 + line1;
    assert(upto0 + "Will handle working sets:\n"@ + handled =~= upto1);
    text::appending_keeps_contents(upto0, line1);
    let upto2 = upto1 + line2;
    assert(upto1 + "\nSkipped summary:\n"@ + summary =~= upto2);
    text::appending_keeps_contents(upto1, line2);
    let upto3 = upto2 + line3;
    text::appending_keeps_contents(upto2, line3);
    let upto4 = upto3 + line4;
    assert(upto3 + "\nPlanned working-set rounds: "@ + rounds + "\n"@ =~= upto4);
    text::appending_keeps_contents(upto3, line4);
    let upto5 = upto4 + line5;
    text::appending_keeps_contents(upto4, line5);
    assert("Dry Run - 25% Target Preview\n\n"@ + "Will handle working sets:\n"@ + handled + "\nSkipped summary:\n"@ + summary + details + "\nPlanned working-set rounds: "@ + rounds + "\n"@ + cleanup == upto5);
}

/// A preview lists the working sets that would be trimmed, sums up the processes left alone,
/// lists these where that is asked for and says how to ask for it else, and shows the rounds
/// and what would become of the system-wide cleanup.
pub proof fn previews_are_complete(report: OptimizeReport, verbose: bool)
    ensures
        text::contains(preview_text(report, verbose), "Dry Run - 25% Target Preview\n\n"@),
        text::contains(preview_text(report, verbose), "Will handle working sets:\n"@ + (if any_would_trim(report.results@) { preview_lines(report.results@) } else { "(none)\n"@ })),
        text::contains(preview_text(report, verbose), "\nSkipped summary:\n"@ + (if any_skipped(report.results@) { summary_lines(summary_before(report.results@, 14)) } else { "(none)\n"@ })),
        text::contains(preview_text(report, verbose), (if verbose { "\nSkipped details:\n"@ + skip_lines(report.results@) } else { "\nUse --verbose to show all skipped processes.\n"@ })),
        text::contains(preview_text(report, verbose), "\nPlanned working-set rounds: "@ + text::decimal(rounds_shown(report)) + "\n"@),
        text::contains(preview_text(report, verbose), (match report.effect.system_cleanup_skipped_reason { Some(reason) => "System cleanup: skipped ("@ + reason@ + ")\n"@, None => if report.effect.system_cleanup_executed { "System cleanup: would execute when not dry-run\n"@ } else { "System cleanup: skipped\n"@ }, })),
{
    lemma_previews_are_complete((if any_would_trim(report.results@) { preview_lines(report.results@) } else { "(none)\n"@ }), (if any_skipped(report.results@) { summary_lines(summary_before(report.results@, 14)) } else { "(none)\n"@ }), (if verbose { "\nSkipped details:\n"@ + skip_lines(report.results@) } else { "\nUse --verbose to show all skipped processes.\n"@ }), text::decimal(rounds_shown(report)), (match report.effect.system_cleanup_skipped_reason { Some(reason) => "System cleanup: skipped ("@ + reason@ + ")\n"@, None => if report.effect.system_cleanup_executed { "System cleanup: would execute when not dry-run\n"@ } else { "System cleanup: skipped\n"@ }, }));
}

/// A dry run is shown as a preview, and an optimization that was carried out as a report,
/// whatever detail is asked for.
pub proof fn previews_are_for_dry_runs(report: OptimizeReport, verbose: bool)
    ensures
        report.dry_run ==> report_text(report, verbose) == preview_text(report, verbose),
        !report.dry_run ==> report_text(report, verbose) == full_text(report),
{
}

/// The results of trimmed processes are picked out of all results, in order and with none
/// left out.
pub proof fn trimmed_rows_are_the_trimmed_ones(results: Seq<TrimResult>, result: TrimResult)
    ensures
        trimmed_rows(Seq::empty()) == Seq::<TrimResult>::empty(),
        result.status is Trimmed ==> trimmed_rows(results.push(result)) == trimmed_rows(
            results,
        ).push(result),
        !(result.status is Trimmed) ==> trimmed_rows(results.push(result)) == trimmed_rows(results),
{
    assert(results.push(result).drop_last() =~= results);
}

/// A working set shrank by the difference of its sizes; one that grew, or that was not
/// measured, did not shrink.
pub proof fn shrinkage_is_the_difference(result: TrimResult, after: u64)
    ensures
        result.after_working_set == Some(after) && after <= result.before_working_set ==> after
            + shrinkage(result) == result.before_working_set,
        result.after_working_set == Some(after) && after > result.before_working_set ==> shrinkage(
            result,
        ) == 0,
        result.after_working_set is None ==> shrinkage(result) == 0,
{
}

/// Trimmed results are no more than the results.
proof fn lemma_trimmed_rows(results: Seq<TrimResult>)
    ensures
        trimmed_rows(results).len() <= results.len(),
    decreases results.len(),
{
    if results.len() > 0 {
        lemma_trimmed_rows(results.drop_last());
    }
}

/// The first rows are as many as asked for, or all where there are fewer; they stand by
/// descending shrinkage, each is a trimmed result, and no trimmed result that is left out
/// shrank more than the last one shown.
pub proof fn top_rows_shrank_most(results: Seq<TrimResult>, limit: nat)
    requires
        results.len() <= usize::MAX,
    ensures
        trimmed_rows(results).len() <= limit ==> top_rows(results, limit).len() == trimmed_rows(
            results,
        ).len(),
        trimmed_rows(results).len() >= limit ==> top_rows(results, limit).len() == limit,
        forall|i: int, j: int|
            0 <= i < j < top_rows(results, limit).len() ==> shrinkage(
                #[trigger] top_rows(results, limit)[i],
            ) >= shrinkage(#[trigger] top_rows(results, limit)[j]),
        forall|i: int|
            0 <= i < top_rows(results, limit).len() ==> trimmed_rows(results).contains(
                #[trigger] top_rows(results, limit)[i],
            ),
        forall|i: int, k: int|
            0 <= i < limit && limit <= k < by_shrinkage(results).len() ==> shrinkage(
                #[trigger] top_rows(results, limit)[i],
            ) >= shrinkage(#[trigger] by_shrinkage(results)[k]),
        by_shrinkage(results).to_multiset() == trimmed_rows(results).to_multiset(),
{
    lemma_trimmed_rows(results);
    let rows = trimmed_rows(results);
    let keys = shrinkage_keys(rows);
    order::descending_order_exists(keys);
    let order = choose|o: Seq<usize>| order::is_descending_order(o, keys);
    let all = by_shrinkage(results);
    assert(all == order::rearranged(rows, order));
    order::sorting_keeps_items(rows, order, keys);
    assert forall|i: int, j: int| 0 <= i < j < all.len() implies shrinkage(#[trigger] all[i])
        >= shrinkage(#[trigger] all[j]) by {
        order::descending_orders_descend(order, keys, i, j);
    }
    assert forall|i: int| 0 <= i < top_rows(results, limit).len() implies rows.contains(
        #[trigger] top_rows(results, limit)[i],
    ) by {
        assert(top_rows(results, limit)[i] == all[i]);
        assert(all[i] == rows[order[i] as int]);
    }
    assert forall|i: int, j: int|
        0 <= i < j < top_rows(results, limit).len() implies shrinkage(
        #[trigger] top_rows(results, limit)[i],
    ) >= shrinkage(#[trigger] top_rows(results, limit)[j]) by {
        assert(top_rows(results, limit)[i] == all[i]);
        assert(top_rows(results, limit)[j] == all[j]);
    }
}

/// The section of the processes that shrank most holds one line for each of the ten trimmed
/// processes that shrank most, in that order, and for all of them where there are fewer; where
/// there is none it says so.
pub proof fn ten_processes_are_shown(report: OptimizeReport)
    requires
        report.results@.len() <= usize::MAX,
    ensures
        trimmed_rows(report.results@).len() == 0 ==> top_lines(report) == "(none)\n"@,
        0 < trimmed_rows(report.results@).len() <= 10 ==> top_lines(report) == row_lines(
            by_shrinkage(report.results@),
        ),
        trimmed_rows(report.results@).len() > 10 ==> top_lines(report) == row_lines(
            by_shrinkage(report.results@).take(10),
        ) && by_shrinkage(report.results@).take(10).len() == 10,
        by_shrinkage(report.results@).len() == trimmed_rows(report.results@).len(),
{
    lemma_trimmed_rows(report.results@);
    let keys = shrinkage_keys(trimmed_rows(report.results@));
    order::descending_order_exists(keys);
}

/// Rows are shown one line each, in their order: the name, the working set before, and the
/// working set after.
pub proof fn rows_are_shown_in_order(rows: Seq<TrimResult>, row: TrimResult)
    ensures
        row_lines(Seq::empty()) == Seq::<char>::empty(),
        row_lines(rows.push(row)) == row_lines(rows) + row_line(row),
        row_line(row) == text::left_aligned(row.name@, 24) + " "@ + text::right_aligned(
            working_set(row.before_working_set as nat),
            8,
        ) + " -> "@ + text::right_aligned(
            match row.after_working_set {
                Some(after) => working_set(after as nat),
                None => "unknown"@,
            },
            8,
        ) + "\n"@,
{
    assert(rows.push(row).drop_last() =~= rows);
}

/// A preview has one line for each working set that would be trimmed, with its name and size,
/// and, in detail, one for each process left alone, with its name and the reason.
pub proof fn previews_show_every_process(results: Seq<TrimResult>, result: TrimResult)
    ensures
        preview_lines(Seq::empty()) == ""@,
        skip_lines(Seq::empty()) == ""@,
        result.status is WouldTrim ==> preview_lines(results.push(result)) == preview_lines(results)
            + (text::left_aligned(result.name@, 24) + " "@ + text::right_aligned(
            working_set(result.before_working_set as nat),
            8,
        ) + "    reason: background large working set\n"@),
        !(result.status is WouldTrim) ==> preview_lines(results.push(result)) == preview_lines(
            results,
        ),
        result.status matches TrimStatus::Skipped(reason) ==> skip_lines(results.push(result))
            == skip_lines(results) + (text::left_aligned(result.name@, 24) + " reason: "@
            + reason.described() + "\n"@),
        !(result.status is Skipped) ==> skip_lines(results.push(result)) == skip_lines(results),
{
    assert(results.push(result).drop_last() =~= results);
}

/// A preview says that there is none only where no process would be trimmed, or none was left
/// alone.
pub proof fn previews_say_none_only_of_none(results: Seq<TrimResult>, i: int)
    requires
        0 <= i < results.len(),
    ensures
        results[i].status is WouldTrim ==> any_would_trim(results),
        results[i].status is Skipped ==> any_skipped(results),
        (forall|k: int| 0 <= k < results.len() ==> !((#[trigger] results[k]).status is WouldTrim))
            ==> !any_would_trim(results),
        (forall|k: int| 0 <= k < results.len() ==> !((#[trigger] results[k]).status is Skipped))
            ==> !any_skipped(results),
{
}

/// The reasons to leave a process alone are summed up under their own labels.
pub proof fn reasons_are_summed_up_under_their_labels(reason: SkipReason)
    ensures
        summary_labels().len() == 14,
        0 <= summary_place(reason) < 14,
        summary_labels()[summary_place(reason)] == match reason {
            SkipReason::SystemProcess => "System process:"@,
            SkipReason::SystemBoundaryProcess => "System boundary:"@,
            SkipReason::LegacyRecommendedRule => "Legacy recommended rule:"@,
            SkipReason::LegacyUserRule => "Legacy user rule:"@,
            SkipReason::WorkingSetTooSmall => "Working set too small:"@,
            SkipReason::QueryFailed => "Process query failed:"@,
            SkipReason::ForegroundProcess => "Foreground process:"@,
            SkipReason::SelfProcess => "Self process:"@,
            SkipReason::AccessDenied => "Access denied:"@,
            SkipReason::OpenProcessFailed => "OpenProcess failed:"@,
            SkipReason::ProcessExited => "Process exited:"@,
            SkipReason::HighCpuUsage => "High CPU usage:"@,
            SkipReason::HighIoActivity => "High I/O activity:"@,
            SkipReason::Other(_) => "Other:"@,
        },
{
}

/// Reasons that are not told apart by a message have places of their own in the summary.
pub proof fn places_tell_reasons_apart(a: SkipReason, b: SkipReason)
    requires
        summary_place(a) == summary_place(b),
        !(a is Other),
    ensures
        a == b,
{
}

/// A process left alone is counted at the place of its reason, and at no other.
pub proof fn skips_are_counted_at_their_place(
    results: Seq<TrimResult>,
    result: TrimResult,
    place: int,
)
    ensures
        skips_at(Seq::empty(), place) == 0,
        ({
            let more = skips_at(results.push(result), place) - skips_at(results, place);
            match result.status {
                TrimStatus::Skipped(reason) => {
                    &&& summary_place(reason) == place ==> more == 1
                    &&& summary_place(reason) != place ==> more == 0
                },
                _ => more == 0,
            }
        }),
{
    assert(results.push(result).drop_last() =~= results);
}

/// The summary has an entry for each place at which a process was counted, with the label and
/// the count, and for no other; the places keep their order.
pub proof fn summaries_list_what_occurs(results: Seq<TrimResult>, place: int)
    requires
        0 <= place < 14,
    ensures
        summary_before(results, 0).len() == 0,
        skips_at(results, place) > 0 ==> summary_before(results, place + 1) == summary_before(
            results,
            place,
        ).push((summary_labels()[place], skips_at(results, place))),
        skips_at(results, place) == 0 ==> summary_before(results, place + 1) == summary_before(
            results,
            place,
        ),
{
}

/// The summary is shown with one line for each entry: the label, and the count to its right.
pub proof fn summaries_are_shown_line_by_line(
    entries: Seq<(Seq<char>, nat)>,
    label: Seq<char>,
    count: nat,
)
    ensures
        summary_lines(Seq::empty()) == ""@,
        summary_lines(entries.push((label, count))) == summary_lines(entries) + (
        text::left_aligned(label, 24) + " "@ + text::right_aligned(text::decimal(count), 5)
            + "\n"@),
{
    assert(entries.push((label, count)).drop_last() =~= entries);
}

/// The target counts as met if the optimization was carried out and at most a quarter of the
/// physical memory is in use after it, on machines with up to 81 TiB.
pub proof fn a_met_target_is_a_quarter(report: OptimizeReport)
    requires
        0 < report.after.total_physical <= 90_071_992_547_409,
    ensures
        met_target(report) <==> !report.dry_run && 4 * report.after.used()
            <= report.after.total_physical,
        target_word(report) == "reached"@ || target_word(report) == "not reached"@,
        !report.dry_run && 4 * report.after.used() <= report.after.total_physical ==> target_word(
            report,
        ) == "reached"@,
        report.dry_run || 4 * report.after.used() > report.after.total_physical ==> target_word(
            report,
        ) == "not reached"@,
{
    crate::memory::target_is_a_quarter(report.after);
}

/// What is said of the release: that it is a preview in a dry run; else that memory was
/// released, that it was checked where there is something to say, or that nothing changed.
pub proof fn releases_are_named(report: OptimizeReport)
    ensures
        report.dry_run ==> release_word(report) == "preview"@,
        !report.dry_run && report.effect.system_cleanup_executed ==> release_word(report)
            == "released"@,
        !report.dry_run && !report.effect.system_cleanup_executed
            && report.effect.system_cleanup_skipped_reason is Some ==> release_word(report)
            == "checked"@,
        !report.dry_run && !report.effect.system_cleanup_executed
            && report.effect.system_cleanup_skipped_reason is None ==> release_word(report)
            == "no visible change"@,
{
}

/// At least one round is shown, and else as many as there were.
pub proof fn at_least_one_round_is_shown(report: OptimizeReport)
    ensures
        report.effect.working_set_rounds >= 1 ==> rounds_shown(report)
            == report.effect.working_set_rounds,
        report.effect.working_set_rounds == 0 ==> rounds_shown(report) == 1,
{
}

/// A change of less than 256 MiB in either direction is explained, and no other.
pub proof fn small_effects_are_explained(report: OptimizeReport)
    ensures
        -268_435_456 < report.increase() < 268_435_456 ==> small_effect_lines(report)
            == "Small-effect explanation:\n1. Most background processes may already have low working sets.\n2. Foreground, system boundary, or threshold rules may have skipped processes.\n3. System-level standby list cleanup may be disabled.\n4. Windows may keep pages in standby/cache state after process trimming.\n"@,
        report.increase() >= 268_435_456 || report.increase() <= -268_435_456
            ==> small_effect_lines(report) == ""@,
{
}

/// A working set of nothing is shown as nothing, one below a mebibyte as such, and any other
/// in mebibytes.
pub proof fn small_working_sets_are_shown_as_such(bytes: nat)
    ensures
        working_set(0) == "0 MB"@,
        0 < bytes < 1048576 ==> working_set(bytes) == "<1 MB"@,
        bytes >= 1048576 ==> working_set(bytes) == mb(bytes),
        optional_working_set(None) == "unknown"@,
        bytes <= u64::MAX ==> optional_working_set(Some(bytes as u64)) == working_set(bytes),
{
}

/// Sizes are shown to the nearest tenth of a gibibyte or the nearest mebibyte.
pub proof fn sizes_are_shown_to_the_nearest(bytes: nat) -> (shown: (nat, nat))
    requires
        bytes < 9007199254740992,
    ensures
        gb(bytes) == text::tenths(shown.0) + " GB"@,
        20 * bytes <= 2 * (shown.0 * 1073741824) + 1073741824,
        2 * (shown.0 * 1073741824) <= 20 * bytes + 1073741824,
        mb(bytes) == text::decimal(shown.1) + " MB"@,
        2 * bytes <= 2 * (shown.1 * 1048576) + 1048576,
        2 * (shown.1 * 1048576) <= 2 * bytes + 1048576,
{
    double::small_integers_are_exact(bytes);
    double::rounding_is_to_the_nearest(10 * bytes, 1073741824);
    double::rounding_is_to_the_nearest(bytes, 1048576);
    (double::rounded(10 * bytes, 1073741824), double::rounded(bytes, 1048576))
}

/// A change is shown with its sign and its size.
pub proof fn changes_are_shown_with_their_sign(bytes: nat)
    ensures
        signed_bytes(bytes as int) == "+"@ + gb(bytes),
        bytes > 0 ==> signed_bytes(-(bytes as int)) == "-"@ + gb(bytes),
{
}

/// Durations are shown to the nearest hundredth of a second; half a hundredth may go either
/// way.
pub proof fn durations_are_shown_to_the_nearest(duration_ms: nat)
    requires
        duration_ms < 1_000_000_000_000_000,
    ensures
        duration_ms % 10 < 5 ==> seconds(duration_ms) == text::hundredths(duration_ms / 10),
        duration_ms % 10 > 5 ==> seconds(duration_ms) == text::hundredths(duration_ms / 10 + 1),
{
    double::small_integers_are_exact(duration_ms);
    let a = duration_ms;
    if a > 0 {
        double::lemma_quotient_scaled(a, 1000);
        let (n, d) = double::double_quotient(a, 1000);
        double::rounding_is_to_the_nearest(d * a, 1000);
        assert(d > 4000) by (nonlinear_arith)
            requires
                d * a >= 1000 * 4503599627370496,
                a < 1_000_000_000_000_000,
        ;
        let m = if a % 10 < 5 {
            a / 10
        } else {
            a / 10 + 1
        };
        if a % 10 != 5 {
            let r = a - 10 * m;
            assert(-4 <= r <= 4);
            assert(d * a == 10 * (m * d) + r * d) by (nonlinear_arith)
                requires
                    a == 10 * m + r,
            ;
            assert(-4 * d <= r * d <= 4 * d) by (nonlinear_arith)
                requires
                    -4 <= r <= 4,
                    d > 0,
            ;
            double::near_fractions_round_to_the_integer(100 * n, d, m);
        }
    } else {
        double::near_fractions_round_to_the_integer(0, 1, 0);
    }
}

/// The word for a truth value tells the two apart.
pub proof fn truth_is_told(value: bool)
    ensures
        value ==> truth(value) == "true"@,
        !value ==> truth(value) == "false"@,
{
}

/// A tally is shown with one line for each label, its count behind it; an empty one as none.
pub proof fn tallies_are_shown_line_by_line(table: Seq<LabelCount>, entry: LabelCount)
    ensures
        counts_lines(Seq::empty()) == "none\n"@,
        tally_lines(Seq::empty()) == ""@,
        tally_lines(table.push(entry)) == tally_lines(table) + (entry.label@ + ": "@ + text::decimal(
            entry.count as nat,
        ) + "\n"@),
        counts_lines(table.push(entry)) == tally_lines(table.push(entry)),
{
    assert(table.push(entry).drop_last() =~= table);
}

/// Each process has one line in a developer log: its number, its name, its working set before
/// and after, and what became of it, with tabs between them.
pub proof fn logs_show_every_process_in_order(results: Seq<TrimResult>, row: TrimResult)
    ensures
        log_rows(Seq::empty()) == ""@,
        log_rows(results.push(row)) == log_rows(results) + (text::decimal(row.pid as nat) + "\t"@
            + row.name@ + "\t"@ + text::decimal(row.before_working_set as nat) + "\t"@ + (
        match row.after_working_set {
            Some(after) => text::decimal(after as nat),
            None => "null"@,
        }) + "\t"@ + row.status.described() + "\n"@),
{
    assert(results.push(row).drop_last() =~= results);
}

/// A developer log opens with its outcome and shows the effect.
pub proof fn developer_logs_show_outcome_and_effect(report: OptimizeReport, raw_json: Seq<char>)
    ensures
        text::contains(developer_log(report, raw_json), log_opening(report)),
        text::contains(developer_log(report, raw_json), log_effect(report)),
        text::contains(developer_log(report, raw_json), "[Raw Report JSON]\n"@),
{
    lemma_log_openings(parts_of(report, raw_json));
}

/// The text of a developer log contains its opening parts.
proof fn lemma_log_openings(parts: LogParts)
    ensures
        text::contains(log_text(parts), parts.opening),
        text::contains(log_text(parts), parts.effect),
        text::contains(log_text(parts), "[Raw Report JSON]\n"@),
{
    reveal(log_text);
    let sections = log_sections(parts);
    lemma_sections(sections, 0);
    lemma_sections(sections, 2);
    lemma_sections(sections, 17);
}

/// A further section stands behind those before it.
pub proof fn sections_follow_each_other(parts: Seq<Seq<char>>, part: Seq<char>)
    ensures
        all_sections(Seq::empty()) == Seq::<char>::empty(),
        all_sections(parts.push(part)) == all_sections(parts) + part,
{
    assert(parts.push(part).drop_last() =~= parts);
}

/// A developer log has these sections, in this order: the opening, the counters and the effect,
/// the reasons for which processes were left alone, the failures, the report in full, every
/// process, and the raw report.
pub proof fn logs_have_every_section_in_order(parts: LogParts)
    ensures
        log_text(parts) == parts.opening + parts.counters + parts.effect + "[Skip Reason Counts]\n"@ + parts.skips + "\n"@ + "[Failed Reason Counts]\n"@ + parts.failures + "\n"@ + "[Detailed Text Report]\n"@ + parts.detailed + "\n"@ + "\n"@ + "[Process Results]\n"@ + "pid\tname\tbefore_working_set\tafter_working_set\tstatus\n"@ + parts.rows + "\n"@ + "[Raw Report JSON]\n"@ + parts.raw_json + "\n"@,
{
    reveal(log_text);
    let s0 = Seq::<Seq<char>>::empty();
    let s1 = s0.push(parts.opening);
    sections_follow_each_other(s0, parts.opening);
    let s2 = s1.push(parts.counters);
    sections_follow_each_other(s1, parts.counters);
    let s3 = s2.push(parts.effect);
    sections_follow_each_other(s2, parts.effect);
    let s4 = s3.push("[Skip Reason Counts]\n"@);
    sections_follow_each_other(s3, "[Skip Reason Counts]\n"@);
    let s5 = s4.push(parts.skips);
    sections_follow_each_other(s4, parts.skips);
    let s6 = s5.push("\n"@);
    sections_follow_each_other(s5, "\n"@);
    let s7 = s6.push("[Failed Reason Counts]\n"@);
    sections_follow_each_other(s6, "[Failed Reason Counts]\n"@);
    let s8 = s7.push(parts.failures);
    sections_follow_each_other(s7, parts.failures);
    let s9 = s8.push("\n"@);
    sections_follow_each_other(s8, "\n"@);
    let s10 = s9.push("[Detailed Text Report]\n"@);
    sections_follow_each_other(s9, "[Detailed Text Report]\n"@);
    let s11 = s10.push(parts.detailed);
    sections_follow_each_other(s10, parts.detailed);
    let s12 = s11.push("\n"@);
    sections_follow_each_other(s11, "\n"@);
    let s13 = s12.push("\n"@);
    sections_follow_each_other(s12, "\n"@);
    let s14 = s13.push("[Process Results]\n"@);
    sections_follow_each_other(s13, "[Process Results]\n"@);
    let s15 = s14.push("pid\tname\tbefore_working_set\tafter_working_set\tstatus\n"@);
    sections_follow_each_other(s14, "pid\tname\tbefore_working_set\tafter_working_set\tstatus\n"@);
    let s16 = s15.push(parts.rows);
    sections_follow_each_other(s15, parts.rows);
    let s17 = s16.push("\n"@);
    sections_follow_each_other(s16, "\n"@);
    let s18 = s17.push("[Raw Report JSON]\n"@);
    sections_follow_each_other(s17, "[Raw Report JSON]\n"@);
    let s19 = s18.push(parts.raw_json);
    sections_follow_each_other(s18, parts.raw_json);
    let s20 = s19.push("\n"@);
    sections_follow_each_other(s19, "\n"@);
    assert(s20 =~= log_sections(parts));
    assert(Seq::<char>::empty() + parts.opening =~= parts.opening);
}

/// What stands in the developer log of a report.
pub proof fn logs_are_made_of_the_report(report: OptimizeReport, raw_json: Seq<char>)
    ensures
        ({
            let parts = parts_of(report, raw_json);
            &&& developer_log(report, raw_json) == log_text(parts)
            &&& parts.opening == log_opening(report)
            &&& parts.counters == log_counters(report)
            &&& parts.effect == log_effect(report)
            &&& parts.skips == counts_lines(order::tally_of(report::skip_labels(report.results@)))
            &&& parts.failures == counts_lines(
                order::tally_of(report::failure_labels(report.results@)),
            )
            &&& parts.detailed == report_text(report, true)
            &&& parts.rows == log_rows(report.results@)
            &&& parts.raw_json == raw_json
        }),
{
}

} // verus!
