//! How the window shows a report.

use crate::memory::{load_text, MemorySnapshot};
use crate::order;
use crate::order::LabelCount;
use crate::policy::{SkipReason, TrimStatus};
use crate::report::{OptimizeReport, TrimResult};
use crate::report_text;
use crate::report_text::{
    absolute, format_gb, format_seconds, format_signed_bytes, format_working_set, target_reached,
    top_trimmed,
};
use crate::text;
use crate::ui_texts::{in_language, ui_is_english, UiTexts};
use crate::ui_texts;
use vstd::prelude::*;

verus! {

// ---------------------------------------------------------------------------
// Memory
// ---------------------------------------------------------------------------

/// The summary of a snapshot.
pub open spec fn memory_summary(snapshot: MemorySnapshot, texts: UiTexts) -> Seq<char> {
    ui_texts::said(texts, "Memory load: "@, "内存占用："@) + snapshot.load_tenths()
        + ui_texts::said(texts, "%\nUsed memory: "@, "%\n已用内存："@) + report_text::gb(
        snapshot.used(),
    ) + ui_texts::said(texts, "\nAvailable memory: "@, "\n可用内存："@) + report_text::gb(
        snapshot.available_physical as nat,
    ) + ui_texts::said(texts, "\nTotal physical: "@, "\n总物理内存："@) + report_text::gb(
        snapshot.total_physical as nat,
    )
}

/// Writes the summary of a snapshot.
pub fn memory_summary_text(snapshot: &MemorySnapshot, texts: &UiTexts) -> (r: String)
    ensures
        r@ == memory_summary(*snapshot, *texts),
{
    let mut r: String = in_language(texts, "Memory load: ", "内存占用：").to_owned();
    r.append(load_text(snapshot).as_str());
    r.append(in_language(texts, "%\nUsed memory: ", "%\n已用内存："));
    r.append(format_gb(snapshot.used_physical()).as_str());
    r.append(in_language(texts, "\nAvailable memory: ", "\n可用内存："));
    r.append(format_gb(snapshot.available_physical).as_str());
    r.append(in_language(texts, "\nTotal physical: ", "\n总物理内存："));
    r.append(format_gb(snapshot.total_physical).as_str());
    r
}

/// The lines for a snapshot.
pub open spec fn snapshot_lines(snapshot: MemorySnapshot, texts: UiTexts) -> Seq<char> {
    texts.current_memory@ + ": "@ + report_text::gb(snapshot.used()) + " / "@ + report_text::gb(
        snapshot.total_physical as nat,
    ) + " ("@ + snapshot.load_tenths() + "%)\n"@ + texts.available_memory@ + ": "@
        + report_text::gb(snapshot.available_physical as nat) + "\n"@ + texts.system_cache@ + ": "@
        + report_text::gb(snapshot.system_cache as nat) + "\n"@ + texts.commit_usage@ + ": "@
        + report_text::gb(snapshot.commit_total as nat) + " / "@ + report_text::gb(
        snapshot.commit_limit as nat,
    ) + "\n"@ + texts.process_count@ + ": "@ + text::decimal(snapshot.process_count as nat) + "\n"@
}

/// Writes the lines for a snapshot.
pub fn format_snapshot_text(snapshot: &MemorySnapshot, texts: &UiTexts) -> (r: String)
    ensures
        r@ == snapshot_lines(*snapshot, *texts),
{
    let mut r: String = texts.current_memory.to_owned();
    r.append(": ");
    r.append(format_gb(snapshot.used_physical()).as_str());
    r.append(" / ");
    r.append(format_gb(snapshot.total_physical).as_str());
    r.append(" (");
    r.append(load_text(snapshot).as_str());
    r.append("%)\n");
    r.append(texts.available_memory);
    r.append(": ");
    r.append(format_gb(snapshot.available_physical).as_str());
    r.append("\n");
    r.append(texts.system_cache);
    r.append(": ");
    r.append(format_gb(snapshot.system_cache).as_str());
    r.append("\n");
    r.append(texts.commit_usage);
    r.append(": ");
    r.append(format_gb(snapshot.commit_total).as_str());
    r.append(" / ");
    r.append(format_gb(snapshot.commit_limit).as_str());
    r.append("\n");
    r.append(texts.process_count);
    r.append(": ");
    r.append(text::decimal_text(snapshot.process_count as u128).as_str());
    r.append("\n");
    r
}

/// The load after an optimization.
pub open spec fn final_load(report: OptimizeReport) -> Seq<char> {
    report.after.load_tenths() + "%"@
}

/// Writes the load after an optimization.
pub fn final_memory_load_text(report: &OptimizeReport) -> (r: String)
    ensures
        r@ == final_load(*report),
{
    let mut r: String = load_text(&report.after);
    r.append("%");
    r
}

/// The working set of a process, which may be unknown.
pub open spec fn optional_working_set(bytes: Option<u64>, texts: UiTexts) -> Seq<char> {
    match bytes {
        Some(bytes) => report_text::working_set(bytes as nat),
        None => texts.unknown@,
    }
}

/// Writes the working set of a process, which may be unknown.
pub fn format_optional_working_set_ui(bytes: Option<u64>, texts: &UiTexts) -> (r: String)
    ensures
        r@ == optional_working_set(bytes, *texts),
{
    match bytes {
        Some(bytes) => format_working_set(bytes),
        None => texts.unknown.to_owned(),
    }
}

// ---------------------------------------------------------------------------
// The outcome
// ---------------------------------------------------------------------------

/// The label for the target.
pub open spec fn target_label(report: OptimizeReport, texts: UiTexts) -> Seq<char> {
    if report.dry_run {
        ui_texts::said(texts, "25% target preview"@, "25% 目标预览"@)
    } else if report_text::met_target(report) {
        ui_texts::said(texts, "25% target reached"@, "25% 目标已达成"@)
    } else {
        ui_texts::said(texts, "25% target not reached"@, "25% 目标未达成"@)
    }
}

/// Writes the label for the target.
pub fn target_status_label(report: &OptimizeReport, texts: &UiTexts) -> (r: String)
    ensures
        r@ == target_label(*report, *texts),
{
    if report.dry_run {
        in_language(texts, "25% target preview", "25% 目标预览").to_owned()
    } else if target_reached(report) {
        in_language(texts, "25% target reached", "25% 目标已达成").to_owned()
    } else {
        in_language(texts, "25% target not reached", "25% 目标未达成").to_owned()
    }
}

/// How many working sets were handled, of how many.
pub open spec fn handled_share(report: OptimizeReport) -> Seq<char> {
    text::decimal(report.trimmed_count as nat) + " / "@ + text::decimal(report.scanned_count as nat)
}

/// Writes how many working sets were handled, of how many.
pub fn working_set_result_value(report: &OptimizeReport) -> (r: String)
    ensures
        r@ == handled_share(*report),
{
    let mut r: String = text::decimal_text(report.trimmed_count as u128);
    r.append(" / ");
    r.append(text::decimal_text(report.scanned_count as u128).as_str());
    r
}

/// The sentence on working sets.
pub open spec fn working_set_sentence(report: OptimizeReport, texts: UiTexts) -> Seq<char> {
    ui_texts::said(texts, "Working sets handled "@, "工作集处理 "@) + text::decimal(
        report.trimmed_count as nat,
    ) + ui_texts::said(texts, ", scanned "@, " 个，扫描 "@) + text::decimal(
        report.scanned_count as nat,
    ) + ui_texts::said(texts, ", kept/skipped "@, " 个，保留/跳过 "@) + text::decimal(
        report.skipped_count as nat,
    ) + ui_texts::said(texts, ", failed "@, " 个，失败 "@) + text::decimal(
        report.failed_count as nat,
    ) + ui_texts::said(texts, "."@, " 个。"@)
}

/// Writes the sentence on working sets.
pub fn working_set_result_detail(report: &OptimizeReport, texts: &UiTexts) -> (r: String)
    ensures
        r@ == working_set_sentence(*report, *texts),
{
    let mut r: String = in_language(texts, "Working sets handled ", "工作集处理 ").to_owned();
    r.append(text::decimal_text(report.trimmed_count as u128).as_str());
    r.append(in_language(texts, ", scanned ", " 个，扫描 "));
    r.append(text::decimal_text(report.scanned_count as u128).as_str());
    r.append(in_language(texts, ", kept/skipped ", " 个，保留/跳过 "));
    r.append(text::decimal_text(report.skipped_count as u128).as_str());
    r.append(in_language(texts, ", failed ", " 个，失败 "));
    r.append(text::decimal_text(report.failed_count as u128).as_str());
    r.append(in_language(texts, ".", " 个。"));
    r
}

/// The word for what the release of system memory came to.
pub open spec fn release_word(report: OptimizeReport, texts: UiTexts) -> Seq<char> {
    if report.dry_run {
        ui_texts::said(texts, "Preview"@, "预览"@)
    } else if report.effect.system_cleanup_executed {
        ui_texts::said(texts, "Released"@, "已释放"@)
    } else if report.effect.system_cleanup_skipped_reason is Some {
        ui_texts::said(texts, "Checked"@, "已检查"@)
    } else {
        ui_texts::said(texts, "No visible change"@, "无可见变化"@)
    }
}

/// Writes the word for what the release of system memory came to.
pub fn system_release_value_text(report: &OptimizeReport, texts: &UiTexts) -> (r: String)
    ensures
        r@ == release_word(*report, *texts),
{
    if report.dry_run {
        in_language(texts, "Preview", "预览").to_owned()
    } else if report.effect.system_cleanup_executed {
        in_language(texts, "Released", "已释放").to_owned()
    } else if report.effect.system_cleanup_skipped_reason.is_some() {
        in_language(texts, "Checked", "已检查").to_owned()
    } else {
        in_language(texts, "No visible change", "无可见变化").to_owned()
    }
}

/// What is put in English in the reason for a release, and how.
pub open spec fn english_phrases() -> Seq<(Seq<char>, Seq<char>)> {
    seq![
        ("内存优化目标释放失败："@, "target release failed: "@),
        (
            "advanced_cleanup 未启用，已跳过系统级清理"@,
            "advanced_cleanup is disabled; system cleanup was skipped"@,
        ),
        (
            "dry-run 只预览，不执行系统级清理"@,
            "dry run previews only; system cleanup was not executed"@,
        ),
        (
            "需要管理员权限，已跳过 standby list / 系统工作集清理"@,
            "administrator permission required; standby list and system working-set cleanup were skipped"@,
        ),
        ("启用系统级清理权限失败："@, "failed to enable system cleanup privilege: "@),
        ("系统工作集清理失败："@, "system working-set cleanup failed: "@),
        ("低优先级 standby list 清理失败："@, "low-priority standby list cleanup failed: "@),
        ("standby list 清理失败："@, "standby list cleanup failed: "@),
        (
            "modified page list 清理已预留，本版本默认不执行"@,
            "modified page list cleanup is reserved and not executed by default in this version"@,
        ),
        (
            "目标释放已进入终止阶段：候选 "@,
            "target release entered termination stage: candidates "@,
        ),
        ("，温和关闭 "@, ", graceful close "@),
        ("，强制终止 "@, ", force kill "@),
        ("，失败 "@, ", failed "@),
        ("；"@, "; "@),
        ("，"@, ", "@),
    ]
}

/// A text with phrases replaced, one after the other.
pub open spec fn with_phrases(s: Seq<char>, phrases: Seq<(Seq<char>, Seq<char>)>) -> Seq<char>
    decreases phrases.len(),
{
    if phrases.len() == 0 {
        s
    } else {
        text::replaced(
            with_phrases(s, phrases.drop_last()),
            phrases.last().0,
            phrases.last().1,
        )
    }
}

/// The reason for a release in the language of the window.
pub open spec fn localized_reason(reason: Seq<char>, texts: UiTexts) -> Seq<char> {
    if texts.english() {
        with_phrases(reason, english_phrases())
    } else {
        reason
    }
}

/// The phrases as texts.
pub open spec fn phrase_views(phrases: Seq<(&'static str, &'static str)>) -> Seq<
    (Seq<char>, Seq<char>),
> {
    phrases.map_values(|p: (&'static str, &'static str)| (p.0@, p.1@))
}

/// Puts the reason for a release into the language of the window.
pub fn localized_system_release_reason(reason: &str, texts: &UiTexts) -> (r: String)
    ensures
        r@ == localized_reason(reason@, *texts),
{
    if !ui_is_english(texts) {
        return reason.to_owned();
    }
    let phrases: Vec<(&'static str, &'static str)> = vec![
        ("内存优化目标释放失败：", "target release failed: "),
        (
            "advanced_cleanup 未启用，已跳过系统级清理",
            "advanced_cleanup is disabled; system cleanup was skipped",
        ),
        (
            "dry-run 只预览，不执行系统级清理",
            "dry run previews only; system cleanup was not executed",
        ),
        (
            "需要管理员权限，已跳过 standby list / 系统工作集清理",
            "administrator permission required; standby list and system working-set cleanup were skipped",
        ),
        ("启用系统级清理权限失败：", "failed to enable system cleanup privilege: "),
        ("系统工作集清理失败：", "system working-set cleanup failed: "),
        ("低优先级 standby list 清理失败：", "low-priority standby list cleanup failed: "),
        ("standby list 清理失败：", "standby list cleanup failed: "),
        (
            "modified page list 清理已预留，本版本默认不执行",
            "modified page list cleanup is reserved and not executed by default in this version",
        ),
        (
            "目标释放已进入终止阶段：候选 ",
            "target release entered termination stage: candidates ",
        ),
        ("，温和关闭 ", ", graceful close "),
        ("，强制终止 ", ", force kill "),
        ("，失败 ", ", failed "),
        ("；", "; "),
        ("，", ", "),
    ];
    let ghost all = english_phrases();
    proof {
        assert(phrase_views(phrases@) =~= all);
        reveal_strlit("内存优化目标释放失败：");
        reveal_strlit("advanced_cleanup 未启用，已跳过系统级清理");
        reveal_strlit("dry-run 只预览，不执行系统级清理");
        reveal_strlit("需要管理员权限，已跳过 standby list / 系统工作集清理");
        reveal_strlit("启用系统级清理权限失败：");
        reveal_strlit("系统工作集清理失败：");
        reveal_strlit("低优先级 standby list 清理失败：");
        reveal_strlit("standby list 清理失败：");
        reveal_strlit("modified page list 清理已预留，本版本默认不执行");
        reveal_strlit("目标释放已进入终止阶段：候选 ");
        reveal_strlit("，温和关闭 ");
        reveal_strlit("，强制终止 ");
        reveal_strlit("，失败 ");
        reveal_strlit("；");
        reveal_strlit("，");
        assert(forall|i: int| 0 <= i < all.len() ==> (#[trigger] all[i]).0.len() > 0);
    }
    let mut r: String = reason.to_owned();
    let mut i: usize = 0;
    while i < phrases.len()
        invariant
            i <= phrases@.len(),
            phrase_views(phrases@) == all,
            forall|j: int| 0 <= j < all.len() ==> (#[trigger] all[j]).0.len() > 0,
            r@ == with_phrases(reason@, all.take(i as int)),
        decreases phrases@.len() - i,
    {
        assert(all.take(i + 1).drop_last() =~= all.take(i as int));
        assert(all[i as int].0 == phrases@[i as int].0@);
        r = text::replace_text(r.as_str(), phrases[i].0, phrases[i].1);
        i = i + 1;
    }
    assert(all.take(i as int) =~= all);
    r
}

/// The sentence on the release of system memory.
pub open spec fn release_sentence(report: OptimizeReport, texts: UiTexts) -> Seq<char> {
    let delta = match report.effect.standby_cleanup_delta_bytes {
        Some(delta) => report_text::signed_bytes(delta as int),
        None => ui_texts::said(
            texts,
            "no available-memory delta recorded"@,
            "无可用内存变化记录"@,
        ),
    };
    let reason = match report.effect.system_cleanup_skipped_reason {
        Some(reason) => reason@,
        None => Seq::empty(),
    };
    if report.dry_run {
        ui_texts::said(
            texts,
            "Dry run does not release system working sets, standby lists, or candidate processes."@,
            "预览模式不执行系统工作集、Standby List 或候选进程释放。"@,
        )
    } else if reason.len() > 0 {
        delta + ui_texts::said(texts, "; "@, "；"@) + localized_reason(reason, texts)
    } else if report.effect.system_cleanup_executed {
        delta + ui_texts::said(
            texts,
            "; system release produced a visible effect."@,
            "；系统释放步骤已产生可见效果。"@,
        )
    } else {
        ui_texts::said(
            texts,
            "No visible system-release effect was recorded after working-set handling."@,
            "工作集处理后未记录到系统释放的可见变化。"@,
        )
    }
}

/// Writes the sentence on the release of system memory.
pub fn system_release_detail_text(report: &OptimizeReport, texts: &UiTexts) -> (r: String)
    ensures
        r@ == release_sentence(*report, *texts),
{
    if report.dry_run {
        return in_language(
            texts,
            "Dry run does not release system working sets, standby lists, or candidate processes.",
            "预览模式不执行系统工作集、Standby List 或候选进程释放。",
        ).to_owned();
    }
    let mut r: String = match report.effect.standby_cleanup_delta_bytes {
        Some(delta) => format_signed_bytes(delta),
        None => in_language(
            texts,
            "no available-memory delta recorded",
            "无可用内存变化记录",
        ).to_owned(),
    };
    if let Some(reason) = &report.effect.system_cleanup_skipped_reason {
        if !reason.as_str().is_empty() {
            r.append(in_language(texts, "; ", "；"));
            r.append(localized_system_release_reason(reason.as_str(), texts).as_str());
            return r;
        }
    }
    if report.effect.system_cleanup_executed {
        r.append(
            in_language(
                texts,
                "; system release produced a visible effect.",
                "；系统释放步骤已产生可见效果。",
            ),
        );
        return r;
    }
    in_language(
        texts,
        "No visible system-release effect was recorded after working-set handling.",
        "工作集处理后未记录到系统释放的可见变化。",
    ).to_owned()
}

// ---------------------------------------------------------------------------
// Processes
// ---------------------------------------------------------------------------

/// The line for a process that was handled.
pub open spec fn handled_line(row: TrimResult, texts: UiTexts) -> Seq<char> {
    row.name@ + "    "@ + report_text::working_set(row.before_working_set as nat) + " -> "@
        + optional_working_set(row.after_working_set, texts) + "    "@ + texts.reason@ + ": "@
        + texts.reason_background_large_ws@ + "    "@ + ui_texts::said(
        texts,
        "Status: Handled\n"@,
        "状态: 已处理\n"@,
    )
}

/// The lines for processes that were handled.
pub open spec fn handled_lines(rows: Seq<TrimResult>, texts: UiTexts) -> Seq<char>
    decreases rows.len(),
{
    if rows.len() == 0 {
        ""@
    } else {
        handled_lines(rows.drop_last(), texts) + handled_line(rows.last(), texts)
    }
}

/// The list of the processes that shrank most.
pub open spec fn top_list(report: OptimizeReport, texts: UiTexts) -> Seq<char> {
    let rows = report_text::top_rows(report.results@, 8);
    if rows.len() == 0 {
        ui_texts::said(
            texts,
            "No process was handled in this run. Candidates may have been kept by system, foreground, or activity rules."@,
            "本次没有实际处理进程。可能是候选进程较少，或大多被系统边界、前台规则、活跃度规则保留。"@,
        )
    } else {
        handled_lines(rows, texts)
    }
}

/// Writes the line for a process that was handled.
fn handled_row_text(row: &TrimResult, texts: &UiTexts) -> (r: String)
    ensures
        r@ == handled_line(*row, *texts),
{
    let mut r: String = row.name.clone();
    r.append("    ");
    r.append(format_working_set(row.before_working_set).as_str());
    r.append(" -> ");
    r.append(format_optional_working_set_ui(row.after_working_set, texts).as_str());
    r.append("    ");
    r.append(texts.reason);
    r.append(": ");
    r.append(texts.reason_background_large_ws);
    r.append("    ");
    r.append(in_language(texts, "Status: Handled\n", "状态: 已处理\n"));
    r
}

/// Writes the list of the processes that shrank most.
pub fn top_trimmed_text(report: &OptimizeReport, texts: &UiTexts) -> (r: String)
    ensures
        r@ == top_list(*report, *texts),
{
    let rows: Vec<TrimResult> = top_trimmed(report, 8);
    if rows.len() == 0 {
        return in_language(
            texts,
            "No process was handled in this run. Candidates may have been kept by system, foreground, or activity rules.",
            "本次没有实际处理进程。可能是候选进程较少，或大多被系统边界、前台规则、活跃度规则保留。",
        ).to_owned();
    }
    let mut r: String = "".to_owned();
    let mut i: usize = 0;
    while i < rows.len()
        invariant
            i <= rows@.len(),
            r@ == handled_lines(rows@.take(i as int), *texts),
        decreases rows@.len() - i,
    {
        assert(rows@.take(i + 1).drop_last() =~= rows@.take(i as int));
        r.append(handled_row_text(&rows[i], texts).as_str());
        i = i + 1;
    }
    assert(rows@.take(i as int) =~= rows@);
    r
}

/// The results of processes that would be handled.
pub open spec fn planned_rows(results: Seq<TrimResult>) -> Seq<TrimResult>
    decreases results.len(),
{
    if results.len() == 0 {
        Seq::empty()
    } else if results.last().status is WouldTrim {
        planned_rows(results.drop_last()).push(results.last())
    } else {
        planned_rows(results.drop_last())
    }
}

/// Collects the results of processes that would be handled.
fn planned(report: &OptimizeReport) -> (r: Vec<TrimResult>)
    ensures
        r@ == planned_rows(report.results@),
{
    let mut rows: Vec<TrimResult> = Vec::new();
    let mut i: usize = 0;
    while i < report.results.len()
        invariant
            i <= report.results@.len(),
            rows@ == planned_rows(report.results@.take(i as int)),
        decreases report.results@.len() - i,
    {
        assert(report.results@.take(i + 1).drop_last() =~= report.results@.take(i as int));
        if matches!(&report.results[i].status, TrimStatus::WouldTrim) {
            rows.push(report.results[i].clone());
        }
        i = i + 1;
    }
    assert(report.results@.take(i as int) =~= report.results@);
    rows
}

/// The line for a process that would be handled, up to its status.
pub open spec fn planned_line(row: TrimResult, texts: UiTexts, ending: Seq<char>) -> Seq<char> {
    row.name@ + "    "@ + report_text::working_set(row.before_working_set as nat) + "    "@
        + texts.reason@ + ": "@ + texts.reason_background_large_ws@ + ending
}

/// The lines for processes that would be handled.
pub open spec fn planned_lines(rows: Seq<TrimResult>, texts: UiTexts, ending: Seq<char>) -> Seq<char>
    decreases rows.len(),
{
    if rows.len() == 0 {
        ""@
    } else {
        planned_lines(rows.drop_last(), texts, ending) + planned_line(rows.last(), texts, ending)
    }
}

/// Writes the lines for the first `limit` processes that would be handled.
fn planned_text(rows: &Vec<TrimResult>, limit: usize, texts: &UiTexts, ending: &str) -> (r: String)
    ensures
        r@ == planned_lines(
            if rows@.len() <= limit {
                rows@
            } else {
                rows@.take(limit as int)
            },
            *texts,
            ending@,
        ),
{
    let mut r: String = "".to_owned();
    let mut i: usize = 0;
    while i < rows.len() && i < limit
        invariant
            i <= rows@.len(),
            i <= limit,
            r@ == planned_lines(rows@.take(i as int), *texts, ending@),
        decreases rows@.len() - i,
    {
        assert(rows@.take(i + 1).drop_last() =~= rows@.take(i as int));
        let mut line: String = rows[i].name.clone();
        line.append("    ");
        line.append(format_working_set(rows[i].before_working_set).as_str());
        line.append("    ");
        line.append(texts.reason);
        line.append(": ");
        line.append(texts.reason_background_large_ws);
        line.append(ending);
        r.append(line.as_str());
        i = i + 1;
    }
    assert(rows@.take(i as int) =~= if rows@.len() <= limit {
        rows@
    } else {
        rows@.take(limit as int)
    });
    r
}

/// The list of the first processes that would be handled.
pub open spec fn planned_list(report: OptimizeReport, texts: UiTexts) -> Seq<char> {
    let rows = planned_rows(report.results@);
    if rows.len() == 0 {
        ui_texts::said(
            texts,
            "Dry-run found no handleable processes. Most processes may be kept by system, foreground, or working-set threshold rules."@,
            "预览结果中没有可处理进程。多数进程可能已被系统边界、前台规则或工作集阈值保留。"@,
        )
    } else {
        ui_texts::said(
            texts,
            "Dry run does not optimize memory. These processes would be handled in a real run:\n"@,
            "预览模式不会执行内存优化；以下进程在正式执行时将作为工作集处理候选：\n"@,
        ) + planned_lines(
            if rows.len() <= 8 {
                rows
            } else {
                rows.take(8)
            },
            texts,
            ui_texts::said(
                texts,
                "    Status: Would handle\n"@,
                "    状态: 预计处理\n"@,
            ),
        )
    }
}

/// Writes the list of the first processes that would be handled.
pub fn will_trim_text(report: &OptimizeReport, texts: &UiTexts) -> (r: String)
    ensures
        r@ == planned_list(*report, *texts),
{
    let rows: Vec<TrimResult> = planned(report);
    if rows.len() == 0 {
        return in_language(
            texts,
            "Dry-run found no handleable processes. Most processes may be kept by system, foreground, or working-set threshold rules.",
            "预览结果中没有可处理进程。多数进程可能已被系统边界、前台规则或工作集阈值保留。",
        ).to_owned();
    }
    let mut r: String = in_language(
        texts,
        "Dry run does not optimize memory. These processes would be handled in a real run:\n",
        "预览模式不会执行内存优化；以下进程在正式执行时将作为工作集处理候选：\n",
    ).to_owned();
    let ending: &'static str = in_language(
        texts,
        "    Status: Would handle\n",
        "    状态: 预计处理\n",
    );
    r.append(planned_text(&rows, 8, texts, ending).as_str());
    r
}

/// The list of processes that a report leads with.
pub open spec fn activity_list(report: OptimizeReport, texts: UiTexts) -> Seq<char> {
    if report.dry_run {
        planned_list(report, texts)
    } else {
        top_list(report, texts)
    }
}

/// Writes the list of processes that a report leads with.
pub fn top_activity_text(report: &OptimizeReport, texts: &UiTexts) -> (r: String)
    ensures
        r@ == activity_list(*report, *texts),
{
    if report.dry_run {
        will_trim_text(report, texts)
    } else {
        top_trimmed_text(report, texts)
    }
}

// ---------------------------------------------------------------------------
// Reasons for leaving processes alone
// ---------------------------------------------------------------------------

/// The label of a reason.
pub open spec fn reason_label(reason: SkipReason, texts: UiTexts) -> Seq<char> {
    match reason {
        SkipReason::SystemProcess => texts.skip_system_process@,
        SkipReason::SelfProcess => texts.skip_self_process@,
        SkipReason::ForegroundProcess => texts.skip_foreground_process@,
        SkipReason::SystemBoundaryProcess => texts.skip_system_boundary@,
        SkipReason::LegacyRecommendedRule => texts.skip_legacy_recommended_rule@,
        SkipReason::LegacyUserRule => texts.skip_legacy_user_rule@,
        SkipReason::WorkingSetTooSmall => texts.skip_working_set_small@,
        SkipReason::AccessDenied => texts.skip_access_denied@,
        SkipReason::OpenProcessFailed => texts.skip_open_process_failed@,
        SkipReason::QueryFailed => texts.skip_query_failed@,
        SkipReason::ProcessExited => texts.skip_process_exited@,
        SkipReason::HighCpuUsage => texts.skip_high_cpu@,
        SkipReason::HighIoActivity => texts.skip_high_io@,
        SkipReason::Other(message) => if message@.len() == 0 {
            texts.skip_other@
        } else {
            message@
        },
    }
}

/// Writes the label of a reason.
pub fn skip_reason_label(reason: &SkipReason, texts: &UiTexts) -> (r: String)
    ensures
        r@ == reason_label(*reason, *texts),
{
    match reason {
        SkipReason::SystemProcess => texts.skip_system_process.to_owned(),
        SkipReason::SelfProcess => texts.skip_self_process.to_owned(),
        SkipReason::ForegroundProcess => texts.skip_foreground_process.to_owned(),
        SkipReason::SystemBoundaryProcess => texts.skip_system_boundary.to_owned(),
        SkipReason::LegacyRecommendedRule => texts.skip_legacy_recommended_rule.to_owned(),
        SkipReason::LegacyUserRule => texts.skip_legacy_user_rule.to_owned(),
        SkipReason::WorkingSetTooSmall => texts.skip_working_set_small.to_owned(),
        SkipReason::AccessDenied => texts.skip_access_denied.to_owned(),
        SkipReason::OpenProcessFailed => texts.skip_open_process_failed.to_owned(),
        SkipReason::QueryFailed => texts.skip_query_failed.to_owned(),
        SkipReason::ProcessExited => texts.skip_process_exited.to_owned(),
        SkipReason::HighCpuUsage => texts.skip_high_cpu.to_owned(),
        SkipReason::HighIoActivity => texts.skip_high_io.to_owned(),
        SkipReason::Other(message) => if message.as_str().is_empty() {
            texts.skip_other.to_owned()
        } else {
            message.clone()
        },
    }
}

/// The explanation of a reason.
pub open spec fn explanation(reason: SkipReason, texts: UiTexts) -> Seq<char> {
    match reason {
        SkipReason::SystemProcess => ui_texts::said(
            texts,
            "System stability boundary; kept by default."@,
            "系统稳定性边界，默认不整理。"@,
        ),
        SkipReason::SelfProcess => ui_texts::said(
            texts,
            "The MemSpark process is not handled."@,
            "MemSpark 自身进程不会被整理。"@,
        ),
        SkipReason::ForegroundProcess => ui_texts::said(
            texts,
            "The current foreground process is skipped to avoid disrupting active work."@,
            "当前前台进程默认跳过，避免影响正在使用的程序。"@,
        ),
        SkipReason::SystemBoundaryProcess => ui_texts::said(
            texts,
            "Matched a hard system boundary; this version does not handle it."@,
            "命中系统硬边界，当前版本不处理。"@,
        ),
        SkipReason::LegacyRecommendedRule => ui_texts::said(
            texts,
            "Compatibility entry from older reports; that rule module has been removed."@,
            "旧报告中的推荐规则兼容项；当前版本不再提供该规则模块。"@,
        ),
        SkipReason::LegacyUserRule => ui_texts::said(
            texts,
            "Compatibility entry from older reports; user-rule handling has been removed."@,
            "旧报告中的用户规则兼容项；当前版本不再提供该规则模块。"@,
        ),
        SkipReason::WorkingSetTooSmall => ui_texts::said(
            texts,
            "Working set is below the handling floor, so release benefit is limited."@,
            "工作集低于当前处理下限，释放收益有限。"@,
        ),
        SkipReason::AccessDenied => ui_texts::said(
            texts,
            "Windows denied access; the run continued with other processes."@,
            "Windows 权限不足，已记录并继续处理其他进程。"@,
        ),
        SkipReason::OpenProcessFailed => ui_texts::said(
            texts,
            "The process could not be opened; it may have exited or denied access."@,
            "进程无法打开，可能已退出或权限不足。"@,
        ),
        SkipReason::QueryFailed => ui_texts::said(
            texts,
            "Process memory information could not be queried."@,
            "进程内存信息查询失败。"@,
        ),
        SkipReason::ProcessExited => ui_texts::said(
            texts,
            "The process exited after enumeration; this is a normal race."@,
            "枚举后进程退出，属于正常竞争情况。"@,
        ),
        SkipReason::HighCpuUsage => ui_texts::said(
            texts,
            "High CPU activity is skipped to avoid disturbing active tasks."@,
            "高 CPU 活跃进程会跳过，避免整理活跃任务。"@,
        ),
        SkipReason::HighIoActivity => ui_texts::said(
            texts,
            "High I/O activity is skipped to avoid disturbing active reads or writes."@,
            "高 I/O 活跃进程会跳过，避免影响正在读写的任务。"@,
        ),
        SkipReason::Other(message) => if message@.len() == 0 {
            ui_texts::said(
                texts,
                "Other safety or system reason."@,
                "其他安全或系统原因。"@,
            )
        } else {
            message@
        },
    }
}

/// Writes the explanation of a reason.
pub fn skip_reason_explanation(reason: &SkipReason, texts: &UiTexts) -> (r: String)
    ensures
        r@ == explanation(*reason, *texts),
{
    match reason {
        SkipReason::SystemProcess => in_language(
            texts,
            "System stability boundary; kept by default.",
            "系统稳定性边界，默认不整理。",
        ).to_owned(),
        SkipReason::SelfProcess => in_language(
            texts,
            "The MemSpark process is not handled.",
            "MemSpark 自身进程不会被整理。",
        ).to_owned(),
        SkipReason::ForegroundProcess => in_language(
            texts,
            "The current foreground process is skipped to avoid disrupting active work.",
            "当前前台进程默认跳过，避免影响正在使用的程序。",
        ).to_owned(),
        SkipReason::SystemBoundaryProcess => in_language(
            texts,
            "Matched a hard system boundary; this version does not handle it.",
            "命中系统硬边界，当前版本不处理。",
        ).to_owned(),
        SkipReason::LegacyRecommendedRule => in_language(
            texts,
            "Compatibility entry from older reports; that rule module has been removed.",
            "旧报告中的推荐规则兼容项；当前版本不再提供该规则模块。",
        ).to_owned(),
        SkipReason::LegacyUserRule => in_language(
            texts,
            "Compatibility entry from older reports; user-rule handling has been removed.",
            "旧报告中的用户规则兼容项；当前版本不再提供该规则模块。",
        ).to_owned(),
        SkipReason::WorkingSetTooSmall => in_language(
            texts,
            "Working set is below the handling floor, so release benefit is limited.",
            "工作集低于当前处理下限，释放收益有限。",
        ).to_owned(),
        SkipReason::AccessDenied => in_language(
            texts,
            "Windows denied access; the run continued with other processes.",
            "Windows 权限不足，已记录并继续处理其他进程。",
        ).to_owned(),
        SkipReason::OpenProcessFailed => in_language(
            texts,
            "The process could not be opened; it may have exited or denied access.",
            "进程无法打开，可能已退出或权限不足。",
        ).to_owned(),
        SkipReason::QueryFailed => in_language(
            texts,
            "Process memory information could not be queried.",
            "进程内存信息查询失败。",
        ).to_owned(),
        SkipReason::ProcessExited => in_language(
            texts,
            "The process exited after enumeration; this is a normal race.",
            "枚举后进程退出，属于正常竞争情况。",
        ).to_owned(),
        SkipReason::HighCpuUsage => in_language(
            texts,
            "High CPU activity is skipped to avoid disturbing active tasks.",
            "高 CPU 活跃进程会跳过，避免整理活跃任务。",
        ).to_owned(),
        SkipReason::HighIoActivity => in_language(
            texts,
            "High I/O activity is skipped to avoid disturbing active reads or writes.",
            "高 I/O 活跃进程会跳过，避免影响正在读写的任务。",
        ).to_owned(),
        SkipReason::Other(message) => if message.as_str().is_empty() {
            in_language(texts, "Other safety or system reason.", "其他安全或系统原因。").to_owned()
        } else {
            message.clone()
        },
    }
}

/// The labels of the reasons for which processes were left alone, in the order of the results.
pub open spec fn label_list(results: Seq<TrimResult>, texts: UiTexts) -> Seq<Seq<char>>
    decreases results.len(),
{
    if results.len() == 0 {
        Seq::empty()
    } else {
        match results.last().status {
            TrimStatus::Skipped(reason) => label_list(results.drop_last(), texts).push(
                reason_label(reason, texts),
            ),
            _ => label_list(results.drop_last(), texts),
        }
    }
}

/// The explanations of these reasons, in the same order.
pub open spec fn explanation_list(results: Seq<TrimResult>, texts: UiTexts) -> Seq<Seq<char>>
    decreases results.len(),
{
    if results.len() == 0 {
        Seq::empty()
    } else {
        match results.last().status {
            TrimStatus::Skipped(reason) => explanation_list(results.drop_last(), texts).push(
                explanation(reason, texts),
            ),
            _ => explanation_list(results.drop_last(), texts),
        }
    }
}

/// Collects the labels of the reasons for which processes were left alone, with explanations.
fn labels_and_explanations(report: &OptimizeReport, texts: &UiTexts) -> (r: (
    Vec<String>,
    Vec<String>,
))
    ensures
        text::views(r.0@) == label_list(report.results@, *texts),
        text::views(r.1@) == explanation_list(report.results@, *texts),
        r.0@.len() == r.1@.len(),
{
    let mut labels: Vec<String> = Vec::new();
    let mut explanations: Vec<String> = Vec::new();
    let mut i: usize = 0;
    assert(text::views(labels@) =~= label_list(report.results@.take(0), *texts));
    assert(text::views(explanations@) =~= explanation_list(report.results@.take(0), *texts));
    while i < report.results.len()
        invariant
            i <= report.results@.len(),
            text::views(labels@) == label_list(report.results@.take(i as int), *texts),
            text::views(explanations@) == explanation_list(report.results@.take(i as int), *texts),
            labels@.len() == explanations@.len(),
        decreases report.results@.len() - i,
    {
        assert(report.results@.take(i + 1).drop_last() =~= report.results@.take(i as int));
        if let TrimStatus::Skipped(reason) = &report.results[i].status {
            labels.push(skip_reason_label(reason, texts));
            explanations.push(skip_reason_explanation(reason, texts));
        }
        i = i + 1;
        assert(text::views(labels@) =~= label_list(report.results@.take(i as int), *texts));
        assert(text::views(explanations@) =~= explanation_list(
            report.results@.take(i as int),
            *texts,
        ));
    }
    assert(report.results@.take(i as int) =~= report.results@);
    (labels, explanations)
}

/// Counts the reasons for which processes were left alone, by label.
pub fn skip_reason_counts_ui(report: &OptimizeReport, texts: &UiTexts) -> (r: Vec<LabelCount>)
    ensures
        order::is_tally(r@, label_list(report.results@, *texts)),
{
    let lists: (Vec<String>, Vec<String>) = labels_and_explanations(report, texts);
    order::tally(&lists.0)
}

/// The lines of a tally, each with the explanation of its first occurrence.
pub open spec fn explained_lines(table: Seq<LabelCount>, explanations: Seq<Seq<char>>) -> Seq<char>
    decreases table.len(),
{
    if table.len() == 0 {
        ""@
    } else {
        explained_lines(table.drop_last(), explanations) + (table.last().label@ + ": "@
            + text::decimal(table.last().count as nat) + " - "@
            + explanations[table.last().first as int] + "\n"@)
    }
}

/// Tables with the same labels, counts and first places have the same lines.
proof fn lemma_explained_lines(
    a: Seq<LabelCount>,
    b: Seq<LabelCount>,
    explanations: Seq<Seq<char>>,
)
    requires
        a.len() == b.len(),
        forall|i: int|
            0 <= i < a.len() ==> (#[trigger] a[i]).label@ == b[i].label@ && a[i].count
                == b[i].count && a[i].first == b[i].first,
    ensures
        explained_lines(a, explanations) == explained_lines(b, explanations),
    decreases a.len(),
{
    if a.len() > 0 {
        assert forall|i: int| 0 <= i < a.drop_last().len() implies (#[trigger] a.drop_last()[i]).label@
            == b.drop_last()[i].label@ && a.drop_last()[i].count == b.drop_last()[i].count
            && a.drop_last()[i].first == b.drop_last()[i].first by {
            assert(a[i].label@ == b[i].label@);
        }
        lemma_explained_lines(a.drop_last(), b.drop_last(), explanations);
        assert(a[a.len() - 1].label@ == b[a.len() - 1].label@);
    }
}

/// The summary of the reasons for which processes were left alone.
pub open spec fn skip_summary(report: OptimizeReport, texts: UiTexts) -> Seq<char> {
    let table = order::tally_of(label_list(report.results@, texts));
    if table.len() == 0 {
        ui_texts::said(texts, "No skipped-reason records."@, "没有跳过原因记录。"@)
    } else {
        explained_lines(table, explanation_list(report.results@, texts))
    }
}

/// Writes the summary of the reasons for which processes were left alone.
pub fn skip_summary_text(report: &OptimizeReport, texts: &UiTexts) -> (r: String)
    ensures
        r@ == skip_summary(*report, *texts),
{
    let lists: (Vec<String>, Vec<String>) = labels_and_explanations(report, texts);
    let ghost labels = label_list(report.results@, *texts);
    let ghost explanations = explanation_list(report.results@, *texts);
    let table: Vec<LabelCount> = order::tally(&lists.0);
    proof {
        order::tally_unique(table@, order::tally_of(labels), labels);
        lemma_explained_lines(table@, order::tally_of(labels), explanations);
        assert(labels.len() == lists.0@.len());
    }
    if table.len() == 0 {
        return in_language(texts, "No skipped-reason records.", "没有跳过原因记录。").to_owned();
    }
    let mut r: String = "".to_owned();
    let mut i: usize = 0;
    while i < table.len()
        invariant
            i <= table@.len(),
            order::is_tally(table@, labels),
            labels.len() == lists.1@.len(),
            explanations == text::views(lists.1@),
            r@ == explained_lines(table@.take(i as int), explanations),
        decreases table@.len() - i,
    {
        assert(table@.take(i + 1).drop_last() =~= table@.take(i as int));
        let first: usize = table[i].first;
        assert(order::is_first(labels, table@[i as int].label@, first as int));
        let mut line: String = table[i].label.clone();
        line.append(": ");
        line.append(text::decimal_text(table[i].count as u128).as_str());
        line.append(" - ");
        line.append(lists.1[first].as_str());
        line.append("\n");
        r.append(line.as_str());
        i = i + 1;
    }
    assert(table@.take(i as int) =~= table@);
    r
}

// ---------------------------------------------------------------------------
// Conclusions
// ---------------------------------------------------------------------------

/// The conclusion of a preview.
pub open spec fn preview_conclusion(report: OptimizeReport, texts: UiTexts) -> Seq<char> {
    ui_texts::said(texts, ""@, "这是"@) + texts.dry_run@ + ui_texts::said(
        texts,
        ": no memory is released. A real run will work toward the <= 25% memory-load target; this preview would handle "@,
        "：不会实际释放内存。正式执行时会围绕“内存占用不高于 25%”处理；当前预览将处理 "@,
    ) + text::decimal(planned_rows(report.results@).len()) + ui_texts::said(
        texts,
        " background candidates and keep/skip "@,
        " 个后台候选进程，保留/跳过 "@,
    ) + text::decimal(report.skipped_count as nat) + ui_texts::said(
        texts,
        " processes."@,
        " 个进程。"@,
    )
}

/// Writes the conclusion of a preview.
fn preview_conclusion_text(report: &OptimizeReport, texts: &UiTexts) -> (r: String)
    ensures
        r@ == preview_conclusion(*report, *texts),
{
    let rows: Vec<TrimResult> = planned(report);
    let mut r: String = in_language(texts, "", "这是").to_owned();
    r.append(texts.dry_run);
    r.append(
        in_language(
            texts,
            ": no memory is released. A real run will work toward the <= 25% memory-load target; this preview would handle ",
            "：不会实际释放内存。正式执行时会围绕“内存占用不高于 25%”处理；当前预览将处理 ",
        ),
    );
    r.append(text::decimal_text(rows.len() as u128).as_str());
    r.append(
        in_language(
            texts,
            " background candidates and keep/skip ",
            " 个后台候选进程，保留/跳过 ",
        ),
    );
    r.append(text::decimal_text(report.skipped_count as u128).as_str());
    r.append(in_language(texts, " processes.", " 个进程。"));
    r
}

/// The conclusion of an optimization that was carried out.
pub open spec fn final_conclusion(report: OptimizeReport, texts: UiTexts) -> Seq<char> {
    let met = report_text::met_target(report);
    (if met {
        ui_texts::said(
            texts,
            "Optimization completed: memory load changed from "@,
            "本次优化已完成：内存占用从 "@,
        )
    } else {
        ui_texts::said(
            texts,
            "All available optimization steps were run: memory load changed from "@,
            "本次优化已执行全部可用步骤：内存占用从 "@,
        )
    }) + report.before.load_tenths() + ui_texts::said(texts, "% to "@, "% 变为 "@)
        + report.after.load_tenths() + (if met {
        ui_texts::said(
            texts,
            "%, reaching the <= 25% target; available memory changed by "@,
            "%，已达到不高于 25% 的目标；可用内存变化 "@,
        )
    } else {
        ui_texts::said(
            texts,
            "%, but the <= 25% target was not reached; available memory changed by "@,
            "%，未达到不高于 25% 的目标；可用内存变化 "@,
        )
    }) + report_text::signed_bytes(report.increase()) + ui_texts::said(texts, ". "@, "。"@)
        + working_set_sentence(report, texts) + ui_texts::said(
        texts,
        " System release: "@,
        "系统释放："@,
    ) + release_word(report, texts) + (if met {
        ui_texts::said(texts, "."@, "。"@)
    } else {
        ui_texts::said(
            texts,
            ". Remaining usage usually comes from system reservations, drivers, kernel memory, foreground apps, or processes that cannot be handled."@,
            "。剩余占用通常来自系统保留、驱动、内核、前台程序或不可处理进程。"@,
        )
    })
}

/// The conclusion of a report.
pub open spec fn conclusion(report: OptimizeReport, texts: UiTexts) -> Seq<char> {
    if report.dry_run {
        preview_conclusion(report, texts)
    } else {
        final_conclusion(report, texts)
    }
}

/// Writes the conclusion of a report.
pub fn report_conclusion_text(report: &OptimizeReport, texts: &UiTexts) -> (r: String)
    ensures
        r@ == conclusion(*report, *texts),
{
    if report.dry_run {
        return preview_conclusion_text(report, texts);
    }
    let met: bool = target_reached(report);
    let mut r: String = if met {
        in_language(
            texts,
            "Optimization completed: memory load changed from ",
            "本次优化已完成：内存占用从 ",
        ).to_owned()
    } else {
        in_language(
            texts,
            "All available optimization steps were run: memory load changed from ",
            "本次优化已执行全部可用步骤：内存占用从 ",
        ).to_owned()
    };
    r.append(load_text(&report.before).as_str());
    r.append(in_language(texts, "% to ", "% 变为 "));
    r.append(load_text(&report.after).as_str());
    r.append(
        if met {
            in_language(
                texts,
                "%, reaching the <= 25% target; available memory changed by ",
                "%，已达到不高于 25% 的目标；可用内存变化 ",
            )
        } else {
            in_language(
                texts,
                "%, but the <= 25% target was not reached; available memory changed by ",
                "%，未达到不高于 25% 的目标；可用内存变化 ",
            )
        },
    );
    r.append(format_signed_bytes(report.available_increase()).as_str());
    r.append(in_language(texts, ". ", "。"));
    r.append(working_set_result_detail(report, texts).as_str());
    r.append(in_language(texts, " System release: ", "系统释放："));
    r.append(system_release_value_text(report, texts).as_str());
    r.append(
        if met {
            in_language(texts, ".", "。")
        } else {
            in_language(
                texts,
                ". Remaining usage usually comes from system reservations, drivers, kernel memory, foreground apps, or processes that cannot be handled.",
                "。剩余占用通常来自系统保留、驱动、内核、前台程序或不可处理进程。",
            )
        },
    );
    r
}

/// Changes below this, in bytes, may not show.
pub const INVISIBLE_CHANGE_BYTES: u64 = 67_108_864;

/// The available memory before and after, and its change.
pub open spec fn change_figures(report: OptimizeReport, texts: UiTexts) -> Seq<char> {
    texts.before@ + ui_texts::said(texts, ": "@, "："@) + report_text::gb(
        report.before.available_physical as nat,
    ) + ui_texts::said(texts, "; "@, "；"@) + texts.after@ + ui_texts::said(texts, ": "@, "："@)
        + report_text::gb(report.after.available_physical as nat) + ui_texts::said(
        texts,
        "; change "@,
        "；变化 "@,
    ) + report_text::signed_bytes(report.increase()) + ui_texts::said(texts, ". "@, "。"@)
}

/// Writes the available memory before and after, and its change.
fn change_figures_text(report: &OptimizeReport, texts: &UiTexts) -> (r: String)
    ensures
        r@ == change_figures(*report, *texts),
{
    let mut r: String = texts.before.to_owned();
    r.append(in_language(texts, ": ", "："));
    r.append(format_gb(report.before.available_physical).as_str());
    r.append(in_language(texts, "; ", "；"));
    r.append(texts.after);
    r.append(in_language(texts, ": ", "："));
    r.append(format_gb(report.after.available_physical).as_str());
    r.append(in_language(texts, "; change ", "；变化 "));
    r.append(format_signed_bytes(report.available_increase()).as_str());
    r.append(in_language(texts, ". ", "。"));
    r
}

/// The details on the change of available memory.
pub open spec fn change_detail(report: OptimizeReport, texts: UiTexts) -> Seq<char> {
    if report.dry_run {
        change_figures(report, texts) + texts.dry_run@ + ui_texts::said(
            texts,
            " does not release memory, so +0.0 GB is expected."@,
            "不会实际释放内存，所以 +0.0 GB 属于正常结果。"@,
        )
    } else {
        ui_texts::said(texts, "Load "@, "占用率 "@) + report.before.load_tenths() + "% -> "@
            + report.after.load_tenths() + ui_texts::said(texts, "%; "@, "%；"@) + change_figures(
            report,
            texts,
        ) + (if report_text::magnitude(report.increase()) < INVISIBLE_CHANGE_BYTES {
            ui_texts::said(
                texts,
                "The change may display as +0.0 GB when it is below display precision or cache is quickly reallocated."@,
                "变化小于显示精度或系统很快重新分配缓存时，界面可能显示为 +0.0 GB。"@,
            )
        } else {
            ui_texts::said(
                texts,
                "This value comes from before/after GlobalMemoryStatusEx and GetPerformanceInfo snapshots."@,
                "该数值来自优化前后 GlobalMemoryStatusEx / GetPerformanceInfo 的快照差异。"@,
            )
        })
    }
}

/// Writes the details on the change of available memory.
pub fn available_change_detail_text(report: &OptimizeReport, texts: &UiTexts) -> (r: String)
    ensures
        r@ == change_detail(*report, *texts),
{
    let figures: String = change_figures_text(report, texts);
    if report.dry_run {
        let mut r: String = figures;
        r.append(texts.dry_run);
        r.append(
            in_language(
                texts,
                " does not release memory, so +0.0 GB is expected.",
                "不会实际释放内存，所以 +0.0 GB 属于正常结果。",
            ),
        );
        return r;
    }
    let mut r: String = in_language(texts, "Load ", "占用率 ").to_owned();
    r.append(load_text(&report.before).as_str());
    r.append("% -> ");
    r.append(load_text(&report.after).as_str());
    r.append(in_language(texts, "%; ", "%；"));
    r.append(figures.as_str());
    r.append(
        if absolute(report.available_increase()) < INVISIBLE_CHANGE_BYTES {
            in_language(
                texts,
                "The change may display as +0.0 GB when it is below display precision or cache is quickly reallocated.",
                "变化小于显示精度或系统很快重新分配缓存时，界面可能显示为 +0.0 GB。",
            )
        } else {
            in_language(
                texts,
                "This value comes from before/after GlobalMemoryStatusEx and GetPerformanceInfo snapshots.",
                "该数值来自优化前后 GlobalMemoryStatusEx / GetPerformanceInfo 的快照差异。",
            )
        },
    );
    r
}

// ---------------------------------------------------------------------------
// The whole report
// ---------------------------------------------------------------------------

/// The text of a preview.
pub open spec fn preview_text(report: OptimizeReport, texts: UiTexts) -> Seq<char> {
    let rows = planned_rows(report.results@);
    let table = order::tally_of(label_list(report.results@, texts));
    texts.dry_run@ + ui_texts::said(texts, " - 25% target preview\n\n"@, " - 25% 目标预览\n\n"@)
        + texts.will_trim@ + ":\n"@ + (if rows.len() == 0 {
        texts.none@ + "\n"@
    } else {
        planned_lines(rows, texts, "\n"@)
    }) + "\n"@ + texts.skipped_summary@ + ":\n"@ + (if table.len() == 0 {
        texts.none@ + "\n"@
    } else {
        report_text::tally_lines(table)
    }) + "\n"@ + texts.skipped_details@ + ": "@ + texts.use_verbose@ + "\n"@
}

/// Writes that there is none.
fn none_line(texts: &UiTexts) -> (r: String)
    ensures
        r@ == texts.none@ + "\n"@,
{
    let mut r: String = texts.none.to_owned();
    r.append("\n");
    r
}

/// Writes the text of a preview.
pub fn format_ui_dry_run(report: &OptimizeReport, texts: &UiTexts) -> (r: String)
    ensures
        r@ == preview_text(*report, *texts),
{
    let rows: Vec<TrimResult> = planned(report);
    let table: Vec<LabelCount> = skip_reason_counts_ui(report, texts);
    proof {
        report_text::lemma_tally_lines(table@, label_list(report.results@, *texts));
    }
    let mut r: String = texts.dry_run.to_owned();
    r.append(in_language(texts, " - 25% target preview\n\n", " - 25% 目标预览\n\n"));
    r.append(texts.will_trim);
    r.append(":\n");
    let handled: String = if rows.len() == 0 {
        none_line(texts)
    } else {
        planned_text(&rows, rows.len(), texts, "\n")
    };
    r.append(handled.as_str());
    r.append("\n");
    r.append(texts.skipped_summary);
    r.append(":\n");
    let summary: String = if table.len() == 0 {
        none_line(texts)
    } else {
        report_text::write_counts(&table)
    };
    r.append(summary.as_str());
    r.append("\n");
    r.append(texts.skipped_details);
    r.append(": ");
    r.append(texts.use_verbose);
    r.append("\n");
    r
}

/// The line for a process in a report.
pub open spec fn row_line(row: TrimResult, texts: UiTexts) -> Seq<char> {
    row.name@ + "    "@ + report_text::working_set(row.before_working_set as nat) + " -> "@
        + optional_working_set(row.after_working_set, texts) + "\n"@
}

/// The lines for processes in a report.
pub open spec fn row_lines(rows: Seq<TrimResult>, texts: UiTexts) -> Seq<char>
    decreases rows.len(),
{
    if rows.len() == 0 {
        ""@
    } else {
        row_lines(rows.drop_last(), texts) + row_line(rows.last(), texts)
    }
}

/// The lines for the processes that shrank most.
pub open spec fn top_lines(report: OptimizeReport, texts: UiTexts) -> Seq<char> {
    let rows = report_text::top_rows(report.results@, 10);
    if rows.len() == 0 {
        texts.none@ + "\n"@
    } else {
        row_lines(rows, texts)
    }
}

/// Writes the lines for the processes that shrank most.
fn top_lines_text(report: &OptimizeReport, texts: &UiTexts) -> (r: String)
    ensures
        r@ == top_lines(*report, *texts),
{
    let rows: Vec<TrimResult> = top_trimmed(report, 10);
    if rows.len() == 0 {
        return none_line(texts);
    }
    let mut r: String = "".to_owned();
    let mut i: usize = 0;
    while i < rows.len()
        invariant
            i <= rows@.len(),
            r@ == row_lines(rows@.take(i as int), *texts),
        decreases rows@.len() - i,
    {
        assert(rows@.take(i + 1).drop_last() =~= rows@.take(i as int));
        let mut line: String = rows[i].name.clone();
        line.append("    ");
        line.append(format_working_set(rows[i].before_working_set).as_str());
        line.append(" -> ");
        line.append(format_optional_working_set_ui(rows[i].after_working_set, texts).as_str());
        line.append("\n");
        r.append(line.as_str());
        i = i + 1;
    }
    assert(rows@.take(i as int) =~= rows@);
    r
}

/// The opening of a report.
pub open spec fn opening(report: OptimizeReport, texts: UiTexts) -> Seq<char> {
    texts.memspark_report@ + "\n"@ + texts.mode@ + ": "@ + target_label(report, texts) + "\n"@
        + texts.duration@ + ": "@ + report_text::seconds(report.duration_ms as nat) + "s\n\n"@
        + texts.before@ + ":\n"@ + snapshot_lines(report.before, texts) + "\n"@ + texts.after@
        + ":\n"@ + snapshot_lines(report.after, texts) + "\n"@
}

/// Writes the opening of a report.
fn opening_text(report: &OptimizeReport, texts: &UiTexts) -> (r: String)
    ensures
        r@ == opening(*report, *texts),
{
    let mut r: String = texts.memspark_report.to_owned();
    r.append("\n");
    r.append(texts.mode);
    r.append(": ");
    r.append(target_status_label(report, texts).as_str());
    r.append("\n");
    r.append(texts.duration);
    r.append(": ");
    r.append(format_seconds(report.duration_ms).as_str());
    r.append("s\n\n");
    r.append(texts.before);
    r.append(":\n");
    r.append(format_snapshot_text(&report.before, texts).as_str());
    r.append("\n");
    r.append(texts.after);
    r.append(":\n");
    r.append(format_snapshot_text(&report.after, texts).as_str());
    r.append("\n");
    r
}

/// The lines for the result.
pub open spec fn result_lines(report: OptimizeReport, texts: UiTexts) -> Seq<char> {
    texts.result@ + ":\n"@ + texts.processes_trimmed@ + ": "@ + final_load(report) + "\n"@
        + texts.available_increased@ + ": "@ + report_text::signed_bytes(report.increase()) + "\n"@
        + texts.processes_scanned@ + ": "@ + text::decimal(report.scanned_count as nat) + "\n"@
        + texts.processes_skipped@ + ": "@ + handled_share(report) + "\n"@ + ui_texts::said(
        texts,
        "Kept/skipped processes: "@,
        "保留/跳过进程: "@,
    ) + text::decimal(report.skipped_count as nat) + ui_texts::said(
        texts,
        "\nFailed: "@,
        "\n失败: "@,
    ) + text::decimal(report.failed_count as nat) + "\n"@ + texts.failed@ + ": "@ + release_word(
        report,
        texts,
    ) + "\n"@ + ui_texts::said(texts, "System release detail: "@, "系统释放说明: "@)
        + release_sentence(report, texts) + "\n\n"@
}

/// Writes the lines for the result.
fn result_text(report: &OptimizeReport, texts: &UiTexts) -> (r: String)
    ensures
        r@ == result_lines(*report, *texts),
{
    let mut r: String = texts.result.to_owned();
    r.append(":\n");
    r.append(texts.processes_trimmed);
    r.append(": ");
    r.append(final_memory_load_text(report).as_str());
    r.append("\n");
    r.append(texts.available_increased);
    r.append(": ");
    r.append(format_signed_bytes(report.available_increase()).as_str());
    r.append("\n");
    r.append(texts.processes_scanned);
    r.append(": ");
    r.append(text::decimal_text(report.scanned_count as u128).as_str());
    r.append("\n");
    r.append(texts.processes_skipped);
    r.append(": ");
    r.append(working_set_result_value(report).as_str());
    r.append("\n");
    r.append(in_language(texts, "Kept/skipped processes: ", "保留/跳过进程: "));
    r.append(text::decimal_text(report.skipped_count as u128).as_str());
    r.append(in_language(texts, "\nFailed: ", "\n失败: "));
    r.append(text::decimal_text(report.failed_count as u128).as_str());
    r.append("\n");
    r.append(texts.failed);
    r.append(": ");
    r.append(system_release_value_text(report, texts).as_str());
    r.append("\n");
    r.append(in_language(texts, "System release detail: ", "系统释放说明: "));
    r.append(system_release_detail_text(report, texts).as_str());
    r.append("\n\n");
    r
}

/// The text of a report.
pub open spec fn report_words(report: OptimizeReport, texts: UiTexts) -> Seq<char> {
    if report.dry_run {
        preview_text(report, texts)
    } else {
        opening(report, texts) + result_lines(report, texts) + texts.top_trimmed_processes@ + ":\n"@
            + top_lines(report, texts)
    }
}

/// Writes the text of a report.
pub fn format_ui_report_text(report: &OptimizeReport, texts: &UiTexts) -> (r: String)
    ensures
        r@ == report_words(*report, *texts),
{
    if report.dry_run {
        return format_ui_dry_run(report, texts);
    }
    let mut r: String = opening_text(report, texts);
    r.append(result_text(report, texts).as_str());
    r.append(texts.top_trimmed_processes);
    r.append(":\n");
    r.append(top_lines_text(report, texts).as_str());
    r
}

/// What the window shows of a report.
#[derive(Debug)]
pub struct ReportViewData {
    pub text: String,
    pub before_memory: String,
    pub after_memory: String,
    pub available_increase: String,
    pub scanned: String,
    pub trimmed: String,
    pub skipped: String,
    pub failed: String,
    pub top_trimmed: String,
    pub primary_process_title: String,
    pub conclusion: String,
    pub report_type: String,
    pub mode: String,
    pub duration: String,
    pub available_change_detail: String,
    pub system_release_detail: String,
    pub skip_summary: String,
}

impl ReportViewData {
    /// Whether nothing but a text is shown.
    pub open spec fn is_blank(self, texts: UiTexts) -> bool {
        &&& self.before_memory@ == "--"@
        &&& self.after_memory@ == "--"@
        &&& self.available_increase@ == "--"@
        &&& self.scanned@ == "--"@
        &&& self.trimmed@ == "--"@
        &&& self.skipped@ == "--"@
        &&& self.failed@ == "--"@
        &&& self.top_trimmed@ == texts.none@
        &&& self.primary_process_title@ == texts.top_trimmed_processes@
        &&& self.conclusion@ == texts.no_report_loaded@
        &&& self.report_type@ == "--"@
        &&& self.mode@ == "--"@
        &&& self.duration@ == "--"@
        &&& self.available_change_detail@ == texts.no_report_loaded@
        &&& self.system_release_detail@ == texts.no_report_loaded@
        &&& self.skip_summary@ == texts.none@
    }

    /// Whether a report is shown.
    pub open spec fn shows(self, report: OptimizeReport, texts: UiTexts) -> bool {
        &&& self.text@ == report_words(report, texts)
        &&& self.before_memory@ == memory_summary(report.before, texts)
        &&& self.after_memory@ == memory_summary(report.after, texts)
        &&& self.available_increase@ == report_text::signed_bytes(report.increase())
        &&& self.scanned@ == text::decimal(report.scanned_count as nat)
        &&& self.trimmed@ == final_load(report)
        &&& self.skipped@ == handled_share(report)
        &&& self.failed@ == release_word(report, texts)
        &&& self.top_trimmed@ == activity_list(report, texts)
        &&& self.primary_process_title@ == if report.dry_run {
            texts.will_trim@
        } else {
            texts.top_trimmed_processes@
        }
        &&& self.conclusion@ == conclusion(report, texts)
        &&& self.report_type@ == if report.dry_run {
            texts.dry_run@
        } else {
            texts.result@
        }
        &&& self.mode@ == target_label(report, texts)
        &&& self.duration@ == report_text::seconds(report.duration_ms as nat) + "s"@
        &&& self.available_change_detail@ == change_detail(report, texts)
        &&& self.system_release_detail@ == release_sentence(report, texts)
        &&& self.skip_summary@ == skip_summary(report, texts)
    }

    /// Shows that there is no report.
    pub fn empty(texts: &UiTexts) -> (r: ReportViewData)
        ensures
            r.text@ == texts.no_report_loaded@,
            r.is_blank(*texts),
    {
        ReportViewData {
            text: texts.no_report_loaded.to_owned(),
            before_memory: "--".to_owned(),
            after_memory: "--".to_owned(),
            available_increase: "--".to_owned(),
            scanned: "--".to_owned(),
            trimmed: "--".to_owned(),
            skipped: "--".to_owned(),
            failed: "--".to_owned(),
            top_trimmed: texts.none.to_owned(),
            primary_process_title: texts.top_trimmed_processes.to_owned(),
            conclusion: texts.no_report_loaded.to_owned(),
            report_type: "--".to_owned(),
            mode: "--".to_owned(),
            duration: "--".to_owned(),
            available_change_detail: texts.no_report_loaded.to_owned(),
            system_release_detail: texts.no_report_loaded.to_owned(),
            skip_summary: texts.none.to_owned(),
        }
    }
}

/// Gathers what the window shows of a report.
pub fn report_view_data(report: &OptimizeReport, texts: &UiTexts) -> (r: ReportViewData)
    ensures
        r.shows(*report, *texts),
{
    let mut duration: String = format_seconds(report.duration_ms);
    duration.append("s");
    ReportViewData {
        text: format_ui_report_text(report, texts),
        before_memory: memory_summary_text(&report.before, texts),
        after_memory: memory_summary_text(&report.after, texts),
        available_increase: format_signed_bytes(report.available_increase()),
        scanned: text::decimal_text(report.scanned_count as u128),
        trimmed: final_memory_load_text(report),
        skipped: working_set_result_value(report),
        failed: system_release_value_text(report, texts),
        top_trimmed: top_activity_text(report, texts),
        primary_process_title: if report.dry_run {
            texts.will_trim.to_owned()
        } else {
            texts.top_trimmed_processes.to_owned()
        },
        conclusion: report_conclusion_text(report, texts),
        report_type: if report.dry_run {
            texts.dry_run.to_owned()
        } else {
            texts.result.to_owned()
        },
        mode: target_status_label(report, texts),
        duration,
        available_change_detail: available_change_detail_text(report, texts),
        system_release_detail: system_release_detail_text(report, texts),
        skip_summary: skip_summary_text(report, texts),
    }
}

/// Shows that the last report could not be read.
pub fn unavailable_report_data(error: &str, texts: &UiTexts) -> (r: ReportViewData)
    ensures
        r.text@ == texts.no_report_available@ + error@,
        r.is_blank(*texts),
{
    let mut message: String = texts.no_report_available.to_owned();
    message.append(error);
    let mut r: ReportViewData = ReportViewData::empty(texts);
    r.text = message;
    r
}

/// What is said of a report and a log that could not be saved.
pub open spec fn save_warnings(
    report_error: Option<Seq<char>>,
    log_error: Option<Seq<char>>,
    texts: UiTexts,
) -> Seq<char> {
    (match report_error {
        Some(error) => "\n"@ + texts.report_save_warning@ + error + "\n"@,
        None => ""@,
    }) + (match log_error {
        Some(error) => ui_texts::said(
            texts,
            "\nwarning: developer log could not be saved: "@,
            "\n警告：开发日志无法保存："@,
        ) + error + "\n"@,
        None => ""@,
    })
}

/// Adds to a shown report what could not be saved.
pub fn add_save_warnings(
    data: &mut ReportViewData,
    report_error: Option<&str>,
    log_error: Option<&str>,
    texts: &UiTexts,
)
    ensures
        final(data).text@ == old(data).text@ + save_warnings(
            match report_error {
                Some(error) => Some(error@),
                None => None,
            },
            match log_error {
                Some(error) => Some(error@),
                None => None,
            },
            *texts,
        ),
        *final(data) == (ReportViewData { text: final(data).text, ..*old(data) }),
{
    let report_warning: String = match report_error {
        Some(error) => {
            let mut line: String = "\n".to_owned();
            line.append(texts.report_save_warning);
            line.append(error);
            line.append("\n");
            line
        },
        None => "".to_owned(),
    };
    let log_warning: String = match log_error {
        Some(error) => {
            let mut line: String = in_language(
                texts,
                "\nwarning: developer log could not be saved: ",
                "\n警告：开发日志无法保存：",
            ).to_owned();
            line.append(error);
            line.append("\n");
            line
        },
        None => "".to_owned(),
    };
    data.text.append(report_warning.as_str());
    data.text.append(log_warning.as_str());
    assert(data.text@ =~= old(data).text@ + save_warnings(
        match report_error {
            Some(error) => Some(error@),
            None => None,
        },
        match log_error {
            Some(error) => Some(error@),
            None => None,
        },
        *texts,
    ));
}

// ---------------------------------------------------------------------------
// Laws
// ---------------------------------------------------------------------------

/// A summary shows the load and, in this order, the memory in use, the available memory and all of
/// it.
pub proof fn summaries_show_load_and_memory(snapshot: MemorySnapshot, texts: UiTexts)
    ensures
        texts.english() ==> memory_summary(snapshot, texts) == "Memory load: "@ + snapshot.load_tenths() + "%\nUsed memory: "@ + report_text::gb(snapshot.used()) + "\nAvailable memory: "@ + report_text::gb(snapshot.available_physical as nat) + "\nTotal physical: "@ + report_text::gb(snapshot.total_physical as nat),
        !texts.english() ==> memory_summary(snapshot, texts) == "内存占用："@ + snapshot.load_tenths() + "%\n已用内存："@ + report_text::gb(snapshot.used()) + "\n可用内存："@ + report_text::gb(snapshot.available_physical as nat) + "\n总物理内存："@ + report_text::gb(snapshot.total_physical as nat),
{
}

/// The sentence on working sets tells how many were handled, scanned, kept and failed.
pub proof fn working_sets_are_counted_out(report: OptimizeReport, texts: UiTexts)
    ensures
        texts.english() ==> working_set_sentence(report, texts) == "Working sets handled "@ + text::decimal(report.trimmed_count as nat) + ", scanned "@ + text::decimal(report.scanned_count as nat) + ", kept/skipped "@ + text::decimal(report.skipped_count as nat) + ", failed "@ + text::decimal(report.failed_count as nat) + "."@,
        !texts.english() ==> working_set_sentence(report, texts) == "工作集处理 "@ + text::decimal(report.trimmed_count as nat) + " 个，扫描 "@ + text::decimal(report.scanned_count as nat) + " 个，保留/跳过 "@ + text::decimal(report.skipped_count as nat) + " 个，失败 "@ + text::decimal(report.failed_count as nat) + " 个。"@,
{
}

/// The line for a handled process shows its name and its working set before and after.
pub proof fn handled_processes_are_shown_with_their_shrinkage(row: TrimResult, texts: UiTexts)
    ensures
        texts.english() ==> handled_line(row, texts) == row.name@ + "    "@ + report_text::working_set(row.before_working_set as nat) + " -> "@ + optional_working_set(row.after_working_set, texts) + "    "@ + texts.reason@ + ": "@ + texts.reason_background_large_ws@ + "    "@ + "Status: Handled\n"@,
        !texts.english() ==> handled_line(row, texts) == row.name@ + "    "@ + report_text::working_set(row.before_working_set as nat) + " -> "@ + optional_working_set(row.after_working_set, texts) + "    "@ + texts.reason@ + ": "@ + texts.reason_background_large_ws@ + "    "@ + "状态: 已处理\n"@,
{
}

/// The figures of a change are the available memory before, after, and by how much it grew.
pub proof fn changes_are_shown_before_and_after(report: OptimizeReport, texts: UiTexts)
    ensures
        texts.english() ==> change_figures(report, texts) == texts.before@ + ": "@ + report_text::gb(report.before.available_physical as nat) + "; "@ + texts.after@ + ": "@ + report_text::gb(report.after.available_physical as nat) + "; change "@ + report_text::signed_bytes(report.increase()) + ". "@,
        !texts.english() ==> change_figures(report, texts) == texts.before@ + "："@ + report_text::gb(report.before.available_physical as nat) + "；"@ + texts.after@ + "："@ + report_text::gb(report.after.available_physical as nat) + "；变化 "@ + report_text::signed_bytes(report.increase()) + "。"@,
{
}

/// The conclusion of a preview tells how many processes would be handled and how many kept.
pub proof fn previews_are_concluded(report: OptimizeReport, texts: UiTexts)
    ensures
        texts.english() ==> preview_conclusion(report, texts) == ""@ + texts.dry_run@ + ": no memory is released. A real run will work toward the <= 25% memory-load target; this preview would handle "@ + text::decimal(planned_rows(report.results@).len()) + " background candidates and keep/skip "@ + text::decimal(report.skipped_count as nat) + " processes."@,
        !texts.english() ==> preview_conclusion(report, texts) == "这是"@ + texts.dry_run@ + "：不会实际释放内存。正式执行时会围绕“内存占用不高于 25%”处理；当前预览将处理 "@ + text::decimal(planned_rows(report.results@).len()) + " 个后台候选进程，保留/跳过 "@ + text::decimal(report.skipped_count as nat) + " 个进程。"@,
{
}

/// Lines that follow upon one another are all in the whole.
proof fn lemma_snapshots_are_shown_line_by_line(part0: Seq<char>, part1: Seq<char>, part2: Seq<char>, part3: Seq<char>, part4: Seq<char>, part5: Seq<char>, part6: Seq<char>, part7: Seq<char>, part8: Seq<char>, part9: Seq<char>, part10: Seq<char>, part11: Seq<char>, part12: Seq<char>)
    ensures
        text::contains(part0 + ": "@ + part1 + " / "@ + part2 + " ("@ + part3 + "%)\n"@ + part4 + ": "@ + part5 + "\n"@ + part6 + ": "@ + part7 + "\n"@ + part8 + ": "@ + part9 + " / "@ + part10 + "\n"@ + part11 + ": "@ + part12 + "\n"@, part0 + ": "@ + part1 + " / "@ + part2 + " ("@ + part3 + "%)\n"@),
        text::contains(part0 + ": "@ + part1 + " / "@ + part2 + " ("@ + part3 + "%)\n"@ + part4 + ": "@ + part5 + "\n"@ + part6 + ": "@ + part7 + "\n"@ + part8 + ": "@ + part9 + " / "@ + part10 + "\n"@ + part11 + ": "@ + part12 + "\n"@, part4 + ": "@ + part5 + "\n"@),
        text::contains(part0 + ": "@ + part1 + " / "@ + part2 + " ("@ + part3 + "%)\n"@ + part4 + ": "@ + part5 + "\n"@ + part6 + ": "@ + part7 + "\n"@ + part8 + ": "@ + part9 + " / "@ + part10 + "\n"@ + part11 + ": "@ + part12 + "\n"@, part6 + ": "@ + part7 + "\n"@),
        text::contains(part0 + ": "@ + part1 + " / "@ + part2 + " ("@ + part3 + "%)\n"@ + part4 + ": "@ + part5 + "\n"@ + part6 + ": "@ + part7 + "\n"@ + part8 + ": "@ + part9 + " / "@ + part10 + "\n"@ + part11 + ": "@ + part12 + "\n"@, part8 + ": "@ + part9 + " / "@ + part10 + "\n"@),
        text::contains(part0 + ": "@ + part1 + " / "@ + part2 + " ("@ + part3 + "%)\n"@ + part4 + ": "@ + part5 + "\n"@ + part6 + ": "@ + part7 + "\n"@ + part8 + ": "@ + part9 + " / "@ + part10 + "\n"@ + part11 + ": "@ + part12 + "\n"@, part11 + ": "@ + part12 + "\n"@),
{
    let line0 = part0 + ": "@ + part1 + " / "@ + part2 + " ("@ + part3 + "%)\n"@;
    let line1 = part4 + ": "@ + part5 + "\n"@;
    let line2 = part6 + ": "@ + part7 + "\n"@;
    let line3 = part8 + ": "@ + part9 + " / "@ + part10 + "\n"@;
    let line4 = part11 + ": "@ + part12 + "\n"@;
    let upto0 = line0;
    text::appending_keeps_contents(Seq::empty(), line0);
    assert(Seq::<char>::empty() + line0 =~= upto0);
    let upto1 = upto0 + line1;
    assert(upto0 + part4 + ": "@ + part5 + "\n"@ =~= upto1);
    text::appending_keeps_contents(upto0, line1);
    let upto2 = upto1 + line2;
    assert(upto1 + part6 + ": "@ + part7 + "\n"@ =~= upto2);
    text::appending_keeps_contents(upto1, line2);
    let upto3 = upto2 + line3;
    assert(upto2 + part8 + ": "@ + part9 + " / "@ + part10 + "\n"@ =~= upto3);
    text::appending_keeps_contents(upto2, line3);
    let upto4 = upto3 + line4;
    assert(upto3 + part11 + ": "@ + part12 + "\n"@ =~= upto4);
    text::appending_keeps_contents(upto3, line4);
    assert(part0 + ": "@ + part1 + " / "@ + part2 + " ("@ + part3 + "%)\n"@ + part4 + ": "@ + part5 + "\n"@ + part6 + ": "@ + part7 + "\n"@ + part8 + ": "@ + part9 + " / "@ + part10 + "\n"@ + part11 + ": "@ + part12 + "\n"@ == upto4);
}

/// The lines for a snapshot show each figure under its own label.
pub proof fn snapshots_are_shown_line_by_line(snapshot: MemorySnapshot, texts: UiTexts)
    ensures
        text::contains(snapshot_lines(snapshot, texts), texts.current_memory@ + ": "@ + report_text::gb(snapshot.used()) + " / "@ + report_text::gb(snapshot.total_physical as nat) + " ("@ + snapshot.load_tenths() + "%)\n"@),
        text::contains(snapshot_lines(snapshot, texts), texts.available_memory@ + ": "@ + report_text::gb(snapshot.available_physical as nat) + "\n"@),
        text::contains(snapshot_lines(snapshot, texts), texts.system_cache@ + ": "@ + report_text::gb(snapshot.system_cache as nat) + "\n"@),
        text::contains(snapshot_lines(snapshot, texts), texts.commit_usage@ + ": "@ + report_text::gb(snapshot.commit_total as nat) + " / "@ + report_text::gb(snapshot.commit_limit as nat) + "\n"@),
        text::contains(snapshot_lines(snapshot, texts), texts.process_count@ + ": "@ + text::decimal(snapshot.process_count as nat) + "\n"@),
{
    lemma_snapshots_are_shown_line_by_line(texts.current_memory@, report_text::gb(snapshot.used()), report_text::gb(snapshot.total_physical as nat), snapshot.load_tenths(), texts.available_memory@, report_text::gb(snapshot.available_physical as nat), texts.system_cache@, report_text::gb(snapshot.system_cache as nat), texts.commit_usage@, report_text::gb(snapshot.commit_total as nat), report_text::gb(snapshot.commit_limit as nat), texts.process_count@, text::decimal(snapshot.process_count as nat));
}

/// Lines that follow upon one another are all in the whole.
proof fn lemma_openings_show_target_duration_and_memory(part0: Seq<char>, part1: Seq<char>, part2: Seq<char>, part3: Seq<char>, part4: Seq<char>, part5: Seq<char>, part6: Seq<char>, part7: Seq<char>, part8: Seq<char>)
    ensures
        text::contains(part0 + "\n"@ + part1 + ": "@ + part2 + "\n"@ + part3 + ": "@ + part4 + "s\n\n"@ + part5 + ":\n"@ + part6 + "\n"@ + part7 + ":\n"@ + part8 + "\n"@, part0 + "\n"@),
        text::contains(part0 + "\n"@ + part1 + ": "@ + part2 + "\n"@ + part3 + ": "@ + part4 + "s\n\n"@ + part5 + ":\n"@ + part6 + "\n"@ + part7 + ":\n"@ + part8 + "\n"@, part1 + ": "@ + part2 + "\n"@),
        text::contains(part0 + "\n"@ + part1 + ": "@ + part2 + "\n"@ + part3 + ": "@ + part4 + "s\n\n"@ + part5 + ":\n"@ + part6 + "\n"@ + part7 + ":\n"@ + part8 + "\n"@, part3 + ": "@ + part4 + "s\n\n"@),
        text::contains(part0 + "\n"@ + part1 + ": "@ + part2 + "\n"@ + part3 + ": "@ + part4 + "s\n\n"@ + part5 + ":\n"@ + part6 + "\n"@ + part7 + ":\n"@ + part8 + "\n"@, part5 + ":\n"@),
        text::contains(part0 + "\n"@ + part1 + ": "@ + part2 + "\n"@ + part3 + ": "@ + part4 + "s\n\n"@ + part5 + ":\n"@ + part6 + "\n"@ + part7 + ":\n"@ + part8 + "\n"@, part6 + "\n"@),
        text::contains(part0 + "\n"@ + part1 + ": "@ + part2 + "\n"@ + part3 + ": "@ + part4 + "s\n\n"@ + part5 + ":\n"@ + part6 + "\n"@ + part7 + ":\n"@ + part8 + "\n"@, part7 + ":\n"@),
        text::contains(part0 + "\n"@ + part1 + ": "@ + part2 + "\n"@ + part3 + ": "@ + part4 + "s\n\n"@ + part5 + ":\n"@ + part6 + "\n"@ + part7 + ":\n"@ + part8 + "\n"@, part8 + "\n"@),
{
    let line0 = part0 + "\n"@;
    let line1 = part1 + ": "@ + part2 + "\n"@;
    let line2 = part3 + ": "@ + part4 + "s\n\n"@;
    let line3 = part5 + ":\n"@;
    let line4 = part6 + "\n"@;
    let line5 = part7 + ":\n"@;
    let line6 = part8 + "\n"@;
    let upto0 = line0;
    text::appending_keeps_contents(Seq::empty(), line0);
    assert(Seq::<char>::empty() + line0 =~= upto0);
    let upto1 = upto0 + line1;
    assert(upto0 + part1 + ": "@ + part2 + "\n"@ =~= upto1);
    text::appending_keeps_contents(upto0, line1);
    let upto2 = upto1 + line2;
    assert(upto1 + part3 + ": "@ + part4 + "s\n\n"@ =~= upto2);
    text::appending_keeps_contents(upto1, line2);
    let upto3 = upto2 + line3;
    assert(upto2 + part5 + ":\n"@ =~= upto3);
    text::appending_keeps_contents(upto2, line3);
    let upto4 = upto3 + line4;
    assert(upto3 + part6 + "\n"@ =~= upto4);
    text::appending_keeps_contents(upto3, line4);
    let upto5 = upto4 + line5;
    assert(upto4 + part7 + ":\n"@ =~= upto5);
    text::appending_keeps_contents(upto4, line5);
    let upto6 = upto5 + line6;
    assert(upto5 + part8 + "\n"@ =~= upto6);
    text::appending_keeps_contents(upto5, line6);
    assert(part0 + "\n"@ + part1 + ": "@ + part2 + "\n"@ + part3 + ": "@ + part4 + "s\n\n"@ + part5 + ":\n"@ + part6 + "\n"@ + part7 + ":\n"@ + part8 + "\n"@ == upto6);
}

/// A report opens with its target and its duration, and with the memory before and after.
pub proof fn openings_show_target_duration_and_memory(report: OptimizeReport, texts: UiTexts)
    ensures
        text::contains(opening(report, texts), texts.memspark_report@ + "\n"@),
        text::contains(opening(report, texts), texts.mode@ + ": "@ + target_label(report, texts) + "\n"@),
        text::contains(opening(report, texts), texts.duration@ + ": "@ + report_text::seconds(report.duration_ms as nat) + "s\n\n"@),
        text::contains(opening(report, texts), texts.before@ + ":\n"@),
        text::contains(opening(report, texts), snapshot_lines(report.before, texts) + "\n"@),
        text::contains(opening(report, texts), texts.after@ + ":\n"@),
        text::contains(opening(report, texts), snapshot_lines(report.after, texts) + "\n"@),
{
    lemma_openings_show_target_duration_and_memory(texts.memspark_report@, texts.mode@, target_label(report, texts), texts.duration@, report_text::seconds(report.duration_ms as nat), texts.before@, snapshot_lines(report.before, texts), texts.after@, snapshot_lines(report.after, texts));
}

/// Lines that follow upon one another are all in the whole.
proof fn lemma_results_are_shown_line_by_line(part0: Seq<char>, part1: Seq<char>, part2: Seq<char>, part3: Seq<char>, part4: Seq<char>, part5: Seq<char>, part6: Seq<char>, part7: Seq<char>, part8: Seq<char>, part9: Seq<char>, part10: Seq<char>, part11: Seq<char>, part12: Seq<char>, part13: Seq<char>, part14: Seq<char>, part15: Seq<char>, part16: Seq<char>)
    ensures
        text::contains(part0 + ":\n"@ + part1 + ": "@ + part2 + "\n"@ + part3 + ": "@ + part4 + "\n"@ + part5 + ": "@ + part6 + "\n"@ + part7 + ": "@ + part8 + "\n"@ + part9 + part10 + part11 + part12 + "\n"@ + part13 + ": "@ + part14 + "\n"@ + part15 + part16 + "\n\n"@, part0 + ":\n"@),
        text::contains(part0 + ":\n"@ + part1 + ": "@ + part2 + "\n"@ + part3 + ": "@ + part4 + "\n"@ + part5 + ": "@ + part6 + "\n"@ + part7 + ": "@ + part8 + "\n"@ + part9 + part10 + part11 + part12 + "\n"@ + part13 + ": "@ + part14 + "\n"@ + part15 + part16 + "\n\n"@, part1 + ": "@ + part2 + "\n"@),
        text::contains(part0 + ":\n"@ + part1 + ": "@ + part2 + "\n"@ + part3 + ": "@ + part4 + "\n"@ + part5 + ": "@ + part6 + "\n"@ + part7 + ": "@ + part8 + "\n"@ + part9 + part10 + part11 + part12 + "\n"@ + part13 + ": "@ + part14 + "\n"@ + part15 + part16 + "\n\n"@, part3 + ": "@ + part4 + "\n"@),
        text::contains(part0 + ":\n"@ + part1 + ": "@ + part2 + "\n"@ + part3 + ": "@ + part4 + "\n"@ + part5 + ": "@ + part6 + "\n"@ + part7 + ": "@ + part8 + "\n"@ + part9 + part10 + part11 + part12 + "\n"@ + part13 + ": "@ + part14 + "\n"@ + part15 + part16 + "\n\n"@, part5 + ": "@ + part6 + "\n"@),
        text::contains(part0 + ":\n"@ + part1 + ": "@ + part2 + "\n"@ + part3 + ": "@ + part4 + "\n"@ + part5 + ": "@ + part6 + "\n"@ + part7 + ": "@ + part8 + "\n"@ + part9 + part10 + part11 + part12 + "\n"@ + part13 + ": "@ + part14 + "\n"@ + part15 + part16 + "\n\n"@, part7 + ": "@ + part8 + "\n"@),
        text::contains(part0 + ":\n"@ + part1 + ": "@ + part2 + "\n"@ + part3 + ": "@ + part4 + "\n"@ + part5 + ": "@ + part6 + "\n"@ + part7 + ": "@ + part8 + "\n"@ + part9 + part10 + part11 + part12 + "\n"@ + part13 + ": "@ + part14 + "\n"@ + part15 + part16 + "\n\n"@, part9 + part10 + part11 + part12 + "\n"@),
        text::contains(part0 + ":\n"@ + part1 + ": "@ + part2 + "\n"@ + part3 + ": "@ + part4 + "\n"@ + part5 + ": "@ + part6 + "\n"@ + part7 + ": "@ + part8 + "\n"@ + part9 + part10 + part11 + part12 + "\n"@ + part13 + ": "@ + part14 + "\n"@ + part15 + part16 + "\n\n"@, part13 + ": "@ + part14 + "\n"@),
        text::contains(part0 + ":\n"@ + part1 + ": "@ + part2 + "\n"@ + part3 + ": "@ + part4 + "\n"@ + part5 + ": "@ + part6 + "\n"@ + part7 + ": "@ + part8 + "\n"@ + part9 + part10 + part11 + part12 + "\n"@ + part13 + ": "@ + part14 + "\n"@ + part15 + part16 + "\n\n"@, part15 + part16 + "\n\n"@),
{
    let line0 = part0 + ":\n"@;
    let line1 = part1 + ": "@ + part2 + "\n"@;
    let line2 = part3 + ": "@ + part4 + "\n"@;
    let line3 = part5 + ": "@ + part6 + "\n"@;
    let line4 = part7 + ": "@ + part8 + "\n"@;
    let line5 = part9 + part10 + part11 + part12 + "\n"@;
    let line6 = part13 + ": "@ + part14 + "\n"@;
    let line7 = part15 + part16 + "\n\n"@;
    let upto0 = line0;
    text::appending_keeps_contents(Seq::empty(), line0);
    assert(Seq::<char>::empty() + line0 =~= upto0);
    let upto1 = upto0 + line1;
    assert(upto0 + part1 + ": "@ + part2 + "\n"@ =~= upto1);
    text::appending_keeps_contents(upto0, line1);
    let upto2 = upto1 + line2;
    assert(upto1 + part3 + ": "@ + part4 + "\n"@ =~= upto2);
    text::appending_keeps_contents(upto1, line2);
    let upto3 = upto2 + line3;
    assert(upto2 + part5 + ": "@ + part6 + "\n"@ =~= upto3);
    text::appending_keeps_contents(upto2, line3);
    let upto4 = upto3 + line4;
    assert(upto3 + part7 + ": "@ + part8 + "\n"@ =~= upto4);
    text::appending_keeps_contents(upto3, line4);
    let upto5 = upto4 + line5;
    assert(upto4 + part9 + part10 + part11 + part12 + "\n"@ =~= upto5);
    text::appending_keeps_contents(upto4, line5);
    let upto6 = upto5 + line6;
    assert(upto5 + part13 + ": "@ + part14 + "\n"@ =~= upto6);
    text::appending_keeps_contents(upto5, line6);
    let upto7 = upto6 + line7;
    assert(upto6 + part15 + part16 + "\n\n"@ =~= upto7);
    text::appending_keeps_contents(upto6, line7);
    assert(part0 + ":\n"@ + part1 + ": "@ + part2 + "\n"@ + part3 + ": "@ + part4 + "\n"@ + part5 + ": "@ + part6 + "\n"@ + part7 + ": "@ + part8 + "\n"@ + part9 + part10 + part11 + part12 + "\n"@ + part13 + ": "@ + part14 + "\n"@ + part15 + part16 + "\n\n"@ == upto7);
}

/// The result shows the final load, the change of available memory, the counts, and what the
/// release came to, each under its own label.
pub proof fn results_are_shown_line_by_line(report: OptimizeReport, texts: UiTexts)
    ensures
        text::contains(result_lines(report, texts), texts.result@ + ":\n"@),
        text::contains(result_lines(report, texts), texts.processes_trimmed@ + ": "@ + final_load(report) + "\n"@),
        text::contains(result_lines(report, texts), texts.available_increased@ + ": "@ + report_text::signed_bytes(report.increase()) + "\n"@),
        text::contains(result_lines(report, texts), texts.processes_scanned@ + ": "@ + text::decimal(report.scanned_count as nat) + "\n"@),
        text::contains(result_lines(report, texts), texts.processes_skipped@ + ": "@ + handled_share(report) + "\n"@),
        text::contains(result_lines(report, texts), ui_texts::said(texts, "Kept/skipped processes: "@, "保留/跳过进程: "@) + text::decimal(report.skipped_count as nat) + ui_texts::said(texts, "\nFailed: "@, "\n失败: "@) + text::decimal(report.failed_count as nat) + "\n"@),
        text::contains(result_lines(report, texts), texts.failed@ + ": "@ + release_word(report, texts) + "\n"@),
        text::contains(result_lines(report, texts), ui_texts::said(texts, "System release detail: "@, "系统释放说明: "@) + release_sentence(report, texts) + "\n\n"@),
{
    lemma_results_are_shown_line_by_line(texts.result@, texts.processes_trimmed@, final_load(report), texts.available_increased@, report_text::signed_bytes(report.increase()), texts.processes_scanned@, text::decimal(report.scanned_count as nat), texts.processes_skipped@, handled_share(report), ui_texts::said(texts, "Kept/skipped processes: "@, "保留/跳过进程: "@), text::decimal(report.skipped_count as nat), ui_texts::said(texts, "\nFailed: "@, "\n失败: "@), text::decimal(report.failed_count as nat), texts.failed@, release_word(report, texts), ui_texts::said(texts, "System release detail: "@, "系统释放说明: "@), release_sentence(report, texts));
}

/// The target is a load of at most a quarter: a label says whether it was met, and only that it
/// was previewed where nothing was carried out.
pub proof fn targets_are_labelled(report: OptimizeReport, texts: UiTexts)
    ensures
        texts.english() && report.dry_run ==> target_label(report, texts) == "25% target preview"@,
        texts.english() && !report.dry_run && report_text::met_target(report) ==> target_label(
            report,
            texts,
        ) == "25% target reached"@,
        texts.english() && !report.dry_run && !report_text::met_target(report) ==> target_label(
            report,
            texts,
        ) == "25% target not reached"@,
        !texts.english() && report.dry_run ==> target_label(report, texts) == "25% 目标预览"@,
        !texts.english() && !report.dry_run && report_text::met_target(report) ==> target_label(
            report,
            texts,
        ) == "25% 目标已达成"@,
        !texts.english() && !report.dry_run && !report_text::met_target(report) ==> target_label(
            report,
            texts,
        ) == "25% 目标未达成"@,
{
}

/// The share tells what was handled of what was scanned, and the final load is that after the
/// optimization. A working set that is not known is said to be unknown.
pub proof fn outcomes_are_shown_in_figures(report: OptimizeReport, bytes: u64, texts: UiTexts)
    ensures
        handled_share(report) == text::decimal(report.trimmed_count as nat) + " / "@
            + text::decimal(report.scanned_count as nat),
        final_load(report) == report.after.load_tenths() + "%"@,
        optional_working_set(Some(bytes), texts) == report_text::working_set(bytes as nat),
        optional_working_set(None, texts) == texts.unknown@,
{
}

/// Nothing is released in a preview. Otherwise memory was released, or there was a reason not
/// to, or nothing came of it.
pub proof fn releases_are_put_in_a_word(report: OptimizeReport, texts: UiTexts)
    ensures
        texts.english() ==> {
            &&& report.dry_run ==> release_word(report, texts) == "Preview"@
            &&& !report.dry_run && report.effect.system_cleanup_executed ==> release_word(
                report,
                texts,
            ) == "Released"@
            &&& !report.dry_run && !report.effect.system_cleanup_executed
                && report.effect.system_cleanup_skipped_reason is Some ==> release_word(
                report,
                texts,
            ) == "Checked"@
            &&& !report.dry_run && !report.effect.system_cleanup_executed
                && report.effect.system_cleanup_skipped_reason is None ==> release_word(
                report,
                texts,
            ) == "No visible change"@
        },
        !texts.english() ==> {
            &&& report.dry_run ==> release_word(report, texts) == "预览"@
            &&& !report.dry_run && report.effect.system_cleanup_executed ==> release_word(
                report,
                texts,
            ) == "已释放"@
            &&& !report.dry_run && !report.effect.system_cleanup_executed
                && report.effect.system_cleanup_skipped_reason is Some ==> release_word(
                report,
                texts,
            ) == "已检查"@
            &&& !report.dry_run && !report.effect.system_cleanup_executed
                && report.effect.system_cleanup_skipped_reason is None ==> release_word(
                report,
                texts,
            ) == "无可见变化"@
        },
{
}

/// The sentence on a release tells the change of available memory that was recorded, with the
/// reason where there is one; a preview and a release of nothing are said to be that.
pub proof fn releases_are_put_in_a_sentence(report: OptimizeReport, delta: i64, texts: UiTexts)
    requires
        texts.english(),
    ensures
        report.dry_run ==> release_sentence(report, texts)
            == "Dry run does not release system working sets, standby lists, or candidate processes."@,
        !report.dry_run && report.effect.standby_cleanup_delta_bytes == Some(delta) && (
        report.effect.system_cleanup_skipped_reason matches Some(reason) && reason@.len() > 0)
            ==> release_sentence(report, texts) == report_text::signed_bytes(delta as int) + "; "@
            + localized_reason(report.effect.system_cleanup_skipped_reason->0@, texts),
        !report.dry_run && report.effect.standby_cleanup_delta_bytes is None && (
        report.effect.system_cleanup_skipped_reason matches Some(reason) && reason@.len() > 0)
            ==> release_sentence(report, texts) == "no available-memory delta recorded"@ + "; "@
            + localized_reason(report.effect.system_cleanup_skipped_reason->0@, texts),
        !report.dry_run && report.effect.standby_cleanup_delta_bytes == Some(delta)
            && report.effect.system_cleanup_skipped_reason is None
            && report.effect.system_cleanup_executed ==> release_sentence(report, texts)
            == report_text::signed_bytes(delta as int)
            + "; system release produced a visible effect."@,
        !report.dry_run && report.effect.system_cleanup_skipped_reason is None
            && !report.effect.system_cleanup_executed ==> release_sentence(report, texts)
            == "No visible system-release effect was recorded after working-set handling."@,
{
}

/// Where the words are Chinese, so is the sentence on a release, and the reason stands in it as
/// it was recorded.
pub proof fn releases_are_put_in_a_chinese_sentence(
    report: OptimizeReport,
    delta: i64,
    texts: UiTexts,
)
    requires
        !texts.english(),
    ensures
        report.dry_run ==> release_sentence(report, texts)
            == "预览模式不执行系统工作集、Standby List 或候选进程释放。"@,
        !report.dry_run && report.effect.standby_cleanup_delta_bytes == Some(delta) && (
        report.effect.system_cleanup_skipped_reason matches Some(reason) && reason@.len() > 0)
            ==> release_sentence(report, texts) == report_text::signed_bytes(delta as int) + "；"@
            + report.effect.system_cleanup_skipped_reason->0@,
        !report.dry_run && report.effect.standby_cleanup_delta_bytes is None && (
        report.effect.system_cleanup_skipped_reason matches Some(reason) && reason@.len() > 0)
            ==> release_sentence(report, texts) == "无可用内存变化记录"@ + "；"@
            + report.effect.system_cleanup_skipped_reason->0@,
        !report.dry_run && report.effect.standby_cleanup_delta_bytes == Some(delta)
            && report.effect.system_cleanup_skipped_reason is None
            && report.effect.system_cleanup_executed ==> release_sentence(report, texts)
            == report_text::signed_bytes(delta as int) + "；系统释放步骤已产生可见效果。"@,
        !report.dry_run && report.effect.system_cleanup_skipped_reason is None
            && !report.effect.system_cleanup_executed ==> release_sentence(report, texts)
            == "工作集处理后未记录到系统释放的可见变化。"@,
{
}

/// Phrases are replaced one after the other, each in what the one before it has left.
pub proof fn phrases_are_replaced_in_turn(
    s: Seq<char>,
    phrases: Seq<(Seq<char>, Seq<char>)>,
    phrase: (Seq<char>, Seq<char>),
)
    ensures
        with_phrases(s, Seq::empty()) == s,
        with_phrases(s, phrases.push(phrase)) == text::replaced(
            with_phrases(s, phrases),
            phrase.0,
            phrase.1,
        ),
{
    assert(phrases.push(phrase).drop_last() =~= phrases);
}

/// Eight processes are listed, those that shrank most; that there was none is said only where
/// none was handled.
pub proof fn eight_handled_processes_are_listed(report: OptimizeReport, texts: UiTexts)
    ensures
        report_text::top_rows(report.results@, 8).len() > 0 ==> top_list(report, texts)
            == handled_lines(report_text::top_rows(report.results@, 8), texts),
        report_text::top_rows(report.results@, 8).len() == 0 && texts.english() ==> top_list(
            report,
            texts,
        )
            == "No process was handled in this run. Candidates may have been kept by system, foreground, or activity rules."@,
        report_text::top_rows(report.results@, 8).len() == 0 && !texts.english() ==> top_list(
            report,
            texts,
        )
            == "本次没有实际处理进程。可能是候选进程较少，或大多被系统边界、前台规则、活跃度规则保留。"@,
{
}

/// Ten processes are listed in a report, those that shrank most.
pub proof fn ten_processes_are_in_a_report(report: OptimizeReport, texts: UiTexts)
    ensures
        report_text::top_rows(report.results@, 10).len() > 0 ==> top_lines(report, texts)
            == row_lines(report_text::top_rows(report.results@, 10), texts),
        report_text::top_rows(report.results@, 10).len() == 0 ==> top_lines(report, texts)
            == texts.none@ + "\n"@,
{
}

/// Lists show one line for each of their processes, in their order.
pub proof fn lists_show_every_row_in_order(
    rows: Seq<TrimResult>,
    row: TrimResult,
    texts: UiTexts,
    ending: Seq<char>,
)
    ensures
        handled_lines(rows.push(row), texts) == handled_lines(rows, texts) + handled_line(
            row,
            texts,
        ),
        planned_lines(rows.push(row), texts, ending) == planned_lines(rows, texts, ending) + (
        row.name@ + "    "@ + report_text::working_set(row.before_working_set as nat) + "    "@
            + texts.reason@ + ": "@ + texts.reason_background_large_ws@ + ending),
        row_lines(rows.push(row), texts) == row_lines(rows, texts) + (row.name@ + "    "@
            + report_text::working_set(row.before_working_set as nat) + " -> "@
            + optional_working_set(row.after_working_set, texts) + "\n"@),
{
    assert(rows.push(row).drop_last() =~= rows);
}

/// The planned processes are those that would be trimmed, in the order of the results.
pub proof fn planned_processes_are_those_to_trim(results: Seq<TrimResult>, result: TrimResult)
    ensures
        planned_rows(Seq::empty()) == Seq::<TrimResult>::empty(),
        result.status is WouldTrim ==> planned_rows(results.push(result)) == planned_rows(
            results,
        ).push(result),
        !(result.status is WouldTrim) ==> planned_rows(results.push(result)) == planned_rows(
            results,
        ),
{
    assert(results.push(result).drop_last() =~= results);
}

/// A preview leads with the planned processes, the first eight of them, and a report with those
/// that shrank most.
pub proof fn previews_lead_with_plans(report: OptimizeReport, texts: UiTexts)
    ensures
        ({
            let rows = planned_rows(report.results@);
            let ending = if texts.locale == ui_texts::UiLanguage::EnUs {
                "    Status: Would handle\n"@
            } else {
                "    状态: 预计处理\n"@
            };
            let heading = if texts.locale == ui_texts::UiLanguage::EnUs {
                "Dry run does not optimize memory. These processes would be handled in a real run:\n"@
            } else {
                "预览模式不会执行内存优化；以下进程在正式执行时将作为工作集处理候选：\n"@
            };
            &&& report.dry_run && 0 < rows.len() <= 8 ==> activity_list(report, texts) == heading
                + planned_lines(rows, texts, ending)
            &&& report.dry_run && rows.len() > 8 ==> activity_list(report, texts) == heading
                + planned_lines(rows.take(8), texts, ending)
            &&& report.dry_run && rows.len() == 0 && texts.english() ==> activity_list(
                report,
                texts,
            )
                == "Dry-run found no handleable processes. Most processes may be kept by system, foreground, or working-set threshold rules."@
            &&& report.dry_run && rows.len() == 0 && !texts.english() ==> activity_list(
                report,
                texts,
            )
                == "预览结果中没有可处理进程。多数进程可能已被系统边界、前台规则或工作集阈值保留。"@
            &&& !report.dry_run ==> activity_list(report, texts) == top_list(report, texts)
        }),
{
}

/// Every reason has a label of its own among the words; other reasons are told in their own
/// words, where they have any.
pub proof fn reasons_have_labels(reason: SkipReason, texts: UiTexts)
    ensures
        reason is SystemProcess ==> reason_label(reason, texts) == texts.skip_system_process@,
        reason is SelfProcess ==> reason_label(reason, texts) == texts.skip_self_process@,
        reason is ForegroundProcess ==> reason_label(reason, texts)
            == texts.skip_foreground_process@,
        reason is SystemBoundaryProcess ==> reason_label(reason, texts)
            == texts.skip_system_boundary@,
        reason is LegacyRecommendedRule ==> reason_label(reason, texts)
            == texts.skip_legacy_recommended_rule@,
        reason is LegacyUserRule ==> reason_label(reason, texts) == texts.skip_legacy_user_rule@,
        reason is WorkingSetTooSmall ==> reason_label(reason, texts)
            == texts.skip_working_set_small@,
        reason is AccessDenied ==> reason_label(reason, texts) == texts.skip_access_denied@,
        reason is OpenProcessFailed ==> reason_label(reason, texts)
            == texts.skip_open_process_failed@,
        reason is QueryFailed ==> reason_label(reason, texts) == texts.skip_query_failed@,
        reason is ProcessExited ==> reason_label(reason, texts) == texts.skip_process_exited@,
        reason is HighCpuUsage ==> reason_label(reason, texts) == texts.skip_high_cpu@,
        reason is HighIoActivity ==> reason_label(reason, texts) == texts.skip_high_io@,
        reason matches SkipReason::Other(message) ==> if message@.len() > 0 {
            reason_label(reason, texts) == message@
        } else {
            reason_label(reason, texts) == texts.skip_other@
        },
{
}

/// What explains a reason where the words are English.
pub proof fn reasons_are_explained(reason: SkipReason, texts: UiTexts)
    requires
        texts.english(),
    ensures
        explanation(reason, texts) == match reason {
            SkipReason::SystemProcess => "System stability boundary; kept by default."@,
            SkipReason::SelfProcess => "The MemSpark process is not handled."@,
            SkipReason::ForegroundProcess => "The current foreground process is skipped to avoid disrupting active work."@,
            SkipReason::SystemBoundaryProcess => "Matched a hard system boundary; this version does not handle it."@,
            SkipReason::LegacyRecommendedRule => "Compatibility entry from older reports; that rule module has been removed."@,
            SkipReason::LegacyUserRule => "Compatibility entry from older reports; user-rule handling has been removed."@,
            SkipReason::WorkingSetTooSmall => "Working set is below the handling floor, so release benefit is limited."@,
            SkipReason::AccessDenied => "Windows denied access; the run continued with other processes."@,
            SkipReason::OpenProcessFailed => "The process could not be opened; it may have exited or denied access."@,
            SkipReason::QueryFailed => "Process memory information could not be queried."@,
            SkipReason::ProcessExited => "The process exited after enumeration; this is a normal race."@,
            SkipReason::HighCpuUsage => "High CPU activity is skipped to avoid disturbing active tasks."@,
            SkipReason::HighIoActivity => "High I/O activity is skipped to avoid disturbing active reads or writes."@,
            SkipReason::Other(message) => if message@.len() > 0 {
                message@
            } else {
                "Other safety or system reason."@
            },
        },
{
}

/// What explains a reason where the words are Chinese.
pub proof fn reasons_are_explained_in_chinese(reason: SkipReason, texts: UiTexts)
    requires
        !texts.english(),
    ensures
        explanation(reason, texts) == match reason {
            SkipReason::SystemProcess => "系统稳定性边界，默认不整理。"@,
            SkipReason::SelfProcess => "MemSpark 自身进程不会被整理。"@,
            SkipReason::ForegroundProcess => "当前前台进程默认跳过，避免影响正在使用的程序。"@,
            SkipReason::SystemBoundaryProcess => "命中系统硬边界，当前版本不处理。"@,
            SkipReason::LegacyRecommendedRule => "旧报告中的推荐规则兼容项；当前版本不再提供该规则模块。"@,
            SkipReason::LegacyUserRule => "旧报告中的用户规则兼容项；当前版本不再提供该规则模块。"@,
            SkipReason::WorkingSetTooSmall => "工作集低于当前处理下限，释放收益有限。"@,
            SkipReason::AccessDenied => "Windows 权限不足，已记录并继续处理其他进程。"@,
            SkipReason::OpenProcessFailed => "进程无法打开，可能已退出或权限不足。"@,
            SkipReason::QueryFailed => "进程内存信息查询失败。"@,
            SkipReason::ProcessExited => "枚举后进程退出，属于正常竞争情况。"@,
            SkipReason::HighCpuUsage => "高 CPU 活跃进程会跳过，避免整理活跃任务。"@,
            SkipReason::HighIoActivity => "高 I/O 活跃进程会跳过，避免影响正在读写的任务。"@,
            SkipReason::Other(message) => if message@.len() > 0 {
                message@
            } else {
                "其他安全或系统原因。"@
            },
        },
{
}

/// These phrases are put in English, in this order: a phrase comes before any part of it.
pub proof fn phrases_have_english_words()
    ensures
        english_phrases().len() == 15,
        english_phrases()[0] == ("内存优化目标释放失败："@, "target release failed: "@),
        english_phrases()[1] == ("advanced_cleanup 未启用，已跳过系统级清理"@, "advanced_cleanup is disabled; system cleanup was skipped"@),
        english_phrases()[2] == ("dry-run 只预览，不执行系统级清理"@, "dry run previews only; system cleanup was not executed"@),
        english_phrases()[3] == ("需要管理员权限，已跳过 standby list / 系统工作集清理"@, "administrator permission required; standby list and system working-set cleanup were skipped"@),
        english_phrases()[4] == ("启用系统级清理权限失败："@, "failed to enable system cleanup privilege: "@),
        english_phrases()[5] == ("系统工作集清理失败："@, "system working-set cleanup failed: "@),
        english_phrases()[6] == ("低优先级 standby list 清理失败："@, "low-priority standby list cleanup failed: "@),
        english_phrases()[7] == ("standby list 清理失败："@, "standby list cleanup failed: "@),
        english_phrases()[8] == ("modified page list 清理已预留，本版本默认不执行"@, "modified page list cleanup is reserved and not executed by default in this version"@),
        english_phrases()[9] == ("目标释放已进入终止阶段：候选 "@, "target release entered termination stage: candidates "@),
        english_phrases()[10] == ("，温和关闭 "@, ", graceful close "@),
        english_phrases()[11] == ("，强制终止 "@, ", force kill "@),
        english_phrases()[12] == ("，失败 "@, ", failed "@),
        english_phrases()[13] == ("；"@, "; "@),
        english_phrases()[14] == ("，"@, ", "@),
{
}

/// A reason stands as it was recorded where the words are Chinese, and with its phrases
/// replaced where they are English.
pub proof fn reasons_are_put_in_the_language(reason: Seq<char>, texts: UiTexts)
    ensures
        texts.english() ==> localized_reason(reason, texts) == with_phrases(
            reason,
            english_phrases(),
        ),
        !texts.english() ==> localized_reason(reason, texts) == reason,
{
}

/// Every process that was left alone counts under the label of its reason, beside what explains
/// it.
pub proof fn labels_and_explanations_go_together(
    results: Seq<TrimResult>,
    result: TrimResult,
    texts: UiTexts,
)
    ensures
        label_list(Seq::empty(), texts) == Seq::<Seq<char>>::empty(),
        explanation_list(Seq::empty(), texts) == Seq::<Seq<char>>::empty(),
        result.status matches TrimStatus::Skipped(reason) ==> label_list(
            results.push(result),
            texts,
        ) == label_list(results, texts).push(reason_label(reason, texts)) && explanation_list(
            results.push(result),
            texts,
        ) == explanation_list(results, texts).push(explanation(reason, texts)),
        !(result.status is Skipped) ==> label_list(results.push(result), texts) == label_list(
            results,
            texts,
        ) && explanation_list(results.push(result), texts) == explanation_list(results, texts),
{
    assert(results.push(result).drop_last() =~= results);
}

/// A summary has one line for each label, with its count and the explanation of its first
/// occurrence; that there is none is said only where there is none.
pub proof fn summaries_explain_every_label(
    table: Seq<LabelCount>,
    entry: LabelCount,
    explanations: Seq<Seq<char>>,
    report: OptimizeReport,
    texts: UiTexts,
)
    ensures
        explained_lines(table.push(entry), explanations) == explained_lines(table, explanations) + (
        entry.label@ + ": "@ + text::decimal(entry.count as nat) + " - "@
            + explanations[entry.first as int] + "\n"@),
        order::tally_of(label_list(report.results@, texts)).len() > 0 ==> skip_summary(
            report,
            texts,
        ) == explained_lines(
            order::tally_of(label_list(report.results@, texts)),
            explanation_list(report.results@, texts),
        ),
        order::tally_of(label_list(report.results@, texts)).len() == 0 && texts.english()
            ==> skip_summary(report, texts) == "No skipped-reason records."@,
        order::tally_of(label_list(report.results@, texts)).len() == 0 && !texts.english()
            ==> skip_summary(report, texts) == "没有跳过原因记录。"@,
{
    assert(table.push(entry).drop_last() =~= table);
}

/// The conclusion of an optimization tells the load before and after, whether the target was
/// met, the change of available memory, what became of the working sets, and what the release
/// came to.
pub proof fn optimizations_are_concluded(report: OptimizeReport, texts: UiTexts)
    requires
        !report.dry_run,
    ensures
        texts.english() && report_text::met_target(report) ==> conclusion(report, texts) == "Optimization completed: memory load changed from "@ + report.before.load_tenths() + "% to "@ + report.after.load_tenths() + "%, reaching the <= 25% target; available memory changed by "@ + report_text::signed_bytes(report.increase()) + ". "@ + working_set_sentence(report, texts) + " System release: "@ + release_word(report, texts) + "."@,
        !texts.english() && report_text::met_target(report) ==> conclusion(report, texts) == "本次优化已完成：内存占用从 "@ + report.before.load_tenths() + "% 变为 "@ + report.after.load_tenths() + "%，已达到不高于 25% 的目标；可用内存变化 "@ + report_text::signed_bytes(report.increase()) + "。"@ + working_set_sentence(report, texts) + "系统释放："@ + release_word(report, texts) + "。"@,
        texts.english() && !report_text::met_target(report) ==> conclusion(report, texts) == "All available optimization steps were run: memory load changed from "@ + report.before.load_tenths() + "% to "@ + report.after.load_tenths() + "%, but the <= 25% target was not reached; available memory changed by "@ + report_text::signed_bytes(report.increase()) + ". "@ + working_set_sentence(report, texts) + " System release: "@ + release_word(report, texts) + ". Remaining usage usually comes from system reservations, drivers, kernel memory, foreground apps, or processes that cannot be handled."@,
        !texts.english() && !report_text::met_target(report) ==> conclusion(report, texts) == "本次优化已执行全部可用步骤：内存占用从 "@ + report.before.load_tenths() + "% 变为 "@ + report.after.load_tenths() + "%，未达到不高于 25% 的目标；可用内存变化 "@ + report_text::signed_bytes(report.increase()) + "。"@ + working_set_sentence(report, texts) + "系统释放："@ + release_word(report, texts) + "。剩余占用通常来自系统保留、驱动、内核、前台程序或不可处理进程。"@,
{
}

/// A preview is concluded as one.
pub proof fn conclusions_tell_previews_apart(report: OptimizeReport, texts: UiTexts)
    ensures
        report.dry_run ==> conclusion(report, texts) == preview_conclusion(report, texts),
{
}

/// A change below 64 MiB either way may not show, which is explained. A preview changes nothing
/// and shows no load.
pub proof fn small_changes_are_explained(report: OptimizeReport, texts: UiTexts)
    requires
        texts.english(),
    ensures
        report.dry_run ==> change_detail(report, texts) == change_figures(report, texts)
            + texts.dry_run@ + " does not release memory, so +0.0 GB is expected."@,
        !report.dry_run && -67108864 < report.increase() < 67108864 ==> change_detail(report, texts)
            == "Load "@ + report.before.load_tenths() + "% -> "@ + report.after.load_tenths()
            + "%; "@ + change_figures(report, texts)
            + "The change may display as +0.0 GB when it is below display precision or cache is quickly reallocated."@,
        !report.dry_run && (report.increase() <= -67108864 || report.increase() >= 67108864)
            ==> change_detail(report, texts) == "Load "@ + report.before.load_tenths() + "% -> "@
            + report.after.load_tenths() + "%; "@ + change_figures(report, texts)
            + "This value comes from before/after GlobalMemoryStatusEx and GetPerformanceInfo snapshots."@,
{
}

/// Where the words are Chinese, so is what is said of a change.
pub proof fn small_changes_are_explained_in_chinese(report: OptimizeReport, texts: UiTexts)
    requires
        !texts.english(),
    ensures
        report.dry_run ==> change_detail(report, texts) == change_figures(report, texts)
            + texts.dry_run@ + "不会实际释放内存，所以 +0.0 GB 属于正常结果。"@,
        !report.dry_run && -67108864 < report.increase() < 67108864 ==> change_detail(report, texts)
            == "占用率 "@ + report.before.load_tenths() + "% -> "@ + report.after.load_tenths()
            + "%；"@ + change_figures(report, texts)
            + "变化小于显示精度或系统很快重新分配缓存时，界面可能显示为 +0.0 GB。"@,
        !report.dry_run && (report.increase() <= -67108864 || report.increase() >= 67108864)
            ==> change_detail(report, texts) == "占用率 "@ + report.before.load_tenths() + "% -> "@
            + report.after.load_tenths() + "%；"@ + change_figures(report, texts)
            + "该数值来自优化前后 GlobalMemoryStatusEx / GetPerformanceInfo 的快照差异。"@,
{
}

/// A report holds its opening, its result and the processes that shrank most. A preview holds
/// every planned process and the reasons for which others were left alone.
pub proof fn reports_hold_all_their_parts(report: OptimizeReport, texts: UiTexts)
    ensures
        !report.dry_run ==> report_words(report, texts) == opening(report, texts) + result_lines(
            report,
            texts,
        ) + texts.top_trimmed_processes@ + ":\n"@ + top_lines(report, texts),
        report.dry_run ==> report_words(report, texts) == texts.dry_run@ + (if texts.english() {
            " - 25% target preview\n\n"@
        } else {
            " - 25% 目标预览\n\n"@
        }) + texts.will_trim@ + ":\n"@ + (if planned_rows(report.results@).len() == 0 {
            texts.none@ + "\n"@
        } else {
            planned_lines(planned_rows(report.results@), texts, "\n"@)
        }) + "\n"@ + texts.skipped_summary@ + ":\n"@ + (if order::tally_of(
            label_list(report.results@, texts),
        ).len() == 0 {
            texts.none@ + "\n"@
        } else {
            report_text::tally_lines(order::tally_of(label_list(report.results@, texts)))
        }) + "\n"@ + texts.skipped_details@ + ": "@ + texts.use_verbose@ + "\n"@,
{
}

/// What the window shows of a report: each figure in its own place.
pub proof fn reports_are_shown_figure_by_figure(
    data: ReportViewData,
    report: OptimizeReport,
    texts: UiTexts,
)
    requires
        data.shows(report, texts),
    ensures
        data.text@ == report_words(report, texts),
        data.before_memory@ == memory_summary(report.before, texts),
        data.after_memory@ == memory_summary(report.after, texts),
        data.available_increase@ == report_text::signed_bytes(report.increase()),
        data.scanned@ == text::decimal(report.scanned_count as nat),
        data.trimmed@ == report.after.load_tenths() + "%"@,
        data.skipped@ == text::decimal(report.trimmed_count as nat) + " / "@ + text::decimal(
            report.scanned_count as nat,
        ),
        data.failed@ == release_word(report, texts),
        data.top_trimmed@ == activity_list(report, texts),
        report.dry_run ==> data.primary_process_title@ == texts.will_trim@ && data.report_type@
            == texts.dry_run@,
        !report.dry_run ==> data.primary_process_title@ == texts.top_trimmed_processes@
            && data.report_type@ == texts.result@,
        data.conclusion@ == conclusion(report, texts),
        data.mode@ == target_label(report, texts),
        data.duration@ == report_text::seconds(report.duration_ms as nat) + "s"@,
        data.available_change_detail@ == change_detail(report, texts),
        data.system_release_detail@ == release_sentence(report, texts),
        data.skip_summary@ == skip_summary(report, texts),
{
}

/// Where there is no report, no figure is shown.
pub proof fn blank_reports_show_no_figure(data: ReportViewData, texts: UiTexts)
    requires
        data.is_blank(texts),
    ensures
        data.before_memory@ == "--"@ && data.after_memory@ == "--"@,
        data.available_increase@ == "--"@,
        data.scanned@ == "--"@ && data.trimmed@ == "--"@ && data.skipped@ == "--"@ && data.failed@
            == "--"@,
        data.report_type@ == "--"@ && data.mode@ == "--"@ && data.duration@ == "--"@,
        data.top_trimmed@ == texts.none@ && data.skip_summary@ == texts.none@,
        data.primary_process_title@ == texts.top_trimmed_processes@,
        data.conclusion@ == texts.no_report_loaded@,
        data.available_change_detail@ == texts.no_report_loaded@,
        data.system_release_detail@ == texts.no_report_loaded@,
{
}

/// What could not be saved is told behind the report, each with its error, and nothing where
/// all was saved.
pub proof fn lost_files_are_told(report_error: Seq<char>, log_error: Seq<char>, texts: UiTexts)
    ensures
        save_warnings(None, None, texts) == Seq::<char>::empty(),
        save_warnings(Some(report_error), None, texts) == "\n"@ + texts.report_save_warning@
            + report_error + "\n"@,
        texts.english() ==> save_warnings(None, Some(log_error), texts)
            == "\nwarning: developer log could not be saved: "@ + log_error + "\n"@,
        !texts.english() ==> save_warnings(None, Some(log_error), texts)
            == "\n警告：开发日志无法保存："@ + log_error + "\n"@,
        save_warnings(Some(report_error), Some(log_error), texts) == save_warnings(
            Some(report_error),
            None,
            texts,
        ) + save_warnings(None, Some(log_error), texts),
{
    reveal_strlit("");
    assert(save_warnings(None, None, texts) =~= Seq::<char>::empty());
}

} // verus!
