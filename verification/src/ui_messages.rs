//! The short messages of the window, and the labels of its dashboard.

use crate::memory::{load_text, MemorySnapshot};
use crate::report_text;
use crate::report_text::format_gb;
use crate::text;
use crate::ui_texts;
use crate::ui_texts::{in_language, UiTexts};
use vstd::prelude::*;

verus! {

/// What the window has to say. A text is an error or a path; a number counts files.
#[derive(Debug)]
pub enum UiMessage {
    LanguageChanged,
    ThemeChanged,
    HistoryCleared(usize),
    HistoryNotCleared(String),
    LogsCleared(usize),
    LogsNotCleared(String),
    SettingsSaved,
    RestartFailed(String),
    SettingsNotSaved(String),
    ReportOpened(String),
    ReportNotOpened(String),
    NoReportYet,
    FolderOpened(String),
    FolderNotOpened(String),
    ChooseFolder,
    FolderChosen(String),
    ChoiceCanceled,
    ChoiceFailed(String),
    PathsUnreadable(String),
    ConfigReady(String),
    ConfigNotReady(String),
    OptimizeRunning,
    OptimizeStarted,
    OptimizeCompleted,
    OptimizeFailed(String),
    DashboardFailed(String),
    Ready,
    Loading,
}

impl UiMessage {
    /// The message in English and in Chinese: what stands before the detail, the detail, and
    /// what stands behind it.
    pub open spec fn parts(self, texts: UiTexts) -> ((Seq<char>, Seq<char>), Seq<char>, (Seq<char>, Seq<char>)) {
        let nothing = (""@, ""@);
        match self {
            UiMessage::LanguageChanged => (
                (
                    "Language changed. Click Save and Apply to restart."@,
                    "语言已变更，点击“保存并应用设置”后重启生效。"@,
                ),
                ""@,
                nothing,
            ),
            UiMessage::ThemeChanged => (
                (
                    "Theme changed. Click Save and Apply to keep it."@,
                    "主题已变更，点击“保存并应用设置”后保留。"@,
                ),
                ""@,
                nothing,
            ),
            UiMessage::HistoryCleared(removed) => (
                ("Cleared history reports: "@, "已清理历史报告："@),
                text::decimal(removed as nat),
                (" file(s)."@, " 个文件。"@),
            ),
            UiMessage::HistoryNotCleared(error) => (
                ("Failed to clear history reports: "@, "清理历史报告失败："@),
                error@,
                nothing,
            ),
            UiMessage::LogsCleared(removed) => (
                ("Cleared developer logs: "@, "已清理开发日志："@),
                text::decimal(removed as nat),
                (" file(s)."@, " 个文件。"@),
            ),
            UiMessage::LogsNotCleared(error) => (
                ("Failed to clear developer logs: "@, "清理开发日志失败："@),
                error@,
                nothing,
            ),
            UiMessage::SettingsSaved => (
                (
                    "Settings saved. MemSpark will restart to apply them."@,
                    "设置已保存，应用将自动重启以生效。"@,
                ),
                ""@,
                nothing,
            ),
            UiMessage::RestartFailed(error) => (
                (
                    "Settings saved, but automatic restart failed: "@,
                    "设置已保存，但自动重启失败："@,
                ),
                error@,
                nothing,
            ),
            UiMessage::SettingsNotSaved(error) => (
                ("Failed to save settings: "@, "设置保存失败："@),
                error@,
                nothing,
            ),
            UiMessage::ReportOpened(path) => (
                ("Opened report: "@, "已打开报告："@),
                path@,
                nothing,
            ),
            UiMessage::ReportNotOpened(error) => (
                ("Failed to open report: "@, "打开报告失败："@),
                error@,
                nothing,
            ),
            UiMessage::NoReportYet => (
                (
                    "No report file yet. Run optimization first."@,
                    "暂无报告文件，请先执行一次预览或优化。"@,
                ),
                ""@,
                nothing,
            ),
            UiMessage::FolderOpened(path) => (
                ("Opened report folder: "@, "已打开报告文件夹："@),
                path@,
                nothing,
            ),
            UiMessage::FolderNotOpened(error) => (
                ("Failed to open report folder: "@, "打开报告文件夹失败："@),
                error@,
                nothing,
            ),
            UiMessage::ChooseFolder => (
                ("Choose a report save folder."@, "请选择报告保存文件夹。"@),
                ""@,
                nothing,
            ),
            UiMessage::FolderChosen(path) => (
                ("Report save path selected: "@, "报告保存位置已选择："@),
                path@,
                ("; waiting to save."@, "，等待保存。"@),
            ),
            UiMessage::ChoiceCanceled => (
                ("Folder selection canceled."@, "已取消选择保存位置。"@),
                ""@,
                nothing,
            ),
            UiMessage::ChoiceFailed(error) => (
                ("Failed to choose save path: "@, "选择保存位置失败："@),
                error@,
                nothing,
            ),
            UiMessage::PathsUnreadable(error) => (
                ("Failed to read report paths: "@, "报告保存路径读取失败："@),
                error@,
                nothing,
            ),
            UiMessage::ConfigReady(path) => (
                (texts.config_ready@, texts.config_ready@),
                path@,
                nothing,
            ),
            UiMessage::ConfigNotReady(error) => (
                (texts.config_init_failed@, texts.config_init_failed@),
                error@,
                nothing,
            ),
            UiMessage::OptimizeRunning => (
                (texts.optimize_running@, texts.optimize_running@),
                ""@,
                nothing,
            ),
            UiMessage::OptimizeStarted => (
                (texts.optimization_started@, texts.optimization_started@),
                ""@,
                nothing,
            ),
            UiMessage::OptimizeCompleted => (
                (texts.optimization_completed@, texts.optimization_completed@),
                ""@,
                nothing,
            ),
            UiMessage::OptimizeFailed(error) => (
                (texts.optimization_failed@, texts.optimization_failed@),
                error@,
                nothing,
            ),
            UiMessage::DashboardFailed(error) => (
                (texts.dashboard_refresh_failed@, texts.dashboard_refresh_failed@),
                error@,
                nothing,
            ),
            UiMessage::Ready => (
                (texts.ready@, texts.ready@),
                ""@,
                nothing,
            ),
            UiMessage::Loading => (
                (texts.loading@, texts.loading@),
                ""@,
                nothing,
            ),
        }
    }

    /// The message in the language of the window.
    pub open spec fn words(self, texts: UiTexts) -> Seq<char> {
        let (before, detail, behind) = self.parts(texts);
        ui_texts::said(texts, before.0, before.1) + detail + ui_texts::said(
            texts,
            behind.0,
            behind.1,
        )
    }

    /// Writes the message in the language of the window.
    pub fn to_text(&self, texts: &UiTexts) -> (r: String)
        ensures
            r@ == self.words(*texts),
    {
        let (english, chinese): (&'static str, &'static str) = match self {
            UiMessage::LanguageChanged => (
                "Language changed. Click Save and Apply to restart.",
                "语言已变更，点击“保存并应用设置”后重启生效。",
            ),
            UiMessage::ThemeChanged => (
                "Theme changed. Click Save and Apply to keep it.",
                "主题已变更，点击“保存并应用设置”后保留。",
            ),
            UiMessage::HistoryCleared(_) => ("Cleared history reports: ", "已清理历史报告："),
            UiMessage::HistoryNotCleared(_) => (
                "Failed to clear history reports: ",
                "清理历史报告失败：",
            ),
            UiMessage::LogsCleared(_) => ("Cleared developer logs: ", "已清理开发日志："),
            UiMessage::LogsNotCleared(_) => (
                "Failed to clear developer logs: ",
                "清理开发日志失败：",
            ),
            UiMessage::SettingsSaved => (
                "Settings saved. MemSpark will restart to apply them.",
                "设置已保存，应用将自动重启以生效。",
            ),
            UiMessage::RestartFailed(_) => (
                "Settings saved, but automatic restart failed: ",
                "设置已保存，但自动重启失败：",
            ),
            UiMessage::SettingsNotSaved(_) => ("Failed to save settings: ", "设置保存失败："),
            UiMessage::ReportOpened(_) => ("Opened report: ", "已打开报告："),
            UiMessage::ReportNotOpened(_) => ("Failed to open report: ", "打开报告失败："),
            UiMessage::NoReportYet => (
                "No report file yet. Run optimization first.",
                "暂无报告文件，请先执行一次预览或优化。",
            ),
            UiMessage::FolderOpened(_) => ("Opened report folder: ", "已打开报告文件夹："),
            UiMessage::FolderNotOpened(_) => (
                "Failed to open report folder: ",
                "打开报告文件夹失败：",
            ),
            UiMessage::ChooseFolder => ("Choose a report save folder.", "请选择报告保存文件夹。"),
            UiMessage::FolderChosen(_) => ("Report save path selected: ", "报告保存位置已选择："),
            UiMessage::ChoiceCanceled => ("Folder selection canceled.", "已取消选择保存位置。"),
            UiMessage::ChoiceFailed(_) => ("Failed to choose save path: ", "选择保存位置失败："),
            UiMessage::PathsUnreadable(_) => (
                "Failed to read report paths: ",
                "报告保存路径读取失败：",
            ),
            UiMessage::ConfigReady(_) => (texts.config_ready, texts.config_ready),
            UiMessage::ConfigNotReady(_) => (texts.config_init_failed, texts.config_init_failed),
            UiMessage::OptimizeRunning => (texts.optimize_running, texts.optimize_running),
            UiMessage::OptimizeStarted => (texts.optimization_started, texts.optimization_started),
            UiMessage::OptimizeCompleted => (texts.optimization_completed, texts.optimization_completed),
            UiMessage::OptimizeFailed(_) => (texts.optimization_failed, texts.optimization_failed),
            UiMessage::DashboardFailed(_) => (
                texts.dashboard_refresh_failed,
                texts.dashboard_refresh_failed,
            ),
            UiMessage::Ready => (texts.ready, texts.ready),
            UiMessage::Loading => (texts.loading, texts.loading),
        };
        let detail: String = match self {
            UiMessage::HistoryCleared(removed) => text::decimal_text(*removed as u128),
            UiMessage::LogsCleared(removed) => text::decimal_text(*removed as u128),
            UiMessage::HistoryNotCleared(detail) => detail.clone(),
            UiMessage::LogsNotCleared(detail) => detail.clone(),
            UiMessage::RestartFailed(detail) => detail.clone(),
            UiMessage::SettingsNotSaved(detail) => detail.clone(),
            UiMessage::ReportOpened(detail) => detail.clone(),
            UiMessage::ReportNotOpened(detail) => detail.clone(),
            UiMessage::FolderOpened(detail) => detail.clone(),
            UiMessage::FolderNotOpened(detail) => detail.clone(),
            UiMessage::FolderChosen(detail) => detail.clone(),
            UiMessage::ChoiceFailed(detail) => detail.clone(),
            UiMessage::PathsUnreadable(detail) => detail.clone(),
            UiMessage::ConfigReady(detail) => detail.clone(),
            UiMessage::ConfigNotReady(detail) => detail.clone(),
            UiMessage::OptimizeFailed(detail) => detail.clone(),
            UiMessage::DashboardFailed(detail) => detail.clone(),
            _ => "".to_owned(),
        };
        let (english_end, chinese_end): (&'static str, &'static str) = match self {
            UiMessage::HistoryCleared(_) => (" file(s).", " 个文件。"),
            UiMessage::LogsCleared(_) => (" file(s).", " 个文件。"),
            UiMessage::FolderChosen(_) => ("; waiting to save.", "，等待保存。"),
            _ => ("", ""),
        };
        let mut r: String = in_language(texts, english, chinese).to_owned();
        r.append(detail.as_str());
        r.append(in_language(texts, english_end, chinese_end));
        r
    }
}

/// The script that asks for a folder and prints what was chosen.
pub open spec fn folder_script(texts: UiTexts) -> Seq<char> {
    "Add-Type -AssemblyName System.Windows.Forms; $dialog = New-Object System.Windows.Forms.FolderBrowserDialog; $dialog.Description = '"@
        + ui_texts::said(
        texts,
        "Choose MemSpark report folder"@,
        "选择 MemSpark 报告保存文件夹"@,
    )
        + "'; if ($dialog.ShowDialog() -eq [System.Windows.Forms.DialogResult]::OK) { $dialog.SelectedPath }"@
}

/// Writes the script that asks for a folder and prints what was chosen.
pub fn folder_dialog_script(texts: &UiTexts) -> (r: String)
    ensures
        r@ == folder_script(*texts),
{
    let mut r: String =
        "Add-Type -AssemblyName System.Windows.Forms; $dialog = New-Object System.Windows.Forms.FolderBrowserDialog; $dialog.Description = '".to_owned();
    r.append(
        in_language(
            texts,
            "Choose MemSpark report folder",
            "选择 MemSpark 报告保存文件夹",
        ),
    );
    r.append(
        "'; if ($dialog.ShowDialog() -eq [System.Windows.Forms.DialogResult]::OK) { $dialog.SelectedPath }",
    );
    r
}

/// What is said of an optimization that was started as an administrator and has ended.
pub open spec fn failure_words(exit_code: u32, detail: Option<Seq<char>>) -> Option<Seq<char>> {
    if exit_code == 0 {
        None
    } else {
        Some(
            "管理员子进程退出码："@ + text::decimal(exit_code as nat) + (match detail {
                Some(detail) => if text::trimmed(detail).len() == 0 {
                    ""@
                } else {
                    "；"@ + detail
                },
                None => ""@,
            }),
        )
    }
}

/// Puts into words why an optimization that was started as an administrator has failed; nothing
/// is said of one that succeeded.
pub fn elevated_failure(exit_code: u32, detail: Option<&str>) -> (r: Option<String>)
    ensures
        text::optional(r) == failure_words(
            exit_code,
            match detail {
                Some(detail) => Some(detail@),
                None => None,
            },
        ),
{
    if exit_code == 0 {
        return None;
    }
    let mut message: String = "管理员子进程退出码：".to_owned();
    message.append(text::decimal_text(exit_code as u128).as_str());
    let ending: String = match detail {
        Some(detail) => {
            let trimmed: String = text::trim_text(detail);
            if trimmed.as_str().is_empty() {
                "".to_owned()
            } else {
                let mut ending: String = "；".to_owned();
                ending.append(detail);
                ending
            }
        },
        None => "".to_owned(),
    };
    message.append(ending.as_str());
    Some(message)
}

/// How long the feedback on a task stays, at least, in milliseconds.
pub const FEEDBACK_MS: u64 = 450;

/// How much longer the feedback on a task stays, in milliseconds.
pub open spec fn feedback_left(elapsed_ms: u64) -> int {
    if elapsed_ms < FEEDBACK_MS {
        FEEDBACK_MS - elapsed_ms
    } else {
        0
    }
}

/// Tells how much longer the feedback on a task stays, in milliseconds.
pub fn keep_feedback_visible(elapsed_ms: u64) -> (r: u64)
    ensures
        r == feedback_left(elapsed_ms),
{
    FEEDBACK_MS.saturating_sub(elapsed_ms)
}

/// The labels of the dashboard.
#[derive(Debug)]
pub struct DashboardTexts {
    pub memory_usage_text: String,
    pub physical_used_text: String,
    pub physical_total_text: String,
    pub available_text: String,
    pub commit_text: String,
    pub system_cache_text: String,
    pub process_count_text: String,
}

impl DashboardTexts {
    /// Whether the labels are those of `snapshot`.
    pub open spec fn shows(self, snapshot: MemorySnapshot) -> bool {
        &&& self.memory_usage_text@ == snapshot.load_tenths() + "%"@
        &&& self.physical_used_text@ == report_text::gb(snapshot.used())
        &&& self.physical_total_text@ == report_text::gb(snapshot.total_physical as nat)
        &&& self.available_text@ == report_text::gb(snapshot.available_physical as nat)
        &&& self.commit_text@ == report_text::gb(snapshot.commit_total as nat) + " / "@
            + report_text::gb(snapshot.commit_limit as nat)
        &&& self.system_cache_text@ == report_text::gb(snapshot.system_cache as nat)
        &&& self.process_count_text@ == text::decimal(snapshot.process_count as nat)
    }
}

/// Writes the labels of the dashboard.
pub fn dashboard_texts(snapshot: &MemorySnapshot) -> (r: DashboardTexts)
    ensures
        r.shows(*snapshot),
{
    let mut memory_usage_text: String = load_text(snapshot);
    memory_usage_text.append("%");
    let mut commit_text: String = format_gb(snapshot.commit_total);
    commit_text.append(" / ");
    commit_text.append(format_gb(snapshot.commit_limit).as_str());
    DashboardTexts {
        memory_usage_text,
        physical_used_text: format_gb(snapshot.used_physical()),
        physical_total_text: format_gb(snapshot.total_physical),
        available_text: format_gb(snapshot.available_physical),
        commit_text,
        system_cache_text: format_gb(snapshot.system_cache),
        process_count_text: text::decimal_text(snapshot.process_count as u128),
    }
}

// ---------------------------------------------------------------------------
// Laws
// ---------------------------------------------------------------------------

/// What the messages say where the words are English. A message about an error, a path or a
/// number of files names it.
pub proof fn messages_are_said_in_english(message: UiMessage, texts: UiTexts)
    requires
        texts.english(),
    ensures
        message.words(texts) == match message {
            UiMessage::LanguageChanged => "Language changed. Click Save and Apply to restart."@,
            UiMessage::ThemeChanged => "Theme changed. Click Save and Apply to keep it."@,
            UiMessage::HistoryCleared(removed) => "Cleared history reports: "@ + text::decimal(removed as nat) + " file(s)."@,
            UiMessage::HistoryNotCleared(error) => "Failed to clear history reports: "@ + error@,
            UiMessage::LogsCleared(removed) => "Cleared developer logs: "@ + text::decimal(removed as nat) + " file(s)."@,
            UiMessage::LogsNotCleared(error) => "Failed to clear developer logs: "@ + error@,
            UiMessage::SettingsSaved => "Settings saved. MemSpark will restart to apply them."@,
            UiMessage::RestartFailed(error) => "Settings saved, but automatic restart failed: "@ + error@,
            UiMessage::SettingsNotSaved(error) => "Failed to save settings: "@ + error@,
            UiMessage::ReportOpened(path) => "Opened report: "@ + path@,
            UiMessage::ReportNotOpened(error) => "Failed to open report: "@ + error@,
            UiMessage::NoReportYet => "No report file yet. Run optimization first."@,
            UiMessage::FolderOpened(path) => "Opened report folder: "@ + path@,
            UiMessage::FolderNotOpened(error) => "Failed to open report folder: "@ + error@,
            UiMessage::ChooseFolder => "Choose a report save folder."@,
            UiMessage::FolderChosen(path) => "Report save path selected: "@ + path@ + "; waiting to save."@,
            UiMessage::ChoiceCanceled => "Folder selection canceled."@,
            UiMessage::ChoiceFailed(error) => "Failed to choose save path: "@ + error@,
            UiMessage::PathsUnreadable(error) => "Failed to read report paths: "@ + error@,
            UiMessage::ConfigReady(path) => texts.config_ready@ + path@,
            UiMessage::ConfigNotReady(error) => texts.config_init_failed@ + error@,
            UiMessage::OptimizeRunning => texts.optimize_running@,
            UiMessage::OptimizeStarted => texts.optimization_started@,
            UiMessage::OptimizeCompleted => texts.optimization_completed@,
            UiMessage::OptimizeFailed(error) => texts.optimization_failed@ + error@,
            UiMessage::DashboardFailed(error) => texts.dashboard_refresh_failed@ + error@,
            UiMessage::Ready => texts.ready@,
            UiMessage::Loading => texts.loading@,
        },
{
    reveal_strlit("");
}

/// What the messages say where the words are Chinese.
pub proof fn messages_are_said_in_chinese(message: UiMessage, texts: UiTexts)
    requires
        !texts.english(),
    ensures
        message.words(texts) == match message {
            UiMessage::LanguageChanged => "语言已变更，点击“保存并应用设置”后重启生效。"@,
            UiMessage::ThemeChanged => "主题已变更，点击“保存并应用设置”后保留。"@,
            UiMessage::HistoryCleared(removed) => "已清理历史报告："@ + text::decimal(removed as nat) + " 个文件。"@,
            UiMessage::HistoryNotCleared(error) => "清理历史报告失败："@ + error@,
            UiMessage::LogsCleared(removed) => "已清理开发日志："@ + text::decimal(removed as nat) + " 个文件。"@,
            UiMessage::LogsNotCleared(error) => "清理开发日志失败："@ + error@,
            UiMessage::SettingsSaved => "设置已保存，应用将自动重启以生效。"@,
            UiMessage::RestartFailed(error) => "设置已保存，但自动重启失败："@ + error@,
            UiMessage::SettingsNotSaved(error) => "设置保存失败："@ + error@,
            UiMessage::ReportOpened(path) => "已打开报告："@ + path@,
            UiMessage::ReportNotOpened(error) => "打开报告失败："@ + error@,
            UiMessage::NoReportYet => "暂无报告文件，请先执行一次预览或优化。"@,
            UiMessage::FolderOpened(path) => "已打开报告文件夹："@ + path@,
            UiMessage::FolderNotOpened(error) => "打开报告文件夹失败："@ + error@,
            UiMessage::ChooseFolder => "请选择报告保存文件夹。"@,
            UiMessage::FolderChosen(path) => "报告保存位置已选择："@ + path@ + "，等待保存。"@,
            UiMessage::ChoiceCanceled => "已取消选择保存位置。"@,
            UiMessage::ChoiceFailed(error) => "选择保存位置失败："@ + error@,
            UiMessage::PathsUnreadable(error) => "报告保存路径读取失败："@ + error@,
            UiMessage::ConfigReady(path) => texts.config_ready@ + path@,
            UiMessage::ConfigNotReady(error) => texts.config_init_failed@ + error@,
            UiMessage::OptimizeRunning => texts.optimize_running@,
            UiMessage::OptimizeStarted => texts.optimization_started@,
            UiMessage::OptimizeCompleted => texts.optimization_completed@,
            UiMessage::OptimizeFailed(error) => texts.optimization_failed@ + error@,
            UiMessage::DashboardFailed(error) => texts.dashboard_refresh_failed@ + error@,
            UiMessage::Ready => texts.ready@,
            UiMessage::Loading => texts.loading@,
        },
{
    reveal_strlit("");
}

/// The folder is asked for in the language of the window, and only a confirmed choice is
/// printed.
pub proof fn folders_are_asked_for_in_the_language(texts: UiTexts)
    ensures
        texts.english() ==> folder_script(texts)
            == "Add-Type -AssemblyName System.Windows.Forms; $dialog = New-Object System.Windows.Forms.FolderBrowserDialog; $dialog.Description = '"@
            + "Choose MemSpark report folder"@
            + "'; if ($dialog.ShowDialog() -eq [System.Windows.Forms.DialogResult]::OK) { $dialog.SelectedPath }"@,
        !texts.english() ==> folder_script(texts)
            == "Add-Type -AssemblyName System.Windows.Forms; $dialog = New-Object System.Windows.Forms.FolderBrowserDialog; $dialog.Description = '"@
            + "选择 MemSpark 报告保存文件夹"@
            + "'; if ($dialog.ShowDialog() -eq [System.Windows.Forms.DialogResult]::OK) { $dialog.SelectedPath }"@,
{
}

/// Nothing is said of an optimization that succeeded. Of one that failed, its exit code is
/// told, and what it left behind, unless that is blank.
pub proof fn failures_name_their_code(exit_code: u32, detail: Seq<char>)
    ensures
        failure_words(0, None) is None,
        failure_words(0, Some(detail)) is None,
        exit_code != 0 ==> failure_words(exit_code, None) == Some(
            "管理员子进程退出码："@ + text::decimal(exit_code as nat),
        ),
        exit_code != 0 && text::trimmed(detail).len() > 0 ==> failure_words(exit_code, Some(detail))
            == Some("管理员子进程退出码："@ + text::decimal(exit_code as nat) + ("；"@ + detail)),
        exit_code != 0 && text::trimmed(detail).len() == 0 ==> failure_words(
            exit_code,
            Some(detail),
        ) == failure_words(exit_code, None),
{
    reveal_strlit("");
    assert("管理员子进程退出码："@ + text::decimal(exit_code as nat) + ""@
        =~= "管理员子进程退出码："@ + text::decimal(exit_code as nat));
}

/// Feedback stays until 450 milliseconds have gone by, and no longer.
pub proof fn feedback_stays_for_a_while(elapsed_ms: u64)
    ensures
        elapsed_ms <= 450 ==> elapsed_ms + feedback_left(elapsed_ms) == 450,
        elapsed_ms >= 450 ==> feedback_left(elapsed_ms) == 0,
{
}

/// The dashboard shows each figure under its own label.
pub proof fn dashboards_show_every_figure(labels: DashboardTexts, snapshot: MemorySnapshot)
    requires
        labels.shows(snapshot),
    ensures
        labels.memory_usage_text@ == snapshot.load_tenths() + "%"@,
        labels.physical_used_text@ == report_text::gb(snapshot.used()),
        labels.physical_total_text@ == report_text::gb(snapshot.total_physical as nat),
        labels.available_text@ == report_text::gb(snapshot.available_physical as nat),
        labels.commit_text@ == report_text::gb(snapshot.commit_total as nat) + " / "@
            + report_text::gb(snapshot.commit_limit as nat),
        labels.system_cache_text@ == report_text::gb(snapshot.system_cache as nat),
        labels.process_count_text@ == text::decimal(snapshot.process_count as nat),
{
}

} // verus!
