//! The languages of the window and the words that it is written in.

use vstd::prelude::*;

verus! {

/// The languages that the window can be shown in.
#[derive(Debug, Clone, Copy, PartialEq, Eq, Structural)]
pub enum UiLanguage {
    ZhCn,
    EnUs,
}

/// The words that reports, hardware and settings are described with.
#[derive(Debug, Clone, Copy)]
pub struct UiTexts {
    pub locale: UiLanguage,
    pub memspark_report: &'static str,
    pub mode: &'static str,
    pub duration: &'static str,
    pub before: &'static str,
    pub after: &'static str,
    pub result: &'static str,
    pub processes_trimmed: &'static str,
    pub available_increased: &'static str,
    pub processes_scanned: &'static str,
    pub processes_skipped: &'static str,
    pub failed: &'static str,
    pub top_trimmed_processes: &'static str,
    pub none: &'static str,
    pub no_report_loaded: &'static str,
    pub no_report_available: &'static str,
    pub report_save_warning: &'static str,
    pub will_trim: &'static str,
    pub dry_run: &'static str,
    pub reason: &'static str,
    pub reason_background_large_ws: &'static str,
    pub skipped_summary: &'static str,
    pub skipped_details: &'static str,
    pub use_verbose: &'static str,
    pub current_memory: &'static str,
    pub available_memory: &'static str,
    pub system_cache: &'static str,
    pub commit_usage: &'static str,
    pub process_count: &'static str,
    pub skip_system_process: &'static str,
    pub skip_self_process: &'static str,
    pub skip_foreground_process: &'static str,
    pub skip_system_boundary: &'static str,
    pub skip_legacy_recommended_rule: &'static str,
    pub skip_legacy_user_rule: &'static str,
    pub skip_working_set_small: &'static str,
    pub skip_access_denied: &'static str,
    pub skip_open_process_failed: &'static str,
    pub skip_query_failed: &'static str,
    pub skip_process_exited: &'static str,
    pub skip_high_cpu: &'static str,
    pub skip_high_io: &'static str,
    pub skip_other: &'static str,
    pub unknown: &'static str,
    pub unknown_frequency: &'static str,
    pub slots_label: &'static str,
    pub hardware_unavailable: &'static str,
    pub report_path_last_report: &'static str,
    pub report_path_history_dir: &'static str,
    pub report_path_developer_logs: &'static str,
    pub config_ready: &'static str,
    pub config_init_failed: &'static str,
    pub optimize_running: &'static str,
    pub optimization_started: &'static str,
    pub optimization_completed: &'static str,
    pub optimization_failed: &'static str,
    pub dashboard_refresh_failed: &'static str,
    pub ready: &'static str,
    pub loading: &'static str,
}

impl UiTexts {
    /// Whether the words are English.
    pub open spec fn english(self) -> bool {
        self.locale == UiLanguage::EnUs
    }
}

/// Tells whether the words are English.
pub fn ui_is_english(texts: &UiTexts) -> (r: bool)
    ensures
        r == texts.english(),
{
    match texts.locale {
        UiLanguage::EnUs => true,
        UiLanguage::ZhCn => false,
    }
}

/// The one of two texts that is in the language of the window.
pub open spec fn said(texts: UiTexts, english: Seq<char>, chinese: Seq<char>) -> Seq<char> {
    if texts.english() {
        english
    } else {
        chinese
    }
}

/// Picks the one of two texts that is in the language of the window.
pub fn in_language(texts: &UiTexts, english: &'static str, chinese: &'static str) -> (r:
    &'static str)
    ensures
        r@ == said(*texts, english@, chinese@),
{
    if ui_is_english(texts) {
        english
    } else {
        chinese
    }
}

/// English words are said where the words are English, and Chinese ones elsewhere.
pub proof fn one_language_is_spoken(texts: UiTexts, english: Seq<char>, chinese: Seq<char>)
    ensures
        texts.locale == UiLanguage::EnUs ==> said(texts, english, chinese) == english,
        texts.locale == UiLanguage::ZhCn ==> said(texts, english, chinese) == chinese,
        texts.english() <==> texts.locale == UiLanguage::EnUs,
{
}

} // verus!
