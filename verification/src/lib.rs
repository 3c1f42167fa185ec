//! MemSpark: explainable trimming of working sets and release of memory on Windows.
//!
//! The library holds the decisions: which processes are trimmed or closed, in which order calls
//! are made, when to stop, and what is reported. Whatever touches the system is done by its
//! driver, which performs the actions that a run asks for and hands back the replies.

pub mod arguments;
pub mod cleanup;
pub mod cli;
pub mod config;
pub mod double;
pub mod error;
pub mod hardware;
pub mod memory;
pub mod optimizer;
pub mod order;
pub mod policy;
pub mod process;
pub mod query;
pub mod release;
pub mod report;
pub mod report_files;
pub mod report_text;
pub mod settings;
pub mod termination;
pub mod text;
pub mod trim;
pub mod ui_messages;
pub mod ui_report;
pub mod ui_texts;
pub mod winapi;
pub mod window;

pub use config::{
    default_config_path, default_report_path, AdvancedCleanupConfig, AppConfig, ModeConfig,
    ReportConfig,
};
pub use error::MemSparkError;
pub use memory::{get_memory_snapshot, MemorySnapshot};
pub use optimizer::optimize;
pub use policy::{
    system_boundary_processes, vm_memory_processes, vm_stack_processes, ModePolicy, OptimizeMode,
    SkipReason, TrimMethod, TrimStatus,
};
pub use process::{enumerate_processes, ProcessInfo};
pub use release::{
    run_system_release, run_targeted_system_release, SystemReleaseReport, SystemReleaseStep,
    SystemReleaseStepResult, SystemReleaseStepStatus,
};
pub use report::{CleanupEffectSummary, OptimizeReport, TrimResult};
pub use report_files::{
    clear_developer_logs, clear_report_history, load_last_report, save_developer_log, save_report,
};
pub use report_text::{format_report_text, format_report_text_with_options};
pub use termination::{
    run_process_release_all, run_targeted_process_release, ProcessReleaseReport,
    ProcessReleaseResult, ProcessReleaseSkipReason, ProcessReleaseStatus,
};
pub use trim::{trim_working_sets_aggressive, AggressiveTrimOptions, AggressiveTrimReport};
