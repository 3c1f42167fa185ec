//! The window: what it remembers, and what it does when something happens.
//!
//! Drawing, reading and writing are done by whoever carries out the commands; what comes of
//! them is an event again.

use crate::config::{AppConfig, DataPath, PathRoot};
use crate::error::MemSparkError;
use crate::memory::MemorySnapshot;
use crate::report::OptimizeReport;
use crate::settings;
use crate::settings::{
    configured_draft, parse_ui_language, parse_ui_theme, SettingsDraft, UiSettings,
};
use crate::text;
use crate::ui_messages::UiMessage;
use crate::ui_report::{report_view_data, unavailable_report_data, ReportViewData};
use crate::ui_texts::UiTexts;
use vstd::prelude::*;

verus! {

/// Something that happens to the window.
#[derive(Debug)]
pub enum WindowEvent {
    RefreshAsked,
    TimerTicked,
    PageChanged(String),
    ReportAsked,
    InitAsked,
    LanguageSelected(String),
    ThemeSelected(String),
    OpenReportAsked,
    OpenFolderAsked,
    ChooseFolderAsked,
    ClearHistoryAsked,
    ClearLogsAsked,
    ApplyAsked,
    /// An optimization is asked for; `true` asks for a dry run.
    TrimAsked(bool),
    DashboardRead(Result<MemorySnapshot, MemSparkError>),
    /// The memory was read, but could not be shown.
    DashboardLost,
    ReportRead(Result<OptimizeReport, MemSparkError>),
    /// The path of the configuration, or why there is none.
    ConfigInitialized(Result<String, MemSparkError>),
    /// The configuration and the value of the variable for application data.
    ConfigRead(Result<AppConfig, MemSparkError>, Option<String>),
    /// The opened path, or why it was not opened; `None` if there is no report.
    ReportOpened(Option<Result<String, String>>),
    FolderOpened(Result<String, String>),
    /// What the folder dialog printed.
    FolderChosen(Result<String, String>),
    HistoryCleared(Result<usize, MemSparkError>),
    LogsCleared(Result<usize, MemSparkError>),
    SettingsSaved(Result<UiSettings, String>),
    Restarted(Result<(), String>),
    TrimStarted,
    TrimEnded(Result<ReportViewData, String>),
}

/// Something that is to be done for the window.
#[derive(Debug)]
pub enum WindowCommand {
    ShowRefreshing(bool),
    ReadDashboard,
    ShowDashboard(MemorySnapshot),
    /// Show a message in place of the hardware.
    ShowHardwareMessage(UiMessage),
    ReadHardware,
    /// Let the timer tick, with this period in milliseconds.
    StartTimer(u64),
    ReadReport,
    ShowReport(ReportViewData),
    InitConfig,
    ReadConfig,
    /// Show the language, the theme and the paths of the draft.
    ShowDraft,
    /// Show a message in place of the paths.
    ShowPathMessage(UiMessage),
    Log(UiMessage),
    /// Log that the report path of the draft was chosen.
    LogChosenPath,
    OpenReport,
    OpenFolder,
    ChooseFolder,
    ClearHistory,
    ClearLogs,
    /// Write the settings, and the report path of the draft.
    SaveSettings(UiSettings),
    Restart,
    /// Exit after this many milliseconds.
    Exit(u64),
    ShowBusy(bool),
    /// Show the state of the task, and how far it is, in percent.
    ShowTask(UiMessage, u32),
    /// Hide the state of the task, which is none.
    HideTask(UiMessage),
    RunTrim(bool),
}

/// How often the dashboard is refreshed, in milliseconds.
pub const REFRESH_MS: u64 = 2000;

/// How long the window stays after a restart, in milliseconds.
pub const EXIT_DELAY_MS: u64 = 500;

/// What the window remembers.
#[derive(Debug)]
pub struct Window {
    /// Whether the dashboard is in sight.
    pub live: bool,
    /// Whether an optimization is under way.
    pub busy: bool,
    /// Whether the memory is being read for the dashboard.
    pub refreshing: bool,
    pub settings: UiSettings,
    pub draft: SettingsDraft,
}

/// The chosen folder, and the report in it.
pub open spec fn is_report_in(path: DataPath, folder: Seq<char>) -> bool {
    &&& path.root matches PathRoot::Literal(literal)
    &&& literal@ == folder
    &&& text::views(path.components@) == seq!["last_report.json"@]
}

/// Whether `message` has the text of `error` as its detail.
pub open spec fn tells(message: UiMessage, error: MemSparkError) -> bool {
    match message {
        UiMessage::HistoryNotCleared(detail) => detail@ == error.described(),
        UiMessage::LogsNotCleared(detail) => detail@ == error.described(),
        UiMessage::ConfigNotReady(detail) => detail@ == error.described(),
        UiMessage::PathsUnreadable(detail) => detail@ == error.described(),
        UiMessage::DashboardFailed(detail) => detail@ == error.described(),
        _ => false,
    }
}

impl Window {
    /// The window with a reading of the memory under way, unless one is under way already.
    pub open spec fn refreshed(self) -> Window {
        Window { refreshing: true, ..self }
    }

    /// What a refresh of the dashboard takes.
    pub open spec fn refresh_commands(self) -> Seq<WindowCommand> {
        if self.refreshing {
            Seq::empty()
        } else {
            seq![WindowCommand::ShowRefreshing(true), WindowCommand::ReadDashboard]
        }
    }

    /// Whether `next` is this window with a draft that has the configured paths.
    pub open spec fn drafts(self, next: Window, config: AppConfig, app_data: Option<Seq<char>>) -> bool {
        &&& next == (Window { draft: next.draft, ..self })
        &&& settings::is_configured_draft(next.draft, self.settings, config, app_data)
    }

    /// Whether `next` and `commands` are what comes of a request.
    pub open spec fn obeys(
        self,
        event: WindowEvent,
        next: Window,
        commands: Seq<WindowCommand>,
    ) -> bool {
        match event {
            WindowEvent::RefreshAsked => {
                next == self.refreshed() && commands =~= self.refresh_commands()
            },
            WindowEvent::TimerTicked => if self.live {
                next == self.refreshed() && commands =~= self.refresh_commands()
            } else {
                next == self && commands.len() == 0
            },
            WindowEvent::PageChanged(page) => if page@ == "Dashboard"@ {
                &&& next == (Window { live: true, ..self.refreshed() })
                &&& commands =~= self.refresh_commands()
            } else {
                &&& next == (Window { live: false, ..self })
                &&& if page@ == "Settings"@ {
                    commands =~= seq![WindowCommand::ReadConfig]
                } else {
                    commands.len() == 0
                }
            },
            WindowEvent::ReportAsked => {
                next == self && commands =~= seq![WindowCommand::ReadReport]
            },
            WindowEvent::InitAsked => next == self && commands =~= seq![WindowCommand::InitConfig],
            WindowEvent::LanguageSelected(value) => match settings::named_language(value@) {
                Some(language) => {
                    &&& next == (Window {
                        draft: SettingsDraft { language, ..self.draft },
                        ..self
                    })
                    &&& commands =~= seq![
                        WindowCommand::ShowDraft,
                        WindowCommand::Log(UiMessage::LanguageChanged),
                    ]
                },
                None => next == self && commands.len() == 0,
            },
            WindowEvent::ThemeSelected(value) => match settings::named_theme(value@) {
                Some(theme) => {
                    &&& next == (Window {
                        draft: SettingsDraft { theme: next.draft.theme, ..self.draft },
                        ..self
                    })
                    &&& next.draft.theme@ == theme
                    &&& commands =~= seq![
                        WindowCommand::ShowDraft,
                        WindowCommand::Log(UiMessage::ThemeChanged),
                    ]
                },
                None => next == self && commands.len() == 0,
            },
            WindowEvent::OpenReportAsked => {
                next == self && commands =~= seq![WindowCommand::OpenReport]
            },
            WindowEvent::OpenFolderAsked => {
                next == self && commands =~= seq![WindowCommand::OpenFolder]
            },
            WindowEvent::ChooseFolderAsked => {
                next == self && commands =~= seq![
                    WindowCommand::Log(UiMessage::ChooseFolder),
                    WindowCommand::ChooseFolder,
                ]
            },
            WindowEvent::ClearHistoryAsked => {
                next == self && commands =~= seq![WindowCommand::ClearHistory]
            },
            WindowEvent::ClearLogsAsked => {
                next == self && commands =~= seq![WindowCommand::ClearLogs]
            },
            WindowEvent::ApplyAsked => {
                next == self && commands =~= seq![
                    WindowCommand::SaveSettings(
                        UiSettings { language: self.draft.language, theme: self.draft.theme },
                    ),
                ]
            },
            WindowEvent::TrimAsked(dry_run) => if self.busy {
                next == self && commands =~= seq![
                    WindowCommand::ShowTask(UiMessage::OptimizeRunning, 35),
                    WindowCommand::Log(UiMessage::OptimizeRunning),
                ]
            } else {
                &&& next == (Window { busy: true, ..self })
                &&& commands =~= seq![
                    WindowCommand::ShowBusy(true),
                    WindowCommand::ShowTask(UiMessage::OptimizeRunning, 8),
                    WindowCommand::Log(UiMessage::OptimizeStarted),
                    WindowCommand::RunTrim(dry_run),
                ]
            },
            _ => true,
        }
    }

    /// Whether `next` and `commands` are what comes of something that was done.
    pub open spec fn takes_note(
        self,
        event: WindowEvent,
        texts: UiTexts,
        next: Window,
        commands: Seq<WindowCommand>,
    ) -> bool {
        match event {
            WindowEvent::DashboardRead(read) => {
                &&& next == (Window { refreshing: false, ..self })
                &&& commands.len() == 2
                &&& commands[1] == WindowCommand::ShowRefreshing(false)
                &&& match read {
                    Ok(snapshot) => commands[0] == WindowCommand::ShowDashboard(snapshot),
                    Err(error) => commands[0] matches WindowCommand::Log(message)
                        && message is DashboardFailed && tells(message, error),
                }
            },
            WindowEvent::DashboardLost => {
                next == (Window { refreshing: false, ..self }) && commands.len() == 0
            },
            WindowEvent::ReportRead(read) => {
                &&& next == self
                &&& commands.len() == 1
                &&& commands[0] matches WindowCommand::ShowReport(data)
                &&& match read {
                    Ok(report) => data.shows(report, texts),
                    Err(error) => data.is_blank(texts) && data.text@
                        == texts.no_report_available@ + error.described(),
                }
            },
            WindowEvent::ConfigInitialized(done) => {
                &&& next == self
                &&& commands.len() == 2
                &&& commands[1] == WindowCommand::ReadConfig
                &&& commands[0] matches WindowCommand::Log(message)
                &&& match done {
                    Ok(path) => message == UiMessage::ConfigReady(path),
                    Err(error) => message is ConfigNotReady && tells(message, error),
                }
            },
            WindowEvent::ConfigRead(read, app_data) => match read {
                Ok(config) => {
                    &&& self.drafts(next, config, text::optional(app_data))
                    &&& commands =~= seq![WindowCommand::ShowDraft]
                },
                Err(error) => {
                    &&& next == self
                    &&& commands.len() == 2
                    &&& commands[0] matches WindowCommand::ShowPathMessage(message)
                    &&& message is PathsUnreadable
                    &&& tells(message, error)
                    &&& commands[1] matches WindowCommand::Log(entry)
                    &&& entry is ConfigNotReady
                    &&& tells(entry, error)
                },
            },
            WindowEvent::ReportOpened(opened) => {
                &&& next == self
                &&& commands =~= seq![
                    WindowCommand::Log(
                        match opened {
                            None => UiMessage::NoReportYet,
                            Some(Ok(path)) => UiMessage::ReportOpened(path),
                            Some(Err(error)) => UiMessage::ReportNotOpened(error),
                        },
                    ),
                ]
            },
            WindowEvent::FolderOpened(opened) => {
                &&& next == self
                &&& commands =~= seq![
                    WindowCommand::Log(
                        match opened {
                            Ok(path) => UiMessage::FolderOpened(path),
                            Err(error) => UiMessage::FolderNotOpened(error),
                        },
                    ),
                ]
            },
            WindowEvent::FolderChosen(chosen) => match chosen {
                Ok(printed) => if text::trimmed(printed@).len() == 0 {
                    next == self && commands =~= seq![
                        WindowCommand::Log(UiMessage::ChoiceCanceled),
                    ]
                } else {
                    &&& next == (Window {
                        draft: SettingsDraft { report_path: next.draft.report_path, ..self.draft },
                        ..self
                    })
                    &&& is_report_in(next.draft.report_path, text::trimmed(printed@))
                    &&& commands =~= seq![WindowCommand::ShowDraft, WindowCommand::LogChosenPath]
                },
                Err(error) => {
                    next == self && commands =~= seq![
                        WindowCommand::Log(UiMessage::ChoiceFailed(error)),
                    ]
                },
            },
            WindowEvent::HistoryCleared(cleared) => {
                &&& next == self
                &&& commands.len() == 1
                &&& commands[0] matches WindowCommand::Log(message)
                &&& match cleared {
                    Ok(count) => message == UiMessage::HistoryCleared(count),
                    Err(error) => message is HistoryNotCleared && tells(message, error),
                }
            },
            WindowEvent::LogsCleared(cleared) => {
                &&& next == self
                &&& commands.len() == 1
                &&& commands[0] matches WindowCommand::Log(message)
                &&& match cleared {
                    Ok(count) => message == UiMessage::LogsCleared(count),
                    Err(error) => message is LogsNotCleared && tells(message, error),
                }
            },
            WindowEvent::SettingsSaved(saved) => match saved {
                Ok(settings) => {
                    &&& next == (Window { settings, ..self })
                    &&& commands =~= seq![
                        WindowCommand::Log(UiMessage::SettingsSaved),
                        WindowCommand::Restart,
                    ]
                },
                Err(error) => {
                    next == self && commands =~= seq![
                        WindowCommand::Log(UiMessage::SettingsNotSaved(error)),
                    ]
                },
            },
            WindowEvent::Restarted(restarted) => {
                &&& next == self
                &&& commands =~= seq![
                    match restarted {
                        Ok(_) => WindowCommand::Exit(EXIT_DELAY_MS),
                        Err(error) => WindowCommand::Log(UiMessage::RestartFailed(error)),
                    },
                ]
            },
            WindowEvent::TrimStarted => {
                next == self && commands =~= seq![
                    WindowCommand::ShowTask(UiMessage::OptimizeRunning, 55),
                ]
            },
            WindowEvent::TrimEnded(ended) => match ended {
                Ok(data) => {
                    &&& next == (Window { busy: false, ..self.refreshed() })
                    &&& commands =~= seq![
                        WindowCommand::ShowBusy(false),
                        WindowCommand::ShowReport(data),
                        WindowCommand::ShowTask(UiMessage::OptimizeCompleted, 100),
                        WindowCommand::Log(UiMessage::OptimizeCompleted),
                    ] + self.refresh_commands()
                },
                Err(error) => {
                    &&& next == (Window { busy: false, ..self })
                    &&& commands =~= seq![
                        WindowCommand::ShowBusy(false),
                        WindowCommand::ShowTask(UiMessage::OptimizeFailed(error), 100),
                        WindowCommand::Log(UiMessage::OptimizeFailed(error)),
                    ]
                },
            },
            _ => true,
        }
    }

    /// Starts a refresh of the dashboard, unless one is under way.
    fn refresh(&mut self, commands: &mut Vec<WindowCommand>)
        ensures
            *final(self) == old(self).refreshed(),
            final(commands)@ == old(commands)@ + old(self).refresh_commands(),
    {
        if !self.refreshing {
            self.refreshing = true;
            commands.push(WindowCommand::ShowRefreshing(true));
            commands.push(WindowCommand::ReadDashboard);
        }
        assert(commands@ =~= old(commands)@ + old(self).refresh_commands());
    }

    /// Takes in an event, and tells what is to be done.
    pub fn handle(&mut self, event: WindowEvent, texts: &UiTexts) -> (commands: Vec<WindowCommand>)
        ensures
            old(self).obeys(event, *final(self), commands@),
            old(self).takes_note(event, *texts, *final(self), commands@),
    {
        let mut commands: Vec<WindowCommand> = Vec::new();
        match event {
            WindowEvent::RefreshAsked => {
                self.refresh(&mut commands);
            },
            WindowEvent::TimerTicked => {
                if self.live {
                    self.refresh(&mut commands);
                }
            },
            WindowEvent::PageChanged(page) => {
                self.live = text::same_text(page.as_str(), "Dashboard");
                if self.live {
                    self.refresh(&mut commands);
                } else if text::same_text(page.as_str(), "Settings") {
                    commands.push(WindowCommand::ReadConfig);
                }
            },
            WindowEvent::ReportAsked => {
                commands.push(WindowCommand::ReadReport);
            },
            WindowEvent::InitAsked => {
                commands.push(WindowCommand::InitConfig);
            },
            WindowEvent::LanguageSelected(value) => {
                if let Some(language) = parse_ui_language(value.as_str()) {
                    self.draft.language = language;
                    commands.push(WindowCommand::ShowDraft);
                    commands.push(WindowCommand::Log(UiMessage::LanguageChanged));
                }
            },
            WindowEvent::ThemeSelected(value) => {
                if let Some(theme) = parse_ui_theme(value.as_str()) {
                    self.draft.theme = theme.to_owned();
                    commands.push(WindowCommand::ShowDraft);
                    commands.push(WindowCommand::Log(UiMessage::ThemeChanged));
                }
            },
            WindowEvent::OpenReportAsked => {
                commands.push(WindowCommand::OpenReport);
            },
            WindowEvent::OpenFolderAsked => {
                commands.push(WindowCommand::OpenFolder);
            },
            WindowEvent::ChooseFolderAsked => {
                commands.push(WindowCommand::Log(UiMessage::ChooseFolder));
                commands.push(WindowCommand::ChooseFolder);
            },
            WindowEvent::ClearHistoryAsked => {
                commands.push(WindowCommand::ClearHistory);
            },
            WindowEvent::ClearLogsAsked => {
                commands.push(WindowCommand::ClearLogs);
            },
            WindowEvent::ApplyAsked => {
                let settings: UiSettings = UiSettings {
                    language: self.draft.language,
                    theme: self.draft.theme.clone(),
                };
                commands.push(WindowCommand::SaveSettings(settings));
            },
            WindowEvent::TrimAsked(dry_run) => {
                if self.busy {
                    commands.push(WindowCommand::ShowTask(UiMessage::OptimizeRunning, 35));
                    commands.push(WindowCommand::Log(UiMessage::OptimizeRunning));
                } else {
                    self.busy = true;
                    commands.push(WindowCommand::ShowBusy(true));
                    commands.push(WindowCommand::ShowTask(UiMessage::OptimizeRunning, 8));
                    commands.push(WindowCommand::Log(UiMessage::OptimizeStarted));
                    commands.push(WindowCommand::RunTrim(dry_run));
                }
            },
            WindowEvent::DashboardRead(read) => {
                match read {
                    Ok(snapshot) => {
                        commands.push(WindowCommand::ShowDashboard(snapshot));
                    },
                    Err(error) => {
                        commands.push(
                            WindowCommand::Log(UiMessage::DashboardFailed(error.to_text())),
                        );
                    },
                }
                commands.push(WindowCommand::ShowRefreshing(false));
                self.refreshing = false;
            },
            WindowEvent::DashboardLost => {
                self.refreshing = false;
            },
            WindowEvent::ReportRead(read) => {
                let data: ReportViewData = match read {
                    Ok(report) => report_view_data(&report, texts),
                    Err(error) => unavailable_report_data(error.to_text().as_str(), texts),
                };
                commands.push(WindowCommand::ShowReport(data));
            },
            WindowEvent::ConfigInitialized(done) => {
                let message: UiMessage = match done {
                    Ok(path) => UiMessage::ConfigReady(path),
                    Err(error) => UiMessage::ConfigNotReady(error.to_text()),
                };
                commands.push(WindowCommand::Log(message));
                commands.push(WindowCommand::ReadConfig);
            },
            WindowEvent::ConfigRead(read, app_data) => {
                commands = self.take_config(read, app_data);
            },
            WindowEvent::ReportOpened(opened) => {
                let message: UiMessage = match opened {
                    None => UiMessage::NoReportYet,
                    Some(Ok(path)) => UiMessage::ReportOpened(path),
                    Some(Err(error)) => UiMessage::ReportNotOpened(error),
                };
                commands.push(WindowCommand::Log(message));
            },
            WindowEvent::FolderOpened(opened) => {
                let message: UiMessage = match opened {
                    Ok(path) => UiMessage::FolderOpened(path),
                    Err(error) => UiMessage::FolderNotOpened(error),
                };
                commands.push(WindowCommand::Log(message));
            },
            WindowEvent::FolderChosen(chosen) => {
                commands = self.take_folder(chosen);
            },
            WindowEvent::HistoryCleared(cleared) => {
                let message: UiMessage = match cleared {
                    Ok(count) => UiMessage::HistoryCleared(count),
                    Err(error) => UiMessage::HistoryNotCleared(error.to_text()),
                };
                commands.push(WindowCommand::Log(message));
            },
            WindowEvent::LogsCleared(cleared) => {
                let message: UiMessage = match cleared {
                    Ok(count) => UiMessage::LogsCleared(count),
                    Err(error) => UiMessage::LogsNotCleared(error.to_text()),
                };
                commands.push(WindowCommand::Log(message));
            },
            WindowEvent::SettingsSaved(saved) => {
                match saved {
                    Ok(settings) => {
                        self.settings = settings;
                        commands.push(WindowCommand::Log(UiMessage::SettingsSaved));
                        commands.push(WindowCommand::Restart);
                    },
                    Err(error) => {
                        commands.push(WindowCommand::Log(UiMessage::SettingsNotSaved(error)));
                    },
                }
            },
            WindowEvent::Restarted(restarted) => {
                match restarted {
                    Ok(_) => {
                        commands.push(WindowCommand::Exit(EXIT_DELAY_MS));
                    },
                    Err(error) => {
                        commands.push(WindowCommand::Log(UiMessage::RestartFailed(error)));
                    },
                }
            },
            WindowEvent::TrimStarted => {
                commands.push(WindowCommand::ShowTask(UiMessage::OptimizeRunning, 55));
            },
            WindowEvent::TrimEnded(ended) => {
                self.busy = false;
                commands.push(WindowCommand::ShowBusy(false));
                match ended {
                    Ok(data) => {
                        commands.push(WindowCommand::ShowReport(data));
                        commands.push(WindowCommand::ShowTask(UiMessage::OptimizeCompleted, 100));
                        commands.push(WindowCommand::Log(UiMessage::OptimizeCompleted));
                        self.refresh(&mut commands);
                    },
                    Err(error) => {
                        let again: String = error.clone();
                        commands.push(
                            WindowCommand::ShowTask(UiMessage::OptimizeFailed(error), 100),
                        );
                        commands.push(WindowCommand::Log(UiMessage::OptimizeFailed(again)));
                    },
                }
            },
        }
        commands
    }

    /// Takes in the configuration.
    fn take_config(
        &mut self,
        read: Result<AppConfig, MemSparkError>,
        app_data: Option<String>,
    ) -> (commands: Vec<WindowCommand>)
        ensures
            forall|texts: UiTexts| #[trigger]
                old(self).takes_note(
                    WindowEvent::ConfigRead(read, app_data),
                    texts,
                    *final(self),
                    commands@,
                ),
    {
        match read {
            Ok(config) => {
                let value: Option<&str> = match &app_data {
                    Some(value) => Some(value.as_str()),
                    None => None,
                };
                self.draft = configured_draft(&self.settings, &config, value);
                vec![WindowCommand::ShowDraft]
            },
            Err(error) => {
                vec![
                    WindowCommand::ShowPathMessage(UiMessage::PathsUnreadable(error.to_text())),
                    WindowCommand::Log(UiMessage::ConfigNotReady(error.to_text())),
                ]
            },
        }
    }

    /// Takes in what the folder dialog printed.
    fn take_folder(&mut self, chosen: Result<String, String>) -> (commands: Vec<WindowCommand>)
        ensures
            forall|texts: UiTexts| #[trigger]
                old(self).takes_note(
                    WindowEvent::FolderChosen(chosen),
                    texts,
                    *final(self),
                    commands@,
                ),
    {
        match chosen {
            Ok(printed) => {
                let folder: String = text::trim_text(printed.as_str());
                if folder.as_str().is_empty() {
                    return vec![WindowCommand::Log(UiMessage::ChoiceCanceled)];
                }
                let mut components: Vec<String> = Vec::new();
                components.push("last_report.json".to_owned());
                assert(text::views(components@) =~= seq!["last_report.json"@]);
                self.draft.report_path = DataPath { root: PathRoot::Literal(folder), components };
                vec![WindowCommand::ShowDraft, WindowCommand::LogChosenPath]
            },
            Err(error) => vec![WindowCommand::Log(UiMessage::ChoiceFailed(error))],
        }
    }
}

/// Whether `commands` are those that a window opens with.
pub open spec fn is_opening(commands: Seq<WindowCommand>, texts: UiTexts) -> bool {
    &&& commands.len() == 10
    &&& commands[0] matches WindowCommand::ShowReport(data)
    &&& data.is_blank(texts)
    &&& data.text@ == texts.no_report_loaded@
    &&& commands.skip(1) =~= seq![
        WindowCommand::HideTask(UiMessage::Ready),
        WindowCommand::Log(UiMessage::Ready),
        WindowCommand::ShowHardwareMessage(UiMessage::Loading),
        WindowCommand::ShowRefreshing(true),
        WindowCommand::ReadDashboard,
        WindowCommand::ReadHardware,
        WindowCommand::StartTimer(REFRESH_MS),
        WindowCommand::ReadReport,
        WindowCommand::ReadConfig,
    ]
}

/// Opens the window on the dashboard: the memory, the hardware, the last report and the
/// configuration are read, and the dashboard is refreshed from time to time.
pub fn open_window(settings: UiSettings, draft: SettingsDraft, texts: &UiTexts) -> (r: (
    Window,
    Vec<WindowCommand>,
))
    ensures
        r.0 == (Window { live: true, busy: false, refreshing: true, settings, draft }),
        is_opening(r.1@, *texts),
{
    (
        Window { live: true, busy: false, refreshing: true, settings, draft },
        vec![
            WindowCommand::ShowReport(ReportViewData::empty(texts)),
            WindowCommand::HideTask(UiMessage::Ready),
            WindowCommand::Log(UiMessage::Ready),
            WindowCommand::ShowHardwareMessage(UiMessage::Loading),
            WindowCommand::ShowRefreshing(true),
            WindowCommand::ReadDashboard,
            WindowCommand::ReadHardware,
            WindowCommand::StartTimer(REFRESH_MS),
            WindowCommand::ReadReport,
            WindowCommand::ReadConfig,
        ],
    )
}

// ---------------------------------------------------------------------------
// Laws
// ---------------------------------------------------------------------------

/// Only one optimization is under way at a time: one is started only while none is, and none
/// can be started until it has ended.
pub proof fn one_optimization_at_a_time(
    window: Window,
    event: WindowEvent,
    texts: UiTexts,
    next: Window,
    commands: Seq<WindowCommand>,
    i: int,
)
    requires
        window.obeys(event, next, commands),
        window.takes_note(event, texts, next, commands),
        0 <= i < commands.len(),
        commands[i] is RunTrim,
    ensures
        !window.busy,
        next.busy,
        event == WindowEvent::TrimAsked(commands[i]->RunTrim_0),
{
}

/// An optimization under way stays so until it has ended.
pub proof fn busy_until_ended(
    window: Window,
    event: WindowEvent,
    texts: UiTexts,
    next: Window,
    commands: Seq<WindowCommand>,
)
    requires
        window.obeys(event, next, commands),
        window.takes_note(event, texts, next, commands),
        window.busy,
        !(event is TrimEnded),
    ensures
        next.busy,
{
}

/// The memory is read for the dashboard by one reader at a time.
pub proof fn one_refresh_at_a_time(
    window: Window,
    event: WindowEvent,
    texts: UiTexts,
    next: Window,
    commands: Seq<WindowCommand>,
    i: int,
)
    requires
        window.obeys(event, next, commands),
        window.takes_note(event, texts, next, commands),
        0 <= i < commands.len(),
        commands[i] is ReadDashboard,
    ensures
        !window.refreshing,
        next.refreshing,
{
}

/// Selecting changes the draft only: the settings stay as they are until they have been saved.
pub proof fn settings_wait_for_saving(
    window: Window,
    event: WindowEvent,
    texts: UiTexts,
    next: Window,
    commands: Seq<WindowCommand>,
)
    requires
        window.obeys(event, next, commands),
        window.takes_note(event, texts, next, commands),
        !(event is SettingsSaved),
    ensures
        next.settings == window.settings,
{
}

/// A window opens with no report, ready, and with its hardware loading; everything there is to
/// show is asked for once, and the timer ticks every two seconds.
pub proof fn windows_open_by_reading_everything(commands: Seq<WindowCommand>, texts: UiTexts)
    requires
        is_opening(commands, texts),
    ensures
        commands.len() == 10,
        commands[0] is ShowReport && commands[0]->ShowReport_0.is_blank(texts),
        commands[0]->ShowReport_0.text@ == texts.no_report_loaded@,
        commands[1] == WindowCommand::HideTask(UiMessage::Ready),
        commands[2] == WindowCommand::Log(UiMessage::Ready),
        commands[3] == WindowCommand::ShowHardwareMessage(UiMessage::Loading),
        commands[4] == WindowCommand::ShowRefreshing(true),
        commands[5] == WindowCommand::ReadDashboard,
        commands[6] == WindowCommand::ReadHardware,
        commands[7] == WindowCommand::StartTimer(2000),
        commands[8] == WindowCommand::ReadReport,
        commands[9] == WindowCommand::ReadConfig,
{
    let rest = commands.skip(1);
    assert(rest[0] == commands[1] && rest[1] == commands[2] && rest[2] == commands[3]);
    assert(rest[3] == commands[4] && rest[4] == commands[5] && rest[5] == commands[6]);
    assert(rest[6] == commands[7] && rest[7] == commands[8] && rest[8] == commands[9]);
}

/// A refresh that is asked for reads the memory, unless it is being read already. The timer
/// refreshes the dashboard only while it is in sight.
pub proof fn refreshes_read_the_memory(
    window: Window,
    event: WindowEvent,
    texts: UiTexts,
    next: Window,
    commands: Seq<WindowCommand>,
)
    requires
        window.obeys(event, next, commands),
        window.takes_note(event, texts, next, commands),
    ensures
        event is RefreshAsked && !window.refreshing ==> commands == seq![
            WindowCommand::ShowRefreshing(true),
            WindowCommand::ReadDashboard,
        ],
        event is RefreshAsked && window.refreshing ==> commands.len() == 0,
        event is RefreshAsked ==> next == (Window { refreshing: true, ..window }),
        event is TimerTicked && window.live ==> next == (Window { refreshing: true, ..window }),
        event is TimerTicked && window.live && !window.refreshing ==> commands == seq![
            WindowCommand::ShowRefreshing(true),
            WindowCommand::ReadDashboard,
        ],
        event is TimerTicked && window.live && window.refreshing ==> commands.len() == 0,
        event is TimerTicked && !window.live ==> commands.len() == 0 && next == window,
{
}

/// The dashboard is in sight on its own page only. Turning to it refreshes it, and turning to
/// the settings reads the configuration.
pub proof fn pages_bring_what_they_show(
    window: Window,
    event: WindowEvent,
    texts: UiTexts,
    next: Window,
    commands: Seq<WindowCommand>,
)
    requires
        window.obeys(event, next, commands),
        window.takes_note(event, texts, next, commands),
        event is PageChanged,
    ensures
        next.live <==> event->PageChanged_0@ == "Dashboard"@,
        event->PageChanged_0@ == "Dashboard"@ ==> commands == window.refresh_commands()
            && next.refreshing,
        event->PageChanged_0@ == "Settings"@ ==> next.refreshing == window.refreshing && commands
            == seq![WindowCommand::ReadConfig],
        event->PageChanged_0@ != "Dashboard"@ && event->PageChanged_0@ != "Settings"@
            ==> commands.len() == 0,
        next.busy == window.busy,
        next.draft == window.draft,
{
    reveal_strlit("Dashboard");
    reveal_strlit("Settings");
    assert("Dashboard"@[0] == 'D' && "Settings"@[0] == 'S');
}

/// A memory that was read is shown, and one that could not be read is logged with the reason;
/// either way the reading is over.
pub proof fn readings_end(
    window: Window,
    event: WindowEvent,
    texts: UiTexts,
    next: Window,
    commands: Seq<WindowCommand>,
)
    requires
        window.obeys(event, next, commands),
        window.takes_note(event, texts, next, commands),
        event is DashboardRead,
    ensures
        !next.refreshing,
        next == (Window { refreshing: false, ..window }),
        commands.last() == WindowCommand::ShowRefreshing(false),
        event matches WindowEvent::DashboardRead(Ok(snapshot)) ==> commands[0]
            == WindowCommand::ShowDashboard(snapshot),
        event matches WindowEvent::DashboardRead(Err(error)) ==> {
            &&& commands[0] is Log
            &&& commands[0]->Log_0 is DashboardFailed
            &&& commands[0]->Log_0->DashboardFailed_0@ == error.described()
        },
{
}

/// A selection that is understood goes into the draft and is logged; any other changes nothing.
pub proof fn selections_go_into_the_draft(
    window: Window,
    event: WindowEvent,
    texts: UiTexts,
    next: Window,
    commands: Seq<WindowCommand>,
)
    requires
        window.obeys(event, next, commands),
        window.takes_note(event, texts, next, commands),
    ensures
        event matches WindowEvent::LanguageSelected(value) ==> {
            &&& settings::named_language(value@) is Some ==> next.draft.language
                == settings::named_language(value@)->0 && commands == seq![
                WindowCommand::ShowDraft,
                WindowCommand::Log(UiMessage::LanguageChanged),
            ]
            &&& settings::named_language(value@) is None ==> next == window && commands.len() == 0
            &&& next.draft.theme == window.draft.theme
            &&& next.draft.report_path == window.draft.report_path
        },
        event matches WindowEvent::ThemeSelected(value) ==> {
            &&& settings::named_theme(value@) is Some ==> next.draft.theme@
                == settings::named_theme(value@)->0 && commands == seq![
                WindowCommand::ShowDraft,
                WindowCommand::Log(UiMessage::ThemeChanged),
            ]
            &&& settings::named_theme(value@) is None ==> next == window && commands.len() == 0
            &&& next.draft.language == window.draft.language
            &&& next.draft.report_path == window.draft.report_path
        },
{
}

/// Requests that need no memory are passed on as they are, and change nothing.
pub proof fn requests_are_passed_on(
    window: Window,
    event: WindowEvent,
    texts: UiTexts,
    next: Window,
    commands: Seq<WindowCommand>,
)
    requires
        window.obeys(event, next, commands),
        window.takes_note(event, texts, next, commands),
    ensures
        event is ReportAsked ==> next == window && commands == seq![WindowCommand::ReadReport],
        event is InitAsked ==> next == window && commands == seq![WindowCommand::InitConfig],
        event is OpenReportAsked ==> next == window && commands == seq![WindowCommand::OpenReport],
        event is OpenFolderAsked ==> next == window && commands == seq![WindowCommand::OpenFolder],
        event is ChooseFolderAsked ==> next == window && commands == seq![
            WindowCommand::Log(UiMessage::ChooseFolder),
            WindowCommand::ChooseFolder,
        ],
        event is ClearHistoryAsked ==> next == window && commands == seq![
            WindowCommand::ClearHistory,
        ],
        event is ClearLogsAsked ==> next == window && commands == seq![WindowCommand::ClearLogs],
{
}

/// Applying saves the language and the theme of the draft. Once saved they are the settings,
/// and the program restarts; the window goes half a second after that.
pub proof fn applying_saves_and_restarts(
    window: Window,
    event: WindowEvent,
    texts: UiTexts,
    next: Window,
    commands: Seq<WindowCommand>,
)
    requires
        window.obeys(event, next, commands),
        window.takes_note(event, texts, next, commands),
    ensures
        event is ApplyAsked ==> commands.len() == 1 && commands[0] is SaveSettings
            && commands[0]->SaveSettings_0.language == window.draft.language
            && commands[0]->SaveSettings_0.theme == window.draft.theme && next == window,
        event matches WindowEvent::SettingsSaved(Ok(saved)) ==> next.settings == saved
            && next.draft == window.draft && commands == seq![
            WindowCommand::Log(UiMessage::SettingsSaved),
            WindowCommand::Restart,
        ],
        event matches WindowEvent::SettingsSaved(Err(error)) ==> next == window && commands == seq![
            WindowCommand::Log(UiMessage::SettingsNotSaved(error)),
        ],
        event matches WindowEvent::Restarted(Ok(_)) ==> commands == seq![WindowCommand::Exit(500)],
        event matches WindowEvent::Restarted(Err(error)) ==> commands == seq![
            WindowCommand::Log(UiMessage::RestartFailed(error)),
        ],
{
}

/// An optimization that is asked for is started, with feedback, unless one is under way; that
/// is only said.
pub proof fn optimizations_are_started_once(
    window: Window,
    event: WindowEvent,
    texts: UiTexts,
    next: Window,
    commands: Seq<WindowCommand>,
)
    requires
        window.obeys(event, next, commands),
        window.takes_note(event, texts, next, commands),
        event is TrimAsked,
    ensures
        next.busy,
        !window.busy ==> commands == seq![
            WindowCommand::ShowBusy(true),
            WindowCommand::ShowTask(UiMessage::OptimizeRunning, 8),
            WindowCommand::Log(UiMessage::OptimizeStarted),
            WindowCommand::RunTrim(event->TrimAsked_0),
        ],
        window.busy ==> next == window && commands == seq![
            WindowCommand::ShowTask(UiMessage::OptimizeRunning, 35),
            WindowCommand::Log(UiMessage::OptimizeRunning),
        ],
        next == (Window { busy: true, ..window }),
{
}

/// An optimization that has begun is halfway. One that has ended frees the window: its report
/// is shown and the dashboard refreshed, or its failure is told.
pub proof fn optimizations_end(
    window: Window,
    event: WindowEvent,
    texts: UiTexts,
    next: Window,
    commands: Seq<WindowCommand>,
)
    requires
        window.obeys(event, next, commands),
        window.takes_note(event, texts, next, commands),
    ensures
        event is TrimStarted ==> next == window && commands == seq![
            WindowCommand::ShowTask(UiMessage::OptimizeRunning, 55),
        ],
        event is TrimEnded ==> !next.busy && commands[0] == WindowCommand::ShowBusy(false),
        event matches WindowEvent::TrimEnded(Ok(data)) ==> {
            &&& commands[1] == WindowCommand::ShowReport(data)
            &&& commands[2] == WindowCommand::ShowTask(UiMessage::OptimizeCompleted, 100)
            &&& commands[3] == WindowCommand::Log(UiMessage::OptimizeCompleted)
            &&& next.refreshing
            &&& window.refreshing ==> commands.len() == 4
            &&& !window.refreshing ==> commands.len() == 6 && commands[5]
                == WindowCommand::ReadDashboard
        },
        event matches WindowEvent::TrimEnded(Err(error)) ==> {
            &&& commands.len() == 3
            &&& commands[1] == WindowCommand::ShowTask(UiMessage::OptimizeFailed(error), 100)
            &&& commands[2] == WindowCommand::Log(UiMessage::OptimizeFailed(error))
            &&& next.refreshing == window.refreshing
        },
{
}

/// What was opened or cleared is told with its path or its number, and what was not with the
/// reason.
pub proof fn outcomes_are_told(
    window: Window,
    event: WindowEvent,
    texts: UiTexts,
    next: Window,
    commands: Seq<WindowCommand>,
)
    requires
        window.obeys(event, next, commands),
        window.takes_note(event, texts, next, commands),
    ensures
        event matches WindowEvent::ReportOpened(Some(Ok(path))) ==> commands == seq![
            WindowCommand::Log(UiMessage::ReportOpened(path)),
        ],
        event matches WindowEvent::ReportOpened(Some(Err(error))) ==> commands == seq![
            WindowCommand::Log(UiMessage::ReportNotOpened(error)),
        ],
        event matches WindowEvent::ReportOpened(None) ==> commands == seq![
            WindowCommand::Log(UiMessage::NoReportYet),
        ],
        event matches WindowEvent::FolderOpened(Ok(path)) ==> commands == seq![
            WindowCommand::Log(UiMessage::FolderOpened(path)),
        ],
        event matches WindowEvent::FolderOpened(Err(error)) ==> commands == seq![
            WindowCommand::Log(UiMessage::FolderNotOpened(error)),
        ],
        event matches WindowEvent::HistoryCleared(Ok(count)) ==> commands == seq![
            WindowCommand::Log(UiMessage::HistoryCleared(count)),
        ],
        event matches WindowEvent::LogsCleared(Ok(count)) ==> commands == seq![
            WindowCommand::Log(UiMessage::LogsCleared(count)),
        ],
        event matches WindowEvent::HistoryCleared(Err(error)) ==> commands.len() == 1
            && commands[0] is Log && commands[0]->Log_0 is HistoryNotCleared
            && commands[0]->Log_0->HistoryNotCleared_0@ == error.described(),
        event matches WindowEvent::LogsCleared(Err(error)) ==> commands.len() == 1
            && commands[0] is Log && commands[0]->Log_0 is LogsNotCleared
            && commands[0]->Log_0->LogsNotCleared_0@ == error.described(),
{
}

/// A report that was read is shown. Of one that was not, the reason is shown.
pub proof fn reports_are_shown(
    window: Window,
    event: WindowEvent,
    texts: UiTexts,
    next: Window,
    commands: Seq<WindowCommand>,
)
    requires
        window.obeys(event, next, commands),
        window.takes_note(event, texts, next, commands),
        event is ReportRead,
    ensures
        next == window,
        commands.len() == 1,
        commands[0] is ShowReport,
        event matches WindowEvent::ReportRead(Ok(report)) ==> commands[0]->ShowReport_0.shows(
            report,
            texts,
        ),
        event matches WindowEvent::ReportRead(Err(error)) ==> commands[0]->ShowReport_0.text@
            == texts.no_report_available@ + error.described(),
{
}

/// A configuration that was set up is read at once. Read, it fills the draft; unreadable, the
/// reason stands in place of the paths and in the log.
pub proof fn configurations_fill_the_draft(
    window: Window,
    event: WindowEvent,
    texts: UiTexts,
    next: Window,
    commands: Seq<WindowCommand>,
)
    requires
        window.obeys(event, next, commands),
        window.takes_note(event, texts, next, commands),
    ensures
        event is ConfigInitialized ==> next == window && commands.last()
            == WindowCommand::ReadConfig && commands[0] is Log,
        event matches WindowEvent::ConfigInitialized(Ok(path)) ==> commands[0]
            == WindowCommand::Log(UiMessage::ConfigReady(path)),
        event matches WindowEvent::ConfigInitialized(Err(error)) ==> commands[0]->Log_0 is
            ConfigNotReady && commands[0]->Log_0->ConfigNotReady_0@ == error.described(),
        event matches WindowEvent::ConfigRead(Ok(config), app_data) ==> settings::is_configured_draft(
            next.draft,
            window.settings,
            config,
            text::optional(app_data),
        ) && commands == seq![WindowCommand::ShowDraft] && next.settings == window.settings,
        event matches WindowEvent::ConfigRead(Err(error), _) ==> {
            &&& next == window
            &&& commands.len() == 2
            &&& commands[0] is ShowPathMessage
            &&& commands[0]->ShowPathMessage_0 is PathsUnreadable
            &&& commands[0]->ShowPathMessage_0->PathsUnreadable_0@ == error.described()
            &&& commands[1] is Log
            &&& commands[1]->Log_0 is ConfigNotReady
            &&& commands[1]->Log_0->ConfigNotReady_0@ == error.described()
        },
{
}

/// The folder that was chosen, without the white space around it, is where the report goes. A
/// blank choice was canceled and changes nothing.
pub proof fn chosen_folders_take_the_report(
    window: Window,
    event: WindowEvent,
    texts: UiTexts,
    next: Window,
    commands: Seq<WindowCommand>,
)
    requires
        window.obeys(event, next, commands),
        window.takes_note(event, texts, next, commands),
        event is FolderChosen,
    ensures
        event matches WindowEvent::FolderChosen(Ok(printed)) ==> {
            &&& text::trimmed(printed@).len() == 0 ==> next == window && commands == seq![
                WindowCommand::Log(UiMessage::ChoiceCanceled),
            ]
            &&& text::trimmed(printed@).len() > 0 ==> {
                &&& next.draft.report_path.root is Literal
                &&& next.draft.report_path.root->Literal_0@ == text::trimmed(printed@)
                &&& next.draft.report_path.components@.len() == 1
                &&& next.draft.report_path.components@[0]@ == "last_report.json"@
                &&& commands == seq![WindowCommand::ShowDraft, WindowCommand::LogChosenPath]
            }
        },
        event matches WindowEvent::FolderChosen(Err(error)) ==> next == window && commands == seq![
            WindowCommand::Log(UiMessage::ChoiceFailed(error)),
        ],
        next.settings == window.settings,
        next.draft.language == window.draft.language,
        next.draft.theme == window.draft.theme,
{
    let views = text::views(next.draft.report_path.components@);
    if views == seq!["last_report.json"@] {
        assert(views.len() == 1);
        assert(views[0] == next.draft.report_path.components@[0]@);
    }
}

} // verus!
