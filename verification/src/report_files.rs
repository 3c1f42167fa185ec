//! The files that reports and logs are kept in: which are written, how they are named, and
//! which are removed.

use crate::config;
use crate::config::{expand_env_path, AppConfig};
use crate::error::MemSparkError;
use crate::report::OptimizeReport;
use crate::text;
use vstd::prelude::*;

verus! {

/// The kinds of files that are kept.
#[derive(Debug, Clone, Copy, PartialEq, Eq, Structural)]
pub enum FileKind {
    /// An earlier report.
    History,
    /// A developer log.
    Log,
}

/// How many numbered names are tried.
pub const NUMBERED_NAMES: u32 = 1000;

impl FileKind {
    /// What the names of the kind begin with.
    pub open spec fn prefix(self) -> Seq<char> {
        match self {
            FileKind::History => "report-"@,
            FileKind::Log => "dev-report-"@,
        }
    }

    /// What the names of the kind end with.
    pub open spec fn suffix(self) -> Seq<char> {
        match self {
            FileKind::History => ".json"@,
            FileKind::Log => ".log"@,
        }
    }

    /// The extension of the kind.
    pub open spec fn extension(self) -> Seq<char> {
        match self {
            FileKind::History => "json"@,
            FileKind::Log => "log"@,
        }
    }

    /// The name with a number behind the timestamp.
    pub open spec fn name_with(self, timestamp_unix: nat, number: nat) -> Seq<char> {
        self.prefix() + text::decimal(timestamp_unix) + "-"@ + text::decimal(number) + self.suffix()
    }

    /// The name that is tried after `index` others.
    pub open spec fn numbered_name(self, timestamp_unix: nat, index: nat) -> Seq<char> {
        if index == 0 {
            self.prefix() + text::decimal(timestamp_unix) + self.suffix()
        } else {
            self.name_with(timestamp_unix, index)
        }
    }

    /// Writes the begin of a name.
    fn stem(self, timestamp_unix: u64) -> (r: String)
        ensures
            r@ == self.prefix() + text::decimal(timestamp_unix as nat),
    {
        let mut r: String = match self {
            FileKind::History => "report-".to_owned(),
            FileKind::Log => "dev-report-".to_owned(),
        };
        r.append(text::decimal_text(timestamp_unix as u128).as_str());
        r
    }

    /// Writes the name with a number behind the timestamp.
    pub fn name_text(self, timestamp_unix: u64, number: u64) -> (r: String)
        ensures
            r@ == self.name_with(timestamp_unix as nat, number as nat),
    {
        let mut r: String = self.stem(timestamp_unix);
        r.append("-");
        r.append(text::decimal_text(number as u128).as_str());
        match self {
            FileKind::History => {
                r.append(".json");
            },
            FileKind::Log => {
                r.append(".log");
            },
        }
        r
    }

    /// Writes the name that is tried after `index` others.
    pub fn numbered_name_text(self, timestamp_unix: u64, index: u32) -> (r: String)
        ensures
            r@ == self.numbered_name(timestamp_unix as nat, index as nat),
    {
        if index > 0 {
            return self.name_text(timestamp_unix, index as u64);
        }
        let mut r: String = self.stem(timestamp_unix);
        match self {
            FileKind::History => {
                r.append(".json");
            },
            FileKind::Log => {
                r.append(".log");
            },
        }
        r
    }
}

// ---------------------------------------------------------------------------
// Finding a free name
// ---------------------------------------------------------------------------

/// The search for a name that no file has yet.
#[derive(Debug, Clone, Copy)]
pub struct NameSearch {
    pub kind: FileKind,
    pub timestamp_unix: u64,
    pub index: u32,
    pub found: bool,
}

impl NameSearch {
    /// Whether the search's parts fit together.
    pub open spec fn well_formed(self) -> bool {
        self.index <= NUMBERED_NAMES && (self.found ==> self.index < NUMBERED_NAMES)
    }

    /// Whether another name is to be tried.
    pub open spec fn goes_on(self) -> bool {
        !self.found && self.index < NUMBERED_NAMES
    }

    /// The name that is tried next.
    pub open spec fn next_name(self) -> Seq<char> {
        self.kind.numbered_name(self.timestamp_unix as nat, self.index as nat)
    }

    /// The search after the name was tried.
    pub open spec fn stepped(self, taken: bool) -> NameSearch {
        if !self.goes_on() {
            self
        } else if taken {
            NameSearch { index: (self.index + 1) as u32, ..self }
        } else {
            NameSearch { found: true, ..self }
        }
    }

    /// The name that the search has come to.
    pub open spec fn chosen_name(self, now_unix: u64) -> Seq<char> {
        if self.found {
            self.next_name()
        } else {
            self.kind.name_with(self.timestamp_unix as nat, now_unix as nat)
        }
    }

    /// The name to try next; nothing once the search is over.
    pub fn candidate(&self) -> (r: Option<String>)
        ensures
            r is Some == self.goes_on(),
            r matches Some(name) ==> name@ == self.next_name(),
    {
        if self.found || self.index >= NUMBERED_NAMES {
            None
        } else {
            Some(self.kind.numbered_name_text(self.timestamp_unix, self.index))
        }
    }

    /// Takes in whether a file has the name that was tried.
    pub fn step(&mut self, taken: bool)
        requires
            old(self).well_formed(),
        ensures
            final(self).well_formed(),
            *final(self) == old(self).stepped(taken),
    {
        if !self.found && self.index < NUMBERED_NAMES {
            if taken {
                self.index = self.index + 1;
            } else {
                self.found = true;
            }
        }
    }

    /// The name that the search has come to. Where every numbered name is taken, the current
    /// time stands in for the number.
    pub fn file_name(&self, now_unix: u64) -> (r: String)
        ensures
            r@ == self.chosen_name(now_unix),
    {
        if self.found {
            self.kind.numbered_name_text(self.timestamp_unix, self.index)
        } else {
            self.kind.name_text(self.timestamp_unix, now_unix)
        }
    }
}

/// Starts the search for a free name among the earlier reports.
pub fn unique_history_path(timestamp_unix: u64) -> (r: NameSearch)
    ensures
        r == (NameSearch { kind: FileKind::History, timestamp_unix, index: 0, found: false }),
        r.well_formed(),
{
    NameSearch { kind: FileKind::History, timestamp_unix, index: 0, found: false }
}

/// Starts the search for a free name among the developer logs.
pub fn unique_developer_log_path(timestamp_unix: u64) -> (r: NameSearch)
    ensures
        r == (NameSearch { kind: FileKind::Log, timestamp_unix, index: 0, found: false }),
        r.well_formed(),
{
    NameSearch { kind: FileKind::Log, timestamp_unix, index: 0, found: false }
}

/// The names that a search tries differ from one another.
pub proof fn tried_names_differ(kind: FileKind, timestamp_unix: nat, i: nat, j: nat)
    requires
        i != j,
    ensures
        kind.numbered_name(timestamp_unix, i) != kind.numbered_name(timestamp_unix, j),
{
    let stem = kind.prefix() + text::decimal(timestamp_unix);
    let suffix = kind.suffix();
    let a = kind.numbered_name(timestamp_unix, i);
    let b = kind.numbered_name(timestamp_unix, j);
    if a == b {
        reveal_strlit("-");
        reveal_strlit(".json");
        reveal_strlit(".log");
        let k = stem.len() as int;
        if i == 0 {
            assert(a[k] == suffix[0]);
            assert(b[k] == '-');
        } else if j == 0 {
            assert(b[k] == suffix[0]);
            assert(a[k] == '-');
        } else {
            assert(a.subrange(k + 1, a.len() - suffix.len()) =~= text::decimal(i));
            assert(b.subrange(k + 1, b.len() - suffix.len()) =~= text::decimal(j));
            text::decimal_determines_number(i, j);
        }
    }
}

// ---------------------------------------------------------------------------
// Saving
// ---------------------------------------------------------------------------

/// What saving a report takes.
#[derive(Debug, Clone, Copy)]
pub enum SavePlan {
    /// Reports are not kept.
    Nothing,
    /// The report is written.
    Write,
    /// The last report is copied to the name that the search comes to, and the report is
    /// written.
    ArchiveThenWrite(NameSearch),
}

/// What saving a report takes.
pub open spec fn save_plan(
    config: AppConfig,
    last_exists: bool,
    last_timestamp: Option<u64>,
    now_unix: u64,
) -> SavePlan {
    if !config.report.save_last_report {
        SavePlan::Nothing
    } else if !last_exists {
        SavePlan::Write
    } else {
        SavePlan::ArchiveThenWrite(
            NameSearch {
                kind: FileKind::History,
                timestamp_unix: match last_timestamp {
                    Some(timestamp) => timestamp,
                    None => now_unix,
                },
                index: 0,
                found: false,
            },
        )
    }
}

/// Decides what saving a report takes. `last_exists` tells whether there is a last report, and
/// `last_timestamp` the time it carries, if it can be read.
pub fn save_report(
    config: &AppConfig,
    last_exists: bool,
    last_timestamp: Option<u64>,
    now_unix: u64,
) -> (r: SavePlan)
    ensures
        r == save_plan(*config, last_exists, last_timestamp, now_unix),
        r.well_formed(),
{
    if !config.report.save_last_report {
        return SavePlan::Nothing;
    }
    match archive_existing_report(last_exists, last_timestamp, now_unix) {
        Some(search) => SavePlan::ArchiveThenWrite(search),
        None => SavePlan::Write,
    }
}

/// Starts the search for the name under which the developer log of a report is kept.
pub fn save_developer_log(report: &OptimizeReport) -> (r: NameSearch)
    ensures
        r == (NameSearch {
            kind: FileKind::Log,
            timestamp_unix: report.timestamp_unix,
            index: 0,
            found: false,
        }),
        r.well_formed(),
{
    unique_developer_log_path(report.timestamp_unix)
}

/// Tells where the last report is written to and read from.
pub fn load_last_report(config: &AppConfig, app_data: Option<&str>) -> (r: String)
    ensures
        r@ == config::expanded(config.report.last_report_path@, config::option_view(app_data)),
{
    expand_env_path(config.report.last_report_path.as_str(), app_data)
}

/// Starts the search for the name under which the last report is kept, if there is one.
pub fn archive_existing_report(
    last_exists: bool,
    last_timestamp: Option<u64>,
    now_unix: u64,
) -> (r: Option<NameSearch>)
    ensures
        r == if last_exists {
            Some(
                NameSearch {
                    kind: FileKind::History,
                    timestamp_unix: match last_timestamp {
                        Some(timestamp) => timestamp,
                        None => now_unix,
                    },
                    index: 0,
                    found: false,
                },
            )
        } else {
            None
        },
{
    if !last_exists {
        return None;
    }
    let timestamp_unix: u64 = match last_timestamp {
        Some(timestamp) => timestamp,
        None => now_unix,
    };
    Some(unique_history_path(timestamp_unix))
}

// ---------------------------------------------------------------------------
// Carrying a plan out
// ---------------------------------------------------------------------------

/// What saving a report needs next.
#[derive(Debug)]
pub enum SaveAction {
    /// The folder of the last report is to exist.
    PrepareFolder,
    /// The folder of the earlier reports is to exist.
    PrepareHistory,
    /// It is to be looked up whether an earlier report has this name.
    CheckName(String),
    /// The last report is to be copied to this name among the earlier reports.
    Archive(String),
    /// The new report is to be written in place of the last one.
    Write,
    /// Nothing more.
    Done,
}

/// What came of an action.
#[derive(Debug)]
pub enum SaveReply {
    /// Of preparing a folder.
    Prepared(Result<(), MemSparkError>),
    /// Of looking up a name: whether it is taken.
    Checked(bool),
    /// Of copying the last report.
    Archived(Result<(), MemSparkError>),
    /// Of writing the new report.
    Written(Result<(), MemSparkError>),
}

/// How far saving a report has come.
#[derive(Debug)]
pub enum SaveStage {
    PreparingFolder,
    PreparingHistory(NameSearch),
    Naming(NameSearch),
    Archiving(String),
    Writing,
    /// Over: whether a report was written, or the error that stood in the way.
    Finished(Result<bool, MemSparkError>),
}

/// Saving one report.
#[derive(Debug)]
pub struct SaveRun {
    pub plan: SavePlan,
    pub now_unix: u64,
    /// The name under which the last report was archived.
    pub archived: Option<String>,
    pub stage: SaveStage,
}

impl SavePlan {
    /// Whether the plan's parts fit together.
    pub open spec fn well_formed(self) -> bool {
        self matches SavePlan::ArchiveThenWrite(search) ==> search.well_formed()
            && search.goes_on()
    }
}

impl SaveRun {
    /// Whether the run's parts fit together.
    pub open spec fn well_formed(self) -> bool {
        &&& self.plan.well_formed()
        &&& match self.stage {
            SaveStage::PreparingFolder => !(self.plan is Nothing) && self.archived is None,
            SaveStage::PreparingHistory(search) => {
                &&& self.plan == SavePlan::ArchiveThenWrite(search)
                &&& self.archived is None
            },
            SaveStage::Naming(search) => {
                &&& self.plan is ArchiveThenWrite
                &&& self.archived is None
                &&& search.well_formed()
                &&& search.goes_on()
            },
            SaveStage::Archiving(_) => self.plan is ArchiveThenWrite && self.archived is None,
            SaveStage::Writing => {
                ||| self.plan is Write && self.archived is None
                ||| self.plan is ArchiveThenWrite && self.archived is Some
            },
            SaveStage::Finished(_) => true,
        }
    }

    /// This run at another stage.
    pub open spec fn at(self, stage: SaveStage) -> SaveRun {
        SaveRun { stage, ..self }
    }

    /// Whether `action` is what the run needs next.
    pub open spec fn asks(self, action: SaveAction) -> bool {
        match self.stage {
            SaveStage::PreparingFolder => action is PrepareFolder,
            SaveStage::PreparingHistory(_) => action is PrepareHistory,
            SaveStage::Naming(search) => {
                &&& action matches SaveAction::CheckName(name)
                &&& name@ == search.next_name()
            },
            SaveStage::Archiving(name) => action == SaveAction::Archive(name),
            SaveStage::Writing => action is Write,
            SaveStage::Finished(_) => action is Done,
        }
    }

    /// Whether `reply` answers what the run needs next.
    pub open spec fn expects(self, reply: SaveReply) -> bool {
        match self.stage {
            SaveStage::PreparingFolder => reply is Prepared,
            SaveStage::PreparingHistory(_) => reply is Prepared,
            SaveStage::Naming(_) => reply is Checked,
            SaveStage::Archiving(_) => reply is Archived,
            SaveStage::Writing => reply is Written,
            SaveStage::Finished(_) => false,
        }
    }

    /// Whether `next` is this run after `reply`. An error ends the run with that error, and a
    /// reply that answers nothing changes nothing.
    pub open spec fn steps_to(self, reply: SaveReply, next: SaveRun) -> bool {
        match (self.stage, reply) {
            (SaveStage::PreparingFolder, SaveReply::Prepared(Ok(_))) => {
                next == self.at(
                    match self.plan {
                        SavePlan::ArchiveThenWrite(search) => SaveStage::PreparingHistory(search),
                        _ => SaveStage::Writing,
                    },
                )
            },
            (SaveStage::PreparingHistory(search), SaveReply::Prepared(Ok(_))) => {
                next == self.at(SaveStage::Naming(search))
            },
            (SaveStage::Naming(search), SaveReply::Checked(taken)) => {
                if search.stepped(taken).goes_on() {
                    next == self.at(SaveStage::Naming(search.stepped(taken)))
                } else {
                    &&& next == self.at(next.stage)
                    &&& next.stage matches SaveStage::Archiving(name)
                    &&& name@ == search.stepped(taken).chosen_name(self.now_unix)
                }
            },
            (SaveStage::Archiving(name), SaveReply::Archived(Ok(_))) => {
                next == (SaveRun {
                    archived: Some(name),
                    stage: SaveStage::Writing,
                    ..self
                })
            },
            (SaveStage::Writing, SaveReply::Written(Ok(_))) => {
                next == self.at(SaveStage::Finished(Ok(true)))
            },
            (SaveStage::PreparingFolder, SaveReply::Prepared(Err(error))) => {
                next == self.at(SaveStage::Finished(Err(error)))
            },
            (SaveStage::PreparingHistory(_), SaveReply::Prepared(Err(error))) => {
                next == self.at(SaveStage::Finished(Err(error)))
            },
            (SaveStage::Archiving(_), SaveReply::Archived(Err(error))) => {
                next == self.at(SaveStage::Finished(Err(error)))
            },
            (SaveStage::Writing, SaveReply::Written(Err(error))) => {
                next == self.at(SaveStage::Finished(Err(error)))
            },
            _ => next == self,
        }
    }

    /// Tells what the run needs next.
    pub fn next_action(&self) -> (r: SaveAction)
        requires
            self.well_formed(),
        ensures
            self.asks(r),
    {
        match &self.stage {
            SaveStage::PreparingFolder => SaveAction::PrepareFolder,
            SaveStage::PreparingHistory(_) => SaveAction::PrepareHistory,
            SaveStage::Naming(search) => {
                SaveAction::CheckName(
                    search.kind.numbered_name_text(search.timestamp_unix, search.index),
                )
            },
            SaveStage::Archiving(name) => SaveAction::Archive(name.clone()),
            SaveStage::Writing => SaveAction::Write,
            SaveStage::Finished(_) => SaveAction::Done,
        }
    }

    /// Takes in the reply to what the run needed.
    pub fn step(self, reply: SaveReply) -> (next: SaveRun)
        requires
            self.well_formed(),
        ensures
            self.steps_to(reply, next),
            next.well_formed(),
    {
        let mut archived: Option<String> = self.archived;
        let stage: SaveStage = match (self.stage, reply) {
            (SaveStage::PreparingFolder, SaveReply::Prepared(Ok(_))) => match self.plan {
                SavePlan::ArchiveThenWrite(search) => SaveStage::PreparingHistory(search),
                _ => SaveStage::Writing,
            },
            (SaveStage::PreparingHistory(search), SaveReply::Prepared(Ok(_))) => {
                SaveStage::Naming(search)
            },
            (SaveStage::Naming(search), SaveReply::Checked(taken)) => {
                let mut names: NameSearch = search;
                names.step(taken);
                if !names.found && names.index < NUMBERED_NAMES {
                    SaveStage::Naming(names)
                } else {
                    SaveStage::Archiving(names.file_name(self.now_unix))
                }
            },
            (SaveStage::Archiving(name), SaveReply::Archived(Ok(_))) => {
                archived = Some(name);
                SaveStage::Writing
            },
            (SaveStage::Writing, SaveReply::Written(Ok(_))) => SaveStage::Finished(Ok(true)),
            (SaveStage::PreparingFolder, SaveReply::Prepared(Err(error))) => {
                SaveStage::Finished(Err(error))
            },
            (SaveStage::PreparingHistory(_), SaveReply::Prepared(Err(error))) => {
                SaveStage::Finished(Err(error))
            },
            (SaveStage::Archiving(_), SaveReply::Archived(Err(error))) => {
                SaveStage::Finished(Err(error))
            },
            (SaveStage::Writing, SaveReply::Written(Err(error))) => {
                SaveStage::Finished(Err(error))
            },
            (stage, _) => stage,
        };
        SaveRun { plan: self.plan, now_unix: self.now_unix, archived, stage }
    }

    /// Tells whether a report was written, or gives the error that stood in the way; nothing
    /// while the run is under way.
    pub fn finish(self) -> (r: Option<Result<bool, MemSparkError>>)
        ensures
            r == match self.stage {
                SaveStage::Finished(result) => Some(result),
                _ => None,
            },
    {
        match self.stage {
            SaveStage::Finished(result) => Some(result),
            _ => None,
        }
    }
}

/// Whether `run` is about to carry `plan` out.
pub open spec fn save_begins(run: SaveRun, plan: SavePlan, now_unix: u64) -> bool {
    run == (SaveRun {
        plan,
        now_unix,
        archived: None,
        stage: match plan {
            SavePlan::Nothing => SaveStage::Finished(Ok(false)),
            _ => SaveStage::PreparingFolder,
        },
    })
}

/// Begins to carry a plan out.
pub fn carry_out(plan: SavePlan, now_unix: u64) -> (r: SaveRun)
    requires
        plan.well_formed(),
    ensures
        save_begins(r, plan, now_unix),
        r.well_formed(),
{
    let stage: SaveStage = match plan {
        SavePlan::Nothing => SaveStage::Finished(Ok(false)),
        _ => SaveStage::PreparingFolder,
    };
    SaveRun { plan, now_unix, archived: None, stage }
}

/// The new report is written only once the last one has been archived, or where there was
/// none.
pub proof fn writing_waits_for_the_archive(run: SaveRun)
    requires
        run.well_formed(),
        run.asks(SaveAction::Write),
    ensures
        run.plan is Write || run.archived is Some,
{
}

/// Where the last report could not be archived, saving ends with that error, and nothing is
/// written whatever is replied.
pub proof fn failed_archive_ends_saving(
    run: SaveRun,
    error: MemSparkError,
    next: SaveRun,
    reply: SaveReply,
    later: SaveRun,
)
    requires
        run.well_formed(),
        run.stage is Archiving,
        run.steps_to(SaveReply::Archived(Err(error)), next),
        next.steps_to(reply, later),
    ensures
        next.stage == SaveStage::Finished(Err(error)),
        next.asks(SaveAction::Done),
        later == next,
{
}

/// The last report and the earlier ones, as they lie on the disk.
pub struct Shelf {
    pub last: Option<Seq<char>>,
    pub history: Map<Seq<char>, Seq<char>>,
}

impl Shelf {
    /// Whether `next` can be the disk after `action` was performed with the outcome `reply`,
    /// where `content` is the new report. An attempt to copy that failed leaves at most the
    /// copy in doubt, and an attempt to write that failed leaves the last report in doubt.
    pub open spec fn may_become(
        self,
        action: SaveAction,
        reply: SaveReply,
        next: Shelf,
        content: Seq<char>,
    ) -> bool {
        match (action, reply) {
            (SaveAction::Archive(name), SaveReply::Archived(Ok(_))) => {
                &&& self.last matches Some(last)
                &&& next.last == self.last
                &&& next.history == self.history.insert(name@, last)
            },
            (SaveAction::Archive(_), _) => next.last == self.last,
            (SaveAction::Write, SaveReply::Written(Ok(_))) => {
                &&& next.last == Some(content)
                &&& next.history == self.history
            },
            (SaveAction::Write, _) => next.history == self.history,
            _ => next == self,
        }
    }
}

/// Whether the report `before` that was there at the begin of `run`, if any, is still there:
/// in its place until the new one is written, and among the earlier ones once it was archived.
pub open spec fn keeps(run: SaveRun, shelf: Shelf, before: Option<Seq<char>>) -> bool {
    &&& run.plan is Write ==> before is None
    &&& !(run.stage is Finished) ==> shelf.last == before
    &&& run.archived matches Some(name) ==> {
        &&& before matches Some(last)
        &&& shelf.history.contains_key(name@)
        &&& shelf.history[name@] == last
    }
    &&& run.archived is None && before is Some ==> shelf.last == before
}

/// Saving never loses the last report. It is kept from the begin, every step keeps it, and as
/// long as it is kept it is either still in its place or among the earlier ones, whether
/// saving succeeds or fails.
pub proof fn saving_keeps_the_last_report(
    run: SaveRun,
    shelf: Shelf,
    before: Option<Seq<char>>,
    action: SaveAction,
    reply: SaveReply,
    next: SaveRun,
    next_shelf: Shelf,
    content: Seq<char>,
)
    requires
        run.well_formed(),
        keeps(run, shelf, before),
        run.asks(action),
        run.expects(reply),
        run.steps_to(reply, next),
        shelf.may_become(action, reply, next_shelf, content),
    ensures
        next.well_formed(),
        keeps(next, next_shelf, before),
        before matches Some(last) ==> next_shelf.last == before || exists|name: Seq<char>|
            #[trigger]
            next_shelf.history.contains_key(name) && next_shelf.history[name] == last,
        next.stage == SaveStage::Finished(Ok(true)) ==> next_shelf.last == Some(content),
{
}

/// At the begin, the last report is kept.
pub proof fn saving_begins_with_the_last_report(
    run: SaveRun,
    shelf: Shelf,
    plan: SavePlan,
    now_unix: u64,
)
    requires
        save_begins(run, plan, now_unix),
        plan is Write ==> shelf.last is None,
    ensures
        keeps(run, shelf, shelf.last),
{
}

impl SaveRun {
    /// How many replies the run still takes at most.
    pub open spec fn work_left(self) -> int {
        match self.stage {
            SaveStage::PreparingFolder => NUMBERED_NAMES + 4,
            SaveStage::PreparingHistory(_) => NUMBERED_NAMES + 3,
            SaveStage::Naming(search) => NUMBERED_NAMES - search.index + 2,
            SaveStage::Archiving(_) => 2,
            SaveStage::Writing => 1,
            SaveStage::Finished(_) => 0,
        }
    }
}

/// Saving comes to an end: every reply that answers what is needed leaves less to do.
pub proof fn saving_ends(run: SaveRun, reply: SaveReply, next: SaveRun)
    requires
        run.well_formed(),
        run.expects(reply),
        run.steps_to(reply, next),
    ensures
        0 <= next.work_left() < run.work_left(),
        run.stage is Finished == (run.work_left() == 0),
{
}

// ---------------------------------------------------------------------------
// Removing
// ---------------------------------------------------------------------------

/// Where the last dot of a file name stands; the length of the name if it has none.
pub open spec fn last_dot(name: Seq<char>) -> int
    decreases name.len(),
{
    if name.len() == 0 {
        -1
    } else if name.last() == '.' {
        name.len() - 1
    } else {
        last_dot(name.drop_last())
    }
}

/// The extension of a file name: what follows its last dot, unless that dot begins the name.
pub open spec fn extension_of(name: Seq<char>) -> Option<Seq<char>> {
    if name == ".."@ || last_dot(name) <= 0 {
        None
    } else {
        Some(name.skip(last_dot(name) + 1))
    }
}

/// The last dot stands at `k` if there is one there and none behind it.
proof fn lemma_last_dot(name: Seq<char>, k: int)
    requires
        -1 <= k < name.len(),
        k >= 0 ==> name[k] == '.',
        forall|i: int| k < i < name.len() ==> #[trigger] name[i] != '.',
    ensures
        last_dot(name) == k,
    decreases name.len(),
{
    if name.len() > 0 && k < name.len() - 1 {
        assert(name[name.len() - 1] != '.');
        lemma_last_dot(name.drop_last(), k);
    }
}

/// Finds the extension of a file name.
pub fn file_extension(name: &str) -> (r: Option<String>)
    ensures
        text::optional(r) == extension_of(name@),
{
    if text::same_text(name, "..") {
        return None;
    }
    let chars: Vec<char> = text::chars_of(name);
    let n: usize = chars.len();
    let mut i: usize = n;
    while i > 0 && chars[i - 1] != '.'
        invariant
            i <= n,
            n == chars@.len(),
            chars@ == name@,
            forall|j: int| i <= j < n ==> #[trigger] name@[j] != '.',
        decreases i,
    {
        i = i - 1;
    }
    proof {
        lemma_last_dot(name@, i - 1);
    }
    if i <= 1 {
        return None;
    }
    assert(name@.skip(i as int) =~= chars@.subrange(i as int, n as int));
    Some(text::text_of(&chars, i, n))
}

/// Whether a file name has the extension of a kind, letter case aside.
pub open spec fn is_of_kind(name: Seq<char>, kind: FileKind) -> bool {
    extension_of(name) matches Some(extension) && text::same_ignoring_case(
        extension,
        kind.extension(),
    )
}

/// Tells whether a file name is that of a report.
pub fn is_json_file(name: &str) -> (r: bool)
    ensures
        r == is_of_kind(name@, FileKind::History),
{
    match file_extension(name) {
        Some(extension) => text::same_text_ignoring_case(extension.as_str(), "json"),
        None => false,
    }
}

/// Tells whether a file name is that of a log.
pub fn is_log_file(name: &str) -> (r: bool)
    ensures
        r == is_of_kind(name@, FileKind::Log),
{
    match file_extension(name) {
        Some(extension) => text::same_text_ignoring_case(extension.as_str(), "log"),
        None => false,
    }
}

/// An entry of a directory.
#[derive(Debug, Clone)]
pub struct FolderEntry {
    pub name: String,
    pub is_file: bool,
}

/// Whether an entry is removed when files of a kind are cleared.
pub open spec fn is_removed(entry: FolderEntry, kind: FileKind) -> bool {
    entry.is_file && is_of_kind(entry.name@, kind)
}

/// The places of the entries that are removed, in the order of the directory.
pub open spec fn removed(entries: Seq<FolderEntry>, kind: FileKind) -> Seq<int>
    decreases entries.len(),
{
    if entries.len() == 0 {
        Seq::empty()
    } else if is_removed(entries.last(), kind) {
        removed(entries.drop_last(), kind).push(entries.len() - 1)
    } else {
        removed(entries.drop_last(), kind)
    }
}

/// Lists the entries of a directory that are removed when files of a kind are cleared.
fn cleared(entries: &Vec<FolderEntry>, kind: FileKind) -> (r: Vec<usize>)
    ensures
        r@.map_values(|i: usize| i as int) == removed(entries@, kind),
{
    let mut r: Vec<usize> = Vec::new();
    let mut i: usize = 0;
    assert(r@.map_values(|i: usize| i as int) =~= removed(entries@.take(0), kind));
    while i < entries.len()
        invariant
            i <= entries@.len(),
            r@.map_values(|i: usize| i as int) == removed(entries@.take(i as int), kind),
        decreases entries@.len() - i,
    {
        assert(entries@.take(i + 1).drop_last() =~= entries@.take(i as int));
        let fits: bool = match kind {
            FileKind::History => is_json_file(entries[i].name.as_str()),
            FileKind::Log => is_log_file(entries[i].name.as_str()),
        };
        if entries[i].is_file && fits {
            r.push(i);
        }
        i = i + 1;
        assert(r@.map_values(|i: usize| i as int) =~= removed(entries@.take(i as int), kind));
    }
    assert(entries@.take(i as int) =~= entries@);
    r
}

/// Lists the entries of the history directory that are removed when the history is cleared.
pub fn clear_report_history(entries: &Vec<FolderEntry>) -> (r: Vec<usize>)
    ensures
        r@.map_values(|i: usize| i as int) == removed(entries@, FileKind::History),
{
    cleared(entries, FileKind::History)
}

/// Lists the entries of the log directory that are removed when the logs are cleared.
pub fn clear_developer_logs(entries: &Vec<FolderEntry>) -> (r: Vec<usize>)
    ensures
        r@.map_values(|i: usize| i as int) == removed(entries@, FileKind::Log),
{
    cleared(entries, FileKind::Log)
}

/// Every name that a search comes to is one that clearing removes.
pub proof fn kept_files_can_be_cleared(kind: FileKind, timestamp_unix: nat, number: nat)
    ensures
        is_of_kind(kind.numbered_name(timestamp_unix, number), kind),
        is_of_kind(kind.name_with(timestamp_unix, number), kind),
{
    reveal_strlit("report-");
    reveal_strlit("dev-report-");
    lemma_extension(kind, kind.prefix() + text::decimal(timestamp_unix));
    lemma_extension(
        kind,
        kind.prefix() + text::decimal(timestamp_unix) + "-"@ + text::decimal(number),
    );
}

/// A name that ends with the suffix of a kind, behind something else, is of that kind.
proof fn lemma_extension(kind: FileKind, stem: Seq<char>)
    requires
        stem.len() > 2,
    ensures
        is_of_kind(stem + kind.suffix(), kind),
{
    reveal_strlit(".json");
    reveal_strlit(".log");
    reveal_strlit("json");
    reveal_strlit("log");
    reveal_strlit("..");
    let name = stem + kind.suffix();
    let k = stem.len() as int;
    assert(name[k] == '.');
    assert forall|i: int| k < i < name.len() implies #[trigger] name[i] != '.' by {
        assert(name[i] == kind.suffix()[i - k]);
    }
    lemma_last_dot(name, k);
    assert(name.skip(k + 1) =~= kind.extension());
    crate::policy::process_names_equivalence(kind.extension(), kind.extension(), kind.extension());
}

/// Nothing is saved unless that is configured. A last report is archived before the new one is
/// written, under a name made of the time it carries, or of the present where it carries none.
pub proof fn last_reports_are_archived(
    config: AppConfig,
    last_exists: bool,
    last_timestamp: Option<u64>,
    now_unix: u64,
)
    ensures
        ({
            let plan = save_plan(config, last_exists, last_timestamp, now_unix);
            &&& !config.report.save_last_report <==> plan is Nothing
            &&& config.report.save_last_report && !last_exists <==> plan is Write
            &&& config.report.save_last_report && last_exists ==> {
                &&& plan matches SavePlan::ArchiveThenWrite(search)
                &&& search.goes_on()
                &&& last_timestamp matches Some(time) ==> search.next_name() == "report-"@
                    + text::decimal(time as nat) + ".json"@
                &&& last_timestamp is None ==> search.next_name() == "report-"@ + text::decimal(
                    now_unix as nat,
                ) + ".json"@
            }
        }),
{
}

/// Files are named after their kind and a time; where a name is taken, a number follows the
/// time.
pub proof fn files_are_named_after_their_time(time: nat, number: nat)
    ensures
        FileKind::History.numbered_name(time, 0) == "report-"@ + text::decimal(time) + ".json"@,
        FileKind::Log.numbered_name(time, 0) == "dev-report-"@ + text::decimal(time) + ".log"@,
        number > 0 ==> FileKind::History.numbered_name(time, number) == "report-"@ + text::decimal(
            time,
        ) + "-"@ + text::decimal(number) + ".json"@,
        number > 0 ==> FileKind::Log.numbered_name(time, number) == "dev-report-"@ + text::decimal(
            time,
        ) + "-"@ + text::decimal(number) + ".log"@,
{
}

/// A search takes the first name that is free, and tries the next number where one is not.
/// After a thousand names it gives up on numbers and takes the present time for one.
pub proof fn searches_take_the_first_free_name(search: NameSearch, now_unix: u64)
    requires
        search.well_formed(),
        search.goes_on(),
    ensures
        !search.stepped(false).goes_on(),
        search.stepped(false).chosen_name(now_unix) == search.next_name(),
        search.index < 999 ==> search.stepped(true).goes_on() && search.stepped(true).next_name()
            == search.kind.name_with(search.timestamp_unix as nat, (search.index + 1) as nat),
        search.index == 999 ==> !search.stepped(true).goes_on() && search.stepped(
            true,
        ).chosen_name(now_unix) == search.kind.name_with(
            search.timestamp_unix as nat,
            now_unix as nat,
        ),
        search.stepped(true).kind == search.kind,
        search.stepped(true).timestamp_unix == search.timestamp_unix,
        search.index <= 999,
{
}

/// How saving goes: the folder, then, where a last report is to be archived, the folder for
/// earlier ones, a free name and the copy; then the new report. Any error ends it.
pub proof fn saving_goes_in_order(run: SaveRun, reply: SaveReply, next: SaveRun)
    requires
        run.well_formed(),
        run.expects(reply),
        run.steps_to(reply, next),
    ensures
        run.asks(SaveAction::PrepareFolder) && (reply matches SaveReply::Prepared(Ok(_)))
            && run.plan is Write ==> next.asks(SaveAction::Write),
        run.asks(SaveAction::PrepareFolder) && (reply matches SaveReply::Prepared(Ok(_)))
            && run.plan is ArchiveThenWrite ==> next.asks(SaveAction::PrepareHistory),
        run.asks(SaveAction::PrepareHistory) && (reply matches SaveReply::Prepared(Ok(_)))
            ==> next.stage is Naming,
        run.stage matches SaveStage::Naming(search) && reply == SaveReply::Checked(false) ==> (
        next.stage matches SaveStage::Archiving(name) && name@
            == run.stage->Naming_0.next_name()),
        run.stage is Archiving && (reply matches SaveReply::Archived(Ok(_))) ==> next.asks(
            SaveAction::Write,
        ) && next.archived == Some(run.stage->Archiving_0),
        run.stage is Writing && (reply matches SaveReply::Written(Ok(_))) ==> next.stage
            == SaveStage::Finished(Ok::<bool, MemSparkError>(true)),
        reply matches SaveReply::Prepared(Err(error)) ==> next.stage == SaveStage::Finished(
            Err::<bool, MemSparkError>(error),
        ),
        reply matches SaveReply::Archived(Err(error)) ==> next.stage == SaveStage::Finished(
            Err::<bool, MemSparkError>(error),
        ),
        reply matches SaveReply::Written(Err(error)) ==> next.stage == SaveStage::Finished(
            Err::<bool, MemSparkError>(error),
        ),
        next.plan == run.plan,
{
}

/// The extension is what follows the last dot, if something precedes it.
pub proof fn extensions_follow_the_last_dot(stem: Seq<char>, extension: Seq<char>)
    requires
        forall|i: int| 0 <= i < extension.len() ==> #[trigger] extension[i] != '.',
        stem.len() > 0,
        stem + seq!['.'] + extension != ".."@,
    ensures
        extension_of(stem + seq!['.'] + extension) == Some(extension),
        is_of_kind(stem + seq!['.'] + extension, FileKind::History) <==> text::same_ignoring_case(
            extension,
            "json"@,
        ),
        is_of_kind(stem + seq!['.'] + extension, FileKind::Log) <==> text::same_ignoring_case(
            extension,
            "log"@,
        ),
{
    let name = stem + seq!['.'] + extension;
    let k = stem.len() as int;
    assert forall|i: int| k < i < name.len() implies #[trigger] name[i] != '.' by {
        assert(name[i] == extension[i - k - 1]);
    }
    lemma_last_dot(name, k);
    assert(name.skip(k + 1) =~= extension);
}

/// A name without a dot, or with one only at its begin, has no extension and is never removed.
pub proof fn names_without_extension_are_kept(name: Seq<char>, kind: FileKind)
    requires
        forall|i: int| 1 <= i < name.len() ==> #[trigger] name[i] != '.',
    ensures
        extension_of(name) is None,
        !is_of_kind(name, kind),
{
    if name.len() > 0 {
        if name[0] == '.' {
            lemma_last_dot(name, 0);
        } else {
            lemma_last_dot(name, -1);
        }
    }
}

/// Clearing removes every file of the kind and nothing else: no directory, and no file with
/// another extension.
pub proof fn clearing_removes_one_kind(entries: Seq<FolderEntry>, kind: FileKind, i: int)
    ensures
        removed(entries, kind).contains(i) <==> 0 <= i < entries.len() && entries[i].is_file
            && is_of_kind(entries[i].name@, kind),
    decreases entries.len(),
{
    if entries.len() > 0 {
        let shorter = entries.drop_last();
        clearing_removes_one_kind(shorter, kind, i);
        let all = removed(entries, kind);
        let before = removed(shorter, kind);
        if is_removed(entries.last(), kind) {
            assert(all[all.len() - 1] == entries.len() - 1);
            if before.contains(i) {
                let k = choose|k: int| 0 <= k < before.len() && before[k] == i;
                assert(all[k] == i);
            }
            if all.contains(i) && i != entries.len() - 1 {
                let k = choose|k: int| 0 <= k < all.len() && all[k] == i;
                assert(before[k] == i);
            }
        }
    }
}

} // verus!
