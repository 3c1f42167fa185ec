//! Opening processes and asking for their memory, with what is tried when a call fails.

use crate::process::clone_text;
use crate::winapi::{
    query_attempts, query_memory_attempts, working_set_attempts, OpenAttempt, ProcessQueryInfo,
    WinApiError,
};
use vstd::prelude::*;

verus! {

/// What follows from an attempt to open a process.
#[derive(Debug)]
pub enum OpenProgress {
    /// The process is open.
    Opened,
    /// The attempt with this number comes next.
    Retry(usize),
    /// No attempt is left.
    Failed(WinApiError),
}

/// What follows from the attempt with number `index` out of `count`: the next attempt, as long
/// as there is one, and otherwise the error of the last.
pub open spec fn after_opening(
    count: nat,
    index: int,
    result: Result<(), WinApiError>,
) -> OpenProgress {
    match result {
        Ok(_) => OpenProgress::Opened,
        Err(error) => if index + 1 < count {
            OpenProgress::Retry((index + 1) as usize)
        } else {
            OpenProgress::Failed(error)
        },
    }
}

/// Reads the reply to an attempt to open a process.
pub fn opening_progress(
    attempts: &Vec<OpenAttempt>,
    index: usize,
    result: Result<(), WinApiError>,
) -> (r: OpenProgress)
    requires
        index < attempts@.len(),
    ensures
        r == after_opening(attempts@.len(), index as int, result),
{
    let count: usize = attempts.len();
    match result {
        Ok(_) => OpenProgress::Opened,
        Err(error) => if index + 1 < count {
            OpenProgress::Retry(index + 1)
        } else {
            OpenProgress::Failed(error)
        },
    }
}

/// What is asked about a process.
#[derive(Debug, Clone, Copy, PartialEq, Eq, Structural)]
pub enum QueryKind {
    /// Its memory and the path of its program.
    Everything,
    /// Its working set.
    WorkingSet,
}

/// Where a query stands; the number is that of an attempt.
#[derive(Debug)]
pub enum QueryStage {
    /// The process is being opened.
    Opening(usize),
    /// Its memory is being read.
    Reading,
    /// Its memory could not be read; it is being opened with more rights.
    Reopening(usize),
    /// Its memory is being read again.
    Rereading,
    /// Its memory is known; the path of its program is being read.
    Naming(u64, Option<u64>),
    /// The query is over.
    Finished(Result<ProcessQueryInfo, WinApiError>),
}

/// What a query needs next.
#[derive(Debug, Clone, Copy)]
pub enum QueryAction {
    Open(OpenAttempt),
    ReadMemory,
    Reopen(OpenAttempt),
    RereadMemory,
    /// Read the path, with the rights of the first opening.
    ReadPath,
    Done,
}

/// The reply to what a query needed.
#[derive(Debug)]
pub enum QueryReply {
    Opened(Result<(), WinApiError>),
    /// The working set and the private memory.
    Memory(Result<(u64, Option<u64>), WinApiError>),
    /// The path, if it could be read.
    Path(Option<String>),
}

/// A query about a process.
#[derive(Debug)]
pub struct ProcessQueryRun {
    pub kind: QueryKind,
    pub stage: QueryStage,
}

/// Whether a query fails with `error`.
pub open spec fn fails_with(stage: QueryStage, error: WinApiError) -> bool {
    stage == QueryStage::Finished(Err(error))
}

impl ProcessQueryRun {
    /// Whether the query's parts fit together: each stage has as many attempts as there are
    /// ways to open.
    pub open spec fn well_formed(self) -> bool {
        match self.stage {
            QueryStage::Opening(k) => k < 2,
            QueryStage::Reopening(k) => k < 2,
            _ => true,
        }
    }

    /// Where the query stands once the memory is known.
    pub open spec fn with_memory(self, memory: (u64, Option<u64>), stage: QueryStage) -> bool {
        match self.kind {
            QueryKind::Everything => stage == QueryStage::Naming(memory.0, memory.1),
            QueryKind::WorkingSet => stage matches QueryStage::Finished(Ok(info)) && info.path
                is None && info.working_set == memory.0 && info.private_usage == memory.1,
        }
    }

    /// Whether the query stands at `stage` after `reply`. A reply that answers nothing changes
    /// nothing.
    pub open spec fn steps_to(self, reply: QueryReply, stage: QueryStage) -> bool {
        match (self.stage, reply) {
            (QueryStage::Opening(k), QueryReply::Opened(result)) => {
                match after_opening(2, k as int, result) {
                    OpenProgress::Opened => stage == QueryStage::Reading,
                    OpenProgress::Retry(next) => stage == QueryStage::Opening(next),
                    OpenProgress::Failed(error) => fails_with(stage, error),
                }
            },
            (QueryStage::Reading, QueryReply::Memory(Ok(memory))) => self.with_memory(
                memory,
                stage,
            ),
            (QueryStage::Reading, QueryReply::Memory(Err(_))) => {
                stage == QueryStage::Reopening(0)
            },
            (QueryStage::Reopening(k), QueryReply::Opened(result)) => {
                match after_opening(2, k as int, result) {
                    OpenProgress::Opened => stage == QueryStage::Rereading,
                    OpenProgress::Retry(next) => stage == QueryStage::Reopening(next),
                    OpenProgress::Failed(error) => fails_with(stage, error),
                }
            },
            (QueryStage::Rereading, QueryReply::Memory(Ok(memory))) => self.with_memory(
                memory,
                stage,
            ),
            (QueryStage::Rereading, QueryReply::Memory(Err(error))) => fails_with(stage, error),
            (QueryStage::Naming(working_set, private_usage), QueryReply::Path(path)) => {
                &&& stage matches QueryStage::Finished(Ok(info))
                &&& info.path == path
                &&& info.working_set == working_set
                &&& info.private_usage == private_usage
            },
            _ => stage == self.stage,
        }
    }

    /// The ways to open the process again.
    fn reopening_attempts(&self) -> (r: Vec<OpenAttempt>)
        ensures
            r@.len() == 2,
            r@ == match self.kind {
                QueryKind::Everything => seq![
                    OpenAttempt { access: 0x0410, context: "OpenProcess(query memory)" },
                    OpenAttempt { access: 0x0400, context: "OpenProcess(query)" },
                ],
                QueryKind::WorkingSet => seq![
                    OpenAttempt { access: 0x0410, context: "OpenProcess(query working set memory)" },
                    OpenAttempt { access: 0x0400, context: "OpenProcess(query working set)" },
                ],
            },
    {
        match self.kind {
            QueryKind::Everything => query_memory_attempts(),
            QueryKind::WorkingSet => working_set_attempts(),
        }
    }

    /// Tells what the query needs next.
    pub fn next_action(&self) -> (r: QueryAction)
        requires
            self.well_formed(),
        ensures
            match self.stage {
                QueryStage::Opening(k) => r == QueryAction::Open(
                    if k == 0 {
                        OpenAttempt { access: 0x1000, context: "OpenProcess(query limited)" }
                    } else {
                        OpenAttempt { access: 0x0400, context: "OpenProcess(query)" }
                    },
                ),
                QueryStage::Reading => r is ReadMemory,
                QueryStage::Reopening(k) => r matches QueryAction::Reopen(attempt) && attempt.access
                    == (if k == 0 {
                    0x0410u32
                } else {
                    0x0400u32
                }) && attempt.context == match self.kind {
                    QueryKind::Everything => if k == 0 {
                        "OpenProcess(query memory)"
                    } else {
                        "OpenProcess(query)"
                    },
                    QueryKind::WorkingSet => if k == 0 {
                        "OpenProcess(query working set memory)"
                    } else {
                        "OpenProcess(query working set)"
                    },
                },
                QueryStage::Rereading => r is RereadMemory,
                QueryStage::Naming(_, _) => r is ReadPath,
                QueryStage::Finished(_) => r is Done,
            },
    {
        match &self.stage {
            QueryStage::Opening(k) => QueryAction::Open(query_attempts()[*k]),
            QueryStage::Reading => QueryAction::ReadMemory,
            QueryStage::Reopening(k) => QueryAction::Reopen(self.reopening_attempts()[*k]),
            QueryStage::Rereading => QueryAction::RereadMemory,
            QueryStage::Naming(_, _) => QueryAction::ReadPath,
            QueryStage::Finished(_) => QueryAction::Done,
        }
    }

    /// Goes on once the memory is known.
    fn take_memory(kind: QueryKind, memory: (u64, Option<u64>)) -> (r: QueryStage)
        ensures
            (ProcessQueryRun { kind, stage: QueryStage::Reading }).with_memory(memory, r),
    {
        match kind {
            QueryKind::Everything => QueryStage::Naming(memory.0, memory.1),
            QueryKind::WorkingSet => QueryStage::Finished(
                Ok(
                    ProcessQueryInfo {
                        path: None,
                        working_set: memory.0,
                        private_usage: memory.1,
                    },
                ),
            ),
        }
    }

    /// Takes in the reply to what the query needed.
    pub fn step(self, reply: QueryReply) -> (next: ProcessQueryRun)
        requires
            self.well_formed(),
        ensures
            next.kind == self.kind,
            self.steps_to(reply, next.stage),
            next.well_formed(),
    {
        let kind: QueryKind = self.kind;
        let reopening: Vec<OpenAttempt> = self.reopening_attempts();
        let stage: QueryStage = match (self.stage, reply) {
            (QueryStage::Opening(k), QueryReply::Opened(result)) => {
                match opening_progress(&query_attempts(), k, result) {
                    OpenProgress::Opened => QueryStage::Reading,
                    OpenProgress::Retry(next) => QueryStage::Opening(next),
                    OpenProgress::Failed(error) => QueryStage::Finished(Err(error)),
                }
            },
            (QueryStage::Reading, QueryReply::Memory(Ok(memory))) => Self::take_memory(kind, memory),
            (QueryStage::Reading, QueryReply::Memory(Err(_))) => QueryStage::Reopening(0),
            (QueryStage::Reopening(k), QueryReply::Opened(result)) => {
                match opening_progress(&reopening, k, result) {
                    OpenProgress::Opened => QueryStage::Rereading,
                    OpenProgress::Retry(next) => QueryStage::Reopening(next),
                    OpenProgress::Failed(error) => QueryStage::Finished(Err(error)),
                }
            },
            (QueryStage::Rereading, QueryReply::Memory(Ok(memory))) => {
                Self::take_memory(kind, memory)
            },
            (QueryStage::Rereading, QueryReply::Memory(Err(error))) => {
                QueryStage::Finished(Err(error))
            },
            (QueryStage::Naming(working_set, private_usage), QueryReply::Path(path)) => {
                QueryStage::Finished(
                    Ok(
                        ProcessQueryInfo { path: clone_text(&path), working_set, private_usage },
                    ),
                )
            },
            (stage, _) => stage,
        };
        ProcessQueryRun { kind, stage }
    }

    /// Gives what the query has found out; nothing while it is under way.
    pub fn finish(self) -> (r: Option<Result<ProcessQueryInfo, WinApiError>>)
        ensures
            r == match self.stage {
                QueryStage::Finished(result) => Some(result),
                _ => None,
            },
    {
        match self.stage {
            QueryStage::Finished(result) => Some(result),
            _ => None,
        }
    }
}

/// Starts a query.
pub fn begin_query(kind: QueryKind) -> (r: ProcessQueryRun)
    ensures
        r.well_formed(),
        r.kind == kind,
        r.stage == QueryStage::Opening(0),
{
    ProcessQueryRun { kind, stage: QueryStage::Opening(0) }
}

impl ProcessQueryRun {
    /// Whether `reply` answers what the query needs next.
    pub open spec fn expects(self, reply: QueryReply) -> bool {
        match self.stage {
            QueryStage::Opening(_) => reply is Opened,
            QueryStage::Reading => reply is Memory,
            QueryStage::Reopening(_) => reply is Opened,
            QueryStage::Rereading => reply is Memory,
            QueryStage::Naming(_, _) => reply is Path,
            QueryStage::Finished(_) => false,
        }
    }

    /// How many replies the query can still take in, at most.
    pub open spec fn work_left(self) -> int {
        match self.stage {
            QueryStage::Opening(k) => 8 - k,
            QueryStage::Reading => 6,
            QueryStage::Reopening(k) => 5 - k,
            QueryStage::Rereading => 3,
            QueryStage::Naming(_, _) => 2,
            QueryStage::Finished(_) => 0,
        }
    }
}

/// A query ends: every reply that it expects brings it nearer to its end.
pub proof fn query_ends(run: ProcessQueryRun, reply: QueryReply, next: ProcessQueryRun)
    requires
        run.well_formed(),
        run.expects(reply),
        next.kind == run.kind,
        run.steps_to(reply, next.stage),
    ensures
        0 <= next.work_left() < run.work_left(),
{
}

/// How a process is opened: after a failed attempt the next is made, and after the last the
/// query fails with its error.
pub proof fn every_way_to_open_is_tried(
    run: ProcessQueryRun,
    result: Result<(), WinApiError>,
    stage: QueryStage,
    k: usize,
)
    requires
        run.well_formed(),
        run.steps_to(QueryReply::Opened(result), stage),
    ensures
        run.stage == QueryStage::Opening(k) ==> {
            &&& result is Ok ==> stage == QueryStage::Reading
            &&& result is Err && k == 0 ==> stage == QueryStage::Opening(1)
            &&& result is Err && k == 1 ==> stage == QueryStage::Finished(
                Err::<ProcessQueryInfo, WinApiError>(result->Err_0),
            )
        },
        run.stage == QueryStage::Reopening(k) ==> {
            &&& result is Ok ==> stage == QueryStage::Rereading
            &&& result is Err && k == 0 ==> stage == QueryStage::Reopening(1)
            &&& result is Err && k == 1 ==> stage == QueryStage::Finished(
                Err::<ProcessQueryInfo, WinApiError>(result->Err_0),
            )
        },
{
}

/// Memory that could not be read is read again with more rights; a second failure is final.
/// What was read is what the query finds, with the path of the program where that is asked
/// for.
pub proof fn memory_is_read_twice_at_most(
    run: ProcessQueryRun,
    memory: Result<(u64, Option<u64>), WinApiError>,
    stage: QueryStage,
)
    requires
        run.well_formed(),
        run.steps_to(QueryReply::Memory(memory), stage),
        run.stage is Reading || run.stage is Rereading,
    ensures
        run.stage is Reading && memory is Err ==> stage == QueryStage::Reopening(0),
        run.stage is Rereading && memory is Err ==> stage == QueryStage::Finished(
            Err::<ProcessQueryInfo, WinApiError>(memory->Err_0),
        ),
        memory matches Ok(sizes) ==> {
            &&& run.kind == QueryKind::Everything ==> stage == QueryStage::Naming(
                sizes.0,
                sizes.1,
            )
            &&& run.kind == QueryKind::WorkingSet ==> {
                &&& stage matches QueryStage::Finished(Ok(info))
                &&& info.working_set == sizes.0
                &&& info.private_usage == sizes.1
                &&& info.path is None
            }
        },
{
}

/// A path that could not be read does not keep what is known from being found.
pub proof fn paths_are_optional(
    run: ProcessQueryRun,
    working_set: u64,
    private_usage: Option<u64>,
    path: Option<String>,
    stage: QueryStage,
)
    requires
        run.stage == QueryStage::Naming(working_set, private_usage),
        run.steps_to(QueryReply::Path(path), stage),
    ensures
        stage matches QueryStage::Finished(Ok(info)) && info.working_set == working_set
            && info.private_usage == private_usage && info.path == path,
{
}

} // verus!
