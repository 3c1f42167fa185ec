//! The processes of the machine, as an optimization sees them.

use crate::error::MemSparkError;
use crate::winapi::{ProcessQueryInfo, RawProcessInfo, WinApiError};
use vstd::prelude::*;

verus! {

/// What is known about one process.
#[derive(Debug)]
pub struct ProcessInfo {
    pub pid: u32,
    pub name: String,
    pub path: Option<String>,
    pub working_set: u64,
    pub private_usage: Option<u64>,
    pub is_foreground: bool,
    pub is_self: bool,
    pub query_error: Option<String>,
}

impl Clone for ProcessInfo {
    fn clone(&self) -> (r: ProcessInfo)
        ensures
            r == *self,
    {
        ProcessInfo {
            pid: self.pid,
            name: self.name.clone(),
            path: clone_text(&self.path),
            working_set: self.working_set,
            private_usage: self.private_usage,
            is_foreground: self.is_foreground,
            is_self: self.is_self,
            query_error: clone_text(&self.query_error),
        }
    }
}

/// Copies an optional text.
pub fn clone_text(value: &Option<String>) -> (r: Option<String>)
    ensures
        r == *value,
{
    match value {
        Some(t) => Some(t.clone()),
        None => None,
    }
}

/// A listed process and the reply to querying it.
#[derive(Debug)]
pub struct QueriedProcess {
    pub raw: RawProcessInfo,
    pub query: Result<ProcessQueryInfo, WinApiError>,
}

/// Whether `info` is what the listing and the query tell about a process.
pub open spec fn describes(
    info: ProcessInfo,
    listed: QueriedProcess,
    foreground: Option<u32>,
    current_pid: u32,
) -> bool {
    &&& info.pid == listed.raw.pid
    &&& info.name == listed.raw.name
    &&& info.is_foreground == (foreground == Some(listed.raw.pid))
    &&& info.is_self == (listed.raw.pid == current_pid)
    &&& match listed.query {
        Ok(query) => {
            &&& info.path == query.path
            &&& info.working_set == query.working_set
            &&& info.private_usage == query.private_usage
            &&& info.query_error is None
        },
        Err(error) => {
            &&& info.path is None
            &&& info.working_set == 0
            &&& info.private_usage is None
            &&& info.query_error matches Some(message)
            &&& message@ == error.described()
        },
    }
}

/// Puts together what is known about each listed process, in the order of the list. A
/// process that could not be queried is kept, with the reason.
pub fn enumerate_processes(
    listing: Result<Vec<QueriedProcess>, MemSparkError>,
    foreground: Result<Option<u32>, MemSparkError>,
    current_pid: u32,
) -> (r: Result<Vec<ProcessInfo>, MemSparkError>)
    ensures
        match listing {
            Err(error) => r == Err::<Vec<ProcessInfo>, MemSparkError>(error),
            Ok(listed) => r matches Ok(infos) && infos@.len() == listed@.len() && forall|i: int|
                0 <= i < infos@.len() ==> describes(
                    #[trigger] infos@[i],
                    listed@[i],
                    match foreground {
                        Ok(pid) => pid,
                        Err(_) => None,
                    },
                    current_pid,
                ),
        },
{
    let listed: Vec<QueriedProcess> = match listing {
        Err(error) => {
            return Err(error);
        },
        Ok(listed) => listed,
    };
    let foreground_pid: Option<u32> = match foreground {
        Ok(pid) => pid,
        Err(_) => None,
    };
    let mut infos: Vec<ProcessInfo> = Vec::with_capacity(listed.len());
    let mut i: usize = 0;
    while i < listed.len()
        invariant
            i <= listed@.len(),
            infos@.len() == i,
            forall|j: int|
                0 <= j < i ==> describes(
                    #[trigger] infos@[j],
                    listed@[j],
                    foreground_pid,
                    current_pid,
                ),
        decreases listed@.len() - i,
    {
        let raw: &RawProcessInfo = &listed[i].raw;
        let (path, working_set, private_usage, query_error): (
            Option<String>,
            u64,
            Option<u64>,
            Option<String>,
        ) = match &listed[i].query {
            Ok(query) => (clone_text(&query.path), query.working_set, query.private_usage, None),
            Err(error) => (None, 0, None, Some(error.to_text())),
        };
        let is_foreground: bool = match foreground_pid {
            Some(pid) => pid == raw.pid,
            None => false,
        };
        infos.push(
            ProcessInfo {
                pid: raw.pid,
                name: raw.name.clone(),
                path,
                working_set,
                private_usage,
                is_foreground,
                is_self: raw.pid == current_pid,
                query_error,
            },
        );
        i = i + 1;
    }
    Ok(infos)
}

/// What is known about a process: its number and name as listed, whether it is the program
/// itself or owns the foreground window, and what a query found. A query that failed leaves
/// nothing known but its error.
pub proof fn processes_are_described(
    info: ProcessInfo,
    listed: QueriedProcess,
    foreground: Option<u32>,
    current_pid: u32,
)
    requires
        describes(info, listed, foreground, current_pid),
    ensures
        info.pid == listed.raw.pid,
        info.name@ == listed.raw.name@,
        info.is_self <==> info.pid == current_pid,
        info.is_foreground <==> foreground is Some && foreground->0 == info.pid,
        listed.query matches Ok(query) ==> info.working_set == query.working_set
            && info.private_usage == query.private_usage && info.path == query.path,
        listed.query is Ok <==> info.query_error is None,
        listed.query matches Err(error) ==> info.working_set == 0 && info.private_usage is None
            && info.path is None && info.query_error->0@ == error.context@
            + " failed with Windows error "@ + crate::text::decimal(error.code as nat) + " ("@
            + error.message@ + ")"@,
{
}

} // verus!
