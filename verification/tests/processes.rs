use memspark::process::{enumerate_processes, QueriedProcess};
use memspark::winapi::{ProcessQueryInfo, RawProcessInfo, WinApiError};
use memspark::MemSparkError;

fn listed(pid: u32, query: Result<ProcessQueryInfo, WinApiError>) -> QueriedProcess {
    QueriedProcess { raw: RawProcessInfo { pid, name: format!("p{pid}.exe") }, query }
}

#[test]
fn listed_processes_keep_their_order() {
    let known = ProcessQueryInfo {
        path: Some("C:\\p7.exe".to_owned()),
        working_set: 70,
        private_usage: Some(7),
    };
    let denied = WinApiError {
        context: "OpenProcess(query)",
        code: 5,
        message: "denied".to_owned(),
    };
    let infos = enumerate_processes(
        Ok(vec![listed(8, Err(denied)), listed(7, Ok(known))]),
        Ok(Some(7)),
        8,
    )
    .unwrap();
    assert_eq!((infos[0].pid, infos[0].name.as_str(), infos[0].working_set), (8, "p8.exe", 0));
    assert!(infos[0].is_self && !infos[0].is_foreground);
    assert_eq!(
        infos[0].query_error.as_deref(),
        Some("OpenProcess(query) failed with Windows error 5 (denied)")
    );
    assert_eq!(infos[0].path, None);
    assert_eq!((infos[1].working_set, infos[1].private_usage), (70, Some(7)));
    assert_eq!(infos[1].path.as_deref(), Some("C:\\p7.exe"));
    assert!(!infos[1].is_self && infos[1].is_foreground);
    assert_eq!(infos[1].query_error, None);
}

#[test]
fn an_unknown_foreground_marks_nothing() {
    let known = ProcessQueryInfo { path: None, working_set: 1, private_usage: None };
    let infos = enumerate_processes(
        Ok(vec![listed(7, Ok(known))]),
        Err(MemSparkError::WinApi("x".to_owned())),
        1,
    )
    .unwrap();
    assert!(!infos[0].is_foreground);
    let failed = enumerate_processes(
        Err(MemSparkError::WinApi("list".to_owned())),
        Ok(None),
        1,
    );
    assert_eq!(failed.unwrap_err().to_text(), "Windows API error: list");
}
