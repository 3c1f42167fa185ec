//! What the command line prints.

use crate::error::MemSparkError;
use crate::memory::{load_text, MemorySnapshot};
use crate::report_text;
use crate::report_text::format_gb;
use crate::text;
use vstd::prelude::*;

verus! {

/// The text of the status command.
pub open spec fn status_lines(snapshot: MemorySnapshot, enumerated: nat) -> Seq<char> {
    "MemSpark Status\n"@ + "Physical Used: "@ + report_text::gb(snapshot.used()) + " / "@
        + report_text::gb(snapshot.total_physical as nat) + " ("@ + snapshot.load_tenths()
        + "%)\n"@ + "Available:     "@ + report_text::gb(snapshot.available_physical as nat) + "\n"@
        + "System Cache:  "@ + report_text::gb(snapshot.system_cache as nat) + "\n"@
        + "Commit:        "@ + report_text::gb(snapshot.commit_total as nat) + " / "@
        + report_text::gb(snapshot.commit_limit as nat) + "\n"@ + "Processes:     "@
        + text::decimal(snapshot.process_count as nat) + " (enumerated: "@ + text::decimal(
        enumerated,
    ) + ")\n"@
}

/// Writes the text of the status command.
pub fn status(snapshot: &MemorySnapshot, enumerated: usize) -> (r: String)
    ensures
        r@ == status_lines(*snapshot, enumerated as nat),
{
    let mut r: String = "MemSpark Status\n".to_owned();
    r.append("Physical Used: ");
    r.append(format_gb(snapshot.used_physical()).as_str());
    r.append(" / ");
    r.append(format_gb(snapshot.total_physical).as_str());
    r.append(" (");
    r.append(load_text(snapshot).as_str());
    r.append("%)\n");
    r.append("Available:     ");
    r.append(format_gb(snapshot.available_physical).as_str());
    r.append("\n");
    r.append("System Cache:  ");
    r.append(format_gb(snapshot.system_cache).as_str());
    r.append("\n");
    r.append("Commit:        ");
    r.append(format_gb(snapshot.commit_total).as_str());
    r.append(" / ");
    r.append(format_gb(snapshot.commit_limit).as_str());
    r.append("\n");
    r.append("Processes:     ");
    r.append(text::decimal_text(snapshot.process_count as u128).as_str());
    r.append(" (enumerated: ");
    r.append(text::decimal_text(enumerated as u128).as_str());
    r.append(")\n");
    r
}

/// Reads the exit code of an optimization that ran as an administrator.
pub fn elevated_outcome(exit_code: u32) -> (r: Result<(), MemSparkError>)
    ensures
        exit_code == 0 ==> r == Ok::<(), MemSparkError>(()),
        exit_code != 0 ==> (r matches Err(MemSparkError::WinApi(message)) && message@
            == "elevated memory optimization exited with code "@ + text::decimal(exit_code as nat)),
{
    if exit_code == 0 {
        return Ok(());
    }
    let mut message: String = "elevated memory optimization exited with code ".to_owned();
    message.append(text::decimal_text(exit_code as u128).as_str());
    Err(MemSparkError::WinApi(message))
}

/// What was to be saved.
#[derive(Debug, Clone, Copy, PartialEq, Eq, Structural)]
pub enum Artifact {
    Report,
    DeveloperLog,
}

/// A line for the standard output, a line for the error output, or none.
#[derive(Debug)]
pub enum Announcement {
    Output(String),
    Warning(String),
    Nothing,
}

impl Announcement {
    /// Whether this is what is said of how saving ended.
    pub open spec fn tells(
        self,
        artifact: Artifact,
        saved: Result<Option<String>, MemSparkError>,
    ) -> bool {
        match saved {
            Ok(Some(path)) => self matches Announcement::Output(line) && line@ == (match artifact {
                Artifact::Report => "Report saved: "@,
                Artifact::DeveloperLog => "Developer log saved: "@,
            }) + path@,
            Ok(None) => self is Nothing,
            Err(error) => self matches Announcement::Warning(line) && line@ == (match artifact {
                Artifact::Report => "warning: report was generated but could not be saved: "@,
                Artifact::DeveloperLog => "warning: developer log could not be saved: "@,
            }) + error.described(),
        }
    }
}

/// Puts into words how saving ended; nothing is said about what was not to be saved.
pub fn save_report_artifacts(
    artifact: Artifact,
    saved: &Result<Option<String>, MemSparkError>,
) -> (r: Announcement)
    ensures
        r.tells(artifact, *saved),
{
    match saved {
        Ok(Some(path)) => {
            let mut line: String = match artifact {
                Artifact::Report => "Report saved: ".to_owned(),
                Artifact::DeveloperLog => "Developer log saved: ".to_owned(),
            };
            line.append(path.as_str());
            Announcement::Output(line)
        },
        Ok(None) => Announcement::Nothing,
        Err(error) => {
            let mut line: String = match artifact {
                Artifact::Report =>
                    "warning: report was generated but could not be saved: ".to_owned(),
                Artifact::DeveloperLog => "warning: developer log could not be saved: ".to_owned(),
            };
            line.append(error.to_text().as_str());
            Announcement::Warning(line)
        },
    }
}

/// What the command that sets up a configuration says.
pub open spec fn ready_words(path: Seq<char>, force: bool, existed: bool) -> Seq<char> {
    "Config ready: "@ + path + "\n"@ + (if !force && existed {
        "Existing config was kept. Use --force to overwrite with defaults.\n"@
    } else {
        ""@
    })
}

/// Writes what the command that sets up a configuration says.
pub fn config_init_text(path: &str, force: bool, existed: bool) -> (r: String)
    ensures
        r@ == ready_words(path@, force, existed),
{
    let mut r: String = "Config ready: ".to_owned();
    r.append(path);
    r.append("\n");
    r.append(
        if !force && existed {
            "Existing config was kept. Use --force to overwrite with defaults.\n"
        } else {
            ""
        },
    );
    r
}

/// What the command that shows a configuration says.
pub open spec fn shown_words(toml: Seq<char>, default_path: Option<Seq<char>>) -> Seq<char> {
    toml + "\n"@ + (match default_path {
        Some(path) => "# Default path: "@ + path + "\n"@,
        None => ""@,
    })
}

/// Writes what the command that shows a configuration says, given the configuration as TOML
/// and, where none was named, the path of the default one.
pub fn config_show_text(toml: &str, default_path: Option<&str>) -> (r: String)
    ensures
        r@ == shown_words(
            toml@,
            match default_path {
                Some(path) => Some(path@),
                None => None,
            },
        ),
{
    let mut r: String = toml.to_owned();
    r.append("\n");
    let line: String = match default_path {
        Some(path) => {
            let mut line: String = "# Default path: ".to_owned();
            line.append(path);
            line.append("\n");
            line
        },
        None => "".to_owned(),
    };
    r.append(line.as_str());
    r
}

/// Lines that follow upon one another are all in the whole.
proof fn lemma_status_shows_every_figure(used: Seq<char>, total: Seq<char>, load: Seq<char>, available: Seq<char>, cache: Seq<char>, committed: Seq<char>, limit: Seq<char>, processes: Seq<char>, listed: Seq<char>)
    ensures
        text::contains("MemSpark Status\n"@ + "Physical Used: "@ + used + " / "@ + total + " ("@ + load + "%)\n"@ + "Available:     "@ + available + "\n"@ + "System Cache:  "@ + cache + "\n"@ + "Commit:        "@ + committed + " / "@ + limit + "\n"@ + "Processes:     "@ + processes + " (enumerated: "@ + listed + ")\n"@, "Physical Used: "@ + used + " / "@ + total + " ("@ + load + "%)\n"@),
        text::contains("MemSpark Status\n"@ + "Physical Used: "@ + used + " / "@ + total + " ("@ + load + "%)\n"@ + "Available:     "@ + available + "\n"@ + "System Cache:  "@ + cache + "\n"@ + "Commit:        "@ + committed + " / "@ + limit + "\n"@ + "Processes:     "@ + processes + " (enumerated: "@ + listed + ")\n"@, "Available:     "@ + available + "\n"@),
        text::contains("MemSpark Status\n"@ + "Physical Used: "@ + used + " / "@ + total + " ("@ + load + "%)\n"@ + "Available:     "@ + available + "\n"@ + "System Cache:  "@ + cache + "\n"@ + "Commit:        "@ + committed + " / "@ + limit + "\n"@ + "Processes:     "@ + processes + " (enumerated: "@ + listed + ")\n"@, "System Cache:  "@ + cache + "\n"@),
        text::contains("MemSpark Status\n"@ + "Physical Used: "@ + used + " / "@ + total + " ("@ + load + "%)\n"@ + "Available:     "@ + available + "\n"@ + "System Cache:  "@ + cache + "\n"@ + "Commit:        "@ + committed + " / "@ + limit + "\n"@ + "Processes:     "@ + processes + " (enumerated: "@ + listed + ")\n"@, "Commit:        "@ + committed + " / "@ + limit + "\n"@),
        text::contains("MemSpark Status\n"@ + "Physical Used: "@ + used + " / "@ + total + " ("@ + load + "%)\n"@ + "Available:     "@ + available + "\n"@ + "System Cache:  "@ + cache + "\n"@ + "Commit:        "@ + committed + " / "@ + limit + "\n"@ + "Processes:     "@ + processes + " (enumerated: "@ + listed + ")\n"@, "Processes:     "@ + processes + " (enumerated: "@ + listed + ")\n"@),
{
    let line0 = "MemSpark Status\n"@;
    let line1 = "Physical Used: "@ + used + " / "@ + total + " ("@ + load + "%)\n"@;
    let line2 = "Available:     "@ + available + "\n"@;
    let line3 = "System Cache:  "@ + cache + "\n"@;
    let line4 = "Commit:        "@ + committed + " / "@ + limit + "\n"@;
    let line5 = "Processes:     "@ + processes + " (enumerated: "@ + listed + ")\n"@;
    let upto0 = line0;
    text::appending_keeps_contents(Seq::empty(), line0);
    assert(Seq::<char>::empty() + line0 =~= upto0);
    let upto1 = upto0 + line1;
    assert(upto0 + "Physical Used: "@ + used + " / "@ + total + " ("@ + load + "%)\n"@ =~= upto1);
    text::appending_keeps_contents(upto0, line1);
    let upto2 = upto1 + line2;
    assert(upto1 + "Available:     "@ + available + "\n"@ =~= upto2);
    text::appending_keeps_contents(upto1, line2);
    let upto3 = upto2 + line3;
    assert(upto2 + "System Cache:  "@ + cache + "\n"@ =~= upto3);
    text::appending_keeps_contents(upto2, line3);
    let upto4 = upto3 + line4;
    assert(upto3 + "Commit:        "@ + committed + " / "@ + limit + "\n"@ =~= upto4);
    text::appending_keeps_contents(upto3, line4);
    let upto5 = upto4 + line5;
    assert(upto4 + "Processes:     "@ + processes + " (enumerated: "@ + listed + ")\n"@ =~= upto5);
    text::appending_keeps_contents(upto4, line5);
    assert("MemSpark Status\n"@ + "Physical Used: "@ + used + " / "@ + total + " ("@ + load + "%)\n"@ + "Available:     "@ + available + "\n"@ + "System Cache:  "@ + cache + "\n"@ + "Commit:        "@ + committed + " / "@ + limit + "\n"@ + "Processes:     "@ + processes + " (enumerated: "@ + listed + ")\n"@ == upto5);
}

/// The status shows what is in use of all there is, with the load, what is available, the
/// cache, the committed memory, and the number of processes.
pub proof fn status_shows_every_figure(snapshot: MemorySnapshot, enumerated: nat)
    ensures
        text::contains(status_lines(snapshot, enumerated), "Physical Used: "@ + report_text::gb(snapshot.used()) + " / "@ + report_text::gb(snapshot.total_physical as nat) + " ("@ + snapshot.load_tenths() + "%)\n"@),
        text::contains(status_lines(snapshot, enumerated), "Available:     "@ + report_text::gb(snapshot.available_physical as nat) + "\n"@),
        text::contains(status_lines(snapshot, enumerated), "System Cache:  "@ + report_text::gb(snapshot.system_cache as nat) + "\n"@),
        text::contains(status_lines(snapshot, enumerated), "Commit:        "@ + report_text::gb(snapshot.commit_total as nat) + " / "@ + report_text::gb(snapshot.commit_limit as nat) + "\n"@),
        text::contains(status_lines(snapshot, enumerated), "Processes:     "@ + text::decimal(snapshot.process_count as nat) + " (enumerated: "@ + text::decimal(enumerated) + ")\n"@),
{
    lemma_status_shows_every_figure(report_text::gb(snapshot.used()), report_text::gb(snapshot.total_physical as nat), snapshot.load_tenths(), report_text::gb(snapshot.available_physical as nat), report_text::gb(snapshot.system_cache as nat), report_text::gb(snapshot.commit_total as nat), report_text::gb(snapshot.commit_limit as nat), text::decimal(snapshot.process_count as nat), text::decimal(enumerated));
}

/// What was saved is told on the standard output with its path, what was not on the error output
/// with its error, and of what was not to be saved nothing is said.
pub proof fn saving_is_announced(
    said: Announcement,
    artifact: Artifact,
    saved: Result<Option<String>, MemSparkError>,
)
    requires
        said.tells(artifact, saved),
    ensures
        said is Output <==> saved is Ok && saved->Ok_0 is Some,
        said is Warning <==> saved is Err,
        said is Nothing <==> saved is Ok && saved->Ok_0 is None,
        artifact is Report && said is Output ==> said->Output_0@ == "Report saved: "@
            + saved->Ok_0->0@,
        artifact is DeveloperLog && said is Output ==> said->Output_0@ == "Developer log saved: "@
            + saved->Ok_0->0@,
        artifact is Report && said is Warning ==> said->Warning_0@
            == "warning: report was generated but could not be saved: "@
            + saved->Err_0.described(),
        artifact is DeveloperLog && said is Warning ==> said->Warning_0@
            == "warning: developer log could not be saved: "@ + saved->Err_0.described(),
{
}

/// A configuration that was there and not to be overwritten was kept, which is said. A
/// configuration that is shown from the default place is shown with that place.
pub proof fn configurations_are_told(path: Seq<char>, toml: Seq<char>, force: bool, existed: bool)
    ensures
        existed && !force ==> ready_words(path, force, existed) == "Config ready: "@ + path
            + "\n"@ + "Existing config was kept. Use --force to overwrite with defaults.\n"@,
        !existed || force ==> ready_words(path, force, existed) == "Config ready: "@ + path
            + "\n"@,
        shown_words(toml, None) == toml + "\n"@,
        shown_words(toml, Some(path)) == toml + "\n"@ + ("# Default path: "@ + path + "\n"@),
{
    reveal_strlit("");
    assert("Config ready: "@ + path + "\n"@ + ""@ =~= "Config ready: "@ + path + "\n"@);
    assert(toml + "\n"@ + ""@ =~= toml + "\n"@);
}

} // verus!
