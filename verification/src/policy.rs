//! What an optimization may touch: the mode, the trimming policy, the reasons to leave a
//! process alone, and the process names that have a special standing.

use crate::text;
use vstd::prelude::*;

verus! {

/// The way memory is optimized. There is exactly one.
#[derive(Debug, Clone, Copy, PartialEq, Eq, Structural)]
pub enum OptimizeMode {
    MemoryOptimization,
}

/// The spellings under which the mode is known, in lower case.
pub open spec fn mode_spellings() -> Seq<Seq<char>> {
    seq![
        "memory"@,
        "memory_optimization"@,
        "memory-optimization"@,
        "optimize"@,
        "optimization"@,
        "内存优化"@,
        "normal"@,
        "strong"@,
    ]
}

impl OptimizeMode {
    /// The identifier of the mode.
    pub fn as_str(self) -> (r: &'static str)
        ensures
            r@ == "memory_optimization"@,
    {
        match self {
            OptimizeMode::MemoryOptimization => "memory_optimization",
        }
    }

    /// The name under which the mode is shown.
    pub fn display_name(self) -> (r: &'static str)
        ensures
            r@ == "内存优化"@,
    {
        match self {
            OptimizeMode::MemoryOptimization => "内存优化",
        }
    }

    /// Writes the name under which the mode is shown.
    pub fn to_text(&self) -> (r: String)
        ensures
            r@ == "内存优化"@,
    {
        self.display_name().to_owned()
    }

    /// Reads a mode; surrounding white space and letter case do not matter.
    pub fn from_str(value: &str) -> (r: Result<OptimizeMode, String>)
        ensures
            match r {
                Ok(mode) => mode_spellings().contains(text::lowered(text::trimmed(value@))),
                Err(message) => !mode_spellings().contains(text::lowered(text::trimmed(value@)))
                    && message@ == "unsupported optimize mode: "@ + text::lowered(
                    text::trimmed(value@),
                ),
            },
    {
        let trimmed: String = text::trim_text(value);
        let spelling: String = text::lower_text(trimmed.as_str());
        let known: &[&str] = &[
            "memory",
            "memory_optimization",
            "memory-optimization",
            "optimize",
            "optimization",
            "内存优化",
            "normal",
            "strong",
        ];
        let ghost names = slice_views(known@);
        assert(names =~= mode_spellings());
        let mut i: usize = 0;
        while i < known.len()
            invariant
                i <= known@.len(),
                names == slice_views(known@),
                names == mode_spellings(),
                spelling@ == text::lowered(text::trimmed(value@)),
                forall|j: int| 0 <= j < i ==> spelling@ != #[trigger] names[j],
            decreases known@.len() - i,
        {
            assert(names[i as int] == known@[i as int]@);
            if text::same_text(known[i], spelling.as_str()) {
                return Ok(OptimizeMode::MemoryOptimization);
            }
            i = i + 1;
        }
        let mut message: String = "unsupported optimize mode: ".to_owned();
        message.append(spelling.as_str());
        Err(message)
    }
}

impl std::str::FromStr for OptimizeMode {
    type Err = String;

    fn from_str(value: &str) -> (r: Result<OptimizeMode, String>)
        ensures
            r is Ok == mode_spellings().contains(text::lowered(text::trimmed(value@))),
            r matches Err(message) ==> message@ == "unsupported optimize mode: "@ + text::lowered(
                text::trimmed(value@),
            ),
    {
        OptimizeMode::from_str(value)
    }
}

/// The mode is known by its identifier and by the name under which it is shown.
pub proof fn mode_names_are_understood()
    ensures
        mode_spellings().contains(text::lowered(text::trimmed("memory_optimization"@))),
        mode_spellings().contains(text::lowered(text::trimmed("内存优化"@))),
{
    reveal_strlit("memory_optimization");
    reveal_strlit("内存优化");
    assert(text::trimmed("memory_optimization"@) == "memory_optimization"@);
    assert(text::lowered("memory_optimization"@) =~= "memory_optimization"@);
    assert(mode_spellings()[1] == "memory_optimization"@);
    assert(text::trimmed("内存优化"@) == "内存优化"@);
    assert(text::lowered("内存优化"@) =~= "内存优化"@);
    assert(mode_spellings()[5] == "内存优化"@);
}

/// The system call that trims a working set.
#[derive(Debug, Clone, Copy, PartialEq, Eq, Structural)]
pub enum TrimMethod {
    EmptyWorkingSet,
    SetProcessWorkingSetSizeEx,
}

impl Default for TrimMethod {
    fn default() -> (r: TrimMethod)
        ensures
            r == TrimMethod::EmptyWorkingSet,
    {
        TrimMethod::EmptyWorkingSet
    }
}

impl TrimMethod {
    /// The name of the call.
    pub fn to_text(&self) -> (r: String)
        ensures
            r@ == match *self {
                TrimMethod::EmptyWorkingSet => "EmptyWorkingSet"@,
                TrimMethod::SetProcessWorkingSetSizeEx => "SetProcessWorkingSetSizeEx"@,
            },
    {
        match self {
            TrimMethod::EmptyWorkingSet => "EmptyWorkingSet".to_owned(),
            TrimMethod::SetProcessWorkingSetSizeEx => "SetProcessWorkingSetSizeEx".to_owned(),
        }
    }
}

/// How working sets are trimmed and which processes are left alone.
#[derive(Debug, Clone, Copy)]
pub struct ModePolicy {
    pub min_working_set_mb: u64,
    pub skip_foreground: bool,
    pub skip_system_process: bool,
    pub skip_self: bool,
    pub skip_high_cpu: bool,
    pub high_cpu_threshold_percent: u32,
    pub skip_high_io: bool,
    pub max_rounds: u32,
    pub round_delay_ms: u64,
    pub require_admin: bool,
    pub trim_method: TrimMethod,
    pub allow_trim_explorer: bool,
    pub allow_trim_browser: bool,
}

/// The policy of the one mode.
pub open spec fn default_policy() -> ModePolicy {
    ModePolicy {
        min_working_set_mb: 10,
        skip_foreground: true,
        skip_system_process: true,
        skip_self: true,
        skip_high_cpu: true,
        high_cpu_threshold_percent: 100,
        skip_high_io: true,
        max_rounds: 5,
        round_delay_ms: 150,
        require_admin: true,
        trim_method: TrimMethod::EmptyWorkingSet,
        allow_trim_explorer: false,
        allow_trim_browser: true,
    }
}

impl ModePolicy {
    /// The smallest working set that is trimmed, in bytes.
    pub open spec fn floor_bytes(self) -> nat {
        crate::memory::saturated(self.min_working_set_mb as nat * 1048576)
    }

    /// The policy of the one mode.
    pub fn memory_optimization() -> (r: ModePolicy)
        ensures
            r == default_policy(),
    {
        ModePolicy {
            min_working_set_mb: 10,
            skip_foreground: true,
            skip_system_process: true,
            skip_self: true,
            skip_high_cpu: true,
            high_cpu_threshold_percent: 100,
            skip_high_io: true,
            max_rounds: 5,
            round_delay_ms: 150,
            require_admin: true,
            trim_method: TrimMethod::EmptyWorkingSet,
            allow_trim_explorer: false,
            allow_trim_browser: true,
        }
    }

    /// The smallest working set that is trimmed, in bytes.
    pub fn min_working_set_bytes(&self) -> (r: u64)
        ensures
            r == self.floor_bytes(),
    {
        crate::memory::saturating_product(self.min_working_set_mb, 1048576)
    }
}

/// Why a process was left alone.
#[derive(Debug)]
pub enum SkipReason {
    SystemProcess,
    SelfProcess,
    ForegroundProcess,
    SystemBoundaryProcess,
    LegacyRecommendedRule,
    LegacyUserRule,
    WorkingSetTooSmall,
    AccessDenied,
    OpenProcessFailed,
    QueryFailed,
    ProcessExited,
    HighCpuUsage,
    HighIoActivity,
    Other(String),
}

impl Clone for SkipReason {
    fn clone(&self) -> (r: SkipReason)
        ensures
            r == *self,
    {
        match self {
            SkipReason::SystemProcess => SkipReason::SystemProcess,
            SkipReason::SelfProcess => SkipReason::SelfProcess,
            SkipReason::ForegroundProcess => SkipReason::ForegroundProcess,
            SkipReason::SystemBoundaryProcess => SkipReason::SystemBoundaryProcess,
            SkipReason::LegacyRecommendedRule => SkipReason::LegacyRecommendedRule,
            SkipReason::LegacyUserRule => SkipReason::LegacyUserRule,
            SkipReason::WorkingSetTooSmall => SkipReason::WorkingSetTooSmall,
            SkipReason::AccessDenied => SkipReason::AccessDenied,
            SkipReason::OpenProcessFailed => SkipReason::OpenProcessFailed,
            SkipReason::QueryFailed => SkipReason::QueryFailed,
            SkipReason::ProcessExited => SkipReason::ProcessExited,
            SkipReason::HighCpuUsage => SkipReason::HighCpuUsage,
            SkipReason::HighIoActivity => SkipReason::HighIoActivity,
            SkipReason::Other(message) => SkipReason::Other(message.clone()),
        }
    }
}

impl SkipReason {
    /// The text shown for the reason.
    pub open spec fn described(self) -> Seq<char> {
        match self {
            SkipReason::SystemProcess => "system process"@,
            SkipReason::SelfProcess => "self process"@,
            SkipReason::ForegroundProcess => "foreground process"@,
            SkipReason::SystemBoundaryProcess => "system boundary process"@,
            SkipReason::LegacyRecommendedRule => "legacy recommended rule"@,
            SkipReason::LegacyUserRule => "legacy user rule"@,
            SkipReason::WorkingSetTooSmall => "working set below policy threshold"@,
            SkipReason::AccessDenied => "access denied"@,
            SkipReason::OpenProcessFailed => "OpenProcess failed"@,
            SkipReason::QueryFailed => "process query failed"@,
            SkipReason::ProcessExited => "process exited"@,
            SkipReason::HighCpuUsage => "high CPU usage"@,
            SkipReason::HighIoActivity => "high I/O activity"@,
            SkipReason::Other(message) => message@,
        }
    }

    /// Writes the text shown for the reason.
    pub fn to_text(&self) -> (r: String)
        ensures
            r@ == self.described(),
    {
        match self {
            SkipReason::SystemProcess => "system process".to_owned(),
            SkipReason::SelfProcess => "self process".to_owned(),
            SkipReason::ForegroundProcess => "foreground process".to_owned(),
            SkipReason::SystemBoundaryProcess => "system boundary process".to_owned(),
            SkipReason::LegacyRecommendedRule => "legacy recommended rule".to_owned(),
            SkipReason::LegacyUserRule => "legacy user rule".to_owned(),
            SkipReason::WorkingSetTooSmall => "working set below policy threshold".to_owned(),
            SkipReason::AccessDenied => "access denied".to_owned(),
            SkipReason::OpenProcessFailed => "OpenProcess failed".to_owned(),
            SkipReason::QueryFailed => "process query failed".to_owned(),
            SkipReason::ProcessExited => "process exited".to_owned(),
            SkipReason::HighCpuUsage => "high CPU usage".to_owned(),
            SkipReason::HighIoActivity => "high I/O activity".to_owned(),
            SkipReason::Other(message) => message.clone(),
        }
    }
}

/// What became of a process.
#[derive(Debug)]
pub enum TrimStatus {
    WouldTrim,
    Trimmed,
    Skipped(SkipReason),
    Failed(String),
}

impl Clone for TrimStatus {
    fn clone(&self) -> (r: TrimStatus)
        ensures
            r == *self,
    {
        match self {
            TrimStatus::WouldTrim => TrimStatus::WouldTrim,
            TrimStatus::Trimmed => TrimStatus::Trimmed,
            TrimStatus::Skipped(reason) => TrimStatus::Skipped(reason.clone()),
            TrimStatus::Failed(message) => TrimStatus::Failed(message.clone()),
        }
    }
}

impl TrimStatus {
    /// The text shown for the status.
    pub open spec fn described(self) -> Seq<char> {
        match self {
            TrimStatus::WouldTrim => "would trim"@,
            TrimStatus::Trimmed => "trimmed"@,
            TrimStatus::Skipped(reason) => "skipped: "@ + reason.described(),
            TrimStatus::Failed(message) => "failed: "@ + message@,
        }
    }

    /// Writes the text shown for the status.
    pub fn to_text(&self) -> (r: String)
        ensures
            r@ == self.described(),
    {
        match self {
            TrimStatus::WouldTrim => "would trim".to_owned(),
            TrimStatus::Trimmed => "trimmed".to_owned(),
            TrimStatus::Skipped(reason) => {
                let mut r: String = "skipped: ".to_owned();
                r.append(reason.to_text().as_str());
                r
            },
            TrimStatus::Failed(message) => {
                let mut r: String = "failed: ".to_owned();
                r.append(message.as_str());
                r
            },
        }
    }
}

// ---------------------------------------------------------------------------
// Process names
// ---------------------------------------------------------------------------

/// The views of a slice of texts.
pub open spec fn slice_views(v: Seq<&str>) -> Seq<Seq<char>> {
    v.map_values(|t: &str| t@)
}

/// The processes that the system cannot do without.
pub open spec fn boundary_names() -> Seq<Seq<char>> {
    seq![
        "System"@,
        "Idle"@,
        "Registry"@,
        "smss.exe"@,
        "csrss.exe"@,
        "wininit.exe"@,
        "services.exe"@,
        "lsass.exe"@,
        "winlogon.exe"@,
        "fontdrvhost.exe"@,
        "dwm.exe"@,
    ]
}

/// The processes of web browsers.
pub open spec fn browser_names() -> Seq<Seq<char>> {
    seq![
        "chrome.exe"@,
        "chromium.exe"@,
        "msedge.exe"@,
        "msedgewebview2.exe"@,
        "firefox.exe"@,
        "brave.exe"@,
        "opera.exe"@,
        "vivaldi.exe"@,
        "qqbrowser.exe"@,
        "360chrome.exe"@,
        "360se.exe"@,
        "sogouexplorer.exe"@,
    ]
}

/// The processes that hold the memory of virtual machines.
pub open spec fn vm_memory_names() -> Seq<Seq<char>> {
    seq![
        "vmmem"@,
        "vmmem.exe"@,
        "vmmemWSL"@,
        "vmmemWSL.exe"@,
        "vmmemCmZygote"@,
        "vmwp.exe"@,
        "vmms.exe"@,
        "vmware-vmx.exe"@,
        "VirtualBoxVM.exe"@,
    ]
}

/// The processes that virtual machines are run by.
pub open spec fn vm_stack_names() -> Seq<Seq<char>> {
    seq![
        "vmmem"@,
        "vmmem.exe"@,
        "vmmemWSL"@,
        "vmmemWSL.exe"@,
        "vmmemCmZygote"@,
        "vmwp.exe"@,
        "vmms.exe"@,
        "wsl.exe"@,
        "wslhost.exe"@,
        "wslrelay.exe"@,
        "wslservice.exe"@,
        "docker-sandbox.exe"@,
        "Docker Desktop.exe"@,
        "com.docker.backend.exe"@,
        "com.docker.build.exe"@,
        "vmware-vmx.exe"@,
        "vmware-authd.exe"@,
        "vmware-usbarbitrator64.exe"@,
        "vmnat.exe"@,
        "vmnetdhcp.exe"@,
        "VirtualBoxVM.exe"@,
    ]
}

/// The processes that the system cannot do without.
pub fn system_boundary_processes() -> (r: &'static [&'static str])
    ensures
        slice_views(r@) == boundary_names(),
{
    let r: &'static [&'static str] = &[
        "System",
        "Idle",
        "Registry",
        "smss.exe",
        "csrss.exe",
        "wininit.exe",
        "services.exe",
        "lsass.exe",
        "winlogon.exe",
        "fontdrvhost.exe",
        "dwm.exe",
    ];
    assert(slice_views(r@) =~= boundary_names());
    r
}

/// The processes of web browsers.
pub fn browser_processes() -> (r: &'static [&'static str])
    ensures
        slice_views(r@) == browser_names(),
{
    let r: &'static [&'static str] = &[
        "chrome.exe",
        "chromium.exe",
        "msedge.exe",
        "msedgewebview2.exe",
        "firefox.exe",
        "brave.exe",
        "opera.exe",
        "vivaldi.exe",
        "qqbrowser.exe",
        "360chrome.exe",
        "360se.exe",
        "sogouexplorer.exe",
    ];
    assert(slice_views(r@) =~= browser_names());
    r
}

/// The processes that hold the memory of virtual machines.
pub fn vm_memory_processes() -> (r: &'static [&'static str])
    ensures
        slice_views(r@) == vm_memory_names(),
{
    let r: &'static [&'static str] = &[
        "vmmem",
        "vmmem.exe",
        "vmmemWSL",
        "vmmemWSL.exe",
        "vmmemCmZygote",
        "vmwp.exe",
        "vmms.exe",
        "vmware-vmx.exe",
        "VirtualBoxVM.exe",
    ];
    assert(slice_views(r@) =~= vm_memory_names());
    r
}

/// The processes that virtual machines are run by.
pub fn vm_stack_processes() -> (r: &'static [&'static str])
    ensures
        slice_views(r@) == vm_stack_names(),
{
    let r: &'static [&'static str] = &[
        "vmmem",
        "vmmem.exe",
        "vmmemWSL",
        "vmmemWSL.exe",
        "vmmemCmZygote",
        "vmwp.exe",
        "vmms.exe",
        "wsl.exe",
        "wslhost.exe",
        "wslrelay.exe",
        "wslservice.exe",
        "docker-sandbox.exe",
        "Docker Desktop.exe",
        "com.docker.backend.exe",
        "com.docker.build.exe",
        "vmware-vmx.exe",
        "vmware-authd.exe",
        "vmware-usbarbitrator64.exe",
        "vmnat.exe",
        "vmnetdhcp.exe",
        "VirtualBoxVM.exe",
    ];
    assert(slice_views(r@) =~= vm_stack_names());
    r
}

/// Tells whether two process names are the same; letter case does not matter.
pub fn same_process_name(left: &str, right: &str) -> (r: bool)
    ensures
        r == text::same_ignoring_case(left@, right@),
{
    text::same_text_ignoring_case(left, right)
}

/// Whether `name` is one of `names`, letter case aside.
pub open spec fn is_listed(names: Seq<Seq<char>>, name: Seq<char>) -> bool {
    exists|i: int| 0 <= i < names.len() && text::same_ignoring_case(#[trigger] names[i], name)
}

/// Tells whether `name` is one of `names`, letter case aside.
pub fn listed(names: &[&str], name: &str) -> (r: bool)
    ensures
        r == is_listed(slice_views(names@), name@),
{
    let mut i: usize = 0;
    while i < names.len()
        invariant
            i <= names@.len(),
            forall|j: int|
                0 <= j < i ==> !text::same_ignoring_case(
                    #[trigger] slice_views(names@)[j],
                    name@,
                ),
        decreases names@.len() - i,
    {
        assert(slice_views(names@)[i as int] == names@[i as int]@);
        if same_process_name(names[i], name) {
            return true;
        }
        i = i + 1;
    }
    false
}

/// Tells whether a process is one that the system cannot do without.
pub fn is_system_boundary(name: &str) -> (r: bool)
    ensures
        r == is_listed(boundary_names(), name@),
{
    listed(system_boundary_processes(), name)
}

/// Sameness of process names is an equivalence: every name is the same as itself, the order
/// of two names does not matter, and names that are the same as a third are the same.
pub proof fn process_names_equivalence(a: Seq<char>, b: Seq<char>, c: Seq<char>)
    ensures
        text::same_ignoring_case(a, a),
        text::same_ignoring_case(a, b) == text::same_ignoring_case(b, a),
        text::same_ignoring_case(a, b) && text::same_ignoring_case(b, c)
            ==> text::same_ignoring_case(a, c),
{
}

/// Whether a name is listed does not depend on the letter case in which it is written.
pub proof fn listing_ignores_case(names: Seq<Seq<char>>, a: Seq<char>, b: Seq<char>)
    requires
        text::same_ignoring_case(a, b),
    ensures
        is_listed(names, a) == is_listed(names, b),
{
    if is_listed(names, a) {
        let i = choose|i: int|
            0 <= i < names.len() && text::same_ignoring_case(#[trigger] names[i], a);
        assert(text::same_ignoring_case(names[i], b));
    }
    if is_listed(names, b) {
        let i = choose|i: int|
            0 <= i < names.len() && text::same_ignoring_case(#[trigger] names[i], b);
        assert(text::same_ignoring_case(names[i], a));
    }
}

// ---------------------------------------------------------------------------
// Who is who
// ---------------------------------------------------------------------------

/// These processes are at the system boundary, and no others; letter case does not matter.
pub proof fn boundary_processes_are_known(name: Seq<char>)
    ensures
        is_listed(boundary_names(), name) <==> {
            ||| text::same_ignoring_case("System"@, name)
            ||| text::same_ignoring_case("Idle"@, name)
            ||| text::same_ignoring_case("Registry"@, name)
            ||| text::same_ignoring_case("smss.exe"@, name)
            ||| text::same_ignoring_case("csrss.exe"@, name)
            ||| text::same_ignoring_case("wininit.exe"@, name)
            ||| text::same_ignoring_case("services.exe"@, name)
            ||| text::same_ignoring_case("lsass.exe"@, name)
            ||| text::same_ignoring_case("winlogon.exe"@, name)
            ||| text::same_ignoring_case("fontdrvhost.exe"@, name)
            ||| text::same_ignoring_case("dwm.exe"@, name)
        },
{
    let names = boundary_names();
    assert(boundary_names()[0] == "System"@);
    assert(boundary_names()[1] == "Idle"@);
    assert(boundary_names()[2] == "Registry"@);
    assert(boundary_names()[3] == "smss.exe"@);
    assert(boundary_names()[4] == "csrss.exe"@);
    assert(boundary_names()[5] == "wininit.exe"@);
    assert(boundary_names()[6] == "services.exe"@);
    assert(boundary_names()[7] == "lsass.exe"@);
    assert(boundary_names()[8] == "winlogon.exe"@);
    assert(boundary_names()[9] == "fontdrvhost.exe"@);
    assert(boundary_names()[10] == "dwm.exe"@);
    assert(names.len() == 11);
}

/// These processes are web browsers, and no others; letter case does not matter.
pub proof fn browsers_are_known(name: Seq<char>)
    ensures
        is_listed(browser_names(), name) <==> {
            ||| text::same_ignoring_case("chrome.exe"@, name)
            ||| text::same_ignoring_case("chromium.exe"@, name)
            ||| text::same_ignoring_case("msedge.exe"@, name)
            ||| text::same_ignoring_case("msedgewebview2.exe"@, name)
            ||| text::same_ignoring_case("firefox.exe"@, name)
            ||| text::same_ignoring_case("brave.exe"@, name)
            ||| text::same_ignoring_case("opera.exe"@, name)
            ||| text::same_ignoring_case("vivaldi.exe"@, name)
            ||| text::same_ignoring_case("qqbrowser.exe"@, name)
            ||| text::same_ignoring_case("360chrome.exe"@, name)
            ||| text::same_ignoring_case("360se.exe"@, name)
            ||| text::same_ignoring_case("sogouexplorer.exe"@, name)
        },
{
    let names = browser_names();
    assert(browser_names()[0] == "chrome.exe"@);
    assert(browser_names()[1] == "chromium.exe"@);
    assert(browser_names()[2] == "msedge.exe"@);
    assert(browser_names()[3] == "msedgewebview2.exe"@);
    assert(browser_names()[4] == "firefox.exe"@);
    assert(browser_names()[5] == "brave.exe"@);
    assert(browser_names()[6] == "opera.exe"@);
    assert(browser_names()[7] == "vivaldi.exe"@);
    assert(browser_names()[8] == "qqbrowser.exe"@);
    assert(browser_names()[9] == "360chrome.exe"@);
    assert(browser_names()[10] == "360se.exe"@);
    assert(browser_names()[11] == "sogouexplorer.exe"@);
    assert(names.len() == 12);
}

/// These processes hold the memory of virtual machines, and no others; letter case does not
/// matter.
pub proof fn vm_memory_processes_are_known(name: Seq<char>)
    ensures
        is_listed(vm_memory_names(), name) <==> {
            ||| text::same_ignoring_case("vmmem"@, name)
            ||| text::same_ignoring_case("vmmem.exe"@, name)
            ||| text::same_ignoring_case("vmmemWSL"@, name)
            ||| text::same_ignoring_case("vmmemWSL.exe"@, name)
            ||| text::same_ignoring_case("vmmemCmZygote"@, name)
            ||| text::same_ignoring_case("vmwp.exe"@, name)
            ||| text::same_ignoring_case("vmms.exe"@, name)
            ||| text::same_ignoring_case("vmware-vmx.exe"@, name)
            ||| text::same_ignoring_case("VirtualBoxVM.exe"@, name)
        },
{
    let names = vm_memory_names();
    assert(vm_memory_names()[0] == "vmmem"@);
    assert(vm_memory_names()[1] == "vmmem.exe"@);
    assert(vm_memory_names()[2] == "vmmemWSL"@);
    assert(vm_memory_names()[3] == "vmmemWSL.exe"@);
    assert(vm_memory_names()[4] == "vmmemCmZygote"@);
    assert(vm_memory_names()[5] == "vmwp.exe"@);
    assert(vm_memory_names()[6] == "vmms.exe"@);
    assert(vm_memory_names()[7] == "vmware-vmx.exe"@);
    assert(vm_memory_names()[8] == "VirtualBoxVM.exe"@);
    assert(names.len() == 9);
}

/// Virtual machines are run by these processes, and by no others; letter case does not matter.
pub proof fn vm_stack_processes_are_known(name: Seq<char>)
    ensures
        is_listed(vm_stack_names(), name) <==> {
            ||| text::same_ignoring_case("vmmem"@, name)
            ||| text::same_ignoring_case("vmmem.exe"@, name)
            ||| text::same_ignoring_case("vmmemWSL"@, name)
            ||| text::same_ignoring_case("vmmemWSL.exe"@, name)
            ||| text::same_ignoring_case("vmmemCmZygote"@, name)
            ||| text::same_ignoring_case("vmwp.exe"@, name)
            ||| text::same_ignoring_case("vmms.exe"@, name)
            ||| text::same_ignoring_case("wsl.exe"@, name)
            ||| text::same_ignoring_case("wslhost.exe"@, name)
            ||| text::same_ignoring_case("wslrelay.exe"@, name)
            ||| text::same_ignoring_case("wslservice.exe"@, name)
            ||| text::same_ignoring_case("docker-sandbox.exe"@, name)
            ||| text::same_ignoring_case("Docker Desktop.exe"@, name)
            ||| text::same_ignoring_case("com.docker.backend.exe"@, name)
            ||| text::same_ignoring_case("com.docker.build.exe"@, name)
            ||| text::same_ignoring_case("vmware-vmx.exe"@, name)
            ||| text::same_ignoring_case("vmware-authd.exe"@, name)
            ||| text::same_ignoring_case("vmware-usbarbitrator64.exe"@, name)
            ||| text::same_ignoring_case("vmnat.exe"@, name)
            ||| text::same_ignoring_case("vmnetdhcp.exe"@, name)
            ||| text::same_ignoring_case("VirtualBoxVM.exe"@, name)
        },
{
    let names = vm_stack_names();
    assert(vm_stack_names()[0] == "vmmem"@);
    assert(vm_stack_names()[1] == "vmmem.exe"@);
    assert(vm_stack_names()[2] == "vmmemWSL"@);
    assert(vm_stack_names()[3] == "vmmemWSL.exe"@);
    assert(vm_stack_names()[4] == "vmmemCmZygote"@);
    assert(vm_stack_names()[5] == "vmwp.exe"@);
    assert(vm_stack_names()[6] == "vmms.exe"@);
    assert(vm_stack_names()[7] == "wsl.exe"@);
    assert(vm_stack_names()[8] == "wslhost.exe"@);
    assert(vm_stack_names()[9] == "wslrelay.exe"@);
    assert(vm_stack_names()[10] == "wslservice.exe"@);
    assert(vm_stack_names()[11] == "docker-sandbox.exe"@);
    assert(vm_stack_names()[12] == "Docker Desktop.exe"@);
    assert(vm_stack_names()[13] == "com.docker.backend.exe"@);
    assert(vm_stack_names()[14] == "com.docker.build.exe"@);
    assert(vm_stack_names()[15] == "vmware-vmx.exe"@);
    assert(vm_stack_names()[16] == "vmware-authd.exe"@);
    assert(vm_stack_names()[17] == "vmware-usbarbitrator64.exe"@);
    assert(vm_stack_names()[18] == "vmnat.exe"@);
    assert(vm_stack_names()[19] == "vmnetdhcp.exe"@);
    assert(vm_stack_names()[20] == "VirtualBoxVM.exe"@);
    assert(names.len() == 21);
}

/// The mode goes by these spellings, and by no others.
pub proof fn modes_are_known_by_name(spelling: Seq<char>)
    ensures
        mode_spellings().contains(spelling) <==> {
            ||| spelling == "memory"@
            ||| spelling == "memory_optimization"@
            ||| spelling == "memory-optimization"@
            ||| spelling == "optimize"@
            ||| spelling == "optimization"@
            ||| spelling == "内存优化"@
            ||| spelling == "normal"@
            ||| spelling == "strong"@
        },
{
    assert(mode_spellings()[0] == "memory"@);
    assert(mode_spellings()[1] == "memory_optimization"@);
    assert(mode_spellings()[2] == "memory-optimization"@);
    assert(mode_spellings()[3] == "optimize"@);
    assert(mode_spellings()[4] == "optimization"@);
    assert(mode_spellings()[5] == "内存优化"@);
    assert(mode_spellings()[6] == "normal"@);
    assert(mode_spellings()[7] == "strong"@);
    assert(mode_spellings().len() == 8);
}

/// What is said of a process that was left alone names the reason; other reasons are told in
/// their own words.
pub proof fn reasons_are_told(reason: SkipReason)
    ensures
        reason.described() == match reason {
            SkipReason::SystemProcess => "system process"@,
            SkipReason::SelfProcess => "self process"@,
            SkipReason::ForegroundProcess => "foreground process"@,
            SkipReason::SystemBoundaryProcess => "system boundary process"@,
            SkipReason::LegacyRecommendedRule => "legacy recommended rule"@,
            SkipReason::LegacyUserRule => "legacy user rule"@,
            SkipReason::WorkingSetTooSmall => "working set below policy threshold"@,
            SkipReason::AccessDenied => "access denied"@,
            SkipReason::OpenProcessFailed => "OpenProcess failed"@,
            SkipReason::QueryFailed => "process query failed"@,
            SkipReason::ProcessExited => "process exited"@,
            SkipReason::HighCpuUsage => "high CPU usage"@,
            SkipReason::HighIoActivity => "high I/O activity"@,
            SkipReason::Other(message) => message@,
        },
{
}

/// What became of a process is told with the reason or the message that there is.
pub proof fn statuses_are_told(status: TrimStatus)
    ensures
        status is WouldTrim ==> status.described() == "would trim"@,
        status is Trimmed ==> status.described() == "trimmed"@,
        status matches TrimStatus::Skipped(reason) ==> status.described() == "skipped: "@
            + reason.described(),
        status matches TrimStatus::Failed(message) ==> status.described() == "failed: "@
            + message@,
{
}

/// The policy of the one mode: working sets from 10 MiB are trimmed, in up to five rounds 150
/// milliseconds apart; the foreground, the system, the program itself and busy processes are
/// left alone.
pub proof fn policies_spare_what_is_in_use()
    ensures
        ({
            let policy = default_policy();
            &&& policy.min_working_set_mb == 10
            &&& policy.floor_bytes() == 10485760
            &&& policy.max_rounds == 5
            &&& policy.round_delay_ms == 150
            &&& policy.high_cpu_threshold_percent == 100
            &&& policy.skip_foreground && policy.skip_system_process && policy.skip_self
            &&& policy.skip_high_cpu && policy.skip_high_io
            &&& policy.require_admin
            &&& policy.trim_method == TrimMethod::EmptyWorkingSet
            &&& !policy.allow_trim_explorer
            &&& policy.allow_trim_browser
        }),
{
}

} // verus!
