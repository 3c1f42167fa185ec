//! The boundary to the Windows API: its data, its error codes, and what stands in for it on
//! other platforms.

use crate::error::MemSparkError;
use crate::memory::MemorySnapshot;
use crate::text;
use vstd::prelude::*;

verus! {

/// A process as the process list names it.
#[derive(Debug, Clone)]
pub struct RawProcessInfo {
    pub pid: u32,
    pub name: String,
}

/// What querying one process tells.
#[derive(Debug, Clone)]
pub struct ProcessQueryInfo {
    pub path: Option<String>,
    pub working_set: u64,
    pub private_usage: Option<u64>,
}

/// A failed call: which one, its error code and the system's message.
#[derive(Debug, Clone)]
pub struct WinApiError {
    pub context: &'static str,
    pub code: u32,
    pub message: String,
}

/// A command to the system's memory lists.
#[derive(Debug, Clone, Copy, PartialEq, Eq, Structural)]
pub enum MemoryListCommand {
    EmptyWorkingSets,
    FlushModifiedList,
    PurgeStandbyList,
    PurgeLowPriorityStandbyList,
}

impl WinApiError {
    /// Whether the code says that access was denied.
    pub open spec fn denied(self) -> bool {
        self.code == 5
    }

    /// Whether the code says that the process is gone.
    pub open spec fn exited(self) -> bool {
        self.code == 87 || self.code == 1168 || self.code == 18
    }

    /// The text shown for the error.
    pub open spec fn described(self) -> Seq<char> {
        self.context@ + " failed with Windows error "@ + text::decimal(self.code as nat) + " ("@
            + self.message@ + ")"@
    }

    /// Tells whether access was denied.
    pub fn is_access_denied(&self) -> (r: bool)
        ensures
            r == self.denied(),
    {
        self.code == 5
    }

    /// Tells whether the process is gone.
    pub fn is_process_exited(&self) -> (r: bool)
        ensures
            r == self.exited(),
    {
        self.code == 87 || self.code == 1168 || self.code == 18
    }

    /// Writes the text shown for the error.
    pub fn to_text(&self) -> (r: String)
        ensures
            r@ == self.described(),
    {
        let mut r: String = self.context.to_owned();
        r.append(" failed with Windows error ");
        r.append(text::decimal_text(self.code as u128).as_str());
        r.append(" (");
        r.append(self.message.as_str());
        r.append(")");
        r
    }
}

// ---------------------------------------------------------------------------
// Opening processes
// ---------------------------------------------------------------------------

/// The right to terminate a process.
pub const PROCESS_TERMINATE: u32 = 0x0001;

/// The right to read a process's memory counters.
pub const PROCESS_VM_READ: u32 = 0x0010;

/// The right to set a process's working-set limits.
pub const PROCESS_SET_QUOTA: u32 = 0x0100;

/// The right to query a process.
pub const PROCESS_QUERY_INFORMATION: u32 = 0x0400;

/// The right to query the unprotected part of a process's information.
pub const PROCESS_QUERY_LIMITED_INFORMATION: u32 = 0x1000;

/// The right to wait for a process to exit.
pub const SYNCHRONIZE_ACCESS: u32 = 0x0010_0000;

/// One way to open a process: the rights asked for, and how a failure is named.
#[derive(Debug, Clone, Copy)]
pub struct OpenAttempt {
    pub access: u32,
    pub context: &'static str,
}

/// The ways to open a process for querying, in the order they are tried.
pub open spec fn ways_to_query() -> Seq<OpenAttempt> {
    seq![
        OpenAttempt { access: 0x1000, context: "OpenProcess(query limited)" },
        OpenAttempt { access: 0x0400, context: "OpenProcess(query)" },
    ]
}

/// The ways to open a process for querying, in the order they are tried.
pub fn query_attempts() -> (r: Vec<OpenAttempt>)
    ensures
        r@ == ways_to_query(),
{
    vec![
        OpenAttempt {
            access: PROCESS_QUERY_LIMITED_INFORMATION,
            context: "OpenProcess(query limited)",
        },
        OpenAttempt { access: PROCESS_QUERY_INFORMATION, context: "OpenProcess(query)" },
    ]
}

/// The ways to open a process whose memory counters could not be read at first.
pub open spec fn ways_to_read_memory() -> Seq<OpenAttempt> {
    seq![
        OpenAttempt { access: 0x0410, context: "OpenProcess(query memory)" },
        OpenAttempt { access: 0x0400, context: "OpenProcess(query)" },
    ]
}

/// The ways to open a process whose memory counters could not be read at first.
pub fn query_memory_attempts() -> (r: Vec<OpenAttempt>)
    ensures
        r@ == ways_to_read_memory(),
{
    vec![
        OpenAttempt { access: 0x0410, context: "OpenProcess(query memory)" },
        OpenAttempt { access: PROCESS_QUERY_INFORMATION, context: "OpenProcess(query)" },
    ]
}

/// The ways to open a process whose working set could not be read at first.
pub open spec fn ways_to_read_working_set() -> Seq<OpenAttempt> {
    seq![
        OpenAttempt { access: 0x0410, context: "OpenProcess(query working set memory)" },
        OpenAttempt { access: 0x0400, context: "OpenProcess(query working set)" },
    ]
}

/// The ways to open a process whose working set could not be read at first.
pub fn working_set_attempts() -> (r: Vec<OpenAttempt>)
    ensures
        r@ == ways_to_read_working_set(),
{
    vec![
        OpenAttempt { access: 0x0410, context: "OpenProcess(query working set memory)" },
        OpenAttempt {
            access: PROCESS_QUERY_INFORMATION,
            context: "OpenProcess(query working set)",
        },
    ]
}

/// The ways to open a process in order to empty its working set.
pub open spec fn ways_to_trim() -> Seq<OpenAttempt> {
    seq![
        OpenAttempt { access: 0x0500, context: "OpenProcess(trim)" },
        OpenAttempt { access: 0x1100, context: "OpenProcess(trim limited)" },
        OpenAttempt { access: 0x1500, context: "OpenProcess(trim compatibility)" },
        OpenAttempt { access: 0x0100, context: "OpenProcess(trim quota only)" },
    ]
}

/// The ways to open a process in order to empty its working set.
pub fn trim_attempts() -> (r: Vec<OpenAttempt>)
    ensures
        r@ == ways_to_trim(),
{
    vec![
        OpenAttempt { access: 0x0500, context: "OpenProcess(trim)" },
        OpenAttempt { access: 0x1100, context: "OpenProcess(trim limited)" },
        OpenAttempt { access: 0x1500, context: "OpenProcess(trim compatibility)" },
        OpenAttempt { access: PROCESS_SET_QUOTA, context: "OpenProcess(trim quota only)" },
    ]
}

/// The ways to open a process in order to shrink its working-set limits.
pub open spec fn ways_to_shrink() -> Seq<OpenAttempt> {
    seq![
        OpenAttempt { access: 0x0500, context: "OpenProcess(trim fallback)" },
        OpenAttempt { access: 0x1100, context: "OpenProcess(trim fallback limited)" },
        OpenAttempt { access: 0x0100, context: "OpenProcess(trim fallback quota only)" },
    ]
}

/// The ways to open a process in order to shrink its working-set limits.
pub fn trim_fallback_attempts() -> (r: Vec<OpenAttempt>)
    ensures
        r@ == ways_to_shrink(),
{
    vec![
        OpenAttempt { access: 0x0500, context: "OpenProcess(trim fallback)" },
        OpenAttempt { access: 0x1100, context: "OpenProcess(trim fallback limited)" },
        OpenAttempt {
            access: PROCESS_SET_QUOTA,
            context: "OpenProcess(trim fallback quota only)",
        },
    ]
}

/// The way to open a process in order to wait for its exit.
pub open spec fn ways_to_wait() -> Seq<OpenAttempt> {
    seq![OpenAttempt { access: 0x0010_0000, context: "OpenProcess(wait)" }]
}

/// The way to open a process in order to wait for its exit.
pub fn wait_attempts() -> (r: Vec<OpenAttempt>)
    ensures
        r@ == ways_to_wait(),
{
    vec![OpenAttempt { access: SYNCHRONIZE_ACCESS, context: "OpenProcess(wait)" }]
}

/// The way to open a process in order to terminate it.
pub open spec fn ways_to_terminate() -> Seq<OpenAttempt> {
    seq![OpenAttempt { access: 0x0001, context: "OpenProcess(terminate)" }]
}

/// The way to open a process in order to terminate it.
pub fn terminate_attempts() -> (r: Vec<OpenAttempt>)
    ensures
        r@ == ways_to_terminate(),
{
    vec![OpenAttempt { access: PROCESS_TERMINATE, context: "OpenProcess(terminate)" }]
}

// ---------------------------------------------------------------------------
// Reading the system's replies
// ---------------------------------------------------------------------------

/// What the result of a wait means.
#[derive(Debug, Clone, Copy, PartialEq, Eq, Structural)]
pub enum WaitOutcome {
    Exited,
    StillRunning,
    Failed,
}

/// What the result of waiting for a process means.
pub open spec fn wait_meaning(result: u32) -> WaitOutcome {
    if result == 0 {
        WaitOutcome::Exited
    } else if result == 0xffff_ffff {
        WaitOutcome::Failed
    } else {
        WaitOutcome::StillRunning
    }
}

/// Reads the result of waiting for a process.
pub fn wait_outcome(result: u32) -> (r: WaitOutcome)
    ensures
        r == wait_meaning(result),
{
    if result == 0 {
        WaitOutcome::Exited
    } else if result == 0xffff_ffff {
        WaitOutcome::Failed
    } else {
        WaitOutcome::StillRunning
    }
}

/// The process that owns the foreground window, if one is known.
pub open spec fn owner(pid: u32) -> Option<u32> {
    if pid == 0 {
        None::<u32>
    } else {
        Some(pid)
    }
}

/// Reads the process id that owns the foreground window; zero means that none is known.
pub fn foreground_owner(pid: u32) -> (r: Option<u32>)
    ensures
        r == owner(pid),
{
    if pid == 0 {
        None
    } else {
        Some(pid)
    }
}

/// Reads the error code left behind by an accepted privilege adjustment.
pub fn privilege_outcome(privilege: &'static str, code: u32) -> (r: Result<(), WinApiError>)
    ensures
        code != 1300 ==> r == Ok::<(), WinApiError>(()),
        code == 1300 ==> (r matches Err(e) && e.context == privilege && e.code == 1300
            && e.message@
            == "current token does not hold the required privilege; run as administrator"@),
{
    if code == 1300 {
        Err(
            WinApiError {
                context: privilege,
                code,
                message:
                    "current token does not hold the required privilege; run as administrator".to_owned(),
            },
        )
    } else {
        Ok(())
    }
}

/// The number by which the system knows a memory-list command.
pub open spec fn command_value(command: MemoryListCommand) -> i32 {
    match command {
        MemoryListCommand::EmptyWorkingSets => 2,
        MemoryListCommand::FlushModifiedList => 3,
        MemoryListCommand::PurgeStandbyList => 4,
        MemoryListCommand::PurgeLowPriorityStandbyList => 5,
    }
}

/// Gives the number by which the system knows a memory-list command.
pub fn memory_list_command_value(command: MemoryListCommand) -> (r: i32)
    ensures
        r == command_value(command),
{
    match command {
        MemoryListCommand::EmptyWorkingSets => 2,
        MemoryListCommand::FlushModifiedList => 3,
        MemoryListCommand::PurgeStandbyList => 4,
        MemoryListCommand::PurgeLowPriorityStandbyList => 5,
    }
}

/// The bits of a signed 32-bit status, read as an unsigned number.
pub open spec fn status_bits(status: i32) -> nat {
    if status < 0 {
        (status + 0x1_0000_0000) as nat
    } else {
        status as nat
    }
}

/// The message for a status that is not success.
pub open spec fn status_message(status: i32) -> Seq<char> {
    if status_bits(status) == 0xc000_0061 {
        "privilege not held; run MemSpark as administrator"@
    } else if status_bits(status) == 0xc000_0022 {
        "access denied; run MemSpark as administrator"@
    } else {
        "NTSTATUS 0x"@ + text::hex(status_bits(status), 8)
    }
}

/// Turns a status into an error.
pub fn ntstatus_error(context: &'static str, status: i32) -> (r: WinApiError)
    ensures
        r.context == context,
        r.code == status_bits(status),
        r.message@ == status_message(status),
{
    let wide: i64 = if status < 0 {
        status as i64 + 0x1_0000_0000
    } else {
        status as i64
    };
    let code: u32 = wide as u32;
    let message: String = if code == 0xc000_0061 {
        "privilege not held; run MemSpark as administrator".to_owned()
    } else if code == 0xc000_0022 {
        "access denied; run MemSpark as administrator".to_owned()
    } else {
        let mut m: String = "NTSTATUS 0x".to_owned();
        m.append(text::hex_text(code, 8).as_str());
        m
    };
    WinApiError { context, code, message }
}

/// Reads the status of a memory-list command.
pub fn memory_list_outcome(status: i32) -> (r: Result<(), WinApiError>)
    ensures
        status == 0 ==> r == Ok::<(), WinApiError>(()),
        status != 0 ==> (r matches Err(e) && e.context@
            == "NtSetSystemInformation(SystemMemoryListInformation)"@ && e.code == status_bits(
            status,
        ) && e.message@ == status_message(status)),
{
    if status == 0 {
        Ok(())
    } else {
        Err(ntstatus_error("NtSetSystemInformation(SystemMemoryListInformation)", status))
    }
}

// ---------------------------------------------------------------------------
// Wide strings
// ---------------------------------------------------------------------------

/// `char::from_u32` gives the character with a scalar value, and nothing for a number that
/// is no scalar value.
pub assume_specification[ char::from_u32 ](i: u32) -> (r: Option<char>)
    ensures
        r == if i < 0xd800 || (0xe000 <= i && i < 0x11_0000) {
            Some(i as char)
        } else {
            None
        },
;

/// Whether `u` is the first half of a surrogate pair.
pub open spec fn is_high(u: u16) -> bool {
    0xd800 <= u <= 0xdbff
}

/// Whether `u` is the second half of a surrogate pair.
pub open spec fn is_low(u: u16) -> bool {
    0xdc00 <= u <= 0xdfff
}

/// The scalar value of a surrogate pair.
pub open spec fn pair_value(high: u16, low: u16) -> int {
    0x1_0000 + (high - 0xd800) * 0x400 + (low - 0xdc00)
}

/// The text of a UTF-16 sequence, with U+FFFD in place of each unpaired surrogate.
pub open spec fn wide_decoded(s: Seq<u16>) -> Seq<char>
    decreases s.len(),
{
    if s.len() == 0 {
        Seq::empty()
    } else if !is_high(s[0]) && !is_low(s[0]) {
        seq![s[0] as char] + wide_decoded(s.skip(1))
    } else if is_high(s[0]) && s.len() > 1 && is_low(s[1]) {
        seq![pair_value(s[0], s[1]) as char] + wide_decoded(s.skip(2))
    } else {
        seq![0xfffd as char] + wide_decoded(s.skip(1))
    }
}

/// The part of `s` before its first zero.
pub open spec fn before_null(s: Seq<u16>) -> Seq<u16>
    decreases s.len(),
{
    if s.len() == 0 || s[0] == 0 {
        Seq::empty()
    } else {
        seq![s[0]] + before_null(s.skip(1))
    }
}

/// The UTF-16 sequence of one character.
pub open spec fn wide_char(c: char) -> Seq<u16> {
    if (c as u32) < 0x1_0000 {
        seq![c as u16]
    } else {
        seq![
            (0xd800 + (c as u32 - 0x1_0000) / 0x400) as u16,
            (0xdc00 + (c as u32 - 0x1_0000) % 0x400) as u16,
        ]
    }
}

/// The UTF-16 sequence of a text.
pub open spec fn wide_encoded(s: Seq<char>) -> Seq<u16>
    decreases s.len(),
{
    if s.len() == 0 {
        Seq::empty()
    } else {
        wide_char(s[0]) + wide_encoded(s.skip(1))
    }
}

/// What precedes the first zero is cut where a scan for zero stops.
proof fn lemma_before_null(s: Seq<u16>, k: int)
    requires
        0 <= k <= s.len(),
        forall|i: int| 0 <= i < k ==> #[trigger] s[i] != 0,
        k < s.len() ==> s[k] == 0,
    ensures
        before_null(s) == s.take(k),
    decreases k,
{
    if k > 0 {
        assert(s[0] != 0);
        assert forall|i: int| 0 <= i < k - 1 implies #[trigger] s.skip(1)[i] != 0 by {
            assert(s.skip(1)[i] == s[i + 1]);
        }
        lemma_before_null(s.skip(1), k - 1);
        assert(s.take(k) =~= seq![s[0]] + s.skip(1).take(k - 1));
    } else {
        assert(s.take(0) =~= Seq::<u16>::empty());
    }
}

/// Reads the text before the first zero of a wide buffer.
pub fn wide_array_to_string(value: &Vec<u16>) -> (r: String)
    ensures
        r@ == wide_decoded(before_null(value@)),
{
    let mut len: usize = 0;
    while len < value.len() && value[len] != 0
        invariant
            len <= value@.len(),
            forall|i: int| 0 <= i < len ==> #[trigger] value@[i] != 0,
        decreases value@.len() - len,
    {
        len = len + 1;
    }
    let ghost kept = value@.take(len as int);
    proof {
        lemma_before_null(value@, len as int);
    }
    let mut r: String = String::new();
    let mut i: usize = 0;
    assert(kept.skip(0) =~= kept);
    assert(r@ + wide_decoded(kept.skip(0)) =~= wide_decoded(kept));
    while i < len
        invariant
            i <= len <= value@.len(),
            kept == value@.take(len as int),
            r@ + wide_decoded(kept.skip(i as int)) == wide_decoded(kept),
        decreases len - i,
    {
        let u: u16 = value[i];
        let ghost rest = kept.skip(i as int);
        let ghost before = r@;
        assert(rest[0] == u);
        assert(rest.skip(1) =~= kept.skip(i + 1));
        let high: bool = 0xd800 <= u && u <= 0xdbff;
        let low: bool = 0xdc00 <= u && u <= 0xdfff;
        let mut scalar: u32 = 0xfffd;
        let mut step: usize = 1;
        if !high && !low {
            scalar = u as u32;
        } else if high && len - i > 1 {
            let v: u16 = value[i + 1];
            assert(rest[1] == v);
            if 0xdc00 <= v && v <= 0xdfff {
                scalar = 0x1_0000 + (u as u32 - 0xd800) * 0x400 + (v as u32 - 0xdc00);
                step = 2;
                assert(rest.skip(2) =~= kept.skip(i + 2));
            }
        }
        match char::from_u32(scalar) {
            Some(c) => {
                r.push(c);
                assert(wide_decoded(rest) == seq![c] + wide_decoded(kept.skip(i + step)));
                assert(r@ + wide_decoded(kept.skip(i + step)) =~= before + wide_decoded(rest));
            },
            None => {
                assert(false);
            },
        }
        i = i + step;
    }
    assert(kept.skip(i as int) =~= Seq::<u16>::empty());
    assert(r@ =~= r@ + wide_decoded(kept.skip(i as int)));
    r
}

/// Appends the units of one character.
fn push_wide(out: &mut Vec<u16>, c: char)
    ensures
        final(out)@ == old(out)@ + wide_char(c),
{
    let n: u32 = c as u32;
    if n < 0x1_0000 {
        out.push(n as u16);
    } else {
        out.push((0xd800 + (n - 0x1_0000) / 0x400) as u16);
        out.push((0xdc00 + (n - 0x1_0000) % 0x400) as u16);
    }
    assert(out@ =~= old(out)@ + wide_char(c));
}

/// Writes a text as a wide buffer that ends in zero.
pub fn wide_null(value: &str) -> (r: Vec<u16>)
    ensures
        r@ == wide_encoded(value@).push(0),
{
    let chars: Vec<char> = text::chars_of(value);
    let mut r: Vec<u16> = Vec::new();
    let mut i: usize = 0;
    assert(chars@.skip(0) =~= chars@);
    assert(r@ + wide_encoded(chars@.skip(0)) =~= wide_encoded(value@));
    while i < chars.len()
        invariant
            i <= chars@.len(),
            chars@ == value@,
            r@ + wide_encoded(chars@.skip(i as int)) == wide_encoded(value@),
        decreases chars@.len() - i,
    {
        let ghost rest = chars@.skip(i as int);
        let ghost before = r@;
        assert(rest.skip(1) =~= chars@.skip(i + 1));
        push_wide(&mut r, chars[i]);
        i = i + 1;
        assert(r@ + wide_encoded(chars@.skip(i as int)) =~= before + wide_encoded(rest));
    }
    assert(chars@.skip(i as int) =~= Seq::<char>::empty());
    assert(r@ =~= wide_encoded(value@));
    r.push(0);
    r
}

/// Decoding the units of one character gives that character back.
proof fn lemma_wide_char(c: char, rest: Seq<u16>)
    ensures
        wide_decoded(wide_char(c) + rest) == seq![c] + wide_decoded(rest),
{
    let s = wide_char(c) + rest;
    if (c as u32) < 0x1_0000 {
        assert(s.skip(1) =~= rest);
        assert(s[0] == c as u16);
    } else {
        assert(s.skip(2) =~= rest);
        let m = c as u32 - 0x1_0000;
        assert(s[0] == (0xd800 + m / 0x400) as u16);
        assert(s[1] == (0xdc00 + m % 0x400) as u16);
        assert(pair_value(s[0], s[1]) == c as u32);
    }
}

/// Encoding a text as wide units and decoding it again gives the text back.
pub proof fn wide_text_round_trip(s: Seq<char>)
    ensures
        wide_decoded(wide_encoded(s)) == s,
    decreases s.len(),
{
    if s.len() > 0 {
        wide_text_round_trip(s.skip(1));
        lemma_wide_char(s[0], wide_encoded(s.skip(1)));
        assert(s =~= seq![s[0]] + s.skip(1));
    } else {
        assert(s =~= Seq::<char>::empty());
    }
}

/// A text without the null character is read back from the wide buffer written for it.
pub proof fn wide_buffer_round_trip(s: Seq<char>)
    requires
        forall|i: int| 0 <= i < s.len() ==> #[trigger] s[i] != '\0',
    ensures
        wide_decoded(before_null(wide_encoded(s).push(0))) == s,
{
    wide_text_round_trip(s);
    let w = wide_encoded(s);
    lemma_encoded_without_null(s);
    assert forall|i: int| 0 <= i < w.len() implies #[trigger] w.push(0)[i] != 0 by {
        assert(w.push(0)[i] == w[i]);
    }
    lemma_before_null(w.push(0), w.len() as int);
    assert(w.push(0).take(w.len() as int) =~= w);
}

/// The units of a character other than null are not zero.
proof fn lemma_wide_char_without_null(c: char)
    requires
        c != '\0',
    ensures
        forall|i: int| 0 <= i < wide_char(c).len() ==> #[trigger] wide_char(c)[i] != 0,
{
}

/// The units of a text without the null character are not zero.
proof fn lemma_encoded_without_null(s: Seq<char>)
    requires
        forall|i: int| 0 <= i < s.len() ==> #[trigger] s[i] != '\0',
    ensures
        forall|i: int| 0 <= i < wide_encoded(s).len() ==> #[trigger] wide_encoded(s)[i] != 0,
    decreases s.len(),
{
    if s.len() > 0 {
        let head = wide_char(s[0]);
        let tail = wide_encoded(s.skip(1));
        lemma_wide_char_without_null(s[0]);
        assert forall|i: int| 0 <= i < s.skip(1).len() implies #[trigger] s.skip(1)[i] != '\0' by {
            assert(s.skip(1)[i] == s[i + 1]);
        }
        lemma_encoded_without_null(s.skip(1));
        assert forall|i: int| 0 <= i < (head + tail).len() implies #[trigger] (head + tail)[i]
            != 0 by {
            if i < head.len() {
                assert((head + tail)[i] == head[i]);
            } else {
                assert((head + tail)[i] == tail[i - head.len()]);
            }
        }
    }
}

// ---------------------------------------------------------------------------
// Where there is no Windows API
// ---------------------------------------------------------------------------

/// Whether `e` says that the call named `context` exists on Windows only.
pub open spec fn windows_only(e: WinApiError, context: Seq<char>) -> bool {
    e.context@ == context && e.code == 0 && e.message@ == "Windows-only API"@
}

/// The error of a call that exists on Windows only.
pub fn unsupported(context: &'static str) -> (r: WinApiError)
    ensures
        r.context == context,
        windows_only(r, context@),
{
    WinApiError { context, code: 0, message: "Windows-only API".to_owned() }
}

/// No foreground process is known.
pub fn foreground_process_id() -> (r: Result<Option<u32>, MemSparkError>)
    ensures
        r == Ok::<Option<u32>, MemSparkError>(None),
{
    Ok(None)
}

/// Memory snapshots are not available.
pub fn memory_snapshot() -> (r: Result<MemorySnapshot, MemSparkError>)
    ensures
        r matches Err(MemSparkError::Unsupported(m)) && m@
            == "MemSpark core memory snapshot requires Windows"@,
{
    Err(
        MemSparkError::Unsupported("MemSpark core memory snapshot requires Windows".to_owned()),
    )
}

/// The process list is not available.
pub fn enumerate_processes_raw() -> (r: Result<Vec<RawProcessInfo>, MemSparkError>)
    ensures
        r matches Err(MemSparkError::Unsupported(m)) && m@
            == "MemSpark process enumeration requires Windows"@,
{
    Err(MemSparkError::Unsupported("MemSpark process enumeration requires Windows".to_owned()))
}

/// Processes cannot be queried.
pub fn query_process(_pid: u32) -> (r: Result<ProcessQueryInfo, WinApiError>)
    ensures
        r matches Err(e) && windows_only(e, "query_process"@),
{
    Err(unsupported("query_process"))
}

/// Working sets cannot be queried.
pub fn query_process_working_set(_pid: u32) -> (r: Result<u64, WinApiError>)
    ensures
        r matches Err(e) && windows_only(e, "query_process_working_set"@),
{
    Err(unsupported("query_process_working_set"))
}

/// Working sets cannot be emptied.
pub fn trim_process_empty_working_set(_pid: u32) -> (r: Result<(), WinApiError>)
    ensures
        r matches Err(e) && windows_only(e, "trim_process_empty_working_set"@),
{
    Err(unsupported("trim_process_empty_working_set"))
}

/// Working-set limits cannot be shrunk.
pub fn trim_process_set_working_set_size_ex(_pid: u32) -> (r: Result<(), WinApiError>)
    ensures
        r matches Err(e) && windows_only(e, "trim_process_set_working_set_size_ex"@),
{
    Err(unsupported("trim_process_set_working_set_size_ex"))
}

/// Windows cannot be asked to close.
pub fn graceful_close_process_windows(_pid: u32) -> (r: Result<u32, WinApiError>)
    ensures
        r matches Err(e) && windows_only(e, "graceful_close_process_windows"@),
{
    Err(unsupported("graceful_close_process_windows"))
}

/// Exits cannot be waited for.
pub fn wait_for_process_exit(_pid: u32, _timeout_ms: u32) -> (r: Result<bool, WinApiError>)
    ensures
        r matches Err(e) && windows_only(e, "wait_for_process_exit"@),
{
    Err(unsupported("wait_for_process_exit"))
}

/// Processes cannot be terminated.
pub fn terminate_process(_pid: u32) -> (r: Result<(), WinApiError>)
    ensures
        r matches Err(e) && windows_only(e, "terminate_process"@),
{
    Err(unsupported("terminate_process"))
}

/// Nobody runs as administrator.
pub fn is_running_as_admin() -> (r: bool)
    ensures
        !r,
{
    false
}

/// The profiling privilege cannot be enabled.
pub fn enable_profile_privilege() -> (r: Result<(), WinApiError>)
    ensures
        r matches Err(e) && windows_only(e, "enable_profile_privilege"@),
{
    Err(unsupported("enable_profile_privilege"))
}

/// The debugging privilege cannot be enabled.
pub fn enable_debug_privilege() -> (r: Result<(), WinApiError>)
    ensures
        r matches Err(e) && windows_only(e, "enable_debug_privilege"@),
{
    Err(unsupported("enable_debug_privilege"))
}

/// The quota privilege cannot be enabled.
pub fn enable_increase_quota_privilege() -> (r: Result<(), WinApiError>)
    ensures
        r matches Err(e) && windows_only(e, "enable_increase_quota_privilege"@),
{
    Err(unsupported("enable_increase_quota_privilege"))
}

/// No elevated process can be started.
pub fn run_elevated_and_wait(_executable: &str, _parameters: &str) -> (r: Result<u32, WinApiError>)
    ensures
        r matches Err(e) && windows_only(e, "run_elevated_and_wait"@),
{
    Err(unsupported("run_elevated_and_wait"))
}

/// Memory lists cannot be commanded.
pub fn set_system_memory_list(_command: MemoryListCommand) -> (r: Result<(), WinApiError>)
    ensures
        r matches Err(e) && windows_only(e, "set_system_memory_list"@),
{
    Err(unsupported("set_system_memory_list"))
}

// ---------------------------------------------------------------------------
// What codes mean
// ---------------------------------------------------------------------------

/// Access was denied with code 5; a process is gone with codes 18, 87 and 1168. No code says
/// both.
pub proof fn codes_say_one_thing(error: WinApiError)
    ensures
        error.denied() <==> error.code == 5,
        error.exited() <==> error.code == 18 || error.code == 87 || error.code == 1168,
        !(error.denied() && error.exited()),
        error.described() == error.context@ + " failed with Windows error "@ + text::decimal(
            error.code as nat,
        ) + " ("@ + error.message@ + ")"@,
{
}

/// A wait that ends with zero has seen the process exit, one that ends with all bits set has
/// failed, and with anything else the process is still running.
pub proof fn waits_end_in_three_ways(result: u32)
    ensures
        result == 0 <==> wait_meaning(result) == WaitOutcome::Exited,
        result == 4294967295 <==> wait_meaning(result) == WaitOutcome::Failed,
        result != 0 && result != 4294967295 <==> wait_meaning(result) == WaitOutcome::StillRunning,
{
}

/// Process zero owns no window.
pub proof fn process_zero_owns_nothing(pid: u32)
    ensures
        owner(0) is None,
        pid != 0 ==> owner(pid) == Some(pid),
{
}

/// The system knows the commands by the numbers 2 to 5, each by its own.
pub proof fn commands_have_their_numbers(a: MemoryListCommand, b: MemoryListCommand)
    ensures
        command_value(MemoryListCommand::EmptyWorkingSets) == 2,
        command_value(MemoryListCommand::FlushModifiedList) == 3,
        command_value(MemoryListCommand::PurgeStandbyList) == 4,
        command_value(MemoryListCommand::PurgeLowPriorityStandbyList) == 5,
        command_value(a) == command_value(b) ==> a == b,
{
}

/// The bits of a status are kept: a negative one counts from two to the power of 32 downwards.
pub proof fn status_bits_are_kept(status: i32)
    ensures
        status >= 0 ==> status_bits(status) == status,
        status < 0 ==> status_bits(status) == 4294967296 + status,
        status_bits(status) < 4294967296,
{
}

/// A missing privilege and a denied access are told in words, and any other status by its
/// eight hexadecimal digits.
pub proof fn statuses_are_told_in_words(status: i32)
    ensures
        status_bits(status) == 3221225569 ==> status_message(status)
            == "privilege not held; run MemSpark as administrator"@,
        status_bits(status) == 3221225506 ==> status_message(status)
            == "access denied; run MemSpark as administrator"@,
        status_bits(status) != 3221225569 && status_bits(status) != 3221225506 ==> status_message(
            status,
        ) == "NTSTATUS 0x"@ + text::hex(status_bits(status), 8),
{
}

/// A wide text is read up to the first zero.
pub proof fn wide_texts_end_at_zero(s: Seq<u16>, rest: Seq<u16>)
    requires
        forall|i: int| 0 <= i < s.len() ==> #[trigger] s[i] != 0,
    ensures
        before_null(s + seq![0u16] + rest) == s,
        before_null(s) == s,
{
    let all = s + seq![0u16] + rest;
    assert forall|i: int| 0 <= i < s.len() implies #[trigger] all[i] != 0 by {
        assert(all[i] == s[i]);
    }
    lemma_before_null(all, s.len() as int);
    assert(all.take(s.len() as int) =~= s);
    lemma_before_null(s, s.len() as int);
    assert(s.take(s.len() as int) =~= s);
}

/// A unit that is no surrogate stands for itself, and an unpaired surrogate for U+FFFD.
pub proof fn unpaired_surrogates_are_replaced(u: u16, rest: Seq<u16>)
    ensures
        u < 0xd800 || u > 0xdfff ==> wide_decoded(seq![u] + rest) == seq![u as char]
            + wide_decoded(rest),
        0xdc00 <= u && u <= 0xdfff ==> wide_decoded(seq![u] + rest) == seq!['\u{fffd}']
            + wide_decoded(rest),
        0xd800 <= u && u <= 0xdbff && (rest.len() == 0 || !(0xdc00 <= rest[0] && rest[0]
            <= 0xdfff)) ==> wide_decoded(seq![u] + rest) == seq!['\u{fffd}'] + wide_decoded(rest),
{
    let s = seq![u] + rest;
    assert(s.skip(1) =~= rest);
}

// ---------------------------------------------------------------------------
// What access is asked for
// ---------------------------------------------------------------------------

/// Whether `access` has the right that stands for `bit`, a power of two.
pub open spec fn has_right(access: u32, bit: u32) -> bool {
    bit > 0 && (access / bit) % 2 == 1
}

/// A process is queried with the right to limited or to full information. The weaker right is
/// tried first; memory is read again with the right to read it, if that is given.
pub proof fn queries_ask_for_information(i: int)
    ensures
        ways_to_query().len() == 2,
        ways_to_query()[0].access == 4096,
        ways_to_query()[1].access == 1024,
        0 <= i < ways_to_read_memory().len() ==> has_right(ways_to_read_memory()[i].access, 1024),
        has_right(ways_to_read_memory()[0].access, 16),
        !has_right(ways_to_read_memory()[1].access, 16),
        0 <= i < ways_to_read_working_set().len() ==> has_right(
            ways_to_read_working_set()[i].access,
            1024,
        ),
        has_right(ways_to_read_working_set()[0].access, 16),
        !has_right(ways_to_read_working_set()[1].access, 16),
        ways_to_read_memory().len() == 2 && ways_to_read_working_set().len() == 2,
{
}

/// Every way to trim or to shrink a process asks for the right to set its quota. Full
/// information is asked for first, then limited, and in the end nothing but the quota.
pub proof fn trims_ask_for_the_quota(i: int)
    ensures
        0 <= i < ways_to_trim().len() ==> has_right(ways_to_trim()[i].access, 256),
        0 <= i < ways_to_shrink().len() ==> has_right(ways_to_shrink()[i].access, 256),
        ways_to_trim().len() == 4,
        ways_to_shrink().len() == 3,
        has_right(ways_to_trim()[0].access, 1024) && !has_right(ways_to_trim()[0].access, 4096),
        has_right(ways_to_trim()[1].access, 4096) && !has_right(ways_to_trim()[1].access, 1024),
        has_right(ways_to_trim()[2].access, 1024) && has_right(ways_to_trim()[2].access, 4096),
        ways_to_trim()[3].access == 256,
        ways_to_shrink()[0].access == ways_to_trim()[0].access,
        ways_to_shrink()[1].access == ways_to_trim()[1].access,
        ways_to_shrink()[2].access == 256,
{
}

/// A process is waited for with the right to synchronize, and terminated with the right to
/// terminate; neither asks for more.
pub proof fn waiting_and_terminating_ask_for_one_right()
    ensures
        ways_to_wait().len() == 1 && ways_to_wait()[0].access == 1048576,
        ways_to_terminate().len() == 1 && ways_to_terminate()[0].access == 1,
{
}

/// A call that exists on Windows only says so under its own name, with no code.
pub proof fn windows_calls_are_named(error: WinApiError, context: Seq<char>)
    requires
        windows_only(error, context),
    ensures
        error.described() == context + " failed with Windows error "@ + text::decimal(0) + " ("@
            + "Windows-only API"@ + ")"@,
        !error.denied(),
        !error.exited(),
{
}

} // verus!
