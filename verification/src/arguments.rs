//! Command lines: how arguments are quoted on Windows, and the arguments with which the
//! application starts itself again as an administrator.

use crate::text;
use vstd::prelude::*;

verus! {

// ---------------------------------------------------------------------------
// Quoting
// ---------------------------------------------------------------------------

/// Whether a character keeps an argument from being written as it is.
pub open spec fn needs_quotes(c: char) -> bool {
    text::is_white_space(c) || c == '"'
}

/// Whether an argument can be written as it is.
pub open spec fn is_plain(arg: Seq<char>) -> bool {
    arg.len() > 0 && forall|i: int| 0 <= i < arg.len() ==> !needs_quotes(#[trigger] arg[i])
}

/// What follows the opening quote: the rest of an argument with `pending` backslashes before
/// it. Backslashes are doubled where a quote follows.
pub open spec fn quoted_rest(rest: Seq<char>, pending: nat) -> Seq<char>
    decreases rest.len(),
{
    if rest.len() == 0 {
        text::repeated('\\', 2 * pending).push('"')
    } else if rest[0] == '\\' {
        quoted_rest(rest.skip(1), pending + 1)
    } else if rest[0] == '"' {
        text::repeated('\\', 2 * pending + 1).push('"') + quoted_rest(rest.skip(1), 0)
    } else {
        text::repeated('\\', pending).push(rest[0]) + quoted_rest(rest.skip(1), 0)
    }
}

/// An argument as it stands in a command line.
pub open spec fn quoted(arg: Seq<char>) -> Seq<char> {
    if is_plain(arg) {
        arg
    } else {
        seq!['"'] + quoted_rest(arg, 0)
    }
}

/// Writes an argument as it stands in a command line.
pub fn quote_windows_arg(arg: &str) -> (r: String)
    ensures
        r@ == quoted(arg@),
{
    let chars: Vec<char> = text::chars_of(arg);
    let n: usize = chars.len();
    let mut plain: bool = n > 0;
    let mut i: usize = 0;
    while i < n
        invariant
            i <= n,
            n == chars@.len(),
            chars@ == arg@,
            plain == (n > 0 && forall|j: int| 0 <= j < i ==> !needs_quotes(#[trigger] arg@[j])),
        decreases n - i,
    {
        if text::white_space(chars[i]) || chars[i] == '"' {
            assert(needs_quotes(arg@[i as int]));
            plain = false;
        }
        i = i + 1;
    }
    if plain {
        return arg.to_owned();
    }
    let mut r: String = String::new();
    r.push('"');
    let mut backslashes: usize = 0;
    let mut k: usize = 0;
    assert(r@ =~= seq!['"']);
    assert(arg@.skip(0) =~= arg@);
    while k < n
        invariant
            k <= n,
            n == chars@.len(),
            chars@ == arg@,
            backslashes <= k,
            seq!['"'] + quoted_rest(arg@, 0) == r@ + quoted_rest(
                arg@.skip(k as int),
                backslashes as nat,
            ),
        decreases n - k,
    {
        let c: char = chars[k];
        let ghost before = r@;
        assert(arg@.skip(k as int)[0] == c);
        assert(arg@.skip(k as int).skip(1) =~= arg@.skip(k + 1));
        if c == '\\' {
            backslashes = backslashes + 1;
        } else if c == '"' {
            text::push_repeated(&mut r, '\\', backslashes);
            text::push_repeated(&mut r, '\\', backslashes);
            r.push('\\');
            r.push('"');
            proof {
                assert(r@ + quoted_rest(arg@.skip(k + 1), 0) =~= before + quoted_rest(
                    arg@.skip(k as int),
                    backslashes as nat,
                ));
            }
            backslashes = 0;
        } else {
            text::push_repeated(&mut r, '\\', backslashes);
            r.push(c);
            proof {
                assert(r@ + quoted_rest(arg@.skip(k + 1), 0) =~= before + quoted_rest(
                    arg@.skip(k as int),
                    backslashes as nat,
                ));
            }
            backslashes = 0;
        }
        k = k + 1;
    }
    let ghost before = r@;
    text::push_repeated(&mut r, '\\', backslashes);
    text::push_repeated(&mut r, '\\', backslashes);
    r.push('"');
    proof {
        assert(arg@.skip(k as int).len() == 0);
        assert(r@ =~= before + quoted_rest(arg@.skip(k as int), backslashes as nat));
    }
    r
}

/// The arguments as they stand in a command line.
pub open spec fn all_quoted(args: Seq<Seq<char>>) -> Seq<Seq<char>> {
    args.map_values(|arg: Seq<char>| quoted(arg))
}

/// Writes arguments as a command line.
pub fn join_windows_args(args: &Vec<String>) -> (r: String)
    ensures
        r@ == text::joined(all_quoted(text::views(args@)), " "@),
{
    let mut parts: Vec<String> = Vec::with_capacity(args.len());
    let mut i: usize = 0;
    while i < args.len()
        invariant
            i <= args@.len(),
            text::views(parts@) == all_quoted(text::views(args@).take(i as int)),
        decreases args@.len() - i,
    {
        let ghost before = parts@;
        parts.push(quote_windows_arg(args[i].as_str()));
        proof {
            let arg = text::views(args@)[i as int];
            assert(text::views(parts@) =~= text::views(before).push(quoted(arg)));
            assert(text::views(args@).take(i + 1) =~= text::views(args@).take(i as int).push(arg));
            assert(all_quoted(text::views(args@).take(i + 1)) =~= all_quoted(
                text::views(args@).take(i as int),
            ).push(quoted(arg)));
        }
        i = i + 1;
    }
    assert(text::views(args@).take(i as int) =~= text::views(args@));
    text::join_texts(&parts, " ")
}

// ---------------------------------------------------------------------------
// Reading a command line back
// ---------------------------------------------------------------------------

/// The arguments that the C runtime on Windows reads from the rest of a command line.
///
/// Spaces and tabs outside quotes separate arguments. A quote begins or ends a quoted part; two
/// quotes in a row inside one stand for a quote. Of the backslashes before a quote every two
/// stand for one, and an odd one makes the quote an ordinary character; other backslashes stand
/// for themselves. `pending` backslashes come before the rest, `current` is what the argument
/// at hand has so far, and `started` whether there is one at hand.
pub open spec fn read_arguments(
    rest: Seq<char>,
    in_quotes: bool,
    started: bool,
    pending: nat,
    current: Seq<char>,
) -> Seq<Seq<char>>
    decreases rest.len(),
{
    let literal = current + text::repeated('\\', pending);
    if rest.len() == 0 {
        if started {
            seq![literal]
        } else {
            Seq::empty()
        }
    } else if rest[0] == '\\' {
        read_arguments(rest.skip(1), in_quotes, true, pending + 1, current)
    } else if rest[0] == '"' {
        let halved = current + text::repeated('\\', pending / 2);
        if pending % 2 == 1 {
            read_arguments(rest.skip(1), in_quotes, true, 0, halved.push('"'))
        } else if in_quotes && rest.len() > 1 && rest[1] == '"' {
            read_arguments(rest.skip(2), true, true, 0, halved.push('"'))
        } else {
            read_arguments(rest.skip(1), !in_quotes, true, 0, halved)
        }
    } else if !in_quotes && (rest[0] == ' ' || rest[0] == '\t') {
        if started {
            seq![literal] + read_arguments(rest.skip(1), false, false, 0, Seq::empty())
        } else {
            read_arguments(rest.skip(1), false, false, 0, Seq::empty())
        }
    } else {
        read_arguments(rest.skip(1), in_quotes, true, 0, literal.push(rest[0]))
    }
}

/// The arguments that the C runtime on Windows reads from a command line.
pub open spec fn arguments_of(line: Seq<char>) -> Seq<Seq<char>> {
    read_arguments(line, false, false, 0, Seq::empty())
}

/// A run of backslashes is pending once it has been read.
proof fn lemma_read_backslashes(
    n: nat,
    rest: Seq<char>,
    in_quotes: bool,
    pending: nat,
    current: Seq<char>,
)
    ensures
        read_arguments(text::repeated('\\', n) + rest, in_quotes, true, pending, current)
            == read_arguments(rest, in_quotes, true, pending + n, current),
    decreases n,
{
    let line = text::repeated('\\', n) + rest;
    if n == 0 {
        assert(line =~= rest);
    } else {
        assert(line[0] == '\\');
        assert(line.skip(1) =~= text::repeated('\\', (n - 1) as nat) + rest);
        lemma_read_backslashes((n - 1) as nat, rest, in_quotes, pending + 1, current);
    }
}

/// Whether an argument may end before `rest`.
pub open spec fn is_break(rest: Seq<char>) -> bool {
    rest.len() == 0 || rest[0] == ' '
}

/// What follows an opening quote is read as the argument.
proof fn lemma_read_quoted(s: Seq<char>, pending: nat, current: Seq<char>, rest: Seq<char>)
    requires
        is_break(rest),
    ensures
        read_arguments(quoted_rest(s, pending) + rest, true, true, 0, current) == read_arguments(
            rest,
            false,
            true,
            0,
            current + text::repeated('\\', pending) + s,
        ),
    decreases s.len(),
{
    let line = quoted_rest(s, pending) + rest;
    let read = current + text::repeated('\\', pending);
    if s.len() == 0 {
        let tail = seq!['"'] + rest;
        assert(line =~= text::repeated('\\', 2 * pending) + tail);
        lemma_read_backslashes(2 * pending, tail, true, 0, current);
        assert(tail.skip(1) =~= rest);
        assert(read + s =~= read);
    } else if s[0] == '\\' {
        lemma_read_quoted(s.skip(1), pending + 1, current, rest);
        assert(current + text::repeated('\\', pending + 1) + s.skip(1) =~= read + s);
    } else {
        let body = quoted_rest(s.skip(1), 0) + rest;
        let tail = seq![s[0]] + body;
        assert(tail.skip(1) =~= body);
        if s[0] == '"' {
            assert(line =~= text::repeated('\\', 2 * pending + 1) + tail);
            lemma_read_backslashes(2 * pending + 1, tail, true, 0, current);
        } else {
            assert(line =~= text::repeated('\\', pending) + tail);
            lemma_read_backslashes(pending, tail, true, 0, current);
        }
        lemma_read_quoted(s.skip(1), 0, read.push(s[0]), rest);
        assert(read.push(s[0]) + text::repeated('\\', 0) + s.skip(1) =~= read + s);
    }
}

/// A plain argument is read as it is.
proof fn lemma_read_plain(s: Seq<char>, pending: nat, current: Seq<char>, rest: Seq<char>)
    requires
        is_break(rest),
        forall|i: int| 0 <= i < s.len() ==> !needs_quotes(#[trigger] s[i]),
    ensures
        read_arguments(s + rest, false, true, pending, current) == read_arguments(
            rest,
            false,
            true,
            0,
            current + text::repeated('\\', pending) + s,
        ),
    decreases s.len(),
{
    let read = current + text::repeated('\\', pending);
    if s.len() == 0 {
        assert(s + rest =~= rest);
        assert(read + s =~= read);
        assert(read + text::repeated('\\', 0) =~= read);
    } else {
        assert(!needs_quotes(s[0]));
        assert((s + rest).skip(1) =~= s.skip(1) + rest);
        assert forall|i: int| 0 <= i < s.skip(1).len() implies !needs_quotes(
            #[trigger] s.skip(1)[i],
        ) by {
            assert(s.skip(1)[i] == s[i + 1]);
        }
        if s[0] == '\\' {
            lemma_read_plain(s.skip(1), pending + 1, current, rest);
            assert(current + text::repeated('\\', pending + 1) + s.skip(1) =~= read + s);
        } else {
            lemma_read_plain(s.skip(1), 0, read.push(s[0]), rest);
            assert(read.push(s[0]) + text::repeated('\\', 0) + s.skip(1) =~= read + s);
        }
    }
}

/// A quoted argument is read back, whatever it holds.
proof fn lemma_read_argument(arg: Seq<char>, rest: Seq<char>)
    requires
        is_break(rest),
    ensures
        arguments_of(quoted(arg) + rest) == read_arguments(rest, false, true, 0, arg),
{
    let line = quoted(arg) + rest;
    let nothing = Seq::<char>::empty();
    assert(nothing + text::repeated('\\', 0) =~= nothing);
    if is_plain(arg) {
        assert(!needs_quotes(arg[0]));
        assert(line.skip(1) =~= arg.skip(1) + rest);
        assert forall|i: int| 0 <= i < arg.skip(1).len() implies !needs_quotes(
            #[trigger] arg.skip(1)[i],
        ) by {
            assert(arg.skip(1)[i] == arg[i + 1]);
        }
        if arg[0] == '\\' {
            lemma_read_plain(arg.skip(1), 1, nothing, rest);
            assert(nothing + text::repeated('\\', 1) + arg.skip(1) =~= arg);
        } else {
            lemma_read_plain(arg.skip(1), 0, nothing.push(arg[0]), rest);
            assert(nothing.push(arg[0]) + text::repeated('\\', 0) + arg.skip(1) =~= arg);
        }
    } else {
        assert(line[0] == '"');
        assert(line.skip(1) =~= quoted_rest(arg, 0) + rest);
        lemma_read_quoted(arg, 0, nothing, rest);
        assert(nothing + text::repeated('\\', 0) + arg =~= arg);
    }
}

/// Arguments before a space are read back, and reading goes on behind the space.
proof fn lemma_read_line(args: Seq<Seq<char>>, tail: Seq<char>)
    requires
        args.len() > 0,
    ensures
        arguments_of(text::joined(all_quoted(args), " "@) + " "@ + tail) == args + arguments_of(
            tail,
        ),
    decreases args.len(),
{
    reveal_strlit(" ");
    let parts = all_quoted(args);
    let last = args.last();
    let rest = " "@ + tail;
    lemma_read_argument(last, rest);
    assert(rest.skip(1) =~= tail);
    assert(last + text::repeated('\\', 0) =~= last);
    assert(arguments_of(quoted(last) + rest) == seq![last] + arguments_of(tail));
    if args.len() == 1 {
        assert(text::joined(parts, " "@) + " "@ + tail =~= quoted(last) + rest);
        assert(args + arguments_of(tail) =~= seq![last] + arguments_of(tail));
    } else {
        let first = args.drop_last();
        assert(parts.drop_last() =~= all_quoted(first));
        assert(text::joined(parts, " "@) + " "@ + tail =~= text::joined(all_quoted(first), " "@)
            + " "@ + (quoted(last) + rest));
        lemma_read_line(first, quoted(last) + rest);
        assert(first + (seq![last] + arguments_of(tail)) =~= args + arguments_of(tail));
    }
}

/// A command line keeps its arguments: what the C runtime on Windows reads from joined
/// arguments are the arguments, whatever they hold.
pub proof fn command_line_keeps_arguments(args: Seq<Seq<char>>)
    ensures
        arguments_of(text::joined(all_quoted(args), " "@)) == args,
{
    reveal_strlit(" ");
    let parts = all_quoted(args);
    if args.len() == 0 {
        assert(arguments_of(text::joined(parts, " "@)) =~= args);
    } else {
        let last = args.last();
        let nothing = Seq::<char>::empty();
        lemma_read_argument(last, nothing);
        assert(quoted(last) + nothing =~= quoted(last));
        assert(last + text::repeated('\\', 0) =~= last);
        assert(arguments_of(quoted(last)) =~= seq![last]);
        if args.len() == 1 {
            assert(args =~= seq![last]);
        } else {
            let first = args.drop_last();
            assert(parts.drop_last() =~= all_quoted(first));
            lemma_read_line(first, quoted(last));
            assert(first + seq![last] =~= args);
        }
    }
}

// ---------------------------------------------------------------------------
// Starting again as an administrator
// ---------------------------------------------------------------------------

/// The arguments with which the command line starts itself again.
pub open spec fn trim_arguments(
    config_path: Option<Seq<char>>,
    verbose: bool,
    output: Seq<char>,
) -> Seq<Seq<char>> {
    (match config_path {
        Some(path) => seq!["--config"@, path],
        None => Seq::empty(),
    }) + seq!["trim"@] + (if verbose {
        seq!["--verbose"@]
    } else {
        Seq::empty()
    }) + seq!["--elevated-child"@, "--elevated-output"@, output]
}

/// Lists the arguments with which the command line starts itself again.
pub fn elevated_trim_arguments(config_path: Option<&str>, verbose: bool, output: &str) -> (r: Vec<
    String,
>)
    ensures
        text::views(r@) == trim_arguments(
            crate::config::option_view(config_path),
            verbose,
            output@,
        ),
{
    let mut r: Vec<String> = Vec::new();
    if let Some(path) = config_path {
        r.push("--config".to_owned());
        r.push(path.to_owned());
    }
    r.push("trim".to_owned());
    if verbose {
        r.push("--verbose".to_owned());
    }
    r.push("--elevated-child".to_owned());
    r.push("--elevated-output".to_owned());
    r.push(output.to_owned());
    assert(text::views(r@) =~= trim_arguments(
        crate::config::option_view(config_path),
        verbose,
        output@,
    ));
    r
}

/// The arguments with which the window starts itself again.
pub open spec fn window_arguments(output: Seq<char>) -> Seq<Seq<char>> {
    seq!["--elevated-child"@, "--elevated-output"@, output]
}

/// Lists the arguments with which the window starts itself again.
pub fn elevated_window_arguments(output: &str) -> (r: Vec<String>)
    ensures
        text::views(r@) == window_arguments(output@),
{
    let mut r: Vec<String> = Vec::new();
    r.push("--elevated-child".to_owned());
    r.push("--elevated-output".to_owned());
    r.push(output.to_owned());
    assert(text::views(r@) =~= window_arguments(output@));
    r
}

/// What the arguments ask of a process that may have been started as an administrator.
#[derive(Debug, Clone, Copy, PartialEq, Eq, Structural)]
pub enum ChildRequest {
    /// Nothing: the process was started by hand.
    NotAChild,
    /// A report, but not where to write it.
    NoOutput,
    /// A report, to be written to the argument with this number.
    Report(usize),
}

/// Where the arguments from `from` on name an output, if they do; `found` is what the earlier
/// ones named. The argument behind the flag is the output, and only that.
pub open spec fn named_output(args: Seq<Seq<char>>, from: int, found: Option<int>) -> Option<int>
    decreases args.len() + 1 - from,
{
    if from >= args.len() {
        found
    } else if args[from] == "--elevated-output"@ {
        named_output(
            args,
            from + 2,
            if from + 1 < args.len() {
                Some(from + 1)
            } else {
                None
            },
        )
    } else {
        named_output(args, from + 1, found)
    }
}

/// Whether the arguments from `from` on name the process a child.
pub open spec fn named_child(args: Seq<Seq<char>>, from: int) -> bool
    decreases args.len() + 1 - from,
{
    if from >= args.len() {
        false
    } else if args[from] == "--elevated-output"@ {
        named_child(args, from + 2)
    } else {
        args[from] == "--elevated-child"@ || named_child(args, from + 1)
    }
}

/// What arguments ask of a process.
pub open spec fn request(args: Seq<Seq<char>>) -> ChildRequest {
    if !named_child(args, 0) {
        ChildRequest::NotAChild
    } else {
        match named_output(args, 0, None) {
            Some(at) => ChildRequest::Report(at as usize),
            None => ChildRequest::NoOutput,
        }
    }
}

/// Reads what arguments ask of a process; the name of the program is not among them.
pub fn child_request(args: &Vec<String>) -> (r: ChildRequest)
    ensures
        r == request(text::views(args@)),
        r matches ChildRequest::Report(at) ==> at < args@.len(),
{
    let ghost all = text::views(args@);
    let n: usize = args.len();
    let mut is_child: bool = false;
    let mut output: Option<usize> = None;
    let mut i: usize = 0;
    let ghost mut found: Option<int> = None;
    proof {
        reveal_strlit("--elevated-child");
        reveal_strlit("--elevated-output");
        assert("--elevated-child"@.len() != "--elevated-output"@.len());
    }
    while i < n
        invariant
            i <= n,
            n == args@.len(),
            all == text::views(args@),
            "--elevated-child"@ != "--elevated-output"@,
            named_child(all, 0) == (is_child || named_child(all, i as int)),
            named_output(all, 0, None) == named_output(all, i as int, found),
            match output {
                Some(at) => found == Some(at as int) && at < n,
                None => found is None,
            },
        decreases n - i,
    {
        assert(all[i as int] == args@[i as int]@);
        if text::same_text(args[i].as_str(), "--elevated-output") {
            if n - i >= 2 {
                output = Some(i + 1);
                proof {
                    found = Some(i + 1);
                }
                i = i + 2;
            } else {
                output = None;
                proof {
                    found = None;
                    assert(named_child(all, i + 2) == false);
                    assert(named_output(all, i + 2, found) == found);
                }
                i = n;
            }
        } else {
            if text::same_text(args[i].as_str(), "--elevated-child") {
                is_child = true;
            }
            i = i + 1;
        }
    }
    if !is_child {
        return ChildRequest::NotAChild;
    }
    match output {
        Some(at) => ChildRequest::Report(at),
        None => ChildRequest::NoOutput,
    }
}

/// The child understands its parent: the arguments with which the window starts itself again
/// ask for a report, to be written where the window will look for it.
pub proof fn child_understands_window(output: Seq<char>)
    ensures
        request(window_arguments(output)) == ChildRequest::Report(2),
        window_arguments(output)[2] == output,
{
    reveal_strlit("--elevated-child");
    reveal_strlit("--elevated-output");
    let args = window_arguments(output);
    assert("--elevated-child"@.len() != "--elevated-output"@.len());
    assert(named_output(args, 3, Some(2)) == Some(2int));
    assert(named_output(args, 1, None) == Some(2int));
}

/// The name of the file that a child writes its report to.
pub open spec fn output_name(kind: Seq<char>, pid: nat, now_ms: nat) -> Seq<char> {
    "memspark-"@ + kind + "-"@ + text::decimal(pid) + "-"@ + text::decimal(now_ms) + ".json"@
}

/// Writes the name of the file that a child writes its report to.
pub fn elevated_output_name(kind: &str, pid: u32, now_ms: u128) -> (r: String)
    ensures
        r@ == output_name(kind@, pid as nat, now_ms as nat),
{
    let mut r: String = "memspark-".to_owned();
    r.append(kind);
    r.append("-");
    r.append(text::decimal_text(pid as u128).as_str());
    r.append("-");
    r.append(text::decimal_text(now_ms).as_str());
    r.append(".json");
    r
}

/// Whether rights are missing that an optimization needs.
pub open spec fn lacks_rights(dry_run: bool, is_child: bool, is_admin: bool) -> bool {
    !dry_run && !is_child && !is_admin
}

/// Whether an optimization has to be started again as an administrator.
pub fn needs_elevation(dry_run: bool, is_child: bool, is_admin: bool) -> (r: bool)
    ensures
        r == lacks_rights(dry_run, is_child, is_admin),
        r == (!dry_run && !is_child && !is_admin),
{
    !dry_run && !is_child && !is_admin
}

/// The exit code of a child, if the process is one.
pub open spec fn exit_code(request: ChildRequest, succeeded: bool) -> Option<i32> {
    match request {
        ChildRequest::NotAChild => None::<i32>,
        ChildRequest::NoOutput => Some(2i32),
        ChildRequest::Report(_) => if succeeded {
            Some(0i32)
        } else {
            Some(1i32)
        },
    }
}

/// The exit code of a child: success, failure, or a report without a place to write it to.
pub fn child_exit_code(request: ChildRequest, succeeded: bool) -> (r: Option<i32>)
    ensures
        r == exit_code(request, succeeded),
{
    match request {
        ChildRequest::NotAChild => None,
        ChildRequest::NoOutput => Some(2),
        ChildRequest::Report(_) => if succeeded {
            Some(0)
        } else {
            Some(1)
        },
    }
}

/// An argument without white space and quotes is written as it is, and any other between
/// quotes.
pub proof fn plain_arguments_are_written_as_they_are(arg: Seq<char>)
    ensures
        arg.len() > 0 && (forall|i: int|
            0 <= i < arg.len() ==> !text::is_white_space(#[trigger] arg[i]) && arg[i] != '"')
            ==> quoted(arg) == arg,
        arg.len() == 0 ==> quoted(arg) == seq!['"', '"'],
        (exists|i: int|
            0 <= i < arg.len() && (text::is_white_space(#[trigger] arg[i]) || arg[i] == '"'))
            ==> quoted(arg).len() >= 2 && quoted(arg)[0] == '"' && quoted(arg).last() == '"',
{
    if arg.len() > 0 && (forall|i: int|
        0 <= i < arg.len() ==> !text::is_white_space(#[trigger] arg[i]) && arg[i] != '"') {
        assert forall|i: int| 0 <= i < arg.len() implies !needs_quotes(#[trigger] arg[i]) by {}
        assert(is_plain(arg));
    }
    if arg.len() == 0 {
        assert(text::repeated('\\', 0) =~= Seq::<char>::empty());
        assert(quoted(arg) =~= seq!['"', '"']);
    }
    if exists|i: int|
        0 <= i < arg.len() && (text::is_white_space(#[trigger] arg[i]) || arg[i] == '"') {
        let i = choose|i: int|
            0 <= i < arg.len() && (text::is_white_space(#[trigger] arg[i]) || arg[i] == '"');
        assert(needs_quotes(arg[i]));
        lemma_quote_closes(arg, 0);
    }
}

/// What follows the opening quote ends with the closing one.
proof fn lemma_quote_closes(rest: Seq<char>, pending: nat)
    ensures
        quoted_rest(rest, pending).len() >= 1,
        quoted_rest(rest, pending).last() == '"',
    decreases rest.len(),
{
    if rest.len() > 0 {
        if rest[0] == '\\' {
            lemma_quote_closes(rest.skip(1), pending + 1);
        } else {
            lemma_quote_closes(rest.skip(1), 0);
        }
    }
}

/// The command line starts itself again with its configuration, if one was named, the command,
/// the wish for detail, and the word that it is a child with the place for its report.
pub proof fn restarts_keep_what_was_asked(
    path: Seq<char>,
    verbose: bool,
    output: Seq<char>,
)
    ensures
        trim_arguments(Some(path), true, output) == seq![
            "--config"@,
            path,
            "trim"@,
            "--verbose"@,
            "--elevated-child"@,
            "--elevated-output"@,
            output,
        ],
        trim_arguments(Some(path), verbose, output) == seq!["--config"@, path] + trim_arguments(
            None,
            verbose,
            output,
        ),
        trim_arguments(None, true, output).contains("--verbose"@),
        trim_arguments(None, false, output) == seq![
            "trim"@,
            "--elevated-child"@,
            "--elevated-output"@,
            output,
        ],
        trim_arguments(None, verbose, output).last() == output,
{
    assert(trim_arguments(Some(path), true, output) =~= seq![
        "--config"@,
        path,
        "trim"@,
        "--verbose"@,
        "--elevated-child"@,
        "--elevated-output"@,
        output,
    ]);
    assert(trim_arguments(Some(path), verbose, output) =~= seq!["--config"@, path] + trim_arguments(
        None,
        verbose,
        output,
    ));
    assert(trim_arguments(None, true, output)[1] == "--verbose"@);
    assert(trim_arguments(None, false, output) =~= seq![
        "trim"@,
        "--elevated-child"@,
        "--elevated-output"@,
        output,
    ]);
}

/// A process is no child unless it is told so.
pub proof fn children_are_told_so(args: Seq<Seq<char>>)
    requires
        forall|i: int| 0 <= i < args.len() ==> #[trigger] args[i] != "--elevated-child"@,
    ensures
        request(args) == ChildRequest::NotAChild,
{
    lemma_no_child(args, 0);
}

/// Without the word for it, no arguments name a child.
proof fn lemma_no_child(args: Seq<Seq<char>>, from: int)
    requires
        0 <= from,
        forall|i: int| 0 <= i < args.len() ==> #[trigger] args[i] != "--elevated-child"@,
    ensures
        !named_child(args, from),
    decreases args.len() + 1 - from,
{
    if from < args.len() {
        if args[from] == "--elevated-output"@ {
            lemma_no_child(args, from + 2);
        } else {
            lemma_no_child(args, from + 1);
        }
    }
}

/// The argument behind the flag is the output; a flag that stands last names none. What is
/// named later counts.
pub proof fn outputs_follow_their_flag(args: Seq<Seq<char>>, from: int, found: Option<int>)
    requires
        0 <= from < args.len(),
    ensures
        args[from] != "--elevated-output"@ ==> named_output(args, from, found) == named_output(
            args,
            from + 1,
            found,
        ),
        args[from] == "--elevated-output"@ && from + 1 == args.len() ==> named_output(
            args,
            from,
            found,
        ) is None,
        args[from] == "--elevated-output"@ && from + 1 < args.len() ==> named_output(
            args,
            from,
            found,
        ) == named_output(args, from + 2, Some(from + 1)),
        named_output(args, args.len() as int, found) == found,
{
    assert(from + 1 == args.len() ==> named_output(args, from + 2, None) is None);
}

/// A process that is told to be a child is asked for a report where an output is named, and
/// else has nowhere to write it.
pub proof fn children_report_where_told(args: Seq<Seq<char>>)
    requires
        named_child(args, 0),
    ensures
        named_output(args, 0, None) is None ==> request(args) == ChildRequest::NoOutput,
        named_output(args, 0, None) matches Some(at) ==> request(args) == ChildRequest::Report(
            at as usize,
        ),
{
}

/// The word for a child counts wherever it stands but behind the flag for the output.
pub proof fn the_word_for_a_child_counts(args: Seq<Seq<char>>, from: int)
    requires
        0 <= from < args.len(),
    ensures
        args[from] == "--elevated-child"@ ==> named_child(args, from),
        args[from] != "--elevated-child"@ && args[from] != "--elevated-output"@ ==> named_child(
            args,
            from,
        ) == named_child(args, from + 1),
        args[from] == "--elevated-output"@ ==> named_child(args, from) == named_child(
            args,
            from + 2,
        ),
{
    reveal_strlit("--elevated-child");
    reveal_strlit("--elevated-output");
    assert("--elevated-child"@.len() != "--elevated-output"@.len());
}

/// Only an optimization that is carried out needs rights, and only one that has none and was
/// not started with them.
pub proof fn rights_are_asked_for_once(dry_run: bool, is_child: bool, is_admin: bool)
    ensures
        dry_run ==> !lacks_rights(dry_run, is_child, is_admin),
        is_child ==> !lacks_rights(dry_run, is_child, is_admin),
        is_admin ==> !lacks_rights(dry_run, is_child, is_admin),
        lacks_rights(false, false, false),
{
}

/// The exit code tells how a child fared: 0 for a report, 1 for a failure, 2 for no place to
/// write it; a process that is no child has none.
pub proof fn exit_codes_tell_how_a_child_fared(at: usize, succeeded: bool)
    ensures
        exit_code(ChildRequest::NotAChild, succeeded) is None,
        exit_code(ChildRequest::NoOutput, succeeded) == Some(2i32),
        exit_code(ChildRequest::Report(at), true) == Some(0i32),
        exit_code(ChildRequest::Report(at), false) == Some(1i32),
{
}

/// The file for a child's report is named after the kind, the process and the time.
pub proof fn report_files_of_children_are_told_apart(kind: Seq<char>, pid: nat, a: nat, b: nat)
    requires
        output_name(kind, pid, a) == output_name(kind, pid, b),
    ensures
        a == b,
        output_name(kind, pid, a) == "memspark-"@ + kind + "-"@ + text::decimal(pid) + "-"@
            + text::decimal(a) + ".json"@,
{
    let stem = "memspark-"@ + kind + "-"@ + text::decimal(pid) + "-"@;
    let x = output_name(kind, pid, a);
    let y = output_name(kind, pid, b);
    let k = stem.len() as int;
    assert(x.subrange(k, x.len() - ".json"@.len()) =~= text::decimal(a));
    assert(y.subrange(k, y.len() - ".json"@.len()) =~= text::decimal(b));
    text::decimal_determines_number(a, b);
}

} // verus!
