//! What a command execution produces and how its exit status is judged.
use vstd::prelude::*;
use std::time::Duration;

use crate::error::Error;

verus! {

/// Whether `c` is white space in the sense of Unicode's `White_Space`
/// property (the characters that `char::is_whitespace` accepts).
pub open spec fn is_white(c: char) -> bool {
    let n = c as u32;
    (9 <= n <= 13) || n == 32 || n == 0x85 || n == 0xA0 || n == 0x1680 || (0x2000 <= n <= 0x200A)
        || n == 0x2028 || n == 0x2029 || n == 0x202F || n == 0x205F || n == 0x3000
}

/// The number of white-space characters at the start of `s`.
pub open spec fn leading_white(s: Seq<char>) -> nat
    decreases s.len(),
{
    if s.len() > 0 && is_white(s[0]) {
        1 + leading_white(s.drop_first())
    } else {
        0
    }
}

/// The number of white-space characters at the end of `s`.
pub open spec fn trailing_white(s: Seq<char>) -> nat
    decreases s.len(),
{
    if s.len() > 0 && is_white(s.last()) {
        1 + trailing_white(s.drop_last())
    } else {
        0
    }
}

/// `s` without its trailing white space.
pub open spec fn trim_end(s: Seq<char>) -> Seq<char> {
    s.subrange(0, s.len() - trailing_white(s))
}

/// `s` without its leading white space.
pub open spec fn trim_start(s: Seq<char>) -> Seq<char> {
    s.subrange(leading_white(s) as int, s.len() as int)
}

/// `s` without leading and trailing white space.
pub open spec fn trim(s: Seq<char>) -> Seq<char> {
    trim_end(trim_start(s))
}

/// The position of the first line feed of `s`, or its length where there is
/// none.
pub open spec fn newline_pos(s: Seq<char>) -> int
    decreases s.len(),
{
    if s.len() == 0 {
        0
    } else if s[0] == '\n' {
        0
    } else {
        1 + newline_pos(s.drop_first())
    }
}

/// A line without the carriage return that ended it, if any.
pub open spec fn drop_cr(line: Seq<char>) -> Seq<char> {
    if line.len() > 0 && line.last() == '\r' {
        line.drop_last()
    } else {
        line
    }
}

/// The lines of `s`: split at `\n` or `\r\n`, terminators left out, and a
/// final line ending optional.
pub open spec fn split_lines(s: Seq<char>) -> Seq<Seq<char>>
    decreases s.len(),
{
    if s.len() == 0 {
        seq![]
    } else {
        let k = newline_pos(s);
        if k >= s.len() {
            seq![s]
        } else {
            proof { lemma_newline_pos_bounds(s); }
            seq![drop_cr(s.take(k))] + split_lines(s.skip(k + 1))
        }
    }
}

/// The first line feed lies within the text, at or after its start.
pub proof fn lemma_newline_pos_bounds(s: Seq<char>)
    ensures
        0 <= newline_pos(s) <= s.len(),
        newline_pos(s) < s.len() ==> s[newline_pos(s)] == '\n',
        forall|i: int| 0 <= i < newline_pos(s) ==> s[i] != '\n',
    decreases s.len(),
{
    if s.len() > 0 && s[0] != '\n' {
        lemma_newline_pos_bounds(s.drop_first());
        assert forall|i: int| 0 <= i < newline_pos(s) implies s[i] != '\n' by {
            if i > 0 {
                assert(s[i] == s.drop_first()[i - 1]);
            }
        }
    }
}

/// `str::lines` from std: the lines of `s`, split at `\n` or `\r\n`, with the
/// line terminators left out and the final line ending optional, as its
/// documentation states.
#[verifier::external_body]
fn str_lines(s: &str) -> (r: Vec<&str>)
    ensures
        r@.map_values(|l: &str| l@) == split_lines(s@),
{
    s.lines().collect()
}

/// Whether `c` is white space (see [`is_white`]).
pub fn char_is_white(c: char) -> (b: bool)
    ensures
        b == is_white(c),
{
    let n = c as u32;
    (9 <= n && n <= 13) || n == 32 || n == 0x85 || n == 0xA0 || n == 0x1680 || (0x2000 <= n && n <= 0x200A)
        || n == 0x2028 || n == 0x2029 || n == 0x202F || n == 0x205F || n == 0x3000
}

proof fn lemma_trailing_white_bound(s: Seq<char>)
    ensures
        trailing_white(s) <= s.len(),
        forall|i: int| s.len() - trailing_white(s) <= i < s.len() ==> is_white(s[i]),
        trailing_white(s) < s.len() ==> !is_white(s[s.len() - trailing_white(s) - 1]),
    decreases s.len(),
{
    if s.len() > 0 && is_white(s.last()) {
        lemma_trailing_white_bound(s.drop_last());
        assert forall|i: int| s.len() - trailing_white(s) <= i < s.len() implies is_white(s[i]) by {
            if i < s.len() - 1 {
                assert(s[i] == s.drop_last()[i]);
            }
        }
        if trailing_white(s) < s.len() {
            assert(s[s.len() - trailing_white(s) - 1] == s.drop_last()[s.drop_last().len() - trailing_white(s.drop_last()) - 1]);
        }
    }
}

proof fn lemma_leading_white_bound(s: Seq<char>)
    ensures
        leading_white(s) <= s.len(),
        forall|i: int| 0 <= i < leading_white(s) ==> is_white(s[i]),
        leading_white(s) < s.len() ==> !is_white(s[leading_white(s) as int]),
    decreases s.len(),
{
    if s.len() > 0 && is_white(s[0]) {
        let t = s.drop_first();
        lemma_leading_white_bound(t);
        assert forall|i: int| 0 <= i < leading_white(s) implies is_white(s[i]) by {
            if i > 0 {
                assert(s[i] == t[i - 1]);
            }
        }
        if leading_white(s) < s.len() {
            assert(s[leading_white(s) as int] == t[leading_white(t) as int]);
        }
    }
}

/// Trimming keeps a contiguous part of the text: everything cut off is
/// white space, and what is kept neither starts nor ends with white space.
pub proof fn law_trim(s: Seq<char>)
    ensures
        exists|a: int, b: int| 0 <= a <= b <= s.len() && #[trigger] s.subrange(a, b) == trim(s)
            && (forall|i: int| 0 <= i < a ==> is_white(s[i]))
            && (forall|i: int| b <= i < s.len() ==> is_white(s[i])),
        trim(s).len() > 0 ==> !is_white(trim(s)[0]) && !is_white(trim(s).last()),
        trim_end(s) == s.subrange(0, trim_end(s).len() as int),
        forall|i: int| trim_end(s).len() <= i < s.len() ==> is_white(s[i]),
        trim_end(s).len() > 0 ==> !is_white(trim_end(s).last()),
{
    lemma_trailing_white_bound(s);
    lemma_leading_white_bound(s);
    let a = leading_white(s) as int;
    let u = trim_start(s);
    lemma_trailing_white_bound(u);
    let b = a + u.len() - trailing_white(u);
    assert forall|i: int| b <= i < s.len() implies is_white(s[i]) by {
        assert(s[i] == u[i - a]);
    }
    assert(s.subrange(a, b) =~= trim(s));
    if trim(s).len() > 0 {
        assert(trim(s)[0] == s[a]);
        assert(trim(s).last() == u[u.len() - trailing_white(u) - 1]);
    }
    if trim_end(s).len() > 0 {
        assert(trim_end(s).last() == s[s.len() - trailing_white(s) - 1]);
    }
}

/// Counting trailing white space from a cut point: if everything after `k`
/// is white space and the character before `k` is not, `k` is where the
/// trailing white space starts.
proof fn lemma_trailing_white_at(s: Seq<char>, k: int)
    requires
        0 <= k <= s.len(),
        forall|i: int| k <= i < s.len() ==> is_white(s[i]),
        k == 0 || !is_white(s[k - 1]),
    ensures
        s.len() - trailing_white(s) == k,
    decreases s.len(),
{
    if s.len() > k {
        assert(is_white(s.last()));
        let t = s.drop_last();
        assert forall|i: int| k <= i < t.len() implies is_white(t[i]) by {
            assert(t[i] == s[i]);
        }
        if k > 0 {
            assert(t[k - 1] == s[k - 1]);
        }
        lemma_trailing_white_at(t, k);
    } else {
        if s.len() > 0 {
            assert(s.last() == s[k - 1]);
        }
    }
}

/// Counting leading white space from a cut point.
proof fn lemma_leading_white_at(s: Seq<char>, k: int)
    requires
        0 <= k <= s.len(),
        forall|i: int| 0 <= i < k ==> is_white(s[i]),
        k == s.len() || !is_white(s[k]),
    ensures
        leading_white(s) == k,
    decreases s.len(),
{
    if k > 0 {
        let t = s.drop_first();
        assert forall|i: int| 0 <= i < k - 1 implies is_white(t[i]) by {
            assert(t[i] == s[i + 1]);
        }
        if k < s.len() {
            assert(t[k - 1] == s[k]);
        }
        assert(is_white(s[0]));
        lemma_leading_white_at(t, k - 1);
    }
}

/// `s` without its trailing white space.
pub fn str_trim_end(s: &str) -> (r: String)
    ensures
        r@ == trim_end(s@),
{
    let n = s.unicode_len();
    let mut k: usize = n;
    while k > 0 && char_is_white(s.get_char(k - 1))
        invariant
            n == s@.len(),
            k <= n,
            forall|i: int| k <= i < n ==> is_white(s@[i]),
        decreases k,
    {
        k -= 1;
    }
    proof {
        lemma_trailing_white_at(s@, k as int);
    }
    String::from_str(s.substring_char(0, k))
}

/// `s` without leading and trailing white space.
pub fn str_trim(s: &str) -> (r: String)
    ensures
        r@ == trim(s@),
{
    let n = s.unicode_len();
    let mut k: usize = 0;
    while k < n && char_is_white(s.get_char(k))
        invariant
            n == s@.len(),
            k <= n,
            forall|i: int| 0 <= i < k ==> is_white(s@[i]),
        decreases n - k,
    {
        k += 1;
    }
    proof {
        lemma_leading_white_at(s@, k as int);
    }
    let rest = s.substring_char(k, n);
    assert(rest@ == trim_start(s@));
    str_trim_end(rest)
}

/// Raw output from a Terraform command execution.
#[derive(Debug, Clone)]
pub struct CommandOutput {
    /// Standard output.
    pub stdout: String,
    /// Standard error.
    pub stderr: String,
    /// Process exit code.
    pub exit_code: i32,
    /// Whether the command exited successfully.
    pub success: bool,
}

impl CommandOutput {
    /// Split stdout into lines.
    pub fn stdout_lines(&self) -> (r: Vec<&str>)
        ensures
            r@.map_values(|l: &str| l@) == split_lines(self.stdout@),
    {
        str_lines(self.stdout.as_str())
    }

    /// The text of this output for display: stdout without leading and
    /// trailing white space.
    pub fn to_string(&self) -> (s: String)
        ensures
            s@ == trim(self.stdout@),
    {
        str_trim(self.stdout.as_str())
    }
}

/// A process to start: the program, its arguments, its environment and how
/// long it may run.
#[derive(Debug, Clone)]
pub struct Invocation {
    /// The program to run.
    pub program: String,
    /// Its arguments, in order.
    pub args: Vec<String>,
    /// Environment variables to set.
    pub env: Vec<(String, String)>,
    /// How long the process may run, if limited.
    pub timeout: Option<Duration>,
}

/// The exit code recorded for a process: its status code, or -1 where it
/// has none (killed by a signal).
pub open spec fn exit_status(code: Option<i32>) -> i32 {
    match code {
        Some(c) => c,
        None => -1i32,
    }
}

/// The subcommand name that a failure reports: the first argument, or the
/// empty string where there is none.
pub open spec fn failed_command(command_args: Seq<Seq<char>>) -> Seq<char> {
    if command_args.len() > 0 {
        command_args[0]
    } else {
        Seq::empty()
    }
}

/// A process with a status code reports that code, one killed by a signal
/// reports -1; a failure names the first argument, or nothing where there
/// are no arguments.
pub proof fn law_exit_status_and_command(code: i32, command_args: Seq<Seq<char>>)
    ensures
        exit_status(Some(code)) == code,
        exit_status(None) == -1,
        command_args.len() > 0 ==> failed_command(command_args) == command_args[0],
        command_args.len() == 0 ==> failed_command(command_args).len() == 0,
{
}

/// Whether `codes` holds `code`.
pub fn contains_code(codes: &[i32], code: i32) -> (b: bool)
    ensures
        b == codes@.contains(code),
{
    let mut i: usize = 0;
    while i < codes.len()
        invariant
            i <= codes.len(),
            forall|j: int| 0 <= j < i ==> codes@[j] != code,
        decreases codes.len() - i,
    {
        if codes[i] == code {
            assert(codes@[i as int] == code);
            return true;
        }
        i += 1;
    }
    false
}

/// The outcome of a finished command: success exactly when its exit code is
/// one of `allowed_codes`; otherwise a [`Error::CommandFailed`] naming the
/// subcommand (the first argument) and carrying the exit code and the
/// captured output.
pub fn command_result(
    command_args: &Vec<String>,
    allowed_codes: &[i32],
    stdout: String,
    stderr: String,
    code: Option<i32>,
) -> (r: Result<CommandOutput, Error>)
    ensures
        allowed_codes@.contains(exit_status(code)) <==> r is Ok,
        r matches Ok(out) ==> out.stdout == stdout && out.stderr == stderr
            && out.exit_code == exit_status(code) && out.success,
        r matches Err(e) ==> e matches Error::CommandFailed { command, exit_code, stdout: o, stderr: x }
            && command@ == failed_command(command_args.deep_view()) && exit_code == exit_status(code)
            && o == stdout && x == stderr,
{
    let exit_code = match code {
        Some(c) => c,
        None => -1,
    };
    let success = contains_code(allowed_codes, exit_code);
    if !success {
        let command = if command_args.len() > 0 {
            command_args[0].clone()
        } else {
            String::new()
        };
        return Err(Error::CommandFailed { command, exit_code, stdout, stderr });
    }
    Ok(CommandOutput { stdout, stderr, exit_code, success })
}

} // verus!
