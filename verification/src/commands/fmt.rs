//! `terraform fmt`.
use vstd::prelude::*;

use crate::command::TerraformCommand;
use crate::text::{
    flag_arg, lemma_contains_append, lemma_contains_prepend, opt_bool, push_all, push_flag, push_opt_bool, push_str,
};

verus! {

/// The options of a [`FmtCommand`], as plain values.
#[verifier::ext_equal]
pub struct FmtOptions {
    pub check: bool,
    pub diff: bool,
    pub recursive: bool,
    pub write: Option<bool>,
    pub raw_args: Seq<Seq<char>>,
}

impl FmtOptions {
    /// The options of a fresh command.
    pub open spec fn initial() -> Self {
        FmtOptions {
            check: false,
            diff: false,
            recursive: false,
            write: None,
            raw_args: seq![],
        }
    }

    /// `fmt`, its flags in a fixed order, then the raw arguments.
    pub open spec fn args(self) -> Seq<Seq<char>> {
        seq!["fmt"@]
            + flag_arg(self.check, "-check"@)
            + flag_arg(self.diff, "-diff"@)
            + flag_arg(self.recursive, "-recursive"@)
            + opt_bool("-write="@, self.write)
            + self.raw_args
    }
}

/// Command for formatting Terraform configuration files.
///
/// By default, rewrites files in-place. Use `.check()` to only verify
/// formatting without modifying files, or `.diff()` to display differences.
#[derive(Debug, Clone, Default)]
pub struct FmtCommand {
    check: bool,
    diff: bool,
    recursive: bool,
    write: Option<bool>,
    raw_args: Vec<String>,
}

impl View for FmtCommand {
    type V = FmtOptions;

    closed spec fn view(&self) -> FmtOptions {
        FmtOptions {
            check: self.check,
            diff: self.diff,
            recursive: self.recursive,
            write: self.write,
            raw_args: self.raw_args.deep_view(),
        }
    }
}

impl FmtCommand {
    /// Create a new fmt command with default options.
    pub fn new() -> (r: Self)
        ensures
            r@ == FmtOptions::initial(),
    {
        let r = FmtCommand {
            check: false,
            diff: false,
            recursive: false,
            write: None,
            raw_args: Vec::new(),
        };
        assert(r@ =~= FmtOptions::initial());
        r
    }

    /// Check if files are formatted without modifying them (`-check`).
    ///
    /// Returns exit code 0 if all files are formatted, exit code 3 if not.
    pub fn check(self) -> (r: Self)
        ensures
            r@ == (FmtOptions { check: true, ..self@ }),
    {
        FmtCommand { check: true, ..self }
    }

    /// Display diffs of formatting changes (`-diff`).
    pub fn diff(self) -> (r: Self)
        ensures
            r@ == (FmtOptions { diff: true, ..self@ }),
    {
        FmtCommand { diff: true, ..self }
    }

    /// Process files in subdirectories recursively (`-recursive`).
    pub fn recursive(self) -> (r: Self)
        ensures
            r@ == (FmtOptions { recursive: true, ..self@ }),
    {
        FmtCommand { recursive: true, ..self }
    }

    /// Control whether to write changes to files (`-write`).
    pub fn write(self, enabled: bool) -> (r: Self)
        ensures
            r@ == (FmtOptions { write: Some(enabled), ..self@ }),
    {
        FmtCommand { write: Some(enabled), ..self }
    }

    /// Add a raw argument (escape hatch for unsupported options).
    pub fn arg(self, arg: &str) -> (r: Self)
        ensures
            r@ == (FmtOptions { raw_args: self@.raw_args.push(arg@), ..self@ }),
    {
        let mut s = self;
        push_str(&mut s.raw_args, arg);
        s
    }
}

impl TerraformCommand for FmtCommand {
    open spec fn spec_args(&self) -> Seq<Seq<char>> {
        self@.args()
    }

    open spec fn spec_supports_input(&self) -> bool {
        false
    }

    fn args(&self) -> (r: Vec<String>) {
        let mut args: Vec<String> = Vec::new();
        push_str(&mut args, "fmt");
        assert(args.deep_view() =~= seq!["fmt"@]);
        push_flag(&mut args, self.check, "-check");
        push_flag(&mut args, self.diff, "-diff");
        push_flag(&mut args, self.recursive, "-recursive");
        push_opt_bool(&mut args, "-write=", self.write);
        push_all(&mut args, &self.raw_args);
        assert(args.deep_view().len() == args@.len());
        args
    }

    fn supports_input(&self) -> (b: bool) {
        false
    }
}

/// `fmt` comes first.
pub proof fn law_fmt_layout(o: FmtOptions)
    ensures
        o.args()[0] == "fmt"@,
{
}

impl FmtCommand {
    /// The exit codes that count as success: 0, and 3 for "files need
    /// formatting" under `-check`.
    pub fn accepted_exit_codes(&self) -> (r: Vec<i32>)
        ensures
            r@ == seq![0i32, 3i32],
    {
        let r = vec![0i32, 3i32];
        assert(r@ =~= seq![0i32, 3i32]);
        r
    }
}

/// Every option set on the command reaches its arguments as the one
/// argument Terraform expects for it, the subcommand comes first, and there
/// is one argument per option set and nothing more.
pub proof fn law_fmt_arguments(o: FmtOptions)
    ensures
        o.args()[0] == "fmt"@,
        o.args().len() == 1 + (if o.check { 1int } else { 0int }) + (if o.diff { 1int } else { 0int }) + (if o.recursive { 1int } else { 0int }) + (if o.write is Some { 1int } else { 0int }) + o.raw_args.len(),
        o.check ==> o.args().contains("-check"@),
        o.diff ==> o.args().contains("-diff"@),
        o.recursive ==> o.args().contains("-recursive"@),
        o.write == Some(true) ==> o.args().contains("-write="@ + "true"@),
        o.write == Some(false) ==> o.args().contains("-write="@ + "false"@),
        forall|i: int| 0 <= i < o.raw_args.len() ==> o.args().contains(#[trigger] o.raw_args[i]),
{
    lemma_fmt_args_first(o);
    lemma_fmt_args_len(o);
    lemma_fmt_args_has_0(o);
    lemma_fmt_args_has_1(o);
    lemma_fmt_args_has_2(o);
    lemma_fmt_args_has_3(o);
    lemma_fmt_args_has_4(o);
    lemma_fmt_args_has_5(o);
}

proof fn lemma_fmt_args_len(o: FmtOptions)
    ensures
        o.args().len() == 1 + (if o.check { 1int } else { 0int }) + (if o.diff { 1int } else { 0int }) + (if o.recursive { 1int } else { 0int }) + (if o.write is Some { 1int } else { 0int }) + o.raw_args.len(),
{
    assert((seq!["fmt"@]).len() == 1);
    assert((flag_arg(o.check, "-check"@)).len() == (if o.check { 1int } else { 0int }));
    assert((flag_arg(o.diff, "-diff"@)).len() == (if o.diff { 1int } else { 0int }));
    assert((flag_arg(o.recursive, "-recursive"@)).len() == (if o.recursive { 1int } else { 0int }));
    assert((opt_bool("-write="@, o.write)).len() == (if o.write is Some { 1int } else { 0int }));
    assert((o.raw_args).len() == o.raw_args.len());
}

proof fn lemma_fmt_args_first(o: FmtOptions)
    ensures
        o.args()[0] == "fmt"@,
{
}

proof fn lemma_fmt_args_has_0(o: FmtOptions)
    ensures
        o.check ==> o.args().contains("-check"@),
{
    if o.check {
        assert(flag_arg(o.check, "-check"@)[0] == "-check"@);
        lemma_fmt_args_part_1(o, "-check"@);
    }
}

proof fn lemma_fmt_args_has_1(o: FmtOptions)
    ensures
        o.diff ==> o.args().contains("-diff"@),
{
    if o.diff {
        assert(flag_arg(o.diff, "-diff"@)[0] == "-diff"@);
        lemma_fmt_args_part_2(o, "-diff"@);
    }
}

proof fn lemma_fmt_args_has_2(o: FmtOptions)
    ensures
        o.recursive ==> o.args().contains("-recursive"@),
{
    if o.recursive {
        assert(flag_arg(o.recursive, "-recursive"@)[0] == "-recursive"@);
        lemma_fmt_args_part_3(o, "-recursive"@);
    }
}

proof fn lemma_fmt_args_has_3(o: FmtOptions)
    ensures
        o.write == Some(true) ==> o.args().contains("-write="@ + "true"@),
{
    if o.write == Some(true) {
        assert(opt_bool("-write="@, o.write)[0] == "-write="@ + "true"@);
        lemma_fmt_args_part_4(o, "-write="@ + "true"@);
    }
}

proof fn lemma_fmt_args_has_4(o: FmtOptions)
    ensures
        o.write == Some(false) ==> o.args().contains("-write="@ + "false"@),
{
    if o.write == Some(false) {
        assert(opt_bool("-write="@, o.write)[0] == "-write="@ + "false"@);
        lemma_fmt_args_part_4(o, "-write="@ + "false"@);
    }
}

proof fn lemma_fmt_args_has_5(o: FmtOptions)
    ensures
        forall|i: int| 0 <= i < o.raw_args.len() ==> o.args().contains(#[trigger] o.raw_args[i]),
{
    assert forall|i: int| 0 <= i < o.raw_args.len() implies o.args().contains(#[trigger] o.raw_args[i]) by {
        assert(o.raw_args[i] == o.raw_args[i]);
        lemma_fmt_args_part_5(o, o.raw_args[i]);
    }
}

proof fn lemma_fmt_args_part_1(o: FmtOptions, x: Seq<char>)
    requires
        (flag_arg(o.check, "-check"@)).contains(x),
    ensures
        o.args().contains(x),
{
    lemma_contains_prepend(seq!["fmt"@], flag_arg(o.check, "-check"@), x);
    let s = seq!["fmt"@] + flag_arg(o.check, "-check"@);
    lemma_contains_append(s, flag_arg(o.diff, "-diff"@), x);
    let s = s + flag_arg(o.diff, "-diff"@);
    lemma_contains_append(s, flag_arg(o.recursive, "-recursive"@), x);
    let s = s + flag_arg(o.recursive, "-recursive"@);
    lemma_contains_append(s, opt_bool("-write="@, o.write), x);
    let s = s + opt_bool("-write="@, o.write);
    lemma_contains_append(s, o.raw_args, x);
    let s = s + o.raw_args;
}

proof fn lemma_fmt_args_part_2(o: FmtOptions, x: Seq<char>)
    requires
        (flag_arg(o.diff, "-diff"@)).contains(x),
    ensures
        o.args().contains(x),
{
    lemma_contains_prepend(seq!["fmt"@] + flag_arg(o.check, "-check"@), flag_arg(o.diff, "-diff"@), x);
    let s = seq!["fmt"@] + flag_arg(o.check, "-check"@) + flag_arg(o.diff, "-diff"@);
    lemma_contains_append(s, flag_arg(o.recursive, "-recursive"@), x);
    let s = s + flag_arg(o.recursive, "-recursive"@);
    lemma_contains_append(s, opt_bool("-write="@, o.write), x);
    let s = s + opt_bool("-write="@, o.write);
    lemma_contains_append(s, o.raw_args, x);
    let s = s + o.raw_args;
}

proof fn lemma_fmt_args_part_3(o: FmtOptions, x: Seq<char>)
    requires
        (flag_arg(o.recursive, "-recursive"@)).contains(x),
    ensures
        o.args().contains(x),
{
    lemma_contains_prepend(seq!["fmt"@] + flag_arg(o.check, "-check"@) + flag_arg(o.diff, "-diff"@), flag_arg(o.recursive, "-recursive"@), x);
    let s = seq!["fmt"@] + flag_arg(o.check, "-check"@) + flag_arg(o.diff, "-diff"@) + flag_arg(o.recursive, "-recursive"@);
    lemma_contains_append(s, opt_bool("-write="@, o.write), x);
    let s = s + opt_bool("-write="@, o.write);
    lemma_contains_append(s, o.raw_args, x);
    let s = s + o.raw_args;
}

proof fn lemma_fmt_args_part_4(o: FmtOptions, x: Seq<char>)
    requires
        (opt_bool("-write="@, o.write)).contains(x),
    ensures
        o.args().contains(x),
{
    lemma_contains_prepend(seq!["fmt"@] + flag_arg(o.check, "-check"@) + flag_arg(o.diff, "-diff"@) + flag_arg(o.recursive, "-recursive"@), opt_bool("-write="@, o.write), x);
    let s = seq!["fmt"@] + flag_arg(o.check, "-check"@) + flag_arg(o.diff, "-diff"@) + flag_arg(o.recursive, "-recursive"@) + opt_bool("-write="@, o.write);
    lemma_contains_append(s, o.raw_args, x);
    let s = s + o.raw_args;
}

proof fn lemma_fmt_args_part_5(o: FmtOptions, x: Seq<char>)
    requires
        (o.raw_args).contains(x),
    ensures
        o.args().contains(x),
{
    lemma_contains_prepend(seq!["fmt"@] + flag_arg(o.check, "-check"@) + flag_arg(o.diff, "-diff"@) + flag_arg(o.recursive, "-recursive"@) + opt_bool("-write="@, o.write), o.raw_args, x);
    let s = seq!["fmt"@] + flag_arg(o.check, "-check"@) + flag_arg(o.diff, "-diff"@) + flag_arg(o.recursive, "-recursive"@) + opt_bool("-write="@, o.write) + o.raw_args;
}

} // verus!
