//! `terraform test`.
use vstd::prelude::*;

use crate::command::TerraformCommand;
use crate::text::{
    flag_arg, lemma_contains_append, lemma_contains_prepend, opt_prefixed, push_all, push_flag, push_opt, push_str,
};

verus! {

/// The options of a [`TestCommand`], as plain values.
#[verifier::ext_equal]
pub struct TestOptions {
    pub filter: Option<Seq<char>>,
    pub json: bool,
    pub test_directory: Option<Seq<char>>,
    pub verbose: bool,
    pub raw_args: Seq<Seq<char>>,
}

impl TestOptions {
    /// The options of a fresh command.
    pub open spec fn initial() -> Self {
        TestOptions {
            filter: None,
            json: false,
            test_directory: None,
            verbose: false,
            raw_args: seq![],
        }
    }

    /// `test`, its flags in a fixed order, then the raw arguments.
    pub open spec fn args(self) -> Seq<Seq<char>> {
        seq!["test"@]
            + opt_prefixed("-filter="@, self.filter)
            + flag_arg(self.json, "-json"@)
            + opt_prefixed("-test-directory="@, self.test_directory)
            + flag_arg(self.verbose, "-verbose"@)
            + self.raw_args
    }
}

/// Command for running Terraform module integration tests.
///
/// Runs `.tftest.hcl` test files. Available in Terraform 1.6+.
#[derive(Debug, Clone, Default)]
pub struct TestCommand {
    filter: Option<String>,
    json: bool,
    test_directory: Option<String>,
    verbose: bool,
    raw_args: Vec<String>,
}

impl View for TestCommand {
    type V = TestOptions;

    closed spec fn view(&self) -> TestOptions {
        TestOptions {
            filter: self.filter.deep_view(),
            json: self.json,
            test_directory: self.test_directory.deep_view(),
            verbose: self.verbose,
            raw_args: self.raw_args.deep_view(),
        }
    }
}

impl TestCommand {
    /// Create a new test command with default options.
    pub fn new() -> (r: Self)
        ensures
            r@ == TestOptions::initial(),
    {
        let r = TestCommand {
            filter: None,
            json: false,
            test_directory: None,
            verbose: false,
            raw_args: Vec::new(),
        };
        assert(r@ =~= TestOptions::initial());
        r
    }

    /// Filter to a specific test (`-filter`).
    pub fn filter(self, name: &str) -> (r: Self)
        ensures
            r@ == (TestOptions { filter: Some(name@), ..self@ }),
    {
        TestCommand { filter: Some(String::from_str(name)), ..self }
    }

    /// Enable machine-readable JSON output (`-json`).
    pub fn json(self) -> (r: Self)
        ensures
            r@ == (TestOptions { json: true, ..self@ }),
    {
        TestCommand { json: true, ..self }
    }

    /// Set the directory containing test files (`-test-directory`).
    ///
    /// Defaults to `tests` if not specified.
    pub fn test_directory(self, path: &str) -> (r: Self)
        ensures
            r@ == (TestOptions { test_directory: Some(path@), ..self@ }),
    {
        TestCommand { test_directory: Some(String::from_str(path)), ..self }
    }

    /// Enable verbose output (`-verbose`).
    pub fn verbose(self) -> (r: Self)
        ensures
            r@ == (TestOptions { verbose: true, ..self@ }),
    {
        TestCommand { verbose: true, ..self }
    }

    /// Add a raw argument (escape hatch for unsupported options).
    pub fn arg(self, arg: &str) -> (r: Self)
        ensures
            r@ == (TestOptions { raw_args: self@.raw_args.push(arg@), ..self@ }),
    {
        let mut s = self;
        push_str(&mut s.raw_args, arg);
        s
    }
}

impl TerraformCommand for TestCommand {
    open spec fn spec_args(&self) -> Seq<Seq<char>> {
        self@.args()
    }

    open spec fn spec_supports_input(&self) -> bool {
        false
    }

    fn args(&self) -> (r: Vec<String>) {
        let mut args: Vec<String> = Vec::new();
        push_str(&mut args, "test");
        assert(args.deep_view() =~= seq!["test"@]);
        push_opt(&mut args, "-filter=", &self.filter);
        push_flag(&mut args, self.json, "-json");
        push_opt(&mut args, "-test-directory=", &self.test_directory);
        push_flag(&mut args, self.verbose, "-verbose");
        push_all(&mut args, &self.raw_args);
        assert(args.deep_view().len() == args@.len());
        args
    }

    fn supports_input(&self) -> (b: bool) {
        false
    }
}

/// `test` comes first.
pub proof fn law_test_layout(o: TestOptions)
    ensures
        o.args()[0] == "test"@,
{
}

/// Every option set on the command reaches its arguments as the one
/// argument Terraform expects for it, the subcommand comes first, and there
/// is one argument per option set and nothing more.
pub proof fn law_test_arguments(o: TestOptions)
    ensures
        o.args()[0] == "test"@,
        o.args().len() == 1 + (if o.filter is Some { 1int } else { 0int }) + (if o.json { 1int } else { 0int }) + (if o.test_directory is Some { 1int } else { 0int }) + (if o.verbose { 1int } else { 0int }) + o.raw_args.len(),
        o.filter is Some ==> o.args().contains("-filter="@ + o.filter.unwrap()),
        o.json ==> o.args().contains("-json"@),
        o.test_directory is Some ==> o.args().contains("-test-directory="@ + o.test_directory.unwrap()),
        o.verbose ==> o.args().contains("-verbose"@),
        forall|i: int| 0 <= i < o.raw_args.len() ==> o.args().contains(#[trigger] o.raw_args[i]),
{
    lemma_test_args_first(o);
    lemma_test_args_len(o);
    lemma_test_args_has_0(o);
    lemma_test_args_has_1(o);
    lemma_test_args_has_2(o);
    lemma_test_args_has_3(o);
    lemma_test_args_has_4(o);
}

proof fn lemma_test_args_len(o: TestOptions)
    ensures
        o.args().len() == 1 + (if o.filter is Some { 1int } else { 0int }) + (if o.json { 1int } else { 0int }) + (if o.test_directory is Some { 1int } else { 0int }) + (if o.verbose { 1int } else { 0int }) + o.raw_args.len(),
{
    assert((seq!["test"@]).len() == 1);
    assert((opt_prefixed("-filter="@, o.filter)).len() == (if o.filter is Some { 1int } else { 0int }));
    assert((flag_arg(o.json, "-json"@)).len() == (if o.json { 1int } else { 0int }));
    assert((opt_prefixed("-test-directory="@, o.test_directory)).len() == (if o.test_directory is Some { 1int } else { 0int }));
    assert((flag_arg(o.verbose, "-verbose"@)).len() == (if o.verbose { 1int } else { 0int }));
    assert((o.raw_args).len() == o.raw_args.len());
}

proof fn lemma_test_args_first(o: TestOptions)
    ensures
        o.args()[0] == "test"@,
{
}

proof fn lemma_test_args_has_0(o: TestOptions)
    ensures
        o.filter is Some ==> o.args().contains("-filter="@ + o.filter.unwrap()),
{
    if o.filter is Some {
        assert(opt_prefixed("-filter="@, o.filter)[0] == "-filter="@ + o.filter.unwrap());
        lemma_test_args_part_1(o, "-filter="@ + o.filter.unwrap());
    }
}

proof fn lemma_test_args_has_1(o: TestOptions)
    ensures
        o.json ==> o.args().contains("-json"@),
{
    if o.json {
        assert(flag_arg(o.json, "-json"@)[0] == "-json"@);
        lemma_test_args_part_2(o, "-json"@);
    }
}

proof fn lemma_test_args_has_2(o: TestOptions)
    ensures
        o.test_directory is Some ==> o.args().contains("-test-directory="@ + o.test_directory.unwrap()),
{
    if o.test_directory is Some {
        assert(opt_prefixed("-test-directory="@, o.test_directory)[0] == "-test-directory="@ + o.test_directory.unwrap());
        lemma_test_args_part_3(o, "-test-directory="@ + o.test_directory.unwrap());
    }
}

proof fn lemma_test_args_has_3(o: TestOptions)
    ensures
        o.verbose ==> o.args().contains("-verbose"@),
{
    if o.verbose {
        assert(flag_arg(o.verbose, "-verbose"@)[0] == "-verbose"@);
        lemma_test_args_part_4(o, "-verbose"@);
    }
}

proof fn lemma_test_args_has_4(o: TestOptions)
    ensures
        forall|i: int| 0 <= i < o.raw_args.len() ==> o.args().contains(#[trigger] o.raw_args[i]),
{
    assert forall|i: int| 0 <= i < o.raw_args.len() implies o.args().contains(#[trigger] o.raw_args[i]) by {
        assert(o.raw_args[i] == o.raw_args[i]);
        lemma_test_args_part_5(o, o.raw_args[i]);
    }
}

proof fn lemma_test_args_part_1(o: TestOptions, x: Seq<char>)
    requires
        (opt_prefixed("-filter="@, o.filter)).contains(x),
    ensures
        o.args().contains(x),
{
    lemma_contains_prepend(seq!["test"@], opt_prefixed("-filter="@, o.filter), x);
    let s = seq!["test"@] + opt_prefixed("-filter="@, o.filter);
    lemma_contains_append(s, flag_arg(o.json, "-json"@), x);
    let s = s + flag_arg(o.json, "-json"@);
    lemma_contains_append(s, opt_prefixed("-test-directory="@, o.test_directory), x);
    let s = s + opt_prefixed("-test-directory="@, o.test_directory);
    lemma_contains_append(s, flag_arg(o.verbose, "-verbose"@), x);
    let s = s + flag_arg(o.verbose, "-verbose"@);
    lemma_contains_append(s, o.raw_args, x);
    let s = s + o.raw_args;
}

proof fn lemma_test_args_part_2(o: TestOptions, x: Seq<char>)
    requires
        (flag_arg(o.json, "-json"@)).contains(x),
    ensures
        o.args().contains(x),
{
    lemma_contains_prepend(seq!["test"@] + opt_prefixed("-filter="@, o.filter), flag_arg(o.json, "-json"@), x);
    let s = seq!["test"@] + opt_prefixed("-filter="@, o.filter) + flag_arg(o.json, "-json"@);
    lemma_contains_append(s, opt_prefixed("-test-directory="@, o.test_directory), x);
    let s = s + opt_prefixed("-test-directory="@, o.test_directory);
    lemma_contains_append(s, flag_arg(o.verbose, "-verbose"@), x);
    let s = s + flag_arg(o.verbose, "-verbose"@);
    lemma_contains_append(s, o.raw_args, x);
    let s = s + o.raw_args;
}

proof fn lemma_test_args_part_3(o: TestOptions, x: Seq<char>)
    requires
        (opt_prefixed("-test-directory="@, o.test_directory)).contains(x),
    ensures
        o.args().contains(x),
{
    lemma_contains_prepend(seq!["test"@] + opt_prefixed("-filter="@, o.filter) + flag_arg(o.json, "-json"@), opt_prefixed("-test-directory="@, o.test_directory), x);
    let s = seq!["test"@] + opt_prefixed("-filter="@, o.filter) + flag_arg(o.json, "-json"@) + opt_prefixed("-test-directory="@, o.test_directory);
    lemma_contains_append(s, flag_arg(o.verbose, "-verbose"@), x);
    let s = s + flag_arg(o.verbose, "-verbose"@);
    lemma_contains_append(s, o.raw_args, x);
    let s = s + o.raw_args;
}

proof fn lemma_test_args_part_4(o: TestOptions, x: Seq<char>)
    requires
        (flag_arg(o.verbose, "-verbose"@)).contains(x),
    ensures
        o.args().contains(x),
{
    lemma_contains_prepend(seq!["test"@] + opt_prefixed("-filter="@, o.filter) + flag_arg(o.json, "-json"@) + opt_prefixed("-test-directory="@, o.test_directory), flag_arg(o.verbose, "-verbose"@), x);
    let s = seq!["test"@] + opt_prefixed("-filter="@, o.filter) + flag_arg(o.json, "-json"@) + opt_prefixed("-test-directory="@, o.test_directory) + flag_arg(o.verbose, "-verbose"@);
    lemma_contains_append(s, o.raw_args, x);
    let s = s + o.raw_args;
}

proof fn lemma_test_args_part_5(o: TestOptions, x: Seq<char>)
    requires
        (o.raw_args).contains(x),
    ensures
        o.args().contains(x),
{
    lemma_contains_prepend(seq!["test"@] + opt_prefixed("-filter="@, o.filter) + flag_arg(o.json, "-json"@) + opt_prefixed("-test-directory="@, o.test_directory) + flag_arg(o.verbose, "-verbose"@), o.raw_args, x);
    let s = seq!["test"@] + opt_prefixed("-filter="@, o.filter) + flag_arg(o.json, "-json"@) + opt_prefixed("-test-directory="@, o.test_directory) + flag_arg(o.verbose, "-verbose"@) + o.raw_args;
}

} // verus!
