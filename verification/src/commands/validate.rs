//! `terraform validate`.
use vstd::prelude::*;

use crate::command::TerraformCommand;
use crate::text::{
    flag_arg, lemma_contains_append, lemma_contains_prepend, push_all, push_flag, push_str,
};

verus! {

/// The options of a [`ValidateCommand`], as plain values.
#[verifier::ext_equal]
pub struct ValidateOptions {
    pub json: bool,
    pub raw_args: Seq<Seq<char>>,
}

impl ValidateOptions {
    /// The options of a fresh command: JSON output, no raw arguments.
    pub open spec fn initial() -> Self {
        ValidateOptions { json: true, raw_args: seq![] }
    }

    /// `validate`, `-json` where set, then the raw arguments.
    pub open spec fn args(self) -> Seq<Seq<char>> {
        seq!["validate"@] + flag_arg(self.json, "-json"@) + self.raw_args
    }
}

/// Command for validating Terraform configuration.
///
/// Checks that the configuration is syntactically valid and internally
/// consistent. Does not access any remote services (state, providers).
#[derive(Debug, Clone)]
pub struct ValidateCommand {
    json: bool,
    raw_args: Vec<String>,
}

impl View for ValidateCommand {
    type V = ValidateOptions;

    closed spec fn view(&self) -> ValidateOptions {
        ValidateOptions { json: self.json, raw_args: self.raw_args.deep_view() }
    }
}

impl Default for ValidateCommand {
    fn default() -> (r: Self)
        ensures
            r@ == ValidateOptions::initial(),
    {
        ValidateCommand::new()
    }
}

impl ValidateCommand {
    /// Create a new validate command (JSON output enabled by default).
    pub fn new() -> (r: Self)
        ensures
            r@ == ValidateOptions::initial(),
    {
        let r = ValidateCommand { json: true, raw_args: Vec::new() };
        assert(r@ =~= ValidateOptions::initial());
        r
    }

    /// Disable JSON output.
    pub fn no_json(self) -> (r: Self)
        ensures
            r@ == (ValidateOptions { json: false, ..self@ }),
    {
        ValidateCommand { json: false, ..self }
    }

    /// Add a raw argument (escape hatch for unsupported options).
    pub fn arg(self, arg: &str) -> (r: Self)
        ensures
            r@ == (ValidateOptions { raw_args: self@.raw_args.push(arg@), ..self@ }),
    {
        let mut s = self;
        push_str(&mut s.raw_args, arg);
        s
    }

    /// The exit codes that count as success: `validate` exits with 1 on an
    /// invalid configuration and still writes its JSON report.
    pub fn accepted_exit_codes(&self) -> (r: Vec<i32>)
        ensures
            r@ == seq![0i32, 1i32],
    {
        let r = vec![0i32, 1i32];
        assert(r@ =~= seq![0i32, 1i32]);
        r
    }
}

impl TerraformCommand for ValidateCommand {
    open spec fn spec_args(&self) -> Seq<Seq<char>> {
        self@.args()
    }

    open spec fn spec_supports_input(&self) -> bool {
        false
    }

    fn args(&self) -> (r: Vec<String>) {
        let mut args: Vec<String> = Vec::new();
        push_str(&mut args, "validate");
        assert(args.deep_view() =~= seq!["validate"@]);
        push_flag(&mut args, self.json, "-json");
        push_all(&mut args, &self.raw_args);
        assert(args.deep_view().len() == args@.len());
        args
    }

    fn supports_input(&self) -> (b: bool) {
        false
    }
}

/// `validate` comes first.
pub proof fn law_validate_layout(o: ValidateOptions)
    ensures
        o.args()[0] == "validate"@,
{
}

/// Every option set on the command reaches its arguments as the one
/// argument Terraform expects for it, the subcommand comes first, and there
/// is one argument per option set and nothing more.
pub proof fn law_validate_arguments(o: ValidateOptions)
    ensures
        o.args()[0] == "validate"@,
        o.args().len() == 1 + (if o.json { 1int } else { 0int }) + o.raw_args.len(),
        o.json ==> o.args().contains("-json"@),
        forall|i: int| 0 <= i < o.raw_args.len() ==> o.args().contains(#[trigger] o.raw_args[i]),
{
    lemma_validate_args_first(o);
    lemma_validate_args_len(o);
    lemma_validate_args_has_0(o);
    lemma_validate_args_has_1(o);
}

proof fn lemma_validate_args_len(o: ValidateOptions)
    ensures
        o.args().len() == 1 + (if o.json { 1int } else { 0int }) + o.raw_args.len(),
{
    assert((seq!["validate"@]).len() == 1);
    assert((flag_arg(o.json, "-json"@)).len() == (if o.json { 1int } else { 0int }));
    assert((o.raw_args).len() == o.raw_args.len());
}

proof fn lemma_validate_args_first(o: ValidateOptions)
    ensures
        o.args()[0] == "validate"@,
{
}

proof fn lemma_validate_args_has_0(o: ValidateOptions)
    ensures
        o.json ==> o.args().contains("-json"@),
{
    if o.json {
        assert(flag_arg(o.json, "-json"@)[0] == "-json"@);
        lemma_validate_args_part_1(o, "-json"@);
    }
}

proof fn lemma_validate_args_has_1(o: ValidateOptions)
    ensures
        forall|i: int| 0 <= i < o.raw_args.len() ==> o.args().contains(#[trigger] o.raw_args[i]),
{
    assert forall|i: int| 0 <= i < o.raw_args.len() implies o.args().contains(#[trigger] o.raw_args[i]) by {
        assert(o.raw_args[i] == o.raw_args[i]);
        lemma_validate_args_part_2(o, o.raw_args[i]);
    }
}

proof fn lemma_validate_args_part_1(o: ValidateOptions, x: Seq<char>)
    requires
        (flag_arg(o.json, "-json"@)).contains(x),
    ensures
        o.args().contains(x),
{
    lemma_contains_prepend(seq!["validate"@], flag_arg(o.json, "-json"@), x);
    let s = seq!["validate"@] + flag_arg(o.json, "-json"@);
    lemma_contains_append(s, o.raw_args, x);
    let s = s + o.raw_args;
}

proof fn lemma_validate_args_part_2(o: ValidateOptions, x: Seq<char>)
    requires
        (o.raw_args).contains(x),
    ensures
        o.args().contains(x),
{
    lemma_contains_prepend(seq!["validate"@] + flag_arg(o.json, "-json"@), o.raw_args, x);
    let s = seq!["validate"@] + flag_arg(o.json, "-json"@) + o.raw_args;
}

} // verus!
