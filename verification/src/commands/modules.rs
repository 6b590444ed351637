//! `terraform modules`.
use vstd::prelude::*;

use crate::command::TerraformCommand;
use crate::text::{
    flag_arg, lemma_contains_append, lemma_contains_prepend, push_all, push_flag, push_str,
};

verus! {

/// The options of a [`ModulesCommand`], as plain values.
#[verifier::ext_equal]
pub struct ModulesOptions {
    pub json: bool,
    pub raw_args: Seq<Seq<char>>,
}

impl ModulesOptions {
    /// The options of a fresh command.
    pub open spec fn initial() -> Self {
        ModulesOptions {
            json: false,
            raw_args: seq![],
        }
    }

    /// `modules`, `-json` where set, then the raw arguments.
    pub open spec fn args(self) -> Seq<Seq<char>> {
        seq!["modules"@]
            + flag_arg(self.json, "-json"@)
            + self.raw_args
    }
}

/// Command for listing declared modules in a configuration.
///
/// Lists all modules declared in the current working directory.
/// Supports `-json` for machine-readable output. Requires Terraform v1.10.0
/// or later.
#[derive(Debug, Clone, Default)]
pub struct ModulesCommand {
    json: bool,
    raw_args: Vec<String>,
}

impl View for ModulesCommand {
    type V = ModulesOptions;

    closed spec fn view(&self) -> ModulesOptions {
        ModulesOptions {
            json: self.json,
            raw_args: self.raw_args.deep_view(),
        }
    }
}

impl ModulesCommand {
    /// Create a new modules command with default options.
    pub fn new() -> (r: Self)
        ensures
            r@ == ModulesOptions::initial(),
    {
        let r = ModulesCommand {
            json: false,
            raw_args: Vec::new(),
        };
        assert(r@ =~= ModulesOptions::initial());
        r
    }

    /// Enable machine-readable JSON output (`-json`).
    pub fn json(self) -> (r: Self)
        ensures
            r@ == (ModulesOptions { json: true, ..self@ }),
    {
        ModulesCommand { json: true, ..self }
    }

    /// Add a raw argument (escape hatch for unsupported options).
    pub fn arg(self, arg: &str) -> (r: Self)
        ensures
            r@ == (ModulesOptions { raw_args: self@.raw_args.push(arg@), ..self@ }),
    {
        let mut s = self;
        push_str(&mut s.raw_args, arg);
        s
    }
}

impl TerraformCommand for ModulesCommand {
    open spec fn spec_args(&self) -> Seq<Seq<char>> {
        self@.args()
    }

    open spec fn spec_supports_input(&self) -> bool {
        false
    }

    fn args(&self) -> (r: Vec<String>) {
        let mut args: Vec<String> = Vec::new();
        push_str(&mut args, "modules");
        assert(args.deep_view() =~= seq!["modules"@]);
        push_flag(&mut args, self.json, "-json");
        push_all(&mut args, &self.raw_args);
        assert(args.deep_view().len() == args@.len());
        args
    }

    fn supports_input(&self) -> (b: bool) {
        false
    }
}

/// `modules` comes first.
pub proof fn law_modules_layout(o: ModulesOptions)
    ensures
        o.args()[0] == "modules"@,
{
}

/// Every option set on the command reaches its arguments as the one
/// argument Terraform expects for it, the subcommand comes first, and there
/// is one argument per option set and nothing more.
pub proof fn law_modules_arguments(o: ModulesOptions)
    ensures
        o.args()[0] == "modules"@,
        o.args().len() == 1 + (if o.json { 1int } else { 0int }) + o.raw_args.len(),
        o.json ==> o.args().contains("-json"@),
        forall|i: int| 0 <= i < o.raw_args.len() ==> o.args().contains(#[trigger] o.raw_args[i]),
{
    lemma_modules_args_first(o);
    lemma_modules_args_len(o);
    lemma_modules_args_has_0(o);
    lemma_modules_args_has_1(o);
}

proof fn lemma_modules_args_len(o: ModulesOptions)
    ensures
        o.args().len() == 1 + (if o.json { 1int } else { 0int }) + o.raw_args.len(),
{
    assert((seq!["modules"@]).len() == 1);
    assert((flag_arg(o.json, "-json"@)).len() == (if o.json { 1int } else { 0int }));
    assert((o.raw_args).len() == o.raw_args.len());
}

proof fn lemma_modules_args_first(o: ModulesOptions)
    ensures
        o.args()[0] == "modules"@,
{
}

proof fn lemma_modules_args_has_0(o: ModulesOptions)
    ensures
        o.json ==> o.args().contains("-json"@),
{
    if o.json {
        assert(flag_arg(o.json, "-json"@)[0] == "-json"@);
        lemma_modules_args_part_1(o, "-json"@);
    }
}

proof fn lemma_modules_args_has_1(o: ModulesOptions)
    ensures
        forall|i: int| 0 <= i < o.raw_args.len() ==> o.args().contains(#[trigger] o.raw_args[i]),
{
    assert forall|i: int| 0 <= i < o.raw_args.len() implies o.args().contains(#[trigger] o.raw_args[i]) by {
        assert(o.raw_args[i] == o.raw_args[i]);
        lemma_modules_args_part_2(o, o.raw_args[i]);
    }
}

proof fn lemma_modules_args_part_1(o: ModulesOptions, x: Seq<char>)
    requires
        (flag_arg(o.json, "-json"@)).contains(x),
    ensures
        o.args().contains(x),
{
    lemma_contains_prepend(seq!["modules"@], flag_arg(o.json, "-json"@), x);
    let s = seq!["modules"@] + flag_arg(o.json, "-json"@);
    lemma_contains_append(s, o.raw_args, x);
    let s = s + o.raw_args;
}

proof fn lemma_modules_args_part_2(o: ModulesOptions, x: Seq<char>)
    requires
        (o.raw_args).contains(x),
    ensures
        o.args().contains(x),
{
    lemma_contains_prepend(seq!["modules"@] + flag_arg(o.json, "-json"@), o.raw_args, x);
    let s = seq!["modules"@] + flag_arg(o.json, "-json"@) + o.raw_args;
}

} // verus!
