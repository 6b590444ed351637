//! `terraform show`.
use vstd::prelude::*;

use crate::command::TerraformCommand;
use crate::exec::CommandOutput;
use crate::types::plan::PlanRepresentation;
use crate::types::state::StateRepresentation;
use crate::text::{
    flag_arg, lemma_contains_append, lemma_contains_prepend, opt_value, push_all, push_flag, push_opt_value, push_str,
};

verus! {

/// The options of a [`ShowCommand`], as plain values.
#[verifier::ext_equal]
pub struct ShowOptions {
    pub plan_file: Option<Seq<char>>,
    pub json: bool,
    pub raw_args: Seq<Seq<char>>,
}

impl ShowOptions {
    /// The options of a fresh command.
    pub open spec fn initial() -> Self {
        ShowOptions {
            plan_file: None,
            json: true,
            raw_args: seq![],
        }
    }

    /// `show`, `-json` where set, the raw arguments, then the plan file.
    pub open spec fn args(self) -> Seq<Seq<char>> {
        seq!["show"@]
            + flag_arg(self.json, "-json"@)
            + self.raw_args
            + opt_value(self.plan_file)
    }
}

/// Command for inspecting current state or a saved plan.
///
/// With `-json` (the default), returns structured data about the current
/// state or a saved plan file.
#[derive(Debug, Clone, Default)]
pub struct ShowCommand {
    plan_file: Option<String>,
    json: bool,
    raw_args: Vec<String>,
}

impl View for ShowCommand {
    type V = ShowOptions;

    closed spec fn view(&self) -> ShowOptions {
        ShowOptions {
            plan_file: self.plan_file.deep_view(),
            json: self.json,
            raw_args: self.raw_args.deep_view(),
        }
    }
}

impl ShowCommand {
    /// Create a new show command (JSON output enabled).
    pub fn new() -> (r: Self)
        ensures
            r@ == ShowOptions::initial(),
    {
        let r = ShowCommand {
            plan_file: None,
            json: true,
            raw_args: Vec::new(),
        };
        assert(r@ =~= ShowOptions::initial());
        r
    }

    /// Show a saved plan file instead of current state.
    pub fn plan_file(self, path: &str) -> (r: Self)
        ensures
            r@ == (ShowOptions { plan_file: Some(path@), ..self@ }),
    {
        ShowCommand { plan_file: Some(String::from_str(path)), ..self }
    }

    /// Disable JSON output.
    pub fn no_json(self) -> (r: Self)
        ensures
            r@ == (ShowOptions { json: false, ..self@ }),
    {
        ShowCommand { json: false, ..self }
    }

    /// Add a raw argument (escape hatch for unsupported options).
    pub fn arg(self, arg: &str) -> (r: Self)
        ensures
            r@ == (ShowOptions { raw_args: self@.raw_args.push(arg@), ..self@ }),
    {
        let mut s = self;
        push_str(&mut s.raw_args, arg);
        s
    }
}

impl TerraformCommand for ShowCommand {
    open spec fn spec_args(&self) -> Seq<Seq<char>> {
        self@.args()
    }

    open spec fn spec_supports_input(&self) -> bool {
        false
    }

    fn args(&self) -> (r: Vec<String>) {
        let mut args: Vec<String> = Vec::new();
        push_str(&mut args, "show");
        assert(args.deep_view() =~= seq!["show"@]);
        push_flag(&mut args, self.json, "-json");
        push_all(&mut args, &self.raw_args);
        push_opt_value(&mut args, &self.plan_file);
        assert(args.deep_view().len() == args@.len());
        args
    }

    fn supports_input(&self) -> (b: bool) {
        false
    }
}

/// `show` comes first, and a plan file, where one is set, is the last
/// argument.
pub proof fn law_show_layout(o: ShowOptions)
    ensures
        o.args()[0] == "show"@,
        o.plan_file matches Some(p) ==> o.args().last() == p,
{
}

/// Which result a show command produces, decided by its flags.
#[derive(Debug, Clone, Copy, PartialEq, Eq, Structural)]
pub enum ShowResultKind {
    /// The current state as JSON.
    State,
    /// A saved plan as JSON.
    Plan,
    /// The plain command output.
    Plain,
}

/// Result from a show command.
#[derive(Debug)]
pub enum ShowResult {
    /// Current state from `terraform show -json`.
    State(StateRepresentation),
    /// Saved plan from `terraform show -json <planfile>`.
    Plan(Box<PlanRepresentation>),
    /// Plain command output (no `-json`).
    Plain(CommandOutput),
}

/// Without JSON the plain output; with JSON a saved plan where a plan file
/// is set and the current state otherwise.
pub open spec fn show_kind(o: ShowOptions) -> ShowResultKind {
    if !o.json {
        ShowResultKind::Plain
    } else if o.plan_file is Some {
        ShowResultKind::Plan
    } else {
        ShowResultKind::State
    }
}

impl ShowCommand {
    /// Which result this command produces.
    pub fn result_kind(&self) -> (k: ShowResultKind)
        ensures
            k == show_kind(self@),
    {
        if !self.json {
            ShowResultKind::Plain
        } else if self.plan_file.is_some() {
            ShowResultKind::Plan
        } else {
            ShowResultKind::State
        }
    }
}

/// Every option set on the command reaches its arguments as the one
/// argument Terraform expects for it, the subcommand comes first, and there
/// is one argument per option set and nothing more.
pub proof fn law_show_arguments(o: ShowOptions)
    ensures
        o.args()[0] == "show"@,
        o.args().len() == 1 + (if o.json { 1int } else { 0int }) + o.raw_args.len() + (if o.plan_file is Some { 1int } else { 0int }),
        o.json ==> o.args().contains("-json"@),
        forall|i: int| 0 <= i < o.raw_args.len() ==> o.args().contains(#[trigger] o.raw_args[i]),
        o.plan_file is Some ==> o.args().contains(o.plan_file.unwrap()),
{
    lemma_show_args_first(o);
    lemma_show_args_len(o);
    lemma_show_args_has_0(o);
    lemma_show_args_has_1(o);
    lemma_show_args_has_2(o);
}

proof fn lemma_show_args_len(o: ShowOptions)
    ensures
        o.args().len() == 1 + (if o.json { 1int } else { 0int }) + o.raw_args.len() + (if o.plan_file is Some { 1int } else { 0int }),
{
    assert((seq!["show"@]).len() == 1);
    assert((flag_arg(o.json, "-json"@)).len() == (if o.json { 1int } else { 0int }));
    assert((o.raw_args).len() == o.raw_args.len());
    assert((opt_value(o.plan_file)).len() == (if o.plan_file is Some { 1int } else { 0int }));
}

proof fn lemma_show_args_first(o: ShowOptions)
    ensures
        o.args()[0] == "show"@,
{
}

proof fn lemma_show_args_has_0(o: ShowOptions)
    ensures
        o.json ==> o.args().contains("-json"@),
{
    if o.json {
        assert(flag_arg(o.json, "-json"@)[0] == "-json"@);
        lemma_show_args_part_1(o, "-json"@);
    }
}

proof fn lemma_show_args_has_1(o: ShowOptions)
    ensures
        forall|i: int| 0 <= i < o.raw_args.len() ==> o.args().contains(#[trigger] o.raw_args[i]),
{
    assert forall|i: int| 0 <= i < o.raw_args.len() implies o.args().contains(#[trigger] o.raw_args[i]) by {
        assert(o.raw_args[i] == o.raw_args[i]);
        lemma_show_args_part_2(o, o.raw_args[i]);
    }
}

proof fn lemma_show_args_has_2(o: ShowOptions)
    ensures
        o.plan_file is Some ==> o.args().contains(o.plan_file.unwrap()),
{
    if o.plan_file is Some {
        assert(opt_value(o.plan_file)[0] == o.plan_file.unwrap());
        lemma_show_args_part_3(o, o.plan_file.unwrap());
    }
}

proof fn lemma_show_args_part_1(o: ShowOptions, x: Seq<char>)
    requires
        (flag_arg(o.json, "-json"@)).contains(x),
    ensures
        o.args().contains(x),
{
    lemma_contains_prepend(seq!["show"@], flag_arg(o.json, "-json"@), x);
    let s = seq!["show"@] + flag_arg(o.json, "-json"@);
    lemma_contains_append(s, o.raw_args, x);
    let s = s + o.raw_args;
    lemma_contains_append(s, opt_value(o.plan_file), x);
    let s = s + opt_value(o.plan_file);
}

proof fn lemma_show_args_part_2(o: ShowOptions, x: Seq<char>)
    requires
        (o.raw_args).contains(x),
    ensures
        o.args().contains(x),
{
    lemma_contains_prepend(seq!["show"@] + flag_arg(o.json, "-json"@), o.raw_args, x);
    let s = seq!["show"@] + flag_arg(o.json, "-json"@) + o.raw_args;
    lemma_contains_append(s, opt_value(o.plan_file), x);
    let s = s + opt_value(o.plan_file);
}

proof fn lemma_show_args_part_3(o: ShowOptions, x: Seq<char>)
    requires
        (opt_value(o.plan_file)).contains(x),
    ensures
        o.args().contains(x),
{
    lemma_contains_prepend(seq!["show"@] + flag_arg(o.json, "-json"@) + o.raw_args, opt_value(o.plan_file), x);
    let s = seq!["show"@] + flag_arg(o.json, "-json"@) + o.raw_args + opt_value(o.plan_file);
}

/// Without `-json` the result is always the plain output, whether or not a
/// plan file is set; with `-json` it is the saved plan where a plan file is
/// set and the current state otherwise.
pub proof fn law_show_result_kind(o: ShowOptions)
    ensures
        !o.json ==> show_kind(o) == ShowResultKind::Plain,
        o.json && o.plan_file is Some ==> show_kind(o) == ShowResultKind::Plan,
        o.json && o.plan_file is None ==> show_kind(o) == ShowResultKind::State,
{
}

} // verus!
