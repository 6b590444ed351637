//! `terraform output`.
use vstd::prelude::*;

use std::collections::HashMap;

use crate::command::TerraformCommand;
use crate::exec::{str_trim, str_trim_end, trim, trim_end, CommandOutput};
use crate::types::output::OutputValue;
use crate::text::{
    flag_arg, lemma_contains_append, lemma_contains_prepend, opt_value, push_all, push_flag, push_opt_value, push_str,
};

verus! {

/// The options of an [`OutputCommand`], as plain values.
#[verifier::ext_equal]
pub struct OutputOptions {
    pub name: Option<Seq<char>>,
    pub json: bool,
    pub raw: bool,
    pub raw_args: Seq<Seq<char>>,
}

impl OutputOptions {
    /// The options of a fresh command.
    pub open spec fn initial() -> Self {
        OutputOptions {
            name: None,
            json: false,
            raw: false,
            raw_args: seq![],
        }
    }

    /// `output`, `-json` and `-raw` where set, the raw arguments, then the output name.
    pub open spec fn args(self) -> Seq<Seq<char>> {
        seq!["output"@]
            + flag_arg(self.json, "-json"@)
            + flag_arg(self.raw, "-raw"@)
            + self.raw_args
            + opt_value(self.name)
    }
}

/// Command for reading Terraform output values.
///
/// With `.json()` the outputs come back as JSON, with `.raw()` a single
/// named output comes back as a plain string.
#[derive(Debug, Clone, Default)]
pub struct OutputCommand {
    name: Option<String>,
    json: bool,
    raw: bool,
    raw_args: Vec<String>,
}

impl View for OutputCommand {
    type V = OutputOptions;

    closed spec fn view(&self) -> OutputOptions {
        OutputOptions {
            name: self.name.deep_view(),
            json: self.json,
            raw: self.raw,
            raw_args: self.raw_args.deep_view(),
        }
    }
}

impl OutputCommand {
    /// Create a new output command.
    pub fn new() -> (r: Self)
        ensures
            r@ == OutputOptions::initial(),
    {
        let r = OutputCommand {
            name: None,
            json: false,
            raw: false,
            raw_args: Vec::new(),
        };
        assert(r@ =~= OutputOptions::initial());
        r
    }

    /// Request a specific named output (positional argument).
    pub fn name(self, name: &str) -> (r: Self)
        ensures
            r@ == (OutputOptions { name: Some(name@), ..self@ }),
    {
        OutputCommand { name: Some(String::from_str(name)), ..self }
    }

    /// Request JSON-formatted output (`-json`).
    pub fn json(self) -> (r: Self)
        ensures
            r@ == (OutputOptions { json: true, ..self@ }),
    {
        OutputCommand { json: true, ..self }
    }

    /// Request raw output value (`-raw`). Requires `.name()` to be set.
    pub fn raw(self) -> (r: Self)
        ensures
            r@ == (OutputOptions { raw: true, ..self@ }),
    {
        OutputCommand { raw: true, ..self }
    }

    /// Add a raw argument (escape hatch for unsupported options).
    pub fn arg(self, arg: &str) -> (r: Self)
        ensures
            r@ == (OutputOptions { raw_args: self@.raw_args.push(arg@), ..self@ }),
    {
        let mut s = self;
        push_str(&mut s.raw_args, arg);
        s
    }
}

impl TerraformCommand for OutputCommand {
    open spec fn spec_args(&self) -> Seq<Seq<char>> {
        self@.args()
    }

    open spec fn spec_supports_input(&self) -> bool {
        false
    }

    fn args(&self) -> (r: Vec<String>) {
        let mut args: Vec<String> = Vec::new();
        push_str(&mut args, "output");
        assert(args.deep_view() =~= seq!["output"@]);
        push_flag(&mut args, self.json, "-json");
        push_flag(&mut args, self.raw, "-raw");
        push_all(&mut args, &self.raw_args);
        push_opt_value(&mut args, &self.name);
        assert(args.deep_view().len() == args@.len());
        args
    }

    fn supports_input(&self) -> (b: bool) {
        false
    }
}

/// `output` comes first, and a requested output name is the last argument.
pub proof fn law_output_layout(o: OutputOptions)
    ensures
        o.args()[0] == "output"@,
        o.name matches Some(n) ==> o.args().last() == n,
{
}

/// Which result an output command produces, decided by its flags.
#[derive(Debug, Clone, Copy, PartialEq, Eq, Structural)]
pub enum OutputResultKind {
    /// The raw string value (`-raw`).
    Raw,
    /// One output value as JSON (`-json` with a name).
    Single,
    /// All output values as JSON (`-json` without a name).
    All,
    /// The plain command output.
    Plain,
}

/// `.raw()` gives the raw value whatever else is set; otherwise `.json()`
/// gives one value when a name is set and all values when none is;
/// otherwise the plain output.
pub open spec fn output_kind(o: OutputOptions) -> OutputResultKind {
    if o.raw {
        OutputResultKind::Raw
    } else if o.json && o.name is Some {
        OutputResultKind::Single
    } else if o.json {
        OutputResultKind::All
    } else {
        OutputResultKind::Plain
    }
}

impl OutputCommand {
    /// Which result this command produces.
    pub fn result_kind(&self) -> (k: OutputResultKind)
        ensures
            k == output_kind(self@),
    {
        if self.raw {
            OutputResultKind::Raw
        } else if self.json && self.name.is_some() {
            OutputResultKind::Single
        } else if self.json {
            OutputResultKind::All
        } else {
            OutputResultKind::Plain
        }
    }
}

/// Result from an output command.
///
/// The variant depends on which flags were set on the command:
/// `.json()` gives [`OutputResult::Json`] or [`OutputResult::Single`],
/// `.raw()` gives [`OutputResult::Raw`], neither gives [`OutputResult::Plain`].
#[derive(Debug)]
pub enum OutputResult {
    /// Raw string value from `-raw` flag.
    Raw(String),
    /// All output values as JSON (when `.json()` and no `.name()`).
    Json(HashMap<String, OutputValue>),
    /// Single output value as JSON (when `.json()` and `.name()`).
    Single(OutputValue),
    /// Plain command output (no `-json` or `-raw`).
    Plain(CommandOutput),
}

impl OutputResult {
    /// The raw result of a finished `output -raw`: its stdout without
    /// trailing white space.
    pub fn from_raw_output(output: &CommandOutput) -> (r: OutputResult)
        ensures
            r matches OutputResult::Raw(v) && v@ == trim_end(output.stdout@),
    {
        OutputResult::Raw(str_trim_end(output.stdout.as_str()))
    }

    /// The display text of a raw or plain result: the raw value as is, the
    /// plain output trimmed. JSON results are displayed as pretty-printed
    /// JSON, which is left to the caller: `None` for them.
    pub fn plain_text(&self) -> (r: Option<String>)
        ensures
            self matches OutputResult::Raw(v) ==> r matches Some(t) && t@ == v@,
            self matches OutputResult::Plain(o) ==> r matches Some(t) && t@ == trim(o.stdout@),
            (self is Json || self is Single) ==> r is None,
    {
        match self {
            OutputResult::Raw(v) => Some(v.clone()),
            OutputResult::Plain(o) => Some(str_trim(o.stdout.as_str())),
            _ => None,
        }
    }
}

/// What the documentation promises of the result: `.raw()` gives the raw
/// value, `.json()` gives JSON, and neither gives the plain output.
pub proof fn law_output_result_kind(o: OutputOptions)
    ensures
        o.raw ==> output_kind(o) == OutputResultKind::Raw,
        !o.raw && o.json ==> (output_kind(o) == OutputResultKind::Single || output_kind(o) == OutputResultKind::All),
        !o.raw && !o.json ==> output_kind(o) == OutputResultKind::Plain,
{
}

/// Every option set on the command reaches its arguments as the one
/// argument Terraform expects for it, the subcommand comes first, and there
/// is one argument per option set and nothing more.
pub proof fn law_output_arguments(o: OutputOptions)
    ensures
        o.args()[0] == "output"@,
        o.args().len() == 1 + (if o.json { 1int } else { 0int }) + (if o.raw { 1int } else { 0int }) + o.raw_args.len() + (if o.name is Some { 1int } else { 0int }),
        o.json ==> o.args().contains("-json"@),
        o.raw ==> o.args().contains("-raw"@),
        forall|i: int| 0 <= i < o.raw_args.len() ==> o.args().contains(#[trigger] o.raw_args[i]),
        o.name is Some ==> o.args().contains(o.name.unwrap()),
{
    lemma_output_args_first(o);
    lemma_output_args_len(o);
    lemma_output_args_has_0(o);
    lemma_output_args_has_1(o);
    lemma_output_args_has_2(o);
    lemma_output_args_has_3(o);
}

proof fn lemma_output_args_len(o: OutputOptions)
    ensures
        o.args().len() == 1 + (if o.json { 1int } else { 0int }) + (if o.raw { 1int } else { 0int }) + o.raw_args.len() + (if o.name is Some { 1int } else { 0int }),
{
    assert((seq!["output"@]).len() == 1);
    assert((flag_arg(o.json, "-json"@)).len() == (if o.json { 1int } else { 0int }));
    assert((flag_arg(o.raw, "-raw"@)).len() == (if o.raw { 1int } else { 0int }));
    assert((o.raw_args).len() == o.raw_args.len());
    assert((opt_value(o.name)).len() == (if o.name is Some { 1int } else { 0int }));
}

proof fn lemma_output_args_first(o: OutputOptions)
    ensures
        o.args()[0] == "output"@,
{
}

proof fn lemma_output_args_has_0(o: OutputOptions)
    ensures
        o.json ==> o.args().contains("-json"@),
{
    if o.json {
        assert(flag_arg(o.json, "-json"@)[0] == "-json"@);
        lemma_output_args_part_1(o, "-json"@);
    }
}

proof fn lemma_output_args_has_1(o: OutputOptions)
    ensures
        o.raw ==> o.args().contains("-raw"@),
{
    if o.raw {
        assert(flag_arg(o.raw, "-raw"@)[0] == "-raw"@);
        lemma_output_args_part_2(o, "-raw"@);
    }
}

proof fn lemma_output_args_has_2(o: OutputOptions)
    ensures
        forall|i: int| 0 <= i < o.raw_args.len() ==> o.args().contains(#[trigger] o.raw_args[i]),
{
    assert forall|i: int| 0 <= i < o.raw_args.len() implies o.args().contains(#[trigger] o.raw_args[i]) by {
        assert(o.raw_args[i] == o.raw_args[i]);
        lemma_output_args_part_3(o, o.raw_args[i]);
    }
}

proof fn lemma_output_args_has_3(o: OutputOptions)
    ensures
        o.name is Some ==> o.args().contains(o.name.unwrap()),
{
    if o.name is Some {
        assert(opt_value(o.name)[0] == o.name.unwrap());
        lemma_output_args_part_4(o, o.name.unwrap());
    }
}

proof fn lemma_output_args_part_1(o: OutputOptions, x: Seq<char>)
    requires
        (flag_arg(o.json, "-json"@)).contains(x),
    ensures
        o.args().contains(x),
{
    lemma_contains_prepend(seq!["output"@], flag_arg(o.json, "-json"@), x);
    let s = seq!["output"@] + flag_arg(o.json, "-json"@);
    lemma_contains_append(s, flag_arg(o.raw, "-raw"@), x);
    let s = s + flag_arg(o.raw, "-raw"@);
    lemma_contains_append(s, o.raw_args, x);
    let s = s + o.raw_args;
    lemma_contains_append(s, opt_value(o.name), x);
    let s = s + opt_value(o.name);
}

proof fn lemma_output_args_part_2(o: OutputOptions, x: Seq<char>)
    requires
        (flag_arg(o.raw, "-raw"@)).contains(x),
    ensures
        o.args().contains(x),
{
    lemma_contains_prepend(seq!["output"@] + flag_arg(o.json, "-json"@), flag_arg(o.raw, "-raw"@), x);
    let s = seq!["output"@] + flag_arg(o.json, "-json"@) + flag_arg(o.raw, "-raw"@);
    lemma_contains_append(s, o.raw_args, x);
    let s = s + o.raw_args;
    lemma_contains_append(s, opt_value(o.name), x);
    let s = s + opt_value(o.name);
}

proof fn lemma_output_args_part_3(o: OutputOptions, x: Seq<char>)
    requires
        (o.raw_args).contains(x),
    ensures
        o.args().contains(x),
{
    lemma_contains_prepend(seq!["output"@] + flag_arg(o.json, "-json"@) + flag_arg(o.raw, "-raw"@), o.raw_args, x);
    let s = seq!["output"@] + flag_arg(o.json, "-json"@) + flag_arg(o.raw, "-raw"@) + o.raw_args;
    lemma_contains_append(s, opt_value(o.name), x);
    let s = s + opt_value(o.name);
}

proof fn lemma_output_args_part_4(o: OutputOptions, x: Seq<char>)
    requires
        (opt_value(o.name)).contains(x),
    ensures
        o.args().contains(x),
{
    lemma_contains_prepend(seq!["output"@] + flag_arg(o.json, "-json"@) + flag_arg(o.raw, "-raw"@) + o.raw_args, opt_value(o.name), x);
    let s = seq!["output"@] + flag_arg(o.json, "-json"@) + flag_arg(o.raw, "-raw"@) + o.raw_args + opt_value(o.name);
}

} // verus!
