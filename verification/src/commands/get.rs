//! `terraform get`.
use vstd::prelude::*;

use crate::command::TerraformCommand;
use crate::text::{
    flag_arg, lemma_contains_append, lemma_contains_prepend, push_all, push_flag, push_str,
};

verus! {

/// The options of a [`GetCommand`], as plain values.
#[verifier::ext_equal]
pub struct GetOptions {
    pub update: bool,
    pub no_color: bool,
    pub raw_args: Seq<Seq<char>>,
}

impl GetOptions {
    /// The options of a fresh command.
    pub open spec fn initial() -> Self {
        GetOptions {
            update: false,
            no_color: false,
            raw_args: seq![],
        }
    }

    /// `get`, its flags in a fixed order, then the raw arguments.
    pub open spec fn args(self) -> Seq<Seq<char>> {
        seq!["get"@]
            + flag_arg(self.update, "-update"@)
            + flag_arg(self.no_color, "-no-color"@)
            + self.raw_args
    }
}

/// Command for downloading and updating remote modules.
///
/// Downloads modules referenced in the configuration. This is also done
/// automatically by `terraform init`, but `get` is useful for updating
/// modules independently.
#[derive(Debug, Clone, Default)]
pub struct GetCommand {
    update: bool,
    no_color: bool,
    raw_args: Vec<String>,
}

impl View for GetCommand {
    type V = GetOptions;

    closed spec fn view(&self) -> GetOptions {
        GetOptions {
            update: self.update,
            no_color: self.no_color,
            raw_args: self.raw_args.deep_view(),
        }
    }
}

impl GetCommand {
    /// Create a new get command with default options.
    pub fn new() -> (r: Self)
        ensures
            r@ == GetOptions::initial(),
    {
        let r = GetCommand {
            update: false,
            no_color: false,
            raw_args: Vec::new(),
        };
        assert(r@ =~= GetOptions::initial());
        r
    }

    /// Check for and download updates to already-installed modules (`-update`).
    pub fn update(self) -> (r: Self)
        ensures
            r@ == (GetOptions { update: true, ..self@ }),
    {
        GetCommand { update: true, ..self }
    }

    /// Disable color output (`-no-color`).
    pub fn no_color(self) -> (r: Self)
        ensures
            r@ == (GetOptions { no_color: true, ..self@ }),
    {
        GetCommand { no_color: true, ..self }
    }

    /// Add a raw argument (escape hatch for unsupported options).
    pub fn arg(self, arg: &str) -> (r: Self)
        ensures
            r@ == (GetOptions { raw_args: self@.raw_args.push(arg@), ..self@ }),
    {
        let mut s = self;
        push_str(&mut s.raw_args, arg);
        s
    }
}

impl TerraformCommand for GetCommand {
    open spec fn spec_args(&self) -> Seq<Seq<char>> {
        self@.args()
    }

    open spec fn spec_supports_input(&self) -> bool {
        false
    }

    fn args(&self) -> (r: Vec<String>) {
        let mut args: Vec<String> = Vec::new();
        push_str(&mut args, "get");
        assert(args.deep_view() =~= seq!["get"@]);
        push_flag(&mut args, self.update, "-update");
        push_flag(&mut args, self.no_color, "-no-color");
        push_all(&mut args, &self.raw_args);
        assert(args.deep_view().len() == args@.len());
        args
    }

    fn supports_input(&self) -> (b: bool) {
        false
    }
}

/// `get` comes first.
pub proof fn law_get_layout(o: GetOptions)
    ensures
        o.args()[0] == "get"@,
{
}

/// Every option set on the command reaches its arguments as the one
/// argument Terraform expects for it, the subcommand comes first, and there
/// is one argument per option set and nothing more.
pub proof fn law_get_arguments(o: GetOptions)
    ensures
        o.args()[0] == "get"@,
        o.args().len() == 1 + (if o.update { 1int } else { 0int }) + (if o.no_color { 1int } else { 0int }) + o.raw_args.len(),
        o.update ==> o.args().contains("-update"@),
        o.no_color ==> o.args().contains("-no-color"@),
        forall|i: int| 0 <= i < o.raw_args.len() ==> o.args().contains(#[trigger] o.raw_args[i]),
{
    lemma_get_args_first(o);
    lemma_get_args_len(o);
    lemma_get_args_has_0(o);
    lemma_get_args_has_1(o);
    lemma_get_args_has_2(o);
}

proof fn lemma_get_args_len(o: GetOptions)
    ensures
        o.args().len() == 1 + (if o.update { 1int } else { 0int }) + (if o.no_color { 1int } else { 0int }) + o.raw_args.len(),
{
    assert((seq!["get"@]).len() == 1);
    assert((flag_arg(o.update, "-update"@)).len() == (if o.update { 1int } else { 0int }));
    assert((flag_arg(o.no_color, "-no-color"@)).len() == (if o.no_color { 1int } else { 0int }));
    assert((o.raw_args).len() == o.raw_args.len());
}

proof fn lemma_get_args_first(o: GetOptions)
    ensures
        o.args()[0] == "get"@,
{
}

proof fn lemma_get_args_has_0(o: GetOptions)
    ensures
        o.update ==> o.args().contains("-update"@),
{
    if o.update {
        assert(flag_arg(o.update, "-update"@)[0] == "-update"@);
        lemma_get_args_part_1(o, "-update"@);
    }
}

proof fn lemma_get_args_has_1(o: GetOptions)
    ensures
        o.no_color ==> o.args().contains("-no-color"@),
{
    if o.no_color {
        assert(flag_arg(o.no_color, "-no-color"@)[0] == "-no-color"@);
        lemma_get_args_part_2(o, "-no-color"@);
    }
}

proof fn lemma_get_args_has_2(o: GetOptions)
    ensures
        forall|i: int| 0 <= i < o.raw_args.len() ==> o.args().contains(#[trigger] o.raw_args[i]),
{
    assert forall|i: int| 0 <= i < o.raw_args.len() implies o.args().contains(#[trigger] o.raw_args[i]) by {
        assert(o.raw_args[i] == o.raw_args[i]);
        lemma_get_args_part_3(o, o.raw_args[i]);
    }
}

proof fn lemma_get_args_part_1(o: GetOptions, x: Seq<char>)
    requires
        (flag_arg(o.update, "-update"@)).contains(x),
    ensures
        o.args().contains(x),
{
    lemma_contains_prepend(seq!["get"@], flag_arg(o.update, "-update"@), x);
    let s = seq!["get"@] + flag_arg(o.update, "-update"@);
    lemma_contains_append(s, flag_arg(o.no_color, "-no-color"@), x);
    let s = s + flag_arg(o.no_color, "-no-color"@);
    lemma_contains_append(s, o.raw_args, x);
    let s = s + o.raw_args;
}

proof fn lemma_get_args_part_2(o: GetOptions, x: Seq<char>)
    requires
        (flag_arg(o.no_color, "-no-color"@)).contains(x),
    ensures
        o.args().contains(x),
{
    lemma_contains_prepend(seq!["get"@] + flag_arg(o.update, "-update"@), flag_arg(o.no_color, "-no-color"@), x);
    let s = seq!["get"@] + flag_arg(o.update, "-update"@) + flag_arg(o.no_color, "-no-color"@);
    lemma_contains_append(s, o.raw_args, x);
    let s = s + o.raw_args;
}

proof fn lemma_get_args_part_3(o: GetOptions, x: Seq<char>)
    requires
        (o.raw_args).contains(x),
    ensures
        o.args().contains(x),
{
    lemma_contains_prepend(seq!["get"@] + flag_arg(o.update, "-update"@) + flag_arg(o.no_color, "-no-color"@), o.raw_args, x);
    let s = seq!["get"@] + flag_arg(o.update, "-update"@) + flag_arg(o.no_color, "-no-color"@) + o.raw_args;
}

} // verus!
