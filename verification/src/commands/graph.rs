//! `terraform graph`.
use vstd::prelude::*;

use crate::command::TerraformCommand;
use crate::text::{
    flag_arg, lemma_contains_append, lemma_contains_prepend, opt_prefixed, push_all, push_flag, push_opt, push_str,
};

verus! {

/// The options of a [`GraphCommand`], as plain values.
#[verifier::ext_equal]
pub struct GraphOptions {
    pub graph_type: Option<Seq<char>>,
    pub plan_file: Option<Seq<char>>,
    pub draw_cycles: bool,
    pub raw_args: Seq<Seq<char>>,
}

impl GraphOptions {
    /// The options of a fresh command.
    pub open spec fn initial() -> Self {
        GraphOptions {
            graph_type: None,
            plan_file: None,
            draw_cycles: false,
            raw_args: seq![],
        }
    }

    /// `graph`, its flags in a fixed order, then the raw arguments.
    pub open spec fn args(self) -> Seq<Seq<char>> {
        seq!["graph"@]
            + opt_prefixed("-type="@, self.graph_type)
            + opt_prefixed("-plan="@, self.plan_file)
            + flag_arg(self.draw_cycles, "-draw-cycles"@)
            + self.raw_args
    }
}

/// Command for generating a visual dependency graph in DOT format.
///
/// Produces a representation of the dependency graph between Terraform
/// resources, suitable for rendering with Graphviz.
#[derive(Debug, Clone, Default)]
pub struct GraphCommand {
    graph_type: Option<String>,
    plan_file: Option<String>,
    draw_cycles: bool,
    raw_args: Vec<String>,
}

impl View for GraphCommand {
    type V = GraphOptions;

    closed spec fn view(&self) -> GraphOptions {
        GraphOptions {
            graph_type: self.graph_type.deep_view(),
            plan_file: self.plan_file.deep_view(),
            draw_cycles: self.draw_cycles,
            raw_args: self.raw_args.deep_view(),
        }
    }
}

impl GraphCommand {
    /// Create a new graph command with default options.
    pub fn new() -> (r: Self)
        ensures
            r@ == GraphOptions::initial(),
    {
        let r = GraphCommand {
            graph_type: None,
            plan_file: None,
            draw_cycles: false,
            raw_args: Vec::new(),
        };
        assert(r@ =~= GraphOptions::initial());
        r
    }

    /// Set the graph type (`-type=plan|plan-refresh-only|plan-destroy|apply`).
    pub fn graph_type(self, graph_type: &str) -> (r: Self)
        ensures
            r@ == (GraphOptions { graph_type: Some(graph_type@), ..self@ }),
    {
        GraphCommand { graph_type: Some(String::from_str(graph_type)), ..self }
    }

    /// Use a saved plan file (`-plan=<file>`).
    ///
    /// Terraform then draws the graph of type `apply`.
    pub fn plan_file(self, path: &str) -> (r: Self)
        ensures
            r@ == (GraphOptions { plan_file: Some(path@), ..self@ }),
    {
        GraphCommand { plan_file: Some(String::from_str(path)), ..self }
    }

    /// Highlight circular dependencies (`-draw-cycles`).
    pub fn draw_cycles(self) -> (r: Self)
        ensures
            r@ == (GraphOptions { draw_cycles: true, ..self@ }),
    {
        GraphCommand { draw_cycles: true, ..self }
    }

    /// Add a raw argument (escape hatch for unsupported options).
    pub fn arg(self, arg: &str) -> (r: Self)
        ensures
            r@ == (GraphOptions { raw_args: self@.raw_args.push(arg@), ..self@ }),
    {
        let mut s = self;
        push_str(&mut s.raw_args, arg);
        s
    }
}

impl TerraformCommand for GraphCommand {
    open spec fn spec_args(&self) -> Seq<Seq<char>> {
        self@.args()
    }

    open spec fn spec_supports_input(&self) -> bool {
        false
    }

    fn args(&self) -> (r: Vec<String>) {
        let mut args: Vec<String> = Vec::new();
        push_str(&mut args, "graph");
        assert(args.deep_view() =~= seq!["graph"@]);
        push_opt(&mut args, "-type=", &self.graph_type);
        push_opt(&mut args, "-plan=", &self.plan_file);
        push_flag(&mut args, self.draw_cycles, "-draw-cycles");
        push_all(&mut args, &self.raw_args);
        assert(args.deep_view().len() == args@.len());
        args
    }

    fn supports_input(&self) -> (b: bool) {
        false
    }
}

/// `graph` comes first.
pub proof fn law_graph_layout(o: GraphOptions)
    ensures
        o.args()[0] == "graph"@,
{
}

/// Every option set on the command reaches its arguments as the one
/// argument Terraform expects for it, the subcommand comes first, and there
/// is one argument per option set and nothing more.
pub proof fn law_graph_arguments(o: GraphOptions)
    ensures
        o.args()[0] == "graph"@,
        o.args().len() == 1 + (if o.graph_type is Some { 1int } else { 0int }) + (if o.plan_file is Some { 1int } else { 0int }) + (if o.draw_cycles { 1int } else { 0int }) + o.raw_args.len(),
        o.graph_type is Some ==> o.args().contains("-type="@ + o.graph_type.unwrap()),
        o.plan_file is Some ==> o.args().contains("-plan="@ + o.plan_file.unwrap()),
        o.draw_cycles ==> o.args().contains("-draw-cycles"@),
        forall|i: int| 0 <= i < o.raw_args.len() ==> o.args().contains(#[trigger] o.raw_args[i]),
{
    lemma_graph_args_first(o);
    lemma_graph_args_len(o);
    lemma_graph_args_has_0(o);
    lemma_graph_args_has_1(o);
    lemma_graph_args_has_2(o);
    lemma_graph_args_has_3(o);
}

proof fn lemma_graph_args_len(o: GraphOptions)
    ensures
        o.args().len() == 1 + (if o.graph_type is Some { 1int } else { 0int }) + (if o.plan_file is Some { 1int } else { 0int }) + (if o.draw_cycles { 1int } else { 0int }) + o.raw_args.len(),
{
    assert((seq!["graph"@]).len() == 1);
    assert((opt_prefixed("-type="@, o.graph_type)).len() == (if o.graph_type is Some { 1int } else { 0int }));
    assert((opt_prefixed("-plan="@, o.plan_file)).len() == (if o.plan_file is Some { 1int } else { 0int }));
    assert((flag_arg(o.draw_cycles, "-draw-cycles"@)).len() == (if o.draw_cycles { 1int } else { 0int }));
    assert((o.raw_args).len() == o.raw_args.len());
}

proof fn lemma_graph_args_first(o: GraphOptions)
    ensures
        o.args()[0] == "graph"@,
{
}

proof fn lemma_graph_args_has_0(o: GraphOptions)
    ensures
        o.graph_type is Some ==> o.args().contains("-type="@ + o.graph_type.unwrap()),
{
    if o.graph_type is Some {
        assert(opt_prefixed("-type="@, o.graph_type)[0] == "-type="@ + o.graph_type.unwrap());
        lemma_graph_args_part_1(o, "-type="@ + o.graph_type.unwrap());
    }
}

proof fn lemma_graph_args_has_1(o: GraphOptions)
    ensures
        o.plan_file is Some ==> o.args().contains("-plan="@ + o.plan_file.unwrap()),
{
    if o.plan_file is Some {
        assert(opt_prefixed("-plan="@, o.plan_file)[0] == "-plan="@ + o.plan_file.unwrap());
        lemma_graph_args_part_2(o, "-plan="@ + o.plan_file.unwrap());
    }
}

proof fn lemma_graph_args_has_2(o: GraphOptions)
    ensures
        o.draw_cycles ==> o.args().contains("-draw-cycles"@),
{
    if o.draw_cycles {
        assert(flag_arg(o.draw_cycles, "-draw-cycles"@)[0] == "-draw-cycles"@);
        lemma_graph_args_part_3(o, "-draw-cycles"@);
    }
}

proof fn lemma_graph_args_has_3(o: GraphOptions)
    ensures
        forall|i: int| 0 <= i < o.raw_args.len() ==> o.args().contains(#[trigger] o.raw_args[i]),
{
    assert forall|i: int| 0 <= i < o.raw_args.len() implies o.args().contains(#[trigger] o.raw_args[i]) by {
        assert(o.raw_args[i] == o.raw_args[i]);
        lemma_graph_args_part_4(o, o.raw_args[i]);
    }
}

proof fn lemma_graph_args_part_1(o: GraphOptions, x: Seq<char>)
    requires
        (opt_prefixed("-type="@, o.graph_type)).contains(x),
    ensures
        o.args().contains(x),
{
    lemma_contains_prepend(seq!["graph"@], opt_prefixed("-type="@, o.graph_type), x);
    let s = seq!["graph"@] + opt_prefixed("-type="@, o.graph_type);
    lemma_contains_append(s, opt_prefixed("-plan="@, o.plan_file), x);
    let s = s + opt_prefixed("-plan="@, o.plan_file);
    lemma_contains_append(s, flag_arg(o.draw_cycles, "-draw-cycles"@), x);
    let s = s + flag_arg(o.draw_cycles, "-draw-cycles"@);
    lemma_contains_append(s, o.raw_args, x);
    let s = s + o.raw_args;
}

proof fn lemma_graph_args_part_2(o: GraphOptions, x: Seq<char>)
    requires
        (opt_prefixed("-plan="@, o.plan_file)).contains(x),
    ensures
        o.args().contains(x),
{
    lemma_contains_prepend(seq!["graph"@] + opt_prefixed("-type="@, o.graph_type), opt_prefixed("-plan="@, o.plan_file), x);
    let s = seq!["graph"@] + opt_prefixed("-type="@, o.graph_type) + opt_prefixed("-plan="@, o.plan_file);
    lemma_contains_append(s, flag_arg(o.draw_cycles, "-draw-cycles"@), x);
    let s = s + flag_arg(o.draw_cycles, "-draw-cycles"@);
    lemma_contains_append(s, o.raw_args, x);
    let s = s + o.raw_args;
}

proof fn lemma_graph_args_part_3(o: GraphOptions, x: Seq<char>)
    requires
        (flag_arg(o.draw_cycles, "-draw-cycles"@)).contains(x),
    ensures
        o.args().contains(x),
{
    lemma_contains_prepend(seq!["graph"@] + opt_prefixed("-type="@, o.graph_type) + opt_prefixed("-plan="@, o.plan_file), flag_arg(o.draw_cycles, "-draw-cycles"@), x);
    let s = seq!["graph"@] + opt_prefixed("-type="@, o.graph_type) + opt_prefixed("-plan="@, o.plan_file) + flag_arg(o.draw_cycles, "-draw-cycles"@);
    lemma_contains_append(s, o.raw_args, x);
    let s = s + o.raw_args;
}

proof fn lemma_graph_args_part_4(o: GraphOptions, x: Seq<char>)
    requires
        (o.raw_args).contains(x),
    ensures
        o.args().contains(x),
{
    lemma_contains_prepend(seq!["graph"@] + opt_prefixed("-type="@, o.graph_type) + opt_prefixed("-plan="@, o.plan_file) + flag_arg(o.draw_cycles, "-draw-cycles"@), o.raw_args, x);
    let s = seq!["graph"@] + opt_prefixed("-type="@, o.graph_type) + opt_prefixed("-plan="@, o.plan_file) + flag_arg(o.draw_cycles, "-draw-cycles"@) + o.raw_args;
}

} // verus!
