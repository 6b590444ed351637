//! Any Terraform subcommand, with arbitrary arguments.
use vstd::prelude::*;

use crate::command::TerraformCommand;
use crate::text::{push_all, push_str, to_strings, views};

verus! {

/// The options of a [`RawCommand`], as plain values.
#[verifier::ext_equal]
pub struct RawOptions {
    pub subcommand: Seq<char>,
    pub extra_args: Seq<Seq<char>>,
}

impl RawOptions {
    /// The subcommand followed by the extra arguments, in the order given.
    pub open spec fn args(self) -> Seq<Seq<char>> {
        seq![self.subcommand] + self.extra_args
    }
}

/// Escape-hatch command for running any Terraform subcommand.
///
/// Use this when you need a subcommand that doesn't have a dedicated type,
/// while still benefiting from the [`Terraform`](crate::Terraform) client's
/// binary resolution, working directory, environment variables, and global
/// arguments.
#[derive(Debug, Clone)]
pub struct RawCommand {
    subcommand: String,
    extra_args: Vec<String>,
}

impl View for RawCommand {
    type V = RawOptions;

    closed spec fn view(&self) -> RawOptions {
        RawOptions { subcommand: self.subcommand@, extra_args: self.extra_args.deep_view() }
    }
}

impl RawCommand {
    /// Create a new raw command for the given subcommand.
    pub fn new(subcommand: &str) -> (r: Self)
        ensures
            r@ == (RawOptions { subcommand: subcommand@, extra_args: seq![] }),
    {
        let r = RawCommand { subcommand: String::from_str(subcommand), extra_args: Vec::new() };
        assert(r@ =~= (RawOptions { subcommand: subcommand@, extra_args: seq![] }));
        r
    }

    /// Add an argument to the command.
    pub fn arg(self, arg: &str) -> (r: Self)
        ensures
            r@ == (RawOptions { extra_args: self@.extra_args.push(arg@), ..self@ }),
    {
        let mut s = self;
        push_str(&mut s.extra_args, arg);
        s
    }

    /// Add multiple arguments to the command, in order.
    pub fn with_args(self, args: &[&str]) -> (r: Self)
        ensures
            r@ == (RawOptions { extra_args: self@.extra_args + views(args@), ..self@ }),
    {
        let mut s = self;
        let more = to_strings(args);
        push_all(&mut s.extra_args, &more);
        s
    }
}

impl TerraformCommand for RawCommand {
    open spec fn spec_args(&self) -> Seq<Seq<char>> {
        self@.args()
    }

    open spec fn spec_supports_input(&self) -> bool {
        false
    }

    fn args(&self) -> (r: Vec<String>) {
        let mut args: Vec<String> = Vec::new();
        push_str(&mut args, self.subcommand.as_str());
        assert(args.deep_view() =~= seq![self.subcommand@]);
        push_all(&mut args, &self.extra_args);
        assert(args.deep_view().len() == args@.len());
        args
    }

    fn supports_input(&self) -> (b: bool) {
        false
    }
}

/// The subcommand comes first, followed by exactly the extra arguments.
pub proof fn law_raw_layout(o: RawOptions)
    ensures
        o.args()[0] == o.subcommand,
        o.args().drop_first() == o.extra_args,
{
    assert(o.args().drop_first() =~= o.extra_args);
}

} // verus!
