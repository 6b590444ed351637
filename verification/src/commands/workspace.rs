//! `terraform workspace` and its subcommands.
use vstd::prelude::*;

use crate::command::TerraformCommand;
use crate::text::{flag_arg, push_all, push_flag, push_str};

verus! {

/// The workspace subcommand to execute.
#[derive(Debug, Clone)]
pub enum WorkspaceSubcommand {
    /// List all workspaces.
    List,
    /// Show the current workspace name.
    Show,
    /// Create a new workspace.
    New(String),
    /// Switch to an existing workspace.
    Select(String),
    /// Delete a workspace.
    Delete(String),
}

/// A [`WorkspaceSubcommand`] as a plain value.
pub enum WorkspaceAction {
    List,
    Show,
    New(Seq<char>),
    Select(Seq<char>),
    Delete(Seq<char>),
}

impl View for WorkspaceSubcommand {
    type V = WorkspaceAction;

    open spec fn view(&self) -> WorkspaceAction {
        match self {
            WorkspaceSubcommand::List => WorkspaceAction::List,
            WorkspaceSubcommand::Show => WorkspaceAction::Show,
            WorkspaceSubcommand::New(name) => WorkspaceAction::New(name@),
            WorkspaceSubcommand::Select(name) => WorkspaceAction::Select(name@),
            WorkspaceSubcommand::Delete(name) => WorkspaceAction::Delete(name@),
        }
    }
}

/// The options of a [`WorkspaceCommand`], as plain values.
#[verifier::ext_equal]
pub struct WorkspaceOptions {
    pub subcommand: WorkspaceAction,
    pub force: bool,
    pub raw_args: Seq<Seq<char>>,
}

impl WorkspaceOptions {
    /// A fresh command for `subcommand`.
    pub open spec fn initial(subcommand: WorkspaceAction) -> Self {
        WorkspaceOptions { subcommand, force: false, raw_args: seq![] }
    }

    /// The arguments that follow `workspace`: `-force` goes to `delete` only.
    pub open spec fn subcommand_args(self) -> Seq<Seq<char>> {
        match self.subcommand {
            WorkspaceAction::List => seq!["list"@],
            WorkspaceAction::Show => seq!["show"@],
            WorkspaceAction::New(name) => seq!["new"@, name],
            WorkspaceAction::Select(name) => seq!["select"@, name],
            WorkspaceAction::Delete(name) => seq!["delete"@] + flag_arg(self.force, "-force"@) + seq![name],
        }
    }

    /// `workspace`, the subcommand's arguments, then the raw arguments.
    pub open spec fn args(self) -> Seq<Seq<char>> {
        seq!["workspace"@] + self.subcommand_args() + self.raw_args
    }
}

/// Command for managing Terraform workspaces.
#[derive(Debug, Clone)]
pub struct WorkspaceCommand {
    subcommand: WorkspaceSubcommand,
    force: bool,
    raw_args: Vec<String>,
}

impl View for WorkspaceCommand {
    type V = WorkspaceOptions;

    closed spec fn view(&self) -> WorkspaceOptions {
        WorkspaceOptions { subcommand: self.subcommand@, force: self.force, raw_args: self.raw_args.deep_view() }
    }
}

impl WorkspaceCommand {
    fn with_subcommand(subcommand: WorkspaceSubcommand) -> (r: Self)
        ensures
            r@ == WorkspaceOptions::initial(subcommand@),
    {
        let r = WorkspaceCommand { subcommand, force: false, raw_args: Vec::new() };
        assert(r@ =~= WorkspaceOptions::initial(subcommand@));
        r
    }

    /// List all workspaces.
    pub fn list() -> (r: Self)
        ensures
            r@ == WorkspaceOptions::initial(WorkspaceAction::List),
    {
        Self::with_subcommand(WorkspaceSubcommand::List)
    }

    /// Show the current workspace name.
    pub fn show() -> (r: Self)
        ensures
            r@ == WorkspaceOptions::initial(WorkspaceAction::Show),
    {
        Self::with_subcommand(WorkspaceSubcommand::Show)
    }

    /// Create a new workspace.
    pub fn new_workspace(name: &str) -> (r: Self)
        ensures
            r@ == WorkspaceOptions::initial(WorkspaceAction::New(name@)),
    {
        Self::with_subcommand(WorkspaceSubcommand::New(String::from_str(name)))
    }

    /// Select (switch to) an existing workspace.
    pub fn select(name: &str) -> (r: Self)
        ensures
            r@ == WorkspaceOptions::initial(WorkspaceAction::Select(name@)),
    {
        Self::with_subcommand(WorkspaceSubcommand::Select(String::from_str(name)))
    }

    /// Delete a workspace.
    pub fn delete(name: &str) -> (r: Self)
        ensures
            r@ == WorkspaceOptions::initial(WorkspaceAction::Delete(name@)),
    {
        Self::with_subcommand(WorkspaceSubcommand::Delete(String::from_str(name)))
    }

    /// Force deletion of a non-empty workspace (`-force`).
    pub fn force(self) -> (r: Self)
        ensures
            r@ == (WorkspaceOptions { force: true, ..self@ }),
    {
        WorkspaceCommand { force: true, ..self }
    }

    /// Add a raw argument (escape hatch for unsupported options).
    pub fn arg(self, arg: &str) -> (r: Self)
        ensures
            r@ == (WorkspaceOptions { raw_args: self@.raw_args.push(arg@), ..self@ }),
    {
        let mut s = self;
        push_str(&mut s.raw_args, arg);
        s
    }
}

impl TerraformCommand for WorkspaceCommand {
    open spec fn spec_args(&self) -> Seq<Seq<char>> {
        self@.args()
    }

    open spec fn spec_supports_input(&self) -> bool {
        false
    }

    fn args(&self) -> (r: Vec<String>) {
        let mut args: Vec<String> = Vec::new();
        push_str(&mut args, "workspace");
        match &self.subcommand {
            WorkspaceSubcommand::List => push_str(&mut args, "list"),
            WorkspaceSubcommand::Show => push_str(&mut args, "show"),
            WorkspaceSubcommand::New(name) => {
                push_str(&mut args, "new");
                push_str(&mut args, name.as_str());
            },
            WorkspaceSubcommand::Select(name) => {
                push_str(&mut args, "select");
                push_str(&mut args, name.as_str());
            },
            WorkspaceSubcommand::Delete(name) => {
                push_str(&mut args, "delete");
                push_flag(&mut args, self.force, "-force");
                push_str(&mut args, name.as_str());
            },
        }
        assert(args.deep_view() =~= seq!["workspace"@] + self@.subcommand_args());
        push_all(&mut args, &self.raw_args);
        assert(args.deep_view() =~= self@.args());
        assert(args.deep_view().len() == args@.len());
        args
    }

    fn supports_input(&self) -> (b: bool) {
        false
    }
}

/// `workspace` comes first, and `-force` changes the arguments of `delete`
/// only.
pub proof fn law_workspace_force(a: WorkspaceOptions, b: WorkspaceOptions)
    requires
        a.subcommand == b.subcommand,
        a.raw_args == b.raw_args,
        !(a.subcommand is Delete),
    ensures
        a.args()[0] == "workspace"@,
        a.args() == b.args(),
{
}

} // verus!
