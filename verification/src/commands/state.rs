//! `terraform state` and its subcommands.
use vstd::prelude::*;

use crate::command::TerraformCommand;
use crate::text::{
    bool_text, flag_arg, lemma_append_push, lemma_insert_append, lemma_prepend_insert, opt_bool, opt_prefixed, push_all, push_flag, push_opt, push_opt_bool, push_str,
};

verus! {

/// The state subcommand to execute.
#[derive(Debug, Clone)]
pub enum StateSubcommand {
    /// List resources in the state.
    List,
    /// Show a single resource in the state.
    Show(String),
    /// Move a resource to a different address.
    Mv {
        /// Source address.
        source: String,
        /// Destination address.
        destination: String,
    },
    /// Remove a resource from the state (without destroying it).
    Rm(Vec<String>),
    /// Pull remote state and output to stdout.
    Pull,
    /// Push local state to remote backend.
    Push,
    /// Replace a provider in the state.
    ReplaceProvider {
        /// Source provider address.
        from: String,
        /// Destination provider address.
        to: String,
    },
}

/// A [`StateSubcommand`] as a plain value.
pub enum StateAction {
    List,
    Show(Seq<char>),
    Mv { source: Seq<char>, destination: Seq<char> },
    Rm(Seq<Seq<char>>),
    Pull,
    Push,
    ReplaceProvider { from: Seq<char>, to: Seq<char> },
}

impl View for StateSubcommand {
    type V = StateAction;

    open spec fn view(&self) -> StateAction {
        match self {
            StateSubcommand::List => StateAction::List,
            StateSubcommand::Show(address) => StateAction::Show(address@),
            StateSubcommand::Mv { source, destination } => StateAction::Mv { source: source@, destination: destination@ },
            StateSubcommand::Rm(addresses) => StateAction::Rm(addresses.deep_view()),
            StateSubcommand::Pull => StateAction::Pull,
            StateSubcommand::Push => StateAction::Push,
            StateSubcommand::ReplaceProvider { from, to } => StateAction::ReplaceProvider { from: from@, to: to@ },
        }
    }
}

/// The options of a [`StateCommand`], as plain values.
#[verifier::ext_equal]
pub struct StateOptions {
    pub subcommand: StateAction,
    pub auto_approve: bool,
    pub dry_run: bool,
    pub lock: Option<bool>,
    pub lock_timeout: Option<Seq<char>>,
    pub raw_args: Seq<Seq<char>>,
}

impl StateOptions {
    /// A fresh command for `subcommand`.
    pub open spec fn initial(subcommand: StateAction) -> Self {
        StateOptions {
            subcommand,
            auto_approve: false,
            dry_run: false,
            lock: None,
            lock_timeout: None,
            raw_args: seq![],
        }
    }

    /// The flags that `mv` and `rm` take.
    pub open spec fn mv_rm_flags(self) -> Seq<Seq<char>> {
        flag_arg(self.dry_run, "-dry-run"@)
            + opt_bool("-lock="@, self.lock)
            + opt_prefixed("-lock-timeout="@, self.lock_timeout)
    }

    /// The arguments that follow `state`: flags go to the subcommands that
    /// take them and are left out elsewhere; positional addresses come last.
    pub open spec fn subcommand_args(self) -> Seq<Seq<char>> {
        match self.subcommand {
            StateAction::List => seq!["list"@],
            StateAction::Show(address) => seq!["show"@, address],
            StateAction::Mv { source, destination } => seq!["mv"@] + self.mv_rm_flags() + seq![source, destination],
            StateAction::Rm(addresses) => seq!["rm"@] + self.mv_rm_flags() + addresses,
            StateAction::Pull => seq!["pull"@],
            StateAction::Push => seq!["push"@],
            StateAction::ReplaceProvider { from, to } =>
                seq!["replace-provider"@]
                    + flag_arg(self.auto_approve, "-auto-approve"@)
                    + opt_bool("-lock="@, self.lock)
                    + opt_prefixed("-lock-timeout="@, self.lock_timeout)
                    + seq![from, to],
        }
    }

    /// `state`, the subcommand's arguments, then the raw arguments.
    pub open spec fn args(self) -> Seq<Seq<char>> {
        seq!["state"@] + self.subcommand_args() + self.raw_args
    }
}

/// Command for managing Terraform state.
#[derive(Debug, Clone)]
pub struct StateCommand {
    subcommand: StateSubcommand,
    auto_approve: bool,
    dry_run: bool,
    lock: Option<bool>,
    lock_timeout: Option<String>,
    raw_args: Vec<String>,
}

impl View for StateCommand {
    type V = StateOptions;

    closed spec fn view(&self) -> StateOptions {
        StateOptions {
            subcommand: self.subcommand@,
            auto_approve: self.auto_approve,
            dry_run: self.dry_run,
            lock: self.lock,
            lock_timeout: self.lock_timeout.deep_view(),
            raw_args: self.raw_args.deep_view(),
        }
    }
}

impl StateCommand {
    fn with_subcommand(subcommand: StateSubcommand) -> (r: Self)
        ensures
            r@ == StateOptions::initial(subcommand@),
    {
        let r = StateCommand {
            subcommand,
            auto_approve: false,
            dry_run: false,
            lock: None,
            lock_timeout: None,
            raw_args: Vec::new(),
        };
        assert(r@ =~= StateOptions::initial(subcommand@));
        r
    }

    /// List resources in the state.
    pub fn list() -> (r: Self)
        ensures
            r@ == StateOptions::initial(StateAction::List),
    {
        Self::with_subcommand(StateSubcommand::List)
    }

    /// Show a single resource in the state.
    pub fn show(address: &str) -> (r: Self)
        ensures
            r@ == StateOptions::initial(StateAction::Show(address@)),
    {
        Self::with_subcommand(StateSubcommand::Show(String::from_str(address)))
    }

    /// Move a resource to a different address.
    pub fn mv(source: &str, destination: &str) -> (r: Self)
        ensures
            r@ == StateOptions::initial(StateAction::Mv { source: source@, destination: destination@ }),
    {
        Self::with_subcommand(StateSubcommand::Mv {
            source: String::from_str(source),
            destination: String::from_str(destination),
        })
    }

    /// Remove resources from the state (without destroying them).
    pub fn rm(addresses: Vec<String>) -> (r: Self)
        ensures
            r@ == StateOptions::initial(StateAction::Rm(addresses.deep_view())),
    {
        Self::with_subcommand(StateSubcommand::Rm(addresses))
    }

    /// Pull remote state and output to stdout.
    pub fn pull() -> (r: Self)
        ensures
            r@ == StateOptions::initial(StateAction::Pull),
    {
        Self::with_subcommand(StateSubcommand::Pull)
    }

    /// Push local state to remote backend.
    pub fn push() -> (r: Self)
        ensures
            r@ == StateOptions::initial(StateAction::Push),
    {
        Self::with_subcommand(StateSubcommand::Push)
    }

    /// Replace a provider address in the state.
    pub fn replace_provider(from: &str, to: &str) -> (r: Self)
        ensures
            r@ == StateOptions::initial(StateAction::ReplaceProvider { from: from@, to: to@ }),
    {
        Self::with_subcommand(StateSubcommand::ReplaceProvider {
            from: String::from_str(from),
            to: String::from_str(to),
        })
    }

    /// Skip interactive approval (`-auto-approve`).
    ///
    /// Applies to the `replace-provider` subcommand only.
    pub fn auto_approve(self) -> (r: Self)
        ensures
            r@ == (StateOptions { auto_approve: true, ..self@ }),
    {
        StateCommand { auto_approve: true, ..self }
    }

    /// Preview the operation without making changes (`-dry-run`).
    ///
    /// Applies to `mv` and `rm` subcommands only.
    pub fn dry_run(self) -> (r: Self)
        ensures
            r@ == (StateOptions { dry_run: true, ..self@ }),
    {
        StateCommand { dry_run: true, ..self }
    }

    /// Enable or disable state locking (`-lock`).
    ///
    /// Applies to `mv`, `rm` and `replace-provider`.
    pub fn lock(self, enabled: bool) -> (r: Self)
        ensures
            r@ == (StateOptions { lock: Some(enabled), ..self@ }),
    {
        StateCommand { lock: Some(enabled), ..self }
    }

    /// Duration to wait for state lock (`-lock-timeout`).
    ///
    /// Applies to `mv`, `rm` and `replace-provider`.
    pub fn lock_timeout(self, timeout: &str) -> (r: Self)
        ensures
            r@ == (StateOptions { lock_timeout: Some(timeout@), ..self@ }),
    {
        StateCommand { lock_timeout: Some(String::from_str(timeout)), ..self }
    }

    /// Add a raw argument (escape hatch for unsupported options).
    pub fn arg(self, arg: &str) -> (r: Self)
        ensures
            r@ == (StateOptions { raw_args: self@.raw_args.push(arg@), ..self@ }),
    {
        let mut s = self;
        push_str(&mut s.raw_args, arg);
        s
    }

    /// Push the subcommand's own arguments into the args list.
    #[verifier::rlimit(60)]
    fn push_subcommand_args(&self, args: &mut Vec<String>)
        ensures
            final(args).deep_view() == old(args).deep_view() + self@.subcommand_args(),
    {
        let ghost start = args.deep_view();
        match &self.subcommand {
            StateSubcommand::List => {
                push_str(args, "list");
                assert(args.deep_view() =~= start + self@.subcommand_args());
            },
            StateSubcommand::Show(address) => {
                push_str(args, "show");
                push_str(args, address.as_str());
                assert(args.deep_view() =~= start + self@.subcommand_args());
            },
            StateSubcommand::Mv { source, destination } => {
                push_str(args, "mv");
                self.push_mv_rm_flags(args);
                push_str(args, source.as_str());
                push_str(args, destination.as_str());
                assert(args.deep_view() =~= start + self@.subcommand_args());
            },
            StateSubcommand::Rm(addresses) => {
                push_str(args, "rm");
                self.push_mv_rm_flags(args);
                push_all(args, addresses);
                assert(args.deep_view() =~= start + self@.subcommand_args());
            },
            StateSubcommand::Pull => {
                push_str(args, "pull");
                assert(args.deep_view() =~= start + self@.subcommand_args());
            },
            StateSubcommand::Push => {
                push_str(args, "push");
                assert(args.deep_view() =~= start + self@.subcommand_args());
            },
            StateSubcommand::ReplaceProvider { from, to } => {
                push_str(args, "replace-provider");
                push_flag(args, self.auto_approve, "-auto-approve");
                push_opt_bool(args, "-lock=", self.lock);
                push_opt(args, "-lock-timeout=", &self.lock_timeout);
                push_str(args, from.as_str());
                push_str(args, to.as_str());
                assert(args.deep_view() =~= start + self@.subcommand_args());
            },
        }
    }

    /// Push mv/rm-specific flags into the args list.
    fn push_mv_rm_flags(&self, args: &mut Vec<String>)
        ensures
            final(args).deep_view() == old(args).deep_view() + self@.mv_rm_flags(),
    {
        let ghost start = args.deep_view();
        push_flag(args, self.dry_run, "-dry-run");
        push_opt_bool(args, "-lock=", self.lock);
        push_opt(args, "-lock-timeout=", &self.lock_timeout);
        assert(args.deep_view() =~= start + self@.mv_rm_flags());
    }
}

impl TerraformCommand for StateCommand {
    open spec fn spec_args(&self) -> Seq<Seq<char>> {
        self@.args()
    }

    open spec fn spec_supports_input(&self) -> bool {
        false
    }

    fn args(&self) -> (r: Vec<String>) {
        let mut args: Vec<String> = Vec::new();
        push_str(&mut args, "state");
        assert(args.deep_view() =~= seq!["state"@]);
        self.push_subcommand_args(&mut args);
        push_all(&mut args, &self.raw_args);
        assert(args.deep_view().len() == args@.len());
        args
    }

    fn supports_input(&self) -> (b: bool) {
        false
    }
}

/// `list`, `show`, `pull` and `push` ignore the approval, dry-run and locking
/// options: two commands that differ only in those give the same arguments.
pub proof fn law_state_flags_ignored(a: StateOptions, b: StateOptions)
    requires
        a.subcommand == b.subcommand,
        a.raw_args == b.raw_args,
        a.subcommand is List || a.subcommand is Show || a.subcommand is Pull || a.subcommand is Push,
    ensures
        a.args()[0] == "state"@,
        a.args() == b.args(),
{
}

/// `-auto-approve` reaches `replace-provider` only and `-dry-run` reaches
/// `mv` and `rm` only.
pub proof fn law_state_flag_scope(a: StateOptions, b: StateOptions)
    requires
        a.subcommand == b.subcommand,
        a.raw_args == b.raw_args,
        a.lock == b.lock,
        a.lock_timeout == b.lock_timeout,
    ensures
        !(a.subcommand is ReplaceProvider) && a.dry_run == b.dry_run ==> a.args() == b.args(),
        !(a.subcommand is Mv || a.subcommand is Rm) && a.auto_approve == b.auto_approve ==> a.args() == b.args(),
{
}

/// The source and destination of `mv` are its last two arguments before the
/// raw arguments.
pub proof fn law_state_mv_positions(o: StateOptions)
    requires
        o.subcommand matches StateAction::Mv { .. },
        o.raw_args.len() == 0,
    ensures
        o.args()[o.args().len() - 2] == o.subcommand->source,
        o.args().last() == o.subcommand->destination,
{
}

/// `mv`, `rm` and `replace-provider` pass `-lock=<true|false>` as one
/// argument after the flags before it and before the addresses or
/// providers; the other subcommands leave it out (see
/// [`law_state_flags_ignored`]), and the last value set is the one passed.
pub proof fn law_state_lock(o: StateOptions, b: bool, a: bool)
    ensures
        (o.subcommand is Mv || o.subcommand is Rm) ==> (StateOptions { lock: Some(b), ..o }).args()
            == (StateOptions { lock: None, ..o }).args().insert(
                2int + flag_arg(o.dry_run, "-dry-run"@).len(),
                "-lock="@ + bool_text(b),
            ),
        o.subcommand is ReplaceProvider ==> (StateOptions { lock: Some(b), ..o }).args()
            == (StateOptions { lock: None, ..o }).args().insert(
                2int + flag_arg(o.auto_approve, "-auto-approve"@).len(),
                "-lock="@ + bool_text(b),
            ),
        (StateOptions { lock: Some(b), ..StateOptions { lock: Some(a), ..o } }) == (StateOptions { lock: Some(b), ..o }),
{
    if o.subcommand is Mv || o.subcommand is Rm {
        lemma_state_lock_mv_rm(o, b);
    }
    if o.subcommand is ReplaceProvider {
        lemma_state_lock_replace_provider(o, b);
    }
}

proof fn lemma_state_lock_mv_rm(o: StateOptions, b: bool)
    requires
        o.subcommand is Mv || o.subcommand is Rm,
    ensures
        (StateOptions { lock: Some(b), ..o }).args() == (StateOptions { lock: None, ..o }).args().insert(
            2int + flag_arg(o.dry_run, "-dry-run"@).len(),
            "-lock="@ + bool_text(b),
        ),
{
    let with = StateOptions { lock: Some(b), ..o };
    let without = StateOptions { lock: None, ..o };
    let e = "-lock="@ + bool_text(b);
    let dry = flag_arg(o.dry_run, "-dry-run"@);
    let k: int = dry.len() as int;
    assert(opt_bool("-lock="@, Some(b)) =~= opt_bool("-lock="@, None).push(e));
    lemma_append_push(dry, opt_bool("-lock="@, None), e);
    lemma_insert_append(dry + opt_bool("-lock="@, None), k, e, opt_prefixed("-lock-timeout="@, o.lock_timeout));
    assert(with.mv_rm_flags() == without.mv_rm_flags().insert(k, e));
    let name = if o.subcommand is Mv { "mv"@ } else { "rm"@ };
    let tail = if o.subcommand is Mv { seq![o.subcommand->source, o.subcommand->destination] } else { o.subcommand->Rm_0 };
    lemma_prepend_insert(seq![name], without.mv_rm_flags(), k, e);
    lemma_insert_append(seq![name] + without.mv_rm_flags(), 1 + k, e, tail);
    assert(with.subcommand_args() == seq![name] + with.mv_rm_flags() + tail);
    assert(without.subcommand_args() == seq![name] + without.mv_rm_flags() + tail);
    lemma_prepend_insert(seq!["state"@], without.subcommand_args(), 1 + k, e);
    lemma_insert_append(seq!["state"@] + without.subcommand_args(), 2 + k, e, o.raw_args);
}

proof fn lemma_state_lock_replace_provider(o: StateOptions, b: bool)
    requires
        o.subcommand is ReplaceProvider,
    ensures
        (StateOptions { lock: Some(b), ..o }).args() == (StateOptions { lock: None, ..o }).args().insert(
            2int + flag_arg(o.auto_approve, "-auto-approve"@).len(),
            "-lock="@ + bool_text(b),
        ),
{
    let with = StateOptions { lock: Some(b), ..o };
    let without = StateOptions { lock: None, ..o };
    let e = "-lock="@ + bool_text(b);
    let head = seq!["replace-provider"@] + flag_arg(o.auto_approve, "-auto-approve"@);
    let k: int = head.len() as int;
    let t1 = opt_prefixed("-lock-timeout="@, o.lock_timeout);
    let t2 = seq![o.subcommand->from, o.subcommand->to];
    assert(opt_bool("-lock="@, Some(b)) =~= opt_bool("-lock="@, None).push(e));
    lemma_append_push(head, opt_bool("-lock="@, None), e);
    lemma_insert_append(head + opt_bool("-lock="@, None), k, e, t1);
    lemma_insert_append(head + opt_bool("-lock="@, None) + t1, k, e, t2);
    assert(with.subcommand_args() == head + opt_bool("-lock="@, Some(b)) + t1 + t2);
    assert(without.subcommand_args() == head + opt_bool("-lock="@, None) + t1 + t2);
    lemma_prepend_insert(seq!["state"@], without.subcommand_args(), k, e);
    lemma_insert_append(seq!["state"@] + without.subcommand_args(), 1 + k, e, o.raw_args);
}

} // verus!
