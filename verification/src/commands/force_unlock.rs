//! `terraform force-unlock`.
use vstd::prelude::*;

use crate::command::TerraformCommand;
use crate::text::{
    flag_arg, lemma_contains_append, lemma_contains_prepend, push_all, push_flag, push_str,
};

verus! {

/// The options of a [`ForceUnlockCommand`], as plain values.
#[verifier::ext_equal]
pub struct ForceUnlockOptions {
    pub lock_id: Seq<char>,
    pub force: bool,
    pub raw_args: Seq<Seq<char>>,
}

impl ForceUnlockOptions {
    /// The options of a fresh command for the given positional values.
    pub open spec fn initial(lock_id: Seq<char>) -> Self {
        ForceUnlockOptions {
            lock_id: lock_id,
            force: false,
            raw_args: seq![],
        }
    }

    /// `force-unlock`, `-force` where set, the raw arguments, then the lock id.
    pub open spec fn args(self) -> Seq<Seq<char>> {
        seq!["force-unlock"@]
            + flag_arg(self.force, "-force"@)
            + self.raw_args
            + seq![self.lock_id]
    }
}

/// Command for manually releasing a stuck state lock.
///
/// Requires a lock ID as a positional argument. Use `-force` to skip the
/// confirmation prompt.
#[derive(Debug, Clone)]
pub struct ForceUnlockCommand {
    lock_id: String,
    force: bool,
    raw_args: Vec<String>,
}

impl View for ForceUnlockCommand {
    type V = ForceUnlockOptions;

    closed spec fn view(&self) -> ForceUnlockOptions {
        ForceUnlockOptions {
            lock_id: self.lock_id@,
            force: self.force,
            raw_args: self.raw_args.deep_view(),
        }
    }
}

impl ForceUnlockCommand {
    /// Create a new force-unlock command with the given lock ID.
    pub fn new(lock_id: &str) -> (r: Self)
        ensures
            r@ == ForceUnlockOptions::initial(lock_id@),
    {
        let r = ForceUnlockCommand {
            lock_id: String::from_str(lock_id),
            force: false,
            raw_args: Vec::new(),
        };
        assert(r@ =~= ForceUnlockOptions::initial(lock_id@));
        r
    }

    /// Skip the confirmation prompt (`-force`).
    pub fn force(self) -> (r: Self)
        ensures
            r@ == (ForceUnlockOptions { force: true, ..self@ }),
    {
        ForceUnlockCommand { force: true, ..self }
    }

    /// Add a raw argument (escape hatch for unsupported options).
    pub fn arg(self, arg: &str) -> (r: Self)
        ensures
            r@ == (ForceUnlockOptions { raw_args: self@.raw_args.push(arg@), ..self@ }),
    {
        let mut s = self;
        push_str(&mut s.raw_args, arg);
        s
    }
}

impl TerraformCommand for ForceUnlockCommand {
    open spec fn spec_args(&self) -> Seq<Seq<char>> {
        self@.args()
    }

    open spec fn spec_supports_input(&self) -> bool {
        false
    }

    fn args(&self) -> (r: Vec<String>) {
        let mut args: Vec<String> = Vec::new();
        push_str(&mut args, "force-unlock");
        assert(args.deep_view() =~= seq!["force-unlock"@]);
        push_flag(&mut args, self.force, "-force");
        push_all(&mut args, &self.raw_args);
        push_str(&mut args, self.lock_id.as_str());
        assert(args.deep_view().len() == args@.len());
        args
    }

    fn supports_input(&self) -> (b: bool) {
        false
    }
}

/// `force-unlock` comes first and the lock id last.
pub proof fn law_force_unlock_layout(o: ForceUnlockOptions)
    ensures
        o.args()[0] == "force-unlock"@,
        o.args().last() == o.lock_id,
{
}

/// Every option set on the command reaches its arguments as the one
/// argument Terraform expects for it, the subcommand comes first, and there
/// is one argument per option set and nothing more.
pub proof fn law_force_unlock_arguments(o: ForceUnlockOptions)
    ensures
        o.args()[0] == "force-unlock"@,
        o.args().len() == 1 + (if o.force { 1int } else { 0int }) + o.raw_args.len() + 1,
        o.force ==> o.args().contains("-force"@),
        forall|i: int| 0 <= i < o.raw_args.len() ==> o.args().contains(#[trigger] o.raw_args[i]),
        o.args().contains(o.lock_id),
{
    lemma_force_unlock_args_first(o);
    lemma_force_unlock_args_len(o);
    lemma_force_unlock_args_has_0(o);
    lemma_force_unlock_args_has_1(o);
    lemma_force_unlock_args_has_2(o);
}

proof fn lemma_force_unlock_args_len(o: ForceUnlockOptions)
    ensures
        o.args().len() == 1 + (if o.force { 1int } else { 0int }) + o.raw_args.len() + 1,
{
    assert((seq!["force-unlock"@]).len() == 1);
    assert((flag_arg(o.force, "-force"@)).len() == (if o.force { 1int } else { 0int }));
    assert((o.raw_args).len() == o.raw_args.len());
    assert((seq![o.lock_id]).len() == 1);
}

proof fn lemma_force_unlock_args_first(o: ForceUnlockOptions)
    ensures
        o.args()[0] == "force-unlock"@,
{
}

proof fn lemma_force_unlock_args_has_0(o: ForceUnlockOptions)
    ensures
        o.force ==> o.args().contains("-force"@),
{
    if o.force {
        assert(flag_arg(o.force, "-force"@)[0] == "-force"@);
        lemma_force_unlock_args_part_1(o, "-force"@);
    }
}

proof fn lemma_force_unlock_args_has_1(o: ForceUnlockOptions)
    ensures
        forall|i: int| 0 <= i < o.raw_args.len() ==> o.args().contains(#[trigger] o.raw_args[i]),
{
    assert forall|i: int| 0 <= i < o.raw_args.len() implies o.args().contains(#[trigger] o.raw_args[i]) by {
        assert(o.raw_args[i] == o.raw_args[i]);
        lemma_force_unlock_args_part_2(o, o.raw_args[i]);
    }
}

proof fn lemma_force_unlock_args_has_2(o: ForceUnlockOptions)
    ensures
        o.args().contains(o.lock_id),
{
    assert(seq![o.lock_id][0] == o.lock_id);
    lemma_force_unlock_args_part_3(o, o.lock_id);
}

proof fn lemma_force_unlock_args_part_1(o: ForceUnlockOptions, x: Seq<char>)
    requires
        (flag_arg(o.force, "-force"@)).contains(x),
    ensures
        o.args().contains(x),
{
    lemma_contains_prepend(seq!["force-unlock"@], flag_arg(o.force, "-force"@), x);
    let s = seq!["force-unlock"@] + flag_arg(o.force, "-force"@);
    lemma_contains_append(s, o.raw_args, x);
    let s = s + o.raw_args;
    lemma_contains_append(s, seq![o.lock_id], x);
    let s = s + seq![o.lock_id];
}

proof fn lemma_force_unlock_args_part_2(o: ForceUnlockOptions, x: Seq<char>)
    requires
        (o.raw_args).contains(x),
    ensures
        o.args().contains(x),
{
    lemma_contains_prepend(seq!["force-unlock"@] + flag_arg(o.force, "-force"@), o.raw_args, x);
    let s = seq!["force-unlock"@] + flag_arg(o.force, "-force"@) + o.raw_args;
    lemma_contains_append(s, seq![o.lock_id], x);
    let s = s + seq![o.lock_id];
}

proof fn lemma_force_unlock_args_part_3(o: ForceUnlockOptions, x: Seq<char>)
    requires
        (seq![o.lock_id]).contains(x),
    ensures
        o.args().contains(x),
{
    lemma_contains_prepend(seq!["force-unlock"@] + flag_arg(o.force, "-force"@) + o.raw_args, seq![o.lock_id], x);
    let s = seq!["force-unlock"@] + flag_arg(o.force, "-force"@) + o.raw_args + seq![o.lock_id];
}

} // verus!
