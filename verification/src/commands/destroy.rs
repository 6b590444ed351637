//! `terraform destroy`.
use vstd::prelude::*;

use crate::command::TerraformCommand;
use crate::text::{
    decimal, each_pair, each_prefixed, flag_arg, lemma_contains_append, lemma_contains_prepend, opt_bool, opt_count, opt_prefixed, push_all, push_flag, push_opt, push_opt_bool, push_opt_count, push_pair, push_pairs, push_prefixed, push_str,
};

verus! {

/// The options of a [`DestroyCommand`], as plain values.
#[verifier::ext_equal]
pub struct DestroyOptions {
    pub auto_approve: bool,
    pub vars: Seq<(Seq<char>, Seq<char>)>,
    pub var_files: Seq<Seq<char>>,
    pub targets: Seq<Seq<char>>,
    pub lock: Option<bool>,
    pub lock_timeout: Option<Seq<char>>,
    pub parallelism: Option<u32>,
    pub json: bool,
    pub raw_args: Seq<Seq<char>>,
}

impl DestroyOptions {
    /// The options of a fresh command.
    pub open spec fn initial() -> Self {
        DestroyOptions {
            auto_approve: false,
            vars: seq![],
            var_files: seq![],
            targets: seq![],
            lock: None,
            lock_timeout: None,
            parallelism: None,
            json: false,
            raw_args: seq![],
        }
    }

    /// `destroy`, its flags in a fixed order, then the raw arguments.
    pub open spec fn args(self) -> Seq<Seq<char>> {
        seq!["destroy"@]
            + flag_arg(self.auto_approve, "-auto-approve"@)
            + each_pair("-var="@, self.vars)
            + each_prefixed("-var-file="@, self.var_files)
            + each_prefixed("-target="@, self.targets)
            + opt_bool("-lock="@, self.lock)
            + opt_prefixed("-lock-timeout="@, self.lock_timeout)
            + opt_count("-parallelism="@, self.parallelism)
            + flag_arg(self.json, "-json"@)
            + self.raw_args
    }
}

/// Command for destroying Terraform-managed infrastructure.
///
/// This is equivalent to `terraform apply -destroy` but provided as a
/// separate command for clarity and discoverability.
#[derive(Debug, Clone, Default)]
pub struct DestroyCommand {
    auto_approve: bool,
    vars: Vec<(String, String)>,
    var_files: Vec<String>,
    targets: Vec<String>,
    lock: Option<bool>,
    lock_timeout: Option<String>,
    parallelism: Option<u32>,
    json: bool,
    raw_args: Vec<String>,
}

impl View for DestroyCommand {
    type V = DestroyOptions;

    closed spec fn view(&self) -> DestroyOptions {
        DestroyOptions {
            auto_approve: self.auto_approve,
            vars: self.vars.deep_view(),
            var_files: self.var_files.deep_view(),
            targets: self.targets.deep_view(),
            lock: self.lock,
            lock_timeout: self.lock_timeout.deep_view(),
            parallelism: self.parallelism,
            json: self.json,
            raw_args: self.raw_args.deep_view(),
        }
    }
}

impl DestroyCommand {
    /// Create a new destroy command with default options.
    pub fn new() -> (r: Self)
        ensures
            r@ == DestroyOptions::initial(),
    {
        let r = DestroyCommand {
            auto_approve: false,
            vars: Vec::new(),
            var_files: Vec::new(),
            targets: Vec::new(),
            lock: None,
            lock_timeout: None,
            parallelism: None,
            json: false,
            raw_args: Vec::new(),
        };
        assert(r@ =~= DestroyOptions::initial());
        r
    }

    /// Skip interactive approval (`-auto-approve`).
    pub fn auto_approve(self) -> (r: Self)
        ensures
            r@ == (DestroyOptions { auto_approve: true, ..self@ }),
    {
        DestroyCommand { auto_approve: true, ..self }
    }

    /// Set a variable value (`-var="name=value"`).
    pub fn var(self, name: &str, value: &str) -> (r: Self)
        ensures
            r@ == (DestroyOptions { vars: self@.vars.push((name@, value@)), ..self@ }),
    {
        let mut s = self;
        push_pair(&mut s.vars, name, value);
        s
    }

    /// Add a variable definitions file (`-var-file`).
    pub fn var_file(self, path: &str) -> (r: Self)
        ensures
            r@ == (DestroyOptions { var_files: self@.var_files.push(path@), ..self@ }),
    {
        let mut s = self;
        push_str(&mut s.var_files, path);
        s
    }

    /// Target a specific resource or module (`-target`).
    pub fn target(self, resource: &str) -> (r: Self)
        ensures
            r@ == (DestroyOptions { targets: self@.targets.push(resource@), ..self@ }),
    {
        let mut s = self;
        push_str(&mut s.targets, resource);
        s
    }

    /// Enable or disable state locking (`-lock`).
    pub fn lock(self, enabled: bool) -> (r: Self)
        ensures
            r@ == (DestroyOptions { lock: Some(enabled), ..self@ }),
    {
        DestroyCommand { lock: Some(enabled), ..self }
    }

    /// Duration to wait for state lock (`-lock-timeout`).
    pub fn lock_timeout(self, timeout: &str) -> (r: Self)
        ensures
            r@ == (DestroyOptions { lock_timeout: Some(timeout@), ..self@ }),
    {
        DestroyCommand { lock_timeout: Some(String::from_str(timeout)), ..self }
    }

    /// Limit the number of concurrent operations (`-parallelism`).
    pub fn parallelism(self, n: u32) -> (r: Self)
        ensures
            r@ == (DestroyOptions { parallelism: Some(n), ..self@ }),
    {
        DestroyCommand { parallelism: Some(n), ..self }
    }

    /// Enable machine-readable JSON output (`-json`).
    pub fn json(self) -> (r: Self)
        ensures
            r@ == (DestroyOptions { json: true, ..self@ }),
    {
        DestroyCommand { json: true, ..self }
    }

    /// Add a raw argument (escape hatch for unsupported options).
    pub fn arg(self, arg: &str) -> (r: Self)
        ensures
            r@ == (DestroyOptions { raw_args: self@.raw_args.push(arg@), ..self@ }),
    {
        let mut s = self;
        push_str(&mut s.raw_args, arg);
        s
    }
}

impl TerraformCommand for DestroyCommand {
    open spec fn spec_args(&self) -> Seq<Seq<char>> {
        self@.args()
    }

    open spec fn spec_supports_input(&self) -> bool {
        true
    }

    fn args(&self) -> (r: Vec<String>) {
        let mut args: Vec<String> = Vec::new();
        push_str(&mut args, "destroy");
        assert(args.deep_view() =~= seq!["destroy"@]);
        push_flag(&mut args, self.auto_approve, "-auto-approve");
        push_pairs(&mut args, "-var=", &self.vars);
        push_prefixed(&mut args, "-var-file=", &self.var_files);
        push_prefixed(&mut args, "-target=", &self.targets);
        push_opt_bool(&mut args, "-lock=", self.lock);
        push_opt(&mut args, "-lock-timeout=", &self.lock_timeout);
        push_opt_count(&mut args, "-parallelism=", self.parallelism);
        push_flag(&mut args, self.json, "-json");
        push_all(&mut args, &self.raw_args);
        assert(args.deep_view().len() == args@.len());
        args
    }

    fn supports_input(&self) -> (b: bool) {
        true
    }
}

/// `destroy` comes first and the raw arguments come last.
pub proof fn law_destroy_layout(o: DestroyOptions)
    ensures
        o.args()[0] == "destroy"@,
        o.args().subrange(o.args().len() - o.raw_args.len(), o.args().len() as int) == o.raw_args,
{
    assert(o.args().subrange(o.args().len() - o.raw_args.len(), o.args().len() as int) =~= o.raw_args);
}

/// Every option set on the command reaches its arguments as the one
/// argument Terraform expects for it, the subcommand comes first, and there
/// is one argument per option set and nothing more.
pub proof fn law_destroy_arguments(o: DestroyOptions)
    ensures
        o.args()[0] == "destroy"@,
        o.args().len() == 1 + (if o.auto_approve { 1int } else { 0int }) + o.vars.len() + o.var_files.len() + o.targets.len() + (if o.lock is Some { 1int } else { 0int }) + (if o.lock_timeout is Some { 1int } else { 0int }) + (if o.parallelism is Some { 1int } else { 0int }) + (if o.json { 1int } else { 0int }) + o.raw_args.len(),
        o.auto_approve ==> o.args().contains("-auto-approve"@),
        forall|i: int| 0 <= i < o.vars.len() ==> o.args().contains("-var="@ + (#[trigger] o.vars[i]).0 + "="@ + o.vars[i].1),
        forall|i: int| 0 <= i < o.var_files.len() ==> o.args().contains("-var-file="@ + #[trigger] o.var_files[i]),
        forall|i: int| 0 <= i < o.targets.len() ==> o.args().contains("-target="@ + #[trigger] o.targets[i]),
        o.lock == Some(true) ==> o.args().contains("-lock="@ + "true"@),
        o.lock == Some(false) ==> o.args().contains("-lock="@ + "false"@),
        o.lock_timeout is Some ==> o.args().contains("-lock-timeout="@ + o.lock_timeout.unwrap()),
        o.parallelism is Some ==> o.args().contains("-parallelism="@ + decimal(o.parallelism.unwrap() as nat)),
        o.json ==> o.args().contains("-json"@),
        forall|i: int| 0 <= i < o.raw_args.len() ==> o.args().contains(#[trigger] o.raw_args[i]),
{
    lemma_destroy_args_first(o);
    lemma_destroy_args_len(o);
    lemma_destroy_args_has_0(o);
    lemma_destroy_args_has_1(o);
    lemma_destroy_args_has_2(o);
    lemma_destroy_args_has_3(o);
    lemma_destroy_args_has_4(o);
    lemma_destroy_args_has_5(o);
    lemma_destroy_args_has_6(o);
    lemma_destroy_args_has_7(o);
    lemma_destroy_args_has_8(o);
    lemma_destroy_args_has_9(o);
}

proof fn lemma_destroy_args_len(o: DestroyOptions)
    ensures
        o.args().len() == 1 + (if o.auto_approve { 1int } else { 0int }) + o.vars.len() + o.var_files.len() + o.targets.len() + (if o.lock is Some { 1int } else { 0int }) + (if o.lock_timeout is Some { 1int } else { 0int }) + (if o.parallelism is Some { 1int } else { 0int }) + (if o.json { 1int } else { 0int }) + o.raw_args.len(),
{
    assert((seq!["destroy"@]).len() == 1);
    assert((flag_arg(o.auto_approve, "-auto-approve"@)).len() == (if o.auto_approve { 1int } else { 0int }));
    assert((each_pair("-var="@, o.vars)).len() == o.vars.len());
    assert((each_prefixed("-var-file="@, o.var_files)).len() == o.var_files.len());
    assert((each_prefixed("-target="@, o.targets)).len() == o.targets.len());
    assert((opt_bool("-lock="@, o.lock)).len() == (if o.lock is Some { 1int } else { 0int }));
    assert((opt_prefixed("-lock-timeout="@, o.lock_timeout)).len() == (if o.lock_timeout is Some { 1int } else { 0int }));
    assert((opt_count("-parallelism="@, o.parallelism)).len() == (if o.parallelism is Some { 1int } else { 0int }));
    assert((flag_arg(o.json, "-json"@)).len() == (if o.json { 1int } else { 0int }));
    assert((o.raw_args).len() == o.raw_args.len());
}

proof fn lemma_destroy_args_first(o: DestroyOptions)
    ensures
        o.args()[0] == "destroy"@,
{
}

proof fn lemma_destroy_args_has_0(o: DestroyOptions)
    ensures
        o.auto_approve ==> o.args().contains("-auto-approve"@),
{
    if o.auto_approve {
        assert(flag_arg(o.auto_approve, "-auto-approve"@)[0] == "-auto-approve"@);
        lemma_destroy_args_part_1(o, "-auto-approve"@);
    }
}

proof fn lemma_destroy_args_has_1(o: DestroyOptions)
    ensures
        forall|i: int| 0 <= i < o.vars.len() ==> o.args().contains("-var="@ + (#[trigger] o.vars[i]).0 + "="@ + o.vars[i].1),
{
    assert forall|i: int| 0 <= i < o.vars.len() implies o.args().contains("-var="@ + (#[trigger] o.vars[i]).0 + "="@ + o.vars[i].1) by {
        assert(each_pair("-var="@, o.vars)[i] == "-var="@ + o.vars[i].0 + "="@ + o.vars[i].1);
        lemma_destroy_args_part_2(o, "-var="@ + o.vars[i].0 + "="@ + o.vars[i].1);
    }
}

proof fn lemma_destroy_args_has_2(o: DestroyOptions)
    ensures
        forall|i: int| 0 <= i < o.var_files.len() ==> o.args().contains("-var-file="@ + #[trigger] o.var_files[i]),
{
    assert forall|i: int| 0 <= i < o.var_files.len() implies o.args().contains("-var-file="@ + #[trigger] o.var_files[i]) by {
        assert(each_prefixed("-var-file="@, o.var_files)[i] == "-var-file="@ + o.var_files[i]);
        lemma_destroy_args_part_3(o, "-var-file="@ + o.var_files[i]);
    }
}

proof fn lemma_destroy_args_has_3(o: DestroyOptions)
    ensures
        forall|i: int| 0 <= i < o.targets.len() ==> o.args().contains("-target="@ + #[trigger] o.targets[i]),
{
    assert forall|i: int| 0 <= i < o.targets.len() implies o.args().contains("-target="@ + #[trigger] o.targets[i]) by {
        assert(each_prefixed("-target="@, o.targets)[i] == "-target="@ + o.targets[i]);
        lemma_destroy_args_part_4(o, "-target="@ + o.targets[i]);
    }
}

proof fn lemma_destroy_args_has_4(o: DestroyOptions)
    ensures
        o.lock == Some(true) ==> o.args().contains("-lock="@ + "true"@),
{
    if o.lock == Some(true) {
        assert(opt_bool("-lock="@, o.lock)[0] == "-lock="@ + "true"@);
        lemma_destroy_args_part_5(o, "-lock="@ + "true"@);
    }
}

proof fn lemma_destroy_args_has_5(o: DestroyOptions)
    ensures
        o.lock == Some(false) ==> o.args().contains("-lock="@ + "false"@),
{
    if o.lock == Some(false) {
        assert(opt_bool("-lock="@, o.lock)[0] == "-lock="@ + "false"@);
        lemma_destroy_args_part_5(o, "-lock="@ + "false"@);
    }
}

proof fn lemma_destroy_args_has_6(o: DestroyOptions)
    ensures
        o.lock_timeout is Some ==> o.args().contains("-lock-timeout="@ + o.lock_timeout.unwrap()),
{
    if o.lock_timeout is Some {
        assert(opt_prefixed("-lock-timeout="@, o.lock_timeout)[0] == "-lock-timeout="@ + o.lock_timeout.unwrap());
        lemma_destroy_args_part_6(o, "-lock-timeout="@ + o.lock_timeout.unwrap());
    }
}

proof fn lemma_destroy_args_has_7(o: DestroyOptions)
    ensures
        o.parallelism is Some ==> o.args().contains("-parallelism="@ + decimal(o.parallelism.unwrap() as nat)),
{
    if o.parallelism is Some {
        assert(opt_count("-parallelism="@, o.parallelism)[0] == "-parallelism="@ + decimal(o.parallelism.unwrap() as nat));
        lemma_destroy_args_part_7(o, "-parallelism="@ + decimal(o.parallelism.unwrap() as nat));
    }
}

proof fn lemma_destroy_args_has_8(o: DestroyOptions)
    ensures
        o.json ==> o.args().contains("-json"@),
{
    if o.json {
        assert(flag_arg(o.json, "-json"@)[0] == "-json"@);
        lemma_destroy_args_part_8(o, "-json"@);
    }
}

proof fn lemma_destroy_args_has_9(o: DestroyOptions)
    ensures
        forall|i: int| 0 <= i < o.raw_args.len() ==> o.args().contains(#[trigger] o.raw_args[i]),
{
    assert forall|i: int| 0 <= i < o.raw_args.len() implies o.args().contains(#[trigger] o.raw_args[i]) by {
        assert(o.raw_args[i] == o.raw_args[i]);
        lemma_destroy_args_part_9(o, o.raw_args[i]);
    }
}

proof fn lemma_destroy_args_part_1(o: DestroyOptions, x: Seq<char>)
    requires
        (flag_arg(o.auto_approve, "-auto-approve"@)).contains(x),
    ensures
        o.args().contains(x),
{
    lemma_contains_prepend(seq!["destroy"@], flag_arg(o.auto_approve, "-auto-approve"@), x);
    let s = seq!["destroy"@] + flag_arg(o.auto_approve, "-auto-approve"@);
    lemma_contains_append(s, each_pair("-var="@, o.vars), x);
    let s = s + each_pair("-var="@, o.vars);
    lemma_contains_append(s, each_prefixed("-var-file="@, o.var_files), x);
    let s = s + each_prefixed("-var-file="@, o.var_files);
    lemma_contains_append(s, each_prefixed("-target="@, o.targets), x);
    let s = s + each_prefixed("-target="@, o.targets);
    lemma_contains_append(s, opt_bool("-lock="@, o.lock), x);
    let s = s + opt_bool("-lock="@, o.lock);
    lemma_contains_append(s, opt_prefixed("-lock-timeout="@, o.lock_timeout), x);
    let s = s + opt_prefixed("-lock-timeout="@, o.lock_timeout);
    lemma_contains_append(s, opt_count("-parallelism="@, o.parallelism), x);
    let s = s + opt_count("-parallelism="@, o.parallelism);
    lemma_contains_append(s, flag_arg(o.json, "-json"@), x);
    let s = s + flag_arg(o.json, "-json"@);
    lemma_contains_append(s, o.raw_args, x);
    let s = s + o.raw_args;
}

proof fn lemma_destroy_args_part_2(o: DestroyOptions, x: Seq<char>)
    requires
        (each_pair("-var="@, o.vars)).contains(x),
    ensures
        o.args().contains(x),
{
    lemma_contains_prepend(seq!["destroy"@] + flag_arg(o.auto_approve, "-auto-approve"@), each_pair("-var="@, o.vars), x);
    let s = seq!["destroy"@] + flag_arg(o.auto_approve, "-auto-approve"@) + each_pair("-var="@, o.vars);
    lemma_contains_append(s, each_prefixed("-var-file="@, o.var_files), x);
    let s = s + each_prefixed("-var-file="@, o.var_files);
    lemma_contains_append(s, each_prefixed("-target="@, o.targets), x);
    let s = s + each_prefixed("-target="@, o.targets);
    lemma_contains_append(s, opt_bool("-lock="@, o.lock), x);
    let s = s + opt_bool("-lock="@, o.lock);
    lemma_contains_append(s, opt_prefixed("-lock-timeout="@, o.lock_timeout), x);
    let s = s + opt_prefixed("-lock-timeout="@, o.lock_timeout);
    lemma_contains_append(s, opt_count("-parallelism="@, o.parallelism), x);
    let s = s + opt_count("-parallelism="@, o.parallelism);
    lemma_contains_append(s, flag_arg(o.json, "-json"@), x);
    let s = s + flag_arg(o.json, "-json"@);
    lemma_contains_append(s, o.raw_args, x);
    let s = s + o.raw_args;
}

proof fn lemma_destroy_args_part_3(o: DestroyOptions, x: Seq<char>)
    requires
        (each_prefixed("-var-file="@, o.var_files)).contains(x),
    ensures
        o.args().contains(x),
{
    lemma_contains_prepend(seq!["destroy"@] + flag_arg(o.auto_approve, "-auto-approve"@) + each_pair("-var="@, o.vars), each_prefixed("-var-file="@, o.var_files), x);
    let s = seq!["destroy"@] + flag_arg(o.auto_approve, "-auto-approve"@) + each_pair("-var="@, o.vars) + each_prefixed("-var-file="@, o.var_files);
    lemma_contains_append(s, each_prefixed("-target="@, o.targets), x);
    let s = s + each_prefixed("-target="@, o.targets);
    lemma_contains_append(s, opt_bool("-lock="@, o.lock), x);
    let s = s + opt_bool("-lock="@, o.lock);
    lemma_contains_append(s, opt_prefixed("-lock-timeout="@, o.lock_timeout), x);
    let s = s + opt_prefixed("-lock-timeout="@, o.lock_timeout);
    lemma_contains_append(s, opt_count("-parallelism="@, o.parallelism), x);
    let s = s + opt_count("-parallelism="@, o.parallelism);
    lemma_contains_append(s, flag_arg(o.json, "-json"@), x);
    let s = s + flag_arg(o.json, "-json"@);
    lemma_contains_append(s, o.raw_args, x);
    let s = s + o.raw_args;
}

proof fn lemma_destroy_args_part_4(o: DestroyOptions, x: Seq<char>)
    requires
        (each_prefixed("-target="@, o.targets)).contains(x),
    ensures
        o.args().contains(x),
{
    lemma_contains_prepend(seq!["destroy"@] + flag_arg(o.auto_approve, "-auto-approve"@) + each_pair("-var="@, o.vars) + each_prefixed("-var-file="@, o.var_files), each_prefixed("-target="@, o.targets), x);
    let s = seq!["destroy"@] + flag_arg(o.auto_approve, "-auto-approve"@) + each_pair("-var="@, o.vars) + each_prefixed("-var-file="@, o.var_files) + each_prefixed("-target="@, o.targets);
    lemma_contains_append(s, opt_bool("-lock="@, o.lock), x);
    let s = s + opt_bool("-lock="@, o.lock);
    lemma_contains_append(s, opt_prefixed("-lock-timeout="@, o.lock_timeout), x);
    let s = s + opt_prefixed("-lock-timeout="@, o.lock_timeout);
    lemma_contains_append(s, opt_count("-parallelism="@, o.parallelism), x);
    let s = s + opt_count("-parallelism="@, o.parallelism);
    lemma_contains_append(s, flag_arg(o.json, "-json"@), x);
    let s = s + flag_arg(o.json, "-json"@);
    lemma_contains_append(s, o.raw_args, x);
    let s = s + o.raw_args;
}

proof fn lemma_destroy_args_part_5(o: DestroyOptions, x: Seq<char>)
    requires
        (opt_bool("-lock="@, o.lock)).contains(x),
    ensures
        o.args().contains(x),
{
    lemma_contains_prepend(seq!["destroy"@] + flag_arg(o.auto_approve, "-auto-approve"@) + each_pair("-var="@, o.vars) + each_prefixed("-var-file="@, o.var_files) + each_prefixed("-target="@, o.targets), opt_bool("-lock="@, o.lock), x);
    let s = seq!["destroy"@] + flag_arg(o.auto_approve, "-auto-approve"@) + each_pair("-var="@, o.vars) + each_prefixed("-var-file="@, o.var_files) + each_prefixed("-target="@, o.targets) + opt_bool("-lock="@, o.lock);
    lemma_contains_append(s, opt_prefixed("-lock-timeout="@, o.lock_timeout), x);
    let s = s + opt_prefixed("-lock-timeout="@, o.lock_timeout);
    lemma_contains_append(s, opt_count("-parallelism="@, o.parallelism), x);
    let s = s + opt_count("-parallelism="@, o.parallelism);
    lemma_contains_append(s, flag_arg(o.json, "-json"@), x);
    let s = s + flag_arg(o.json, "-json"@);
    lemma_contains_append(s, o.raw_args, x);
    let s = s + o.raw_args;
}

proof fn lemma_destroy_args_part_6(o: DestroyOptions, x: Seq<char>)
    requires
        (opt_prefixed("-lock-timeout="@, o.lock_timeout)).contains(x),
    ensures
        o.args().contains(x),
{
    lemma_contains_prepend(seq!["destroy"@] + flag_arg(o.auto_approve, "-auto-approve"@) + each_pair("-var="@, o.vars) + each_prefixed("-var-file="@, o.var_files) + each_prefixed("-target="@, o.targets) + opt_bool("-lock="@, o.lock), opt_prefixed("-lock-timeout="@, o.lock_timeout), x);
    let s = seq!["destroy"@] + flag_arg(o.auto_approve, "-auto-approve"@) + each_pair("-var="@, o.vars) + each_prefixed("-var-file="@, o.var_files) + each_prefixed("-target="@, o.targets) + opt_bool("-lock="@, o.lock) + opt_prefixed("-lock-timeout="@, o.lock_timeout);
    lemma_contains_append(s, opt_count("-parallelism="@, o.parallelism), x);
    let s = s + opt_count("-parallelism="@, o.parallelism);
    lemma_contains_append(s, flag_arg(o.json, "-json"@), x);
    let s = s + flag_arg(o.json, "-json"@);
    lemma_contains_append(s, o.raw_args, x);
    let s = s + o.raw_args;
}

proof fn lemma_destroy_args_part_7(o: DestroyOptions, x: Seq<char>)
    requires
        (opt_count("-parallelism="@, o.parallelism)).contains(x),
    ensures
        o.args().contains(x),
{
    lemma_contains_prepend(seq!["destroy"@] + flag_arg(o.auto_approve, "-auto-approve"@) + each_pair("-var="@, o.vars) + each_prefixed("-var-file="@, o.var_files) + each_prefixed("-target="@, o.targets) + opt_bool("-lock="@, o.lock) + opt_prefixed("-lock-timeout="@, o.lock_timeout), opt_count("-parallelism="@, o.parallelism), x);
    let s = seq!["destroy"@] + flag_arg(o.auto_approve, "-auto-approve"@) + each_pair("-var="@, o.vars) + each_prefixed("-var-file="@, o.var_files) + each_prefixed("-target="@, o.targets) + opt_bool("-lock="@, o.lock) + opt_prefixed("-lock-timeout="@, o.lock_timeout) + opt_count("-parallelism="@, o.parallelism);
    lemma_contains_append(s, flag_arg(o.json, "-json"@), x);
    let s = s + flag_arg(o.json, "-json"@);
    lemma_contains_append(s, o.raw_args, x);
    let s = s + o.raw_args;
}

proof fn lemma_destroy_args_part_8(o: DestroyOptions, x: Seq<char>)
    requires
        (flag_arg(o.json, "-json"@)).contains(x),
    ensures
        o.args().contains(x),
{
    lemma_contains_prepend(seq!["destroy"@] + flag_arg(o.auto_approve, "-auto-approve"@) + each_pair("-var="@, o.vars) + each_prefixed("-var-file="@, o.var_files) + each_prefixed("-target="@, o.targets) + opt_bool("-lock="@, o.lock) + opt_prefixed("-lock-timeout="@, o.lock_timeout) + opt_count("-parallelism="@, o.parallelism), flag_arg(o.json, "-json"@), x);
    let s = seq!["destroy"@] + flag_arg(o.auto_approve, "-auto-approve"@) + each_pair("-var="@, o.vars) + each_prefixed("-var-file="@, o.var_files) + each_prefixed("-target="@, o.targets) + opt_bool("-lock="@, o.lock) + opt_prefixed("-lock-timeout="@, o.lock_timeout) + opt_count("-parallelism="@, o.parallelism) + flag_arg(o.json, "-json"@);
    lemma_contains_append(s, o.raw_args, x);
    let s = s + o.raw_args;
}

proof fn lemma_destroy_args_part_9(o: DestroyOptions, x: Seq<char>)
    requires
        (o.raw_args).contains(x),
    ensures
        o.args().contains(x),
{
    lemma_contains_prepend(seq!["destroy"@] + flag_arg(o.auto_approve, "-auto-approve"@) + each_pair("-var="@, o.vars) + each_prefixed("-var-file="@, o.var_files) + each_prefixed("-target="@, o.targets) + opt_bool("-lock="@, o.lock) + opt_prefixed("-lock-timeout="@, o.lock_timeout) + opt_count("-parallelism="@, o.parallelism) + flag_arg(o.json, "-json"@), o.raw_args, x);
    let s = seq!["destroy"@] + flag_arg(o.auto_approve, "-auto-approve"@) + each_pair("-var="@, o.vars) + each_prefixed("-var-file="@, o.var_files) + each_prefixed("-target="@, o.targets) + opt_bool("-lock="@, o.lock) + opt_prefixed("-lock-timeout="@, o.lock_timeout) + opt_count("-parallelism="@, o.parallelism) + flag_arg(o.json, "-json"@) + o.raw_args;
}

} // verus!
