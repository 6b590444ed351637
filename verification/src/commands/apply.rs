//! `terraform apply`.
use vstd::prelude::*;

use crate::command::TerraformCommand;
use crate::text::{
    decimal, each_pair, each_prefixed, flag_arg, lemma_append_push, lemma_contains_append, lemma_contains_prepend, lemma_each_pair_push, lemma_insert_append, opt_bool, opt_count, opt_prefixed, opt_value, push_all, push_flag, push_opt, push_opt_bool, push_opt_count, push_opt_value, push_pair, push_pairs, push_prefixed, push_str,
};

verus! {

/// The options of an [`ApplyCommand`], as plain values.
#[verifier::ext_equal]
pub struct ApplyOptions {
    pub plan_file: Option<Seq<char>>,
    pub auto_approve: bool,
    pub vars: Seq<(Seq<char>, Seq<char>)>,
    pub var_files: Seq<Seq<char>>,
    pub targets: Seq<Seq<char>>,
    pub replace: Seq<Seq<char>>,
    pub lock: Option<bool>,
    pub lock_timeout: Option<Seq<char>>,
    pub parallelism: Option<u32>,
    pub json: bool,
    pub raw_args: Seq<Seq<char>>,
}

impl ApplyOptions {
    /// No option set.
    pub open spec fn empty() -> Self {
        ApplyOptions {
            plan_file: None,
            auto_approve: false,
            vars: seq![],
            var_files: seq![],
            targets: seq![],
            replace: seq![],
            lock: None,
            lock_timeout: None,
            parallelism: None,
            json: false,
            raw_args: seq![],
        }
    }

    /// `apply`, its flags in a fixed order, the raw arguments, and the plan
    /// file last.
    pub open spec fn args(self) -> Seq<Seq<char>> {
        seq!["apply"@]
            + flag_arg(self.auto_approve, "-auto-approve"@)
            + each_pair("-var="@, self.vars)
            + each_prefixed("-var-file="@, self.var_files)
            + each_prefixed("-target="@, self.targets)
            + each_prefixed("-replace="@, self.replace)
            + opt_bool("-lock="@, self.lock)
            + opt_prefixed("-lock-timeout="@, self.lock_timeout)
            + opt_count("-parallelism="@, self.parallelism)
            + flag_arg(self.json, "-json"@)
            + self.raw_args
            + opt_value(self.plan_file)
    }
}

/// Command for applying Terraform changes.
///
/// When applying a saved plan file, options like `-var`, `-var-file`, and
/// `-target` are not valid (Terraform will reject them).
#[derive(Debug, Clone, Default)]
pub struct ApplyCommand {
    plan_file: Option<String>,
    auto_approve: bool,
    vars: Vec<(String, String)>,
    var_files: Vec<String>,
    targets: Vec<String>,
    replace: Vec<String>,
    lock: Option<bool>,
    lock_timeout: Option<String>,
    parallelism: Option<u32>,
    json: bool,
    raw_args: Vec<String>,
}

impl View for ApplyCommand {
    type V = ApplyOptions;

    closed spec fn view(&self) -> ApplyOptions {
        ApplyOptions {
            plan_file: self.plan_file.deep_view(),
            auto_approve: self.auto_approve,
            vars: self.vars.deep_view(),
            var_files: self.var_files.deep_view(),
            targets: self.targets.deep_view(),
            replace: self.replace.deep_view(),
            lock: self.lock,
            lock_timeout: self.lock_timeout.deep_view(),
            parallelism: self.parallelism,
            json: self.json,
            raw_args: self.raw_args.deep_view(),
        }
    }
}

impl ApplyCommand {
    /// Create a new apply command with default options.
    pub fn new() -> (r: Self)
        ensures
            r@ == ApplyOptions::empty(),
    {
        let r = ApplyCommand {
            plan_file: None,
            auto_approve: false,
            vars: Vec::new(),
            var_files: Vec::new(),
            targets: Vec::new(),
            replace: Vec::new(),
            lock: None,
            lock_timeout: None,
            parallelism: None,
            json: false,
            raw_args: Vec::new(),
        };
        assert(r@ =~= ApplyOptions::empty());
        r
    }

    /// Apply a previously saved plan file (positional argument).
    pub fn plan_file(self, path: &str) -> (r: Self)
        ensures
            r@ == (ApplyOptions { plan_file: Some(path@), ..self@ }),
    {
        ApplyCommand { plan_file: Some(String::from_str(path)), ..self }
    }

    /// Skip interactive approval (`-auto-approve`).
    pub fn auto_approve(self) -> (r: Self)
        ensures
            r@ == (ApplyOptions { auto_approve: true, ..self@ }),
    {
        ApplyCommand { auto_approve: true, ..self }
    }

    /// Set a variable value (`-var="name=value"`).
    pub fn var(self, name: &str, value: &str) -> (r: Self)
        ensures
            r@ == (ApplyOptions { vars: self@.vars.push((name@, value@)), ..self@ }),
    {
        let mut s = self;
        push_pair(&mut s.vars, name, value);
        s
    }

    /// Add a variable definitions file (`-var-file`).
    pub fn var_file(self, path: &str) -> (r: Self)
        ensures
            r@ == (ApplyOptions { var_files: self@.var_files.push(path@), ..self@ }),
    {
        let mut s = self;
        push_str(&mut s.var_files, path);
        s
    }

    /// Target a specific resource or module (`-target`).
    pub fn target(self, resource: &str) -> (r: Self)
        ensures
            r@ == (ApplyOptions { targets: self@.targets.push(resource@), ..self@ }),
    {
        let mut s = self;
        push_str(&mut s.targets, resource);
        s
    }

    /// Mark a resource for replacement (`-replace`).
    pub fn replace(self, resource: &str) -> (r: Self)
        ensures
            r@ == (ApplyOptions { replace: self@.replace.push(resource@), ..self@ }),
    {
        let mut s = self;
        push_str(&mut s.replace, resource);
        s
    }

    /// Enable or disable state locking (`-lock`).
    pub fn lock(self, enabled: bool) -> (r: Self)
        ensures
            r@ == (ApplyOptions { lock: Some(enabled), ..self@ }),
    {
        ApplyCommand { lock: Some(enabled), ..self }
    }

    /// Duration to wait for state lock (`-lock-timeout`).
    pub fn lock_timeout(self, timeout: &str) -> (r: Self)
        ensures
            r@ == (ApplyOptions { lock_timeout: Some(timeout@), ..self@ }),
    {
        ApplyCommand { lock_timeout: Some(String::from_str(timeout)), ..self }
    }

    /// Limit the number of concurrent operations (`-parallelism`).
    pub fn parallelism(self, n: u32) -> (r: Self)
        ensures
            r@ == (ApplyOptions { parallelism: Some(n), ..self@ }),
    {
        ApplyCommand { parallelism: Some(n), ..self }
    }

    /// Enable machine-readable JSON output (`-json`).
    pub fn json(self) -> (r: Self)
        ensures
            r@ == (ApplyOptions { json: true, ..self@ }),
    {
        ApplyCommand { json: true, ..self }
    }

    /// Add a raw argument (escape hatch for unsupported options).
    pub fn arg(self, arg: &str) -> (r: Self)
        ensures
            r@ == (ApplyOptions { raw_args: self@.raw_args.push(arg@), ..self@ }),
    {
        let mut s = self;
        push_str(&mut s.raw_args, arg);
        s
    }
}

impl TerraformCommand for ApplyCommand {
    open spec fn spec_args(&self) -> Seq<Seq<char>> {
        self@.args()
    }

    open spec fn spec_supports_input(&self) -> bool {
        true
    }

    fn args(&self) -> (r: Vec<String>) {
        let mut args: Vec<String> = Vec::new();
        push_str(&mut args, "apply");
        assert(args.deep_view() =~= seq!["apply"@]);
        push_flag(&mut args, self.auto_approve, "-auto-approve");
        push_pairs(&mut args, "-var=", &self.vars);
        push_prefixed(&mut args, "-var-file=", &self.var_files);
        push_prefixed(&mut args, "-target=", &self.targets);
        push_prefixed(&mut args, "-replace=", &self.replace);
        push_opt_bool(&mut args, "-lock=", self.lock);
        push_opt(&mut args, "-lock-timeout=", &self.lock_timeout);
        push_opt_count(&mut args, "-parallelism=", self.parallelism);
        push_flag(&mut args, self.json, "-json");
        push_all(&mut args, &self.raw_args);
        push_opt_value(&mut args, &self.plan_file);
        assert(args.deep_view().len() == args@.len());
        args
    }

    fn supports_input(&self) -> (b: bool) {
        true
    }
}

/// `apply` comes first, and a saved plan file, where one is set, is the last
/// argument.
pub proof fn law_apply_layout(o: ApplyOptions)
    ensures
        o.args()[0] == "apply"@,
        o.plan_file matches Some(p) ==> o.args().last() == p,
{
}

/// A variable is added after every earlier one, names repeated or not: the
/// arguments gain `-var=<name>=<value>` right after the earlier variables,
/// and nothing else changes.
pub proof fn law_apply_var(o: ApplyOptions, name: Seq<char>, value: Seq<char>)
    ensures
        (ApplyOptions { vars: o.vars.push((name, value)), ..o }).args() == o.args().insert(
            1int + flag_arg(o.auto_approve, "-auto-approve"@).len() + o.vars.len(),
            "-var="@ + name + "="@ + value,
        ),
{
    let e = "-var="@ + name + "="@ + value;
    lemma_each_pair_push("-var="@, o.vars, name, value);
    let front = seq!["apply"@] + flag_arg(o.auto_approve, "-auto-approve"@);
    lemma_append_push(front, each_pair("-var="@, o.vars), e);
    let i: int = (front.len() + each_pair("-var="@, o.vars).len()) as int;
    let s = front + each_pair("-var="@, o.vars);
    lemma_insert_append(s, i, e, each_prefixed("-var-file="@, o.var_files));
    let s = s + each_prefixed("-var-file="@, o.var_files);
    lemma_insert_append(s, i, e, each_prefixed("-target="@, o.targets));
    let s = s + each_prefixed("-target="@, o.targets);
    lemma_insert_append(s, i, e, each_prefixed("-replace="@, o.replace));
    let s = s + each_prefixed("-replace="@, o.replace);
    lemma_insert_append(s, i, e, opt_bool("-lock="@, o.lock));
    let s = s + opt_bool("-lock="@, o.lock);
    lemma_insert_append(s, i, e, opt_prefixed("-lock-timeout="@, o.lock_timeout));
    let s = s + opt_prefixed("-lock-timeout="@, o.lock_timeout);
    lemma_insert_append(s, i, e, opt_count("-parallelism="@, o.parallelism));
    let s = s + opt_count("-parallelism="@, o.parallelism);
    lemma_insert_append(s, i, e, flag_arg(o.json, "-json"@));
    let s = s + flag_arg(o.json, "-json"@);
    lemma_insert_append(s, i, e, o.raw_args);
    let s = s + o.raw_args;
    lemma_insert_append(s, i, e, opt_value(o.plan_file));
    let s = s + opt_value(o.plan_file);
}

/// A parallelism count is one argument, `-parallelism=<n>` in decimal, at a
/// fixed place; the last count set is the one passed.
pub proof fn law_apply_parallelism(o: ApplyOptions, n: u32, m: u32)
    ensures
        (ApplyOptions { parallelism: Some(n), ..o }).args() == (ApplyOptions { parallelism: None, ..o }).args().insert(
            1int + flag_arg(o.auto_approve, "-auto-approve"@).len() + o.vars.len() + o.var_files.len() + o.targets.len()
                + o.replace.len() + opt_bool("-lock="@, o.lock).len() + opt_prefixed("-lock-timeout="@, o.lock_timeout).len(),
            "-parallelism="@ + decimal(n as nat),
        ),
        (ApplyOptions { parallelism: Some(n), ..ApplyOptions { parallelism: Some(m), ..o } }).args()
            == (ApplyOptions { parallelism: Some(n), ..o }).args(),
{
    let b = ApplyOptions { parallelism: None, ..o };
    let e = "-parallelism="@ + decimal(n as nat);
    assert(opt_count("-parallelism="@, Some(n)) =~= opt_count("-parallelism="@, None).push("-parallelism="@ + decimal(n as nat)));
    let front = seq!["apply"@] + flag_arg(b.auto_approve, "-auto-approve"@) + each_pair("-var="@, b.vars) + each_prefixed("-var-file="@, b.var_files) + each_prefixed("-target="@, b.targets) + each_prefixed("-replace="@, b.replace) + opt_bool("-lock="@, b.lock) + opt_prefixed("-lock-timeout="@, b.lock_timeout);
    lemma_append_push(front, opt_count("-parallelism="@, None), e);
    let i: int = (front.len() + opt_count("-parallelism="@, None).len()) as int;
    let s = front + opt_count("-parallelism="@, None);
    lemma_insert_append(s, i, e, flag_arg(b.json, "-json"@));
    let s = s + flag_arg(b.json, "-json"@);
    lemma_insert_append(s, i, e, b.raw_args);
    let s = s + b.raw_args;
    lemma_insert_append(s, i, e, opt_value(b.plan_file));
    let s = s + opt_value(b.plan_file);
    assert((ApplyOptions { parallelism: Some(n), ..o }).args() == s.insert(i, e));
    assert((ApplyOptions { parallelism: Some(n), ..ApplyOptions { parallelism: Some(m), ..o } }) == (ApplyOptions { parallelism: Some(n), ..o }));
}

/// Every option set on the command reaches its arguments as the one
/// argument Terraform expects for it, the subcommand comes first, and there
/// is one argument per option set and nothing more.
pub proof fn law_apply_arguments(o: ApplyOptions)
    ensures
        o.args()[0] == "apply"@,
        o.args().len() == 1 + (if o.auto_approve { 1int } else { 0int }) + o.vars.len() + o.var_files.len() + o.targets.len() + o.replace.len() + (if o.lock is Some { 1int } else { 0int }) + (if o.lock_timeout is Some { 1int } else { 0int }) + (if o.parallelism is Some { 1int } else { 0int }) + (if o.json { 1int } else { 0int }) + o.raw_args.len() + (if o.plan_file is Some { 1int } else { 0int }),
        o.auto_approve ==> o.args().contains("-auto-approve"@),
        forall|i: int| 0 <= i < o.vars.len() ==> o.args().contains("-var="@ + (#[trigger] o.vars[i]).0 + "="@ + o.vars[i].1),
        forall|i: int| 0 <= i < o.var_files.len() ==> o.args().contains("-var-file="@ + #[trigger] o.var_files[i]),
        forall|i: int| 0 <= i < o.targets.len() ==> o.args().contains("-target="@ + #[trigger] o.targets[i]),
        forall|i: int| 0 <= i < o.replace.len() ==> o.args().contains("-replace="@ + #[trigger] o.replace[i]),
        o.lock == Some(true) ==> o.args().contains("-lock="@ + "true"@),
        o.lock == Some(false) ==> o.args().contains("-lock="@ + "false"@),
        o.lock_timeout is Some ==> o.args().contains("-lock-timeout="@ + o.lock_timeout.unwrap()),
        o.parallelism is Some ==> o.args().contains("-parallelism="@ + decimal(o.parallelism.unwrap() as nat)),
        o.json ==> o.args().contains("-json"@),
        forall|i: int| 0 <= i < o.raw_args.len() ==> o.args().contains(#[trigger] o.raw_args[i]),
        o.plan_file is Some ==> o.args().contains(o.plan_file.unwrap()),
{
    lemma_apply_args_first(o);
    lemma_apply_args_len(o);
    lemma_apply_args_has_0(o);
    lemma_apply_args_has_1(o);
    lemma_apply_args_has_2(o);
    lemma_apply_args_has_3(o);
    lemma_apply_args_has_4(o);
    lemma_apply_args_has_5(o);
    lemma_apply_args_has_6(o);
    lemma_apply_args_has_7(o);
    lemma_apply_args_has_8(o);
    lemma_apply_args_has_9(o);
    lemma_apply_args_has_10(o);
    lemma_apply_args_has_11(o);
}

proof fn lemma_apply_args_len(o: ApplyOptions)
    ensures
        o.args().len() == 1 + (if o.auto_approve { 1int } else { 0int }) + o.vars.len() + o.var_files.len() + o.targets.len() + o.replace.len() + (if o.lock is Some { 1int } else { 0int }) + (if o.lock_timeout is Some { 1int } else { 0int }) + (if o.parallelism is Some { 1int } else { 0int }) + (if o.json { 1int } else { 0int }) + o.raw_args.len() + (if o.plan_file is Some { 1int } else { 0int }),
{
    assert((seq!["apply"@]).len() == 1);
    assert((flag_arg(o.auto_approve, "-auto-approve"@)).len() == (if o.auto_approve { 1int } else { 0int }));
    assert((each_pair("-var="@, o.vars)).len() == o.vars.len());
    assert((each_prefixed("-var-file="@, o.var_files)).len() == o.var_files.len());
    assert((each_prefixed("-target="@, o.targets)).len() == o.targets.len());
    assert((each_prefixed("-replace="@, o.replace)).len() == o.replace.len());
    assert((opt_bool("-lock="@, o.lock)).len() == (if o.lock is Some { 1int } else { 0int }));
    assert((opt_prefixed("-lock-timeout="@, o.lock_timeout)).len() == (if o.lock_timeout is Some { 1int } else { 0int }));
    assert((opt_count("-parallelism="@, o.parallelism)).len() == (if o.parallelism is Some { 1int } else { 0int }));
    assert((flag_arg(o.json, "-json"@)).len() == (if o.json { 1int } else { 0int }));
    assert((o.raw_args).len() == o.raw_args.len());
    assert((opt_value(o.plan_file)).len() == (if o.plan_file is Some { 1int } else { 0int }));
}

proof fn lemma_apply_args_first(o: ApplyOptions)
    ensures
        o.args()[0] == "apply"@,
{
}

proof fn lemma_apply_args_has_0(o: ApplyOptions)
    ensures
        o.auto_approve ==> o.args().contains("-auto-approve"@),
{
    if o.auto_approve {
        assert(flag_arg(o.auto_approve, "-auto-approve"@)[0] == "-auto-approve"@);
        lemma_apply_args_part_1(o, "-auto-approve"@);
    }
}

proof fn lemma_apply_args_has_1(o: ApplyOptions)
    ensures
        forall|i: int| 0 <= i < o.vars.len() ==> o.args().contains("-var="@ + (#[trigger] o.vars[i]).0 + "="@ + o.vars[i].1),
{
    assert forall|i: int| 0 <= i < o.vars.len() implies o.args().contains("-var="@ + (#[trigger] o.vars[i]).0 + "="@ + o.vars[i].1) by {
        assert(each_pair("-var="@, o.vars)[i] == "-var="@ + o.vars[i].0 + "="@ + o.vars[i].1);
        lemma_apply_args_part_2(o, "-var="@ + o.vars[i].0 + "="@ + o.vars[i].1);
    }
}

proof fn lemma_apply_args_has_2(o: ApplyOptions)
    ensures
        forall|i: int| 0 <= i < o.var_files.len() ==> o.args().contains("-var-file="@ + #[trigger] o.var_files[i]),
{
    assert forall|i: int| 0 <= i < o.var_files.len() implies o.args().contains("-var-file="@ + #[trigger] o.var_files[i]) by {
        assert(each_prefixed("-var-file="@, o.var_files)[i] == "-var-file="@ + o.var_files[i]);
        lemma_apply_args_part_3(o, "-var-file="@ + o.var_files[i]);
    }
}

proof fn lemma_apply_args_has_3(o: ApplyOptions)
    ensures
        forall|i: int| 0 <= i < o.targets.len() ==> o.args().contains("-target="@ + #[trigger] o.targets[i]),
{
    assert forall|i: int| 0 <= i < o.targets.len() implies o.args().contains("-target="@ + #[trigger] o.targets[i]) by {
        assert(each_prefixed("-target="@, o.targets)[i] == "-target="@ + o.targets[i]);
        lemma_apply_args_part_4(o, "-target="@ + o.targets[i]);
    }
}

proof fn lemma_apply_args_has_4(o: ApplyOptions)
    ensures
        forall|i: int| 0 <= i < o.replace.len() ==> o.args().contains("-replace="@ + #[trigger] o.replace[i]),
{
    assert forall|i: int| 0 <= i < o.replace.len() implies o.args().contains("-replace="@ + #[trigger] o.replace[i]) by {
        assert(each_prefixed("-replace="@, o.replace)[i] == "-replace="@ + o.replace[i]);
        lemma_apply_args_part_5(o, "-replace="@ + o.replace[i]);
    }
}

proof fn lemma_apply_args_has_5(o: ApplyOptions)
    ensures
        o.lock == Some(true) ==> o.args().contains("-lock="@ + "true"@),
{
    if o.lock == Some(true) {
        assert(opt_bool("-lock="@, o.lock)[0] == "-lock="@ + "true"@);
        lemma_apply_args_part_6(o, "-lock="@ + "true"@);
    }
}

proof fn lemma_apply_args_has_6(o: ApplyOptions)
    ensures
        o.lock == Some(false) ==> o.args().contains("-lock="@ + "false"@),
{
    if o.lock == Some(false) {
        assert(opt_bool("-lock="@, o.lock)[0] == "-lock="@ + "false"@);
        lemma_apply_args_part_6(o, "-lock="@ + "false"@);
    }
}

proof fn lemma_apply_args_has_7(o: ApplyOptions)
    ensures
        o.lock_timeout is Some ==> o.args().contains("-lock-timeout="@ + o.lock_timeout.unwrap()),
{
    if o.lock_timeout is Some {
        assert(opt_prefixed("-lock-timeout="@, o.lock_timeout)[0] == "-lock-timeout="@ + o.lock_timeout.unwrap());
        lemma_apply_args_part_7(o, "-lock-timeout="@ + o.lock_timeout.unwrap());
    }
}

proof fn lemma_apply_args_has_8(o: ApplyOptions)
    ensures
        o.parallelism is Some ==> o.args().contains("-parallelism="@ + decimal(o.parallelism.unwrap() as nat)),
{
    if o.parallelism is Some {
        assert(opt_count("-parallelism="@, o.parallelism)[0] == "-parallelism="@ + decimal(o.parallelism.unwrap() as nat));
        lemma_apply_args_part_8(o, "-parallelism="@ + decimal(o.parallelism.unwrap() as nat));
    }
}

proof fn lemma_apply_args_has_9(o: ApplyOptions)
    ensures
        o.json ==> o.args().contains("-json"@),
{
    if o.json {
        assert(flag_arg(o.json, "-json"@)[0] == "-json"@);
        lemma_apply_args_part_9(o, "-json"@);
    }
}

proof fn lemma_apply_args_has_10(o: ApplyOptions)
    ensures
        forall|i: int| 0 <= i < o.raw_args.len() ==> o.args().contains(#[trigger] o.raw_args[i]),
{
    assert forall|i: int| 0 <= i < o.raw_args.len() implies o.args().contains(#[trigger] o.raw_args[i]) by {
        assert(o.raw_args[i] == o.raw_args[i]);
        lemma_apply_args_part_10(o, o.raw_args[i]);
    }
}

proof fn lemma_apply_args_has_11(o: ApplyOptions)
    ensures
        o.plan_file is Some ==> o.args().contains(o.plan_file.unwrap()),
{
    if o.plan_file is Some {
        assert(opt_value(o.plan_file)[0] == o.plan_file.unwrap());
        lemma_apply_args_part_11(o, o.plan_file.unwrap());
    }
}

proof fn lemma_apply_args_part_1(o: ApplyOptions, x: Seq<char>)
    requires
        (flag_arg(o.auto_approve, "-auto-approve"@)).contains(x),
    ensures
        o.args().contains(x),
{
    lemma_contains_prepend(seq!["apply"@], flag_arg(o.auto_approve, "-auto-approve"@), x);
    let s = seq!["apply"@] + flag_arg(o.auto_approve, "-auto-approve"@);
    lemma_contains_append(s, each_pair("-var="@, o.vars), x);
    let s = s + each_pair("-var="@, o.vars);
    lemma_contains_append(s, each_prefixed("-var-file="@, o.var_files), x);
    let s = s + each_prefixed("-var-file="@, o.var_files);
    lemma_contains_append(s, each_prefixed("-target="@, o.targets), x);
    let s = s + each_prefixed("-target="@, o.targets);
    lemma_contains_append(s, each_prefixed("-replace="@, o.replace), x);
    let s = s + each_prefixed("-replace="@, o.replace);
    lemma_contains_append(s, opt_bool("-lock="@, o.lock), x);
    let s = s + opt_bool("-lock="@, o.lock);
    lemma_contains_append(s, opt_prefixed("-lock-timeout="@, o.lock_timeout), x);
    let s = s + opt_prefixed("-lock-timeout="@, o.lock_timeout);
    lemma_contains_append(s, opt_count("-parallelism="@, o.parallelism), x);
    let s = s + opt_count("-parallelism="@, o.parallelism);
    lemma_contains_append(s, flag_arg(o.json, "-json"@), x);
    let s = s + flag_arg(o.json, "-json"@);
    lemma_contains_append(s, o.raw_args, x);
    let s = s + o.raw_args;
    lemma_contains_append(s, opt_value(o.plan_file), x);
    let s = s + opt_value(o.plan_file);
}

proof fn lemma_apply_args_part_2(o: ApplyOptions, x: Seq<char>)
    requires
        (each_pair("-var="@, o.vars)).contains(x),
    ensures
        o.args().contains(x),
{
    lemma_contains_prepend(seq!["apply"@] + flag_arg(o.auto_approve, "-auto-approve"@), each_pair("-var="@, o.vars), x);
    let s = seq!["apply"@] + flag_arg(o.auto_approve, "-auto-approve"@) + each_pair("-var="@, o.vars);
    lemma_contains_append(s, each_prefixed("-var-file="@, o.var_files), x);
    let s = s + each_prefixed("-var-file="@, o.var_files);
    lemma_contains_append(s, each_prefixed("-target="@, o.targets), x);
    let s = s + each_prefixed("-target="@, o.targets);
    lemma_contains_append(s, each_prefixed("-replace="@, o.replace), x);
    let s = s + each_prefixed("-replace="@, o.replace);
    lemma_contains_append(s, opt_bool("-lock="@, o.lock), x);
    let s = s + opt_bool("-lock="@, o.lock);
    lemma_contains_append(s, opt_prefixed("-lock-timeout="@, o.lock_timeout), x);
    let s = s + opt_prefixed("-lock-timeout="@, o.lock_timeout);
    lemma_contains_append(s, opt_count("-parallelism="@, o.parallelism), x);
    let s = s + opt_count("-parallelism="@, o.parallelism);
    lemma_contains_append(s, flag_arg(o.json, "-json"@), x);
    let s = s + flag_arg(o.json, "-json"@);
    lemma_contains_append(s, o.raw_args, x);
    let s = s + o.raw_args;
    lemma_contains_append(s, opt_value(o.plan_file), x);
    let s = s + opt_value(o.plan_file);
}

proof fn lemma_apply_args_part_3(o: ApplyOptions, x: Seq<char>)
    requires
        (each_prefixed("-var-file="@, o.var_files)).contains(x),
    ensures
        o.args().contains(x),
{
    lemma_contains_prepend(seq!["apply"@] + flag_arg(o.auto_approve, "-auto-approve"@) + each_pair("-var="@, o.vars), each_prefixed("-var-file="@, o.var_files), x);
    let s = seq!["apply"@] + flag_arg(o.auto_approve, "-auto-approve"@) + each_pair("-var="@, o.vars) + each_prefixed("-var-file="@, o.var_files);
    lemma_contains_append(s, each_prefixed("-target="@, o.targets), x);
    let s = s + each_prefixed("-target="@, o.targets);
    lemma_contains_append(s, each_prefixed("-replace="@, o.replace), x);
    let s = s + each_prefixed("-replace="@, o.replace);
    lemma_contains_append(s, opt_bool("-lock="@, o.lock), x);
    let s = s + opt_bool("-lock="@, o.lock);
    lemma_contains_append(s, opt_prefixed("-lock-timeout="@, o.lock_timeout), x);
    let s = s + opt_prefixed("-lock-timeout="@, o.lock_timeout);
    lemma_contains_append(s, opt_count("-parallelism="@, o.parallelism), x);
    let s = s + opt_count("-parallelism="@, o.parallelism);
    lemma_contains_append(s, flag_arg(o.json, "-json"@), x);
    let s = s + flag_arg(o.json, "-json"@);
    lemma_contains_append(s, o.raw_args, x);
    let s = s + o.raw_args;
    lemma_contains_append(s, opt_value(o.plan_file), x);
    let s = s + opt_value(o.plan_file);
}

proof fn lemma_apply_args_part_4(o: ApplyOptions, x: Seq<char>)
    requires
        (each_prefixed("-target="@, o.targets)).contains(x),
    ensures
        o.args().contains(x),
{
    lemma_contains_prepend(seq!["apply"@] + flag_arg(o.auto_approve, "-auto-approve"@) + each_pair("-var="@, o.vars) + each_prefixed("-var-file="@, o.var_files), each_prefixed("-target="@, o.targets), x);
    let s = seq!["apply"@] + flag_arg(o.auto_approve, "-auto-approve"@) + each_pair("-var="@, o.vars) + each_prefixed("-var-file="@, o.var_files) + each_prefixed("-target="@, o.targets);
    lemma_contains_append(s, each_prefixed("-replace="@, o.replace), x);
    let s = s + each_prefixed("-replace="@, o.replace);
    lemma_contains_append(s, opt_bool("-lock="@, o.lock), x);
    let s = s + opt_bool("-lock="@, o.lock);
    lemma_contains_append(s, opt_prefixed("-lock-timeout="@, o.lock_timeout), x);
    let s = s + opt_prefixed("-lock-timeout="@, o.lock_timeout);
    lemma_contains_append(s, opt_count("-parallelism="@, o.parallelism), x);
    let s = s + opt_count("-parallelism="@, o.parallelism);
    lemma_contains_append(s, flag_arg(o.json, "-json"@), x);
    let s = s + flag_arg(o.json, "-json"@);
    lemma_contains_append(s, o.raw_args, x);
    let s = s + o.raw_args;
    lemma_contains_append(s, opt_value(o.plan_file), x);
    let s = s + opt_value(o.plan_file);
}

proof fn lemma_apply_args_part_5(o: ApplyOptions, x: Seq<char>)
    requires
        (each_prefixed("-replace="@, o.replace)).contains(x),
    ensures
        o.args().contains(x),
{
    lemma_contains_prepend(seq!["apply"@] + flag_arg(o.auto_approve, "-auto-approve"@) + each_pair("-var="@, o.vars) + each_prefixed("-var-file="@, o.var_files) + each_prefixed("-target="@, o.targets), each_prefixed("-replace="@, o.replace), x);
    let s = seq!["apply"@] + flag_arg(o.auto_approve, "-auto-approve"@) + each_pair("-var="@, o.vars) + each_prefixed("-var-file="@, o.var_files) + each_prefixed("-target="@, o.targets) + each_prefixed("-replace="@, o.replace);
    lemma_contains_append(s, opt_bool("-lock="@, o.lock), x);
    let s = s + opt_bool("-lock="@, o.lock);
    lemma_contains_append(s, opt_prefixed("-lock-timeout="@, o.lock_timeout), x);
    let s = s + opt_prefixed("-lock-timeout="@, o.lock_timeout);
    lemma_contains_append(s, opt_count("-parallelism="@, o.parallelism), x);
    let s = s + opt_count("-parallelism="@, o.parallelism);
    lemma_contains_append(s, flag_arg(o.json, "-json"@), x);
    let s = s + flag_arg(o.json, "-json"@);
    lemma_contains_append(s, o.raw_args, x);
    let s = s + o.raw_args;
    lemma_contains_append(s, opt_value(o.plan_file), x);
    let s = s + opt_value(o.plan_file);
}

proof fn lemma_apply_args_part_6(o: ApplyOptions, x: Seq<char>)
    requires
        (opt_bool("-lock="@, o.lock)).contains(x),
    ensures
        o.args().contains(x),
{
    lemma_contains_prepend(seq!["apply"@] + flag_arg(o.auto_approve, "-auto-approve"@) + each_pair("-var="@, o.vars) + each_prefixed("-var-file="@, o.var_files) + each_prefixed("-target="@, o.targets) + each_prefixed("-replace="@, o.replace), opt_bool("-lock="@, o.lock), x);
    let s = seq!["apply"@] + flag_arg(o.auto_approve, "-auto-approve"@) + each_pair("-var="@, o.vars) + each_prefixed("-var-file="@, o.var_files) + each_prefixed("-target="@, o.targets) + each_prefixed("-replace="@, o.replace) + opt_bool("-lock="@, o.lock);
    lemma_contains_append(s, opt_prefixed("-lock-timeout="@, o.lock_timeout), x);
    let s = s + opt_prefixed("-lock-timeout="@, o.lock_timeout);
    lemma_contains_append(s, opt_count("-parallelism="@, o.parallelism), x);
    let s = s + opt_count("-parallelism="@, o.parallelism);
    lemma_contains_append(s, flag_arg(o.json, "-json"@), x);
    let s = s + flag_arg(o.json, "-json"@);
    lemma_contains_append(s, o.raw_args, x);
    let s = s + o.raw_args;
    lemma_contains_append(s, opt_value(o.plan_file), x);
    let s = s + opt_value(o.plan_file);
}

proof fn lemma_apply_args_part_7(o: ApplyOptions, x: Seq<char>)
    requires
        (opt_prefixed("-lock-timeout="@, o.lock_timeout)).contains(x),
    ensures
        o.args().contains(x),
{
    lemma_contains_prepend(seq!["apply"@] + flag_arg(o.auto_approve, "-auto-approve"@) + each_pair("-var="@, o.vars) + each_prefixed("-var-file="@, o.var_files) + each_prefixed("-target="@, o.targets) + each_prefixed("-replace="@, o.replace) + opt_bool("-lock="@, o.lock), opt_prefixed("-lock-timeout="@, o.lock_timeout), x);
    let s = seq!["apply"@] + flag_arg(o.auto_approve, "-auto-approve"@) + each_pair("-var="@, o.vars) + each_prefixed("-var-file="@, o.var_files) + each_prefixed("-target="@, o.targets) + each_prefixed("-replace="@, o.replace) + opt_bool("-lock="@, o.lock) + opt_prefixed("-lock-timeout="@, o.lock_timeout);
    lemma_contains_append(s, opt_count("-parallelism="@, o.parallelism), x);
    let s = s + opt_count("-parallelism="@, o.parallelism);
    lemma_contains_append(s, flag_arg(o.json, "-json"@), x);
    let s = s + flag_arg(o.json, "-json"@);
    lemma_contains_append(s, o.raw_args, x);
    let s = s + o.raw_args;
    lemma_contains_append(s, opt_value(o.plan_file), x);
    let s = s + opt_value(o.plan_file);
}

proof fn lemma_apply_args_part_8(o: ApplyOptions, x: Seq<char>)
    requires
        (opt_count("-parallelism="@, o.parallelism)).contains(x),
    ensures
        o.args().contains(x),
{
    lemma_contains_prepend(seq!["apply"@] + flag_arg(o.auto_approve, "-auto-approve"@) + each_pair("-var="@, o.vars) + each_prefixed("-var-file="@, o.var_files) + each_prefixed("-target="@, o.targets) + each_prefixed("-replace="@, o.replace) + opt_bool("-lock="@, o.lock) + opt_prefixed("-lock-timeout="@, o.lock_timeout), opt_count("-parallelism="@, o.parallelism), x);
    let s = seq!["apply"@] + flag_arg(o.auto_approve, "-auto-approve"@) + each_pair("-var="@, o.vars) + each_prefixed("-var-file="@, o.var_files) + each_prefixed("-target="@, o.targets) + each_prefixed("-replace="@, o.replace) + opt_bool("-lock="@, o.lock) + opt_prefixed("-lock-timeout="@, o.lock_timeout) + opt_count("-parallelism="@, o.parallelism);
    lemma_contains_append(s, flag_arg(o.json, "-json"@), x);
    let s = s + flag_arg(o.json, "-json"@);
    lemma_contains_append(s, o.raw_args, x);
    let s = s + o.raw_args;
    lemma_contains_append(s, opt_value(o.plan_file), x);
    let s = s + opt_value(o.plan_file);
}

proof fn lemma_apply_args_part_9(o: ApplyOptions, x: Seq<char>)
    requires
        (flag_arg(o.json, "-json"@)).contains(x),
    ensures
        o.args().contains(x),
{
    lemma_contains_prepend(seq!["apply"@] + flag_arg(o.auto_approve, "-auto-approve"@) + each_pair("-var="@, o.vars) + each_prefixed("-var-file="@, o.var_files) + each_prefixed("-target="@, o.targets) + each_prefixed("-replace="@, o.replace) + opt_bool("-lock="@, o.lock) + opt_prefixed("-lock-timeout="@, o.lock_timeout) + opt_count("-parallelism="@, o.parallelism), flag_arg(o.json, "-json"@), x);
    let s = seq!["apply"@] + flag_arg(o.auto_approve, "-auto-approve"@) + each_pair("-var="@, o.vars) + each_prefixed("-var-file="@, o.var_files) + each_prefixed("-target="@, o.targets) + each_prefixed("-replace="@, o.replace) + opt_bool("-lock="@, o.lock) + opt_prefixed("-lock-timeout="@, o.lock_timeout) + opt_count("-parallelism="@, o.parallelism) + flag_arg(o.json, "-json"@);
    lemma_contains_append(s, o.raw_args, x);
    let s = s + o.raw_args;
    lemma_contains_append(s, opt_value(o.plan_file), x);
    let s = s + opt_value(o.plan_file);
}

proof fn lemma_apply_args_part_10(o: ApplyOptions, x: Seq<char>)
    requires
        (o.raw_args).contains(x),
    ensures
        o.args().contains(x),
{
    lemma_contains_prepend(seq!["apply"@] + flag_arg(o.auto_approve, "-auto-approve"@) + each_pair("-var="@, o.vars) + each_prefixed("-var-file="@, o.var_files) + each_prefixed("-target="@, o.targets) + each_prefixed("-replace="@, o.replace) + opt_bool("-lock="@, o.lock) + opt_prefixed("-lock-timeout="@, o.lock_timeout) + opt_count("-parallelism="@, o.parallelism) + flag_arg(o.json, "-json"@), o.raw_args, x);
    let s = seq!["apply"@] + flag_arg(o.auto_approve, "-auto-approve"@) + each_pair("-var="@, o.vars) + each_prefixed("-var-file="@, o.var_files) + each_prefixed("-target="@, o.targets) + each_prefixed("-replace="@, o.replace) + opt_bool("-lock="@, o.lock) + opt_prefixed("-lock-timeout="@, o.lock_timeout) + opt_count("-parallelism="@, o.parallelism) + flag_arg(o.json, "-json"@) + o.raw_args;
    lemma_contains_append(s, opt_value(o.plan_file), x);
    let s = s + opt_value(o.plan_file);
}

proof fn lemma_apply_args_part_11(o: ApplyOptions, x: Seq<char>)
    requires
        (opt_value(o.plan_file)).contains(x),
    ensures
        o.args().contains(x),
{
    lemma_contains_prepend(seq!["apply"@] + flag_arg(o.auto_approve, "-auto-approve"@) + each_pair("-var="@, o.vars) + each_prefixed("-var-file="@, o.var_files) + each_prefixed("-target="@, o.targets) + each_prefixed("-replace="@, o.replace) + opt_bool("-lock="@, o.lock) + opt_prefixed("-lock-timeout="@, o.lock_timeout) + opt_count("-parallelism="@, o.parallelism) + flag_arg(o.json, "-json"@) + o.raw_args, opt_value(o.plan_file), x);
    let s = seq!["apply"@] + flag_arg(o.auto_approve, "-auto-approve"@) + each_pair("-var="@, o.vars) + each_prefixed("-var-file="@, o.var_files) + each_prefixed("-target="@, o.targets) + each_prefixed("-replace="@, o.replace) + opt_bool("-lock="@, o.lock) + opt_prefixed("-lock-timeout="@, o.lock_timeout) + opt_count("-parallelism="@, o.parallelism) + flag_arg(o.json, "-json"@) + o.raw_args + opt_value(o.plan_file);
}

} // verus!
