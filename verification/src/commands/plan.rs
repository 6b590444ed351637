//! `terraform plan`.
use vstd::prelude::*;

use crate::command::TerraformCommand;
use crate::text::{
    decimal, each_pair, each_prefixed, flag_arg, lemma_append_push, lemma_contains_append, lemma_contains_prepend, lemma_each_prefixed_push, lemma_insert_append, opt_bool, opt_count, opt_prefixed, push_all, push_flag, push_opt, push_opt_bool, push_opt_count, push_pair, push_pairs, push_prefixed, push_str,
};

verus! {

/// The options of a [`PlanCommand`], as plain values.
#[verifier::ext_equal]
pub struct PlanOptions {
    pub vars: Seq<(Seq<char>, Seq<char>)>,
    pub var_files: Seq<Seq<char>>,
    pub out: Option<Seq<char>>,
    pub targets: Seq<Seq<char>>,
    pub replace: Seq<Seq<char>>,
    pub destroy: bool,
    pub refresh_only: bool,
    pub lock: Option<bool>,
    pub lock_timeout: Option<Seq<char>>,
    pub parallelism: Option<u32>,
    pub detailed_exitcode: bool,
    pub json: bool,
    pub raw_args: Seq<Seq<char>>,
}

impl PlanOptions {
    /// The options of a fresh command.
    pub open spec fn initial() -> Self {
        PlanOptions {
            vars: seq![],
            var_files: seq![],
            out: None,
            targets: seq![],
            replace: seq![],
            destroy: false,
            refresh_only: false,
            lock: None,
            lock_timeout: None,
            parallelism: None,
            detailed_exitcode: false,
            json: false,
            raw_args: seq![],
        }
    }

    /// `plan`, its flags in a fixed order, then the raw arguments.
    pub open spec fn args(self) -> Seq<Seq<char>> {
        seq!["plan"@]
            + each_pair("-var="@, self.vars)
            + each_prefixed("-var-file="@, self.var_files)
            + opt_prefixed("-out="@, self.out)
            + each_prefixed("-target="@, self.targets)
            + each_prefixed("-replace="@, self.replace)
            + flag_arg(self.destroy, "-destroy"@)
            + flag_arg(self.refresh_only, "-refresh-only"@)
            + opt_bool("-lock="@, self.lock)
            + opt_prefixed("-lock-timeout="@, self.lock_timeout)
            + opt_count("-parallelism="@, self.parallelism)
            + flag_arg(self.detailed_exitcode, "-detailed-exitcode"@)
            + flag_arg(self.json, "-json"@)
            + self.raw_args
    }
}

/// Command for creating a Terraform execution plan.
///
/// Terraform `plan` uses exit code 2 to indicate "changes present" which
/// is treated as a success by this wrapper (not an error).
#[derive(Debug, Clone, Default)]
pub struct PlanCommand {
    vars: Vec<(String, String)>,
    var_files: Vec<String>,
    out: Option<String>,
    targets: Vec<String>,
    replace: Vec<String>,
    destroy: bool,
    refresh_only: bool,
    lock: Option<bool>,
    lock_timeout: Option<String>,
    parallelism: Option<u32>,
    detailed_exitcode: bool,
    json: bool,
    raw_args: Vec<String>,
}

impl View for PlanCommand {
    type V = PlanOptions;

    closed spec fn view(&self) -> PlanOptions {
        PlanOptions {
            vars: self.vars.deep_view(),
            var_files: self.var_files.deep_view(),
            out: self.out.deep_view(),
            targets: self.targets.deep_view(),
            replace: self.replace.deep_view(),
            destroy: self.destroy,
            refresh_only: self.refresh_only,
            lock: self.lock,
            lock_timeout: self.lock_timeout.deep_view(),
            parallelism: self.parallelism,
            detailed_exitcode: self.detailed_exitcode,
            json: self.json,
            raw_args: self.raw_args.deep_view(),
        }
    }
}

impl PlanCommand {
    /// Create a new plan command with default options.
    pub fn new() -> (r: Self)
        ensures
            r@ == PlanOptions::initial(),
    {
        let r = PlanCommand {
            vars: Vec::new(),
            var_files: Vec::new(),
            out: None,
            targets: Vec::new(),
            replace: Vec::new(),
            destroy: false,
            refresh_only: false,
            lock: None,
            lock_timeout: None,
            parallelism: None,
            detailed_exitcode: false,
            json: false,
            raw_args: Vec::new(),
        };
        assert(r@ =~= PlanOptions::initial());
        r
    }

    /// Set a variable value (`-var="name=value"`).
    pub fn var(self, name: &str, value: &str) -> (r: Self)
        ensures
            r@ == (PlanOptions { vars: self@.vars.push((name@, value@)), ..self@ }),
    {
        let mut s = self;
        push_pair(&mut s.vars, name, value);
        s
    }

    /// Add a variable definitions file (`-var-file`).
    pub fn var_file(self, path: &str) -> (r: Self)
        ensures
            r@ == (PlanOptions { var_files: self@.var_files.push(path@), ..self@ }),
    {
        let mut s = self;
        push_str(&mut s.var_files, path);
        s
    }

    /// Save the plan to a file (`-out`).
    pub fn out(self, path: &str) -> (r: Self)
        ensures
            r@ == (PlanOptions { out: Some(path@), ..self@ }),
    {
        PlanCommand { out: Some(String::from_str(path)), ..self }
    }

    /// Target a specific resource or module (`-target`).
    pub fn target(self, resource: &str) -> (r: Self)
        ensures
            r@ == (PlanOptions { targets: self@.targets.push(resource@), ..self@ }),
    {
        let mut s = self;
        push_str(&mut s.targets, resource);
        s
    }

    /// Mark a resource for replacement (`-replace`).
    pub fn replace(self, resource: &str) -> (r: Self)
        ensures
            r@ == (PlanOptions { replace: self@.replace.push(resource@), ..self@ }),
    {
        let mut s = self;
        push_str(&mut s.replace, resource);
        s
    }

    /// Create a destroy plan (`-destroy`).
    pub fn destroy(self) -> (r: Self)
        ensures
            r@ == (PlanOptions { destroy: true, ..self@ }),
    {
        PlanCommand { destroy: true, ..self }
    }

    /// Create a plan that only refreshes state (`-refresh-only`).
    pub fn refresh_only(self) -> (r: Self)
        ensures
            r@ == (PlanOptions { refresh_only: true, ..self@ }),
    {
        PlanCommand { refresh_only: true, ..self }
    }

    /// Enable or disable state locking (`-lock`).
    pub fn lock(self, enabled: bool) -> (r: Self)
        ensures
            r@ == (PlanOptions { lock: Some(enabled), ..self@ }),
    {
        PlanCommand { lock: Some(enabled), ..self }
    }

    /// Duration to wait for state lock (`-lock-timeout`).
    pub fn lock_timeout(self, timeout: &str) -> (r: Self)
        ensures
            r@ == (PlanOptions { lock_timeout: Some(timeout@), ..self@ }),
    {
        PlanCommand { lock_timeout: Some(String::from_str(timeout)), ..self }
    }

    /// Limit the number of concurrent operations (`-parallelism`).
    pub fn parallelism(self, n: u32) -> (r: Self)
        ensures
            r@ == (PlanOptions { parallelism: Some(n), ..self@ }),
    {
        PlanCommand { parallelism: Some(n), ..self }
    }

    /// Return a detailed exit code (`-detailed-exitcode`).
    ///
    /// When enabled, exit code 0 means no changes, exit code 2 means changes
    /// are present. Without this flag, exit code 0 means success regardless
    /// of whether changes are needed.
    pub fn detailed_exitcode(self) -> (r: Self)
        ensures
            r@ == (PlanOptions { detailed_exitcode: true, ..self@ }),
    {
        PlanCommand { detailed_exitcode: true, ..self }
    }

    /// Enable machine-readable JSON output (`-json`).
    ///
    /// When enabled, stdout contains streaming JSON log lines (one per event),
    /// not a single JSON blob.
    pub fn json(self) -> (r: Self)
        ensures
            r@ == (PlanOptions { json: true, ..self@ }),
    {
        PlanCommand { json: true, ..self }
    }

    /// Add a raw argument (escape hatch for unsupported options).
    pub fn arg(self, arg: &str) -> (r: Self)
        ensures
            r@ == (PlanOptions { raw_args: self@.raw_args.push(arg@), ..self@ }),
    {
        let mut s = self;
        push_str(&mut s.raw_args, arg);
        s
    }
}

impl TerraformCommand for PlanCommand {
    open spec fn spec_args(&self) -> Seq<Seq<char>> {
        self@.args()
    }

    open spec fn spec_supports_input(&self) -> bool {
        true
    }

    #[verifier::rlimit(40)]
    fn args(&self) -> (r: Vec<String>) {
        let mut args: Vec<String> = Vec::new();
        push_str(&mut args, "plan");
        assert(args.deep_view() =~= seq!["plan"@]);
        push_pairs(&mut args, "-var=", &self.vars);
        push_prefixed(&mut args, "-var-file=", &self.var_files);
        push_opt(&mut args, "-out=", &self.out);
        push_prefixed(&mut args, "-target=", &self.targets);
        push_prefixed(&mut args, "-replace=", &self.replace);
        push_flag(&mut args, self.destroy, "-destroy");
        push_flag(&mut args, self.refresh_only, "-refresh-only");
        push_opt_bool(&mut args, "-lock=", self.lock);
        push_opt(&mut args, "-lock-timeout=", &self.lock_timeout);
        push_opt_count(&mut args, "-parallelism=", self.parallelism);
        push_flag(&mut args, self.detailed_exitcode, "-detailed-exitcode");
        push_flag(&mut args, self.json, "-json");
        push_all(&mut args, &self.raw_args);
        assert(args.deep_view().len() == args@.len());
        args
    }

    fn supports_input(&self) -> (b: bool) {
        true
    }
}

/// `plan` comes first and every target is passed, in the order given.
pub proof fn law_plan_layout(o: PlanOptions)
    ensures
        o.args()[0] == "plan"@,
        forall|i: int| 0 <= i < o.targets.len() ==> o.args().contains("-target="@ + #[trigger] o.targets[i]),
{
    assert forall|i: int| 0 <= i < o.targets.len() implies o.args().contains("-target="@ + #[trigger] o.targets[i]) by {
        let k = 1 + o.vars.len() + o.var_files.len() + opt_prefixed("-out="@, o.out).len() + i;
        assert(o.args()[k] == "-target="@ + o.targets[i]);
    }
}

impl PlanCommand {
    /// The exit codes that count as success: 0, and 2 for "changes present".
    pub fn accepted_exit_codes(&self) -> (r: Vec<i32>)
        ensures
            r@ == seq![0i32, 2i32],
            r@.contains(2i32),
            !r@.contains(1i32),
    {
        let r = vec![0i32, 2i32];
        assert(r@ =~= seq![0i32, 2i32]);
        assert(r@[1] == 2i32);
        r
    }
}

/// A target is added after every earlier target: the arguments gain
/// `-target=<resource>` right after the earlier targets, and nothing else
/// changes.
pub proof fn law_plan_target(o: PlanOptions, t: Seq<char>)
    ensures
        (PlanOptions { targets: o.targets.push(t), ..o }).args() == o.args().insert(
            1int + o.vars.len() + o.var_files.len() + opt_prefixed("-out="@, o.out).len() + o.targets.len(),
            "-target="@ + t,
        ),
{
    let e = "-target="@ + t;
    lemma_each_prefixed_push("-target="@, o.targets, t);
    let front = seq!["plan"@] + each_pair("-var="@, o.vars) + each_prefixed("-var-file="@, o.var_files) + opt_prefixed("-out="@, o.out);
    lemma_append_push(front, each_prefixed("-target="@, o.targets), e);
    let i: int = (front.len() + each_prefixed("-target="@, o.targets).len()) as int;
    let s = front + each_prefixed("-target="@, o.targets);
    lemma_insert_append(s, i, e, each_prefixed("-replace="@, o.replace));
    let s = s + each_prefixed("-replace="@, o.replace);
    lemma_insert_append(s, i, e, flag_arg(o.destroy, "-destroy"@));
    let s = s + flag_arg(o.destroy, "-destroy"@);
    lemma_insert_append(s, i, e, flag_arg(o.refresh_only, "-refresh-only"@));
    let s = s + flag_arg(o.refresh_only, "-refresh-only"@);
    lemma_insert_append(s, i, e, opt_bool("-lock="@, o.lock));
    let s = s + opt_bool("-lock="@, o.lock);
    lemma_insert_append(s, i, e, opt_prefixed("-lock-timeout="@, o.lock_timeout));
    let s = s + opt_prefixed("-lock-timeout="@, o.lock_timeout);
    lemma_insert_append(s, i, e, opt_count("-parallelism="@, o.parallelism));
    let s = s + opt_count("-parallelism="@, o.parallelism);
    lemma_insert_append(s, i, e, flag_arg(o.detailed_exitcode, "-detailed-exitcode"@));
    let s = s + flag_arg(o.detailed_exitcode, "-detailed-exitcode"@);
    lemma_insert_append(s, i, e, flag_arg(o.json, "-json"@));
    let s = s + flag_arg(o.json, "-json"@);
    lemma_insert_append(s, i, e, o.raw_args);
    let s = s + o.raw_args;
}

/// `-refresh-only` is one argument at a fixed place, present exactly when
/// the option is set; setting it again changes nothing.
pub proof fn law_plan_refresh_only(o: PlanOptions)
    ensures
        (PlanOptions { refresh_only: true, ..o }).args() == (PlanOptions { refresh_only: false, ..o }).args().insert(
            1int + o.vars.len() + o.var_files.len() + opt_prefixed("-out="@, o.out).len() + o.targets.len()
                + o.replace.len() + flag_arg(o.destroy, "-destroy"@).len(),
            "-refresh-only"@,
        ),
        (PlanOptions { refresh_only: true, ..PlanOptions { refresh_only: true, ..o } }) == (PlanOptions { refresh_only: true, ..o }),
{
    let b = PlanOptions { refresh_only: false, ..o };
    let e = "-refresh-only"@;
    assert(flag_arg(true, "-refresh-only"@) =~= flag_arg(false, "-refresh-only"@).push("-refresh-only"@));
    let front = seq!["plan"@] + each_pair("-var="@, b.vars) + each_prefixed("-var-file="@, b.var_files) + opt_prefixed("-out="@, b.out) + each_prefixed("-target="@, b.targets) + each_prefixed("-replace="@, b.replace) + flag_arg(b.destroy, "-destroy"@);
    lemma_append_push(front, flag_arg(false, "-refresh-only"@), e);
    let i: int = (front.len() + flag_arg(false, "-refresh-only"@).len()) as int;
    let s = front + flag_arg(false, "-refresh-only"@);
    lemma_insert_append(s, i, e, opt_bool("-lock="@, b.lock));
    let s = s + opt_bool("-lock="@, b.lock);
    lemma_insert_append(s, i, e, opt_prefixed("-lock-timeout="@, b.lock_timeout));
    let s = s + opt_prefixed("-lock-timeout="@, b.lock_timeout);
    lemma_insert_append(s, i, e, opt_count("-parallelism="@, b.parallelism));
    let s = s + opt_count("-parallelism="@, b.parallelism);
    lemma_insert_append(s, i, e, flag_arg(b.detailed_exitcode, "-detailed-exitcode"@));
    let s = s + flag_arg(b.detailed_exitcode, "-detailed-exitcode"@);
    lemma_insert_append(s, i, e, flag_arg(b.json, "-json"@));
    let s = s + flag_arg(b.json, "-json"@);
    lemma_insert_append(s, i, e, b.raw_args);
    let s = s + b.raw_args;
    assert((PlanOptions { refresh_only: true, ..o }).args() == s.insert(i, e));
}

/// Every option set on the command reaches its arguments as the one
/// argument Terraform expects for it, the subcommand comes first, and there
/// is one argument per option set and nothing more.
pub proof fn law_plan_arguments(o: PlanOptions)
    ensures
        o.args()[0] == "plan"@,
        o.args().len() == 1 + o.vars.len() + o.var_files.len() + (if o.out is Some { 1int } else { 0int }) + o.targets.len() + o.replace.len() + (if o.destroy { 1int } else { 0int }) + (if o.refresh_only { 1int } else { 0int }) + (if o.lock is Some { 1int } else { 0int }) + (if o.lock_timeout is Some { 1int } else { 0int }) + (if o.parallelism is Some { 1int } else { 0int }) + (if o.detailed_exitcode { 1int } else { 0int }) + (if o.json { 1int } else { 0int }) + o.raw_args.len(),
        forall|i: int| 0 <= i < o.vars.len() ==> o.args().contains("-var="@ + (#[trigger] o.vars[i]).0 + "="@ + o.vars[i].1),
        forall|i: int| 0 <= i < o.var_files.len() ==> o.args().contains("-var-file="@ + #[trigger] o.var_files[i]),
        o.out is Some ==> o.args().contains("-out="@ + o.out.unwrap()),
        forall|i: int| 0 <= i < o.targets.len() ==> o.args().contains("-target="@ + #[trigger] o.targets[i]),
        forall|i: int| 0 <= i < o.replace.len() ==> o.args().contains("-replace="@ + #[trigger] o.replace[i]),
        o.destroy ==> o.args().contains("-destroy"@),
        o.refresh_only ==> o.args().contains("-refresh-only"@),
        o.lock == Some(true) ==> o.args().contains("-lock="@ + "true"@),
        o.lock == Some(false) ==> o.args().contains("-lock="@ + "false"@),
        o.lock_timeout is Some ==> o.args().contains("-lock-timeout="@ + o.lock_timeout.unwrap()),
        o.parallelism is Some ==> o.args().contains("-parallelism="@ + decimal(o.parallelism.unwrap() as nat)),
        o.detailed_exitcode ==> o.args().contains("-detailed-exitcode"@),
        o.json ==> o.args().contains("-json"@),
        forall|i: int| 0 <= i < o.raw_args.len() ==> o.args().contains(#[trigger] o.raw_args[i]),
{
    lemma_plan_args_first(o);
    lemma_plan_args_len(o);
    lemma_plan_args_has_0(o);
    lemma_plan_args_has_1(o);
    lemma_plan_args_has_2(o);
    lemma_plan_args_has_3(o);
    lemma_plan_args_has_4(o);
    lemma_plan_args_has_5(o);
    lemma_plan_args_has_6(o);
    lemma_plan_args_has_7(o);
    lemma_plan_args_has_8(o);
    lemma_plan_args_has_9(o);
    lemma_plan_args_has_10(o);
    lemma_plan_args_has_11(o);
    lemma_plan_args_has_12(o);
    lemma_plan_args_has_13(o);
}

proof fn lemma_plan_args_len(o: PlanOptions)
    ensures
        o.args().len() == 1 + o.vars.len() + o.var_files.len() + (if o.out is Some { 1int } else { 0int }) + o.targets.len() + o.replace.len() + (if o.destroy { 1int } else { 0int }) + (if o.refresh_only { 1int } else { 0int }) + (if o.lock is Some { 1int } else { 0int }) + (if o.lock_timeout is Some { 1int } else { 0int }) + (if o.parallelism is Some { 1int } else { 0int }) + (if o.detailed_exitcode { 1int } else { 0int }) + (if o.json { 1int } else { 0int }) + o.raw_args.len(),
{
    assert((seq!["plan"@]).len() == 1);
    assert((each_pair("-var="@, o.vars)).len() == o.vars.len());
    assert((each_prefixed("-var-file="@, o.var_files)).len() == o.var_files.len());
    assert((opt_prefixed("-out="@, o.out)).len() == (if o.out is Some { 1int } else { 0int }));
    assert((each_prefixed("-target="@, o.targets)).len() == o.targets.len());
    assert((each_prefixed("-replace="@, o.replace)).len() == o.replace.len());
    assert((flag_arg(o.destroy, "-destroy"@)).len() == (if o.destroy { 1int } else { 0int }));
    assert((flag_arg(o.refresh_only, "-refresh-only"@)).len() == (if o.refresh_only { 1int } else { 0int }));
    assert((opt_bool("-lock="@, o.lock)).len() == (if o.lock is Some { 1int } else { 0int }));
    assert((opt_prefixed("-lock-timeout="@, o.lock_timeout)).len() == (if o.lock_timeout is Some { 1int } else { 0int }));
    assert((opt_count("-parallelism="@, o.parallelism)).len() == (if o.parallelism is Some { 1int } else { 0int }));
    assert((flag_arg(o.detailed_exitcode, "-detailed-exitcode"@)).len() == (if o.detailed_exitcode { 1int } else { 0int }));
    assert((flag_arg(o.json, "-json"@)).len() == (if o.json { 1int } else { 0int }));
    assert((o.raw_args).len() == o.raw_args.len());
}

proof fn lemma_plan_args_first(o: PlanOptions)
    ensures
        o.args()[0] == "plan"@,
{
}

proof fn lemma_plan_args_has_0(o: PlanOptions)
    ensures
        forall|i: int| 0 <= i < o.vars.len() ==> o.args().contains("-var="@ + (#[trigger] o.vars[i]).0 + "="@ + o.vars[i].1),
{
    assert forall|i: int| 0 <= i < o.vars.len() implies o.args().contains("-var="@ + (#[trigger] o.vars[i]).0 + "="@ + o.vars[i].1) by {
        assert(each_pair("-var="@, o.vars)[i] == "-var="@ + o.vars[i].0 + "="@ + o.vars[i].1);
        lemma_plan_args_part_1(o, "-var="@ + o.vars[i].0 + "="@ + o.vars[i].1);
    }
}

proof fn lemma_plan_args_has_1(o: PlanOptions)
    ensures
        forall|i: int| 0 <= i < o.var_files.len() ==> o.args().contains("-var-file="@ + #[trigger] o.var_files[i]),
{
    assert forall|i: int| 0 <= i < o.var_files.len() implies o.args().contains("-var-file="@ + #[trigger] o.var_files[i]) by {
        assert(each_prefixed("-var-file="@, o.var_files)[i] == "-var-file="@ + o.var_files[i]);
        lemma_plan_args_part_2(o, "-var-file="@ + o.var_files[i]);
    }
}

proof fn lemma_plan_args_has_2(o: PlanOptions)
    ensures
        o.out is Some ==> o.args().contains("-out="@ + o.out.unwrap()),
{
    if o.out is Some {
        assert(opt_prefixed("-out="@, o.out)[0] == "-out="@ + o.out.unwrap());
        lemma_plan_args_part_3(o, "-out="@ + o.out.unwrap());
    }
}

proof fn lemma_plan_args_has_3(o: PlanOptions)
    ensures
        forall|i: int| 0 <= i < o.targets.len() ==> o.args().contains("-target="@ + #[trigger] o.targets[i]),
{
    assert forall|i: int| 0 <= i < o.targets.len() implies o.args().contains("-target="@ + #[trigger] o.targets[i]) by {
        assert(each_prefixed("-target="@, o.targets)[i] == "-target="@ + o.targets[i]);
        lemma_plan_args_part_4(o, "-target="@ + o.targets[i]);
    }
}

proof fn lemma_plan_args_has_4(o: PlanOptions)
    ensures
        forall|i: int| 0 <= i < o.replace.len() ==> o.args().contains("-replace="@ + #[trigger] o.replace[i]),
{
    assert forall|i: int| 0 <= i < o.replace.len() implies o.args().contains("-replace="@ + #[trigger] o.replace[i]) by {
        assert(each_prefixed("-replace="@, o.replace)[i] == "-replace="@ + o.replace[i]);
        lemma_plan_args_part_5(o, "-replace="@ + o.replace[i]);
    }
}

proof fn lemma_plan_args_has_5(o: PlanOptions)
    ensures
        o.destroy ==> o.args().contains("-destroy"@),
{
    if o.destroy {
        assert(flag_arg(o.destroy, "-destroy"@)[0] == "-destroy"@);
        lemma_plan_args_part_6(o, "-destroy"@);
    }
}

proof fn lemma_plan_args_has_6(o: PlanOptions)
    ensures
        o.refresh_only ==> o.args().contains("-refresh-only"@),
{
    if o.refresh_only {
        assert(flag_arg(o.refresh_only, "-refresh-only"@)[0] == "-refresh-only"@);
        lemma_plan_args_part_7(o, "-refresh-only"@);
    }
}

proof fn lemma_plan_args_has_7(o: PlanOptions)
    ensures
        o.lock == Some(true) ==> o.args().contains("-lock="@ + "true"@),
{
    if o.lock == Some(true) {
        assert(opt_bool("-lock="@, o.lock)[0] == "-lock="@ + "true"@);
        lemma_plan_args_part_8(o, "-lock="@ + "true"@);
    }
}

proof fn lemma_plan_args_has_8(o: PlanOptions)
    ensures
        o.lock == Some(false) ==> o.args().contains("-lock="@ + "false"@),
{
    if o.lock == Some(false) {
        assert(opt_bool("-lock="@, o.lock)[0] == "-lock="@ + "false"@);
        lemma_plan_args_part_8(o, "-lock="@ + "false"@);
    }
}

proof fn lemma_plan_args_has_9(o: PlanOptions)
    ensures
        o.lock_timeout is Some ==> o.args().contains("-lock-timeout="@ + o.lock_timeout.unwrap()),
{
    if o.lock_timeout is Some {
        assert(opt_prefixed("-lock-timeout="@, o.lock_timeout)[0] == "-lock-timeout="@ + o.lock_timeout.unwrap());
        lemma_plan_args_part_9(o, "-lock-timeout="@ + o.lock_timeout.unwrap());
    }
}

proof fn lemma_plan_args_has_10(o: PlanOptions)
    ensures
        o.parallelism is Some ==> o.args().contains("-parallelism="@ + decimal(o.parallelism.unwrap() as nat)),
{
    if o.parallelism is Some {
        assert(opt_count("-parallelism="@, o.parallelism)[0] == "-parallelism="@ + decimal(o.parallelism.unwrap() as nat));
        lemma_plan_args_part_10(o, "-parallelism="@ + decimal(o.parallelism.unwrap() as nat));
    }
}

proof fn lemma_plan_args_has_11(o: PlanOptions)
    ensures
        o.detailed_exitcode ==> o.args().contains("-detailed-exitcode"@),
{
    if o.detailed_exitcode {
        assert(flag_arg(o.detailed_exitcode, "-detailed-exitcode"@)[0] == "-detailed-exitcode"@);
        lemma_plan_args_part_11(o, "-detailed-exitcode"@);
    }
}

proof fn lemma_plan_args_has_12(o: PlanOptions)
    ensures
        o.json ==> o.args().contains("-json"@),
{
    if o.json {
        assert(flag_arg(o.json, "-json"@)[0] == "-json"@);
        lemma_plan_args_part_12(o, "-json"@);
    }
}

proof fn lemma_plan_args_has_13(o: PlanOptions)
    ensures
        forall|i: int| 0 <= i < o.raw_args.len() ==> o.args().contains(#[trigger] o.raw_args[i]),
{
    assert forall|i: int| 0 <= i < o.raw_args.len() implies o.args().contains(#[trigger] o.raw_args[i]) by {
        assert(o.raw_args[i] == o.raw_args[i]);
        lemma_plan_args_part_13(o, o.raw_args[i]);
    }
}

proof fn lemma_plan_args_part_1(o: PlanOptions, x: Seq<char>)
    requires
        (each_pair("-var="@, o.vars)).contains(x),
    ensures
        o.args().contains(x),
{
    lemma_contains_prepend(seq!["plan"@], each_pair("-var="@, o.vars), x);
    let s = seq!["plan"@] + each_pair("-var="@, o.vars);
    lemma_contains_append(s, each_prefixed("-var-file="@, o.var_files), x);
    let s = s + each_prefixed("-var-file="@, o.var_files);
    lemma_contains_append(s, opt_prefixed("-out="@, o.out), x);
    let s = s + opt_prefixed("-out="@, o.out);
    lemma_contains_append(s, each_prefixed("-target="@, o.targets), x);
    let s = s + each_prefixed("-target="@, o.targets);
    lemma_contains_append(s, each_prefixed("-replace="@, o.replace), x);
    let s = s + each_prefixed("-replace="@, o.replace);
    lemma_contains_append(s, flag_arg(o.destroy, "-destroy"@), x);
    let s = s + flag_arg(o.destroy, "-destroy"@);
    lemma_contains_append(s, flag_arg(o.refresh_only, "-refresh-only"@), x);
    let s = s + flag_arg(o.refresh_only, "-refresh-only"@);
    lemma_contains_append(s, opt_bool("-lock="@, o.lock), x);
    let s = s + opt_bool("-lock="@, o.lock);
    lemma_contains_append(s, opt_prefixed("-lock-timeout="@, o.lock_timeout), x);
    let s = s + opt_prefixed("-lock-timeout="@, o.lock_timeout);
    lemma_contains_append(s, opt_count("-parallelism="@, o.parallelism), x);
    let s = s + opt_count("-parallelism="@, o.parallelism);
    lemma_contains_append(s, flag_arg(o.detailed_exitcode, "-detailed-exitcode"@), x);
    let s = s + flag_arg(o.detailed_exitcode, "-detailed-exitcode"@);
    lemma_contains_append(s, flag_arg(o.json, "-json"@), x);
    let s = s + flag_arg(o.json, "-json"@);
    lemma_contains_append(s, o.raw_args, x);
    let s = s + o.raw_args;
}

proof fn lemma_plan_args_part_2(o: PlanOptions, x: Seq<char>)
    requires
        (each_prefixed("-var-file="@, o.var_files)).contains(x),
    ensures
        o.args().contains(x),
{
    lemma_contains_prepend(seq!["plan"@] + each_pair("-var="@, o.vars), each_prefixed("-var-file="@, o.var_files), x);
    let s = seq!["plan"@] + each_pair("-var="@, o.vars) + each_prefixed("-var-file="@, o.var_files);
    lemma_contains_append(s, opt_prefixed("-out="@, o.out), x);
    let s = s + opt_prefixed("-out="@, o.out);
    lemma_contains_append(s, each_prefixed("-target="@, o.targets), x);
    let s = s + each_prefixed("-target="@, o.targets);
    lemma_contains_append(s, each_prefixed("-replace="@, o.replace), x);
    let s = s + each_prefixed("-replace="@, o.replace);
    lemma_contains_append(s, flag_arg(o.destroy, "-destroy"@), x);
    let s = s + flag_arg(o.destroy, "-destroy"@);
    lemma_contains_append(s, flag_arg(o.refresh_only, "-refresh-only"@), x);
    let s = s + flag_arg(o.refresh_only, "-refresh-only"@);
    lemma_contains_append(s, opt_bool("-lock="@, o.lock), x);
    let s = s + opt_bool("-lock="@, o.lock);
    lemma_contains_append(s, opt_prefixed("-lock-timeout="@, o.lock_timeout), x);
    let s = s + opt_prefixed("-lock-timeout="@, o.lock_timeout);
    lemma_contains_append(s, opt_count("-parallelism="@, o.parallelism), x);
    let s = s + opt_count("-parallelism="@, o.parallelism);
    lemma_contains_append(s, flag_arg(o.detailed_exitcode, "-detailed-exitcode"@), x);
    let s = s + flag_arg(o.detailed_exitcode, "-detailed-exitcode"@);
    lemma_contains_append(s, flag_arg(o.json, "-json"@), x);
    let s = s + flag_arg(o.json, "-json"@);
    lemma_contains_append(s, o.raw_args, x);
    let s = s + o.raw_args;
}

proof fn lemma_plan_args_part_3(o: PlanOptions, x: Seq<char>)
    requires
        (opt_prefixed("-out="@, o.out)).contains(x),
    ensures
        o.args().contains(x),
{
    lemma_contains_prepend(seq!["plan"@] + each_pair("-var="@, o.vars) + each_prefixed("-var-file="@, o.var_files), opt_prefixed("-out="@, o.out), x);
    let s = seq!["plan"@] + each_pair("-var="@, o.vars) + each_prefixed("-var-file="@, o.var_files) + opt_prefixed("-out="@, o.out);
    lemma_contains_append(s, each_prefixed("-target="@, o.targets), x);
    let s = s + each_prefixed("-target="@, o.targets);
    lemma_contains_append(s, each_prefixed("-replace="@, o.replace), x);
    let s = s + each_prefixed("-replace="@, o.replace);
    lemma_contains_append(s, flag_arg(o.destroy, "-destroy"@), x);
    let s = s + flag_arg(o.destroy, "-destroy"@);
    lemma_contains_append(s, flag_arg(o.refresh_only, "-refresh-only"@), x);
    let s = s + flag_arg(o.refresh_only, "-refresh-only"@);
    lemma_contains_append(s, opt_bool("-lock="@, o.lock), x);
    let s = s + opt_bool("-lock="@, o.lock);
    lemma_contains_append(s, opt_prefixed("-lock-timeout="@, o.lock_timeout), x);
    let s = s + opt_prefixed("-lock-timeout="@, o.lock_timeout);
    lemma_contains_append(s, opt_count("-parallelism="@, o.parallelism), x);
    let s = s + opt_count("-parallelism="@, o.parallelism);
    lemma_contains_append(s, flag_arg(o.detailed_exitcode, "-detailed-exitcode"@), x);
    let s = s + flag_arg(o.detailed_exitcode, "-detailed-exitcode"@);
    lemma_contains_append(s, flag_arg(o.json, "-json"@), x);
    let s = s + flag_arg(o.json, "-json"@);
    lemma_contains_append(s, o.raw_args, x);
    let s = s + o.raw_args;
}

proof fn lemma_plan_args_part_4(o: PlanOptions, x: Seq<char>)
    requires
        (each_prefixed("-target="@, o.targets)).contains(x),
    ensures
        o.args().contains(x),
{
    lemma_contains_prepend(seq!["plan"@] + each_pair("-var="@, o.vars) + each_prefixed("-var-file="@, o.var_files) + opt_prefixed("-out="@, o.out), each_prefixed("-target="@, o.targets), x);
    let s = seq!["plan"@] + each_pair("-var="@, o.vars) + each_prefixed("-var-file="@, o.var_files) + opt_prefixed("-out="@, o.out) + each_prefixed("-target="@, o.targets);
    lemma_contains_append(s, each_prefixed("-replace="@, o.replace), x);
    let s = s + each_prefixed("-replace="@, o.replace);
    lemma_contains_append(s, flag_arg(o.destroy, "-destroy"@), x);
    let s = s + flag_arg(o.destroy, "-destroy"@);
    lemma_contains_append(s, flag_arg(o.refresh_only, "-refresh-only"@), x);
    let s = s + flag_arg(o.refresh_only, "-refresh-only"@);
    lemma_contains_append(s, opt_bool("-lock="@, o.lock), x);
    let s = s + opt_bool("-lock="@, o.lock);
    lemma_contains_append(s, opt_prefixed("-lock-timeout="@, o.lock_timeout), x);
    let s = s + opt_prefixed("-lock-timeout="@, o.lock_timeout);
    lemma_contains_append(s, opt_count("-parallelism="@, o.parallelism), x);
    let s = s + opt_count("-parallelism="@, o.parallelism);
    lemma_contains_append(s, flag_arg(o.detailed_exitcode, "-detailed-exitcode"@), x);
    let s = s + flag_arg(o.detailed_exitcode, "-detailed-exitcode"@);
    lemma_contains_append(s, flag_arg(o.json, "-json"@), x);
    let s = s + flag_arg(o.json, "-json"@);
    lemma_contains_append(s, o.raw_args, x);
    let s = s + o.raw_args;
}

proof fn lemma_plan_args_part_5(o: PlanOptions, x: Seq<char>)
    requires
        (each_prefixed("-replace="@, o.replace)).contains(x),
    ensures
        o.args().contains(x),
{
    lemma_contains_prepend(seq!["plan"@] + each_pair("-var="@, o.vars) + each_prefixed("-var-file="@, o.var_files) + opt_prefixed("-out="@, o.out) + each_prefixed("-target="@, o.targets), each_prefixed("-replace="@, o.replace), x);
    let s = seq!["plan"@] + each_pair("-var="@, o.vars) + each_prefixed("-var-file="@, o.var_files) + opt_prefixed("-out="@, o.out) + each_prefixed("-target="@, o.targets) + each_prefixed("-replace="@, o.replace);
    lemma_contains_append(s, flag_arg(o.destroy, "-destroy"@), x);
    let s = s + flag_arg(o.destroy, "-destroy"@);
    lemma_contains_append(s, flag_arg(o.refresh_only, "-refresh-only"@), x);
    let s = s + flag_arg(o.refresh_only, "-refresh-only"@);
    lemma_contains_append(s, opt_bool("-lock="@, o.lock), x);
    let s = s + opt_bool("-lock="@, o.lock);
    lemma_contains_append(s, opt_prefixed("-lock-timeout="@, o.lock_timeout), x);
    let s = s + opt_prefixed("-lock-timeout="@, o.lock_timeout);
    lemma_contains_append(s, opt_count("-parallelism="@, o.parallelism), x);
    let s = s + opt_count("-parallelism="@, o.parallelism);
    lemma_contains_append(s, flag_arg(o.detailed_exitcode, "-detailed-exitcode"@), x);
    let s = s + flag_arg(o.detailed_exitcode, "-detailed-exitcode"@);
    lemma_contains_append(s, flag_arg(o.json, "-json"@), x);
    let s = s + flag_arg(o.json, "-json"@);
    lemma_contains_append(s, o.raw_args, x);
    let s = s + o.raw_args;
}

proof fn lemma_plan_args_part_6(o: PlanOptions, x: Seq<char>)
    requires
        (flag_arg(o.destroy, "-destroy"@)).contains(x),
    ensures
        o.args().contains(x),
{
    lemma_contains_prepend(seq!["plan"@] + each_pair("-var="@, o.vars) + each_prefixed("-var-file="@, o.var_files) + opt_prefixed("-out="@, o.out) + each_prefixed("-target="@, o.targets) + each_prefixed("-replace="@, o.replace), flag_arg(o.destroy, "-destroy"@), x);
    let s = seq!["plan"@] + each_pair("-var="@, o.vars) + each_prefixed("-var-file="@, o.var_files) + opt_prefixed("-out="@, o.out) + each_prefixed("-target="@, o.targets) + each_prefixed("-replace="@, o.replace) + flag_arg(o.destroy, "-destroy"@);
    lemma_contains_append(s, flag_arg(o.refresh_only, "-refresh-only"@), x);
    let s = s + flag_arg(o.refresh_only, "-refresh-only"@);
    lemma_contains_append(s, opt_bool("-lock="@, o.lock), x);
    let s = s + opt_bool("-lock="@, o.lock);
    lemma_contains_append(s, opt_prefixed("-lock-timeout="@, o.lock_timeout), x);
    let s = s + opt_prefixed("-lock-timeout="@, o.lock_timeout);
    lemma_contains_append(s, opt_count("-parallelism="@, o.parallelism), x);
    let s = s + opt_count("-parallelism="@, o.parallelism);
    lemma_contains_append(s, flag_arg(o.detailed_exitcode, "-detailed-exitcode"@), x);
    let s = s + flag_arg(o.detailed_exitcode, "-detailed-exitcode"@);
    lemma_contains_append(s, flag_arg(o.json, "-json"@), x);
    let s = s + flag_arg(o.json, "-json"@);
    lemma_contains_append(s, o.raw_args, x);
    let s = s + o.raw_args;
}

proof fn lemma_plan_args_part_7(o: PlanOptions, x: Seq<char>)
    requires
        (flag_arg(o.refresh_only, "-refresh-only"@)).contains(x),
    ensures
        o.args().contains(x),
{
    lemma_contains_prepend(seq!["plan"@] + each_pair("-var="@, o.vars) + each_prefixed("-var-file="@, o.var_files) + opt_prefixed("-out="@, o.out) + each_prefixed("-target="@, o.targets) + each_prefixed("-replace="@, o.replace) + flag_arg(o.destroy, "-destroy"@), flag_arg(o.refresh_only, "-refresh-only"@), x);
    let s = seq!["plan"@] + each_pair("-var="@, o.vars) + each_prefixed("-var-file="@, o.var_files) + opt_prefixed("-out="@, o.out) + each_prefixed("-target="@, o.targets) + each_prefixed("-replace="@, o.replace) + flag_arg(o.destroy, "-destroy"@) + flag_arg(o.refresh_only, "-refresh-only"@);
    lemma_contains_append(s, opt_bool("-lock="@, o.lock), x);
    let s = s + opt_bool("-lock="@, o.lock);
    lemma_contains_append(s, opt_prefixed("-lock-timeout="@, o.lock_timeout), x);
    let s = s + opt_prefixed("-lock-timeout="@, o.lock_timeout);
    lemma_contains_append(s, opt_count("-parallelism="@, o.parallelism), x);
    let s = s + opt_count("-parallelism="@, o.parallelism);
    lemma_contains_append(s, flag_arg(o.detailed_exitcode, "-detailed-exitcode"@), x);
    let s = s + flag_arg(o.detailed_exitcode, "-detailed-exitcode"@);
    lemma_contains_append(s, flag_arg(o.json, "-json"@), x);
    let s = s + flag_arg(o.json, "-json"@);
    lemma_contains_append(s, o.raw_args, x);
    let s = s + o.raw_args;
}

proof fn lemma_plan_args_part_8(o: PlanOptions, x: Seq<char>)
    requires
        (opt_bool("-lock="@, o.lock)).contains(x),
    ensures
        o.args().contains(x),
{
    lemma_contains_prepend(seq!["plan"@] + each_pair("-var="@, o.vars) + each_prefixed("-var-file="@, o.var_files) + opt_prefixed("-out="@, o.out) + each_prefixed("-target="@, o.targets) + each_prefixed("-replace="@, o.replace) + flag_arg(o.destroy, "-destroy"@) + flag_arg(o.refresh_only, "-refresh-only"@), opt_bool("-lock="@, o.lock), x);
    let s = seq!["plan"@] + each_pair("-var="@, o.vars) + each_prefixed("-var-file="@, o.var_files) + opt_prefixed("-out="@, o.out) + each_prefixed("-target="@, o.targets) + each_prefixed("-replace="@, o.replace) + flag_arg(o.destroy, "-destroy"@) + flag_arg(o.refresh_only, "-refresh-only"@) + opt_bool("-lock="@, o.lock);
    lemma_contains_append(s, opt_prefixed("-lock-timeout="@, o.lock_timeout), x);
    let s = s + opt_prefixed("-lock-timeout="@, o.lock_timeout);
    lemma_contains_append(s, opt_count("-parallelism="@, o.parallelism), x);
    let s = s + opt_count("-parallelism="@, o.parallelism);
    lemma_contains_append(s, flag_arg(o.detailed_exitcode, "-detailed-exitcode"@), x);
    let s = s + flag_arg(o.detailed_exitcode, "-detailed-exitcode"@);
    lemma_contains_append(s, flag_arg(o.json, "-json"@), x);
    let s = s + flag_arg(o.json, "-json"@);
    lemma_contains_append(s, o.raw_args, x);
    let s = s + o.raw_args;
}

proof fn lemma_plan_args_part_9(o: PlanOptions, x: Seq<char>)
    requires
        (opt_prefixed("-lock-timeout="@, o.lock_timeout)).contains(x),
    ensures
        o.args().contains(x),
{
    lemma_contains_prepend(seq!["plan"@] + each_pair("-var="@, o.vars) + each_prefixed("-var-file="@, o.var_files) + opt_prefixed("-out="@, o.out) + each_prefixed("-target="@, o.targets) + each_prefixed("-replace="@, o.replace) + flag_arg(o.destroy, "-destroy"@) + flag_arg(o.refresh_only, "-refresh-only"@) + opt_bool("-lock="@, o.lock), opt_prefixed("-lock-timeout="@, o.lock_timeout), x);
    let s = seq!["plan"@] + each_pair("-var="@, o.vars) + each_prefixed("-var-file="@, o.var_files) + opt_prefixed("-out="@, o.out) + each_prefixed("-target="@, o.targets) + each_prefixed("-replace="@, o.replace) + flag_arg(o.destroy, "-destroy"@) + flag_arg(o.refresh_only, "-refresh-only"@) + opt_bool("-lock="@, o.lock) + opt_prefixed("-lock-timeout="@, o.lock_timeout);
    lemma_contains_append(s, opt_count("-parallelism="@, o.parallelism), x);
    let s = s + opt_count("-parallelism="@, o.parallelism);
    lemma_contains_append(s, flag_arg(o.detailed_exitcode, "-detailed-exitcode"@), x);
    let s = s + flag_arg(o.detailed_exitcode, "-detailed-exitcode"@);
    lemma_contains_append(s, flag_arg(o.json, "-json"@), x);
    let s = s + flag_arg(o.json, "-json"@);
    lemma_contains_append(s, o.raw_args, x);
    let s = s + o.raw_args;
}

proof fn lemma_plan_args_part_10(o: PlanOptions, x: Seq<char>)
    requires
        (opt_count("-parallelism="@, o.parallelism)).contains(x),
    ensures
        o.args().contains(x),
{
    lemma_contains_prepend(seq!["plan"@] + each_pair("-var="@, o.vars) + each_prefixed("-var-file="@, o.var_files) + opt_prefixed("-out="@, o.out) + each_prefixed("-target="@, o.targets) + each_prefixed("-replace="@, o.replace) + flag_arg(o.destroy, "-destroy"@) + flag_arg(o.refresh_only, "-refresh-only"@) + opt_bool("-lock="@, o.lock) + opt_prefixed("-lock-timeout="@, o.lock_timeout), opt_count("-parallelism="@, o.parallelism), x);
    let s = seq!["plan"@] + each_pair("-var="@, o.vars) + each_prefixed("-var-file="@, o.var_files) + opt_prefixed("-out="@, o.out) + each_prefixed("-target="@, o.targets) + each_prefixed("-replace="@, o.replace) + flag_arg(o.destroy, "-destroy"@) + flag_arg(o.refresh_only, "-refresh-only"@) + opt_bool("-lock="@, o.lock) + opt_prefixed("-lock-timeout="@, o.lock_timeout) + opt_count("-parallelism="@, o.parallelism);
    lemma_contains_append(s, flag_arg(o.detailed_exitcode, "-detailed-exitcode"@), x);
    let s = s + flag_arg(o.detailed_exitcode, "-detailed-exitcode"@);
    lemma_contains_append(s, flag_arg(o.json, "-json"@), x);
    let s = s + flag_arg(o.json, "-json"@);
    lemma_contains_append(s, o.raw_args, x);
    let s = s + o.raw_args;
}

proof fn lemma_plan_args_part_11(o: PlanOptions, x: Seq<char>)
    requires
        (flag_arg(o.detailed_exitcode, "-detailed-exitcode"@)).contains(x),
    ensures
        o.args().contains(x),
{
    lemma_contains_prepend(seq!["plan"@] + each_pair("-var="@, o.vars) + each_prefixed("-var-file="@, o.var_files) + opt_prefixed("-out="@, o.out) + each_prefixed("-target="@, o.targets) + each_prefixed("-replace="@, o.replace) + flag_arg(o.destroy, "-destroy"@) + flag_arg(o.refresh_only, "-refresh-only"@) + opt_bool("-lock="@, o.lock) + opt_prefixed("-lock-timeout="@, o.lock_timeout) + opt_count("-parallelism="@, o.parallelism), flag_arg(o.detailed_exitcode, "-detailed-exitcode"@), x);
    let s = seq!["plan"@] + each_pair("-var="@, o.vars) + each_prefixed("-var-file="@, o.var_files) + opt_prefixed("-out="@, o.out) + each_prefixed("-target="@, o.targets) + each_prefixed("-replace="@, o.replace) + flag_arg(o.destroy, "-destroy"@) + flag_arg(o.refresh_only, "-refresh-only"@) + opt_bool("-lock="@, o.lock) + opt_prefixed("-lock-timeout="@, o.lock_timeout) + opt_count("-parallelism="@, o.parallelism) + flag_arg(o.detailed_exitcode, "-detailed-exitcode"@);
    lemma_contains_append(s, flag_arg(o.json, "-json"@), x);
    let s = s + flag_arg(o.json, "-json"@);
    lemma_contains_append(s, o.raw_args, x);
    let s = s + o.raw_args;
}

proof fn lemma_plan_args_part_12(o: PlanOptions, x: Seq<char>)
    requires
        (flag_arg(o.json, "-json"@)).contains(x),
    ensures
        o.args().contains(x),
{
    lemma_contains_prepend(seq!["plan"@] + each_pair("-var="@, o.vars) + each_prefixed("-var-file="@, o.var_files) + opt_prefixed("-out="@, o.out) + each_prefixed("-target="@, o.targets) + each_prefixed("-replace="@, o.replace) + flag_arg(o.destroy, "-destroy"@) + flag_arg(o.refresh_only, "-refresh-only"@) + opt_bool("-lock="@, o.lock) + opt_prefixed("-lock-timeout="@, o.lock_timeout) + opt_count("-parallelism="@, o.parallelism) + flag_arg(o.detailed_exitcode, "-detailed-exitcode"@), flag_arg(o.json, "-json"@), x);
    let s = seq!["plan"@] + each_pair("-var="@, o.vars) + each_prefixed("-var-file="@, o.var_files) + opt_prefixed("-out="@, o.out) + each_prefixed("-target="@, o.targets) + each_prefixed("-replace="@, o.replace) + flag_arg(o.destroy, "-destroy"@) + flag_arg(o.refresh_only, "-refresh-only"@) + opt_bool("-lock="@, o.lock) + opt_prefixed("-lock-timeout="@, o.lock_timeout) + opt_count("-parallelism="@, o.parallelism) + flag_arg(o.detailed_exitcode, "-detailed-exitcode"@) + flag_arg(o.json, "-json"@);
    lemma_contains_append(s, o.raw_args, x);
    let s = s + o.raw_args;
}

proof fn lemma_plan_args_part_13(o: PlanOptions, x: Seq<char>)
    requires
        (o.raw_args).contains(x),
    ensures
        o.args().contains(x),
{
    lemma_contains_prepend(seq!["plan"@] + each_pair("-var="@, o.vars) + each_prefixed("-var-file="@, o.var_files) + opt_prefixed("-out="@, o.out) + each_prefixed("-target="@, o.targets) + each_prefixed("-replace="@, o.replace) + flag_arg(o.destroy, "-destroy"@) + flag_arg(o.refresh_only, "-refresh-only"@) + opt_bool("-lock="@, o.lock) + opt_prefixed("-lock-timeout="@, o.lock_timeout) + opt_count("-parallelism="@, o.parallelism) + flag_arg(o.detailed_exitcode, "-detailed-exitcode"@) + flag_arg(o.json, "-json"@), o.raw_args, x);
    let s = seq!["plan"@] + each_pair("-var="@, o.vars) + each_prefixed("-var-file="@, o.var_files) + opt_prefixed("-out="@, o.out) + each_prefixed("-target="@, o.targets) + each_prefixed("-replace="@, o.replace) + flag_arg(o.destroy, "-destroy"@) + flag_arg(o.refresh_only, "-refresh-only"@) + opt_bool("-lock="@, o.lock) + opt_prefixed("-lock-timeout="@, o.lock_timeout) + opt_count("-parallelism="@, o.parallelism) + flag_arg(o.detailed_exitcode, "-detailed-exitcode"@) + flag_arg(o.json, "-json"@) + o.raw_args;
}

} // verus!
