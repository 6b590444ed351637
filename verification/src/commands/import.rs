//! `terraform import`.
use vstd::prelude::*;

use crate::command::TerraformCommand;
use crate::text::{
    each_pair, each_prefixed, lemma_contains_append, lemma_contains_prepend, opt_bool, opt_prefixed, push_all, push_opt, push_opt_bool, push_pair, push_pairs, push_prefixed, push_str,
};

verus! {

/// The options of an [`ImportCommand`], as plain values.
#[verifier::ext_equal]
pub struct ImportOptions {
    pub address: Seq<char>,
    pub id: Seq<char>,
    pub vars: Seq<(Seq<char>, Seq<char>)>,
    pub var_files: Seq<Seq<char>>,
    pub lock: Option<bool>,
    pub lock_timeout: Option<Seq<char>>,
    pub raw_args: Seq<Seq<char>>,
}

impl ImportOptions {
    /// The options of a fresh command for the given positional values.
    pub open spec fn initial(address: Seq<char>, id: Seq<char>) -> Self {
        ImportOptions {
            address: address,
            id: id,
            vars: seq![],
            var_files: seq![],
            lock: None,
            lock_timeout: None,
            raw_args: seq![],
        }
    }

    /// `import`, its flags in a fixed order, the raw arguments, then the address and the id.
    pub open spec fn args(self) -> Seq<Seq<char>> {
        seq!["import"@]
            + each_pair("-var="@, self.vars)
            + each_prefixed("-var-file="@, self.var_files)
            + opt_bool("-lock="@, self.lock)
            + opt_prefixed("-lock-timeout="@, self.lock_timeout)
            + self.raw_args
            + seq![self.address]
            + seq![self.id]
    }
}

/// Command for importing existing infrastructure into Terraform state.
///
/// Associates an existing resource with a Terraform resource address.
#[derive(Debug, Clone)]
pub struct ImportCommand {
    address: String,
    id: String,
    vars: Vec<(String, String)>,
    var_files: Vec<String>,
    lock: Option<bool>,
    lock_timeout: Option<String>,
    raw_args: Vec<String>,
}

impl View for ImportCommand {
    type V = ImportOptions;

    closed spec fn view(&self) -> ImportOptions {
        ImportOptions {
            address: self.address@,
            id: self.id@,
            vars: self.vars.deep_view(),
            var_files: self.var_files.deep_view(),
            lock: self.lock,
            lock_timeout: self.lock_timeout.deep_view(),
            raw_args: self.raw_args.deep_view(),
        }
    }
}

impl ImportCommand {
    /// Create a new import command.
    ///
    /// - `address`: The Terraform resource address (e.g., "aws_instance.web")
    /// - `id`: The provider-specific resource ID (e.g., "i-1234567890abcdef0")
    pub fn new(address: &str, id: &str) -> (r: Self)
        ensures
            r@ == ImportOptions::initial(address@, id@),
    {
        let r = ImportCommand {
            address: String::from_str(address),
            id: String::from_str(id),
            vars: Vec::new(),
            var_files: Vec::new(),
            lock: None,
            lock_timeout: None,
            raw_args: Vec::new(),
        };
        assert(r@ =~= ImportOptions::initial(address@, id@));
        r
    }

    /// Set a variable value (`-var="name=value"`).
    pub fn var(self, name: &str, value: &str) -> (r: Self)
        ensures
            r@ == (ImportOptions { vars: self@.vars.push((name@, value@)), ..self@ }),
    {
        let mut s = self;
        push_pair(&mut s.vars, name, value);
        s
    }

    /// Add a variable definitions file (`-var-file`).
    pub fn var_file(self, path: &str) -> (r: Self)
        ensures
            r@ == (ImportOptions { var_files: self@.var_files.push(path@), ..self@ }),
    {
        let mut s = self;
        push_str(&mut s.var_files, path);
        s
    }

    /// Enable or disable state locking (`-lock`).
    pub fn lock(self, enabled: bool) -> (r: Self)
        ensures
            r@ == (ImportOptions { lock: Some(enabled), ..self@ }),
    {
        ImportCommand { lock: Some(enabled), ..self }
    }

    /// Duration to wait for state lock (`-lock-timeout`).
    pub fn lock_timeout(self, timeout: &str) -> (r: Self)
        ensures
            r@ == (ImportOptions { lock_timeout: Some(timeout@), ..self@ }),
    {
        ImportCommand { lock_timeout: Some(String::from_str(timeout)), ..self }
    }

    /// Add a raw argument (escape hatch for unsupported options).
    pub fn arg(self, arg: &str) -> (r: Self)
        ensures
            r@ == (ImportOptions { raw_args: self@.raw_args.push(arg@), ..self@ }),
    {
        let mut s = self;
        push_str(&mut s.raw_args, arg);
        s
    }
}

impl TerraformCommand for ImportCommand {
    open spec fn spec_args(&self) -> Seq<Seq<char>> {
        self@.args()
    }

    open spec fn spec_supports_input(&self) -> bool {
        true
    }

    fn args(&self) -> (r: Vec<String>) {
        let mut args: Vec<String> = Vec::new();
        push_str(&mut args, "import");
        assert(args.deep_view() =~= seq!["import"@]);
        push_pairs(&mut args, "-var=", &self.vars);
        push_prefixed(&mut args, "-var-file=", &self.var_files);
        push_opt_bool(&mut args, "-lock=", self.lock);
        push_opt(&mut args, "-lock-timeout=", &self.lock_timeout);
        push_all(&mut args, &self.raw_args);
        push_str(&mut args, self.address.as_str());
        push_str(&mut args, self.id.as_str());
        assert(args.deep_view().len() == args@.len());
        args
    }

    fn supports_input(&self) -> (b: bool) {
        true
    }
}

/// `import` comes first, and the address and the id are the last two
/// arguments.
pub proof fn law_import_layout(o: ImportOptions)
    ensures
        o.args()[0] == "import"@,
        o.args()[o.args().len() - 2] == o.address,
        o.args().last() == o.id,
{
}

/// Every option set on the command reaches its arguments as the one
/// argument Terraform expects for it, the subcommand comes first, and there
/// is one argument per option set and nothing more.
pub proof fn law_import_arguments(o: ImportOptions)
    ensures
        o.args()[0] == "import"@,
        o.args().len() == 1 + o.vars.len() + o.var_files.len() + (if o.lock is Some { 1int } else { 0int }) + (if o.lock_timeout is Some { 1int } else { 0int }) + o.raw_args.len() + 1 + 1,
        forall|i: int| 0 <= i < o.vars.len() ==> o.args().contains("-var="@ + (#[trigger] o.vars[i]).0 + "="@ + o.vars[i].1),
        forall|i: int| 0 <= i < o.var_files.len() ==> o.args().contains("-var-file="@ + #[trigger] o.var_files[i]),
        o.lock == Some(true) ==> o.args().contains("-lock="@ + "true"@),
        o.lock == Some(false) ==> o.args().contains("-lock="@ + "false"@),
        o.lock_timeout is Some ==> o.args().contains("-lock-timeout="@ + o.lock_timeout.unwrap()),
        forall|i: int| 0 <= i < o.raw_args.len() ==> o.args().contains(#[trigger] o.raw_args[i]),
        o.args().contains(o.address),
        o.args().contains(o.id),
{
    lemma_import_args_first(o);
    lemma_import_args_len(o);
    lemma_import_args_has_0(o);
    lemma_import_args_has_1(o);
    lemma_import_args_has_2(o);
    lemma_import_args_has_3(o);
    lemma_import_args_has_4(o);
    lemma_import_args_has_5(o);
    lemma_import_args_has_6(o);
    lemma_import_args_has_7(o);
}

proof fn lemma_import_args_len(o: ImportOptions)
    ensures
        o.args().len() == 1 + o.vars.len() + o.var_files.len() + (if o.lock is Some { 1int } else { 0int }) + (if o.lock_timeout is Some { 1int } else { 0int }) + o.raw_args.len() + 1 + 1,
{
    assert((seq!["import"@]).len() == 1);
    assert((each_pair("-var="@, o.vars)).len() == o.vars.len());
    assert((each_prefixed("-var-file="@, o.var_files)).len() == o.var_files.len());
    assert((opt_bool("-lock="@, o.lock)).len() == (if o.lock is Some { 1int } else { 0int }));
    assert((opt_prefixed("-lock-timeout="@, o.lock_timeout)).len() == (if o.lock_timeout is Some { 1int } else { 0int }));
    assert((o.raw_args).len() == o.raw_args.len());
    assert((seq![o.address]).len() == 1);
    assert((seq![o.id]).len() == 1);
}

proof fn lemma_import_args_first(o: ImportOptions)
    ensures
        o.args()[0] == "import"@,
{
}

proof fn lemma_import_args_has_0(o: ImportOptions)
    ensures
        forall|i: int| 0 <= i < o.vars.len() ==> o.args().contains("-var="@ + (#[trigger] o.vars[i]).0 + "="@ + o.vars[i].1),
{
    assert forall|i: int| 0 <= i < o.vars.len() implies o.args().contains("-var="@ + (#[trigger] o.vars[i]).0 + "="@ + o.vars[i].1) by {
        assert(each_pair("-var="@, o.vars)[i] == "-var="@ + o.vars[i].0 + "="@ + o.vars[i].1);
        lemma_import_args_part_1(o, "-var="@ + o.vars[i].0 + "="@ + o.vars[i].1);
    }
}

proof fn lemma_import_args_has_1(o: ImportOptions)
    ensures
        forall|i: int| 0 <= i < o.var_files.len() ==> o.args().contains("-var-file="@ + #[trigger] o.var_files[i]),
{
    assert forall|i: int| 0 <= i < o.var_files.len() implies o.args().contains("-var-file="@ + #[trigger] o.var_files[i]) by {
        assert(each_prefixed("-var-file="@, o.var_files)[i] == "-var-file="@ + o.var_files[i]);
        lemma_import_args_part_2(o, "-var-file="@ + o.var_files[i]);
    }
}

proof fn lemma_import_args_has_2(o: ImportOptions)
    ensures
        o.lock == Some(true) ==> o.args().contains("-lock="@ + "true"@),
{
    if o.lock == Some(true) {
        assert(opt_bool("-lock="@, o.lock)[0] == "-lock="@ + "true"@);
        lemma_import_args_part_3(o, "-lock="@ + "true"@);
    }
}

proof fn lemma_import_args_has_3(o: ImportOptions)
    ensures
        o.lock == Some(false) ==> o.args().contains("-lock="@ + "false"@),
{
    if o.lock == Some(false) {
        assert(opt_bool("-lock="@, o.lock)[0] == "-lock="@ + "false"@);
        lemma_import_args_part_3(o, "-lock="@ + "false"@);
    }
}

proof fn lemma_import_args_has_4(o: ImportOptions)
    ensures
        o.lock_timeout is Some ==> o.args().contains("-lock-timeout="@ + o.lock_timeout.unwrap()),
{
    if o.lock_timeout is Some {
        assert(opt_prefixed("-lock-timeout="@, o.lock_timeout)[0] == "-lock-timeout="@ + o.lock_timeout.unwrap());
        lemma_import_args_part_4(o, "-lock-timeout="@ + o.lock_timeout.unwrap());
    }
}

proof fn lemma_import_args_has_5(o: ImportOptions)
    ensures
        forall|i: int| 0 <= i < o.raw_args.len() ==> o.args().contains(#[trigger] o.raw_args[i]),
{
    assert forall|i: int| 0 <= i < o.raw_args.len() implies o.args().contains(#[trigger] o.raw_args[i]) by {
        assert(o.raw_args[i] == o.raw_args[i]);
        lemma_import_args_part_5(o, o.raw_args[i]);
    }
}

proof fn lemma_import_args_has_6(o: ImportOptions)
    ensures
        o.args().contains(o.address),
{
    assert(seq![o.address][0] == o.address);
    lemma_import_args_part_6(o, o.address);
}

proof fn lemma_import_args_has_7(o: ImportOptions)
    ensures
        o.args().contains(o.id),
{
    assert(seq![o.id][0] == o.id);
    lemma_import_args_part_7(o, o.id);
}

proof fn lemma_import_args_part_1(o: ImportOptions, x: Seq<char>)
    requires
        (each_pair("-var="@, o.vars)).contains(x),
    ensures
        o.args().contains(x),
{
    lemma_contains_prepend(seq!["import"@], each_pair("-var="@, o.vars), x);
    let s = seq!["import"@] + each_pair("-var="@, o.vars);
    lemma_contains_append(s, each_prefixed("-var-file="@, o.var_files), x);
    let s = s + each_prefixed("-var-file="@, o.var_files);
    lemma_contains_append(s, opt_bool("-lock="@, o.lock), x);
    let s = s + opt_bool("-lock="@, o.lock);
    lemma_contains_append(s, opt_prefixed("-lock-timeout="@, o.lock_timeout), x);
    let s = s + opt_prefixed("-lock-timeout="@, o.lock_timeout);
    lemma_contains_append(s, o.raw_args, x);
    let s = s + o.raw_args;
    lemma_contains_append(s, seq![o.address], x);
    let s = s + seq![o.address];
    lemma_contains_append(s, seq![o.id], x);
    let s = s + seq![o.id];
}

proof fn lemma_import_args_part_2(o: ImportOptions, x: Seq<char>)
    requires
        (each_prefixed("-var-file="@, o.var_files)).contains(x),
    ensures
        o.args().contains(x),
{
    lemma_contains_prepend(seq!["import"@] + each_pair("-var="@, o.vars), each_prefixed("-var-file="@, o.var_files), x);
    let s = seq!["import"@] + each_pair("-var="@, o.vars) + each_prefixed("-var-file="@, o.var_files);
    lemma_contains_append(s, opt_bool("-lock="@, o.lock), x);
    let s = s + opt_bool("-lock="@, o.lock);
    lemma_contains_append(s, opt_prefixed("-lock-timeout="@, o.lock_timeout), x);
    let s = s + opt_prefixed("-lock-timeout="@, o.lock_timeout);
    lemma_contains_append(s, o.raw_args, x);
    let s = s + o.raw_args;
    lemma_contains_append(s, seq![o.address], x);
    let s = s + seq![o.address];
    lemma_contains_append(s, seq![o.id], x);
    let s = s + seq![o.id];
}

proof fn lemma_import_args_part_3(o: ImportOptions, x: Seq<char>)
    requires
        (opt_bool("-lock="@, o.lock)).contains(x),
    ensures
        o.args().contains(x),
{
    lemma_contains_prepend(seq!["import"@] + each_pair("-var="@, o.vars) + each_prefixed("-var-file="@, o.var_files), opt_bool("-lock="@, o.lock), x);
    let s = seq!["import"@] + each_pair("-var="@, o.vars) + each_prefixed("-var-file="@, o.var_files) + opt_bool("-lock="@, o.lock);
    lemma_contains_append(s, opt_prefixed("-lock-timeout="@, o.lock_timeout), x);
    let s = s + opt_prefixed("-lock-timeout="@, o.lock_timeout);
    lemma_contains_append(s, o.raw_args, x);
    let s = s + o.raw_args;
    lemma_contains_append(s, seq![o.address], x);
    let s = s + seq![o.address];
    lemma_contains_append(s, seq![o.id], x);
    let s = s + seq![o.id];
}

proof fn lemma_import_args_part_4(o: ImportOptions, x: Seq<char>)
    requires
        (opt_prefixed("-lock-timeout="@, o.lock_timeout)).contains(x),
    ensures
        o.args().contains(x),
{
    lemma_contains_prepend(seq!["import"@] + each_pair("-var="@, o.vars) + each_prefixed("-var-file="@, o.var_files) + opt_bool("-lock="@, o.lock), opt_prefixed("-lock-timeout="@, o.lock_timeout), x);
    let s = seq!["import"@] + each_pair("-var="@, o.vars) + each_prefixed("-var-file="@, o.var_files) + opt_bool("-lock="@, o.lock) + opt_prefixed("-lock-timeout="@, o.lock_timeout);
    lemma_contains_append(s, o.raw_args, x);
    let s = s + o.raw_args;
    lemma_contains_append(s, seq![o.address], x);
    let s = s + seq![o.address];
    lemma_contains_append(s, seq![o.id], x);
    let s = s + seq![o.id];
}

proof fn lemma_import_args_part_5(o: ImportOptions, x: Seq<char>)
    requires
        (o.raw_args).contains(x),
    ensures
        o.args().contains(x),
{
    lemma_contains_prepend(seq!["import"@] + each_pair("-var="@, o.vars) + each_prefixed("-var-file="@, o.var_files) + opt_bool("-lock="@, o.lock) + opt_prefixed("-lock-timeout="@, o.lock_timeout), o.raw_args, x);
    let s = seq!["import"@] + each_pair("-var="@, o.vars) + each_prefixed("-var-file="@, o.var_files) + opt_bool("-lock="@, o.lock) + opt_prefixed("-lock-timeout="@, o.lock_timeout) + o.raw_args;
    lemma_contains_append(s, seq![o.address], x);
    let s = s + seq![o.address];
    lemma_contains_append(s, seq![o.id], x);
    let s = s + seq![o.id];
}

proof fn lemma_import_args_part_6(o: ImportOptions, x: Seq<char>)
    requires
        (seq![o.address]).contains(x),
    ensures
        o.args().contains(x),
{
    lemma_contains_prepend(seq!["import"@] + each_pair("-var="@, o.vars) + each_prefixed("-var-file="@, o.var_files) + opt_bool("-lock="@, o.lock) + opt_prefixed("-lock-timeout="@, o.lock_timeout) + o.raw_args, seq![o.address], x);
    let s = seq!["import"@] + each_pair("-var="@, o.vars) + each_prefixed("-var-file="@, o.var_files) + opt_bool("-lock="@, o.lock) + opt_prefixed("-lock-timeout="@, o.lock_timeout) + o.raw_args + seq![o.address];
    lemma_contains_append(s, seq![o.id], x);
    let s = s + seq![o.id];
}

proof fn lemma_import_args_part_7(o: ImportOptions, x: Seq<char>)
    requires
        (seq![o.id]).contains(x),
    ensures
        o.args().contains(x),
{
    lemma_contains_prepend(seq!["import"@] + each_pair("-var="@, o.vars) + each_prefixed("-var-file="@, o.var_files) + opt_bool("-lock="@, o.lock) + opt_prefixed("-lock-timeout="@, o.lock_timeout) + o.raw_args + seq![o.address], seq![o.id], x);
    let s = seq!["import"@] + each_pair("-var="@, o.vars) + each_prefixed("-var-file="@, o.var_files) + opt_bool("-lock="@, o.lock) + opt_prefixed("-lock-timeout="@, o.lock_timeout) + o.raw_args + seq![o.address] + seq![o.id];
}

} // verus!
