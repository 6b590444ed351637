//! The Terraform client configuration and its builder.
use vstd::prelude::*;
use std::time::Duration;

use crate::error::Error;
use crate::keyed::{distinct_keys, lemma_upsert_is_insert, pairs_map, set_deep, upsert};
use crate::exec::Invocation;
use crate::text::{copy_strings, flag_arg, opt_prefixed, push_all, push_flag, push_from, push_opt, push_str};

verus! {

/// A copy of a list of pairs.
fn copy_pairs(pairs: &Vec<(String, String)>) -> (r: Vec<(String, String)>)
    ensures
        r.deep_view() == pairs.deep_view(),
{
    let mut r: Vec<(String, String)> = Vec::new();
    let mut i: usize = 0;
    while i < pairs.len()
        invariant
            i <= pairs.len(),
            r.deep_view() == pairs.deep_view().take(i as int),
        decreases pairs.len() - i,
    {
        let ghost before = r.deep_view();
        let k = pairs[i].0.clone();
        let v = pairs[i].1.clone();
        r.push((k, v));
        assert(r.deep_view() =~= before.push((pairs[i as int].0@, pairs[i as int].1@)));
        assert(pairs.deep_view()[i as int] == (pairs[i as int].0@, pairs[i as int].1@));
        assert(r.deep_view() =~= pairs.deep_view().take(i + 1));
        i += 1;
    }
    assert(pairs.deep_view().take(i as int) =~= pairs.deep_view());
    r
}

/// What a [`Terraform`] client holds, as plain values.
pub struct TerraformView {
    /// Path of the terraform binary.
    pub binary: Seq<char>,
    /// Working directory passed as `-chdir=<dir>`, if any.
    pub working_dir: Option<Seq<char>>,
    /// Environment variables for the subprocess, with distinct names.
    pub env: Seq<(Seq<char>, Seq<char>)>,
    /// Arguments added after every command's own arguments.
    pub global_args: Seq<Seq<char>>,
    /// Whether `-input=false` goes to commands that accept it.
    pub no_input: bool,
    /// Default timeout of a command execution.
    pub timeout: Option<Duration>,
}

/// Terraform client configuration.
///
/// Holds the binary path, working directory, environment variables, and global
/// arguments shared across all command executions. Construct via
/// [`Terraform::builder()`].
#[derive(Debug, Clone)]
pub struct Terraform {
    pub(crate) binary: String,
    pub(crate) working_dir: Option<String>,
    pub(crate) env: Vec<(String, String)>,
    pub(crate) global_args: Vec<String>,
    pub(crate) no_input: bool,
    pub(crate) timeout: Option<Duration>,
}

impl View for Terraform {
    type V = TerraformView;

    closed spec fn view(&self) -> TerraformView {
        TerraformView {
            binary: self.binary@,
            working_dir: self.working_dir.deep_view(),
            env: self.env.deep_view(),
            global_args: self.global_args.deep_view(),
            no_input: self.no_input,
            timeout: self.timeout,
        }
    }
}

impl Terraform {
    /// Whether `-input=false` goes to commands that accept it.
    pub fn input_disabled(&self) -> (b: bool)
        ensures
            b == self@.no_input,
    {
        self.no_input
    }

    /// The process that runs a command with arguments `command_args`:
    /// `<binary> [-chdir=<dir>] <subcommand> [global args...] [command args...]`.
    ///
    /// `-chdir` is the only true global option (before the subcommand);
    /// options such as `-no-color` are per-subcommand flags and go right
    /// after the subcommand name.
    pub fn invocation(&self, command_args: &Vec<String>) -> (inv: Invocation)
        ensures
            inv.program@ == self@.binary,
            inv.args.deep_view() == invocation_args(self@.working_dir, command_args.deep_view(), self@.global_args),
            inv.env.deep_view() == self@.env,
            inv.timeout == self@.timeout,
    {
        let mut args: Vec<String> = Vec::new();
        push_opt(&mut args, "-chdir=", &self.working_dir);
        if command_args.len() > 0 {
            push_str(&mut args, command_args[0].as_str());
            push_all(&mut args, &self.global_args);
            push_from(&mut args, command_args, 1);
        } else {
            push_all(&mut args, &self.global_args);
        }
        Invocation {
            program: self.binary.clone(),
            args,
            env: copy_pairs(&self.env),
            timeout: self.timeout,
        }
    }

    /// Create a new [`TerraformBuilder`].
    pub fn builder() -> (b: TerraformBuilder)
        ensures
            b@ == TerraformBuilder::defaults(),
    {
        TerraformBuilder::new()
    }

    /// Create a copy of this client with a different working directory.
    pub fn with_working_dir(&self, path: &str) -> (r: Self)
        ensures
            r@ == (TerraformView { working_dir: Some(path@), ..self@ }),
    {
        Terraform {
            binary: self.binary.clone(),
            working_dir: Some(String::from_str(path)),
            env: copy_pairs(&self.env),
            global_args: copy_strings(&self.global_args),
            no_input: self.no_input,
            timeout: self.timeout,
        }
    }
}

/// What a [`TerraformBuilder`] holds, as plain values.
pub struct BuilderView {
    /// Explicit binary path, if set.
    pub binary: Option<Seq<char>>,
    /// Working directory, if set.
    pub working_dir: Option<Seq<char>>,
    /// Environment variables, with distinct names.
    pub env: Seq<(Seq<char>, Seq<char>)>,
    /// Whether `-no-color` is passed.
    pub no_color: bool,
    /// Whether interactive input is allowed.
    pub input: bool,
    /// Default timeout, if set.
    pub timeout: Option<Duration>,
}

/// Builder for constructing a [`Terraform`] client.
///
/// Defaults: `-no-color` enabled (disable with `.color(true)`) and
/// `-input=false` enabled (disable with `.input(true)`).
#[derive(Debug)]
pub struct TerraformBuilder {
    binary: Option<String>,
    working_dir: Option<String>,
    env: Vec<(String, String)>,
    no_color: bool,
    input: bool,
    timeout: Option<Duration>,
}

impl View for TerraformBuilder {
    type V = BuilderView;

    closed spec fn view(&self) -> BuilderView {
        BuilderView {
            binary: self.binary.deep_view(),
            working_dir: self.working_dir.deep_view(),
            env: self.env.deep_view(),
            no_color: self.no_color,
            input: self.input,
            timeout: self.timeout,
        }
    }
}

/// The duration of `secs` whole seconds, as `Duration::from_secs` makes it.
pub uninterp spec fn secs_duration(secs: u64) -> Duration;

/// `Duration::from_secs` from std: a duration of `secs` whole seconds. Its
/// result depends on `secs` alone, and is named by [`secs_duration`];
/// `Duration` is opaque here, so nothing more is stated.
#[verifier::external_body]
fn duration_from_secs(secs: u64) -> (d: Duration)
    ensures
        d == secs_duration(secs),
{
    Duration::from_secs(secs)
}

/// The arguments of a run: `-chdir=<dir>` where a directory is set, then
/// the subcommand, the global arguments and the rest of the command's
/// arguments; with no command arguments, the global arguments alone follow
/// `-chdir`.
pub open spec fn invocation_args(
    working_dir: Option<Seq<char>>,
    command_args: Seq<Seq<char>>,
    global_args: Seq<Seq<char>>,
) -> Seq<Seq<char>> {
    if command_args.len() == 0 {
        opt_prefixed("-chdir="@, working_dir) + global_args
    } else {
        opt_prefixed("-chdir="@, working_dir) + seq![command_args[0]] + global_args + command_args.skip(1)
    }
}

/// The client that a builder gives once its binary path is known.
pub open spec fn built_client(b: BuilderView, binary: Seq<char>) -> TerraformView {
    TerraformView {
        binary: binary,
        working_dir: b.working_dir,
        env: b.env,
        global_args: flag_arg(b.no_color, "-no-color"@),
        no_input: !b.input,
        timeout: b.timeout,
    }
}

/// The binary path a builder resolves to: the explicit path, else the
/// `TERRAFORM_PATH` value, else `terraform` as found on `PATH`.
pub open spec fn resolved_binary(explicit: Option<Seq<char>>, env_path: Option<Seq<char>>, on_path: Option<Seq<char>>) -> Option<Seq<char>> {
    match explicit {
        Some(p) => Some(p),
        None => match env_path {
            Some(p) => Some(p),
            None => on_path,
        },
    }
}

impl TerraformBuilder {
    #[verifier::type_invariant]
    spec fn env_names_distinct(self) -> bool {
        distinct_keys(self.env.deep_view())
    }

    /// The settings of a fresh builder.
    pub open spec fn defaults() -> BuilderView {
        BuilderView {
            binary: None,
            working_dir: None,
            env: Seq::empty(),
            no_color: true,
            input: false,
            timeout: None,
        }
    }

    fn new() -> (b: Self)
        ensures
            b@ == Self::defaults(),
    {
        let b = TerraformBuilder {
            binary: None,
            working_dir: None,
            env: Vec::new(),
            no_color: true,
            input: false,
            timeout: None,
        };
        assert(b.env.deep_view() =~= Seq::<(Seq<char>, Seq<char>)>::empty());
        b
    }

    /// Set an explicit path to the terraform binary.
    pub fn binary(self, path: &str) -> (r: Self)
        ensures
            r@ == (BuilderView { binary: Some(path@), ..self@ }),
    {
        proof { use_type_invariant(&self); }
        TerraformBuilder { binary: Some(String::from_str(path)), ..self }
    }

    /// Set the default working directory for all commands (`-chdir=<path>`).
    pub fn working_dir(self, path: &str) -> (r: Self)
        ensures
            r@ == (BuilderView { working_dir: Some(path@), ..self@ }),
    {
        proof { use_type_invariant(&self); }
        TerraformBuilder { working_dir: Some(String::from_str(path)), ..self }
    }

    /// Set an environment variable for all terraform subprocesses.
    pub fn env(self, key: &str, value: &str) -> (r: Self)
        ensures
            r@ == (BuilderView { env: upsert(self@.env, key@, value@), ..self@ }),
            pairs_map(r@.env) == pairs_map(self@.env).insert(key@, value@),
    {
        proof { use_type_invariant(&self); }
        let TerraformBuilder { binary, working_dir, env, no_color, input, timeout } = self;
        let mut env = env;
        proof { lemma_upsert_is_insert(env.deep_view(), key@, value@); }
        set_deep(&mut env, String::from_str(key), String::from_str(value));
        TerraformBuilder { binary, working_dir, env, no_color, input, timeout }
    }

    /// Set a Terraform variable via environment (`TF_VAR_<name>`).
    pub fn env_var(self, name: &str, value: &str) -> (r: Self)
        ensures
            r@ == (BuilderView { env: upsert(self@.env, "TF_VAR_"@ + name@, value@), ..self@ }),
            pairs_map(r@.env) == pairs_map(self@.env).insert("TF_VAR_"@ + name@, value@),
    {
        let key = String::from_str("TF_VAR_").concat(name);
        self.env(key.as_str(), value)
    }

    /// Enable or disable color output (default: disabled).
    pub fn color(self, enable: bool) -> (r: Self)
        ensures
            r@ == (BuilderView { no_color: !enable, ..self@ }),
    {
        proof { use_type_invariant(&self); }
        TerraformBuilder { no_color: !enable, ..self }
    }

    /// Enable or disable interactive input prompts (default: disabled).
    pub fn input(self, enable: bool) -> (r: Self)
        ensures
            r@ == (BuilderView { input: enable, ..self@ }),
    {
        proof { use_type_invariant(&self); }
        TerraformBuilder { input: enable, ..self }
    }

    /// Set a default timeout for all command executions.
    pub fn timeout(self, duration: Duration) -> (r: Self)
        ensures
            r@ == (BuilderView { timeout: Some(duration), ..self@ }),
    {
        proof { use_type_invariant(&self); }
        TerraformBuilder { timeout: Some(duration), ..self }
    }

    /// Set a default timeout in seconds for all command executions.
    pub fn timeout_secs(self, seconds: u64) -> (r: Self)
        ensures
            r@ == (BuilderView { timeout: Some(secs_duration(seconds)), ..self@ }),
    {
        proof { use_type_invariant(&self); }
        TerraformBuilder { timeout: Some(duration_from_secs(seconds)), ..self }
    }

    /// Build the client, given what the environment holds: `env_path` is the
    /// value of `TERRAFORM_PATH` and `on_path` where `terraform` was found on
    /// `PATH`, each where there is one.
    ///
    /// Returns [`Error::NotFound`] exactly when no binary path can be resolved.
    pub fn build_with(self, env_path: Option<String>, on_path: Option<String>) -> (r: Result<Terraform, Error>)
        ensures
            resolved_binary(self@.binary, env_path.deep_view(), on_path.deep_view()) matches Some(bin)
                ==> r matches Ok(tf) && tf@ == built_client(self@, bin),
            resolved_binary(self@.binary, env_path.deep_view(), on_path.deep_view()) is None
                ==> r matches Err(Error::NotFound),
    {
        proof { use_type_invariant(&self); }
        let TerraformBuilder { binary, working_dir, env, no_color, input, timeout } = self;
        let bin = match binary {
            Some(p) => p,
            None => match env_path {
                Some(p) => p,
                None => match on_path {
                    Some(p) => p,
                    None => { return Err(Error::NotFound); },
                },
            },
        };
        let mut global_args: Vec<String> = Vec::new();
        push_flag(&mut global_args, no_color, "-no-color");
        assert(global_args.deep_view() =~= flag_arg(no_color, "-no-color"@));
        Ok(Terraform {
            binary: bin,
            working_dir,
            env,
            global_args,
            no_input: !input,
            timeout,
        })
    }
}

/// Programmatic defaults: a client built from a fresh builder passes
/// `-no-color` and disables interactive input; `.color(true)` drops the
/// former and `.input(true)` the latter.
pub proof fn law_programmatic_defaults(b: BuilderView, binary: Seq<char>)
    ensures
        built_client(TerraformBuilder::defaults(), binary).global_args == seq!["-no-color"@],
        built_client(TerraformBuilder::defaults(), binary).no_input,
        built_client(TerraformBuilder::defaults(), binary).env.len() == 0,
        !b.no_color ==> built_client(b, binary).global_args.len() == 0,
        b.input ==> !built_client(b, binary).no_input,
{
}

/// The binary resolves to the explicit path whenever one is set, whatever
/// the environment holds, and to nothing only when no source gives one.
pub proof fn law_binary_resolution_order(explicit: Option<Seq<char>>, env_path: Option<Seq<char>>, on_path: Option<Seq<char>>)
    ensures
        explicit is Some ==> resolved_binary(explicit, env_path, on_path) == explicit,
        explicit is None && env_path is Some ==> resolved_binary(explicit, env_path, on_path) == env_path,
        resolved_binary(explicit, env_path, on_path) is None <==> (explicit is None && env_path is None && on_path is None),
{
}

/// A built client disables input prompts exactly when the builder's input
/// setting is off, whatever the colour setting, and passes `-no-color`
/// exactly when colour is off, whatever the input setting; it keeps the
/// builder's directory, environment and timeout and runs the binary given.
pub proof fn law_built_client_settings(b: BuilderView, binary: Seq<char>)
    ensures
        built_client(b, binary).no_input == !b.input,
        b.no_color ==> built_client(b, binary).global_args == seq!["-no-color"@],
        !b.no_color ==> built_client(b, binary).global_args.len() == 0,
        built_client(b, binary).binary == binary,
        built_client(b, binary).working_dir == b.working_dir,
        built_client(b, binary).env == b.env,
        built_client(b, binary).timeout == b.timeout,
{
}

/// The arguments of a run: `-chdir=<dir>` first where a directory is set,
/// then the subcommand, then every global argument in order, then the rest
/// of the command's arguments in order, and nothing else.
pub proof fn law_invocation_args_order(working_dir: Option<Seq<char>>, command_args: Seq<Seq<char>>, global_args: Seq<Seq<char>>)
    ensures
        ({
            let r = invocation_args(working_dir, command_args, global_args);
            let c: int = if working_dir is Some { 1 } else { 0 };
            let sub: int = if command_args.len() > 0 { 1 } else { 0 };
            &&& r.len() == c + command_args.len() + global_args.len()
            &&& working_dir is Some ==> r[0] == "-chdir="@ + working_dir.unwrap()
            &&& command_args.len() > 0 ==> r[c] == command_args[0]
            &&& forall|j: int| 0 <= j < global_args.len() ==> r[c + sub + j] == #[trigger] global_args[j]
            &&& forall|j: int| 1 <= j < command_args.len() ==> r[c + global_args.len() + j] == #[trigger] command_args[j]
        }),
{
}

} // verus!
