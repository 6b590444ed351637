//! `terraform init`.
use vstd::prelude::*;

use crate::command::TerraformCommand;
use crate::text::{
    each_pair, each_prefixed, flag_arg, lemma_append_push, lemma_contains_append, lemma_contains_prepend, lemma_each_pair_push, lemma_each_prefixed_push, lemma_insert_append, opt_bool, opt_prefixed, push_all, push_flag, push_opt, push_opt_bool, push_pair, push_pairs, push_prefixed, push_str,
};

verus! {

/// The options of an [`InitCommand`], as plain values.
#[verifier::ext_equal]
pub struct InitOptions {
    pub backend: Option<bool>,
    pub backend_configs: Seq<(Seq<char>, Seq<char>)>,
    pub backend_config_files: Seq<Seq<char>>,
    pub from_module: Option<Seq<char>>,
    pub get: Option<bool>,
    pub upgrade: bool,
    pub reconfigure: bool,
    pub migrate_state: bool,
    pub plugin_dir: Option<Seq<char>>,
    pub lockfile: Option<Seq<char>>,
    pub lock: Option<bool>,
    pub lock_timeout: Option<Seq<char>>,
    pub json: bool,
    pub raw_args: Seq<Seq<char>>,
}

impl InitOptions {
    /// The options of a fresh command.
    pub open spec fn initial() -> Self {
        InitOptions {
            backend: None,
            backend_configs: seq![],
            backend_config_files: seq![],
            from_module: None,
            get: None,
            upgrade: false,
            reconfigure: false,
            migrate_state: false,
            plugin_dir: None,
            lockfile: None,
            lock: None,
            lock_timeout: None,
            json: false,
            raw_args: seq![],
        }
    }

    /// `init`, its flags in a fixed order, then the raw arguments.
    pub open spec fn args(self) -> Seq<Seq<char>> {
        seq!["init"@]
            + opt_bool("-backend="@, self.backend)
            + each_pair("-backend-config="@, self.backend_configs)
            + each_prefixed("-backend-config="@, self.backend_config_files)
            + opt_prefixed("-from-module="@, self.from_module)
            + opt_bool("-get="@, self.get)
            + flag_arg(self.upgrade, "-upgrade"@)
            + flag_arg(self.reconfigure, "-reconfigure"@)
            + flag_arg(self.migrate_state, "-migrate-state"@)
            + opt_prefixed("-plugin-dir="@, self.plugin_dir)
            + opt_prefixed("-lockfile="@, self.lockfile)
            + opt_bool("-lock="@, self.lock)
            + opt_prefixed("-lock-timeout="@, self.lock_timeout)
            + flag_arg(self.json, "-json"@)
            + self.raw_args
    }
}

/// Command for initializing a Terraform working directory.
///
/// Downloads providers, initializes backend, and prepares the directory
/// for other commands.
#[derive(Debug, Clone, Default)]
pub struct InitCommand {
    backend: Option<bool>,
    backend_configs: Vec<(String, String)>,
    backend_config_files: Vec<String>,
    from_module: Option<String>,
    get: Option<bool>,
    upgrade: bool,
    reconfigure: bool,
    migrate_state: bool,
    plugin_dir: Option<String>,
    lockfile: Option<String>,
    lock: Option<bool>,
    lock_timeout: Option<String>,
    json: bool,
    raw_args: Vec<String>,
}

impl View for InitCommand {
    type V = InitOptions;

    closed spec fn view(&self) -> InitOptions {
        InitOptions {
            backend: self.backend,
            backend_configs: self.backend_configs.deep_view(),
            backend_config_files: self.backend_config_files.deep_view(),
            from_module: self.from_module.deep_view(),
            get: self.get,
            upgrade: self.upgrade,
            reconfigure: self.reconfigure,
            migrate_state: self.migrate_state,
            plugin_dir: self.plugin_dir.deep_view(),
            lockfile: self.lockfile.deep_view(),
            lock: self.lock,
            lock_timeout: self.lock_timeout.deep_view(),
            json: self.json,
            raw_args: self.raw_args.deep_view(),
        }
    }
}

impl InitCommand {
    /// Create a new init command with default options.
    pub fn new() -> (r: Self)
        ensures
            r@ == InitOptions::initial(),
    {
        let r = InitCommand {
            backend: None,
            backend_configs: Vec::new(),
            backend_config_files: Vec::new(),
            from_module: None,
            get: None,
            upgrade: false,
            reconfigure: false,
            migrate_state: false,
            plugin_dir: None,
            lockfile: None,
            lock: None,
            lock_timeout: None,
            json: false,
            raw_args: Vec::new(),
        };
        assert(r@ =~= InitOptions::initial());
        r
    }

    /// Enable or disable backend initialization (`-backend`).
    pub fn backend(self, enabled: bool) -> (r: Self)
        ensures
            r@ == (InitOptions { backend: Some(enabled), ..self@ }),
    {
        InitCommand { backend: Some(enabled), ..self }
    }

    /// Add a backend configuration key-value pair (`-backend-config=key=value`).
    pub fn backend_config(self, key: &str, value: &str) -> (r: Self)
        ensures
            r@ == (InitOptions { backend_configs: self@.backend_configs.push((key@, value@)), ..self@ }),
    {
        let mut s = self;
        push_pair(&mut s.backend_configs, key, value);
        s
    }

    /// Add a backend configuration file (`-backend-config=<path>`).
    pub fn backend_config_file(self, path: &str) -> (r: Self)
        ensures
            r@ == (InitOptions { backend_config_files: self@.backend_config_files.push(path@), ..self@ }),
    {
        let mut s = self;
        push_str(&mut s.backend_config_files, path);
        s
    }

    /// Copy the contents of the given module into the target directory (`-from-module=SOURCE`).
    pub fn from_module(self, source: &str) -> (r: Self)
        ensures
            r@ == (InitOptions { from_module: Some(source@), ..self@ }),
    {
        InitCommand { from_module: Some(String::from_str(source)), ..self }
    }

    /// Enable or disable downloading modules for this configuration (`-get`).
    pub fn get(self, enabled: bool) -> (r: Self)
        ensures
            r@ == (InitOptions { get: Some(enabled), ..self@ }),
    {
        InitCommand { get: Some(enabled), ..self }
    }

    /// Update modules and plugins to the latest allowed versions (`-upgrade`).
    pub fn upgrade(self) -> (r: Self)
        ensures
            r@ == (InitOptions { upgrade: true, ..self@ }),
    {
        InitCommand { upgrade: true, ..self }
    }

    /// Reconfigure backend, ignoring any saved configuration (`-reconfigure`).
    pub fn reconfigure(self) -> (r: Self)
        ensures
            r@ == (InitOptions { reconfigure: true, ..self@ }),
    {
        InitCommand { reconfigure: true, ..self }
    }

    /// Reconfigure backend and attempt to migrate state (`-migrate-state`).
    pub fn migrate_state(self) -> (r: Self)
        ensures
            r@ == (InitOptions { migrate_state: true, ..self@ }),
    {
        InitCommand { migrate_state: true, ..self }
    }

    /// Directory to search for provider plugins (`-plugin-dir`).
    pub fn plugin_dir(self, path: &str) -> (r: Self)
        ensures
            r@ == (InitOptions { plugin_dir: Some(path@), ..self@ }),
    {
        InitCommand { plugin_dir: Some(String::from_str(path)), ..self }
    }

    /// Set the lockfile mode (`-lockfile=MODE`), e.g. `"readonly"`.
    pub fn lockfile(self, mode: &str) -> (r: Self)
        ensures
            r@ == (InitOptions { lockfile: Some(mode@), ..self@ }),
    {
        InitCommand { lockfile: Some(String::from_str(mode)), ..self }
    }

    /// Enable or disable state locking (`-lock`).
    pub fn lock(self, enabled: bool) -> (r: Self)
        ensures
            r@ == (InitOptions { lock: Some(enabled), ..self@ }),
    {
        InitCommand { lock: Some(enabled), ..self }
    }

    /// Duration to wait for state lock (`-lock-timeout`).
    pub fn lock_timeout(self, timeout: &str) -> (r: Self)
        ensures
            r@ == (InitOptions { lock_timeout: Some(timeout@), ..self@ }),
    {
        InitCommand { lock_timeout: Some(String::from_str(timeout)), ..self }
    }

    /// Produce output in a machine-readable JSON format (`-json`).
    pub fn json(self) -> (r: Self)
        ensures
            r@ == (InitOptions { json: true, ..self@ }),
    {
        InitCommand { json: true, ..self }
    }

    /// Add a raw argument (escape hatch for unsupported options).
    pub fn arg(self, arg: &str) -> (r: Self)
        ensures
            r@ == (InitOptions { raw_args: self@.raw_args.push(arg@), ..self@ }),
    {
        let mut s = self;
        push_str(&mut s.raw_args, arg);
        s
    }
}

impl TerraformCommand for InitCommand {
    open spec fn spec_args(&self) -> Seq<Seq<char>> {
        self@.args()
    }

    open spec fn spec_supports_input(&self) -> bool {
        true
    }

    fn args(&self) -> (r: Vec<String>) {
        let mut args: Vec<String> = Vec::new();
        push_str(&mut args, "init");
        assert(args.deep_view() =~= seq!["init"@]);
        push_opt_bool(&mut args, "-backend=", self.backend);
        push_pairs(&mut args, "-backend-config=", &self.backend_configs);
        push_prefixed(&mut args, "-backend-config=", &self.backend_config_files);
        push_opt(&mut args, "-from-module=", &self.from_module);
        push_opt_bool(&mut args, "-get=", self.get);
        push_flag(&mut args, self.upgrade, "-upgrade");
        push_flag(&mut args, self.reconfigure, "-reconfigure");
        push_flag(&mut args, self.migrate_state, "-migrate-state");
        push_opt(&mut args, "-plugin-dir=", &self.plugin_dir);
        push_opt(&mut args, "-lockfile=", &self.lockfile);
        push_opt_bool(&mut args, "-lock=", self.lock);
        push_opt(&mut args, "-lock-timeout=", &self.lock_timeout);
        push_flag(&mut args, self.json, "-json");
        push_all(&mut args, &self.raw_args);
        assert(args.deep_view().len() == args@.len());
        args
    }

    fn supports_input(&self) -> (b: bool) {
        true
    }
}

/// `init` comes first; key-value backend settings come right after the
/// `-backend` flag, in order, and backend configuration files right after them.
pub proof fn law_init_layout(o: InitOptions)
    ensures
        o.args()[0] == "init"@,
        forall|i: int| 0 <= i < o.backend_configs.len() ==>
            o.args()[1 + opt_bool("-backend="@, o.backend).len() + i]
                == "-backend-config="@ + (#[trigger] o.backend_configs[i]).0 + "="@ + o.backend_configs[i].1,
        forall|j: int| 0 <= j < o.backend_config_files.len() ==>
            o.args()[1 + opt_bool("-backend="@, o.backend).len() + o.backend_configs.len() + j]
                == "-backend-config="@ + #[trigger] o.backend_config_files[j],
{
}

/// A backend setting is added after every earlier one, keys repeated or
/// not: the arguments gain `-backend-config=<key>=<value>` right after the
/// earlier settings and before any configuration file, and nothing else
/// changes.
pub proof fn law_init_backend_config(o: InitOptions, key: Seq<char>, value: Seq<char>)
    ensures
        (InitOptions { backend_configs: o.backend_configs.push((key, value)), ..o }).args() == o.args().insert(
            1int + opt_bool("-backend="@, o.backend).len() + o.backend_configs.len(),
            "-backend-config="@ + key + "="@ + value,
        ),
{
    let e = "-backend-config="@ + key + "="@ + value;
    lemma_each_pair_push("-backend-config="@, o.backend_configs, key, value);
    let front = seq!["init"@] + opt_bool("-backend="@, o.backend);
    lemma_append_push(front, each_pair("-backend-config="@, o.backend_configs), e);
    let i: int = (front.len() + each_pair("-backend-config="@, o.backend_configs).len()) as int;
    let s = front + each_pair("-backend-config="@, o.backend_configs);
    lemma_insert_append(s, i, e, each_prefixed("-backend-config="@, o.backend_config_files));
    let s = s + each_prefixed("-backend-config="@, o.backend_config_files);
    lemma_insert_append(s, i, e, opt_prefixed("-from-module="@, o.from_module));
    let s = s + opt_prefixed("-from-module="@, o.from_module);
    lemma_insert_append(s, i, e, opt_bool("-get="@, o.get));
    let s = s + opt_bool("-get="@, o.get);
    lemma_insert_append(s, i, e, flag_arg(o.upgrade, "-upgrade"@));
    let s = s + flag_arg(o.upgrade, "-upgrade"@);
    lemma_insert_append(s, i, e, flag_arg(o.reconfigure, "-reconfigure"@));
    let s = s + flag_arg(o.reconfigure, "-reconfigure"@);
    lemma_insert_append(s, i, e, flag_arg(o.migrate_state, "-migrate-state"@));
    let s = s + flag_arg(o.migrate_state, "-migrate-state"@);
    lemma_insert_append(s, i, e, opt_prefixed("-plugin-dir="@, o.plugin_dir));
    let s = s + opt_prefixed("-plugin-dir="@, o.plugin_dir);
    lemma_insert_append(s, i, e, opt_prefixed("-lockfile="@, o.lockfile));
    let s = s + opt_prefixed("-lockfile="@, o.lockfile);
    lemma_insert_append(s, i, e, opt_bool("-lock="@, o.lock));
    let s = s + opt_bool("-lock="@, o.lock);
    lemma_insert_append(s, i, e, opt_prefixed("-lock-timeout="@, o.lock_timeout));
    let s = s + opt_prefixed("-lock-timeout="@, o.lock_timeout);
    lemma_insert_append(s, i, e, flag_arg(o.json, "-json"@));
    let s = s + flag_arg(o.json, "-json"@);
    lemma_insert_append(s, i, e, o.raw_args);
    let s = s + o.raw_args;
}

/// A backend configuration file is added after every key-value setting and
/// every earlier file, whatever the order of the calls: the arguments gain
/// `-backend-config=<path>` there, and nothing else changes.
pub proof fn law_init_backend_config_file(o: InitOptions, path: Seq<char>)
    ensures
        (InitOptions { backend_config_files: o.backend_config_files.push(path), ..o }).args() == o.args().insert(
            1int + opt_bool("-backend="@, o.backend).len() + o.backend_configs.len() + o.backend_config_files.len(),
            "-backend-config="@ + path,
        ),
{
    let e = "-backend-config="@ + path;
    lemma_each_prefixed_push("-backend-config="@, o.backend_config_files, path);
    let front = seq!["init"@] + opt_bool("-backend="@, o.backend) + each_pair("-backend-config="@, o.backend_configs);
    lemma_append_push(front, each_prefixed("-backend-config="@, o.backend_config_files), e);
    let i: int = (front.len() + each_prefixed("-backend-config="@, o.backend_config_files).len()) as int;
    let s = front + each_prefixed("-backend-config="@, o.backend_config_files);
    lemma_insert_append(s, i, e, opt_prefixed("-from-module="@, o.from_module));
    let s = s + opt_prefixed("-from-module="@, o.from_module);
    lemma_insert_append(s, i, e, opt_bool("-get="@, o.get));
    let s = s + opt_bool("-get="@, o.get);
    lemma_insert_append(s, i, e, flag_arg(o.upgrade, "-upgrade"@));
    let s = s + flag_arg(o.upgrade, "-upgrade"@);
    lemma_insert_append(s, i, e, flag_arg(o.reconfigure, "-reconfigure"@));
    let s = s + flag_arg(o.reconfigure, "-reconfigure"@);
    lemma_insert_append(s, i, e, flag_arg(o.migrate_state, "-migrate-state"@));
    let s = s + flag_arg(o.migrate_state, "-migrate-state"@);
    lemma_insert_append(s, i, e, opt_prefixed("-plugin-dir="@, o.plugin_dir));
    let s = s + opt_prefixed("-plugin-dir="@, o.plugin_dir);
    lemma_insert_append(s, i, e, opt_prefixed("-lockfile="@, o.lockfile));
    let s = s + opt_prefixed("-lockfile="@, o.lockfile);
    lemma_insert_append(s, i, e, opt_bool("-lock="@, o.lock));
    let s = s + opt_bool("-lock="@, o.lock);
    lemma_insert_append(s, i, e, opt_prefixed("-lock-timeout="@, o.lock_timeout));
    let s = s + opt_prefixed("-lock-timeout="@, o.lock_timeout);
    lemma_insert_append(s, i, e, flag_arg(o.json, "-json"@));
    let s = s + flag_arg(o.json, "-json"@);
    lemma_insert_append(s, i, e, o.raw_args);
    let s = s + o.raw_args;
}

/// Every option set on the command reaches its arguments as the one
/// argument Terraform expects for it, the subcommand comes first, and there
/// is one argument per option set and nothing more.
pub proof fn law_init_arguments(o: InitOptions)
    ensures
        o.args()[0] == "init"@,
        o.args().len() == 1 + (if o.backend is Some { 1int } else { 0int }) + o.backend_configs.len() + o.backend_config_files.len() + (if o.from_module is Some { 1int } else { 0int }) + (if o.get is Some { 1int } else { 0int }) + (if o.upgrade { 1int } else { 0int }) + (if o.reconfigure { 1int } else { 0int }) + (if o.migrate_state { 1int } else { 0int }) + (if o.plugin_dir is Some { 1int } else { 0int }) + (if o.lockfile is Some { 1int } else { 0int }) + (if o.lock is Some { 1int } else { 0int }) + (if o.lock_timeout is Some { 1int } else { 0int }) + (if o.json { 1int } else { 0int }) + o.raw_args.len(),
        o.backend == Some(true) ==> o.args().contains("-backend="@ + "true"@),
        o.backend == Some(false) ==> o.args().contains("-backend="@ + "false"@),
        forall|i: int| 0 <= i < o.backend_configs.len() ==> o.args().contains("-backend-config="@ + (#[trigger] o.backend_configs[i]).0 + "="@ + o.backend_configs[i].1),
        forall|i: int| 0 <= i < o.backend_config_files.len() ==> o.args().contains("-backend-config="@ + #[trigger] o.backend_config_files[i]),
        o.from_module is Some ==> o.args().contains("-from-module="@ + o.from_module.unwrap()),
        o.get == Some(true) ==> o.args().contains("-get="@ + "true"@),
        o.get == Some(false) ==> o.args().contains("-get="@ + "false"@),
        o.upgrade ==> o.args().contains("-upgrade"@),
        o.reconfigure ==> o.args().contains("-reconfigure"@),
        o.migrate_state ==> o.args().contains("-migrate-state"@),
        o.plugin_dir is Some ==> o.args().contains("-plugin-dir="@ + o.plugin_dir.unwrap()),
        o.lockfile is Some ==> o.args().contains("-lockfile="@ + o.lockfile.unwrap()),
        o.lock == Some(true) ==> o.args().contains("-lock="@ + "true"@),
        o.lock == Some(false) ==> o.args().contains("-lock="@ + "false"@),
        o.lock_timeout is Some ==> o.args().contains("-lock-timeout="@ + o.lock_timeout.unwrap()),
        o.json ==> o.args().contains("-json"@),
        forall|i: int| 0 <= i < o.raw_args.len() ==> o.args().contains(#[trigger] o.raw_args[i]),
{
    lemma_init_args_first(o);
    lemma_init_args_len(o);
    lemma_init_args_has_0(o);
    lemma_init_args_has_1(o);
    lemma_init_args_has_2(o);
    lemma_init_args_has_3(o);
    lemma_init_args_has_4(o);
    lemma_init_args_has_5(o);
    lemma_init_args_has_6(o);
    lemma_init_args_has_7(o);
    lemma_init_args_has_8(o);
    lemma_init_args_has_9(o);
    lemma_init_args_has_10(o);
    lemma_init_args_has_11(o);
    lemma_init_args_has_12(o);
    lemma_init_args_has_13(o);
    lemma_init_args_has_14(o);
    lemma_init_args_has_15(o);
    lemma_init_args_has_16(o);
}

proof fn lemma_init_args_len(o: InitOptions)
    ensures
        o.args().len() == 1 + (if o.backend is Some { 1int } else { 0int }) + o.backend_configs.len() + o.backend_config_files.len() + (if o.from_module is Some { 1int } else { 0int }) + (if o.get is Some { 1int } else { 0int }) + (if o.upgrade { 1int } else { 0int }) + (if o.reconfigure { 1int } else { 0int }) + (if o.migrate_state { 1int } else { 0int }) + (if o.plugin_dir is Some { 1int } else { 0int }) + (if o.lockfile is Some { 1int } else { 0int }) + (if o.lock is Some { 1int } else { 0int }) + (if o.lock_timeout is Some { 1int } else { 0int }) + (if o.json { 1int } else { 0int }) + o.raw_args.len(),
{
    assert((seq!["init"@]).len() == 1);
    assert((opt_bool("-backend="@, o.backend)).len() == (if o.backend is Some { 1int } else { 0int }));
    assert((each_pair("-backend-config="@, o.backend_configs)).len() == o.backend_configs.len());
    assert((each_prefixed("-backend-config="@, o.backend_config_files)).len() == o.backend_config_files.len());
    assert((opt_prefixed("-from-module="@, o.from_module)).len() == (if o.from_module is Some { 1int } else { 0int }));
    assert((opt_bool("-get="@, o.get)).len() == (if o.get is Some { 1int } else { 0int }));
    assert((flag_arg(o.upgrade, "-upgrade"@)).len() == (if o.upgrade { 1int } else { 0int }));
    assert((flag_arg(o.reconfigure, "-reconfigure"@)).len() == (if o.reconfigure { 1int } else { 0int }));
    assert((flag_arg(o.migrate_state, "-migrate-state"@)).len() == (if o.migrate_state { 1int } else { 0int }));
    assert((opt_prefixed("-plugin-dir="@, o.plugin_dir)).len() == (if o.plugin_dir is Some { 1int } else { 0int }));
    assert((opt_prefixed("-lockfile="@, o.lockfile)).len() == (if o.lockfile is Some { 1int } else { 0int }));
    assert((opt_bool("-lock="@, o.lock)).len() == (if o.lock is Some { 1int } else { 0int }));
    assert((opt_prefixed("-lock-timeout="@, o.lock_timeout)).len() == (if o.lock_timeout is Some { 1int } else { 0int }));
    assert((flag_arg(o.json, "-json"@)).len() == (if o.json { 1int } else { 0int }));
    assert((o.raw_args).len() == o.raw_args.len());
}

proof fn lemma_init_args_first(o: InitOptions)
    ensures
        o.args()[0] == "init"@,
{
}

proof fn lemma_init_args_has_0(o: InitOptions)
    ensures
        o.backend == Some(true) ==> o.args().contains("-backend="@ + "true"@),
{
    if o.backend == Some(true) {
        assert(opt_bool("-backend="@, o.backend)[0] == "-backend="@ + "true"@);
        lemma_init_args_part_1(o, "-backend="@ + "true"@);
    }
}

proof fn lemma_init_args_has_1(o: InitOptions)
    ensures
        o.backend == Some(false) ==> o.args().contains("-backend="@ + "false"@),
{
    if o.backend == Some(false) {
        assert(opt_bool("-backend="@, o.backend)[0] == "-backend="@ + "false"@);
        lemma_init_args_part_1(o, "-backend="@ + "false"@);
    }
}

proof fn lemma_init_args_has_2(o: InitOptions)
    ensures
        forall|i: int| 0 <= i < o.backend_configs.len() ==> o.args().contains("-backend-config="@ + (#[trigger] o.backend_configs[i]).0 + "="@ + o.backend_configs[i].1),
{
    assert forall|i: int| 0 <= i < o.backend_configs.len() implies o.args().contains("-backend-config="@ + (#[trigger] o.backend_configs[i]).0 + "="@ + o.backend_configs[i].1) by {
        assert(each_pair("-backend-config="@, o.backend_configs)[i] == "-backend-config="@ + o.backend_configs[i].0 + "="@ + o.backend_configs[i].1);
        lemma_init_args_part_2(o, "-backend-config="@ + o.backend_configs[i].0 + "="@ + o.backend_configs[i].1);
    }
}

proof fn lemma_init_args_has_3(o: InitOptions)
    ensures
        forall|i: int| 0 <= i < o.backend_config_files.len() ==> o.args().contains("-backend-config="@ + #[trigger] o.backend_config_files[i]),
{
    assert forall|i: int| 0 <= i < o.backend_config_files.len() implies o.args().contains("-backend-config="@ + #[trigger] o.backend_config_files[i]) by {
        assert(each_prefixed("-backend-config="@, o.backend_config_files)[i] == "-backend-config="@ + o.backend_config_files[i]);
        lemma_init_args_part_3(o, "-backend-config="@ + o.backend_config_files[i]);
    }
}

proof fn lemma_init_args_has_4(o: InitOptions)
    ensures
        o.from_module is Some ==> o.args().contains("-from-module="@ + o.from_module.unwrap()),
{
    if o.from_module is Some {
        assert(opt_prefixed("-from-module="@, o.from_module)[0] == "-from-module="@ + o.from_module.unwrap());
        lemma_init_args_part_4(o, "-from-module="@ + o.from_module.unwrap());
    }
}

proof fn lemma_init_args_has_5(o: InitOptions)
    ensures
        o.get == Some(true) ==> o.args().contains("-get="@ + "true"@),
{
    if o.get == Some(true) {
        assert(opt_bool("-get="@, o.get)[0] == "-get="@ + "true"@);
        lemma_init_args_part_5(o, "-get="@ + "true"@);
    }
}

proof fn lemma_init_args_has_6(o: InitOptions)
    ensures
        o.get == Some(false) ==> o.args().contains("-get="@ + "false"@),
{
    if o.get == Some(false) {
        assert(opt_bool("-get="@, o.get)[0] == "-get="@ + "false"@);
        lemma_init_args_part_5(o, "-get="@ + "false"@);
    }
}

proof fn lemma_init_args_has_7(o: InitOptions)
    ensures
        o.upgrade ==> o.args().contains("-upgrade"@),
{
    if o.upgrade {
        assert(flag_arg(o.upgrade, "-upgrade"@)[0] == "-upgrade"@);
        lemma_init_args_part_6(o, "-upgrade"@);
    }
}

proof fn lemma_init_args_has_8(o: InitOptions)
    ensures
        o.reconfigure ==> o.args().contains("-reconfigure"@),
{
    if o.reconfigure {
        assert(flag_arg(o.reconfigure, "-reconfigure"@)[0] == "-reconfigure"@);
        lemma_init_args_part_7(o, "-reconfigure"@);
    }
}

proof fn lemma_init_args_has_9(o: InitOptions)
    ensures
        o.migrate_state ==> o.args().contains("-migrate-state"@),
{
    if o.migrate_state {
        assert(flag_arg(o.migrate_state, "-migrate-state"@)[0] == "-migrate-state"@);
        lemma_init_args_part_8(o, "-migrate-state"@);
    }
}

proof fn lemma_init_args_has_10(o: InitOptions)
    ensures
        o.plugin_dir is Some ==> o.args().contains("-plugin-dir="@ + o.plugin_dir.unwrap()),
{
    if o.plugin_dir is Some {
        assert(opt_prefixed("-plugin-dir="@, o.plugin_dir)[0] == "-plugin-dir="@ + o.plugin_dir.unwrap());
        lemma_init_args_part_9(o, "-plugin-dir="@ + o.plugin_dir.unwrap());
    }
}

proof fn lemma_init_args_has_11(o: InitOptions)
    ensures
        o.lockfile is Some ==> o.args().contains("-lockfile="@ + o.lockfile.unwrap()),
{
    if o.lockfile is Some {
        assert(opt_prefixed("-lockfile="@, o.lockfile)[0] == "-lockfile="@ + o.lockfile.unwrap());
        lemma_init_args_part_10(o, "-lockfile="@ + o.lockfile.unwrap());
    }
}

proof fn lemma_init_args_has_12(o: InitOptions)
    ensures
        o.lock == Some(true) ==> o.args().contains("-lock="@ + "true"@),
{
    if o.lock == Some(true) {
        assert(opt_bool("-lock="@, o.lock)[0] == "-lock="@ + "true"@);
        lemma_init_args_part_11(o, "-lock="@ + "true"@);
    }
}

proof fn lemma_init_args_has_13(o: InitOptions)
    ensures
        o.lock == Some(false) ==> o.args().contains("-lock="@ + "false"@),
{
    if o.lock == Some(false) {
        assert(opt_bool("-lock="@, o.lock)[0] == "-lock="@ + "false"@);
        lemma_init_args_part_11(o, "-lock="@ + "false"@);
    }
}

proof fn lemma_init_args_has_14(o: InitOptions)
    ensures
        o.lock_timeout is Some ==> o.args().contains("-lock-timeout="@ + o.lock_timeout.unwrap()),
{
    if o.lock_timeout is Some {
        assert(opt_prefixed("-lock-timeout="@, o.lock_timeout)[0] == "-lock-timeout="@ + o.lock_timeout.unwrap());
        lemma_init_args_part_12(o, "-lock-timeout="@ + o.lock_timeout.unwrap());
    }
}

proof fn lemma_init_args_has_15(o: InitOptions)
    ensures
        o.json ==> o.args().contains("-json"@),
{
    if o.json {
        assert(flag_arg(o.json, "-json"@)[0] == "-json"@);
        lemma_init_args_part_13(o, "-json"@);
    }
}

proof fn lemma_init_args_has_16(o: InitOptions)
    ensures
        forall|i: int| 0 <= i < o.raw_args.len() ==> o.args().contains(#[trigger] o.raw_args[i]),
{
    assert forall|i: int| 0 <= i < o.raw_args.len() implies o.args().contains(#[trigger] o.raw_args[i]) by {
        assert(o.raw_args[i] == o.raw_args[i]);
        lemma_init_args_part_14(o, o.raw_args[i]);
    }
}

proof fn lemma_init_args_part_1(o: InitOptions, x: Seq<char>)
    requires
        (opt_bool("-backend="@, o.backend)).contains(x),
    ensures
        o.args().contains(x),
{
    lemma_contains_prepend(seq!["init"@], opt_bool("-backend="@, o.backend), x);
    let s = seq!["init"@] + opt_bool("-backend="@, o.backend);
    lemma_contains_append(s, each_pair("-backend-config="@, o.backend_configs), x);
    let s = s + each_pair("-backend-config="@, o.backend_configs);
    lemma_contains_append(s, each_prefixed("-backend-config="@, o.backend_config_files), x);
    let s = s + each_prefixed("-backend-config="@, o.backend_config_files);
    lemma_contains_append(s, opt_prefixed("-from-module="@, o.from_module), x);
    let s = s + opt_prefixed("-from-module="@, o.from_module);
    lemma_contains_append(s, opt_bool("-get="@, o.get), x);
    let s = s + opt_bool("-get="@, o.get);
    lemma_contains_append(s, flag_arg(o.upgrade, "-upgrade"@), x);
    let s = s + flag_arg(o.upgrade, "-upgrade"@);
    lemma_contains_append(s, flag_arg(o.reconfigure, "-reconfigure"@), x);
    let s = s + flag_arg(o.reconfigure, "-reconfigure"@);
    lemma_contains_append(s, flag_arg(o.migrate_state, "-migrate-state"@), x);
    let s = s + flag_arg(o.migrate_state, "-migrate-state"@);
    lemma_contains_append(s, opt_prefixed("-plugin-dir="@, o.plugin_dir), x);
    let s = s + opt_prefixed("-plugin-dir="@, o.plugin_dir);
    lemma_contains_append(s, opt_prefixed("-lockfile="@, o.lockfile), x);
    let s = s + opt_prefixed("-lockfile="@, o.lockfile);
    lemma_contains_append(s, opt_bool("-lock="@, o.lock), x);
    let s = s + opt_bool("-lock="@, o.lock);
    lemma_contains_append(s, opt_prefixed("-lock-timeout="@, o.lock_timeout), x);
    let s = s + opt_prefixed("-lock-timeout="@, o.lock_timeout);
    lemma_contains_append(s, flag_arg(o.json, "-json"@), x);
    let s = s + flag_arg(o.json, "-json"@);
    lemma_contains_append(s, o.raw_args, x);
    let s = s + o.raw_args;
}

proof fn lemma_init_args_part_2(o: InitOptions, x: Seq<char>)
    requires
        (each_pair("-backend-config="@, o.backend_configs)).contains(x),
    ensures
        o.args().contains(x),
{
    lemma_contains_prepend(seq!["init"@] + opt_bool("-backend="@, o.backend), each_pair("-backend-config="@, o.backend_configs), x);
    let s = seq!["init"@] + opt_bool("-backend="@, o.backend) + each_pair("-backend-config="@, o.backend_configs);
    lemma_contains_append(s, each_prefixed("-backend-config="@, o.backend_config_files), x);
    let s = s + each_prefixed("-backend-config="@, o.backend_config_files);
    lemma_contains_append(s, opt_prefixed("-from-module="@, o.from_module), x);
    let s = s + opt_prefixed("-from-module="@, o.from_module);
    lemma_contains_append(s, opt_bool("-get="@, o.get), x);
    let s = s + opt_bool("-get="@, o.get);
    lemma_contains_append(s, flag_arg(o.upgrade, "-upgrade"@), x);
    let s = s + flag_arg(o.upgrade, "-upgrade"@);
    lemma_contains_append(s, flag_arg(o.reconfigure, "-reconfigure"@), x);
    let s = s + flag_arg(o.reconfigure, "-reconfigure"@);
    lemma_contains_append(s, flag_arg(o.migrate_state, "-migrate-state"@), x);
    let s = s + flag_arg(o.migrate_state, "-migrate-state"@);
    lemma_contains_append(s, opt_prefixed("-plugin-dir="@, o.plugin_dir), x);
    let s = s + opt_prefixed("-plugin-dir="@, o.plugin_dir);
    lemma_contains_append(s, opt_prefixed("-lockfile="@, o.lockfile), x);
    let s = s + opt_prefixed("-lockfile="@, o.lockfile);
    lemma_contains_append(s, opt_bool("-lock="@, o.lock), x);
    let s = s + opt_bool("-lock="@, o.lock);
    lemma_contains_append(s, opt_prefixed("-lock-timeout="@, o.lock_timeout), x);
    let s = s + opt_prefixed("-lock-timeout="@, o.lock_timeout);
    lemma_contains_append(s, flag_arg(o.json, "-json"@), x);
    let s = s + flag_arg(o.json, "-json"@);
    lemma_contains_append(s, o.raw_args, x);
    let s = s + o.raw_args;
}

proof fn lemma_init_args_part_3(o: InitOptions, x: Seq<char>)
    requires
        (each_prefixed("-backend-config="@, o.backend_config_files)).contains(x),
    ensures
        o.args().contains(x),
{
    lemma_contains_prepend(seq!["init"@] + opt_bool("-backend="@, o.backend) + each_pair("-backend-config="@, o.backend_configs), each_prefixed("-backend-config="@, o.backend_config_files), x);
    let s = seq!["init"@] + opt_bool("-backend="@, o.backend) + each_pair("-backend-config="@, o.backend_configs) + each_prefixed("-backend-config="@, o.backend_config_files);
    lemma_contains_append(s, opt_prefixed("-from-module="@, o.from_module), x);
    let s = s + opt_prefixed("-from-module="@, o.from_module);
    lemma_contains_append(s, opt_bool("-get="@, o.get), x);
    let s = s + opt_bool("-get="@, o.get);
    lemma_contains_append(s, flag_arg(o.upgrade, "-upgrade"@), x);
    let s = s + flag_arg(o.upgrade, "-upgrade"@);
    lemma_contains_append(s, flag_arg(o.reconfigure, "-reconfigure"@), x);
    let s = s + flag_arg(o.reconfigure, "-reconfigure"@);
    lemma_contains_append(s, flag_arg(o.migrate_state, "-migrate-state"@), x);
    let s = s + flag_arg(o.migrate_state, "-migrate-state"@);
    lemma_contains_append(s, opt_prefixed("-plugin-dir="@, o.plugin_dir), x);
    let s = s + opt_prefixed("-plugin-dir="@, o.plugin_dir);
    lemma_contains_append(s, opt_prefixed("-lockfile="@, o.lockfile), x);
    let s = s + opt_prefixed("-lockfile="@, o.lockfile);
    lemma_contains_append(s, opt_bool("-lock="@, o.lock), x);
    let s = s + opt_bool("-lock="@, o.lock);
    lemma_contains_append(s, opt_prefixed("-lock-timeout="@, o.lock_timeout), x);
    let s = s + opt_prefixed("-lock-timeout="@, o.lock_timeout);
    lemma_contains_append(s, flag_arg(o.json, "-json"@), x);
    let s = s + flag_arg(o.json, "-json"@);
    lemma_contains_append(s, o.raw_args, x);
    let s = s + o.raw_args;
}

proof fn lemma_init_args_part_4(o: InitOptions, x: Seq<char>)
    requires
        (opt_prefixed("-from-module="@, o.from_module)).contains(x),
    ensures
        o.args().contains(x),
{
    lemma_contains_prepend(seq!["init"@] + opt_bool("-backend="@, o.backend) + each_pair("-backend-config="@, o.backend_configs) + each_prefixed("-backend-config="@, o.backend_config_files), opt_prefixed("-from-module="@, o.from_module), x);
    let s = seq!["init"@] + opt_bool("-backend="@, o.backend) + each_pair("-backend-config="@, o.backend_configs) + each_prefixed("-backend-config="@, o.backend_config_files) + opt_prefixed("-from-module="@, o.from_module);
    lemma_contains_append(s, opt_bool("-get="@, o.get), x);
    let s = s + opt_bool("-get="@, o.get);
    lemma_contains_append(s, flag_arg(o.upgrade, "-upgrade"@), x);
    let s = s + flag_arg(o.upgrade, "-upgrade"@);
    lemma_contains_append(s, flag_arg(o.reconfigure, "-reconfigure"@), x);
    let s = s + flag_arg(o.reconfigure, "-reconfigure"@);
    lemma_contains_append(s, flag_arg(o.migrate_state, "-migrate-state"@), x);
    let s = s + flag_arg(o.migrate_state, "-migrate-state"@);
    lemma_contains_append(s, opt_prefixed("-plugin-dir="@, o.plugin_dir), x);
    let s = s + opt_prefixed("-plugin-dir="@, o.plugin_dir);
    lemma_contains_append(s, opt_prefixed("-lockfile="@, o.lockfile), x);
    let s = s + opt_prefixed("-lockfile="@, o.lockfile);
    lemma_contains_append(s, opt_bool("-lock="@, o.lock), x);
    let s = s + opt_bool("-lock="@, o.lock);
    lemma_contains_append(s, opt_prefixed("-lock-timeout="@, o.lock_timeout), x);
    let s = s + opt_prefixed("-lock-timeout="@, o.lock_timeout);
    lemma_contains_append(s, flag_arg(o.json, "-json"@), x);
    let s = s + flag_arg(o.json, "-json"@);
    lemma_contains_append(s, o.raw_args, x);
    let s = s + o.raw_args;
}

proof fn lemma_init_args_part_5(o: InitOptions, x: Seq<char>)
    requires
        (opt_bool("-get="@, o.get)).contains(x),
    ensures
        o.args().contains(x),
{
    lemma_contains_prepend(seq!["init"@] + opt_bool("-backend="@, o.backend) + each_pair("-backend-config="@, o.backend_configs) + each_prefixed("-backend-config="@, o.backend_config_files) + opt_prefixed("-from-module="@, o.from_module), opt_bool("-get="@, o.get), x);
    let s = seq!["init"@] + opt_bool("-backend="@, o.backend) + each_pair("-backend-config="@, o.backend_configs) + each_prefixed("-backend-config="@, o.backend_config_files) + opt_prefixed("-from-module="@, o.from_module) + opt_bool("-get="@, o.get);
    lemma_contains_append(s, flag_arg(o.upgrade, "-upgrade"@), x);
    let s = s + flag_arg(o.upgrade, "-upgrade"@);
    lemma_contains_append(s, flag_arg(o.reconfigure, "-reconfigure"@), x);
    let s = s + flag_arg(o.reconfigure, "-reconfigure"@);
    lemma_contains_append(s, flag_arg(o.migrate_state, "-migrate-state"@), x);
    let s = s + flag_arg(o.migrate_state, "-migrate-state"@);
    lemma_contains_append(s, opt_prefixed("-plugin-dir="@, o.plugin_dir), x);
    let s = s + opt_prefixed("-plugin-dir="@, o.plugin_dir);
    lemma_contains_append(s, opt_prefixed("-lockfile="@, o.lockfile), x);
    let s = s + opt_prefixed("-lockfile="@, o.lockfile);
    lemma_contains_append(s, opt_bool("-lock="@, o.lock), x);
    let s = s + opt_bool("-lock="@, o.lock);
    lemma_contains_append(s, opt_prefixed("-lock-timeout="@, o.lock_timeout), x);
    let s = s + opt_prefixed("-lock-timeout="@, o.lock_timeout);
    lemma_contains_append(s, flag_arg(o.json, "-json"@), x);
    let s = s + flag_arg(o.json, "-json"@);
    lemma_contains_append(s, o.raw_args, x);
    let s = s + o.raw_args;
}

proof fn lemma_init_args_part_6(o: InitOptions, x: Seq<char>)
    requires
        (flag_arg(o.upgrade, "-upgrade"@)).contains(x),
    ensures
        o.args().contains(x),
{
    lemma_contains_prepend(seq!["init"@] + opt_bool("-backend="@, o.backend) + each_pair("-backend-config="@, o.backend_configs) + each_prefixed("-backend-config="@, o.backend_config_files) + opt_prefixed("-from-module="@, o.from_module) + opt_bool("-get="@, o.get), flag_arg(o.upgrade, "-upgrade"@), x);
    let s = seq!["init"@] + opt_bool("-backend="@, o.backend) + each_pair("-backend-config="@, o.backend_configs) + each_prefixed("-backend-config="@, o.backend_config_files) + opt_prefixed("-from-module="@, o.from_module) + opt_bool("-get="@, o.get) + flag_arg(o.upgrade, "-upgrade"@);
    lemma_contains_append(s, flag_arg(o.reconfigure, "-reconfigure"@), x);
    let s = s + flag_arg(o.reconfigure, "-reconfigure"@);
    lemma_contains_append(s, flag_arg(o.migrate_state, "-migrate-state"@), x);
    let s = s + flag_arg(o.migrate_state, "-migrate-state"@);
    lemma_contains_append(s, opt_prefixed("-plugin-dir="@, o.plugin_dir), x);
    let s = s + opt_prefixed("-plugin-dir="@, o.plugin_dir);
    lemma_contains_append(s, opt_prefixed("-lockfile="@, o.lockfile), x);
    let s = s + opt_prefixed("-lockfile="@, o.lockfile);
    lemma_contains_append(s, opt_bool("-lock="@, o.lock), x);
    let s = s + opt_bool("-lock="@, o.lock);
    lemma_contains_append(s, opt_prefixed("-lock-timeout="@, o.lock_timeout), x);
    let s = s + opt_prefixed("-lock-timeout="@, o.lock_timeout);
    lemma_contains_append(s, flag_arg(o.json, "-json"@), x);
    let s = s + flag_arg(o.json, "-json"@);
    lemma_contains_append(s, o.raw_args, x);
    let s = s + o.raw_args;
}

proof fn lemma_init_args_part_7(o: InitOptions, x: Seq<char>)
    requires
        (flag_arg(o.reconfigure, "-reconfigure"@)).contains(x),
    ensures
        o.args().contains(x),
{
    lemma_contains_prepend(seq!["init"@] + opt_bool("-backend="@, o.backend) + each_pair("-backend-config="@, o.backend_configs) + each_prefixed("-backend-config="@, o.backend_config_files) + opt_prefixed("-from-module="@, o.from_module) + opt_bool("-get="@, o.get) + flag_arg(o.upgrade, "-upgrade"@), flag_arg(o.reconfigure, "-reconfigure"@), x);
    let s = seq!["init"@] + opt_bool("-backend="@, o.backend) + each_pair("-backend-config="@, o.backend_configs) + each_prefixed("-backend-config="@, o.backend_config_files) + opt_prefixed("-from-module="@, o.from_module) + opt_bool("-get="@, o.get) + flag_arg(o.upgrade, "-upgrade"@) + flag_arg(o.reconfigure, "-reconfigure"@);
    lemma_contains_append(s, flag_arg(o.migrate_state, "-migrate-state"@), x);
    let s = s + flag_arg(o.migrate_state, "-migrate-state"@);
    lemma_contains_append(s, opt_prefixed("-plugin-dir="@, o.plugin_dir), x);
    let s = s + opt_prefixed("-plugin-dir="@, o.plugin_dir);
    lemma_contains_append(s, opt_prefixed("-lockfile="@, o.lockfile), x);
    let s = s + opt_prefixed("-lockfile="@, o.lockfile);
    lemma_contains_append(s, opt_bool("-lock="@, o.lock), x);
    let s = s + opt_bool("-lock="@, o.lock);
    lemma_contains_append(s, opt_prefixed("-lock-timeout="@, o.lock_timeout), x);
    let s = s + opt_prefixed("-lock-timeout="@, o.lock_timeout);
    lemma_contains_append(s, flag_arg(o.json, "-json"@), x);
    let s = s + flag_arg(o.json, "-json"@);
    lemma_contains_append(s, o.raw_args, x);
    let s = s + o.raw_args;
}

proof fn lemma_init_args_part_8(o: InitOptions, x: Seq<char>)
    requires
        (flag_arg(o.migrate_state, "-migrate-state"@)).contains(x),
    ensures
        o.args().contains(x),
{
    lemma_contains_prepend(seq!["init"@] + opt_bool("-backend="@, o.backend) + each_pair("-backend-config="@, o.backend_configs) + each_prefixed("-backend-config="@, o.backend_config_files) + opt_prefixed("-from-module="@, o.from_module) + opt_bool("-get="@, o.get) + flag_arg(o.upgrade, "-upgrade"@) + flag_arg(o.reconfigure, "-reconfigure"@), flag_arg(o.migrate_state, "-migrate-state"@), x);
    let s = seq!["init"@] + opt_bool("-backend="@, o.backend) + each_pair("-backend-config="@, o.backend_configs) + each_prefixed("-backend-config="@, o.backend_config_files) + opt_prefixed("-from-module="@, o.from_module) + opt_bool("-get="@, o.get) + flag_arg(o.upgrade, "-upgrade"@) + flag_arg(o.reconfigure, "-reconfigure"@) + flag_arg(o.migrate_state, "-migrate-state"@);
    lemma_contains_append(s, opt_prefixed("-plugin-dir="@, o.plugin_dir), x);
    let s = s + opt_prefixed("-plugin-dir="@, o.plugin_dir);
    lemma_contains_append(s, opt_prefixed("-lockfile="@, o.lockfile), x);
    let s = s + opt_prefixed("-lockfile="@, o.lockfile);
    lemma_contains_append(s, opt_bool("-lock="@, o.lock), x);
    let s = s + opt_bool("-lock="@, o.lock);
    lemma_contains_append(s, opt_prefixed("-lock-timeout="@, o.lock_timeout), x);
    let s = s + opt_prefixed("-lock-timeout="@, o.lock_timeout);
    lemma_contains_append(s, flag_arg(o.json, "-json"@), x);
    let s = s + flag_arg(o.json, "-json"@);
    lemma_contains_append(s, o.raw_args, x);
    let s = s + o.raw_args;
}

proof fn lemma_init_args_part_9(o: InitOptions, x: Seq<char>)
    requires
        (opt_prefixed("-plugin-dir="@, o.plugin_dir)).contains(x),
    ensures
        o.args().contains(x),
{
    lemma_contains_prepend(seq!["init"@] + opt_bool("-backend="@, o.backend) + each_pair("-backend-config="@, o.backend_configs) + each_prefixed("-backend-config="@, o.backend_config_files) + opt_prefixed("-from-module="@, o.from_module) + opt_bool("-get="@, o.get) + flag_arg(o.upgrade, "-upgrade"@) + flag_arg(o.reconfigure, "-reconfigure"@) + flag_arg(o.migrate_state, "-migrate-state"@), opt_prefixed("-plugin-dir="@, o.plugin_dir), x);
    let s = seq!["init"@] + opt_bool("-backend="@, o.backend) + each_pair("-backend-config="@, o.backend_configs) + each_prefixed("-backend-config="@, o.backend_config_files) + opt_prefixed("-from-module="@, o.from_module) + opt_bool("-get="@, o.get) + flag_arg(o.upgrade, "-upgrade"@) + flag_arg(o.reconfigure, "-reconfigure"@) + flag_arg(o.migrate_state, "-migrate-state"@) + opt_prefixed("-plugin-dir="@, o.plugin_dir);
    lemma_contains_append(s, opt_prefixed("-lockfile="@, o.lockfile), x);
    let s = s + opt_prefixed("-lockfile="@, o.lockfile);
    lemma_contains_append(s, opt_bool("-lock="@, o.lock), x);
    let s = s + opt_bool("-lock="@, o.lock);
    lemma_contains_append(s, opt_prefixed("-lock-timeout="@, o.lock_timeout), x);
    let s = s + opt_prefixed("-lock-timeout="@, o.lock_timeout);
    lemma_contains_append(s, flag_arg(o.json, "-json"@), x);
    let s = s + flag_arg(o.json, "-json"@);
    lemma_contains_append(s, o.raw_args, x);
    let s = s + o.raw_args;
}

proof fn lemma_init_args_part_10(o: InitOptions, x: Seq<char>)
    requires
        (opt_prefixed("-lockfile="@, o.lockfile)).contains(x),
    ensures
        o.args().contains(x),
{
    lemma_contains_prepend(seq!["init"@] + opt_bool("-backend="@, o.backend) + each_pair("-backend-config="@, o.backend_configs) + each_prefixed("-backend-config="@, o.backend_config_files) + opt_prefixed("-from-module="@, o.from_module) + opt_bool("-get="@, o.get) + flag_arg(o.upgrade, "-upgrade"@) + flag_arg(o.reconfigure, "-reconfigure"@) + flag_arg(o.migrate_state, "-migrate-state"@) + opt_prefixed("-plugin-dir="@, o.plugin_dir), opt_prefixed("-lockfile="@, o.lockfile), x);
    let s = seq!["init"@] + opt_bool("-backend="@, o.backend) + each_pair("-backend-config="@, o.backend_configs) + each_prefixed("-backend-config="@, o.backend_config_files) + opt_prefixed("-from-module="@, o.from_module) + opt_bool("-get="@, o.get) + flag_arg(o.upgrade, "-upgrade"@) + flag_arg(o.reconfigure, "-reconfigure"@) + flag_arg(o.migrate_state, "-migrate-state"@) + opt_prefixed("-plugin-dir="@, o.plugin_dir) + opt_prefixed("-lockfile="@, o.lockfile);
    lemma_contains_append(s, opt_bool("-lock="@, o.lock), x);
    let s = s + opt_bool("-lock="@, o.lock);
    lemma_contains_append(s, opt_prefixed("-lock-timeout="@, o.lock_timeout), x);
    let s = s + opt_prefixed("-lock-timeout="@, o.lock_timeout);
    lemma_contains_append(s, flag_arg(o.json, "-json"@), x);
    let s = s + flag_arg(o.json, "-json"@);
    lemma_contains_append(s, o.raw_args, x);
    let s = s + o.raw_args;
}

proof fn lemma_init_args_part_11(o: InitOptions, x: Seq<char>)
    requires
        (opt_bool("-lock="@, o.lock)).contains(x),
    ensures
        o.args().contains(x),
{
    lemma_contains_prepend(seq!["init"@] + opt_bool("-backend="@, o.backend) + each_pair("-backend-config="@, o.backend_configs) + each_prefixed("-backend-config="@, o.backend_config_files) + opt_prefixed("-from-module="@, o.from_module) + opt_bool("-get="@, o.get) + flag_arg(o.upgrade, "-upgrade"@) + flag_arg(o.reconfigure, "-reconfigure"@) + flag_arg(o.migrate_state, "-migrate-state"@) + opt_prefixed("-plugin-dir="@, o.plugin_dir) + opt_prefixed("-lockfile="@, o.lockfile), opt_bool("-lock="@, o.lock), x);
    let s = seq!["init"@] + opt_bool("-backend="@, o.backend) + each_pair("-backend-config="@, o.backend_configs) + each_prefixed("-backend-config="@, o.backend_config_files) + opt_prefixed("-from-module="@, o.from_module) + opt_bool("-get="@, o.get) + flag_arg(o.upgrade, "-upgrade"@) + flag_arg(o.reconfigure, "-reconfigure"@) + flag_arg(o.migrate_state, "-migrate-state"@) + opt_prefixed("-plugin-dir="@, o.plugin_dir) + opt_prefixed("-lockfile="@, o.lockfile) + opt_bool("-lock="@, o.lock);
    lemma_contains_append(s, opt_prefixed("-lock-timeout="@, o.lock_timeout), x);
    let s = s + opt_prefixed("-lock-timeout="@, o.lock_timeout);
    lemma_contains_append(s, flag_arg(o.json, "-json"@), x);
    let s = s + flag_arg(o.json, "-json"@);
    lemma_contains_append(s, o.raw_args, x);
    let s = s + o.raw_args;
}

proof fn lemma_init_args_part_12(o: InitOptions, x: Seq<char>)
    requires
        (opt_prefixed("-lock-timeout="@, o.lock_timeout)).contains(x),
    ensures
        o.args().contains(x),
{
    lemma_contains_prepend(seq!["init"@] + opt_bool("-backend="@, o.backend) + each_pair("-backend-config="@, o.backend_configs) + each_prefixed("-backend-config="@, o.backend_config_files) + opt_prefixed("-from-module="@, o.from_module) + opt_bool("-get="@, o.get) + flag_arg(o.upgrade, "-upgrade"@) + flag_arg(o.reconfigure, "-reconfigure"@) + flag_arg(o.migrate_state, "-migrate-state"@) + opt_prefixed("-plugin-dir="@, o.plugin_dir) + opt_prefixed("-lockfile="@, o.lockfile) + opt_bool("-lock="@, o.lock), opt_prefixed("-lock-timeout="@, o.lock_timeout), x);
    let s = seq!["init"@] + opt_bool("-backend="@, o.backend) + each_pair("-backend-config="@, o.backend_configs) + each_prefixed("-backend-config="@, o.backend_config_files) + opt_prefixed("-from-module="@, o.from_module) + opt_bool("-get="@, o.get) + flag_arg(o.upgrade, "-upgrade"@) + flag_arg(o.reconfigure, "-reconfigure"@) + flag_arg(o.migrate_state, "-migrate-state"@) + opt_prefixed("-plugin-dir="@, o.plugin_dir) + opt_prefixed("-lockfile="@, o.lockfile) + opt_bool("-lock="@, o.lock) + opt_prefixed("-lock-timeout="@, o.lock_timeout);
    lemma_contains_append(s, flag_arg(o.json, "-json"@), x);
    let s = s + flag_arg(o.json, "-json"@);
    lemma_contains_append(s, o.raw_args, x);
    let s = s + o.raw_args;
}

proof fn lemma_init_args_part_13(o: InitOptions, x: Seq<char>)
    requires
        (flag_arg(o.json, "-json"@)).contains(x),
    ensures
        o.args().contains(x),
{
    lemma_contains_prepend(seq!["init"@] + opt_bool("-backend="@, o.backend) + each_pair("-backend-config="@, o.backend_configs) + each_prefixed("-backend-config="@, o.backend_config_files) + opt_prefixed("-from-module="@, o.from_module) + opt_bool("-get="@, o.get) + flag_arg(o.upgrade, "-upgrade"@) + flag_arg(o.reconfigure, "-reconfigure"@) + flag_arg(o.migrate_state, "-migrate-state"@) + opt_prefixed("-plugin-dir="@, o.plugin_dir) + opt_prefixed("-lockfile="@, o.lockfile) + opt_bool("-lock="@, o.lock) + opt_prefixed("-lock-timeout="@, o.lock_timeout), flag_arg(o.json, "-json"@), x);
    let s = seq!["init"@] + opt_bool("-backend="@, o.backend) + each_pair("-backend-config="@, o.backend_configs) + each_prefixed("-backend-config="@, o.backend_config_files) + opt_prefixed("-from-module="@, o.from_module) + opt_bool("-get="@, o.get) + flag_arg(o.upgrade, "-upgrade"@) + flag_arg(o.reconfigure, "-reconfigure"@) + flag_arg(o.migrate_state, "-migrate-state"@) + opt_prefixed("-plugin-dir="@, o.plugin_dir) + opt_prefixed("-lockfile="@, o.lockfile) + opt_bool("-lock="@, o.lock) + opt_prefixed("-lock-timeout="@, o.lock_timeout) + flag_arg(o.json, "-json"@);
    lemma_contains_append(s, o.raw_args, x);
    let s = s + o.raw_args;
}

proof fn lemma_init_args_part_14(o: InitOptions, x: Seq<char>)
    requires
        (o.raw_args).contains(x),
    ensures
        o.args().contains(x),
{
    lemma_contains_prepend(seq!["init"@] + opt_bool("-backend="@, o.backend) + each_pair("-backend-config="@, o.backend_configs) + each_prefixed("-backend-config="@, o.backend_config_files) + opt_prefixed("-from-module="@, o.from_module) + opt_bool("-get="@, o.get) + flag_arg(o.upgrade, "-upgrade"@) + flag_arg(o.reconfigure, "-reconfigure"@) + flag_arg(o.migrate_state, "-migrate-state"@) + opt_prefixed("-plugin-dir="@, o.plugin_dir) + opt_prefixed("-lockfile="@, o.lockfile) + opt_bool("-lock="@, o.lock) + opt_prefixed("-lock-timeout="@, o.lock_timeout) + flag_arg(o.json, "-json"@), o.raw_args, x);
    let s = seq!["init"@] + opt_bool("-backend="@, o.backend) + each_pair("-backend-config="@, o.backend_configs) + each_prefixed("-backend-config="@, o.backend_config_files) + opt_prefixed("-from-module="@, o.from_module) + opt_bool("-get="@, o.get) + flag_arg(o.upgrade, "-upgrade"@) + flag_arg(o.reconfigure, "-reconfigure"@) + flag_arg(o.migrate_state, "-migrate-state"@) + opt_prefixed("-plugin-dir="@, o.plugin_dir) + opt_prefixed("-lockfile="@, o.lockfile) + opt_bool("-lock="@, o.lock) + opt_prefixed("-lock-timeout="@, o.lock_timeout) + flag_arg(o.json, "-json"@) + o.raw_args;
}

} // verus!
