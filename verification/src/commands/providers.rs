//! `terraform providers` and its subcommands.
use vstd::prelude::*;

use crate::command::TerraformCommand;
use crate::text::{each_prefixed, push_all, push_prefixed, push_str};

verus! {

/// The providers subcommand to execute.
#[derive(Debug, Clone)]
pub enum ProvidersSubcommand {
    /// List required providers for the configuration.
    Default,
    /// Write provider dependency lock file.
    Lock,
    /// Mirror providers to a local directory.
    Mirror(String),
    /// Output provider schemas as JSON.
    Schema,
}

/// A [`ProvidersSubcommand`] as a plain value.
pub enum ProvidersAction {
    Default,
    Lock,
    Mirror(Seq<char>),
    Schema,
}

impl View for ProvidersSubcommand {
    type V = ProvidersAction;

    open spec fn view(&self) -> ProvidersAction {
        match self {
            ProvidersSubcommand::Default => ProvidersAction::Default,
            ProvidersSubcommand::Lock => ProvidersAction::Lock,
            ProvidersSubcommand::Mirror(dir) => ProvidersAction::Mirror(dir@),
            ProvidersSubcommand::Schema => ProvidersAction::Schema,
        }
    }
}

/// The options of a [`ProvidersCommand`], as plain values.
#[verifier::ext_equal]
pub struct ProvidersOptions {
    pub subcommand: ProvidersAction,
    pub platforms: Seq<Seq<char>>,
    pub raw_args: Seq<Seq<char>>,
}

impl ProvidersOptions {
    /// A fresh command for `subcommand`.
    pub open spec fn initial(subcommand: ProvidersAction) -> Self {
        ProvidersOptions { subcommand, platforms: seq![], raw_args: seq![] }
    }

    /// The arguments that follow `providers` for the subcommand: platforms
    /// go to `lock` and `mirror` only, and the mirror's target directory
    /// after them.
    pub open spec fn subcommand_args(self) -> Seq<Seq<char>> {
        match self.subcommand {
            ProvidersAction::Default => seq![],
            ProvidersAction::Lock => seq!["lock"@] + each_prefixed("-platform="@, self.platforms),
            ProvidersAction::Mirror(dir) => seq!["mirror"@] + each_prefixed("-platform="@, self.platforms) + seq![dir],
            ProvidersAction::Schema => seq!["schema"@, "-json"@],
        }
    }

    /// `providers`, the subcommand's arguments, then the raw arguments.
    pub open spec fn args(self) -> Seq<Seq<char>> {
        seq!["providers"@] + self.subcommand_args() + self.raw_args
    }
}

/// Command for listing and managing Terraform providers.
#[derive(Debug, Clone)]
pub struct ProvidersCommand {
    subcommand: ProvidersSubcommand,
    platforms: Vec<String>,
    raw_args: Vec<String>,
}

impl View for ProvidersCommand {
    type V = ProvidersOptions;

    closed spec fn view(&self) -> ProvidersOptions {
        ProvidersOptions {
            subcommand: self.subcommand@,
            platforms: self.platforms.deep_view(),
            raw_args: self.raw_args.deep_view(),
        }
    }
}

impl ProvidersCommand {
    fn with_subcommand(subcommand: ProvidersSubcommand) -> (r: Self)
        ensures
            r@ == ProvidersOptions::initial(subcommand@),
    {
        let r = ProvidersCommand { subcommand, platforms: Vec::new(), raw_args: Vec::new() };
        assert(r@ =~= ProvidersOptions::initial(subcommand@));
        r
    }

    /// List required providers (default subcommand).
    pub fn new() -> (r: Self)
        ensures
            r@ == ProvidersOptions::initial(ProvidersAction::Default),
    {
        Self::with_subcommand(ProvidersSubcommand::Default)
    }

    /// Write the provider dependency lock file (`providers lock`).
    pub fn lock() -> (r: Self)
        ensures
            r@ == ProvidersOptions::initial(ProvidersAction::Lock),
    {
        Self::with_subcommand(ProvidersSubcommand::Lock)
    }

    /// Mirror providers to a local directory (`providers mirror <target_dir>`).
    pub fn mirror(target_dir: &str) -> (r: Self)
        ensures
            r@ == ProvidersOptions::initial(ProvidersAction::Mirror(target_dir@)),
    {
        Self::with_subcommand(ProvidersSubcommand::Mirror(String::from_str(target_dir)))
    }

    /// Output provider schemas as JSON (`providers schema -json`).
    pub fn schema() -> (r: Self)
        ensures
            r@ == ProvidersOptions::initial(ProvidersAction::Schema),
    {
        Self::with_subcommand(ProvidersSubcommand::Schema)
    }

    /// Target a specific platform (`-platform`). Can be called multiple times.
    ///
    /// Applies to `lock` and `mirror` subcommands.
    pub fn platform(self, platform: &str) -> (r: Self)
        ensures
            r@ == (ProvidersOptions { platforms: self@.platforms.push(platform@), ..self@ }),
    {
        let mut s = self;
        push_str(&mut s.platforms, platform);
        s
    }

    /// Add a raw argument (escape hatch for unsupported options).
    pub fn arg(self, arg: &str) -> (r: Self)
        ensures
            r@ == (ProvidersOptions { raw_args: self@.raw_args.push(arg@), ..self@ }),
    {
        let mut s = self;
        push_str(&mut s.raw_args, arg);
        s
    }
}

impl Default for ProvidersCommand {
    fn default() -> (r: Self)
        ensures
            r@ == ProvidersOptions::initial(ProvidersAction::Default),
    {
        Self::new()
    }
}

impl TerraformCommand for ProvidersCommand {
    open spec fn spec_args(&self) -> Seq<Seq<char>> {
        self@.args()
    }

    open spec fn spec_supports_input(&self) -> bool {
        false
    }

    fn args(&self) -> (r: Vec<String>) {
        let mut args: Vec<String> = Vec::new();
        push_str(&mut args, "providers");
        let ghost start = args.deep_view();
        match &self.subcommand {
            ProvidersSubcommand::Default => {},
            ProvidersSubcommand::Lock => {
                push_str(&mut args, "lock");
                push_prefixed(&mut args, "-platform=", &self.platforms);
            },
            ProvidersSubcommand::Mirror(target_dir) => {
                push_str(&mut args, "mirror");
                push_prefixed(&mut args, "-platform=", &self.platforms);
                push_str(&mut args, target_dir.as_str());
            },
            ProvidersSubcommand::Schema => {
                push_str(&mut args, "schema");
                push_str(&mut args, "-json");
            },
        }
        assert(args.deep_view() =~= seq!["providers"@] + self@.subcommand_args());
        push_all(&mut args, &self.raw_args);
        assert(args.deep_view() =~= self@.args());
        assert(args.deep_view().len() == args@.len());
        args
    }

    fn supports_input(&self) -> (b: bool) {
        false
    }
}

/// `providers` comes first; platforms reach `lock` and `mirror` only, and
/// the other subcommands give the same arguments whatever platforms were set.
pub proof fn law_providers_platforms(a: ProvidersOptions, b: ProvidersOptions)
    requires
        a.subcommand == b.subcommand,
        a.raw_args == b.raw_args,
        a.subcommand is Default || a.subcommand is Schema,
    ensures
        a.args()[0] == "providers"@,
        a.args() == b.args(),
{
}

/// A mirror's target directory comes after every platform flag.
pub proof fn law_providers_mirror_target_after_platforms(o: ProvidersOptions)
    requires
        o.subcommand matches ProvidersAction::Mirror(_),
    ensures
        o.args()[2 + o.platforms.len() as int] == o.subcommand->Mirror_0,
{
}

} // verus!
