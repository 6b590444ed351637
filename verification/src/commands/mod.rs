//! The command builders, one module per Terraform subcommand.
use vstd::prelude::*;

use crate::command::TerraformCommand;

pub mod apply;
pub mod destroy;
pub mod fmt;
pub mod force_unlock;
pub mod get;
pub mod graph;
pub mod import;
pub mod init;
pub mod modules;
pub mod output;
pub mod plan;
pub mod providers;
pub mod raw;
pub mod refresh;
pub mod show;
pub mod state;
pub mod test;
pub mod validate;
pub mod version;
pub mod workspace;

pub use apply::ApplyCommand;
pub use destroy::DestroyCommand;
pub use fmt::FmtCommand;
pub use force_unlock::ForceUnlockCommand;
pub use get::GetCommand;
pub use graph::GraphCommand;
pub use import::ImportCommand;
pub use init::InitCommand;
pub use modules::ModulesCommand;
pub use output::{OutputCommand, OutputResult};
pub use plan::PlanCommand;
pub use providers::ProvidersCommand;
pub use raw::RawCommand;
pub use refresh::RefreshCommand;
pub use show::{ShowCommand, ShowResult};
pub use state::StateCommand;
pub use test::TestCommand;
pub use validate::ValidateCommand;
pub use version::VersionCommand;
pub use workspace::WorkspaceCommand;

verus! {

/// The commands that accept `-input` (init, plan, apply, destroy, import
/// and refresh) take `-input=false` from a client with input disabled; every
/// other command does not.
pub proof fn law_input_commands(
    init: InitCommand,
    plan: PlanCommand,
    apply: ApplyCommand,
    destroy: DestroyCommand,
    import: ImportCommand,
    refresh: RefreshCommand,
    fmt: FmtCommand,
    force_unlock: ForceUnlockCommand,
    get: GetCommand,
    graph: GraphCommand,
    modules: ModulesCommand,
    output: OutputCommand,
    providers: ProvidersCommand,
    raw: RawCommand,
    show: ShowCommand,
    state: StateCommand,
    test: TestCommand,
    validate: ValidateCommand,
    version: VersionCommand,
    workspace: WorkspaceCommand,
)
    ensures
        init.spec_supports_input(),
        plan.spec_supports_input(),
        apply.spec_supports_input(),
        destroy.spec_supports_input(),
        import.spec_supports_input(),
        refresh.spec_supports_input(),
        !fmt.spec_supports_input(),
        !force_unlock.spec_supports_input(),
        !get.spec_supports_input(),
        !graph.spec_supports_input(),
        !modules.spec_supports_input(),
        !output.spec_supports_input(),
        !providers.spec_supports_input(),
        !raw.spec_supports_input(),
        !show.spec_supports_input(),
        !state.spec_supports_input(),
        !test.spec_supports_input(),
        !validate.spec_supports_input(),
        !version.spec_supports_input(),
        !workspace.spec_supports_input(),
{
}

} // verus!
