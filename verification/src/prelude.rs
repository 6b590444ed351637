//! Convenience re-exports for common usage.
//!
//! ```rust
//! use terraform_wrapper::prelude::*;
//! ```

pub use crate::client::{Terraform, TerraformBuilder};
pub use crate::command::TerraformCommand;
pub use crate::commands::{
    ApplyCommand, DestroyCommand, FmtCommand, ForceUnlockCommand, GetCommand, GraphCommand,
    ImportCommand, InitCommand, ModulesCommand, OutputCommand, OutputResult, PlanCommand,
    ProvidersCommand, RawCommand, RefreshCommand, ShowCommand, ShowResult, StateCommand, TestCommand,
    ValidateCommand, VersionCommand, WorkspaceCommand,
};
pub use crate::exec::CommandOutput;
