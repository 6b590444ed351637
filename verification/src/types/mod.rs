//! Typed views of Terraform's JSON output.

pub mod output;
pub mod plan;
pub mod state;
pub mod validation;
pub mod version;
