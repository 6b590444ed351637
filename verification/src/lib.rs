//! A type-safe Terraform CLI wrapper: command builders whose argument lists
//! are specified and verified, plus the decisions around running them.

pub mod client;
pub mod command;
pub mod commands;
pub mod config;
pub mod error;
pub mod exec;
pub mod keyed;
pub mod prelude;
pub mod streaming;
pub mod text;
pub mod types;

pub use client::{Terraform, TerraformBuilder};
pub use command::TerraformCommand;
pub use error::{Error, Result};
pub use exec::CommandOutput;
