//! The current state, as `terraform show -json` reports it.
use vstd::prelude::*;
use std::collections::HashMap;

use crate::types::output::OutputValue;

verus! {

/// State representation from `terraform show -json` (current state).
#[derive(Debug)]
pub struct StateRepresentation {
    /// Schema format version.
    pub format_version: String,
    /// Terraform version that wrote the state.
    pub terraform_version: String,
    /// The state values.
    pub values: StateValues,
}

/// Top-level state values.
#[derive(Debug)]
pub struct StateValues {
    /// Output values.
    pub outputs: HashMap<String, OutputValue>,
    /// The root module.
    pub root_module: Module,
}

/// A module in the state or plan. Contains resources and child modules.
#[derive(Debug)]
pub struct Module {
    /// Resources in this module.
    pub resources: Vec<Resource>,
    /// Child modules.
    pub child_modules: Vec<ChildModule>,
}

/// A child module reference.
#[derive(Debug)]
pub struct ChildModule {
    /// Module address (e.g., "module.vpc").
    pub address: String,
    /// Resources in this child module.
    pub resources: Vec<Resource>,
    /// Nested child modules.
    pub child_modules: Vec<ChildModule>,
}

/// A resource in the state or plan.
#[derive(Debug)]
pub struct Resource {
    /// Full address (e.g., "null_resource.example").
    pub address: String,
    /// Mode: "managed" or "data".
    pub mode: String,
    /// Resource type (e.g., "null_resource").
    pub resource_type: String,
    /// Resource name (e.g., "example").
    pub name: String,
    /// Provider name (e.g., "registry.terraform.io/hashicorp/null").
    pub provider_name: String,
    /// Schema version.
    pub schema_version: u32,
    /// Resource attribute values.
    pub values: serde_json::Value,
    /// Which values are sensitive.
    pub sensitive_values: serde_json::Value,
}

} // verus!
