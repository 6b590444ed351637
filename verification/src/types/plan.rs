//! A saved plan, as `terraform show -json <planfile>` reports it.
use vstd::prelude::*;
use std::collections::HashMap;

use crate::types::output::OutputValue;
use crate::types::state::{Module, StateRepresentation};

verus! {

/// Plan representation from `terraform show -json <planfile>`.
#[derive(Debug)]
pub struct PlanRepresentation {
    /// Schema format version.
    pub format_version: String,
    /// Terraform version that created the plan.
    pub terraform_version: String,
    /// The planned values after apply.
    pub planned_values: PlannedValues,
    /// Changes to resources.
    pub resource_changes: Vec<ResourceChange>,
    /// Changes to outputs.
    pub output_changes: HashMap<String, OutputChange>,
    /// Prior state (if any).
    pub prior_state: Option<StateRepresentation>,
    /// Plan timestamp.
    pub timestamp: Option<String>,
    /// Whether the plan can be applied.
    pub applyable: bool,
    /// Whether the plan is complete.
    pub complete: bool,
    /// Whether the plan errored.
    pub errored: bool,
}

/// Planned values after apply.
#[derive(Debug)]
pub struct PlannedValues {
    /// Planned output values.
    pub outputs: HashMap<String, OutputValue>,
    /// The planned root module.
    pub root_module: Module,
}

/// A change to a single resource.
#[derive(Debug)]
pub struct ResourceChange {
    /// Resource address (e.g., "null_resource.example").
    pub address: String,
    /// Mode: "managed" or "data".
    pub mode: String,
    /// Resource type.
    pub resource_type: String,
    /// Resource name.
    pub name: String,
    /// Provider name.
    pub provider_name: String,
    /// The change details.
    pub change: Change,
}

/// Details of a resource change.
#[derive(Debug)]
pub struct Change {
    /// Actions: "no-op", "create", "read", "update", "delete", or combinations.
    pub actions: Vec<String>,
    /// Values before the change.
    pub before: serde_json::Value,
    /// Values after the change.
    pub after: serde_json::Value,
    /// Which values are unknown after apply.
    pub after_unknown: serde_json::Value,
    /// Which before-values are sensitive.
    pub before_sensitive: serde_json::Value,
    /// Which after-values are sensitive.
    pub after_sensitive: serde_json::Value,
}

/// A change to a single output.
#[derive(Debug)]
pub struct OutputChange {
    /// Actions: "no-op", "create", "update", "delete".
    pub actions: Vec<String>,
    /// Value before the change.
    pub before: serde_json::Value,
    /// Value after the change.
    pub after: serde_json::Value,
    /// Whether after value is unknown.
    pub after_unknown: serde_json::Value,
    /// Whether before value is sensitive.
    pub before_sensitive: serde_json::Value,
    /// Whether after value is sensitive.
    pub after_sensitive: serde_json::Value,
}

} // verus!
