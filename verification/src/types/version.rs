//! The report of `terraform version -json`.
use vstd::prelude::*;
use std::collections::HashMap;

verus! {

/// Terraform version information from `terraform version -json`.
#[derive(Debug, Clone)]
pub struct VersionInfo {
    /// Terraform version string (e.g., "1.14.6").
    pub terraform_version: String,
    /// Platform identifier (e.g., "darwin_arm64").
    pub platform: String,
    /// Map of provider name to selected version.
    pub provider_selections: HashMap<String, String>,
    /// Whether a newer version of Terraform is available.
    pub terraform_outdated: bool,
}

} // verus!
