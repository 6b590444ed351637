//! Output values from `terraform output -json`.
use vstd::prelude::*;

verus! {

/// `serde_json::Value`, held opaquely: a JSON value that the library
/// carries but does not read.
#[verifier::external_type_specification]
#[verifier::external_body]
pub struct ExJsonValue(serde_json::Value);

/// A single Terraform output value from `terraform output -json`.
#[derive(Debug)]
pub struct OutputValue {
    /// Whether the output is marked as sensitive.
    pub sensitive: bool,
    /// The Terraform type expression (as a JSON value).
    pub output_type: serde_json::Value,
    /// The output value.
    pub value: serde_json::Value,
}

} // verus!
