//! Streaming JSON output from `terraform plan` and `terraform apply`.
//!
//! When run with `-json`, Terraform produces one JSON object per line
//! (NDJSON), each representing an event like resource creation, progress,
//! or completion.
use vstd::prelude::*;

verus! {

/// A single JSON log line from Terraform's streaming output.
///
/// Terraform emits these as NDJSON (one per line) when commands are run
/// with the `-json` flag.
#[derive(Debug)]
pub struct JsonLogLine {
    /// Log level: "info", "warn", "error".
    pub level: String,
    /// Human-readable message.
    pub message: String,
    /// Module that emitted the message (e.g., "terraform.ui").
    pub module: String,
    /// ISO 8601 timestamp.
    pub timestamp: String,
    /// Event type: "version", "planned_change", "change_summary",
    /// "apply_start", "apply_progress", "apply_complete",
    /// "apply_errored", "outputs", etc.
    pub log_type: String,
    /// Change details (for planned_change events).
    pub change: serde_json::Value,
    /// Hook details (for apply_start/apply_complete/apply_progress events).
    pub hook: serde_json::Value,
    /// Change summary (for change_summary events).
    pub changes: serde_json::Value,
    /// Output values (for outputs events).
    pub outputs: serde_json::Value,
}

} // verus!
