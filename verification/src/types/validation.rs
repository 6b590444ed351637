//! The report of `terraform validate -json`.
use vstd::prelude::*;

verus! {

/// Result from `terraform validate -json`.
#[derive(Debug, Clone)]
pub struct ValidationResult {
    /// Schema format version.
    pub format_version: String,
    /// Whether the configuration is valid.
    pub valid: bool,
    /// Number of errors.
    pub error_count: u32,
    /// Number of warnings.
    pub warning_count: u32,
    /// Diagnostic messages.
    pub diagnostics: Vec<Diagnostic>,
}

/// A diagnostic message from Terraform.
#[derive(Debug, Clone)]
pub struct Diagnostic {
    /// Severity: "error" or "warning".
    pub severity: String,
    /// Short summary of the issue.
    pub summary: String,
    /// Detailed description.
    pub detail: String,
    /// Source range where the issue was found.
    pub range: Option<DiagnosticRange>,
}

/// Source location for a diagnostic.
#[derive(Debug, Clone)]
pub struct DiagnosticRange {
    /// The filename containing the issue.
    pub filename: String,
    /// Start position.
    pub start: DiagnosticPos,
    /// End position.
    pub end: DiagnosticPos,
}

/// A position within a source file.
#[derive(Debug, Clone)]
pub struct DiagnosticPos {
    /// Line number (1-indexed).
    pub line: u32,
    /// Column number (1-indexed).
    pub column: u32,
    /// Byte offset.
    pub byte: u32,
}

} // verus!
