//! The error type of the library.
use vstd::prelude::*;
use serde_json::Error as JsonError;
use vstd::string::to_string_from_display_ensures;

verus! {

/// `std::io::Error`, held opaquely as the source of an I/O failure.
#[verifier::external_type_specification]
#[verifier::external_body]
pub struct ExIoError(std::io::Error);

/// `serde_json::Error`, held opaquely as the source of a JSON parse failure.
#[verifier::external_type_specification]
#[verifier::external_body]
pub struct ExJsonError(JsonError);

/// Result type for terraform-wrapper operations.
pub type Result<T> = std::result::Result<T, Error>;

/// Error type for terraform-wrapper operations.
#[derive(Debug)]
#[allow(inconsistent_fields)]
pub enum Error {
    /// Terraform binary not found.
    NotFound,
    /// Command exited with a status that the command does not accept.
    CommandFailed {
        /// The subcommand that failed (e.g. "init", "plan").
        command: String,
        /// Process exit code.
        exit_code: i32,
        /// Captured stdout.
        stdout: String,
        /// Captured stderr.
        stderr: String,
    },
    /// Failed to parse command output.
    ParseError {
        /// Description of what failed to parse.
        message: String,
    },
    /// IO error during subprocess execution.
    Io {
        /// Description of the IO operation.
        message: String,
        /// Underlying IO error.
        source: std::io::Error,
    },
    /// JSON deserialization error.
    Json {
        /// Description of what was being parsed.
        message: String,
        /// Underlying serde_json error.
        source: JsonError,
    },
    /// The command ran longer than its timeout.
    Timeout {
        /// The timeout that was exceeded, in whole seconds.
        timeout_seconds: u64,
    },
}

} // verus!

verus! {

/// `std::io::Error::kind` from std, compared with `ErrorKind::NotFound`:
/// whether the failed operation did not find its file. Nothing is stated of
/// the result: the error is opaque here, and which operating-system error
/// codes count as "not found" depends on the platform.
#[verifier::external_body]
fn io_error_is_not_found(e: &std::io::Error) -> bool {
    match e.kind() {
        std::io::ErrorKind::NotFound => true,
        _ => false,
    }
}

impl Error {
    /// The error for a failed I/O operation, given whether the program or
    /// file was not found and a description of the failure.
    pub fn io_failure(not_found: bool, message: String, source: std::io::Error) -> (r: Error)
        ensures
            not_found ==> r is NotFound,
            !not_found ==> (r matches Error::Io { message: m, source: s } && m == message && s == source),
    {
        if not_found {
            Error::NotFound
        } else {
            Error::Io { message, source }
        }
    }

    /// The error for an I/O error: [`Error::NotFound`] when the error says
    /// that a file was not found, otherwise [`Error::Io`] with the error's
    /// text as message and the error as source.
    pub fn from_io(e: std::io::Error) -> (r: Error)
        ensures
            r is NotFound || (r matches Error::Io { message: m, source: s }
                && s == e && to_string_from_display_ensures::<std::io::Error>(&e, m)),
    {
        let not_found = io_error_is_not_found(&e);
        let message = e.to_string();
        Error::io_failure(not_found, message, e)
    }

    /// The error for a process that could not be started or waited for:
    /// [`Error::NotFound`] when the program was not found, otherwise
    /// [`Error::Io`] with the message `<context>: <error text>`.
    pub fn from_process_failure(context: &str, e: std::io::Error) -> (r: Error)
        ensures
            r is NotFound || (r matches Error::Io { message: m, source: s } && s == e
                && exists|t: String| to_string_from_display_ensures::<std::io::Error>(&e, t)
                    && m@ == context@ + ": "@ + t@),
    {
        let not_found = io_error_is_not_found(&e);
        let text = e.to_string();
        let message = String::from_str(context).concat(": ").concat(text.as_str());
        Error::io_failure(not_found, message, e)
    }
}

} // verus!
