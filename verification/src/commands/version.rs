//! `terraform version`.
use vstd::prelude::*;

use crate::command::TerraformCommand;
use crate::text::{flag_arg, push_flag, push_str};

verus! {

/// Command for retrieving Terraform version information.
///
/// By default, requests JSON output for programmatic parsing.
#[derive(Debug, Clone)]
pub struct VersionCommand {
    json: bool,
}

impl VersionCommand {
    /// Whether JSON output is requested.
    pub closed spec fn wants_json(&self) -> bool {
        self.json
    }

    /// Create a new version command (JSON output enabled by default).
    pub fn new() -> (r: Self)
        ensures
            r.wants_json(),
    {
        VersionCommand { json: true }
    }

    /// Disable JSON output.
    pub fn no_json(self) -> (r: Self)
        ensures
            !r.wants_json(),
    {
        VersionCommand { json: false }
    }
}

impl Default for VersionCommand {
    fn default() -> (r: Self)
        ensures
            r.wants_json(),
    {
        VersionCommand::new()
    }
}

impl TerraformCommand for VersionCommand {
    open spec fn spec_args(&self) -> Seq<Seq<char>> {
        seq!["version"@] + flag_arg(self.wants_json(), "-json"@)
    }

    open spec fn spec_supports_input(&self) -> bool {
        false
    }

    fn args(&self) -> (r: Vec<String>) {
        let mut args: Vec<String> = Vec::new();
        push_str(&mut args, "version");
        assert(args.deep_view() =~= seq!["version"@]);
        push_flag(&mut args, self.json, "-json");
        assert(args.deep_view().len() == args@.len());
        args
    }

    fn supports_input(&self) -> (b: bool) {
        false
    }
}

} // verus!
