//! The interface shared by all command builders.
use vstd::prelude::*;

use crate::client::Terraform;

verus! {

/// `args` with `-input=false` inserted right after the subcommand name when
/// `inject` holds, unchanged otherwise.
pub open spec fn with_input_flag(args: Seq<Seq<char>>, inject: bool) -> Seq<Seq<char>> {
    if inject {
        args.insert(1, "-input=false"@)
    } else {
        args
    }
}

/// Trait implemented by all Terraform command builders.
///
/// Each command produces its CLI arguments with [`args`](TerraformCommand::args):
/// the subcommand name followed by all flags and options.
pub trait TerraformCommand {
    /// The argument list of this command.
    spec fn spec_args(&self) -> Seq<Seq<char>>;

    /// Whether this command accepts `-input=false`.
    spec fn spec_supports_input(&self) -> bool;

    /// Build the argument list for this command.
    fn args(&self) -> (r: Vec<String>)
        ensures
            r.deep_view() == self.spec_args(),
            r.len() > 0,
    ;

    /// Whether this command supports the `-input=false` flag (init, plan,
    /// apply, destroy, import and refresh do).
    fn supports_input(&self) -> (b: bool)
        ensures
            b == self.spec_supports_input(),
    ;

    /// Build the argument list with `-input=false` inserted after the
    /// subcommand name when the client disables input and the command
    /// supports the flag.
    fn prepare_args(&self, tf: &Terraform) -> (r: Vec<String>)
        ensures
            r.deep_view() == with_input_flag(self.spec_args(), tf@.no_input && self.spec_supports_input()),
    {
        let mut args = self.args();
        if tf.input_disabled() && self.supports_input() {
            args.insert(1, String::from_str("-input=false"));
        }
        args
    }
}

/// Preparing arguments keeps the subcommand name first; where the flag is
/// injected it stands second and every other argument keeps its order.
pub proof fn law_prepared_args_shape(args: Seq<Seq<char>>, inject: bool)
    requires
        args.len() > 0,
    ensures
        with_input_flag(args, inject)[0] == args[0],
        inject ==> with_input_flag(args, inject).len() == args.len() + 1,
        inject ==> with_input_flag(args, inject)[1] == "-input=false"@,
        inject ==> with_input_flag(args, inject).remove(1) == args,
        !inject ==> with_input_flag(args, inject) == args,
{
    if inject {
        assert(args.insert(1, "-input=false"@).remove(1) =~= args);
    }
}

} // verus!
