//! `exec`: execute a command from installed packages.
use vstd::prelude::*;

use crate::adaptors::CommandAdaptor;
use crate::context::Context;
use crate::enums::{PackageManager, PackageManagerOperation};
use crate::errors::Error;
use crate::resolve::{command_outcome, outcome, Outcome};
use crate::strings::copy_strings;

verus! {

/// Execute a command from installed packages
#[derive(Debug, Default)]
pub struct ExecArgs {
    /// Extra arguments forwarded directly to the package manager
    pub forward_args: Vec<String>,
}

/// What `exec` does with package manager `pm`: the forwarded arguments, unchanged.
pub open spec fn exec_spec(pm: PackageManager, a: ExecArgs) -> Outcome {
    command_outcome(pm, PackageManagerOperation::Exec, a.forward_args.deep_view())
}

/// The command that executes an installed command with package manager `pm`.
pub fn exec(ctx: &Context, args: &ExecArgs, pm: PackageManager) -> (r: Result<CommandAdaptor, Error>)
    ensures
        outcome(r) == exec_spec(pm, *args),
{
    let op = PackageManagerOperation::Exec;
    let resolved_args = copy_strings(&args.forward_args);
    pm.run_operation(op, resolved_args)
}

} // verus!
