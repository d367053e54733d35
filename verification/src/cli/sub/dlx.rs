//! `dlx`: execute a command without installing packages.
use vstd::prelude::*;

use crate::adaptors::CommandAdaptor;
use crate::context::Context;
use crate::enums::{PackageManager, PackageManagerOperation};
use crate::errors::Error;
use crate::resolve::{command_outcome, outcome, Outcome};
use crate::strings::copy_strings;

verus! {

/// Execute a command without installing packages
#[derive(Debug, Default)]
pub struct DlxArgs {
    /// Use the global package manager; `-G, --no-global` turns it off
    pub global: bool,
    /// Extra arguments forwarded directly to the package manager
    pub forward_args: Vec<String>,
}

/// What `dlx` does with package manager `pm`: the forwarded arguments, unchanged.
pub open spec fn dlx_spec(pm: PackageManager, a: DlxArgs) -> Outcome {
    command_outcome(pm, PackageManagerOperation::Dlx, a.forward_args.deep_view())
}

/// The command that executes the command without installing it with package manager `pm`.
pub fn dlx(ctx: &Context, args: &DlxArgs, pm: PackageManager) -> (r: Result<CommandAdaptor, Error>)
    ensures
        outcome(r) == dlx_spec(pm, *args),
{
    let op = PackageManagerOperation::Dlx;
    let resolved_args = copy_strings(&args.forward_args);
    pm.run_operation(op, resolved_args)
}

} // verus!
