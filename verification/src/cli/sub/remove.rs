//! `remove`: remove packages from the project or globally.
use vstd::prelude::*;

use crate::adaptors::CommandAdaptor;
use crate::context::Context;
use crate::enums::{PackageManager, PackageManagerOperation};
use crate::errors::Error;
use crate::resolve::{command_outcome, outcome, Outcome};
use crate::strings::copy_strings;

verus! {

/// Remove packages from the project or globally
#[derive(Debug, Default)]
pub struct RemoveArgs {
    /// Remove from global packages
    pub global: bool,
    /// Extra options and packages forwarded directly to the package manager
    pub forward_args: Vec<String>,
}

/// What `remove` does with package manager `pm`: the forwarded arguments, to the global packages when `global` is set.
pub open spec fn remove_spec(pm: PackageManager, a: RemoveArgs) -> Outcome {
    command_outcome(pm, if a.global { PackageManagerOperation::GlobalRemove } else { PackageManagerOperation::Remove }, a.forward_args.deep_view())
}

/// The command that removes the packages with package manager `pm`.
pub fn remove(ctx: &Context, args: &RemoveArgs, pm: PackageManager) -> (r: Result<CommandAdaptor, Error>)
    ensures
        outcome(r) == remove_spec(pm, *args),
{
    let op = if args.global { PackageManagerOperation::GlobalRemove } else { PackageManagerOperation::Remove };
    let resolved_args = copy_strings(&args.forward_args);
    pm.run_operation(op, resolved_args)
}

} // verus!
