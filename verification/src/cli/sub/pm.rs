//! `pm`: forward options and arguments directly to the package manager.
use vstd::prelude::*;

use crate::adaptors::CommandAdaptor;
use crate::context::Context;
use crate::enums::{PackageManager, PackageManagerOperation};
use crate::errors::Error;
use crate::resolve::{command_outcome, outcome, Outcome};
use crate::strings::copy_strings;

verus! {

/// Forward options and arguments directly to the package manager
#[derive(Debug, Default)]
pub struct PmArgs {
    /// Use global package manager
    pub global: bool,
    /// Extra arguments forwarded directly to the package manager
    pub forward_args: Vec<String>,
}

/// What `pm` does with package manager `pm`: the forwarded arguments, unchanged.
pub open spec fn pm_spec(pm: PackageManager, a: PmArgs) -> Outcome {
    command_outcome(pm, PackageManagerOperation::Pm, a.forward_args.deep_view())
}

/// The command that forwards the arguments to `package_manager`.
pub fn pm(ctx: &Context, args: &PmArgs, package_manager: PackageManager) -> (r: Result<CommandAdaptor, Error>)
    ensures
        outcome(r) == pm_spec(package_manager, *args),
{
    let op = PackageManagerOperation::Pm;
    let resolved_args = copy_strings(&args.forward_args);
    package_manager.run_operation(op, resolved_args)
}

} // verus!
