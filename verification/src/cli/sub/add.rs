//! `add`: add packages to the project or globally.
use vstd::prelude::*;

use crate::adaptors::CommandAdaptor;
use crate::cli::sub::{flag_if, npm_like, push_flag};
use crate::context::Context;
use crate::enums::{PackageManager, PackageManagerOperation};
use crate::errors::Error;
use crate::resolve::{command_outcome, outcome, Outcome};
use crate::strings::extend_strings;

verus! {

/// Add packages to the project or globally
#[derive(Debug, Default)]
pub struct AddArgs {
    /// Add to global packages
    pub global: bool,
    /// Add as development dependencies
    pub dev: bool,
    /// Add as optional dependencies
    pub optional: bool,
    /// Add as peer dependencies
    pub peer: bool,
    /// Use exact version
    pub exact: bool,
    /// Extra options and packages forwarded directly to the package manager
    pub forward_args: Vec<String>,
}

/// The flags `add` puts before the forwarded arguments: one for the dependency kind
/// (development wins over optional, optional over peer), then one for exact versions.
pub open spec fn add_flags(pm: PackageManager, a: AddArgs) -> Seq<Seq<char>> {
    (if a.dev {
        seq![if npm_like(pm) { "--save-dev"@ } else { "--dev"@ }]
    } else if a.optional {
        seq![if npm_like(pm) { "--save-optional"@ } else { "--optional"@ }]
    } else if a.peer {
        seq![if npm_like(pm) { "--save-peer"@ } else { "--peer"@ }]
    } else {
        Seq::empty()
    }) + flag_if(a.exact, if npm_like(pm) { "--save-exact"@ } else { "--exact"@ })
}

/// What `add` does with package manager `pm`.
pub open spec fn add_spec(pm: PackageManager, a: AddArgs) -> Outcome {
    command_outcome(
        pm,
        if a.global { PackageManagerOperation::GlobalAdd } else { PackageManagerOperation::Add },
        add_flags(pm, a) + a.forward_args.deep_view(),
    )
}

/// The command that adds the packages with package manager `pm`.
pub fn add(ctx: &Context, args: &AddArgs, pm: PackageManager) -> (r: Result<CommandAdaptor, Error>)
    ensures
        outcome(r) == add_spec(pm, *args),
{
    let op = if args.global { PackageManagerOperation::GlobalAdd } else { PackageManagerOperation::Add };
    let npm_style = matches!(pm, PackageManager::Npm | PackageManager::Pnpm);
    let mut resolved_args: Vec<String> = Vec::new();
    if args.dev {
        push_flag(&mut resolved_args, if npm_style { "--save-dev" } else { "--dev" });
    } else if args.optional {
        push_flag(&mut resolved_args, if npm_style { "--save-optional" } else { "--optional" });
    } else if args.peer {
        push_flag(&mut resolved_args, if npm_style { "--save-peer" } else { "--peer" });
    }
    if args.exact {
        push_flag(&mut resolved_args, if npm_style { "--save-exact" } else { "--exact" });
    }
    assert(resolved_args.deep_view() =~= add_flags(pm, *args));
    extend_strings(&mut resolved_args, &args.forward_args);
    pm.run_operation(op, resolved_args)
}

} // verus!
