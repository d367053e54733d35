//! `install`: install project dependencies.
use vstd::prelude::*;

use crate::adaptors::CommandAdaptor;
use crate::cli::sub::{flag_if, push_flag, unsupported_option};
use crate::context::Context;
use crate::enums::{PackageManager, PackageManagerOperation};
use crate::errors::Error;
use crate::resolve::{command_outcome, outcome, Outcome};
use crate::strings::extend_strings;

verus! {

/// Install project dependencies
#[derive(Debug, Default)]
pub struct InstallArgs {
    /// Install production dependencies only
    pub prod: bool,
    /// Include optional dependencies; `-O, --no-optional` turns it off
    pub optional: bool,
    /// Include peer dependencies; `-P, --no-peer` turns it off
    pub peer: bool,
    /// Do not update lockfile
    pub frozen: bool,
    /// Extra arguments forwarded directly to the package manager
    pub forward_args: Vec<String>,
}

/// The flag for production dependencies only, where the package manager has one.
pub open spec fn install_prod_flag(pm: PackageManager) -> Option<Seq<char>> {
    match pm {
        PackageManager::Npm | PackageManager::Bun => Some("--omit=dev"@),
        PackageManager::Pnpm => Some("--prod"@),
        PackageManager::Yarn => Some("--production"@),
        PackageManager::YarnBerry => None,
    }
}

/// The flag that leaves out optional dependencies, where the package manager has one.
pub open spec fn install_no_optional_flag(pm: PackageManager) -> Option<Seq<char>> {
    match pm {
        PackageManager::Npm | PackageManager::Bun => Some("--omit=optional"@),
        PackageManager::Pnpm => Some("--no-optional"@),
        PackageManager::Yarn => Some("--ignore-optional"@),
        PackageManager::YarnBerry => None,
    }
}

/// The flag that leaves out peer dependencies, where the package manager has one.
pub open spec fn install_no_peer_flag(pm: PackageManager) -> Option<Seq<char>> {
    match pm {
        PackageManager::Npm | PackageManager::Bun => Some("--omit=peer"@),
        _ => None,
    }
}

/// What `install` does with package manager `pm`: the first requested option that `pm`
/// cannot honour (production only, then no optional, then no peer) is an error;
/// otherwise the flags in that order, then the forwarded arguments.
pub open spec fn install_spec(pm: PackageManager, a: InstallArgs) -> Outcome {
    let op = if a.frozen {
        PackageManagerOperation::FrozenInstall
    } else {
        PackageManagerOperation::Install
    };
    if a.prod && install_prod_flag(pm) is None {
        Outcome::Unsupported(pm, op, Some("--prod"@))
    } else if !a.optional && install_no_optional_flag(pm) is None {
        Outcome::Unsupported(pm, op, Some("--no-optional"@))
    } else if !a.peer && install_no_peer_flag(pm) is None {
        Outcome::Unsupported(pm, op, Some("--no-peer"@))
    } else {
        command_outcome(
            pm,
            op,
            flag_if(a.prod, install_prod_flag(pm)->0) + flag_if(
                !a.optional,
                install_no_optional_flag(pm)->0,
            ) + flag_if(!a.peer, install_no_peer_flag(pm)->0) + a.forward_args.deep_view(),
        )
    }
}

/// The command that installs the dependencies with package manager `pm`.
pub fn install(ctx: &Context, args: &InstallArgs, pm: PackageManager) -> (r: Result<CommandAdaptor, Error>)
    ensures
        outcome(r) == install_spec(pm, *args),
{
    let op = if args.frozen {
        PackageManagerOperation::FrozenInstall
    } else {
        PackageManagerOperation::Install
    };
    let mut resolved_args: Vec<String> = Vec::new();
    if args.prod {
        match pm {
            PackageManager::Npm | PackageManager::Bun => push_flag(&mut resolved_args, "--omit=dev"),
            PackageManager::Pnpm => push_flag(&mut resolved_args, "--prod"),
            PackageManager::Yarn => push_flag(&mut resolved_args, "--production"),
            PackageManager::YarnBerry => {
                return Err(unsupported_option(pm, op, "--prod"));
            },
        }
    }
    if !args.optional {
        match pm {
            PackageManager::Npm | PackageManager::Bun => push_flag(&mut resolved_args, "--omit=optional"),
            PackageManager::Pnpm => push_flag(&mut resolved_args, "--no-optional"),
            PackageManager::Yarn => push_flag(&mut resolved_args, "--ignore-optional"),
            PackageManager::YarnBerry => {
                return Err(unsupported_option(pm, op, "--no-optional"));
            },
        }
    }
    if !args.peer {
        match pm {
            PackageManager::Npm | PackageManager::Bun => push_flag(&mut resolved_args, "--omit=peer"),
            PackageManager::Pnpm | PackageManager::Yarn | PackageManager::YarnBerry => {
                return Err(unsupported_option(pm, op, "--no-peer"));
            },
        }
    }
    assert(resolved_args.deep_view() =~= flag_if(args.prod, install_prod_flag(pm)->0) + flag_if(
        !args.optional,
        install_no_optional_flag(pm)->0,
    ) + flag_if(!args.peer, install_no_peer_flag(pm)->0));
    extend_strings(&mut resolved_args, &args.forward_args);
    pm.run_operation(op, resolved_args)
}

} // verus!
