//! `list`: list installed packages.
use vstd::prelude::*;

use crate::adaptors::CommandAdaptor;
use crate::cli::sub::{flag_if, push_flag, unsupported_option};
use crate::context::Context;
use crate::enums::{PackageManager, PackageManagerOperation};
use crate::errors::Error;
use crate::resolve::{command_outcome, outcome, Outcome};
use crate::strings::extend_strings;

verus! {

/// List installed packages
#[derive(Debug, Default)]
pub struct ListArgs {
    /// List global packages
    pub global: bool,
    /// List production dependencies only
    pub prod: bool,
    /// List development dependencies only
    pub dev: bool,
    /// Include optional dependencies; `-O, --no-optional` turns it off
    pub optional: bool,
    /// Include peer dependencies; `-P, --no-peer` turns it off
    pub peer: bool,
    /// Extra options and packages forwarded directly to the package manager
    pub forward_args: Vec<String>,
}

/// The `--prod` flag of `list` for each package manager, where it has one.
pub open spec fn list_prod_flag(pm: PackageManager) -> Option<Seq<char>> {
    match pm {
        PackageManager::Npm => Some("--omit=dev"@),
        PackageManager::Pnpm => Some("--prod"@),
        PackageManager::Yarn => None,
        PackageManager::YarnBerry => None,
        PackageManager::Bun => None,
    }
}

/// The `--dev` flag of `list` for each package manager, where it has one.
pub open spec fn list_dev_flag(pm: PackageManager) -> Option<Seq<char>> {
    match pm {
        PackageManager::Npm => None,
        PackageManager::Pnpm => Some("--dev"@),
        PackageManager::Yarn => None,
        PackageManager::YarnBerry => None,
        PackageManager::Bun => None,
    }
}

/// The `--no-optional` flag of `list` for each package manager, where it has one.
pub open spec fn list_no_optional_flag(pm: PackageManager) -> Option<Seq<char>> {
    match pm {
        PackageManager::Npm => Some("--omit=optional"@),
        PackageManager::Pnpm => Some("--no-optional"@),
        PackageManager::Yarn => None,
        PackageManager::YarnBerry => None,
        PackageManager::Bun => None,
    }
}

/// The `--no-peer` flag of `list` for each package manager, where it has one.
pub open spec fn list_no_peer_flag(pm: PackageManager) -> Option<Seq<char>> {
    match pm {
        PackageManager::Npm => Some("--omit=peer"@),
        PackageManager::Pnpm => Some("--exclude-peers"@),
        PackageManager::Yarn => None,
        PackageManager::YarnBerry => None,
        PackageManager::Bun => None,
    }
}

/// What `list` does with package manager `pm`: the first requested option that `pm` cannot honour (production only, else development only; then no optional; then no peer) is an error; otherwise their flags in that order, then the forwarded arguments.
pub open spec fn list_spec(pm: PackageManager, a: ListArgs) -> Outcome {
    let op = if a.global { PackageManagerOperation::GlobalList } else { PackageManagerOperation::List };
    if a.prod && list_prod_flag(pm) is None {
        Outcome::Unsupported(pm, op, Some("--prod"@))
    } else if !a.prod && a.dev && list_dev_flag(pm) is None {
        Outcome::Unsupported(pm, op, Some("--dev"@))
    } else if !a.optional && list_no_optional_flag(pm) is None {
        Outcome::Unsupported(pm, op, Some("--no-optional"@))
    } else if !a.peer && list_no_peer_flag(pm) is None {
        Outcome::Unsupported(pm, op, Some("--no-peer"@))
    } else {
        command_outcome(pm, op, flag_if(a.prod, list_prod_flag(pm)->0) + flag_if(!a.prod && a.dev, list_dev_flag(pm)->0) + flag_if(!a.optional, list_no_optional_flag(pm)->0) + flag_if(!a.peer, list_no_peer_flag(pm)->0) + a.forward_args.deep_view())
    }
}

/// The command that does `list` with package manager `pm`.
pub fn list(ctx: &Context, args: &ListArgs, pm: PackageManager) -> (r: Result<CommandAdaptor, Error>)
    ensures
        outcome(r) == list_spec(pm, *args),
{
    let op = if args.global { PackageManagerOperation::GlobalList } else { PackageManagerOperation::List };
    let mut resolved_args: Vec<String> = Vec::new();
    if args.prod {
        match pm {
            PackageManager::Npm => push_flag(&mut resolved_args, "--omit=dev"),
            PackageManager::Pnpm => push_flag(&mut resolved_args, "--prod"),
            PackageManager::Yarn => {
                return Err(unsupported_option(pm, op, "--prod"));
            },
            PackageManager::YarnBerry => {
                return Err(unsupported_option(pm, op, "--prod"));
            },
            PackageManager::Bun => {
                return Err(unsupported_option(pm, op, "--prod"));
            },
        }
    } else if args.dev {
        match pm {
            PackageManager::Npm => {
                return Err(unsupported_option(pm, op, "--dev"));
            },
            PackageManager::Pnpm => push_flag(&mut resolved_args, "--dev"),
            PackageManager::Yarn => {
                return Err(unsupported_option(pm, op, "--dev"));
            },
            PackageManager::YarnBerry => {
                return Err(unsupported_option(pm, op, "--dev"));
            },
            PackageManager::Bun => {
                return Err(unsupported_option(pm, op, "--dev"));
            },
        }
    }
    if !args.optional {
        match pm {
            PackageManager::Npm => push_flag(&mut resolved_args, "--omit=optional"),
            PackageManager::Pnpm => push_flag(&mut resolved_args, "--no-optional"),
            PackageManager::Yarn => {
                return Err(unsupported_option(pm, op, "--no-optional"));
            },
            PackageManager::YarnBerry => {
                return Err(unsupported_option(pm, op, "--no-optional"));
            },
            PackageManager::Bun => {
                return Err(unsupported_option(pm, op, "--no-optional"));
            },
        }
    }
    if !args.peer {
        match pm {
            PackageManager::Npm => push_flag(&mut resolved_args, "--omit=peer"),
            PackageManager::Pnpm => push_flag(&mut resolved_args, "--exclude-peers"),
            PackageManager::Yarn => {
                return Err(unsupported_option(pm, op, "--no-peer"));
            },
            PackageManager::YarnBerry => {
                return Err(unsupported_option(pm, op, "--no-peer"));
            },
            PackageManager::Bun => {
                return Err(unsupported_option(pm, op, "--no-peer"));
            },
        }
    }
    assert(resolved_args.deep_view() =~= flag_if(args.prod, list_prod_flag(pm)->0) + flag_if(!args.prod && args.dev, list_dev_flag(pm)->0) + flag_if(!args.optional, list_no_optional_flag(pm)->0) + flag_if(!args.peer, list_no_peer_flag(pm)->0));
    extend_strings(&mut resolved_args, &args.forward_args);
    pm.run_operation(op, resolved_args)
}

} // verus!
