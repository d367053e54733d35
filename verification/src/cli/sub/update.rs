//! `update`: update installed packages.
use vstd::prelude::*;

use crate::adaptors::CommandAdaptor;
use crate::cli::sub::{flag_if, push_flag, unsupported_option};
use crate::context::Context;
use crate::enums::{PackageManager, PackageManagerOperation};
use crate::errors::Error;
use crate::resolve::{command_outcome, outcome, Outcome};
use crate::strings::extend_strings;

verus! {

/// Update installed packages
#[derive(Debug, Default)]
pub struct UpdateArgs {
    /// Update global packages
    pub global: bool,
    /// Update production dependencies only
    pub prod: bool,
    /// Update development dependencies only
    pub dev: bool,
    /// Include optional dependencies; `-O, --no-optional` turns it off
    pub optional: bool,
    /// Include peer dependencies; `-P, --no-peer` turns it off
    pub peer: bool,
    /// Use interactive mode
    pub interactive: bool,
    /// Extra options and packages forwarded directly to the package manager
    pub forward_args: Vec<String>,
}

/// The `--prod` flag of `update` for each package manager, where it has one.
pub open spec fn update_prod_flag(pm: PackageManager) -> Option<Seq<char>> {
    match pm {
        PackageManager::Npm => Some("--omit=dev"@),
        PackageManager::Pnpm => Some("--prod"@),
        PackageManager::Yarn => None,
        PackageManager::YarnBerry => None,
        PackageManager::Bun => Some("--omit=dev"@),
    }
}

/// The `--dev` flag of `update` for each package manager, where it has one.
pub open spec fn update_dev_flag(pm: PackageManager) -> Option<Seq<char>> {
    match pm {
        PackageManager::Npm => None,
        PackageManager::Pnpm => Some("--dev"@),
        PackageManager::Yarn => None,
        PackageManager::YarnBerry => None,
        PackageManager::Bun => None,
    }
}

/// The `--no-optional` flag of `update` for each package manager, where it has one.
pub open spec fn update_no_optional_flag(pm: PackageManager) -> Option<Seq<char>> {
    match pm {
        PackageManager::Npm => Some("--omit=optional"@),
        PackageManager::Pnpm => Some("--no-optional"@),
        PackageManager::Yarn => None,
        PackageManager::YarnBerry => None,
        PackageManager::Bun => Some("--omit=optional"@),
    }
}

/// The `--no-peer` flag of `update` for each package manager, where it has one.
pub open spec fn update_no_peer_flag(pm: PackageManager) -> Option<Seq<char>> {
    match pm {
        PackageManager::Npm => Some("--omit=peer"@),
        PackageManager::Pnpm => None,
        PackageManager::Yarn => None,
        PackageManager::YarnBerry => None,
        PackageManager::Bun => Some("--omit=peer"@),
    }
}

/// What `update` does with package manager `pm`: the first requested option that `pm` cannot honour (production only, else development only; then no optional; then no peer) is an error; otherwise their flags in that order, then the forwarded arguments.
pub open spec fn update_spec(pm: PackageManager, a: UpdateArgs) -> Outcome {
    let op = match (a.global, a.interactive) {
        (true, true) => PackageManagerOperation::GlobalInteractiveUpdate,
        (true, false) => PackageManagerOperation::GlobalUpdate,
        (false, true) => PackageManagerOperation::InteractiveUpdate,
        (false, false) => PackageManagerOperation::Update,
    };
    if a.prod && update_prod_flag(pm) is None {
        Outcome::Unsupported(pm, op, Some("--prod"@))
    } else if !a.prod && a.dev && update_dev_flag(pm) is None {
        Outcome::Unsupported(pm, op, Some("--dev"@))
    } else if !a.optional && update_no_optional_flag(pm) is None {
        Outcome::Unsupported(pm, op, Some("--no-optional"@))
    } else if !a.peer && update_no_peer_flag(pm) is None {
        Outcome::Unsupported(pm, op, Some("--no-peer"@))
    } else {
        command_outcome(pm, op, flag_if(a.prod, update_prod_flag(pm)->0) + flag_if(!a.prod && a.dev, update_dev_flag(pm)->0) + flag_if(!a.optional, update_no_optional_flag(pm)->0) + flag_if(!a.peer, update_no_peer_flag(pm)->0) + a.forward_args.deep_view())
    }
}

/// The command that does `update` with package manager `pm`.
pub fn update(ctx: &Context, args: &UpdateArgs, pm: PackageManager) -> (r: Result<CommandAdaptor, Error>)
    ensures
        outcome(r) == update_spec(pm, *args),
{
    let op = match (args.global, args.interactive) {
        (true, true) => PackageManagerOperation::GlobalInteractiveUpdate,
        (true, false) => PackageManagerOperation::GlobalUpdate,
        (false, true) => PackageManagerOperation::InteractiveUpdate,
        (false, false) => PackageManagerOperation::Update,
    };
    let mut resolved_args: Vec<String> = Vec::new();
    if args.prod {
        match pm {
            PackageManager::Npm => push_flag(&mut resolved_args, "--omit=dev"),
            PackageManager::Pnpm => push_flag(&mut resolved_args, "--prod"),
            PackageManager::Yarn => {
                return Err(unsupported_option(pm, op, "--prod"));
            },
            PackageManager::YarnBerry => {
                return Err(unsupported_option(pm, op, "--prod"));
            },
            PackageManager::Bun => push_flag(&mut resolved_args, "--omit=dev"),
        }
    } else if args.dev {
        match pm {
            PackageManager::Npm => {
                return Err(unsupported_option(pm, op, "--dev"));
            },
            PackageManager::Pnpm => push_flag(&mut resolved_args, "--dev"),
            PackageManager::Yarn => {
                return Err(unsupported_option(pm, op, "--dev"));
            },
            PackageManager::YarnBerry => {
                return Err(unsupported_option(pm, op, "--dev"));
            },
            PackageManager::Bun => {
                return Err(unsupported_option(pm, op, "--dev"));
            },
        }
    }
    if !args.optional {
        match pm {
            PackageManager::Npm => push_flag(&mut resolved_args, "--omit=optional"),
            PackageManager::Pnpm => push_flag(&mut resolved_args, "--no-optional"),
            PackageManager::Yarn => {
                return Err(unsupported_option(pm, op, "--no-optional"));
            },
            PackageManager::YarnBerry => {
                return Err(unsupported_option(pm, op, "--no-optional"));
            },
            PackageManager::Bun => push_flag(&mut resolved_args, "--omit=optional"),
        }
    }
    if !args.peer {
        match pm {
            PackageManager::Npm => push_flag(&mut resolved_args, "--omit=peer"),
            PackageManager::Pnpm => {
                return Err(unsupported_option(pm, op, "--no-peer"));
            },
            PackageManager::Yarn => {
                return Err(unsupported_option(pm, op, "--no-peer"));
            },
            PackageManager::YarnBerry => {
                return Err(unsupported_option(pm, op, "--no-peer"));
            },
            PackageManager::Bun => push_flag(&mut resolved_args, "--omit=peer"),
        }
    }
    assert(resolved_args.deep_view() =~= flag_if(args.prod, update_prod_flag(pm)->0) + flag_if(!args.prod && args.dev, update_dev_flag(pm)->0) + flag_if(!args.optional, update_no_optional_flag(pm)->0) + flag_if(!args.peer, update_no_peer_flag(pm)->0));
    extend_strings(&mut resolved_args, &args.forward_args);
    pm.run_operation(op, resolved_args)
}

} // verus!
