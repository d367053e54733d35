//! Choosing the package manager and script runner, and planning the commands they run.
use vstd::prelude::*;

use crate::adaptors::{pm_command, runner_table, CommandAdaptor, CommandSpec};
use crate::context::Context;
use crate::enums::{
    all_pms, PackageManager, PackageManagerOperation, ScriptRunner, ScriptRunnerOperation,
};
use crate::errors::{Error, PackageManagerError};

verus! {

/// The package manager named by the command line or the config, or detected in the
/// project: `--pm`, then (local commands only) the detected one, then `pm.global` for
/// global commands or `pm.local` for local ones.
pub open spec fn resolved_pm(
    cli_pm: Option<PackageManager>,
    global: bool,
    config_local: Option<PackageManager>,
    config_global: Option<PackageManager>,
    detected: Option<PackageManager>,
) -> Option<PackageManager> {
    if cli_pm is Some {
        cli_pm
    } else if global {
        config_global
    } else if detected is Some {
        detected
    } else {
        config_local
    }
}

/// The outcome of a planned command, with the strings of errors taken by their views.
pub enum Outcome {
    /// The command to run.
    Command(CommandSpec),
    /// The package manager does not support the operation, with this option if one is named.
    Unsupported(PackageManager, PackageManagerOperation, Option<Seq<char>>),
    /// No package manager could be chosen.
    Undetermined(bool),
    /// Any other error.
    Other,
}

/// The abstract outcome of a planned command.
pub open spec fn outcome(r: Result<CommandAdaptor, Error>) -> Outcome {
    match r {
        Ok(a) => Outcome::Command(a@),
        Err(Error::PackageManager(PackageManagerError::Unsupported { package_manager, operation, option })) => {
            Outcome::Unsupported(
                package_manager,
                operation,
                match option {
                    Some(o) => Some(o@),
                    None => None,
                },
            )
        },
        Err(Error::PackageManager(PackageManagerError::Undetermined { interactive })) => Outcome::Undetermined(interactive),
        Err(_) => Outcome::Other,
    }
}

/// The outcome of running `op` on `pm` with `args`: the command, or the error that `pm`
/// does not support `op`.
pub open spec fn command_outcome(
    pm: PackageManager,
    op: PackageManagerOperation,
    args: Seq<Seq<char>>,
) -> Outcome {
    match pm_command(pm, op, args) {
        Some(c) => Outcome::Command(c),
        None => Outcome::Unsupported(pm, op, None),
    }
}

impl PackageManager {
    /// Chooses the package manager for `ctx`, given the one detected in the project
    /// (looked for only when [`Context::needs_detection`] holds) and whether standard
    /// input and output are both terminals. `Ok(None)` means the user is to be asked,
    /// which happens only when none was found and the context is interactive on a
    /// terminal; with no terminal it is an error.
    pub fn resolve(ctx: &Context, detected: Option<PackageManager>, terminal: bool) -> (r: Result<
        Option<PackageManager>,
        Error,
    >)
        ensures
            match resolved_pm(
                ctx.cli_pm,
                ctx.global,
                ctx.config_local_pm,
                ctx.config_global_pm,
                detected,
            ) {
                Some(pm) => r == Ok::<Option<PackageManager>, Error>(Some(pm)),
                None => if ctx.interactive && terminal {
                    r == Ok::<Option<PackageManager>, Error>(None)
                } else {
                    r == Err::<Option<PackageManager>, Error>(
                        Error::PackageManager(PackageManagerError::Undetermined { interactive: false }),
                    )
                },
            },
    {
        let pm = if ctx.global {
            match ctx.cli_pm {
                Some(pm) => Some(pm),
                None => ctx.config_global_pm,
            }
        } else {
            match ctx.cli_pm {
                Some(pm) => Some(pm),
                None => match detected {
                    Some(pm) => Some(pm),
                    None => ctx.config_local_pm,
                },
            }
        };
        if let Some(package_manager) = pm {
            return Ok(Some(package_manager));
        }
        let is_interactive = ctx.interactive && terminal;
        if !is_interactive {
            return Err(Error::PackageManager(PackageManagerError::Undetermined { interactive: false }));
        }
        Ok(None)
    }

    /// The package manager the user picked from [`PackageManager::all`] by position, or
    /// the error for a cancelled or impossible pick.
    pub fn from_selection(selection: Option<usize>) -> (r: Result<PackageManager, Error>)
        ensures
            match selection {
                Some(i) if i < all_pms().len() => r == Ok::<PackageManager, Error>(all_pms()[i as int]),
                _ => r == Err::<PackageManager, Error>(
                    Error::PackageManager(PackageManagerError::Undetermined { interactive: true }),
                ),
            },
    {
        let picked = match selection {
            Some(i) => PackageManager::from_index(i),
            None => None,
        };
        match picked {
            Some(pm) => Ok(pm),
            None => Err(Error::PackageManager(PackageManagerError::Undetermined { interactive: true })),
        }
    }

    /// The command this package manager runs for `op` with `args` forwarded.
    pub fn run_operation(&self, op: PackageManagerOperation, args: Vec<String>) -> (r: Result<
        CommandAdaptor,
        Error,
    >)
        ensures
            outcome(r) == command_outcome(*self, op, args.deep_view()),
    {
        let a = CommandAdaptor::for_pm(*self, op)?;
        Ok(a.set_extra_args(args))
    }
}

impl ScriptRunner {
    /// The script runner chosen on the command line, else in the config.
    pub fn resolve(ctx: &Context) -> (r: Option<ScriptRunner>)
        ensures
            r == (if ctx.cli_runner is Some {
                ctx.cli_runner
            } else {
                ctx.config_runner
            }),
    {
        match ctx.cli_runner {
            Some(r) => Some(r),
            None => ctx.config_runner,
        }
    }

    /// The command this runner runs for a script with `args` forwarded.
    pub fn run_script(&self, args: Vec<String>) -> (r: Result<CommandAdaptor, Error>)
        ensures
            match runner_table(*self, ScriptRunnerOperation::Run) {
                Some(c) => r matches Ok(a) && a@ == (CommandSpec { extra_args: args.deep_view(), ..c }),
                None => r is Err,
            },
    {
        let a = CommandAdaptor::for_runner(*self, ScriptRunnerOperation::Run)?;
        Ok(a.set_extra_args(args))
    }
}

} // verus!
