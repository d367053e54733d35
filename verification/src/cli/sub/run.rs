//! `run`: run a script defined in package.json.
use vstd::prelude::*;

use crate::adaptors::{runner_table, CommandAdaptor, CommandSpec};
use crate::context::Context;
use crate::enums::{PackageManager, PackageManagerOperation, ScriptRunner, ScriptRunnerOperation};
use crate::errors::{Error, PackageManagerError};
use crate::resolve::{command_outcome, outcome, Outcome};
use crate::strings::copy_strings;

verus! {

/// Run a script defined in package.json
#[derive(Debug, Default)]
pub struct RunArgs {
    /// Extra arguments forwarded directly to the package manager
    pub forward_args: Vec<String>,
}

/// The script runner `run` uses for `ctx`: the one from the command line, else the config's.
pub open spec fn run_runner(cli_runner: Option<ScriptRunner>, config_runner: Option<ScriptRunner>) -> Option<ScriptRunner> {
    if cli_runner is Some {
        cli_runner
    } else {
        config_runner
    }
}

/// What `run` does: with a script runner, the runner's command; else the package
/// manager's `run` command, which needs the package manager `pm` that was resolved.
pub open spec fn run_spec(
    cli_runner: Option<ScriptRunner>,
    config_runner: Option<ScriptRunner>,
    pm: Option<PackageManager>,
    a: RunArgs,
) -> Outcome {
    match run_runner(cli_runner, config_runner) {
        Some(runner) => match runner_table(runner, ScriptRunnerOperation::Run) {
            Some(c) => Outcome::Command(CommandSpec { extra_args: a.forward_args.deep_view(), ..c }),
            None => Outcome::Other,
        },
        None => match pm {
            Some(pm) => command_outcome(pm, PackageManagerOperation::Run, a.forward_args.deep_view()),
            None => Outcome::Undetermined(false),
        },
    }
}

/// The command that runs the script: with the script runner of `ctx` when there is one
/// (then `pm` is not looked at), else with package manager `pm`, which the caller
/// resolves only in that case.
pub fn run(ctx: &Context, args: &RunArgs, pm: Option<PackageManager>) -> (r: Result<CommandAdaptor, Error>)
    ensures
        outcome(r) == run_spec(ctx.cli_runner, ctx.config_runner, pm, *args),
{
    let resolved_args = copy_strings(&args.forward_args);
    if let Some(runner) = ScriptRunner::resolve(ctx) {
        return runner.run_script(resolved_args);
    }
    match pm {
        Some(pm) => pm.run_operation(PackageManagerOperation::Run, resolved_args),
        None => Err(Error::PackageManager(PackageManagerError::Undetermined { interactive: false })),
    }
}

} // verus!
