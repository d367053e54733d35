//! What a parsed command line asks the program to do once its package manager is known.
use vstd::prelude::*;

use crate::adaptors::CommandAdaptor;
use crate::cli::main::unpm::Unpm;
use crate::cli::main::unpx::Unpx;
use crate::cli::sub::add::add_spec;
use crate::cli::sub::complete::{completion_script, opt_str, unpm_name, unpx_name};
use crate::cli::sub::dlx::dlx_spec;
use crate::cli::sub::exec::exec_spec;
use crate::cli::sub::install::install_spec;
use crate::cli::sub::list::list_spec;
use crate::cli::sub::pm::pm_spec;
use crate::cli::sub::remove::remove_spec;
use crate::cli::sub::run::{run_runner, run_spec};
use crate::cli::sub::update::update_spec;
use crate::cli::sub::{complete, dlx, exec, install, list, remove, run, update, Subcommands};
use crate::context::{Context, ContextSpec};
use crate::enums::PackageManager;
use crate::errors::{Error, PackageManagerError};
use crate::resolve::{outcome, Outcome};
use crate::enums::ScriptRunner;

verus! {

/// What the program does for a parsed command line.
#[derive(Debug)]
pub enum Action {
    /// Print the long help: no subcommand was given.
    Help,
    /// Run this command, or print it on a dry run.
    Command(CommandAdaptor),
    /// Print this text.
    Print(String),
}

/// The abstract value of an action, or of the error that came instead.
pub enum ActionSpec {
    Help,
    Print(Seq<char>),
    Planned(Outcome),
}

/// The abstract value of the result of planning.
pub open spec fn action_spec(r: Result<Action, Error>) -> ActionSpec {
    match r {
        Ok(Action::Help) => ActionSpec::Help,
        Ok(Action::Print(s)) => ActionSpec::Print(s@),
        Ok(Action::Command(a)) => ActionSpec::Planned(outcome(Ok(a))),
        Err(e) => ActionSpec::Planned(outcome(Err(e))),
    }
}

/// Whether the subcommand needs the package manager: all but `complete`, and but
/// `run` when a script runner is chosen.
pub open spec fn needs_pm_spec(
    c: Option<Subcommands>,
    cli_runner: Option<ScriptRunner>,
    config_runner: Option<ScriptRunner>,
) -> bool {
    match c {
        None => false,
        Some(Subcommands::Complete(_)) => false,
        Some(Subcommands::Run(_)) => run_runner(cli_runner, config_runner) is None,
        Some(_) => true,
    }
}

/// What a subcommand other than `run` and `complete` plans with package manager `p`.
pub open spec fn pm_plan(c: Subcommands, p: PackageManager) -> Outcome {
    match c {
        Subcommands::Pm(a) => pm_spec(p, a),
        Subcommands::Install(a) => install_spec(p, a),
        Subcommands::Add(a) => add_spec(p, a),
        Subcommands::Remove(a) => remove_spec(p, a),
        Subcommands::List(a) => list_spec(p, a),
        Subcommands::Update(a) => update_spec(p, a),
        Subcommands::Dlx(a) => dlx_spec(p, a),
        Subcommands::Exec(a) => exec_spec(p, a),
        _ => Outcome::Other,
    }
}

/// What the program does for subcommand `c` in context `ctx`, with package manager
/// `pm` where it was resolved and `argv0` the name it was started under: the help
/// without a subcommand; the set-up lines for `complete`; else the planned command.
/// A subcommand that needs a package manager that was not resolved fails as
/// undetermined.
pub open spec fn plan_spec(
    c: Option<Subcommands>,
    ctx: ContextSpec,
    pm: Option<PackageManager>,
    argv0: Option<Seq<char>>,
) -> ActionSpec {
    match c {
        None => ActionSpec::Help,
        Some(Subcommands::Complete(a)) => ActionSpec::Print(
            completion_script(
                a.shell,
                unpm_name(opt_str(a.unpm), argv0),
                unpx_name(opt_str(a.unpx), unpm_name(opt_str(a.unpm), argv0)),
            ),
        ),
        Some(Subcommands::Run(a)) => ActionSpec::Planned(
            run_spec(ctx.cli_runner, ctx.config_runner, pm, a),
        ),
        Some(other) => match pm {
            Some(p) => ActionSpec::Planned(pm_plan(other, p)),
            None => ActionSpec::Planned(Outcome::Undetermined(false)),
        },
    }
}

/// The error for a package manager that is needed and was not resolved.
fn undetermined() -> (r: Error)
    ensures
        outcome(Err(r)) == Outcome::Undetermined(false),
{
    Error::PackageManager(PackageManagerError::Undetermined { interactive: false })
}

impl Unpm {
    /// Whether this command line needs the package manager resolved before
    /// [`Unpm::plan`]: every subcommand but `complete`, and `run` only without a script
    /// runner.
    pub fn needs_package_manager(&self, ctx: &Context) -> (r: bool)
        ensures
            r == needs_pm_spec(self.command, ctx.cli_runner, ctx.config_runner),
    {
        match &self.command {
            None => false,
            Some(Subcommands::Complete(_)) => false,
            Some(Subcommands::Run(_)) => ctx.cli_runner.is_none() && ctx.config_runner.is_none(),
            Some(_) => true,
        }
    }

    /// What the program does for this command line in context `ctx`, with package
    /// manager `pm` resolved where [`Unpm::needs_package_manager`] holds.
    pub fn plan(&self, ctx: &Context, pm: Option<PackageManager>, argv0: Option<String>) -> (r:
        Result<Action, Error>)
        ensures
            action_spec(r) == plan_spec(self.command, ctx@, pm, opt_str(argv0)),
    {
        let command = match &self.command {
            Some(c) => c,
            None => return Ok(Action::Help),
        };
        if let Subcommands::Complete(args) = command {
            return Ok(Action::Print(complete(ctx, args, argv0)));
        }
        if let Subcommands::Run(args) = command {
            return match run(ctx, args, pm) {
                Ok(a) => Ok(Action::Command(a)),
                Err(e) => Err(e),
            };
        }
        let p = match pm {
            Some(p) => p,
            None => return Err(undetermined()),
        };
        let planned = match command {
            Subcommands::Pm(args) => crate::cli::sub::pm::pm(ctx, args, p),
            Subcommands::Install(args) => install(ctx, args, p),
            Subcommands::Add(args) => crate::cli::sub::add::add(ctx, args, p),
            Subcommands::Remove(args) => remove(ctx, args, p),
            Subcommands::List(args) => list(ctx, args, p),
            Subcommands::Update(args) => update(ctx, args, p),
            Subcommands::Dlx(args) => dlx(ctx, args, p),
            Subcommands::Exec(args) => exec(ctx, args, p),
            Subcommands::Run(args) => run(ctx, args, pm),
            Subcommands::Complete(_) => Err(undetermined()),
        };
        match planned {
            Ok(a) => Ok(Action::Command(a)),
            Err(e) => Err(e),
        }
    }
}

impl Unpx {
    /// The command `unpx` plans in context `ctx` with package manager `pm`: that of
    /// `dlx` with the same arguments.
    pub fn plan(&self, ctx: &Context, pm: PackageManager) -> (r: Result<CommandAdaptor, Error>)
        ensures
            outcome(r) == dlx_spec(pm, self.dlx_args),
    {
        dlx(ctx, &self.dlx_args, pm)
    }
}

} // verus!
