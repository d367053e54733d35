//! The errors of the tool and the messages printed for them.
use vstd::prelude::*;

use crate::enums::{
    op_description, pm_name, runner_name, runner_op_description, PackageManager,
    PackageManagerOperation, ScriptRunner, ScriptRunnerOperation,
};
use crate::strings::{concat, owned};

verus! {

/// A package manager could not be chosen, or cannot do what was asked.
#[derive(Debug)]
pub enum PackageManagerError {
    Undetermined { interactive: bool },
    Unsupported {
        package_manager: PackageManager,
        operation: PackageManagerOperation,
        option: Option<String>,
    },
}

/// A script runner could not be chosen, or cannot do what was asked.
#[derive(Debug)]
pub enum ScriptRunnerError {
    Undetermined { interactive: bool },
    Unsupported {
        script_runner: ScriptRunner,
        operation: ScriptRunnerOperation,
        option: Option<String>,
    },
}

/// A child command could not be started or did not succeed.
#[derive(Debug)]
pub enum CommandError {
    Spawn { command: String, source: String },
    Exit { command: String, code: String },
}

/// Where a config file path came from.
#[derive(Debug)]
pub enum ConfigErrorFrom {
    Arg(String),
    Env(String),
    Default(String),
}

/// A config file could not be used.
#[derive(Debug)]
pub enum ConfigError {
    NotExists { from: ConfigErrorFrom },
    Load { from: ConfigErrorFrom, source: String },
    Save { from: ConfigErrorFrom, source: String },
}

/// Any error of the tool.
#[derive(Debug)]
pub enum Error {
    PackageManager(PackageManagerError),
    ScriptRunner(ScriptRunnerError),
    Command(CommandError),
    Config(ConfigError),
    Raw(String),
}

/// `s` in yellow on a terminal that reads ANSI codes.
pub open spec fn yellow(s: Seq<char>) -> Seq<char> {
    "\u{1b}[33m"@ + s + "\u{1b}[39m"@
}

/// `s` in red.
pub open spec fn red(s: Seq<char>) -> Seq<char> {
    "\u{1b}[31m"@ + s + "\u{1b}[39m"@
}

/// `s` in bold.
pub open spec fn bold(s: Seq<char>) -> Seq<char> {
    "\u{1b}[1m"@ + s + "\u{1b}[22m"@
}

/// The label before the cause of a config error, in bold red.
pub open spec fn cause_label() -> Seq<char> {
    "\u{1b}[31m\u{1b}[1mcause:\u{1b}[39m\u{1b}[22m"@
}

/// The `" with option '...'"` part of an "unsupported" message.
pub open spec fn option_part(option: Option<String>) -> Seq<char> {
    match option {
        Some(o) => " with option '"@ + yellow(o@) + "'"@,
        None => Seq::empty(),
    }
}

/// The message of a package manager error.
pub open spec fn pm_error_message(e: PackageManagerError) -> Seq<char> {
    match e {
        PackageManagerError::Undetermined { interactive } => "unable to determine package manager"@
            + (if interactive {
            ", and interactive selection is disabled"@
        } else {
            Seq::empty()
        }) + "\n\nSet '"@ + bold("--pm <PACKAGE_MANAGER>"@) + "' or configure '"@ + bold("pm"@)
            + "' in the config file."@,
        PackageManagerError::Unsupported { package_manager, operation, option } => op_description(
            operation,
        ) + option_part(option) + " is not supported by "@ + yellow(pm_name(package_manager)),
    }
}

/// The message of a script runner error.
pub open spec fn runner_error_message(e: ScriptRunnerError) -> Seq<char> {
    match e {
        ScriptRunnerError::Undetermined { interactive } => "unable to determine script runner"@
            + (if interactive {
            ", and interactive selection is disabled"@
        } else {
            Seq::empty()
        }) + "\n\nSet '"@ + bold("--runner <SCRIPT_RUNNER>"@) + "' or configure '"@ + bold(
            "runner"@,
        ) + "' in the config file."@,
        ScriptRunnerError::Unsupported { script_runner, operation, option } => runner_op_description(
            operation,
        ) + option_part(option) + " is not supported by "@ + yellow(runner_name(script_runner)),
    }
}

/// The message of a command error.
pub open spec fn command_error_message(e: CommandError) -> Seq<char> {
    match e {
        CommandError::Spawn { command, source } => "failed to execute command `"@ + yellow(command@)
            + "`: "@ + source@,
        CommandError::Exit { command, code } => "command `"@ + yellow(command@)
            + "` exited with status "@ + red(code@),
    }
}

/// The description of where a config path came from.
pub open spec fn config_from_message(f: ConfigErrorFrom) -> Seq<char> {
    match f {
        ConfigErrorFrom::Arg(p) => yellow(p@) + " (from '"@ + bold("--config <PATH>"@) + "')"@,
        ConfigErrorFrom::Env(p) => yellow(p@) + " (from environment variable '"@ + bold(
            "UNPM_CONFIG_FILE"@,
        ) + "')"@,
        ConfigErrorFrom::Default(p) => yellow(p@) + " (from default config file path)"@,
    }
}

/// The message of a config error.
pub open spec fn config_error_message(e: ConfigError) -> Seq<char> {
    match e {
        ConfigError::NotExists { from } => "config file does not exist: "@ + config_from_message(
            from,
        ),
        ConfigError::Load { from, source } => "failed to load config file: "@ + config_from_message(
            from,
        ) + "\n       "@ + cause_label() + " "@ + source@,
        ConfigError::Save { from, source } => "failed to save config file: "@ + config_from_message(
            from,
        ) + "\n       "@ + cause_label() + " "@ + source@,
    }
}

/// The message of any error.
pub open spec fn error_message(e: Error) -> Seq<char> {
    match e {
        Error::PackageManager(e) => pm_error_message(e),
        Error::ScriptRunner(e) => runner_error_message(e),
        Error::Command(e) => command_error_message(e),
        Error::Config(e) => config_error_message(e),
        Error::Raw(s) => s@,
    }
}

fn around(before: &str, s: &str, after: &str) -> (r: String)
    ensures
        r@ == before@ + s@ + after@,
{
    let mut r = owned(before);
    r.append(s);
    r.append(after);
    r
}

fn yellow_text(s: &str) -> (r: String)
    ensures
        r@ == yellow(s@),
{
    around("\u{1b}[33m", s, "\u{1b}[39m")
}

fn red_text(s: &str) -> (r: String)
    ensures
        r@ == red(s@),
{
    around("\u{1b}[31m", s, "\u{1b}[39m")
}

fn bold_text(s: &str) -> (r: String)
    ensures
        r@ == bold(s@),
{
    around("\u{1b}[1m", s, "\u{1b}[22m")
}

fn cause_text() -> (r: &'static str)
    ensures
        r@ == cause_label(),
{
    "\u{1b}[31m\u{1b}[1mcause:\u{1b}[39m\u{1b}[22m"
}

fn option_text(option: &Option<String>) -> (r: String)
    ensures
        r@ == option_part(*option),
{
    match option {
        Some(o) => around(" with option '", yellow_text(o.as_str()).as_str(), "'"),
        None => String::new(),
    }
}

fn undetermined_text(what: &str, interactive: bool, option: &str, key: &str) -> (r: String)
    ensures
        r@ == what@ + (if interactive {
            ", and interactive selection is disabled"@
        } else {
            Seq::empty()
        }) + "\n\nSet '"@ + bold(option@) + "' or configure '"@ + bold(key@)
            + "' in the config file."@,
{
    let mut r = owned(what);
    if interactive {
        r.append(", and interactive selection is disabled");
    }
    r.append("\n\nSet '");
    r.append(bold_text(option).as_str());
    r.append("' or configure '");
    r.append(bold_text(key).as_str());
    r.append("' in the config file.");
    r
}

impl PackageManagerError {
    /// The message printed for this error.
    pub fn message(&self) -> (r: String)
        ensures
            r@ == pm_error_message(*self),
    {
        match self {
            PackageManagerError::Undetermined { interactive } => undetermined_text(
                "unable to determine package manager",
                *interactive,
                "--pm <PACKAGE_MANAGER>",
                "pm",
            ),
            PackageManagerError::Unsupported { package_manager, operation, option } => {
                let mut r = owned(operation.as_str());
                r.append(option_text(option).as_str());
                r.append(" is not supported by ");
                r.append(yellow_text(package_manager.as_str()).as_str());
                r
            },
        }
    }
}

impl ScriptRunnerError {
    /// The message printed for this error.
    pub fn message(&self) -> (r: String)
        ensures
            r@ == runner_error_message(*self),
    {
        match self {
            ScriptRunnerError::Undetermined { interactive } => undetermined_text(
                "unable to determine script runner",
                *interactive,
                "--runner <SCRIPT_RUNNER>",
                "runner",
            ),
            ScriptRunnerError::Unsupported { script_runner, operation, option } => {
                let mut r = owned(operation.as_str());
                r.append(option_text(option).as_str());
                r.append(" is not supported by ");
                r.append(yellow_text(script_runner.as_str()).as_str());
                r
            },
        }
    }
}

impl CommandError {
    /// The message printed for this error.
    pub fn message(&self) -> (r: String)
        ensures
            r@ == command_error_message(*self),
    {
        match self {
            CommandError::Spawn { command, source } => {
                let mut r = owned("failed to execute command `");
                r.append(yellow_text(command.as_str()).as_str());
                r.append("`: ");
                r.append(source.as_str());
                r
            },
            CommandError::Exit { command, code } => {
                let mut r = owned("command `");
                r.append(yellow_text(command.as_str()).as_str());
                r.append("` exited with status ");
                r.append(red_text(code.as_str()).as_str());
                r
            },
        }
    }
}

impl ConfigErrorFrom {
    /// The path and where it came from, as printed in config errors.
    pub fn message(&self) -> (r: String)
        ensures
            r@ == config_from_message(*self),
    {
        match self {
            ConfigErrorFrom::Arg(p) => {
                let mut r = yellow_text(p.as_str());
                r.append(" (from '");
                r.append(bold_text("--config <PATH>").as_str());
                r.append("')");
                r
            },
            ConfigErrorFrom::Env(p) => {
                let mut r = yellow_text(p.as_str());
                r.append(" (from environment variable '");
                r.append(bold_text("UNPM_CONFIG_FILE").as_str());
                r.append("')");
                r
            },
            ConfigErrorFrom::Default(p) => concat(
                yellow_text(p.as_str()).as_str(),
                " (from default config file path)",
            ),
        }
    }
}

impl ConfigError {
    /// The message printed for this error.
    pub fn message(&self) -> (r: String)
        ensures
            r@ == config_error_message(*self),
    {
        match self {
            ConfigError::NotExists { from } => concat(
                "config file does not exist: ",
                from.message().as_str(),
            ),
            ConfigError::Load { from, source } => {
                let mut r = owned("failed to load config file: ");
                r.append(from.message().as_str());
                r.append("\n       ");
                r.append(cause_text());
                r.append(" ");
                r.append(source.as_str());
                r
            },
            ConfigError::Save { from, source } => {
                let mut r = owned("failed to save config file: ");
                r.append(from.message().as_str());
                r.append("\n       ");
                r.append(cause_text());
                r.append(" ");
                r.append(source.as_str());
                r
            },
        }
    }
}

impl Error {
    /// The message printed for this error.
    pub fn message(&self) -> (r: String)
        ensures
            r@ == error_message(*self),
    {
        match self {
            Error::PackageManager(e) => e.message(),
            Error::ScriptRunner(e) => e.message(),
            Error::Command(e) => e.message(),
            Error::Config(e) => e.message(),
            Error::Raw(s) => owned(s.as_str()),
        }
    }
}

} // verus!
