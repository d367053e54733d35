//! The command line that each package manager or script runner is given for an operation.
use vstd::prelude::*;

use crate::enums::{PackageManager, PackageManagerOperation, ScriptRunner, ScriptRunnerOperation};
use crate::errors::{CommandError, Error, PackageManagerError, ScriptRunnerError};
use crate::numbers::{decimal_i32, i32_to_string};
use crate::strings::{copy_strings, join, join_spec, owned};

pub mod bun;
pub mod node;
pub mod npm;
pub mod pnpm;
pub mod yarn;
pub mod yarn_berry;

verus! {

/// A program with its fixed arguments, the arguments forwarded by the user, and whether
/// a `--` goes between the first forwarded argument and the rest.
#[derive(Debug)]
pub struct CommandAdaptor {
    pub program: String,
    pub program_args: Vec<String>,
    pub extra_args: Vec<String>,
    pub separate: bool,
}

/// The abstract value of a [`CommandAdaptor`].
pub struct CommandSpec {
    pub program: Seq<char>,
    pub program_args: Seq<Seq<char>>,
    pub extra_args: Seq<Seq<char>>,
    pub separate: bool,
}

impl View for CommandAdaptor {
    type V = CommandSpec;

    open spec fn view(&self) -> CommandSpec {
        CommandSpec {
            program: self.program@,
            program_args: self.program_args.deep_view(),
            extra_args: self.extra_args.deep_view(),
            separate: self.separate,
        }
    }
}

/// A command with the given program and fixed arguments, nothing forwarded yet.
pub open spec fn base_spec(program: Seq<char>, args: Seq<Seq<char>>, separate: bool) -> CommandSpec {
    CommandSpec { program, program_args: args, extra_args: Seq::empty(), separate }
}

/// The arguments the program is started with: the fixed ones, then the forwarded ones,
/// with a `--` after the first forwarded one when `separate` is set and more follow.
pub open spec fn combined(c: CommandSpec) -> Seq<Seq<char>> {
    if c.separate && c.extra_args.len() >= 2 {
        c.program_args + seq![c.extra_args[0], "--"@] + c.extra_args.subrange(
            1,
            c.extra_args.len() as int,
        )
    } else {
        c.program_args + c.extra_args
    }
}

/// How a command is shown to the user: the program alone when it is started without
/// arguments, else the program and all its arguments separated by spaces.
pub open spec fn display_spec(c: CommandSpec) -> Seq<char> {
    if combined(c).len() == 0 {
        c.program
    } else {
        c.program + " "@ + join_spec(combined(c), " "@)
    }
}

/// The abstract value of an optional command.
pub open spec fn opt_view(o: Option<CommandAdaptor>) -> Option<CommandSpec> {
    match o {
        Some(a) => Some(a@),
        None => None,
    }
}

/// The command a package manager runs for an operation, if it supports it.
pub open spec fn pm_table(pm: PackageManager, op: PackageManagerOperation) -> Option<CommandSpec> {
    match pm {
        PackageManager::Npm => npm::npm_table(op),
        PackageManager::Pnpm => pnpm::pnpm_table(op),
        PackageManager::Yarn => yarn::yarn_table(op),
        PackageManager::YarnBerry => yarn_berry::yarn_berry_table(op),
        PackageManager::Bun => bun::bun_table(op),
    }
}

/// The command a script runner runs for an operation.
pub open spec fn runner_table(runner: ScriptRunner, op: ScriptRunnerOperation) -> Option<
    CommandSpec,
> {
    match runner {
        ScriptRunner::Node => node::node_table(op),
    }
}

/// The command of `pm` for `op` with `args` forwarded, when `pm` supports `op`.
pub open spec fn pm_command(pm: PackageManager, op: PackageManagerOperation, args: Seq<Seq<char>>) -> Option<
    CommandSpec,
> {
    match pm_table(pm, op) {
        Some(c) => Some(CommandSpec { extra_args: args, ..c }),
        None => None,
    }
}

/// The error for an operation that a package manager does not support.
pub open spec fn unsupported(pm: PackageManager, op: PackageManagerOperation, option: Option<String>) -> Error {
    Error::PackageManager(
        PackageManagerError::Unsupported { package_manager: pm, operation: op, option },
    )
}

/// No words, as a vector of owned strings.
pub fn words0() -> (r: Vec<String>)
    ensures
        r.deep_view() == Seq::<Seq<char>>::empty(),
{
    let r: Vec<String> = Vec::new();
    assert(r.deep_view() =~= Seq::<Seq<char>>::empty());
    r
}

/// A single word as a vector of owned strings.
pub fn words1(a: &str) -> (r: Vec<String>)
    ensures
        r.deep_view() == seq![a@],
{
    let mut r: Vec<String> = Vec::new();
    r.push(owned(a));
    assert(r.deep_view() =~= seq![a@]);
    r
}

/// Two words as a vector of owned strings.
pub fn words2(a: &str, b: &str) -> (r: Vec<String>)
    ensures
        r.deep_view() == seq![a@, b@],
{
    let mut r: Vec<String> = Vec::new();
    r.push(owned(a));
    r.push(owned(b));
    assert(r.deep_view() =~= seq![a@, b@]);
    r
}

/// Three words as a vector of owned strings.
pub fn words3(a: &str, b: &str, c: &str) -> (r: Vec<String>)
    ensures
        r.deep_view() == seq![a@, b@, c@],
{
    let mut r: Vec<String> = Vec::new();
    r.push(owned(a));
    r.push(owned(b));
    r.push(owned(c));
    assert(r.deep_view() =~= seq![a@, b@, c@]);
    r
}

impl CommandAdaptor {
    /// An empty command: no program, no arguments, not separated.
    pub fn new() -> (r: CommandAdaptor)
        ensures
            r@ == base_spec(Seq::empty(), Seq::empty(), false),
    {
        let r = CommandAdaptor {
            program: String::new(),
            program_args: Vec::new(),
            extra_args: Vec::new(),
            separate: false,
        };
        assert(r.program_args.deep_view() =~= Seq::<Seq<char>>::empty());
        assert(r.extra_args.deep_view() =~= Seq::<Seq<char>>::empty());
        r
    }

    /// The command of `pm` for `op`, or the error saying `pm` does not support `op`.
    pub fn for_pm(pm: PackageManager, op: PackageManagerOperation) -> (r: Result<CommandAdaptor, Error>)
        ensures
            match r {
                Ok(a) => pm_table(pm, op) == Some(a@),
                Err(e) => pm_table(pm, op) is None && e == unsupported(pm, op, None),
            },
    {
        let found = match pm {
            PackageManager::Npm => Self::for_npm(op),
            PackageManager::Pnpm => Self::for_pnpm(op),
            PackageManager::Yarn => Self::for_yarn(op),
            PackageManager::YarnBerry => Self::for_yarn_berry(op),
            PackageManager::Bun => Self::for_bun(op),
        };
        match found {
            Some(a) => Ok(a),
            None => Err(
                Error::PackageManager(
                    PackageManagerError::Unsupported {
                        package_manager: pm,
                        operation: op,
                        option: None,
                    },
                ),
            ),
        }
    }

    /// The command of `runner` for `op`.
    pub fn for_runner(runner: ScriptRunner, op: ScriptRunnerOperation) -> (r: Result<CommandAdaptor, Error>)
        ensures
            match r {
                Ok(a) => runner_table(runner, op) == Some(a@),
                Err(e) => runner_table(runner, op) is None && e == Error::ScriptRunner(
                    ScriptRunnerError::Unsupported {
                        script_runner: ScriptRunner::Node,
                        operation: ScriptRunnerOperation::Run,
                        option: None,
                    },
                ),
            },
    {
        let found = match runner {
            ScriptRunner::Node => Self::for_node(op),
        };
        match found {
            Some(a) => Ok(a),
            None => Err(
                Error::ScriptRunner(
                    ScriptRunnerError::Unsupported {
                        script_runner: ScriptRunner::Node,
                        operation: ScriptRunnerOperation::Run,
                        option: None,
                    },
                ),
            ),
        }
    }

    /// The same command with another program.
    pub fn set_program(self, v: String) -> (r: CommandAdaptor)
        ensures
            r@ == (CommandSpec { program: v@, ..self@ }),
    {
        CommandAdaptor { program: v, ..self }
    }

    /// The same command with other fixed arguments.
    pub fn set_program_args(self, v: Vec<String>) -> (r: CommandAdaptor)
        ensures
            r@ == (CommandSpec { program_args: v.deep_view(), ..self@ }),
    {
        CommandAdaptor { program_args: v, ..self }
    }

    /// The same command with other forwarded arguments.
    pub fn set_extra_args(self, v: Vec<String>) -> (r: CommandAdaptor)
        ensures
            r@ == (CommandSpec { extra_args: v.deep_view(), ..self@ }),
    {
        CommandAdaptor { extra_args: v, ..self }
    }

    /// The same command, with or without the `--` separator.
    pub fn set_separate(self, v: bool) -> (r: CommandAdaptor)
        ensures
            r@ == (CommandSpec { separate: v, ..self@ }),
    {
        CommandAdaptor { separate: v, ..self }
    }

    /// The arguments the program is started with.
    pub fn combine_args(&self) -> (r: Vec<String>)
        ensures
            r.deep_view() == combined(self@),
    {
        let mut args = copy_strings(&self.program_args);
        let n = self.extra_args.len();
        let ghost extra = self.extra_args.deep_view();
        if self.separate && n >= 2 {
            args.push(owned(self.extra_args[0].as_str()));
            args.push(owned("--"));
            let mut i: usize = 1;
            while i < n
                invariant
                    n == self.extra_args.len(),
                    extra == self.extra_args.deep_view(),
                    1 <= i <= n,
                    args.deep_view() =~= self.program_args.deep_view() + seq![extra[0], "--"@]
                        + extra.subrange(1, i as int),
                decreases n - i,
            {
                let ghost before = args.deep_view();
                args.push(owned(self.extra_args[i].as_str()));
                assert(args.deep_view() =~= before.push(extra[i as int]));
                assert(extra.subrange(1, i + 1) =~= extra.subrange(1, i as int).push(extra[i as int]));
                i = i + 1;
            }
        } else {
            let mut i: usize = 0;
            while i < n
                invariant
                    n == self.extra_args.len(),
                    extra == self.extra_args.deep_view(),
                    i <= n,
                    args.deep_view() =~= self.program_args.deep_view() + extra.subrange(0, i as int),
                decreases n - i,
            {
                let ghost before = args.deep_view();
                args.push(owned(self.extra_args[i].as_str()));
                assert(args.deep_view() =~= before.push(extra[i as int]));
                assert(extra.subrange(0, i + 1) =~= extra.subrange(0, i as int).push(extra[i as int]));
                i = i + 1;
            }
            assert(extra.subrange(0, n as int) =~= extra);
        }
        args
    }

    /// The command as it is shown to the user, for instance in a dry run.
    pub fn to_string(&self) -> (r: String)
        ensures
            r@ == display_spec(self@),
    {
        let args = self.combine_args();
        if args.len() == 0 {
            owned(self.program.as_str())
        } else {
            let mut r = owned(self.program.as_str());
            r.append(" ");
            r.append(join(&args, " ").as_str());
            r
        }
    }

    /// What the run of this command amounts to, given whether its exit status was a
    /// success and its exit code (none when it was ended by a signal).
    pub fn check_status(&self, success: bool, exit_code: Option<i32>) -> (r: Result<(), Error>)
        ensures
            success ==> r is Ok,
            !success ==> (r matches Err(Error::Command(CommandError::Exit { command, code }))
                && command@ == display_spec(self@) && code@ == match exit_code {
                Some(c) => decimal_i32(c),
                None => "unknown"@,
            }),
    {
        if !success {
            let code_text = match exit_code {
                Some(c) => i32_to_string(c),
                None => owned("unknown"),
            };
            return Err(Error::Command(CommandError::Exit { command: self.to_string(), code: code_text }));
        }
        Ok(())
    }
}

} // verus!
