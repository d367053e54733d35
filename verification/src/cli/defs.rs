//! The options and positional values of each command.
use vstd::prelude::*;

use crate::cli::parser::{wf_def, CommandDef, DefSpec, FlagDef, FlagKind, FlagSpec, PositionalKind};

verus! {

fn flag(long: &'static str, short: Option<char>, kind: FlagKind) -> (r: FlagDef)
    ensures
        r@ == (FlagSpec { long: long@, short, kind }),
{
    FlagDef { long, short, kind }
}

/// The definition of the `unpm` command before its subcommand.
pub open spec fn root_def_spec() -> DefSpec {
    DefSpec {
        flags: seq![
        FlagSpec { long: "config"@, short: Some('c'), kind: FlagKind::Path },
        FlagSpec { long: "pm"@, short: None, kind: FlagKind::PackageManagerName },
        FlagSpec { long: "runner"@, short: None, kind: FlagKind::ScriptRunnerName },
        FlagSpec { long: "dry-run"@, short: None, kind: FlagKind::SetTrue },
    ],
        positional: PositionalKind::Nothing,
        positional_name: "COMMAND"@,
        conflicts: Seq::empty(),
        usage: "unpm [OPTIONS] [COMMAND]"@,
        help: "\n\nFor more information, try 'help'.\n"@,
    }
}

/// The definition of the `unpm` command before its subcommand.
pub fn root_def() -> (r: CommandDef)
    ensures
        r@ == root_def_spec(),
        wf_def(r@),
{
    let mut flags: Vec<FlagDef> = Vec::new();
    flags.push(flag("config", Some('c'), FlagKind::Path));
    flags.push(flag("pm", None, FlagKind::PackageManagerName));
    flags.push(flag("runner", None, FlagKind::ScriptRunnerName));
    flags.push(flag("dry-run", None, FlagKind::SetTrue));
    let mut conflicts: Vec<(usize, usize)> = Vec::new();

    let r = CommandDef {
        flags,
        positional: PositionalKind::Nothing,
        positional_name: "COMMAND",
        conflicts,
        usage: "unpm [OPTIONS] [COMMAND]",
        help: "\n\nFor more information, try 'help'.\n",
    };
    assert(r@.flags =~= root_def_spec().flags);
    assert(r@.conflicts =~= root_def_spec().conflicts);
    r
}

/// The definition of the `pm` subcommand.
pub open spec fn pm_def_spec() -> DefSpec {
    DefSpec {
        flags: seq![
        FlagSpec { long: "global"@, short: Some('g'), kind: FlagKind::SetTrue },
    ],
        positional: PositionalKind::Forward(false),
        positional_name: "FORWARD_ARGUMENT"@,
        conflicts: Seq::empty(),
        usage: "unpm pm [OPTIONS] [FORWARD_ARGUMENT]..."@,
        help: "\n\nFor more information, try '--help'.\n"@,
    }
}

/// The definition of the `pm` subcommand.
pub fn pm_def() -> (r: CommandDef)
    ensures
        r@ == pm_def_spec(),
        wf_def(r@),
{
    let mut flags: Vec<FlagDef> = Vec::new();
    flags.push(flag("global", Some('g'), FlagKind::SetTrue));
    let mut conflicts: Vec<(usize, usize)> = Vec::new();

    let r = CommandDef {
        flags,
        positional: PositionalKind::Forward(false),
        positional_name: "FORWARD_ARGUMENT",
        conflicts,
        usage: "unpm pm [OPTIONS] [FORWARD_ARGUMENT]...",
        help: "\n\nFor more information, try '--help'.\n",
    };
    assert(r@.flags =~= pm_def_spec().flags);
    assert(r@.conflicts =~= pm_def_spec().conflicts);
    r
}

/// The definition of the `install` subcommand.
pub open spec fn install_def_spec() -> DefSpec {
    DefSpec {
        flags: seq![
        FlagSpec { long: "prod"@, short: Some('p'), kind: FlagKind::SetTrue },
        FlagSpec { long: "no-optional"@, short: Some('O'), kind: FlagKind::SetFalse },
        FlagSpec { long: "no-peer"@, short: Some('P'), kind: FlagKind::SetFalse },
        FlagSpec { long: "frozen"@, short: None, kind: FlagKind::SetTrue },
    ],
        positional: PositionalKind::Forward(false),
        positional_name: "FORWARD_ARGUMENT"@,
        conflicts: Seq::empty(),
        usage: "unpm install [OPTIONS] [FORWARD_ARGUMENT]..."@,
        help: "\n\nFor more information, try '--help'.\n"@,
    }
}

/// The definition of the `install` subcommand.
pub fn install_def() -> (r: CommandDef)
    ensures
        r@ == install_def_spec(),
        wf_def(r@),
{
    let mut flags: Vec<FlagDef> = Vec::new();
    flags.push(flag("prod", Some('p'), FlagKind::SetTrue));
    flags.push(flag("no-optional", Some('O'), FlagKind::SetFalse));
    flags.push(flag("no-peer", Some('P'), FlagKind::SetFalse));
    flags.push(flag("frozen", None, FlagKind::SetTrue));
    let mut conflicts: Vec<(usize, usize)> = Vec::new();

    let r = CommandDef {
        flags,
        positional: PositionalKind::Forward(false),
        positional_name: "FORWARD_ARGUMENT",
        conflicts,
        usage: "unpm install [OPTIONS] [FORWARD_ARGUMENT]...",
        help: "\n\nFor more information, try '--help'.\n",
    };
    assert(r@.flags =~= install_def_spec().flags);
    assert(r@.conflicts =~= install_def_spec().conflicts);
    r
}

/// The definition of the `add` subcommand.
pub open spec fn add_def_spec() -> DefSpec {
    DefSpec {
        flags: seq![
        FlagSpec { long: "global"@, short: Some('g'), kind: FlagKind::SetTrue },
        FlagSpec { long: "dev"@, short: Some('d'), kind: FlagKind::SetTrue },
        FlagSpec { long: "optional"@, short: Some('o'), kind: FlagKind::SetTrue },
        FlagSpec { long: "peer"@, short: Some('p'), kind: FlagKind::SetTrue },
        FlagSpec { long: "exact"@, short: Some('e'), kind: FlagKind::SetTrue },
    ],
        positional: PositionalKind::Forward(true),
        positional_name: "FORWARD_OPTION | PACKAGE"@,
        conflicts: seq![(0usize, 1usize), (0usize, 2usize), (0usize, 3usize), (1usize, 2usize), (1usize, 3usize), (2usize, 3usize)],
        usage: "unpm add [OPTIONS] <FORWARD_OPTION | PACKAGE>..."@,
        help: "\n\nFor more information, try '--help'.\n"@,
    }
}

/// The definition of the `add` subcommand.
pub fn add_def() -> (r: CommandDef)
    ensures
        r@ == add_def_spec(),
        wf_def(r@),
{
    let mut flags: Vec<FlagDef> = Vec::new();
    flags.push(flag("global", Some('g'), FlagKind::SetTrue));
    flags.push(flag("dev", Some('d'), FlagKind::SetTrue));
    flags.push(flag("optional", Some('o'), FlagKind::SetTrue));
    flags.push(flag("peer", Some('p'), FlagKind::SetTrue));
    flags.push(flag("exact", Some('e'), FlagKind::SetTrue));
    let mut conflicts: Vec<(usize, usize)> = Vec::new();
    conflicts.push((0, 1));
    conflicts.push((0, 2));
    conflicts.push((0, 3));
    conflicts.push((1, 2));
    conflicts.push((1, 3));
    conflicts.push((2, 3));
    let r = CommandDef {
        flags,
        positional: PositionalKind::Forward(true),
        positional_name: "FORWARD_OPTION | PACKAGE",
        conflicts,
        usage: "unpm add [OPTIONS] <FORWARD_OPTION | PACKAGE>...",
        help: "\n\nFor more information, try '--help'.\n",
    };
    assert(r@.flags =~= add_def_spec().flags);
    assert(r@.conflicts =~= add_def_spec().conflicts);
    r
}

/// The definition of the `remove` subcommand.
pub open spec fn remove_def_spec() -> DefSpec {
    DefSpec {
        flags: seq![
        FlagSpec { long: "global"@, short: Some('g'), kind: FlagKind::SetTrue },
    ],
        positional: PositionalKind::Forward(true),
        positional_name: "FORWARD_OPTION | PACKAGE"@,
        conflicts: Seq::empty(),
        usage: "unpm remove [OPTIONS] <FORWARD_OPTION | PACKAGE>..."@,
        help: "\n\nFor more information, try '--help'.\n"@,
    }
}

/// The definition of the `remove` subcommand.
pub fn remove_def() -> (r: CommandDef)
    ensures
        r@ == remove_def_spec(),
        wf_def(r@),
{
    let mut flags: Vec<FlagDef> = Vec::new();
    flags.push(flag("global", Some('g'), FlagKind::SetTrue));
    let mut conflicts: Vec<(usize, usize)> = Vec::new();

    let r = CommandDef {
        flags,
        positional: PositionalKind::Forward(true),
        positional_name: "FORWARD_OPTION | PACKAGE",
        conflicts,
        usage: "unpm remove [OPTIONS] <FORWARD_OPTION | PACKAGE>...",
        help: "\n\nFor more information, try '--help'.\n",
    };
    assert(r@.flags =~= remove_def_spec().flags);
    assert(r@.conflicts =~= remove_def_spec().conflicts);
    r
}

/// The definition of the `list` subcommand.
pub open spec fn list_def_spec() -> DefSpec {
    DefSpec {
        flags: seq![
        FlagSpec { long: "global"@, short: Some('g'), kind: FlagKind::SetTrue },
        FlagSpec { long: "prod"@, short: Some('p'), kind: FlagKind::SetTrue },
        FlagSpec { long: "dev"@, short: Some('d'), kind: FlagKind::SetTrue },
        FlagSpec { long: "no-optional"@, short: Some('O'), kind: FlagKind::SetFalse },
        FlagSpec { long: "no-peer"@, short: Some('P'), kind: FlagKind::SetFalse },
    ],
        positional: PositionalKind::Forward(false),
        positional_name: "FORWARD_OPTION | PACKAGE"@,
        conflicts: seq![(1usize, 2usize)],
        usage: "unpm list [OPTIONS] [FORWARD_OPTION | PACKAGE]..."@,
        help: "\n\nFor more information, try '--help'.\n"@,
    }
}

/// The definition of the `list` subcommand.
pub fn list_def() -> (r: CommandDef)
    ensures
        r@ == list_def_spec(),
        wf_def(r@),
{
    let mut flags: Vec<FlagDef> = Vec::new();
    flags.push(flag("global", Some('g'), FlagKind::SetTrue));
    flags.push(flag("prod", Some('p'), FlagKind::SetTrue));
    flags.push(flag("dev", Some('d'), FlagKind::SetTrue));
    flags.push(flag("no-optional", Some('O'), FlagKind::SetFalse));
    flags.push(flag("no-peer", Some('P'), FlagKind::SetFalse));
    let mut conflicts: Vec<(usize, usize)> = Vec::new();
    conflicts.push((1, 2));
    let r = CommandDef {
        flags,
        positional: PositionalKind::Forward(false),
        positional_name: "FORWARD_OPTION | PACKAGE",
        conflicts,
        usage: "unpm list [OPTIONS] [FORWARD_OPTION | PACKAGE]...",
        help: "\n\nFor more information, try '--help'.\n",
    };
    assert(r@.flags =~= list_def_spec().flags);
    assert(r@.conflicts =~= list_def_spec().conflicts);
    r
}

/// The definition of the `update` subcommand.
pub open spec fn update_def_spec() -> DefSpec {
    DefSpec {
        flags: seq![
        FlagSpec { long: "global"@, short: Some('g'), kind: FlagKind::SetTrue },
        FlagSpec { long: "prod"@, short: Some('p'), kind: FlagKind::SetTrue },
        FlagSpec { long: "dev"@, short: Some('d'), kind: FlagKind::SetTrue },
        FlagSpec { long: "no-optional"@, short: Some('O'), kind: FlagKind::SetFalse },
        FlagSpec { long: "no-peer"@, short: Some('P'), kind: FlagKind::SetFalse },
        FlagSpec { long: "interactive"@, short: Some('i'), kind: FlagKind::SetTrue },
    ],
        positional: PositionalKind::Forward(false),
        positional_name: "FORWARD_OPTION | PACKAGE"@,
        conflicts: seq![(0usize, 2usize), (0usize, 3usize), (0usize, 4usize), (1usize, 2usize)],
        usage: "unpm update [OPTIONS] [FORWARD_OPTION | PACKAGE]..."@,
        help: "\n\nFor more information, try '--help'.\n"@,
    }
}

/// The definition of the `update` subcommand.
pub fn update_def() -> (r: CommandDef)
    ensures
        r@ == update_def_spec(),
        wf_def(r@),
{
    let mut flags: Vec<FlagDef> = Vec::new();
    flags.push(flag("global", Some('g'), FlagKind::SetTrue));
    flags.push(flag("prod", Some('p'), FlagKind::SetTrue));
    flags.push(flag("dev", Some('d'), FlagKind::SetTrue));
    flags.push(flag("no-optional", Some('O'), FlagKind::SetFalse));
    flags.push(flag("no-peer", Some('P'), FlagKind::SetFalse));
    flags.push(flag("interactive", Some('i'), FlagKind::SetTrue));
    let mut conflicts: Vec<(usize, usize)> = Vec::new();
    conflicts.push((0, 2));
    conflicts.push((0, 3));
    conflicts.push((0, 4));
    conflicts.push((1, 2));
    let r = CommandDef {
        flags,
        positional: PositionalKind::Forward(false),
        positional_name: "FORWARD_OPTION | PACKAGE",
        conflicts,
        usage: "unpm update [OPTIONS] [FORWARD_OPTION | PACKAGE]...",
        help: "\n\nFor more information, try '--help'.\n",
    };
    assert(r@.flags =~= update_def_spec().flags);
    assert(r@.conflicts =~= update_def_spec().conflicts);
    r
}

/// The definition of the `dlx` subcommand.
pub open spec fn dlx_def_spec() -> DefSpec {
    DefSpec {
        flags: seq![
        FlagSpec { long: "no-global"@, short: Some('G'), kind: FlagKind::SetFalse },
    ],
        positional: PositionalKind::Forward(true),
        positional_name: "FORWARD_ARGUMENT"@,
        conflicts: Seq::empty(),
        usage: "unpm dlx [OPTIONS] <FORWARD_ARGUMENT>..."@,
        help: "\n\nFor more information, try '--help'.\n"@,
    }
}

/// The definition of the `dlx` subcommand.
pub fn dlx_def() -> (r: CommandDef)
    ensures
        r@ == dlx_def_spec(),
        wf_def(r@),
{
    let mut flags: Vec<FlagDef> = Vec::new();
    flags.push(flag("no-global", Some('G'), FlagKind::SetFalse));
    let mut conflicts: Vec<(usize, usize)> = Vec::new();

    let r = CommandDef {
        flags,
        positional: PositionalKind::Forward(true),
        positional_name: "FORWARD_ARGUMENT",
        conflicts,
        usage: "unpm dlx [OPTIONS] <FORWARD_ARGUMENT>...",
        help: "\n\nFor more information, try '--help'.\n",
    };
    assert(r@.flags =~= dlx_def_spec().flags);
    assert(r@.conflicts =~= dlx_def_spec().conflicts);
    r
}

/// The definition of the `exec` subcommand.
pub open spec fn exec_def_spec() -> DefSpec {
    DefSpec {
        flags: Seq::empty(),
        positional: PositionalKind::Forward(true),
        positional_name: "FORWARD_ARGUMENT"@,
        conflicts: Seq::empty(),
        usage: "unpm exec <FORWARD_ARGUMENT>..."@,
        help: "\n\nFor more information, try '--help'.\n"@,
    }
}

/// The definition of the `exec` subcommand.
pub fn exec_def() -> (r: CommandDef)
    ensures
        r@ == exec_def_spec(),
        wf_def(r@),
{
    let mut flags: Vec<FlagDef> = Vec::new();

    let mut conflicts: Vec<(usize, usize)> = Vec::new();

    let r = CommandDef {
        flags,
        positional: PositionalKind::Forward(true),
        positional_name: "FORWARD_ARGUMENT",
        conflicts,
        usage: "unpm exec <FORWARD_ARGUMENT>...",
        help: "\n\nFor more information, try '--help'.\n",
    };
    assert(r@.flags =~= exec_def_spec().flags);
    assert(r@.conflicts =~= exec_def_spec().conflicts);
    r
}

/// The definition of the `run` subcommand.
pub open spec fn run_def_spec() -> DefSpec {
    DefSpec {
        flags: Seq::empty(),
        positional: PositionalKind::Forward(true),
        positional_name: "FORWARD_ARGUMENT"@,
        conflicts: Seq::empty(),
        usage: "unpm run <FORWARD_ARGUMENT>..."@,
        help: "\n\nFor more information, try '--help'.\n"@,
    }
}

/// The definition of the `run` subcommand.
pub fn run_def() -> (r: CommandDef)
    ensures
        r@ == run_def_spec(),
        wf_def(r@),
{
    let mut flags: Vec<FlagDef> = Vec::new();

    let mut conflicts: Vec<(usize, usize)> = Vec::new();

    let r = CommandDef {
        flags,
        positional: PositionalKind::Forward(true),
        positional_name: "FORWARD_ARGUMENT",
        conflicts,
        usage: "unpm run <FORWARD_ARGUMENT>...",
        help: "\n\nFor more information, try '--help'.\n",
    };
    assert(r@.flags =~= run_def_spec().flags);
    assert(r@.conflicts =~= run_def_spec().conflicts);
    r
}

/// The definition of the `complete` subcommand.
pub open spec fn complete_def_spec() -> DefSpec {
    DefSpec {
        flags: seq![
        FlagSpec { long: "unpm"@, short: None, kind: FlagKind::Text },
        FlagSpec { long: "unpx"@, short: None, kind: FlagKind::Text },
    ],
        positional: PositionalKind::Shell,
        positional_name: "SHELL"@,
        conflicts: Seq::empty(),
        usage: "unpm complete [OPTIONS] <SHELL>"@,
        help: "\n\nFor more information, try '--help'.\n"@,
    }
}

/// The definition of the `complete` subcommand.
pub fn complete_def() -> (r: CommandDef)
    ensures
        r@ == complete_def_spec(),
        wf_def(r@),
{
    let mut flags: Vec<FlagDef> = Vec::new();
    flags.push(flag("unpm", None, FlagKind::Text));
    flags.push(flag("unpx", None, FlagKind::Text));
    let mut conflicts: Vec<(usize, usize)> = Vec::new();

    let r = CommandDef {
        flags,
        positional: PositionalKind::Shell,
        positional_name: "SHELL",
        conflicts,
        usage: "unpm complete [OPTIONS] <SHELL>",
        help: "\n\nFor more information, try '--help'.\n",
    };
    assert(r@.flags =~= complete_def_spec().flags);
    assert(r@.conflicts =~= complete_def_spec().conflicts);
    r
}

/// The definition of the `unpx` command.
pub open spec fn unpx_def_spec() -> DefSpec {
    DefSpec {
        flags: seq![
        FlagSpec { long: "config"@, short: Some('c'), kind: FlagKind::Path },
        FlagSpec { long: "pm"@, short: None, kind: FlagKind::PackageManagerName },
        FlagSpec { long: "runner"@, short: None, kind: FlagKind::ScriptRunnerName },
        FlagSpec { long: "dry-run"@, short: None, kind: FlagKind::SetTrue },
        FlagSpec { long: "no-global"@, short: Some('G'), kind: FlagKind::SetFalse },
    ],
        positional: PositionalKind::Forward(true),
        positional_name: "FORWARD_ARGUMENT"@,
        conflicts: Seq::empty(),
        usage: "unpx [OPTIONS] <FORWARD_ARGUMENT>..."@,
        help: "\n"@,
    }
}

/// The definition of the `unpx` command.
pub fn unpx_def() -> (r: CommandDef)
    ensures
        r@ == unpx_def_spec(),
        wf_def(r@),
{
    let mut flags: Vec<FlagDef> = Vec::new();
    flags.push(flag("config", Some('c'), FlagKind::Path));
    flags.push(flag("pm", None, FlagKind::PackageManagerName));
    flags.push(flag("runner", None, FlagKind::ScriptRunnerName));
    flags.push(flag("dry-run", None, FlagKind::SetTrue));
    flags.push(flag("no-global", Some('G'), FlagKind::SetFalse));
    let mut conflicts: Vec<(usize, usize)> = Vec::new();

    let r = CommandDef {
        flags,
        positional: PositionalKind::Forward(true),
        positional_name: "FORWARD_ARGUMENT",
        conflicts,
        usage: "unpx [OPTIONS] <FORWARD_ARGUMENT>...",
        help: "\n",
    };
    assert(r@.flags =~= unpx_def_spec().flags);
    assert(r@.conflicts =~= unpx_def_spec().conflicts);
    r
}

} // verus!
