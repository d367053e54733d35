//! The `unpm` command: main options, then one subcommand with its own arguments.
use vstd::prelude::*;

use crate::cli::defs::{
    add_def, add_def_spec, complete_def, complete_def_spec, dlx_def, dlx_def_spec, exec_def,
    exec_def_spec, install_def, install_def_spec, list_def, list_def_spec, pm_def, pm_def_spec,
    remove_def, remove_def_spec, root_def, root_def_spec, run_def, run_def_spec, update_def,
    update_def_spec,
};
use crate::cli::main::args::{main_args_from, main_args_match, MainArgs};
use crate::cli::parser::{
    fail_message, finish, init_state, parse_all, parse_words, step, to_parse_error, unexpected,
    unexpected_text, unrecognized, unrecognized_text, wf_def,
    wf_state, CommandDef, DefSpec, ErrorKind, FailSpec, Failure, ParseError, ParserState,
    StateSpec,
};
use crate::cli::sub::{
    AddArgs, CompleteArgs, DlxArgs, ExecArgs, InstallArgs, ListArgs, PmArgs, RemoveArgs, RunArgs,
    Subcommands, UpdateArgs,
};
use crate::context::{Context, ContextSpec};
use crate::enums::{shell_from_name, Shell};
use crate::strings::{copy_strings, owned, str_eq};

verus! {

/// The parsed `unpm` command line.
#[derive(Debug)]
pub struct Unpm {
    pub main_args: MainArgs,
    pub command: Option<Subcommands>,
}

/// The words of a command line.
pub open spec fn words(args: Seq<&str>) -> Seq<Seq<char>> {
    args.map_values(|a: &str| a@)
}

/// The words after the program name.
pub open spec fn operands(w: Seq<Seq<char>>) -> Seq<Seq<char>> {
    if w.len() > 0 {
        w.skip(1)
    } else {
        w
    }
}

/// The position in [`Subcommands`] of the subcommand named `t` (by name or alias).
pub open spec fn sub_index(t: Seq<char>) -> Option<int> {
    if t == "pm"@ {
        Some(0)
    } else if t == "install"@ || t == "i"@ {
        Some(1)
    } else if t == "add"@ || t == "a"@ {
        Some(2)
    } else if t == "remove"@ || t == "rm"@ {
        Some(3)
    } else if t == "list"@ || t == "ls"@ {
        Some(4)
    } else if t == "update"@ || t == "up"@ {
        Some(5)
    } else if t == "dlx"@ {
        Some(6)
    } else if t == "exec"@ || t == "x"@ {
        Some(7)
    } else if t == "run"@ {
        Some(8)
    } else if t == "complete"@ {
        Some(9)
    } else {
        None
    }
}

/// The definition of the subcommand at position `k`.
pub open spec fn sub_def_spec(k: int) -> DefSpec {
    if k == 0 {
        pm_def_spec()
    } else if k == 1 {
        install_def_spec()
    } else if k == 2 {
        add_def_spec()
    } else if k == 3 {
        remove_def_spec()
    } else if k == 4 {
        list_def_spec()
    } else if k == 5 {
        update_def_spec()
    } else if k == 6 {
        dlx_def_spec()
    } else if k == 7 {
        exec_def_spec()
    } else if k == 8 {
        run_def_spec()
    } else {
        complete_def_spec()
    }
}

/// Where parsing the main options stopped.
pub enum RootOutcome {
    /// All words were main options.
    Done(StateSpec),
    /// Subcommand `k` starts; its words begin at the position given.
    Enter(StateSpec, int, int),
    /// `help` was found; the words after it begin at the position given.
    Help(int),
    /// A word was refused.
    Fail(FailSpec),
}

/// Parses main options from word `i` on, until a subcommand name is met where a new
/// word may start (not after `--`, not where an option waits for its value).
pub open spec fn root_run(s: StateSpec, toks: Seq<Seq<char>>, i: int) -> RootOutcome
    decreases toks.len() - i,
{
    if i < 0 || i >= toks.len() {
        RootOutcome::Done(s)
    } else {
        let t = toks[i];
        let d = root_def_spec();
        if s.pending is None && !s.escaped && sub_index(t) is Some {
            RootOutcome::Enter(s, sub_index(t)->0, i + 1)
        } else if s.pending is None && !s.escaped && t == "help"@ {
            RootOutcome::Help(i + 1)
        } else if s.pending is None && s.escaped && (sub_index(t) is Some || t == "help"@) {
            RootOutcome::Fail(
                FailSpec { kind: ErrorKind::UnknownArgument, detail: unexpected(t), usage: d.usage, help: d.help },
            )
        } else {
            match step(d, s, t) {
                Ok(s2) => root_run(s2, toks, i + 1),
                Err(e) => RootOutcome::Fail(e),
            }
        }
    }
}

/// What `help` followed by the words from position `j` gives: help for `unpm` or for
/// one of its subcommands, or the error for a word that names no subcommand.
pub open spec fn help_failure(toks: Seq<Seq<char>>, j: int) -> FailSpec {
    let usage = root_def_spec().usage;
    let help = root_def_spec().help;
    if j >= toks.len() {
        FailSpec { kind: ErrorKind::DisplayHelp, detail: "help"@, usage, help }
    } else if !(sub_index(toks[j]) is Some || toks[j] == "help"@) {
        FailSpec { kind: ErrorKind::InvalidSubcommand, detail: unrecognized(toks[j]), usage, help }
    } else if j + 1 < toks.len() {
        FailSpec { kind: ErrorKind::InvalidSubcommand, detail: unrecognized(toks[j + 1]), usage, help }
    } else {
        FailSpec { kind: ErrorKind::DisplayHelp, detail: toks[j], usage, help }
    }
}

/// The values of the main options and, when a subcommand was given, its position and
/// its values; or the error.
pub open spec fn parse_unpm(toks: Seq<Seq<char>>) -> Result<(StateSpec, Option<(int, StateSpec)>), FailSpec> {
    match root_run(init_state(root_def_spec()), toks, 0) {
        RootOutcome::Done(s) => match finish(root_def_spec(), s) {
            Ok(s2) => Ok((s2, None)),
            Err(e) => Err(e),
        },
        RootOutcome::Enter(s, k, j) => match parse_all(sub_def_spec(k), toks.skip(j)) {
            Ok(ss) => Ok((s, Some((k, ss)))),
            Err(e) => Err(e),
        },
        RootOutcome::Help(j) => Err(help_failure(toks, j)),
        RootOutcome::Fail(e) => Err(e),
    }
}

/// An optional text option at position `f` holds what was parsed.
pub open spec fn text_match(o: Option<String>, s: StateSpec, f: int) -> bool {
    match o {
        Some(v) => s.present[f] && v@ == s.texts[f],
        None => !s.present[f],
    }
}

/// The subcommand `c` holds what was parsed for subcommand `k`.
pub open spec fn sub_matches(c: Subcommands, k: int, s: StateSpec) -> bool {
    match c {
        Subcommands::Pm(a) => k == 0 && a.global == s.present[0] && a.forward_args.deep_view()
            == s.positionals,
        Subcommands::Install(a) => k == 1 && a.prod == s.present[0] && a.optional == !s.present[1]
            && a.peer == !s.present[2] && a.frozen == s.present[3] && a.forward_args.deep_view()
            == s.positionals,
        Subcommands::Add(a) => k == 2 && a.global == s.present[0] && a.dev == s.present[1]
            && a.optional == s.present[2] && a.peer == s.present[3] && a.exact == s.present[4]
            && a.forward_args.deep_view() == s.positionals,
        Subcommands::Remove(a) => k == 3 && a.global == s.present[0] && a.forward_args.deep_view()
            == s.positionals,
        Subcommands::List(a) => k == 4 && a.global == s.present[0] && a.prod == s.present[1]
            && a.dev == s.present[2] && a.optional == !s.present[3] && a.peer == !s.present[4]
            && a.forward_args.deep_view() == s.positionals,
        Subcommands::Update(a) => k == 5 && a.global == s.present[0] && a.prod == s.present[1]
            && a.dev == s.present[2] && a.optional == !s.present[3] && a.peer == !s.present[4]
            && a.interactive == s.present[5] && a.forward_args.deep_view() == s.positionals,
        Subcommands::Dlx(a) => k == 6 && a.global == !s.present[0] && a.forward_args.deep_view()
            == s.positionals,
        Subcommands::Exec(a) => k == 7 && a.forward_args.deep_view() == s.positionals,
        Subcommands::Run(a) => k == 8 && a.forward_args.deep_view() == s.positionals,
        Subcommands::Complete(a) => k == 9 && shell_from_name(s.positionals[0]) == Some(a.shell)
            && text_match(a.unpm, s, 0) && text_match(a.unpx, s, 1),
    }
}

/// The parsed command line matches the abstract parse.
pub open spec fn unpm_matches(u: Unpm, p: (StateSpec, Option<(int, StateSpec)>)) -> bool {
    &&& main_args_match(u.main_args, p.0.present, p.0.texts, 0)
    &&& match p.1 {
        None => u.command is None,
        Some((k, ss)) => u.command matches Some(c) && sub_matches(c, k, ss),
    }
}

/// Whether a subcommand sets the context to global: `pm`, `add`, `remove`, `list` and
/// `update` do when their `--global` is given; the others leave it as it is.
pub open spec fn command_global(c: Option<Subcommands>, current: bool) -> bool {
    match c {
        Some(Subcommands::Pm(a)) => a.global,
        Some(Subcommands::Add(a)) => a.global,
        Some(Subcommands::Remove(a)) => a.global,
        Some(Subcommands::List(a)) => a.global,
        Some(Subcommands::Update(a)) => a.global,
        _ => current,
    }
}

/// Whether the package manager of a subcommand is resolved as for a global command:
/// `dlx` is unless `-G, --no-global` is given; the others go by the context.
pub open spec fn resolves_globally(c: Option<Subcommands>, current: bool) -> bool {
    match c {
        Some(Subcommands::Dlx(a)) => a.global,
        _ => current,
    }
}

/// The words of `args` after the first, as owned strings.
pub fn operand_words(args: &[&str]) -> (r: Vec<String>)
    ensures
        r.deep_view() == operands(words(args@)),
{
    let n = args.len();
    let mut r: Vec<String> = Vec::new();
    if n == 0 {
        assert(r.deep_view() =~= operands(words(args@)));
        return r;
    }
    let mut i: usize = 1;
    while i < n
        invariant
            n == args@.len(),
            1 <= i <= n,
            r.deep_view() =~= words(args@).subrange(1, i as int),
        decreases n - i,
    {
        let ghost before = r.deep_view();
        r.push(owned(args[i]));
        assert(r.deep_view() =~= before.push(args@[i as int]@));
        i = i + 1;
    }
    assert(words(args@).subrange(1, n as int) =~= words(args@).skip(1));
    r
}

fn sub_def(k: usize) -> (r: CommandDef)
    requires
        k < 10,
    ensures
        r@ == sub_def_spec(k as int),
        wf_def(r@),
{
    if k == 0 {
        pm_def()
    } else if k == 1 {
        install_def()
    } else if k == 2 {
        add_def()
    } else if k == 3 {
        remove_def()
    } else if k == 4 {
        list_def()
    } else if k == 5 {
        update_def()
    } else if k == 6 {
        dlx_def()
    } else if k == 7 {
        exec_def()
    } else if k == 8 {
        run_def()
    } else {
        complete_def()
    }
}

/// The position of the subcommand named `t`.
pub fn find_subcommand(t: &str) -> (r: Option<usize>)
    ensures
        match r {
            Some(k) => sub_index(t@) == Some(k as int) && k < 10,
            None => sub_index(t@) is None,
        },
{
    if str_eq(t, "pm") {
        Some(0)
    } else if str_eq(t, "install") || str_eq(t, "i") {
        Some(1)
    } else if str_eq(t, "add") || str_eq(t, "a") {
        Some(2)
    } else if str_eq(t, "remove") || str_eq(t, "rm") {
        Some(3)
    } else if str_eq(t, "list") || str_eq(t, "ls") {
        Some(4)
    } else if str_eq(t, "update") || str_eq(t, "up") {
        Some(5)
    } else if str_eq(t, "dlx") {
        Some(6)
    } else if str_eq(t, "exec") || str_eq(t, "x") {
        Some(7)
    } else if str_eq(t, "run") {
        Some(8)
    } else if str_eq(t, "complete") {
        Some(9)
    } else {
        None
    }
}

fn text_of(s: &ParserState, f: usize) -> (r: Option<String>)
    requires
        f < s.present@.len(),
        s.present@.len() == s.texts@.len(),
    ensures
        text_match(r, s@, f as int),
{
    if s.present[f] {
        Some(owned(s.texts[f].as_str()))
    } else {
        None
    }
}

fn build_sub(k: usize, s: &ParserState) -> (r: Subcommands)
    requires
        k < 10,
        wf_state(sub_def_spec(k as int), s@),
        k == 9 ==> s@.positionals.len() >= 1,
    ensures
        sub_matches(r, k as int, s@),
{
    let fwd = copy_strings(&s.positionals);
    if k == 0 {
        Subcommands::Pm(PmArgs { global: s.present[0], forward_args: fwd })
    } else if k == 1 {
        Subcommands::Install(
            InstallArgs {
                prod: s.present[0],
                optional: !s.present[1],
                peer: !s.present[2],
                frozen: s.present[3],
                forward_args: fwd,
            },
        )
    } else if k == 2 {
        Subcommands::Add(
            AddArgs {
                global: s.present[0],
                dev: s.present[1],
                optional: s.present[2],
                peer: s.present[3],
                exact: s.present[4],
                forward_args: fwd,
            },
        )
    } else if k == 3 {
        Subcommands::Remove(RemoveArgs { global: s.present[0], forward_args: fwd })
    } else if k == 4 {
        Subcommands::List(
            ListArgs {
                global: s.present[0],
                prod: s.present[1],
                dev: s.present[2],
                optional: !s.present[3],
                peer: !s.present[4],
                forward_args: fwd,
            },
        )
    } else if k == 5 {
        Subcommands::Update(
            UpdateArgs {
                global: s.present[0],
                prod: s.present[1],
                dev: s.present[2],
                optional: !s.present[3],
                peer: !s.present[4],
                interactive: s.present[5],
                forward_args: fwd,
            },
        )
    } else if k == 6 {
        Subcommands::Dlx(DlxArgs { global: !s.present[0], forward_args: fwd })
    } else if k == 7 {
        Subcommands::Exec(ExecArgs { forward_args: fwd })
    } else if k == 8 {
        Subcommands::Run(RunArgs { forward_args: fwd })
    } else {
        assert(shell_from_name(s@.positionals[0]) is Some);
        let shell = match Shell::from_name(s.positionals[0].as_str()) {
            Some(sh) => sh,
            None => Shell::Bash,
        };
        Subcommands::Complete(CompleteArgs { shell, unpm: text_of(s, 0), unpx: text_of(s, 1) })
    }
}

fn help_error(toks: &Vec<String>, j: usize) -> (r: ParseError)
    requires
        j <= toks@.len(),
    ensures
        r.kind == help_failure(toks.deep_view(), j as int).kind,
        r.message@ == fail_message(help_failure(toks.deep_view(), j as int)),
{
    let root = root_def();
    let n = toks.len();
    let e = if j >= n {
        Failure { kind: ErrorKind::DisplayHelp, detail: owned("help") }
    } else {
        let first = toks[j].as_str();
        assert(toks.deep_view()[j as int] == first@);
        if !(find_subcommand(first).is_some() || str_eq(first, "help")) {
            Failure { kind: ErrorKind::InvalidSubcommand, detail: unrecognized_text(first) }
        } else if j + 1 < n {
            assert(toks.deep_view()[j + 1] == toks[j + 1]@);
            Failure { kind: ErrorKind::InvalidSubcommand, detail: unrecognized_text(toks[j + 1].as_str()) }
        } else {
            Failure { kind: ErrorKind::DisplayHelp, detail: owned(first) }
        }
    };
    to_parse_error(&root, e)
}

impl Unpm {
    /// Parses a command line, program name first.
    pub fn try_parse_from(args: &[&str]) -> (r: Result<Unpm, ParseError>)
        ensures
            match parse_unpm(operands(words(args@))) {
                Ok(p) => r matches Ok(u) && unpm_matches(u, p),
                Err(f) => r matches Err(e) && e.kind == f.kind && e.message@ == fail_message(f),
            },
    {
        let toks = operand_words(args);
        let ghost all = toks.deep_view();
        let root = root_def();
        let mut st = ParserState::new(&root);
        let n = toks.len();
        let mut i: usize = 0;
        while i < n
            invariant
                n == toks@.len(),
                all == toks.deep_view(),
                all == operands(words(args@)),
                i <= n,
                root@ == root_def_spec(),
                wf_def(root@),
                wf_state(root@, st@),
                root_run(init_state(root_def_spec()), all, 0) == root_run(st@, all, i as int),
            decreases n - i,
        {
            let t = toks[i].as_str();
            assert(all[i as int] == t@);
            let free = st.pending.is_none() && !st.escaped;
            let sub = find_subcommand(t);
            if free {
                if let Some(k) = sub {
                    let def = sub_def(k);
                    let parsed = parse_words(&def, &toks, i + 1);
                    return match parsed {
                        Ok(ss) => {
                            proof {
                                if k == 9 {
                                    assert(ss@.positionals.len() >= 1);
                                }
                            }
                            let command = build_sub(k, &ss);
                            Ok(Unpm { main_args: main_args_from(&st.present, &st.texts), command: Some(command) })
                        },
                        Err(e) => Err(to_parse_error(&def, e)),
                    };
                }
                if str_eq(t, "help") {
                    return Err(help_error(&toks, i + 1));
                }
            } else if st.pending.is_none() && (sub.is_some() || str_eq(t, "help")) {
                return Err(to_parse_error(&root, Failure { kind: ErrorKind::UnknownArgument, detail: unexpected_text(t) }));
            }
            let r = st.step(&root, t);
            if let Err(e) = r {
                return Err(to_parse_error(&root, e));
            }
            i = i + 1;
        }
        match st.finish(&root) {
            Ok(()) => Ok(Unpm { main_args: main_args_from(&st.present, &st.texts), command: None }),
            Err(e) => Err(to_parse_error(&root, e)),
        }
    }

    /// Marks the context global when the subcommand asked for global packages.
    pub fn extends_ctx(&self, ctx: &mut Context)
        ensures
            final(ctx)@ == (ContextSpec { global: command_global(self.command, old(ctx).global), ..old(ctx)@ }),
    {
        match &self.command {
            Some(Subcommands::Pm(args)) => ctx.global = args.global,
            Some(Subcommands::Add(args)) => ctx.global = args.global,
            Some(Subcommands::Remove(args)) => ctx.global = args.global,
            Some(Subcommands::List(args)) => ctx.global = args.global,
            Some(Subcommands::Update(args)) => ctx.global = args.global,
            _ => {},
        }
    }

    /// The context in which the package manager of this command line is resolved: `ctx`
    /// itself, but global for `dlx` unless `-G, --no-global` is given.
    pub fn resolution_ctx(&self, ctx: &Context) -> (r: Context)
        ensures
            r@ == (ContextSpec { global: resolves_globally(self.command, ctx.global), ..ctx@ }),
    {
        match &self.command {
            Some(Subcommands::Dlx(args)) => ctx.with_global(args.global),
            _ => ctx.with_global(ctx.global),
        }
    }
}

} // verus!
