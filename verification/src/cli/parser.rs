//! The grammar of the command line, shared by all commands: long options (`--name`,
//! `--name=value`, `--name value`), clusters of short options (`-abc`, `-cvalue`,
//! `-c=value`, `-c value`), `--` to end options, and positional values. A command whose
//! positional values are forwarded takes every word it does not know as the first
//! forwarded value, and everything after that word verbatim.
use vstd::prelude::*;
use vstd::string::*;

use crate::enums::{pm_from_name, runner_from_name, shell_from_name, PackageManager, ScriptRunner, Shell};
use crate::strings::{concat, owned, str_eq};

verus! {

/// The kind of a command-line error.
#[derive(Clone, Copy, Debug, PartialEq, Eq, Structural)]
pub enum ErrorKind {
    /// A word that looks like an option is not one, or a value came where none is taken.
    UnknownArgument,
    /// An option's value is missing or not one of the accepted values.
    InvalidValue,
    /// The word where a subcommand is expected names none.
    InvalidSubcommand,
    /// An option was given twice, or two options that exclude each other were given.
    ArgumentConflict,
    /// A required positional value is missing.
    MissingRequiredArgument,
    /// A switch was given a value with `=`.
    TooManyValues,
    /// Help was asked for with the `help` subcommand.
    DisplayHelp,
}

/// What an option does.
#[derive(Clone, Copy, Debug, PartialEq, Eq, Structural)]
pub enum FlagKind {
    /// A switch that turns a setting on.
    SetTrue,
    /// A switch that turns a setting off.
    SetFalse,
    /// An option whose value is a non-empty path.
    Path,
    /// An option whose value names a package manager.
    PackageManagerName,
    /// An option whose value names a script runner.
    ScriptRunnerName,
    /// An option whose value is any text.
    Text,
}

/// The positional values a command takes.
#[derive(Clone, Copy, Debug, PartialEq, Eq, Structural)]
pub enum PositionalKind {
    /// None.
    Nothing,
    /// Any number of values, forwarded; required when the flag is set.
    Forward(bool),
    /// Exactly one value, the name of a shell.
    Shell,
}

/// An option of a command.
pub struct FlagDef {
    pub long: &'static str,
    pub short: Option<char>,
    pub kind: FlagKind,
}

/// The abstract value of an option.
pub struct FlagSpec {
    pub long: Seq<char>,
    pub short: Option<char>,
    pub kind: FlagKind,
}

/// The options, positional values, exclusions and usage line of a command.
pub struct CommandDef {
    pub flags: Vec<FlagDef>,
    pub positional: PositionalKind,
    pub positional_name: &'static str,
    pub conflicts: Vec<(usize, usize)>,
    pub usage: &'static str,
    /// How error messages end: where to find help.
    pub help: &'static str,
}

/// The abstract value of a command definition.
pub struct DefSpec {
    pub flags: Seq<FlagSpec>,
    pub positional: PositionalKind,
    pub positional_name: Seq<char>,
    pub conflicts: Seq<(usize, usize)>,
    pub usage: Seq<char>,
    pub help: Seq<char>,
}

impl View for FlagDef {
    type V = FlagSpec;

    open spec fn view(&self) -> FlagSpec {
        FlagSpec { long: self.long@, short: self.short, kind: self.kind }
    }
}

impl View for CommandDef {
    type V = DefSpec;

    open spec fn view(&self) -> DefSpec {
        DefSpec {
            flags: self.flags@.map_values(|f: FlagDef| f@),
            positional: self.positional,
            positional_name: self.positional_name@,
            conflicts: self.conflicts@,
            usage: self.usage@,
            help: self.help@,
        }
    }
}

/// Every exclusion names two options of the command.
pub open spec fn wf_def(d: DefSpec) -> bool {
    forall|i: int|
        0 <= i < d.conflicts.len() ==> #[trigger] d.conflicts[i].0 < d.flags.len()
            && d.conflicts[i].1 < d.flags.len()
}

/// The progress of parsing the words of one command.
pub struct StateSpec {
    /// Which options were given.
    pub present: Seq<bool>,
    /// The value given to each option that takes one (empty otherwise).
    pub texts: Seq<Seq<char>>,
    /// The positional values so far.
    pub positionals: Seq<Seq<char>>,
    /// Whether forwarding has started: every further word is a positional value.
    pub started: bool,
    /// Whether `--` was seen: every further word is a positional value.
    pub escaped: bool,
    /// The option waiting for its value in the next word.
    pub pending: Option<int>,
}

/// A command-line error: its kind, the word or option it is about, and the usage line
/// of the command being parsed.
pub struct FailSpec {
    pub kind: ErrorKind,
    pub detail: Seq<char>,
    pub usage: Seq<char>,
    pub help: Seq<char>,
}

/// Nothing parsed yet.
pub open spec fn init_state(d: DefSpec) -> StateSpec {
    StateSpec {
        present: Seq::new(d.flags.len(), |i: int| false),
        texts: Seq::new(d.flags.len(), |i: int| Seq::<char>::empty()),
        positionals: Seq::empty(),
        started: false,
        escaped: false,
        pending: None,
    }
}

/// The state fits the command.
pub open spec fn wf_state(d: DefSpec, s: StateSpec) -> bool {
    &&& s.present.len() == d.flags.len()
    &&& s.texts.len() == d.flags.len()
    &&& (s.pending matches Some(f) ==> 0 <= f < d.flags.len() && !switch_kind(d.flags[f].kind))
    &&& (d.positional is Shell ==> s.positionals.len() <= 1 && forall|i: int|
        0 <= i < s.positionals.len() ==> #[trigger] shell_from_name(s.positionals[i]) is Some)
}

/// Whether an option is a switch, which takes no value.
pub open spec fn switch_kind(k: FlagKind) -> bool {
    k is SetTrue || k is SetFalse
}

/// The first option at or after `i` with long name `name`.
pub open spec fn find_long_from(flags: Seq<FlagSpec>, name: Seq<char>, i: int) -> Option<int>
    decreases flags.len() - i,
{
    if i < 0 || i >= flags.len() {
        None
    } else if flags[i].long == name {
        Some(i)
    } else {
        find_long_from(flags, name, i + 1)
    }
}

/// The first option at or after `i` with short name `c`.
pub open spec fn find_short_from(flags: Seq<FlagSpec>, c: char, i: int) -> Option<int>
    decreases flags.len() - i,
{
    if i < 0 || i >= flags.len() {
        None
    } else if flags[i].short == Some(c) {
        Some(i)
    } else {
        find_short_from(flags, c, i + 1)
    }
}

/// The first position at or after `i` of `=` in `s`.
pub open spec fn find_eq_from(s: Seq<char>, i: int) -> Option<int>
    decreases s.len() - i,
{
    if i < 0 || i >= s.len() {
        None
    } else if s[i] == '=' {
        Some(i)
    } else {
        find_eq_from(s, i + 1)
    }
}

/// A word that starts with `-` and has more after it (so not a lone `-`).
pub open spec fn flag_like(t: Seq<char>) -> bool {
    t.len() >= 2 && t[0] == '-'
}

/// A long option word: `--` followed by something.
pub open spec fn long_like(t: Seq<char>) -> bool {
    t.len() > 2 && t[0] == '-' && t[1] == '-'
}

/// The name of a long option word and the value after its first `=`, if any.
pub open spec fn long_parts(t: Seq<char>) -> (Seq<char>, Option<Seq<char>>) {
    let body = t.subrange(2, t.len() as int);
    match find_eq_from(body, 0) {
        Some(i) => (body.subrange(0, i), Some(body.subrange(i + 1, body.len() as int))),
        None => (body, None),
    }
}

/// Whether every character of `cs` is a short option of the command.
pub open spec fn all_known_shorts(flags: Seq<FlagSpec>, cs: Seq<char>) -> bool {
    forall|i: int| 0 <= i < cs.len() ==> #[trigger] find_short_from(flags, cs[i], 0) is Some
}

/// Whether an option-like word is made of options of the command.
pub open spec fn recognized(flags: Seq<FlagSpec>, t: Seq<char>) -> bool {
    if long_like(t) {
        find_long_from(flags, long_parts(t).0, 0) is Some
    } else {
        all_known_shorts(flags, t.drop_first())
    }
}

/// Whether unknown option-like words are taken as forwarded values.
pub open spec fn forwards(d: DefSpec) -> bool {
    d.positional is Forward
}

/// Whether `v` is an accepted value for an option of kind `k`.
pub open spec fn valid_value(k: FlagKind, v: Seq<char>) -> bool {
    match k {
        FlagKind::Path => v.len() > 0,
        FlagKind::PackageManagerName => pm_from_name(v) is Some,
        FlagKind::ScriptRunnerName => runner_from_name(v) is Some,
        _ => true,
    }
}

/// A failure of the command `d`.
pub open spec fn fail(d: DefSpec, kind: ErrorKind, detail: Seq<char>) -> Result<StateSpec, FailSpec> {
    Err(FailSpec { kind, detail, usage: d.usage, help: d.help })
}

/// The name shown for the value an option of kind `k` takes.
pub open spec fn value_name(k: FlagKind) -> Seq<char> {
    match k {
        FlagKind::Path => " <PATH>"@,
        FlagKind::PackageManagerName => " <PACKAGE_MANAGER>"@,
        FlagKind::ScriptRunnerName => " <SCRIPT_RUNNER>"@,
        FlagKind::Text => " <NAME>"@,
        _ => Seq::empty(),
    }
}

/// The values an option of kind `k` accepts, as listed after an error about it.
pub open spec fn possible_values(k: FlagKind) -> Seq<char> {
    match k {
        FlagKind::PackageManagerName => "\n  [possible values: npm, pnpm, yarn, yarn-berry, bun]"@,
        FlagKind::ScriptRunnerName => "\n  [possible values: node]"@,
        _ => Seq::empty(),
    }
}

/// How an option is shown in errors: its long name, and the name of its value.
pub open spec fn flag_display(d: DefSpec, f: int) -> Seq<char> {
    "--"@ + d.flags[f].long + value_name(d.flags[f].kind)
}

/// The error for a word that is not taken.
pub open spec fn unexpected(t: Seq<char>) -> Seq<char> {
    "unexpected argument '"@ + t + "' found"@
}

/// The error for a word that names no subcommand.
pub open spec fn unrecognized(t: Seq<char>) -> Seq<char> {
    "unrecognized subcommand '"@ + t + "'"@
}

/// The error for an option given twice.
pub open spec fn repeated(a: Seq<char>) -> Seq<char> {
    "the argument '"@ + a + "' cannot be used multiple times"@
}

/// The error for two options that exclude each other.
pub open spec fn conflicting(a: Seq<char>, b: Seq<char>) -> Seq<char> {
    "the argument '"@ + a + "' cannot be used with '"@ + b + "'"@
}

/// The error for option `f` without a value.
pub open spec fn value_required(d: DefSpec, f: int) -> Seq<char> {
    "a value is required for '"@ + flag_display(d, f) + "' but none was supplied"@
        + possible_values(d.flags[f].kind)
}

/// The error for option `f` given the value `v`, which it does not accept.
pub open spec fn bad_value(d: DefSpec, f: int, v: Seq<char>) -> Seq<char> {
    if v.len() == 0 {
        value_required(d, f)
    } else {
        "invalid value '"@ + v + "' for '"@ + flag_display(d, f) + "'"@ + possible_values(
            d.flags[f].kind,
        )
    }
}

/// The error for a shell name that names no shell.
pub open spec fn bad_shell(d: DefSpec, t: Seq<char>) -> Seq<char> {
    "invalid value '"@ + t + "' for '<"@ + d.positional_name + ">'"@
        + "\n  [possible values: bash, elvish, fish, powershell, zsh]"@
}

/// The error for switch `f` given the value `v`.
pub open spec fn no_more_values(d: DefSpec, f: int, v: Seq<char>) -> Seq<char> {
    "unexpected value '"@ + v + "' for '"@ + flag_display(d, f) + "' found; no more were expected"@
}

/// The error for an unknown long option `--name`: with a tip for a command whose value
/// is a shell name.
pub open spec fn unknown_long(d: DefSpec, name: Seq<char>) -> Seq<char> {
    unexpected("--"@ + name) + if d.positional is Shell {
        "\n\n  tip: to pass '"@ + ("--"@ + name) + "' as a value, use '-- "@ + ("--"@ + name)
            + "'"@
    } else {
        Seq::empty()
    }
}

/// The error for a missing required positional value.
pub open spec fn required_missing(d: DefSpec) -> Seq<char> {
    "the following required arguments were not provided:\n  <"@ + d.positional_name + ">"@
        + if d.positional is Forward {
        "..."@
    } else {
        Seq::empty()
    }
}

/// Gives option `f` the value `v`.
pub open spec fn assign(d: DefSpec, s: StateSpec, f: int, v: Seq<char>) -> Result<StateSpec, FailSpec> {
    if s.present[f] {
        fail(d, ErrorKind::ArgumentConflict, repeated(flag_display(d, f)))
    } else if !valid_value(d.flags[f].kind, v) {
        fail(d, ErrorKind::InvalidValue, bad_value(d, f, v))
    } else {
        Ok(
            StateSpec {
                present: s.present.update(f, true),
                texts: s.texts.update(f, v),
                pending: None,
                ..s
            },
        )
    }
}

/// Turns switch `f` on (it may be given once).
pub open spec fn set_switch(d: DefSpec, s: StateSpec, f: int) -> Result<StateSpec, FailSpec> {
    if s.present[f] {
        fail(d, ErrorKind::ArgumentConflict, repeated(flag_display(d, f)))
    } else {
        Ok(StateSpec { present: s.present.update(f, true), ..s })
    }
}

/// Takes `t` as a positional value.
pub open spec fn push_positional(d: DefSpec, s: StateSpec, t: Seq<char>) -> Result<StateSpec, FailSpec> {
    match d.positional {
        PositionalKind::Nothing => fail(d, ErrorKind::InvalidSubcommand, unrecognized(t)),
        PositionalKind::Forward(_) => Ok(
            StateSpec { positionals: s.positionals.push(t), started: true, ..s },
        ),
        PositionalKind::Shell => if s.positionals.len() >= 1 {
            fail(d, ErrorKind::UnknownArgument, unexpected(t))
        } else if shell_from_name(t) is None {
            fail(d, ErrorKind::InvalidValue, bad_shell(d, t))
        } else {
            Ok(StateSpec { positionals: s.positionals.push(t), ..s })
        },
    }
}

/// The value attached to a short option: the rest of its cluster, without one leading `=`.
pub open spec fn strip_eq(rest: Seq<char>) -> Seq<char> {
    if rest.len() > 0 && rest[0] == '=' {
        rest.drop_first()
    } else {
        rest
    }
}

/// Parses the characters of a short option cluster from position `i` on.
pub open spec fn shorts(d: DefSpec, s: StateSpec, cs: Seq<char>, i: int) -> Result<StateSpec, FailSpec>
    decreases cs.len() - i,
{
    if i < 0 || i >= cs.len() {
        Ok(s)
    } else {
        match find_short_from(d.flags, cs[i], 0) {
            None => fail(d, ErrorKind::UnknownArgument, unexpected(seq!['-', cs[i]])),
            Some(f) => if switch_kind(d.flags[f].kind) {
                match set_switch(d, s, f) {
                    Ok(s2) => shorts(d, s2, cs, i + 1),
                    Err(e) => Err(e),
                }
            } else {
                let rest = cs.subrange(i + 1, cs.len() as int);
                if rest.len() == 0 {
                    Ok(StateSpec { pending: Some(f), ..s })
                } else {
                    assign(d, s, f, strip_eq(rest))
                }
            },
        }
    }
}

/// Parses a long option word.
pub open spec fn long_step(d: DefSpec, s: StateSpec, t: Seq<char>) -> Result<StateSpec, FailSpec> {
    let (name, value) = long_parts(t);
    match find_long_from(d.flags, name, 0) {
        Some(f) => if switch_kind(d.flags[f].kind) {
            match value {
                Some(v) => fail(d, ErrorKind::TooManyValues, no_more_values(d, f, v)),
                None => set_switch(d, s, f),
            }
        } else {
            match value {
                Some(v) => assign(d, s, f, v),
                None => Ok(StateSpec { pending: Some(f), ..s }),
            }
        },
        None => if forwards(d) {
            push_positional(d, s, t)
        } else {
            fail(d, ErrorKind::UnknownArgument, unknown_long(d, name))
        },
    }
}

/// Parses one word of a command without subcommands.
pub open spec fn step(d: DefSpec, s: StateSpec, t: Seq<char>) -> Result<StateSpec, FailSpec> {
    match s.pending {
        Some(f) => if t == "--"@ {
            fail(d, ErrorKind::InvalidValue, value_required(d, f))
        } else if flag_like(t) {
            if recognized(d.flags, t) {
                fail(d, ErrorKind::InvalidValue, value_required(d, f))
            } else if forwards(d) {
                assign(d, s, f, t)
            } else {
                fail(d, ErrorKind::UnknownArgument, unexpected(t))
            }
        } else {
            assign(d, s, f, t)
        },
        None => if s.escaped || s.started {
            push_positional(d, s, t)
        } else if t == "--"@ {
            Ok(StateSpec { escaped: true, ..s })
        } else if long_like(t) {
            long_step(d, s, t)
        } else if flag_like(t) {
            if forwards(d) && !all_known_shorts(d.flags, t.drop_first()) {
                push_positional(d, s, t)
            } else {
                shorts(d, s, t.drop_first(), 0)
            }
        } else {
            push_positional(d, s, t)
        },
    }
}

/// Parses all of `toks` with a command without subcommands.
pub open spec fn run(d: DefSpec, s: StateSpec, toks: Seq<Seq<char>>) -> Result<StateSpec, FailSpec>
    decreases toks.len(),
{
    if toks.len() == 0 {
        Ok(s)
    } else {
        match step(d, s, toks[0]) {
            Ok(s2) => run(d, s2, toks.drop_first()),
            Err(e) => Err(e),
        }
    }
}

/// The first exclusion at or after `i` whose two options were both given.
pub open spec fn conflict_from(d: DefSpec, s: StateSpec, i: int) -> Option<int>
    decreases d.conflicts.len() - i,
{
    if i < 0 || i >= d.conflicts.len() {
        None
    } else if s.present[d.conflicts[i].0 as int] && s.present[d.conflicts[i].1 as int] {
        Some(i)
    } else {
        conflict_from(d, s, i + 1)
    }
}

/// The checks after the last word: no option waits for a value, no two excluded
/// options were given, and required positional values are there.
pub open spec fn finish(d: DefSpec, s: StateSpec) -> Result<StateSpec, FailSpec> {
    if s.pending is Some {
        fail(d, ErrorKind::InvalidValue, value_required(d, s.pending->0))
    } else if conflict_from(d, s, 0) is Some {
        fail(
            d,
            ErrorKind::ArgumentConflict,
            conflicting(
                flag_display(d, d.conflicts[conflict_from(d, s, 0)->0].0 as int),
                flag_display(d, d.conflicts[conflict_from(d, s, 0)->0].1 as int),
            ),
        )
    } else if (d.positional == PositionalKind::Forward(true) || d.positional == PositionalKind::Shell)
        && s.positionals.len() == 0 {
        fail(d, ErrorKind::MissingRequiredArgument, required_missing(d))
    } else {
        Ok(s)
    }
}

/// Parses all of `toks` with a command without subcommands, then checks the result.
pub open spec fn parse_all(d: DefSpec, toks: Seq<Seq<char>>) -> Result<StateSpec, FailSpec> {
    match run(d, init_state(d), toks) {
        Ok(s) => finish(d, s),
        Err(e) => Err(e),
    }
}

/// Whether the message of an error of kind `k` shows the usage line.
pub open spec fn shows_usage(k: ErrorKind) -> bool {
    !(k is InvalidValue || k is DisplayHelp)
}

/// The full text of a command-line error, as clap writes it: `error:` and what went
/// wrong, the usage line for most kinds, and where to find help.
pub open spec fn fail_message(f: FailSpec) -> Seq<char> {
    "error: "@ + f.detail + (if shows_usage(f.kind) {
        "\n\nUsage: "@ + f.usage
    } else {
        Seq::empty()
    }) + f.help
}

/// The values that were parsed, as the exec-level state.
pub struct ParserState {
    pub present: Vec<bool>,
    pub texts: Vec<String>,
    pub positionals: Vec<String>,
    pub started: bool,
    pub escaped: bool,
    pub pending: Option<usize>,
}

impl View for ParserState {
    type V = StateSpec;

    open spec fn view(&self) -> StateSpec {
        StateSpec {
            present: self.present@,
            texts: self.texts.deep_view(),
            positionals: self.positionals.deep_view(),
            started: self.started,
            escaped: self.escaped,
            pending: match self.pending {
                Some(f) => Some(f as int),
                None => None,
            },
        }
    }
}

/// A failure while parsing, before the usage line is added.
pub struct Failure {
    pub kind: ErrorKind,
    pub detail: String,
}

/// A command-line error with the message shown for it.
#[derive(Debug)]
pub struct ParseError {
    pub kind: ErrorKind,
    pub message: String,
}

impl ParseError {
    /// The kind of this error.
    pub fn kind(&self) -> (r: ErrorKind)
        ensures
            r == self.kind,
    {
        self.kind
    }

    /// The message shown for this error.
    pub fn to_string(&self) -> (r: String)
        ensures
            r@ == self.message@,
    {
        owned(self.message.as_str())
    }
}

/// The failure `f` as a result, with the usage line of command `d`.
pub open spec fn failure_matches(e: Failure, d: DefSpec, f: FailSpec) -> bool {
    e.kind == f.kind && e.detail@ == f.detail && d.usage == f.usage && d.help == f.help
}

/// The exec result of a step matches the abstract one.
pub open spec fn step_matches(d: DefSpec, r: Result<(), Failure>, s: StateSpec, expected: Result<StateSpec, FailSpec>) -> bool {
    match expected {
        Ok(s2) => r is Ok && s == s2,
        Err(f) => r matches Err(e) && failure_matches(e, d, f),
    }
}

fn failure(kind: ErrorKind, detail: String) -> (r: Failure)
    ensures
        r.kind == kind && r.detail@ == detail@,
{
    Failure { kind, detail }
}

fn flag_text(def: &CommandDef, f: usize) -> (r: String)
    requires
        f < def.flags@.len(),
    ensures
        r@ == flag_display(def@, f as int),
{
    let mut r = concat("--", def.flags[f].long);
    r.append(value_name_str(def.flags[f].kind));
    r
}

fn value_name_str(k: FlagKind) -> (r: &'static str)
    ensures
        r@ == value_name(k),
{
    proof {
        reveal_strlit("");
    }
    match k {
        FlagKind::Path => " <PATH>",
        FlagKind::PackageManagerName => " <PACKAGE_MANAGER>",
        FlagKind::ScriptRunnerName => " <SCRIPT_RUNNER>",
        FlagKind::Text => " <NAME>",
        _ => "",
    }
}

fn possible_values_str(k: FlagKind) -> (r: &'static str)
    ensures
        r@ == possible_values(k),
{
    proof {
        reveal_strlit("");
    }
    match k {
        FlagKind::PackageManagerName => "\n  [possible values: npm, pnpm, yarn, yarn-berry, bun]",
        FlagKind::ScriptRunnerName => "\n  [possible values: node]",
        _ => "",
    }
}

fn around(before: &str, s: &str, after: &str) -> (r: String)
    ensures
        r@ == before@ + s@ + after@,
{
    let mut r = owned(before);
    r.append(s);
    r.append(after);
    r
}

/// The error text for a word that is not taken.
pub fn unexpected_text(t: &str) -> (r: String)
    ensures
        r@ == unexpected(t@),
{
    around("unexpected argument '", t, "' found")
}

/// The error text for a word that names no subcommand.
pub fn unrecognized_text(t: &str) -> (r: String)
    ensures
        r@ == unrecognized(t@),
{
    around("unrecognized subcommand '", t, "'")
}

fn repeated_text(a: &str) -> (r: String)
    ensures
        r@ == repeated(a@),
{
    around("the argument '", a, "' cannot be used multiple times")
}

fn conflicting_text(a: &str, b: &str) -> (r: String)
    ensures
        r@ == conflicting(a@, b@),
{
    let mut r = around("the argument '", a, "' cannot be used with '");
    r.append(b);
    r.append("'");
    r
}

fn value_required_text(def: &CommandDef, f: usize) -> (r: String)
    requires
        f < def.flags@.len(),
    ensures
        r@ == value_required(def@, f as int),
{
    let mut r = around("a value is required for '", flag_text(def, f).as_str(), "' but none was supplied");
    r.append(possible_values_str(def.flags[f].kind));
    r
}

fn bad_value_text(def: &CommandDef, f: usize, v: &str) -> (r: String)
    requires
        f < def.flags@.len(),
    ensures
        r@ == bad_value(def@, f as int, v@),
{
    if v.unicode_len() == 0 {
        return value_required_text(def, f);
    }
    let mut r = around("invalid value '", v, "' for '");
    r.append(flag_text(def, f).as_str());
    r.append("'");
    r.append(possible_values_str(def.flags[f].kind));
    r
}

fn bad_shell_text(def: &CommandDef, t: &str) -> (r: String)
    ensures
        r@ == bad_shell(def@, t@),
{
    let mut r = around("invalid value '", t, "' for '<");
    r.append(def.positional_name);
    r.append(">'");
    r.append("\n  [possible values: bash, elvish, fish, powershell, zsh]");
    r
}

fn no_more_text(def: &CommandDef, f: usize, v: &str) -> (r: String)
    requires
        f < def.flags@.len(),
    ensures
        r@ == no_more_values(def@, f as int, v@),
{
    let mut r = around("unexpected value '", v, "' for '");
    r.append(flag_text(def, f).as_str());
    r.append("' found; no more were expected");
    r
}

fn unknown_long_text(def: &CommandDef, name: &str) -> (r: String)
    ensures
        r@ == unknown_long(def@, name@),
{
    let dashed = concat("--", name);
    let mut r = unexpected_text(dashed.as_str());
    if matches!(def.positional, PositionalKind::Shell) {
        r.append("\n\n  tip: to pass '");
        r.append(dashed.as_str());
        r.append("' as a value, use '-- ");
        r.append(dashed.as_str());
        r.append("'");
    } else {
        assert(r@ =~= r@ + Seq::<char>::empty());
    }
    r
}

fn required_text(def: &CommandDef) -> (r: String)
    ensures
        r@ == required_missing(def@),
{
    let mut r = around(
        "the following required arguments were not provided:\n  <",
        def.positional_name,
        ">",
    );
    if matches!(def.positional, PositionalKind::Forward(_)) {
        r.append("...");
    } else {
        assert(r@ =~= r@ + Seq::<char>::empty());
    }
    r
}

/// The first option with long name `name`.
pub fn find_long(def: &CommandDef, name: &str) -> (r: Option<usize>)
    ensures
        match r {
            Some(i) => find_long_from(def@.flags, name@, 0) == Some(i as int) && i < def.flags@.len(),
            None => find_long_from(def@.flags, name@, 0) is None,
        },
{
    let n = def.flags.len();
    let mut i: usize = 0;
    while i < n
        invariant
            n == def.flags@.len(),
            i <= n,
            find_long_from(def@.flags, name@, 0) == find_long_from(def@.flags, name@, i as int),
        decreases n - i,
    {
        if str_eq(def.flags[i].long, name) {
            return Some(i);
        }
        i = i + 1;
    }
    None
}

/// The first option with short name `c`.
pub fn find_short(def: &CommandDef, c: char) -> (r: Option<usize>)
    ensures
        match r {
            Some(i) => find_short_from(def@.flags, c, 0) == Some(i as int) && i < def.flags@.len(),
            None => find_short_from(def@.flags, c, 0) is None,
        },
{
    let n = def.flags.len();
    let mut i: usize = 0;
    while i < n
        invariant
            n == def.flags@.len(),
            i <= n,
            find_short_from(def@.flags, c, 0) == find_short_from(def@.flags, c, i as int),
        decreases n - i,
    {
        if def.flags[i].short == Some(c) {
            return Some(i);
        }
        i = i + 1;
    }
    None
}

fn find_eq(s: &str) -> (r: Option<usize>)
    ensures
        match r {
            Some(i) => find_eq_from(s@, 0) == Some(i as int) && i < s@.len(),
            None => find_eq_from(s@, 0) is None,
        },
{
    let n = s.unicode_len();
    let mut i: usize = 0;
    while i < n
        invariant
            n == s@.len(),
            i <= n,
            find_eq_from(s@, 0) == find_eq_from(s@, i as int),
        decreases n - i,
    {
        if s.get_char(i) == '=' {
            return Some(i);
        }
        i = i + 1;
    }
    None
}

fn all_known(def: &CommandDef, cs: &str) -> (r: bool)
    ensures
        r == all_known_shorts(def@.flags, cs@),
{
    let n = cs.unicode_len();
    let mut i: usize = 0;
    while i < n
        invariant
            n == cs@.len(),
            i <= n,
            forall|j: int| 0 <= j < i ==> #[trigger] find_short_from(def@.flags, cs@[j], 0) is Some,
        decreases n - i,
    {
        if find_short(def, cs.get_char(i)).is_none() {
            return false;
        }
        i = i + 1;
    }
    true
}

fn is_flag_like(t: &str) -> (r: bool)
    ensures
        r == flag_like(t@),
{
    t.unicode_len() >= 2 && t.get_char(0) == '-'
}

fn is_long_like(t: &str) -> (r: bool)
    ensures
        r == long_like(t@),
{
    t.unicode_len() > 2 && t.get_char(0) == '-' && t.get_char(1) == '-'
}

fn is_escape(t: &str) -> (r: bool)
    ensures
        r == (t@ == "--"@),
{
    str_eq(t, "--")
}

fn split_long(t: &str) -> (r: (String, Option<String>))
    requires
        long_like(t@),
    ensures
        r.0@ == long_parts(t@).0,
        match r.1 {
            Some(v) => long_parts(t@).1 == Some(v@),
            None => long_parts(t@).1 is None,
        },
{
    let n = t.unicode_len();
    let body = t.substring_char(2, n);
    assert(body@ =~= t@.subrange(2, t@.len() as int));
    match find_eq(body) {
        Some(i) => {
            let m = body.unicode_len();
            (owned(body.substring_char(0, i)), Some(owned(body.substring_char(i + 1, m))))
        },
        None => (owned(body), None),
    }
}

fn check_value(kind: FlagKind, v: &str) -> (r: bool)
    ensures
        r == valid_value(kind, v@),
{
    match kind {
        FlagKind::Path => v.unicode_len() > 0,
        FlagKind::PackageManagerName => PackageManager::from_name(v).is_some(),
        FlagKind::ScriptRunnerName => ScriptRunner::from_name(v).is_some(),
        _ => true,
    }
}

impl ParserState {
    /// The state before any word of command `def`.
    pub fn new(def: &CommandDef) -> (r: ParserState)
        ensures
            r@ == init_state(def@),
    {
        let n = def.flags.len();
        let mut present: Vec<bool> = Vec::new();
        let mut texts: Vec<String> = Vec::new();
        let mut i: usize = 0;
        while i < n
            invariant
                n == def.flags@.len(),
                i <= n,
                present@ =~= Seq::new(i as nat, |j: int| false),
                texts.deep_view() =~= Seq::new(i as nat, |j: int| Seq::<char>::empty()),
            decreases n - i,
        {
            present.push(false);
            let ghost before = texts.deep_view();
            texts.push(String::new());
            assert(texts.deep_view() =~= before.push(Seq::<char>::empty()));
            i = i + 1;
        }
        let r = ParserState {
            present,
            texts,
            positionals: Vec::new(),
            started: false,
            escaped: false,
            pending: None,
        };
        assert(r.positionals.deep_view() =~= Seq::<Seq<char>>::empty());
        r
    }

    fn assign(&mut self, def: &CommandDef, f: usize, v: String) -> (r: Result<(), Failure>)
        requires
            wf_state(def@, old(self)@),
            f < def.flags@.len(),
        ensures
            step_matches(def@, r, final(self)@, assign(def@, old(self)@, f as int, v@)),
            r is Ok ==> wf_state(def@, final(self)@),
    {
        if self.present[f] {
            return Err(failure(ErrorKind::ArgumentConflict, repeated_text(flag_text(def, f).as_str())));
        }
        if !check_value(def.flags[f].kind, v.as_str()) {
            return Err(failure(ErrorKind::InvalidValue, bad_value_text(def, f, v.as_str())));
        }
        self.present.set(f, true);
        let ghost before = self.texts.deep_view();
        let ghost vv = v@;
        self.texts.set(f, v);
        assert(self.texts.deep_view() =~= before.update(f as int, vv));
        self.pending = None;
        Ok(())
    }

    fn set_switch(&mut self, def: &CommandDef, f: usize) -> (r: Result<(), Failure>)
        requires
            wf_state(def@, old(self)@),
            f < def.flags@.len(),
        ensures
            step_matches(def@, r, final(self)@, set_switch(def@, old(self)@, f as int)),
            r is Ok ==> wf_state(def@, final(self)@),
    {
        if self.present[f] {
            return Err(failure(ErrorKind::ArgumentConflict, repeated_text(flag_text(def, f).as_str())));
        }
        self.present.set(f, true);
        Ok(())
    }

    fn push_positional(&mut self, def: &CommandDef, t: &str) -> (r: Result<(), Failure>)
        requires
            wf_state(def@, old(self)@),
        ensures
            step_matches(def@, r, final(self)@, push_positional(def@, old(self)@, t@)),
            r is Ok ==> wf_state(def@, final(self)@),
    {
        match def.positional {
            PositionalKind::Nothing => Err(failure(ErrorKind::InvalidSubcommand, unrecognized_text(t))),
            PositionalKind::Forward(_) => {
                let ghost before = self.positionals.deep_view();
                self.positionals.push(owned(t));
                assert(self.positionals.deep_view() =~= before.push(t@));
                self.started = true;
                Ok(())
            },
            PositionalKind::Shell => {
                if self.positionals.len() >= 1 {
                    return Err(failure(ErrorKind::UnknownArgument, unexpected_text(t)));
                }
                if Shell::from_name(t).is_none() {
                    return Err(failure(ErrorKind::InvalidValue, bad_shell_text(def, t)));
                }
                let ghost before = self.positionals.deep_view();
                self.positionals.push(owned(t));
                assert(self.positionals.deep_view() =~= before.push(t@));
                Ok(())
            },
        }
    }

    fn shorts(&mut self, def: &CommandDef, cs: &str) -> (r: Result<(), Failure>)
        requires
            wf_state(def@, old(self)@),
        ensures
            step_matches(def@, r, final(self)@, shorts(def@, old(self)@, cs@, 0)),
            r is Ok ==> wf_state(def@, final(self)@),
    {
        let n = cs.unicode_len();
        let mut i: usize = 0;
        while i < n
            invariant
                n == cs@.len(),
                i <= n,
                wf_state(def@, self@),
                shorts(def@, old(self)@, cs@, 0) == shorts(def@, self@, cs@, i as int),
            decreases n - i,
        {
            let c = cs.get_char(i);
            match find_short(def, c) {
                None => {
                    let mut d = owned("-");
                    d.append(cs.substring_char(i, i + 1));
                    assert(cs@.subrange(i as int, i + 1) =~= seq![c]);
                    assert(d@ =~= seq!['-', c]) by {
                        reveal_strlit("-");
                    }
                    return Err(failure(ErrorKind::UnknownArgument, unexpected_text(d.as_str())));
                },
                Some(f) => {
                    let kind = def.flags[f].kind;
                    if matches!(kind, FlagKind::SetTrue | FlagKind::SetFalse) {
                        let r = self.set_switch(def, f);
                        if r.is_err() {
                            return r;
                        }
                    } else {
                        let rest = cs.substring_char(i + 1, n);
                        if rest.unicode_len() == 0 {
                            self.pending = Some(f);
                            return Ok(());
                        }
                        let v = if rest.get_char(0) == '=' {
                            let m = rest.unicode_len();
                            owned(rest.substring_char(1, m))
                        } else {
                            owned(rest)
                        };
                        proof {
                            if rest@[0] == '=' {
                                assert(v@ =~= rest@.drop_first());
                            }
                        }
                        return self.assign(def, f, v);
                    }
                },
            }
            i = i + 1;
        }
        Ok(())
    }

    fn long_step(&mut self, def: &CommandDef, t: &str) -> (r: Result<(), Failure>)
        requires
            wf_state(def@, old(self)@),
            long_like(t@),
        ensures
            step_matches(def@, r, final(self)@, long_step(def@, old(self)@, t@)),
            r is Ok ==> wf_state(def@, final(self)@),
    {
        let (name, value) = split_long(t);
        match find_long(def, name.as_str()) {
            Some(f) => {
                let kind = def.flags[f].kind;
                if matches!(kind, FlagKind::SetTrue | FlagKind::SetFalse) {
                    match value {
                        Some(v) => Err(failure(ErrorKind::TooManyValues, no_more_text(def, f, v.as_str()))),
                        None => self.set_switch(def, f),
                    }
                } else {
                    match value {
                        Some(v) => self.assign(def, f, v),
                        None => {
                            self.pending = Some(f);
                            Ok(())
                        },
                    }
                }
            },
            None => {
                if matches!(def.positional, PositionalKind::Forward(_)) {
                    self.push_positional(def, t)
                } else {
                    Err(failure(ErrorKind::UnknownArgument, unknown_long_text(def, name.as_str())))
                }
            },
        }
    }

    /// Parses one word `t` of command `def`.
    pub fn step(&mut self, def: &CommandDef, t: &str) -> (r: Result<(), Failure>)
        requires
            wf_state(def@, old(self)@),
        ensures
            step_matches(def@, r, final(self)@, step(def@, old(self)@, t@)),
            r is Ok ==> wf_state(def@, final(self)@),
    {
        let forwards = matches!(def.positional, PositionalKind::Forward(_));
        match self.pending {
            Some(f) => {
                if is_escape(t) {
                    Err(failure(ErrorKind::InvalidValue, value_required_text(def, f)))
                } else if is_flag_like(t) {
                    let known = if is_long_like(t) {
                        let (name, _) = split_long(t);
                        find_long(def, name.as_str()).is_some()
                    } else {
                        let n = t.unicode_len();
                        all_known(def, t.substring_char(1, n))
                    };
                    proof {
                        if !long_like(t@) {
                            assert(t@.subrange(1, t@.len() as int) =~= t@.drop_first());
                        }
                    }
                    if known {
                        Err(failure(ErrorKind::InvalidValue, value_required_text(def, f)))
                    } else if forwards {
                        self.assign(def, f, owned(t))
                    } else {
                        Err(failure(ErrorKind::UnknownArgument, unexpected_text(t)))
                    }
                } else {
                    self.assign(def, f, owned(t))
                }
            },
            None => {
                if self.escaped || self.started {
                    self.push_positional(def, t)
                } else if is_escape(t) {
                    self.escaped = true;
                    Ok(())
                } else if is_long_like(t) {
                    self.long_step(def, t)
                } else if is_flag_like(t) {
                    let n = t.unicode_len();
                    let cs = t.substring_char(1, n);
                    assert(cs@ =~= t@.drop_first());
                    if forwards && !all_known(def, cs) {
                        self.push_positional(def, t)
                    } else {
                        self.shorts(def, cs)
                    }
                } else {
                    self.push_positional(def, t)
                }
            },
        }
    }

    /// The checks after the last word.
    pub fn finish(&self, def: &CommandDef) -> (r: Result<(), Failure>)
        requires
            wf_state(def@, self@),
            wf_def(def@),
        ensures
            step_matches(def@, r, self@, finish(def@, self@)),
    {
        if let Some(f) = self.pending {
            return Err(failure(ErrorKind::InvalidValue, value_required_text(def, f)));
        }
        let n = def.conflicts.len();
        let mut i: usize = 0;
        while i < n
            invariant
                n == def.conflicts@.len(),
                i <= n,
                wf_state(def@, self@),
                wf_def(def@),
                self.pending is None,
                conflict_from(def@, self@, 0) == conflict_from(def@, self@, i as int),
            decreases n - i,
        {
            let (a, b) = def.conflicts[i];
            assert(def@.conflicts[i as int] == (a, b));
            if self.present[a] && self.present[b] {
                assert(conflict_from(def@, self@, i as int) == Some(i as int));
                return Err(failure(
                    ErrorKind::ArgumentConflict,
                    conflicting_text(flag_text(def, a).as_str(), flag_text(def, b).as_str()),
                ));
            }
            i = i + 1;
        }
        let required = match def.positional {
            PositionalKind::Forward(req) => req,
            PositionalKind::Shell => true,
            PositionalKind::Nothing => false,
        };
        if required && self.positionals.len() == 0 {
            return Err(failure(ErrorKind::MissingRequiredArgument, required_text(def)));
        }
        Ok(())
    }
}

/// Parses `toks[start..]` with command `def` and checks the result.
pub fn parse_words(def: &CommandDef, toks: &Vec<String>, start: usize) -> (r: Result<ParserState, Failure>)
    requires
        wf_def(def@),
        start <= toks@.len(),
    ensures
        match parse_all(def@, toks.deep_view().skip(start as int)) {
            Ok(s) => r matches Ok(p) && p@ == s && wf_state(def@, p@),
            Err(f) => r matches Err(e) && failure_matches(e, def@, f),
        },
{
    let mut state = ParserState::new(def);
    let n = toks.len();
    let ghost all = toks.deep_view().skip(start as int);
    let mut i: usize = start;
    while i < n
        invariant
            n == toks@.len(),
            start <= i <= n,
            all == toks.deep_view().skip(start as int),
            wf_def(def@),
            wf_state(def@, state@),
            run(def@, init_state(def@), all) == run(def@, state@, toks.deep_view().skip(i as int)),
        decreases n - i,
    {
        let ghost rest = toks.deep_view().skip(i as int);
        assert(rest[0] == toks[i as int]@);
        assert(rest.drop_first() =~= toks.deep_view().skip(i + 1));
        let r = state.step(def, toks[i].as_str());
        if let Err(e) = r {
            return Err(e);
        }
        i = i + 1;
    }
    assert(toks.deep_view().skip(n as int) =~= Seq::<Seq<char>>::empty());
    let r = state.finish(def);
    match r {
        Ok(()) => Ok(state),
        Err(e) => Err(e),
    }
}

/// The error for a failure of command `def`, with its message.
pub fn to_parse_error(def: &CommandDef, e: Failure) -> (r: ParseError)
    ensures
        r.kind == e.kind,
        r.message@ == fail_message(
            FailSpec { kind: e.kind, detail: e.detail@, usage: def@.usage, help: def@.help },
        ),
{
    let mut m = owned("error: ");
    m.append(e.detail.as_str());
    if !matches!(e.kind, ErrorKind::InvalidValue | ErrorKind::DisplayHelp) {
        m.append("\n\nUsage: ");
        m.append(def.usage);
    } else {
        assert(m@ =~= m@ + Seq::<char>::empty());
    }
    m.append(def.help);
    ParseError { kind: e.kind, message: m }
}

} // verus!
