//! What holds of the tool as a whole: across its functions and for all inputs.
use vstd::prelude::*;

use crate::cli::main::plan::{plan_spec, ActionSpec};
use crate::cli::main::unpm::resolves_globally;
use crate::cli::sub::complete::unpx_name;
use crate::cli::sub::dlx::dlx_spec;
use crate::cli::sub::add::add_flags;
use crate::cli::sub::install::{
    install_no_optional_flag, install_no_peer_flag, install_prod_flag, install_spec,
};
use crate::cli::sub::list::{
    list_dev_flag, list_no_optional_flag, list_no_peer_flag, list_prod_flag, list_spec,
};
use crate::cli::sub::update::{
    update_dev_flag, update_no_optional_flag, update_no_peer_flag, update_prod_flag, update_spec,
};
use crate::cli::defs::{
    add_def_spec, complete_def_spec, dlx_def_spec, exec_def_spec, install_def_spec, list_def_spec,
    pm_def_spec, remove_def_spec, run_def_spec, unpx_def_spec, update_def_spec,
};
use crate::cli::parser::{forwards, init_state, run, step, DefSpec, StateSpec};
use crate::cli::sub::flag_if;
use crate::cli::sub::{DlxArgs, InstallArgs, ListArgs, Subcommands, UpdateArgs};
use crate::context::{choose_config, ConfigCandidate, ConfigFile, ContextSpec};
use crate::detect::{
    default_strategies, detect_dirs, detect_from, detect_spec, determine_spec, first_present,
    lockfiles, major_version, strategy_finds, DetectionStrategy, DirSpec,
};
use crate::enums::{pm_from_name, PackageManager, PackageManagerOperation};
use crate::resolve::{command_outcome, resolved_pm, Outcome};

verus! {

/// The arguments a subcommand forwards to the package manager.
pub open spec fn forwarded(c: Subcommands) -> Seq<Seq<char>> {
    match c {
        Subcommands::Pm(a) => a.forward_args.deep_view(),
        Subcommands::Install(a) => a.forward_args.deep_view(),
        Subcommands::Add(a) => a.forward_args.deep_view(),
        Subcommands::Remove(a) => a.forward_args.deep_view(),
        Subcommands::List(a) => a.forward_args.deep_view(),
        Subcommands::Update(a) => a.forward_args.deep_view(),
        Subcommands::Dlx(a) => a.forward_args.deep_view(),
        Subcommands::Exec(a) => a.forward_args.deep_view(),
        Subcommands::Run(a) => a.forward_args.deep_view(),
        Subcommands::Complete(_) => Seq::empty(),
    }
}

/// A dry run plans the very command that a real run would run: whether `--dry-run` was
/// given changes nothing in what is planned.
pub proof fn law_dry_run_plans_the_same_command(
    c: Option<Subcommands>,
    with_dry_run: ContextSpec,
    without: ContextSpec,
    pm: Option<PackageManager>,
    argv0: Option<Seq<char>>,
)
    requires
        with_dry_run == (ContextSpec { dry_run: with_dry_run.dry_run, ..without }),
    ensures
        plan_spec(c, with_dry_run, pm, argv0) == plan_spec(c, without, pm, argv0),
{
}

/// `unpx` is `unpm dlx`: with the same arguments and package manager, `unpm dlx` plans
/// the command that `unpx` plans (the one `Unpx::plan` states).
pub proof fn law_unpx_is_dlx(
    a: DlxArgs,
    ctx: ContextSpec,
    pm: PackageManager,
    argv0: Option<Seq<char>>,
)
    ensures
        plan_spec(Some(Subcommands::Dlx(a)), ctx, Some(pm), argv0) == ActionSpec::Planned(
            dlx_spec(pm, a),
        ),
{
}

/// `tail` ends `head + tail`.
proof fn lemma_tail_is_suffix(head: Seq<Seq<char>>, tail: Seq<Seq<char>>)
    ensures
        tail.is_suffix_of(head + tail),
{
    let whole = head + tail;
    assert(tail =~= whole.subrange(whole.len() - tail.len(), whole.len() as int));
}

/// A planned command for package-manager operation arguments `flags + tail` ends with
/// `tail`.
proof fn lemma_command_ends_with(
    pm: PackageManager,
    op: PackageManagerOperation,
    flags: Seq<Seq<char>>,
    tail: Seq<Seq<char>>,
)
    requires
        command_outcome(pm, op, flags + tail) is Command,
    ensures
        tail.is_suffix_of(command_outcome(pm, op, flags + tail)->Command_0.extra_args),
{
    lemma_tail_is_suffix(flags, tail);
}

/// What the user forwards reaches the package manager unchanged: in every command
/// planned for a subcommand, its forwarded arguments are the last ones given, after
/// the flags the subcommand adds.
#[verifier::spinoff_prover]
pub proof fn law_forwarded_arguments_come_last(
    c: Subcommands,
    ctx: ContextSpec,
    pm: Option<PackageManager>,
    argv0: Option<Seq<char>>,
)
    requires
        plan_spec(Some(c), ctx, pm, argv0) matches ActionSpec::Planned(Outcome::Command(cmd)),
    ensures
        forwarded(c).is_suffix_of(plan_spec(Some(c), ctx, pm, argv0)->Planned_0->Command_0.extra_args),
{
    let f = forwarded(c);
    match c {
        Subcommands::Complete(_) => {},
        Subcommands::Run(a) => {
            let cmd = plan_spec(Some(c), ctx, pm, argv0)->Planned_0->Command_0;
            assert(cmd.extra_args == f);
            lemma_tail_is_suffix(Seq::empty(), f);
            assert(Seq::<Seq<char>>::empty() + f =~= f);
        },
        Subcommands::Pm(a) => {
            assert(Seq::<Seq<char>>::empty() + f =~= f);
            lemma_command_ends_with(pm->0, PackageManagerOperation::Pm, Seq::empty(), f);
        },
        Subcommands::Remove(a) => {
            assert(Seq::<Seq<char>>::empty() + f =~= f);
            let op = if a.global {
                PackageManagerOperation::GlobalRemove
            } else {
                PackageManagerOperation::Remove
            };
            lemma_command_ends_with(pm->0, op, Seq::empty(), f);
        },
        Subcommands::Dlx(a) => {
            assert(Seq::<Seq<char>>::empty() + f =~= f);
            lemma_command_ends_with(pm->0, PackageManagerOperation::Dlx, Seq::empty(), f);
        },
        Subcommands::Exec(a) => {
            assert(Seq::<Seq<char>>::empty() + f =~= f);
            lemma_command_ends_with(pm->0, PackageManagerOperation::Exec, Seq::empty(), f);
        },
        Subcommands::Add(a) => {
            let p = pm->0;
            let op = if a.global {
                PackageManagerOperation::GlobalAdd
            } else {
                PackageManagerOperation::Add
            };
            lemma_command_ends_with(p, op, add_flags(p, a), f);
        },
        Subcommands::Install(a) => {
            lemma_install_forwards(pm->0, a);
        },
        Subcommands::List(a) => {
            lemma_list_forwards(pm->0, a);
        },
        Subcommands::Update(a) => {
            lemma_update_forwards(pm->0, a);
        },
    }
}

proof fn lemma_install_forwards(p: PackageManager, a: InstallArgs)
    requires
        install_spec(p, a) is Command,
    ensures
        a.forward_args.deep_view().is_suffix_of(install_spec(p, a)->Command_0.extra_args),
{
    let op = if a.frozen {
        PackageManagerOperation::FrozenInstall
    } else {
        PackageManagerOperation::Install
    };
    let flags = flag_if(a.prod, install_prod_flag(p)->0) + flag_if(
        !a.optional,
        install_no_optional_flag(p)->0,
    ) + flag_if(!a.peer, install_no_peer_flag(p)->0);
    lemma_command_ends_with(p, op, flags, a.forward_args.deep_view());
}

proof fn lemma_list_forwards(p: PackageManager, a: ListArgs)
    requires
        list_spec(p, a) is Command,
    ensures
        a.forward_args.deep_view().is_suffix_of(list_spec(p, a)->Command_0.extra_args),
{
    let op = if a.global {
        PackageManagerOperation::GlobalList
    } else {
        PackageManagerOperation::List
    };
    let flags = flag_if(a.prod, list_prod_flag(p)->0) + flag_if(
        !a.prod && a.dev,
        list_dev_flag(p)->0,
    ) + flag_if(!a.optional, list_no_optional_flag(p)->0) + flag_if(
        !a.peer,
        list_no_peer_flag(p)->0,
    );
    lemma_command_ends_with(p, op, flags, a.forward_args.deep_view());
}

proof fn lemma_update_forwards(p: PackageManager, a: UpdateArgs)
    requires
        update_spec(p, a) is Command,
    ensures
        a.forward_args.deep_view().is_suffix_of(update_spec(p, a)->Command_0.extra_args),
{
    let op = match (a.global, a.interactive) {
        (true, true) => PackageManagerOperation::GlobalInteractiveUpdate,
        (true, false) => PackageManagerOperation::GlobalUpdate,
        (false, true) => PackageManagerOperation::InteractiveUpdate,
        (false, false) => PackageManagerOperation::Update,
    };
    let flags = flag_if(a.prod, update_prod_flag(p)->0) + flag_if(
        !a.prod && a.dev,
        update_dev_flag(p)->0,
    ) + flag_if(!a.optional, update_no_optional_flag(p)->0) + flag_if(
        !a.peer,
        update_no_peer_flag(p)->0,
    );
    lemma_command_ends_with(p, op, flags, a.forward_args.deep_view());
}

/// `dlx` uses the global package manager unless `-G, --no-global` is given: without
/// `--pm`, the context it is resolved in gives `pm.global`, or else what is detected
/// (then `pm.local`) as for any local command.
pub proof fn law_dlx_uses_global_pm_unless_no_global(
    a: DlxArgs,
    current: bool,
    config_local: Option<PackageManager>,
    config_global: Option<PackageManager>,
    detected: Option<PackageManager>,
)
    ensures
        resolved_pm(
            None,
            resolves_globally(Some(Subcommands::Dlx(a)), current),
            config_local,
            config_global,
            detected,
        ) == if a.global {
            config_global
        } else {
            match detected {
                Some(d) => Some(d),
                None => config_local,
            }
        },
{
}

/// `--pm` decides the package manager, for local and global commands alike.
pub proof fn law_cli_pm_decides(
    pm: PackageManager,
    global: bool,
    config_local: Option<PackageManager>,
    config_global: Option<PackageManager>,
    detected: Option<PackageManager>,
)
    ensures
        resolved_pm(Some(pm), global, config_local, config_global, detected) == Some(pm),
{
}

/// A global command never goes by what is detected in the project: without `--pm` it
/// uses `pm.global`.
pub proof fn law_global_commands_ignore_the_project(
    config_local: Option<PackageManager>,
    config_global: Option<PackageManager>,
    detected: Option<PackageManager>,
)
    ensures
        resolved_pm(None, true, config_local, config_global, detected) == config_global,
{
}

/// For a local command without `--pm`, what is detected in the project comes before
/// `pm.local`, which is used only where nothing is detected.
pub proof fn law_detection_comes_before_local_config(
    config_local: Option<PackageManager>,
    config_global: Option<PackageManager>,
    detected: Option<PackageManager>,
)
    ensures
        resolved_pm(None, false, config_local, config_global, detected) == match detected {
            Some(d) => Some(d),
            None => config_local,
        },
{
}

/// The `--config` file decides the config: the environment variable and the default
/// path are then not looked at.
pub proof fn law_config_argument_wins(
    arg: ConfigCandidate,
    env_a: Option<ConfigCandidate>,
    default_a: Option<ConfigCandidate>,
    env_b: Option<ConfigCandidate>,
    default_b: Option<ConfigCandidate>,
)
    ensures
        choose_config(Some(arg), env_a, default_a) == choose_config(Some(arg), env_b, default_b),
{
}

/// Without `--config`, a file named by the environment variable decides the config
/// unless it holds none; the default path is then not looked at.
pub proof fn law_environment_config_before_default(
    env: ConfigCandidate,
    default_a: Option<ConfigCandidate>,
    default_b: Option<ConfigCandidate>,
)
    requires
        !(env.file matches ConfigFile::Loaded(None)),
    ensures
        choose_config(None, Some(env), default_a) == choose_config(None, Some(env), default_b),
{
}

/// The nearest directory where a package manager is detected decides: directories
/// further up are not looked at.
pub proof fn law_nearest_directory_decides(
    dirs: Seq<DirSpec>,
    further: Seq<DirSpec>,
    strategies: Seq<DetectionStrategy>,
)
    requires
        detect_dirs(dirs, strategies) is Some,
    ensures
        detect_dirs(dirs + further, strategies) == detect_dirs(dirs, strategies),
    decreases dirs.len(),
{
    assert((dirs + further)[0] == dirs[0]);
    if detect_spec(dirs[0], strategies) is None {
        assert((dirs + further).drop_first() =~= dirs.drop_first() + further);
        law_nearest_directory_decides(dirs.drop_first(), further, strategies);
    }
}

/// Tried from position `k` on, the strategies answer with what the one at position `i`
/// finds, where none from `k` to `i` found anything before it.
proof fn lemma_detect_from_reaches(d: DirSpec, all: Seq<DetectionStrategy>, k: int, i: int)
    requires
        0 <= k <= i < all.len(),
        strategy_finds(d, all, all[i]) is Some,
        forall|j: int| k <= j < i ==> #[trigger] strategy_finds(d, all, all[j]) is None,
    ensures
        detect_from(d, all, k) == strategy_finds(d, all, all[i]),
    decreases i - k,
{
    if k < i {
        assert(strategy_finds(d, all, all[k]) is None);
        lemma_detect_from_reaches(d, all, k + 1, i);
    }
}

/// Tried from position `k` on, strategies of which none finds anything detect nothing.
proof fn lemma_detect_from_nothing(d: DirSpec, all: Seq<DetectionStrategy>, k: int)
    requires
        0 <= k <= all.len(),
        forall|j: int| k <= j < all.len() ==> #[trigger] strategy_finds(d, all, all[j]) is None,
    ensures
        detect_from(d, all, k) is None,
    decreases all.len() - k,
{
    if k < all.len() {
        assert(strategy_finds(d, all, all[k]) is None);
        lemma_detect_from_nothing(d, all, k + 1);
    }
}

/// The first strategy in the list that finds a package manager decides: detection
/// answers with what it finds, whatever the strategies after it would find.
pub proof fn law_first_finding_strategy_decides(
    d: DirSpec,
    all: Seq<DetectionStrategy>,
    i: int,
)
    requires
        0 <= i < all.len(),
        strategy_finds(d, all, all[i]) is Some,
        forall|j: int| 0 <= j < i ==> #[trigger] strategy_finds(d, all, all[j]) is None,
    ensures
        detect_spec(d, all) == strategy_finds(d, all, all[i]),
{
    lemma_detect_from_reaches(d, all, 0, i);
}

/// Where no strategy in the list finds a package manager, nothing is detected.
pub proof fn law_nothing_detected_when_no_strategy_finds(d: DirSpec, all: Seq<DetectionStrategy>)
    requires
        forall|j: int| 0 <= j < all.len() ==> #[trigger] strategy_finds(d, all, all[j]) is None,
    ensures
        detect_spec(d, all) is None,
{
    lemma_detect_from_nothing(d, all, 0);
}

/// With the default strategies, a lockfile other than `yarn.lock` decides: the fields of
/// `package.json` are not looked at.
pub proof fn law_lockfile_decides_by_default(d: DirSpec)
    requires
        first_present(d, lockfiles()) matches Some(pm) && pm != PackageManager::Yarn,
    ensures
        detect_spec(d, default_strategies()) == first_present(d, lockfiles()),
{
}

/// `yarn` names Yarn Berry exactly where its major version is above 1, and Yarn
/// Classic otherwise.
pub proof fn law_yarn_major_version(version: Seq<char>)
    ensures
        determine_spec("yarn"@, version) == if major_version(version) matches Some(m) && m > 1 {
            Some(PackageManager::YarnBerry)
        } else {
            Some(PackageManager::Yarn)
        },
{
    reveal_strlit("yarn");
    reveal_strlit("npm");
    reveal_strlit("pnpm");
    assert("yarn"@.len() != "npm"@.len());
    assert("yarn"@[0] != "pnpm"@[0]);
    assert(pm_from_name("yarn"@) == Some(PackageManager::Yarn));
}

/// A renamed `unpm` names its `unpx` alike: where `--unpx` is not given, the `unpm`
/// name with its ending `unpm` replaced by `unpx` is used.
pub proof fn law_unpx_name_follows_unpm_name(prefix: Seq<char>)
    ensures
        unpx_name(None, prefix + "unpm"@) == prefix + "unpx"@,
{
    reveal_strlit("unpm");
    reveal_strlit("unpx");
    let n = prefix + "unpm"@;
    assert(n.subrange(n.len() - 4, n.len() as int) =~= "unpm"@);
    assert(n.subrange(0, n.len() - 4) =~= prefix);
}

/// Every subcommand but `complete`, and `unpx`, forwards the words it does not know.
pub proof fn law_subcommands_forward()
    ensures
        forwards(pm_def_spec()),
        forwards(install_def_spec()),
        forwards(add_def_spec()),
        forwards(remove_def_spec()),
        forwards(list_def_spec()),
        forwards(update_def_spec()),
        forwards(dlx_def_spec()),
        forwards(exec_def_spec()),
        forwards(run_def_spec()),
        forwards(unpx_def_spec()),
        !forwards(complete_def_spec()),
{
}

/// Parsing `a + b` is parsing `a`, then `b` from where `a` left off.
proof fn lemma_run_concat(d: DefSpec, s: StateSpec, a: Seq<Seq<char>>, b: Seq<Seq<char>>)
    ensures
        run(d, s, a + b) == match run(d, s, a) {
            Ok(s1) => run(d, s1, b),
            Err(e) => Err(e),
        },
    decreases a.len(),
{
    if a.len() > 0 {
        assert((a + b)[0] == a[0]);
        assert((a + b).drop_first() =~= a.drop_first() + b);
        match step(d, s, a[0]) {
            Ok(s2) => lemma_run_concat(d, s2, a.drop_first(), b),
            Err(_) => {},
        }
    } else {
        assert(a + b =~= b);
    }
}

/// Once forwarding has started or `--` was seen, every word is forwarded as it is.
proof fn lemma_forward_rest(d: DefSpec, s: StateSpec, toks: Seq<Seq<char>>)
    requires
        forwards(d),
        s.pending is None,
        s.escaped || s.started,
    ensures
        run(d, s, toks) == Ok::<StateSpec, crate::cli::parser::FailSpec>(
            StateSpec { positionals: s.positionals + toks, started: s.started || toks.len() > 0, ..s },
        ),
    decreases toks.len(),
{
    if toks.len() > 0 {
        let s2 = StateSpec { positionals: s.positionals.push(toks[0]), started: true, ..s };
        assert(step(d, s, toks[0]) == Ok::<StateSpec, crate::cli::parser::FailSpec>(s2));
        lemma_forward_rest(d, s2, toks.drop_first());
        assert(s2.positionals + toks.drop_first() =~= s.positionals + toks);
    } else {
        assert(s.positionals + toks =~= s.positionals);
    }
}

/// `--` ends the options of a command that forwards: every word after it is forwarded
/// unchanged and in order, even one that looks like an option of the command, and the
/// options given before it keep their values.
pub proof fn law_words_after_double_dash_are_forwarded(
    d: DefSpec,
    before: Seq<Seq<char>>,
    after: Seq<Seq<char>>,
)
    requires
        forwards(d),
        run(d, init_state(d), before) matches Ok(s) && s.pending is None && !s.escaped
            && !s.started,
    ensures
        run(d, init_state(d), before + seq!["--"@] + after) == Ok::<
            StateSpec,
            crate::cli::parser::FailSpec,
        >(
            StateSpec {
                positionals: run(d, init_state(d), before)->Ok_0.positionals + after,
                escaped: true,
                started: after.len() > 0,
                ..run(d, init_state(d), before)->Ok_0
            },
        ),
{
    let s = run(d, init_state(d), before)->Ok_0;
    lemma_run_concat(d, init_state(d), before, seq!["--"@] + after);
    assert(before + seq!["--"@] + after =~= before + (seq!["--"@] + after));
    let escaped = StateSpec { escaped: true, ..s };
    assert(step(d, s, "--"@) == Ok::<StateSpec, crate::cli::parser::FailSpec>(escaped));
    assert((seq!["--"@] + after)[0] == "--"@);
    assert((seq!["--"@] + after).drop_first() =~= after);
    lemma_forward_rest(d, escaped, after);
}

/// A command that forwards forwards everything after its first forwarded word: once
/// one word is forwarded, all later words are forwarded unchanged and in order.
pub proof fn law_forwarding_runs_to_the_end(
    d: DefSpec,
    before: Seq<Seq<char>>,
    after: Seq<Seq<char>>,
)
    requires
        forwards(d),
        run(d, init_state(d), before) matches Ok(s) && s.pending is None && s.started,
    ensures
        run(d, init_state(d), before + after) == Ok::<StateSpec, crate::cli::parser::FailSpec>(
            StateSpec {
                positionals: run(d, init_state(d), before)->Ok_0.positionals + after,
                ..run(d, init_state(d), before)->Ok_0
            },
        ),
{
    lemma_run_concat(d, init_state(d), before, after);
    lemma_forward_rest(d, run(d, init_state(d), before)->Ok_0, after);
}

} // verus!
