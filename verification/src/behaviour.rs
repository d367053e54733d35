//! What the commands do, stated over their inputs and results: how a yarn lockfile is
//! settled, what the switches of a command line mean, and what reaches each program.
use vstd::prelude::*;

use crate::detect::{
    by_dev_engines_pm, by_field_pm, detect_spec, first_present, lockfiles, DetectionStrategy,
    DirSpec,
};
use crate::cli::defs::{
    add_def_spec, dlx_def_spec, install_def_spec, list_def_spec, pm_def_spec, remove_def_spec,
    update_def_spec,
};
use crate::cli::main::unpm::{sub_def_spec, unpm_matches, Unpm};
use crate::cli::parser::{DefSpec, FlagKind, StateSpec};
use crate::cli::sub::Subcommands;
use crate::adaptors::{combined, pm_table};
use crate::cli::sub::add::{add_spec, AddArgs};
use crate::cli::sub::install::{install_spec, InstallArgs};
use crate::cli::sub::run::{run_spec, RunArgs};
use crate::enums::{PackageManager, PackageManagerOperation, ScriptRunner};
use crate::resolve::Outcome;

verus! {

/// What a `package.json` strategy finds on its own: the package manager the
/// `packageManager` field names, or the one `devEngines.packageManager` names. The
/// other strategies do not read `package.json` and find nothing here.
pub open spec fn package_json_finds(d: DirSpec, s: DetectionStrategy) -> Option<PackageManager> {
    match s {
        DetectionStrategy::PackageManagerField => by_field_pm(d),
        DetectionStrategy::DevEnginesField => by_dev_engines_pm(d),
        _ => None,
    }
}

/// The `package.json` strategies among `ss` settle a `yarn.lock` with what the one at
/// position `j` finds, when none of those before it finds anything.
proof fn lemma_yarn_lock_from(d: DirSpec, ss: Seq<DetectionStrategy>, j: int)
    requires
        0 <= j < ss.len(),
        package_json_finds(d, ss[j]) is Some,
        forall|k: int| 0 <= k < j ==> #[trigger] package_json_finds(d, ss[k]) is None,
    ensures
        crate::detect::fields_spec(d, ss) == package_json_finds(d, ss[j]),
    decreases j,
{
    if j > 0 {
        let t = ss.drop_first();
        assert(package_json_finds(d, ss[0]) is None);
        assert forall|k: int| 0 <= k < j - 1 implies #[trigger] package_json_finds(d, t[k]) is None by {
            assert(t[k] == ss[k + 1]);
            assert(package_json_finds(d, ss[k + 1]) is None);
        }
        lemma_yarn_lock_from(d, t, j - 1);
    }
}

/// When no `package.json` strategy among `ss` finds anything, they settle nothing.
proof fn lemma_yarn_lock_unsettled(d: DirSpec, ss: Seq<DetectionStrategy>)
    requires
        forall|k: int| 0 <= k < ss.len() ==> #[trigger] package_json_finds(d, ss[k]) is None,
    ensures
        crate::detect::fields_spec(d, ss) is None,
    decreases ss.len(),
{
    if ss.len() > 0 {
        let t = ss.drop_first();
        assert(package_json_finds(d, ss[0]) is None);
        assert forall|k: int| 0 <= k < t.len() implies #[trigger] package_json_finds(d, t[k]) is None by {
            assert(t[k] == ss[k + 1]);
            assert(package_json_finds(d, ss[k + 1]) is None);
        }
        lemma_yarn_lock_unsettled(d, t);
    }
}

/// A `yarn.lock` does not tell Yarn Berry from Yarn Classic: where it is the first
/// lockfile and the lockfile strategy comes first, the `devEngines` and `packageManager`
/// strategies among those given decide, the first of them that finds a package manager
/// in the order given.
pub proof fn law_yarn_lock_is_settled_by_package_json(
    d: DirSpec,
    all: Seq<DetectionStrategy>,
    j: int,
)
    requires
        all.len() > 0,
        all[0] == DetectionStrategy::Lockfile,
        first_present(d, lockfiles()) == Some(PackageManager::Yarn),
        0 <= j < all.len(),
        package_json_finds(d, all[j]) is Some,
        forall|k: int| 0 <= k < j ==> #[trigger] package_json_finds(d, all[k]) is None,
    ensures
        detect_spec(d, all) == package_json_finds(d, all[j]),
{
    lemma_yarn_lock_from(d, all, j);
}

/// Where the lockfile strategy comes first and `yarn.lock` is the first lockfile, but no
/// `package.json` strategy given finds anything, Yarn Classic is assumed.
pub proof fn law_yarn_lock_alone_is_yarn_classic(d: DirSpec, all: Seq<DetectionStrategy>)
    requires
        all.len() > 0,
        all[0] == DetectionStrategy::Lockfile,
        first_present(d, lockfiles()) == Some(PackageManager::Yarn),
        forall|k: int| 0 <= k < all.len() ==> #[trigger] package_json_finds(d, all[k]) is None,
    ensures
        detect_spec(d, all) == Some(PackageManager::Yarn),
{
    lemma_yarn_lock_unsettled(d, all);
}

/// With the default strategies, a `yarn.lock` next to a `package.json` whose
/// `devEngines.packageManager` names Yarn Berry is Yarn Berry, whatever the
/// `packageManager` field says.
pub proof fn law_dev_engines_settle_yarn_lock_by_default(d: DirSpec)
    requires
        first_present(d, lockfiles()) == Some(PackageManager::Yarn),
        by_dev_engines_pm(d) == Some(PackageManager::YarnBerry),
    ensures
        detect_spec(d, crate::detect::default_strategies()) == Some(PackageManager::YarnBerry),
{
    let all = crate::detect::default_strategies();
    assert(package_json_finds(d, all[1]) == Some(PackageManager::YarnBerry));
    law_yarn_lock_is_settled_by_package_json(d, all, 1);
}

/// Whether `d` has at position `i` the switch `--name`, of kind `kind`.
pub open spec fn switch_at(d: DefSpec, i: int, name: Seq<char>, kind: FlagKind) -> bool {
    0 <= i < d.flags.len() && d.flags[i].long == name && d.flags[i].kind == kind
}

/// Whether the setting that the switch of `d` at position `i` controls is on, given what
/// was parsed: a `SetTrue` switch turns it on when given, a `SetFalse` switch (one
/// named `--no-...`) turns it off when given and leaves it on otherwise.
pub open spec fn setting_on(d: DefSpec, s: StateSpec, i: int) -> bool {
    match d.flags[i].kind {
        FlagKind::SetFalse => !s.present[i],
        _ => s.present[i],
    }
}

/// Each setting of a parsed subcommand is what its switch, as the subcommand defines
/// it, makes it: `--prod`, `--dev`, `--global`, `--frozen` and the like turn theirs on
/// when given; `--no-optional`, `--no-peer` and `--no-global` turn theirs off when
/// given, so that optional and peer dependencies are included, and `dlx` is global,
/// unless they are.
pub proof fn law_switches_follow_their_definitions(
    u: Unpm,
    p: (StateSpec, Option<(int, StateSpec)>),
)
    requires
        unpm_matches(u, p),
    ensures
        match (u.command, p.1) {
            (Some(Subcommands::Pm(a)), Some((k, s))) => {
                let d = sub_def_spec(k);
                &&& d == pm_def_spec()
                &&& switch_at(d, 0, "global"@, FlagKind::SetTrue) && a.global == setting_on(d, s, 0)
            },
            (Some(Subcommands::Install(a)), Some((k, s))) => {
                let d = sub_def_spec(k);
                &&& d == install_def_spec()
                &&& switch_at(d, 0, "prod"@, FlagKind::SetTrue) && a.prod == setting_on(d, s, 0)
                &&& switch_at(d, 1, "no-optional"@, FlagKind::SetFalse) && a.optional == setting_on(d, s, 1)
                &&& switch_at(d, 2, "no-peer"@, FlagKind::SetFalse) && a.peer == setting_on(d, s, 2)
                &&& switch_at(d, 3, "frozen"@, FlagKind::SetTrue) && a.frozen == setting_on(d, s, 3)
            },
            (Some(Subcommands::Add(a)), Some((k, s))) => {
                let d = sub_def_spec(k);
                &&& d == add_def_spec()
                &&& switch_at(d, 0, "global"@, FlagKind::SetTrue) && a.global == setting_on(d, s, 0)
                &&& switch_at(d, 1, "dev"@, FlagKind::SetTrue) && a.dev == setting_on(d, s, 1)
                &&& switch_at(d, 2, "optional"@, FlagKind::SetTrue) && a.optional == setting_on(d, s, 2)
                &&& switch_at(d, 3, "peer"@, FlagKind::SetTrue) && a.peer == setting_on(d, s, 3)
                &&& switch_at(d, 4, "exact"@, FlagKind::SetTrue) && a.exact == setting_on(d, s, 4)
            },
            (Some(Subcommands::Remove(a)), Some((k, s))) => {
                let d = sub_def_spec(k);
                &&& d == remove_def_spec()
                &&& switch_at(d, 0, "global"@, FlagKind::SetTrue) && a.global == setting_on(d, s, 0)
            },
            (Some(Subcommands::List(a)), Some((k, s))) => {
                let d = sub_def_spec(k);
                &&& d == list_def_spec()
                &&& switch_at(d, 0, "global"@, FlagKind::SetTrue) && a.global == setting_on(d, s, 0)
                &&& switch_at(d, 1, "prod"@, FlagKind::SetTrue) && a.prod == setting_on(d, s, 1)
                &&& switch_at(d, 2, "dev"@, FlagKind::SetTrue) && a.dev == setting_on(d, s, 2)
                &&& switch_at(d, 3, "no-optional"@, FlagKind::SetFalse) && a.optional == setting_on(d, s, 3)
                &&& switch_at(d, 4, "no-peer"@, FlagKind::SetFalse) && a.peer == setting_on(d, s, 4)
            },
            (Some(Subcommands::Update(a)), Some((k, s))) => {
                let d = sub_def_spec(k);
                &&& d == update_def_spec()
                &&& switch_at(d, 0, "global"@, FlagKind::SetTrue) && a.global == setting_on(d, s, 0)
                &&& switch_at(d, 1, "prod"@, FlagKind::SetTrue) && a.prod == setting_on(d, s, 1)
                &&& switch_at(d, 2, "dev"@, FlagKind::SetTrue) && a.dev == setting_on(d, s, 2)
                &&& switch_at(d, 3, "no-optional"@, FlagKind::SetFalse) && a.optional == setting_on(d, s, 3)
                &&& switch_at(d, 4, "no-peer"@, FlagKind::SetFalse) && a.peer == setting_on(d, s, 4)
                &&& switch_at(d, 5, "interactive"@, FlagKind::SetTrue) && a.interactive == setting_on(d, s, 5)
            },
            (Some(Subcommands::Dlx(a)), Some((k, s))) => {
                let d = sub_def_spec(k);
                &&& d == dlx_def_spec()
                &&& switch_at(d, 0, "no-global"@, FlagKind::SetFalse) && a.global == setting_on(d, s, 0)
            },
            _ => true,
        },
{
}

/// The fixed arguments of an install that keeps the lockfile as it is: `npm ci`,
/// `yarn install --immutable` for Yarn Berry, `install --frozen-lockfile` for the others.
pub open spec fn lockfile_kept_args(pm: PackageManager) -> Seq<Seq<char>> {
    match pm {
        PackageManager::Npm => seq!["ci"@],
        PackageManager::YarnBerry => seq!["install"@, "--immutable"@],
        _ => seq!["install"@, "--frozen-lockfile"@],
    }
}

/// Two sets of `install` arguments alike but for `--frozen`.
pub open spec fn alike_but_frozen(a: InstallArgs, b: InstallArgs) -> bool {
    &&& a.prod == b.prod
    &&& a.optional == b.optional
    &&& a.peer == b.peer
    &&& a.forward_args.deep_view() == b.forward_args.deep_view()
}

/// `--frozen` makes `install` keep the lockfile: with it the package manager runs its
/// frozen install (`npm ci`, `pnpm install --frozen-lockfile`, ...), without it its
/// plain install, and nothing else changes: the same program, the same further
/// arguments, or the same option refused.
pub proof fn law_frozen_install_keeps_the_lockfile(
    pm: PackageManager,
    a: InstallArgs,
    b: InstallArgs,
)
    requires
        alike_but_frozen(a, b),
        a.frozen,
        !b.frozen,
    ensures
        match (install_spec(pm, a), install_spec(pm, b)) {
            (Outcome::Command(ca), Outcome::Command(cb)) => {
                &&& ca.program == cb.program
                &&& ca.extra_args == cb.extra_args
                &&& ca.program_args == lockfile_kept_args(pm)
                &&& ca.program_args == pm_table(pm, PackageManagerOperation::FrozenInstall)->0.program_args
                &&& cb.program_args == pm_table(pm, PackageManagerOperation::Install)->0.program_args
                &&& cb.program_args == seq!["install"@]
                &&& ca.program_args != cb.program_args
            },
            (Outcome::Unsupported(p, op, o), Outcome::Unsupported(q, op2, o2)) => {
                &&& p == pm && q == pm && o == o2
                &&& op == PackageManagerOperation::FrozenInstall
                &&& op2 == PackageManagerOperation::Install
            },
            _ => false,
        },
{
    reveal_strlit("ci");
    reveal_strlit("install");
    if pm == PackageManager::Npm {
        assert(seq!["ci"@] != seq!["install"@]) by {
            assert(seq!["ci"@][0].len() != seq!["install"@][0].len());
        }
    } else {
        assert(lockfile_kept_args(pm).len() == 2);
    }
}

/// The flag for exact versions: `--save-exact` for npm and pnpm, `--exact` for Yarn
/// and Bun.
pub open spec fn exact_flag(pm: PackageManager) -> Seq<char> {
    match pm {
        PackageManager::Npm | PackageManager::Pnpm => "--save-exact"@,
        _ => "--exact"@,
    }
}

/// `add -e` asks for exact versions: the package manager's exact-version flag comes
/// right before the forwarded arguments; without `-e` neither `--save-exact` nor
/// `--exact` is added. The forwarded arguments come last, unchanged.
pub proof fn law_add_exact_asks_for_exact_versions(pm: PackageManager, a: AddArgs)
    requires
        !(a.global && pm == PackageManager::YarnBerry),
    ensures
        add_spec(pm, a) matches Outcome::Command(c) && {
            let fwd = a.forward_args.deep_view();
            let n = c.extra_args.len() - fwd.len();
            &&& n >= 0
            &&& c.extra_args.skip(n) == fwd
            &&& a.exact ==> n >= 1 && c.extra_args[n - 1] == exact_flag(pm)
            &&& !a.exact ==> forall|i: int|
                0 <= i < n ==> #[trigger] c.extra_args[i] != "--save-exact"@ && c.extra_args[i]
                    != "--exact"@
        },
{
    reveal_strlit("--save-exact");
    reveal_strlit("--exact");
    reveal_strlit("--save-dev");
    reveal_strlit("--dev");
    reveal_strlit("--save-optional");
    reveal_strlit("--optional");
    reveal_strlit("--save-peer");
    reveal_strlit("--peer");
    let fwd = a.forward_args.deep_view();
    let flags = crate::cli::sub::add::add_flags(pm, a);
    let all = flags + fwd;
    assert(all.skip(flags.len() as int) =~= fwd);
    if !a.exact {
        assert forall|i: int| 0 <= i < flags.len() implies all[i] != "--save-exact"@ && all[i]
            != "--exact"@ by {
            assert(all[i] == flags[i]);
            assert(flags[i].len() != 12 && flags[i].len() != 7);
        }
    } else {
        assert(all[flags.len() - 1] == flags[flags.len() - 1]);
    }
}

/// With the Node.js script runner, `run` starts `node --run` with the script name, then
/// `--` and the script's own arguments, so that these reach the script and not node.
pub proof fn law_node_runs_the_script_with_its_arguments(
    cli_runner: Option<ScriptRunner>,
    config_runner: Option<ScriptRunner>,
    pm: Option<PackageManager>,
    a: RunArgs,
)
    requires
        cli_runner == Some(ScriptRunner::Node) || (cli_runner is None && config_runner == Some(
            ScriptRunner::Node,
        )),
        a.forward_args.len() >= 1,
    ensures
        run_spec(cli_runner, config_runner, pm, a) matches Outcome::Command(c) && {
            let f = a.forward_args.deep_view();
            &&& c.program == "node"@
            &&& combined(c) == if f.len() >= 2 {
                seq!["--run"@, f[0], "--"@] + f.subrange(1, f.len() as int)
            } else {
                seq!["--run"@, f[0]]
            }
        },
{
    let f = a.forward_args.deep_view();
    if f.len() >= 2 {
        assert(seq!["--run"@] + seq![f[0], "--"@] + f.subrange(1, f.len() as int) =~= seq![
            "--run"@,
            f[0],
            "--"@,
        ] + f.subrange(1, f.len() as int));
    } else {
        assert(seq!["--run"@] + f =~= seq!["--run"@, f[0]]);
    }
}

} // verus!
