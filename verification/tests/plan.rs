use unpm::cli::main::plan::Action;
use unpm::cli::sub::{DlxArgs, ExecArgs, RunArgs, Subcommands};
use unpm::cli::{MainArgs, Unpm, Unpx};
use unpm::context::{Config, Context, PackageManagerConfig};
use unpm::enums::{PackageManager, ScriptRunner};

fn ctx(dry_run: bool, runner: Option<ScriptRunner>) -> Context {
    let args = MainArgs { config: None, pm: None, runner, dry_run };
    Context::new(&args, &None)
}

fn command_of(a: Action) -> (String, Vec<String>) {
    match a {
        Action::Command(c) => (c.program.clone(), c.combine_args()),
        other => panic!("expected a command, got {other:?}"),
    }
}

#[test]
fn no_subcommand_prints_help() {
    let cli = Unpm::try_parse_from(&["unpm"]).expect("parses");
    assert!(!cli.needs_package_manager(&ctx(false, None)));
    assert!(matches!(cli.plan(&ctx(false, None), None, None), Ok(Action::Help)));
}

#[test]
fn complete_prints_setup_lines_without_a_package_manager() {
    let cli = Unpm::try_parse_from(&["unpm", "complete", "fish"]).expect("parses");
    assert!(!cli.needs_package_manager(&ctx(false, None)));
    match cli.plan(&ctx(false, None), None, Some("unpm".to_string())) {
        Ok(Action::Print(text)) => assert_eq!(text, "COMPLETE=fish unpm | source;\nCOMPLETE=fish unpx | source;"),
        other => panic!("expected setup lines, got {other:?}"),
    }
}

#[test]
fn dry_run_plans_the_same_command() {
    let cli = Unpm::try_parse_from(&["unpm", "add", "-d", "lodash"]).expect("parses");
    let real = command_of(cli.plan(&ctx(false, None), Some(PackageManager::Pnpm), None).unwrap());
    let dry = command_of(cli.plan(&ctx(true, None), Some(PackageManager::Pnpm), None).unwrap());
    assert_eq!(real, dry);
    assert_eq!(real.0, "pnpm");
    assert_eq!(real.1, vec!["add", "--save-dev", "lodash"]);
}

#[test]
fn run_with_a_runner_needs_no_package_manager() {
    let cli = Unpm::try_parse_from(&["unpm", "run", "build"]).expect("parses");
    let c = ctx(false, Some(ScriptRunner::Node));
    assert!(!cli.needs_package_manager(&c));
    let (program, args) = command_of(cli.plan(&c, None, None).unwrap());
    assert_eq!(program, "node");
    assert_eq!(args, vec!["--run", "build"]);
    assert!(cli.needs_package_manager(&ctx(false, None)));
}

#[test]
fn missing_package_manager_is_undetermined() {
    let cli = Unpm {
        main_args: MainArgs { config: None, pm: None, runner: None, dry_run: false },
        command: Some(Subcommands::Exec(ExecArgs { forward_args: vec!["tsx".to_string()] })),
    };
    let err = cli.plan(&ctx(false, None), None, None).expect_err("no package manager");
    assert!(err.message().starts_with("unable to determine package manager\n"));
    let run = Unpm {
        main_args: MainArgs { config: None, pm: None, runner: None, dry_run: false },
        command: Some(Subcommands::Run(RunArgs { forward_args: vec!["dev".to_string()] })),
    };
    assert!(run.plan(&ctx(false, None), None, None).is_err());
}

#[test]
fn unpx_plans_like_unpm_dlx() {
    let unpx = Unpx::try_parse_from(&["unpx", "tsx", "--no-cache"]).expect("parses");
    let unpm = Unpm::try_parse_from(&["unpm", "dlx", "tsx", "--no-cache"]).expect("parses");
    let c = ctx(false, None);
    let a = unpx.plan(&c, PackageManager::Pnpm).expect("planned");
    let b = command_of(unpm.plan(&c, Some(PackageManager::Pnpm), None).unwrap());
    assert_eq!((a.program.clone(), a.combine_args()), b);
    let direct = Unpx {
        main_args: MainArgs { config: None, pm: None, runner: None, dry_run: false },
        dlx_args: DlxArgs { global: true, forward_args: vec!["eslint".to_string(), "--fix".to_string()] },
    };
    let npm = direct.plan(&c, PackageManager::Npm).expect("planned");
    assert_eq!(npm.program, "npx");
    assert_eq!(npm.combine_args(), vec!["eslint", "--fix"]);
}

#[test]
fn dlx_uses_the_global_package_manager_unless_no_global() {
    let config = Some(Config {
        pm: Some(PackageManagerConfig {
            local: Some(PackageManager::Pnpm),
            global: Some(PackageManager::Npm),
        }),
        runner: None,
        registry: None,
    });
    let args = MainArgs { config: None, pm: None, runner: None, dry_run: true };

    let cli = Unpm::try_parse_from(&["unpm", "dlx", "tsx"]).expect("parses");
    let mut c = Context::new(&args, &config);
    cli.extends_ctx(&mut c);
    assert!(!c.global);
    let r = cli.resolution_ctx(&c);
    assert!(r.global);
    let pm = PackageManager::resolve(&r, None, false).unwrap().expect("resolved");
    assert_eq!(pm, PackageManager::Npm);
    let (program, words) = command_of(cli.plan(&c, Some(pm), None).unwrap());
    assert_eq!((program.as_str(), words), ("npx", vec!["tsx".to_string()]));

    let cli = Unpm::try_parse_from(&["unpm", "dlx", "-G", "tsx"]).expect("parses");
    let mut c = Context::new(&args, &config);
    cli.extends_ctx(&mut c);
    let r = cli.resolution_ctx(&c);
    assert!(!r.global);
    let pm = PackageManager::resolve(&r, None, false).unwrap().expect("resolved");
    assert_eq!(pm, PackageManager::Pnpm);

    let cli = Unpm::try_parse_from(&["unpm", "add", "-g", "tsx"]).expect("parses");
    let mut c = Context::new(&args, &config);
    cli.extends_ctx(&mut c);
    assert!(cli.resolution_ctx(&c).global);

    let unpx = Unpx::try_parse_from(&["unpx", "tsx"]).expect("parses");
    let mut c = Context::new(&args, &config);
    unpx.extends_ctx(&mut c);
    assert!(!c.global);
    let r = unpx.resolution_ctx(&c);
    assert!(r.global);
    assert_eq!(r.registry, c.registry);
    let unpx = Unpx::try_parse_from(&["unpx", "-G", "tsx"]).expect("parses");
    assert!(!unpx.resolution_ctx(&c).global);
}
