use unpm::cli::parser::ErrorKind;
use unpm::cli::sub::{AddArgs, ListArgs, RemoveArgs, Subcommands, UpdateArgs};
use unpm::cli::{MainArgs, Unpm, Unpx};
use unpm::context::Context;
use unpm::enums::PackageManager;

fn parse_add(args: &[&str]) -> AddArgs {
    let cli = Unpm::try_parse_from(args).expect("failed to parse test cli arguments");
    let Some(Subcommands::Add(args)) = cli.command else {
        panic!("expected add command");
    };

    args
}

fn main_args() -> MainArgs {
    MainArgs {
        config: None,
        pm: None,
        runner: None,
        dry_run: false,
    }
}

#[test]
fn unpx_parses_forwarded_arguments_like_dlx() {
    let cli = Unpx::try_parse_from(&["unpx", "tsx", "--no-cache", "hello.ts"])
        .expect("expected unpx arguments to parse");

    assert_eq!(cli.main_args.pm, None);
    assert!(cli.dlx_args.global);
    assert_eq!(
        cli.dlx_args.forward_args,
        vec!["tsx", "--no-cache", "hello.ts"]
    );
}

#[test]
fn unpx_supports_global_flags_and_no_global_switch() {
    let cli = Unpx::try_parse_from(&[
        "unpx",
        "--pm",
        "npm",
        "--dry-run",
        "-G",
        "tsx",
        "--no-cache",
    ])
    .expect("expected unpx arguments to parse");

    assert_eq!(cli.main_args.pm, Some(PackageManager::Npm));
    assert!(cli.main_args.dry_run);
    assert!(!cli.dlx_args.global);
    assert_eq!(cli.dlx_args.forward_args, vec!["tsx", "--no-cache"]);
}

#[test]
fn extends_ctx_sets_global_for_add_remove_list_update() {
    let mut ctx = Context::new(&main_args(), &None);

    let mut unpm = Unpm {
        main_args: main_args(),
        command: Some(Subcommands::Add(AddArgs {
            global: true,
            ..Default::default()
        })),
    };
    unpm.extends_ctx(&mut ctx);
    assert!(ctx.global);

    let mut ctx = Context::new(&main_args(), &None);
    unpm.command = Some(Subcommands::Remove(RemoveArgs {
        global: true,
        ..Default::default()
    }));
    unpm.extends_ctx(&mut ctx);
    assert!(ctx.global);

    let mut ctx = Context::new(&main_args(), &None);
    unpm.command = Some(Subcommands::List(ListArgs {
        global: true,
        ..Default::default()
    }));
    unpm.extends_ctx(&mut ctx);
    assert!(ctx.global);

    let mut ctx = Context::new(&main_args(), &None);
    unpm.command = Some(Subcommands::Update(UpdateArgs {
        global: true,
        ..Default::default()
    }));
    unpm.extends_ctx(&mut ctx);
    assert!(ctx.global);
}

#[test]
fn extends_ctx_does_not_set_global_for_dlx() {
    let mut ctx = Context::new(&main_args(), &None);
    let unpm = Unpm {
        main_args: main_args(),
        command: Some(Subcommands::Dlx(Default::default())),
    };

    unpm.extends_ctx(&mut ctx);
    assert!(!ctx.global);
}

#[test]
fn add_collects_unknown_options_without_double_dash() {
    let args = parse_add(&["unpm", "add", "--dry-run", "lodash"]);

    assert_eq!(args.forward_args, vec!["--dry-run", "lodash"]);
    assert!(!args.dev);
    assert!(!args.exact);
}

#[test]
fn add_keeps_known_flags_before_passthrough_args() {
    let args = parse_add(&[
        "unpm",
        "add",
        "--dev",
        "--audit-level",
        "moderate",
        "lodash",
    ]);

    assert!(args.dev);
    assert_eq!(
        args.forward_args,
        vec!["--audit-level", "moderate", "lodash"]
    );
}

#[test]
fn add_still_supports_double_dash_for_conflicting_flags() {
    let args = parse_add(&["unpm", "add", "--", "--dev", "lodash"]);

    assert!(!args.dev);
    assert_eq!(args.forward_args, vec!["--dev", "lodash"]);
}

#[test]
fn add_requires_at_least_one_forwarded_arg() {
    let err = Unpm::try_parse_from(&["unpm", "add", "-d"]).expect_err("expected parse error");

    assert_eq!(err.kind(), ErrorKind::MissingRequiredArgument);

    let rendered = err.to_string();
    assert!(rendered.contains("FORWARD_OPTION | PACKAGE"));
    assert!(rendered.contains("Usage:"));
}

#[test]
fn dlx_requires_forwarded_arguments() {
    let err = Unpm::try_parse_from(&["unpm", "dlx"]).expect_err("expected parse error");

    assert_eq!(err.kind(), ErrorKind::MissingRequiredArgument);
}

#[test]
fn dlx_parses_no_global_and_forwarded_args() {
    let cli = Unpm::try_parse_from(&["unpm", "dlx", "-G", "tsx", "--no-cache"])
        .expect("expected dlx parse");

    let Some(Subcommands::Dlx(args)) = cli.command else {
        panic!("expected dlx command");
    };

    assert!(!args.global);
    assert_eq!(args.forward_args, vec!["tsx", "--no-cache"]);
}

#[test]
fn exec_requires_forwarded_arguments() {
    let err = Unpm::try_parse_from(&["unpm", "exec"]).expect_err("expected parse error");

    assert_eq!(err.kind(), ErrorKind::MissingRequiredArgument);
}

#[test]
fn exec_parses_forwarded_command_line() {
    let cli = Unpm::try_parse_from(&["unpm", "exec", "tsx", "--no-cache", "hello.ts"])
        .expect("expected exec parse");

    let Some(Subcommands::Exec(args)) = cli.command else {
        panic!("expected exec command");
    };

    assert_eq!(args.forward_args, vec!["tsx", "--no-cache", "hello.ts"]);
}

#[test]
fn install_uses_inclusive_defaults() {
    let cli = Unpm::try_parse_from(&["unpm", "install"]).expect("expected install parse");

    let Some(Subcommands::Install(args)) = cli.command else {
        panic!("expected install command");
    };

    assert!(!args.prod);
    assert!(args.optional);
    assert!(args.peer);
    assert!(!args.frozen);
    assert!(args.forward_args.is_empty());
}

#[test]
fn install_parses_negated_dependency_flags_and_forwarded_args() {
    let cli = Unpm::try_parse_from(&[
        "unpm",
        "install",
        "-p",
        "-O",
        "-P",
        "--frozen",
        "--ignore-scripts",
    ])
    .expect("expected install parse");

    let Some(Subcommands::Install(args)) = cli.command else {
        panic!("expected install command");
    };

    assert!(args.prod);
    assert!(!args.optional);
    assert!(!args.peer);
    assert!(args.frozen);
    assert_eq!(args.forward_args, vec!["--ignore-scripts"]);
}

#[test]
fn list_rejects_prod_and_dev_together() {
    let err = Unpm::try_parse_from(&["unpm", "list", "--prod", "--dev"])
        .expect_err("expected parse conflict");

    assert_eq!(err.kind(), ErrorKind::ArgumentConflict);
}

#[test]
fn list_parses_global_negated_flags_and_forwarded_args() {
    let cli = Unpm::try_parse_from(&["unpm", "list", "-g", "-O", "-P", "--json"])
        .expect("expected list parse");

    let Some(Subcommands::List(args)) = cli.command else {
        panic!("expected list command");
    };

    assert!(args.global);
    assert!(!args.optional);
    assert!(!args.peer);
    assert_eq!(args.forward_args, vec!["--json"]);
}

#[test]
fn pm_allows_empty_forwarded_arguments() {
    let cli = Unpm::try_parse_from(&["unpm", "pm"]).expect("expected pm parse");

    let Some(Subcommands::Pm(args)) = cli.command else {
        panic!("expected pm command");
    };

    assert!(!args.global);
    assert!(args.forward_args.is_empty());
}

#[test]
fn pm_parses_global_and_forwarded_arguments() {
    let cli =
        Unpm::try_parse_from(&["unpm", "pm", "-g", "--version"]).expect("expected pm parse");

    let Some(Subcommands::Pm(args)) = cli.command else {
        panic!("expected pm command");
    };

    assert!(args.global);
    assert_eq!(args.forward_args, vec!["--version"]);
}

#[test]
fn remove_parses_global_and_forwarded_arguments() {
    let cli = Unpm::try_parse_from(&["unpm", "remove", "-g", "--dry-run", "tsx"])
        .expect("expected remove arguments to parse");

    let Some(Subcommands::Remove(args)) = cli.command else {
        panic!("expected remove command");
    };

    assert!(args.global);
    assert_eq!(args.forward_args, vec!["--dry-run", "tsx"]);
}

#[test]
fn remove_requires_forwarded_arguments() {
    let err = Unpm::try_parse_from(&["unpm", "remove"]).expect_err("expected parse error");

    assert_eq!(err.kind(), ErrorKind::MissingRequiredArgument);
}

#[test]
fn run_requires_forwarded_arguments() {
    let err = Unpm::try_parse_from(&["unpm", "run"]).expect_err("expected parse error");

    assert_eq!(err.kind(), ErrorKind::MissingRequiredArgument);
}

#[test]
fn run_parses_script_and_arguments() {
    let cli =
        Unpm::try_parse_from(&["unpm", "run", "build", "--watch"]).expect("expected run parse");

    let Some(Subcommands::Run(args)) = cli.command else {
        panic!("expected run command");
    };

    assert_eq!(args.forward_args, vec!["build", "--watch"]);
}

#[test]
fn update_rejects_prod_and_dev_together() {
    let err = Unpm::try_parse_from(&["unpm", "update", "--prod", "--dev"])
        .expect_err("expected parse conflict");

    assert_eq!(err.kind(), ErrorKind::ArgumentConflict);
}

#[test]
fn update_parses_interactive_and_forwarded_args() {
    let cli = Unpm::try_parse_from(&["unpm", "update", "-i", "-O", "--recursive", "lodash"])
        .expect("expected update parse");

    let Some(Subcommands::Update(args)) = cli.command else {
        panic!("expected update command");
    };

    assert!(args.interactive);
    assert!(!args.optional);
    assert_eq!(args.forward_args, vec!["--recursive", "lodash"]);
}

fn parse_error_text(args: &[&str]) -> String {
    Unpm::try_parse_from(args).expect_err("expected parse error").to_string()
}

#[test]
fn parse_errors_read_like_clap() {
    assert_eq!(
        parse_error_text(&["unpm", "list", "--prod", "--dev"]),
        "error: the argument '--prod' cannot be used with '--dev'\n\nUsage: unpm list [OPTIONS] [FORWARD_OPTION | PACKAGE]...\n\nFor more information, try '--help'.\n"
    );
    assert_eq!(
        parse_error_text(&["unpm", "--pm", "deno", "add", "x"]),
        "error: invalid value 'deno' for '--pm <PACKAGE_MANAGER>'\n  [possible values: npm, pnpm, yarn, yarn-berry, bun]\n\nFor more information, try 'help'.\n"
    );
    assert_eq!(
        parse_error_text(&["unpm", "frobnicate"]),
        "error: unrecognized subcommand 'frobnicate'\n\nUsage: unpm [OPTIONS] [COMMAND]\n\nFor more information, try 'help'.\n"
    );
    assert_eq!(
        parse_error_text(&["unpm", "add"]),
        "error: the following required arguments were not provided:\n  <FORWARD_OPTION | PACKAGE>...\n\nUsage: unpm add [OPTIONS] <FORWARD_OPTION | PACKAGE>...\n\nFor more information, try '--help'.\n"
    );
    assert_eq!(
        parse_error_text(&["unpm", "--config"]),
        "error: a value is required for '--config <PATH>' but none was supplied\n\nFor more information, try 'help'.\n"
    );
    assert_eq!(
        parse_error_text(&["unpm", "--dry-run", "--dry-run"]),
        "error: the argument '--dry-run' cannot be used multiple times\n\nUsage: unpm [OPTIONS] [COMMAND]\n\nFor more information, try 'help'.\n"
    );
    assert_eq!(
        parse_error_text(&["unpm", "complete", "fish", "--bogus"]),
        "error: unexpected argument '--bogus' found\n\n  tip: to pass '--bogus' as a value, use '-- --bogus'\n\nUsage: unpm complete [OPTIONS] <SHELL>\n\nFor more information, try '--help'.\n"
    );
    assert_eq!(
        parse_error_text(&["unpm", "add", "--dev=yes", "x"]),
        "error: unexpected value 'yes' for '--dev' found; no more were expected\n\nUsage: unpm add [OPTIONS] <FORWARD_OPTION | PACKAGE>...\n\nFor more information, try '--help'.\n"
    );
    let e = Unpx::try_parse_from(&["unpx", "--runner", "bun", "tsx"]).expect_err("bad runner");
    assert_eq!(
        e.to_string(),
        "error: invalid value 'bun' for '--runner <SCRIPT_RUNNER>'\n  [possible values: node]\n"
    );
}
