use unpm::cli::MainArgs;
use unpm::context::{
    Config, ConfigCandidate, ConfigFile, Context, PackageManagerConfig, NPM_REGISTRY_URL,
};
use unpm::enums::{PackageManager, ScriptRunner};
use unpm::errors::{ConfigError, ConfigErrorFrom, Error, PackageManagerError};
use unpm::text::{is_blank, trim};

fn args(pm: Option<PackageManager>) -> MainArgs {
    MainArgs { config: None, pm, runner: None, dry_run: false }
}

fn config(local: Option<PackageManager>, global: Option<PackageManager>) -> Config {
    Config {
        pm: Some(PackageManagerConfig { local, global }),
        runner: Some(ScriptRunner::Node),
        registry: Some("https://registry.npmmirror.com".to_string()),
    }
}

fn loaded(path: &str, cfg: Option<Config>) -> Option<ConfigCandidate> {
    Some(ConfigCandidate { path: path.to_string(), file: ConfigFile::Loaded(cfg) })
}

fn missing(path: &str) -> Option<ConfigCandidate> {
    Some(ConfigCandidate { path: path.to_string(), file: ConfigFile::Missing })
}

#[test]
fn config_argument_comes_first() {
    let r = Config::new(
        loaded("a.json", Some(config(Some(PackageManager::Bun), None))),
        loaded("env.json", Some(config(Some(PackageManager::Npm), None))),
        None,
    );
    let cfg = r.expect("loads").expect("has a config");
    assert_eq!(cfg.pm.unwrap().local, Some(PackageManager::Bun));

    let r = Config::new(missing("a.json"), loaded("env.json", None), None);
    match r {
        Err(Error::Config(ConfigError::NotExists { from: ConfigErrorFrom::Arg(p) })) => {
            assert_eq!(p, "a.json")
        }
        other => panic!("expected a missing --config file, got {other:?}"),
    }
}

#[test]
fn blank_environment_file_falls_through_to_default() {
    let r = Config::new(
        None,
        loaded("env.json", None),
        loaded("default.json", Some(config(None, Some(PackageManager::Pnpm)))),
    );
    let cfg = r.expect("loads").expect("has a config");
    assert_eq!(cfg.pm.unwrap().global, Some(PackageManager::Pnpm));

    let r = Config::new(None, missing("env.json"), loaded("default.json", None));
    assert!(matches!(
        r,
        Err(Error::Config(ConfigError::NotExists { from: ConfigErrorFrom::Env(_) }))
    ));
}

#[test]
fn missing_default_file_is_no_config() {
    assert!(matches!(Config::new(None, None, missing("default.json")), Ok(None)));
    assert!(matches!(Config::new(None, None, None), Ok(None)));
    let failed = Some(ConfigCandidate {
        path: "default.json".to_string(),
        file: ConfigFile::Failed("expected value at line 1 column 1".to_string()),
    });
    let err = Config::new(None, None, failed).expect_err("broken default file");
    assert_eq!(
        err.message(),
        "failed to load config file: \u{1b}[33mdefault.json\u{1b}[39m (from default config file path)\n       \u{1b}[31m\u{1b}[1mcause:\u{1b}[39m\u{1b}[22m expected value at line 1 column 1"
    );
}

#[test]
fn environment_path_is_trimmed() {
    assert_eq!(Config::env_path("  /tmp/unpm.json \n"), Some("/tmp/unpm.json".to_string()));
    assert_eq!(Config::env_path(" \t"), None);
    assert_eq!(trim("\u{3000} a b \u{85}"), "a b");
    assert!(is_blank(" \n\t"));
    assert!(!is_blank(" x "));
}

#[test]
fn context_takes_config_and_registry_default() {
    let ctx = Context::new(&args(None), &None);
    assert_eq!(ctx.registry, NPM_REGISTRY_URL);
    assert!(ctx.interactive);
    assert!(!ctx.global);
    let ctx = Context::new(&args(Some(PackageManager::Yarn)), &Some(config(Some(PackageManager::Bun), None)));
    assert_eq!(ctx.registry, "https://registry.npmmirror.com");
    assert_eq!(ctx.cli_pm, Some(PackageManager::Yarn));
    assert_eq!(ctx.config_local_pm, Some(PackageManager::Bun));
    assert_eq!(ctx.config_runner, Some(ScriptRunner::Node));
    assert!(!ctx.needs_detection());
}

#[test]
fn resolution_order_for_local_and_global_commands() {
    let cfg = Some(config(Some(PackageManager::Bun), Some(PackageManager::Npm)));
    let mut ctx = Context::new(&args(None), &cfg);
    assert!(ctx.needs_detection());
    assert_eq!(
        PackageManager::resolve(&ctx, Some(PackageManager::Pnpm), false).unwrap(),
        Some(PackageManager::Pnpm)
    );
    assert_eq!(PackageManager::resolve(&ctx, None, false).unwrap(), Some(PackageManager::Bun));
    ctx.global = true;
    assert_eq!(
        PackageManager::resolve(&ctx, Some(PackageManager::Pnpm), false).unwrap(),
        Some(PackageManager::Npm)
    );
    let ctx = Context::new(&args(Some(PackageManager::Yarn)), &cfg);
    assert_eq!(
        PackageManager::resolve(&ctx, Some(PackageManager::Pnpm), false).unwrap(),
        Some(PackageManager::Yarn)
    );
}

#[test]
fn undetermined_package_manager_prompts_only_on_a_terminal() {
    let mut ctx = Context::new(&args(None), &None);
    assert_eq!(PackageManager::resolve(&ctx, None, true).unwrap(), None);
    let err = PackageManager::resolve(&ctx, None, false).expect_err("no terminal");
    assert!(matches!(
        err,
        Error::PackageManager(PackageManagerError::Undetermined { interactive: false })
    ));
    ctx.interactive = false;
    assert!(PackageManager::resolve(&ctx, None, true).is_err());
    assert_eq!(PackageManager::from_selection(Some(3)).unwrap(), PackageManager::YarnBerry);
    assert!(matches!(
        PackageManager::from_selection(None),
        Err(Error::PackageManager(PackageManagerError::Undetermined { interactive: true }))
    ));
    assert!(PackageManager::from_selection(Some(5)).is_err());
}
