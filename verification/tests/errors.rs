use unpm::enums::{PackageManager, PackageManagerOperation, ScriptRunner, ScriptRunnerOperation};
use unpm::errors::{
    CommandError, ConfigError, ConfigErrorFrom, Error, PackageManagerError, ScriptRunnerError,
};

#[test]
fn package_manager_error_messages() {
    let e = Error::PackageManager(PackageManagerError::Undetermined { interactive: true });
    assert_eq!(
        e.message(),
        "unable to determine package manager, and interactive selection is disabled\n\nSet '\u{1b}[1m--pm <PACKAGE_MANAGER>\u{1b}[22m' or configure '\u{1b}[1mpm\u{1b}[22m' in the config file."
    );
    let e = Error::PackageManager(PackageManagerError::Unsupported {
        package_manager: PackageManager::Bun,
        operation: PackageManagerOperation::List,
        option: Some("--prod".to_string()),
    });
    assert_eq!(e.message(), "list packages with option '\u{1b}[33m--prod\u{1b}[39m' is not supported by \u{1b}[33mbun\u{1b}[39m");
}

#[test]
fn script_runner_error_messages() {
    let e = Error::ScriptRunner(ScriptRunnerError::Undetermined { interactive: false });
    assert_eq!(
        e.message(),
        "unable to determine script runner\n\nSet '\u{1b}[1m--runner <SCRIPT_RUNNER>\u{1b}[22m' or configure '\u{1b}[1mrunner\u{1b}[22m' in the config file."
    );
    let e = Error::ScriptRunner(ScriptRunnerError::Unsupported {
        script_runner: ScriptRunner::Node,
        operation: ScriptRunnerOperation::Run,
        option: None,
    });
    assert!(e.message().ends_with(" is not supported by \u{1b}[33mnode\u{1b}[39m"));
}

#[test]
fn command_and_config_error_messages() {
    let e = Error::Command(CommandError::Spawn {
        command: "pnpm install".to_string(),
        source: "No such file or directory (os error 2)".to_string(),
    });
    assert_eq!(
        e.message(),
        "failed to execute command `\u{1b}[33mpnpm install\u{1b}[39m`: No such file or directory (os error 2)"
    );
    let e = Error::Config(ConfigError::NotExists { from: ConfigErrorFrom::Env("/x.json".to_string()) });
    assert_eq!(
        e.message(),
        "config file does not exist: \u{1b}[33m/x.json\u{1b}[39m (from environment variable '\u{1b}[1mUNPM_CONFIG_FILE\u{1b}[22m')"
    );
    let e = Error::Config(ConfigError::Save {
        from: ConfigErrorFrom::Arg("c.json".to_string()),
        source: "read-only".to_string(),
    });
    assert_eq!(
        e.message(),
        "failed to save config file: \u{1b}[33mc.json\u{1b}[39m (from '\u{1b}[1m--config <PATH>\u{1b}[22m')\n       \u{1b}[31m\u{1b}[1mcause:\u{1b}[39m\u{1b}[22m read-only"
    );
    assert_eq!(Error::Raw("boom".to_string()).message(), "boom");
}
