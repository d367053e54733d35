use unpm::adaptors::CommandAdaptor;
use unpm::enums::{PackageManager, PackageManagerOperation, ScriptRunner};
use unpm::errors::{CommandError, Error};

fn strings(v: &[&str]) -> Vec<String> {
    v.iter().map(|s| s.to_string()).collect()
}

#[test]
fn separate_puts_double_dash_after_first_forwarded_argument() {
    let a = CommandAdaptor::for_pm(PackageManager::Npm, PackageManagerOperation::Run)
        .unwrap()
        .set_extra_args(strings(&["build", "--watch", "--verbose"]));
    assert_eq!(a.combine_args(), strings(&["run", "build", "--", "--watch", "--verbose"]));
    assert_eq!(a.to_string(), "npm run build -- --watch --verbose");
    let one = a.set_extra_args(strings(&["build"]));
    assert_eq!(one.combine_args(), strings(&["run", "build"]));
}

#[test]
fn display_shows_forwarded_arguments_without_fixed_ones() {
    let a = CommandAdaptor::for_pm(PackageManager::Npm, PackageManagerOperation::Dlx)
        .unwrap()
        .set_extra_args(strings(&["tsx", "--no-cache", "hello.ts"]));
    assert_eq!(a.to_string(), "npx tsx --no-cache hello.ts");
    let y = CommandAdaptor::for_pm(PackageManager::Yarn, PackageManagerOperation::Pm)
        .unwrap()
        .set_extra_args(strings(&["--version"]));
    assert_eq!(y.to_string(), "yarn --version");
    let bare = CommandAdaptor::for_pm(PackageManager::Yarn, PackageManagerOperation::Pm).unwrap();
    assert_eq!(bare.to_string(), "yarn");
    let b = CommandAdaptor::for_runner(ScriptRunner::Node, unpm::enums::ScriptRunnerOperation::Run)
        .unwrap()
        .set_extra_args(strings(&["dev"]));
    assert_eq!(b.to_string(), "node --run dev");
}

#[test]
fn exit_status_is_checked() {
    let a = CommandAdaptor::for_pm(PackageManager::Pnpm, PackageManagerOperation::Install).unwrap();
    assert!(a.check_status(true, Some(0)).is_ok());
    match a.check_status(false, Some(-2)) {
        Err(Error::Command(CommandError::Exit { command, code })) => {
            assert_eq!(command, "pnpm install");
            assert_eq!(code, "-2");
        }
        other => panic!("expected an exit error, got {other:?}"),
    }
    let err = a.check_status(false, None).expect_err("killed");
    assert_eq!(err.message(), "command `\u{1b}[33mpnpm install\u{1b}[39m` exited with status \u{1b}[31munknown\u{1b}[39m");
}

#[test]
fn unsupported_operation_message() {
    let err = CommandAdaptor::for_pm(PackageManager::Npm, PackageManagerOperation::InteractiveUpdate)
        .expect_err("npm has no interactive update");
    assert_eq!(err.message(), "interactive update packages is not supported by \u{1b}[33mnpm\u{1b}[39m");
}
