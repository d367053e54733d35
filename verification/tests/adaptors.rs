use unpm::adaptors::CommandAdaptor;
use unpm::enums::PackageManager::{Bun, Npm, Pnpm, Yarn, YarnBerry};
use unpm::enums::PackageManagerOperation::{
    Add, Dlx, GlobalAdd, GlobalInteractiveUpdate, GlobalList, GlobalRemove, GlobalUpdate,
    InteractiveUpdate, Run,
};

fn strings(v: &[&str]) -> Vec<String> {
    v.iter().map(|s| s.to_string()).collect()
}

#[test]
fn add_operation_fixtures() {
    let args = ["typescript".to_owned(), "-D".to_owned()];

    let cases = [
        (Npm, Some(("npm", vec!["add", "typescript", "-D"]))),
        (Pnpm, Some(("pnpm", vec!["add", "typescript", "-D"]))),
        (Yarn, Some(("yarn", vec!["add", "typescript", "-D"]))),
        (YarnBerry, Some(("yarn", vec!["add", "typescript", "-D"]))),
        (Bun, Some(("bun", vec!["add", "typescript", "-D"]))),
    ];

    for (manager, expected) in cases {
        let actual =
            CommandAdaptor::for_pm(manager, Add).map(|adaptor| adaptor.set_extra_args(args.to_vec()));
        let actual = actual.expect("expected Some for supported operation");
        match expected {
            Some((program, args)) => {
                assert_eq!(actual.program, program, "add fixture for {manager:?}");
                assert_eq!(actual.combine_args(), args, "add fixture for {manager:?}");
            }
            None => {
                panic!("expected Some for supported operation for {manager:?}");
            }
        }
    }
}

#[test]
fn run_operation_fixtures() {
    let args = ["arg0".to_owned(), "arg1-0 arg1-1".to_owned()];

    let cases = [
        (
            Npm,
            Some(("npm", vec!["run", "arg0", "--", "arg1-0 arg1-1"])),
        ),
        (Pnpm, Some(("pnpm", vec!["run", "arg0", "arg1-0 arg1-1"]))),
        (Yarn, Some(("yarn", vec!["run", "arg0", "arg1-0 arg1-1"]))),
        (
            YarnBerry,
            Some(("yarn", vec!["run", "arg0", "arg1-0 arg1-1"])),
        ),
        (Bun, Some(("bun", vec!["run", "arg0", "arg1-0 arg1-1"]))),
    ];

    for (manager, expected) in cases {
        let actual =
            CommandAdaptor::for_pm(manager, Run).map(|adaptor| adaptor.set_extra_args(args.to_vec()));
        match expected {
            Some((program, args)) => {
                let actual = actual.expect("expected Some for supported operation");
                assert_eq!(actual.program, program, "run fixture for {manager:?}");
                assert_eq!(actual.combine_args(), args, "run fixture for {manager:?}");
            }
            None => {
                panic!("expected Some for supported operation for {manager:?}");
            }
        }
    }
}

#[test]
fn dlx_operation_fixtures() {
    let args = ["eslint".to_owned(), "--fix".to_owned()];

    let cases = [
        (Npm, Some(("npx", vec!["eslint", "--fix"]))),
        (Pnpm, Some(("pnpm", vec!["dlx", "eslint", "--fix"]))),
        (Yarn, None),
        (YarnBerry, Some(("yarn", vec!["dlx", "eslint", "--fix"]))),
        (Bun, Some(("bun", vec!["x", "eslint", "--fix"]))),
    ];

    for (manager, expected) in cases {
        let actual =
            CommandAdaptor::for_pm(manager, Dlx).map(|adaptor| adaptor.set_extra_args(args.to_vec()));
        match expected {
            Some((program, args)) => {
                let actual = actual.expect("expected Some for supported operation");
                assert_eq!(actual.program, program, "dlx fixture for {manager:?}");
                assert_eq!(actual.combine_args(), args, "dlx fixture for {manager:?}");
            }
            None => {
                // Yarn Classic has no `dlx`: the adaptor is refused.
                assert!(actual.is_err(), "expected an error for {manager:?}");
            }
        }
    }
}

#[test]
fn returns_none_for_unsupported_operations() {
    let unsupported = [
        (Npm, InteractiveUpdate),
        (Npm, GlobalInteractiveUpdate),
        (Yarn, Dlx),
        (YarnBerry, GlobalAdd),
        (YarnBerry, GlobalRemove),
        (YarnBerry, GlobalList),
        (YarnBerry, GlobalUpdate),
        (YarnBerry, GlobalInteractiveUpdate),
    ];

    for (manager, operation) in unsupported {
        let actual = CommandAdaptor::for_pm(manager, operation)
            .map(|adaptor| adaptor.set_extra_args(strings(&["foo"])));
        assert!(
            actual.is_err(),
            "expected None for unsupported mapping: {manager:?} {operation:?}"
        );
    }
}
