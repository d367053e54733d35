use unpm::cli::main::plan::Action;
use unpm::cli::Unpm;
use unpm::context::Context;
use unpm::enums::{PackageManager, Shell};

#[test]
fn package_manager_names_round_trip() {
    for pm in PackageManager::all() {
        assert_eq!(PackageManager::from_name(pm.as_str()), Some(pm));
        assert_eq!(pm.to_string(), pm.as_str());
    }
    assert_eq!(PackageManager::YarnBerry.as_str(), "yarn-berry");
    assert_eq!(PackageManager::from_name("yarn_berry"), None);
}

#[test]
fn shell_names_round_trip() {
    for sh in [Shell::Bash, Shell::Elvish, Shell::Fish, Shell::PowerShell, Shell::Zsh] {
        assert_eq!(Shell::from_name(sh.as_str()), Some(sh));
    }
}

fn setup_lines(argv: &[&str], argv0: Option<&str>) -> String {
    let cli = Unpm::try_parse_from(argv).expect("parses");
    let ctx = Context::new(&cli.main_args, &None);
    match cli.plan(&ctx, None, argv0.map(|s| s.to_string())) {
        Ok(Action::Print(text)) => text,
        other => panic!("expected setup lines, got {other:?}"),
    }
}

#[test]
fn renamed_unpm_names_its_unpx_alike() {
    let text = setup_lines(&["unpm", "complete", "fish", "--unpm", "my-unpm"], None);
    assert_eq!(text, "COMPLETE=fish my-unpm | source;\nCOMPLETE=fish my-unpx | source;");
    let text = setup_lines(&["unpm", "complete", "fish", "--unpm", "my-unpm", "--unpx", "px"], None);
    assert_eq!(text, "COMPLETE=fish my-unpm | source;\nCOMPLETE=fish px | source;");
    let text = setup_lines(&["unpm", "complete", "fish"], Some("pm"));
    assert_eq!(text, "COMPLETE=fish pm | source;\nCOMPLETE=fish unpx | source;");
}
