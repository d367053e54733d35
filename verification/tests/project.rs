use unpm::enums::PackageManager;
use unpm::package::Project;

const PACKAGE_JSON: &str = r#"{
  "name": "demo",
  "packageManager": "^pnpm@9.1.0",
  "scripts": { "build": "tsc", "build:watch": "tsc -w", "test": "vitest" },
  "dependencies": { "lodash": "^4.17.21", "left-pad": "1.3.0" },
  "devDependencies": { "typescript": "^5.4.0", "lint-staged": "^15.0.0" },
  "devEngines": { "packageManager": { "name": "yarn", "version": 4 } }
}"#;

fn project() -> Project {
    Project::new(Some(PACKAGE_JSON.to_string()), None)
}

fn pairs(v: &[(&str, &str)]) -> Vec<(String, String)> {
    v.iter().map(|(a, b)| (a.to_string(), b.to_string())).collect()
}

#[test]
fn reads_package_manager_field_without_caret() {
    assert_eq!(
        project().resolve_package_manager_by_field(),
        Some(("pnpm".to_string(), "9.1.0".to_string()))
    );
}

#[test]
fn package_manager_field_without_version() {
    let p = Project::new(Some(r#"{"packageManager": "bun"}"#.to_string()), None);
    assert_eq!(p.resolve_package_manager_by_field(), Some(("bun".to_string(), String::new())));
    let p = Project::new(Some(r#"{"packageManager": "yarn@4@x"}"#.to_string()), None);
    assert_eq!(p.resolve_package_manager_by_field(), Some(("yarn".to_string(), "4@x".to_string())));
}

#[test]
fn dev_engines_version_must_be_a_string() {
    assert_eq!(
        project().resolve_package_manager_by_dev_engines(),
        Some(("yarn".to_string(), String::new()))
    );
    let p = Project::new(
        Some(r#"{"devEngines": {"packageManager": {"name": 3, "version": "1"}}}"#.to_string()),
        None,
    );
    assert_eq!(p.resolve_package_manager_by_dev_engines(), None);
    let p = Project::new(Some(r#"{"devEngines": {"packageManager": ["npm"]}}"#.to_string()), None);
    assert_eq!(p.resolve_package_manager_by_dev_engines(), None);
}

#[test]
fn lists_scripts_with_prefix() {
    assert_eq!(
        project().list_scripts(Some("build")),
        Some(pairs(&[("build", "tsc"), ("build:watch", "tsc -w")]))
    );
    assert_eq!(project().list_scripts(None).map(|v| v.len()), Some(3));
    let p = Project::new(Some("{}".to_string()), None);
    assert_eq!(p.list_scripts(None), None);
}

#[test]
fn lists_dependencies_then_dev_dependencies() {
    assert_eq!(
        project().list_dependencies(Some("l")),
        Some(pairs(&[
            ("lodash", "dependencies"),
            ("left-pad", "dependencies"),
            ("lint-staged", "devDependencies"),
        ]))
    );
    let p = Project::new(Some("{}".to_string()), None);
    assert_eq!(p.list_dependencies(None), Some(vec![]));
}

#[test]
fn unreadable_or_invalid_package_json_gives_nothing() {
    let p = Project::new(None, None);
    assert_eq!(p.list_dependencies(None), None);
    assert_eq!(p.resolve_package_manager_by_field(), None);
    let p = Project::new(Some("not json".to_string()), None);
    assert!(p.package_json.is_none());
    assert_eq!(p.list_scripts(None), None);
}

#[test]
fn lists_files_in_node_modules() {
    let entries = vec![
        (".bin".to_string(), false),
        ("tsc".to_string(), true),
        ("eslint".to_string(), true),
    ];
    let p = Project::new(None, Some(entries));
    assert_eq!(p.list_bins(), Some(vec!["tsc".to_string(), "eslint".to_string()]));
    assert_eq!(Project::new(None, None).list_bins(), None);
    assert_eq!(PackageManager::list_bins(None), None);
    assert_eq!(PackageManager::list_bins(Some(&p)).map(|v| v.len()), Some(2));
}
