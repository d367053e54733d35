use unpm::enums::PackageManager;
use unpm::lists::complete_bins;
use unpm::package::Project;

fn strings(v: &[&str]) -> Vec<String> {
    v.iter().map(|s| s.to_string()).collect()
}

const NPM_OUTPUT: &str = r#"{
  "name": "lib",
  "dependencies": {
    "prettier": { "version": "3.8.3" },
    "pnpm": { "version": "10.0.0" },
    "typescript": { "version": "5.0.0" }
  }
}"#;

const PNPM_OUTPUT: &str = r#"[
  {
    "path": "/home/u/.local/share/pnpm/global/5",
    "dependencies": {
      "prettier": { "from": "prettier", "version": "3.8.3" }
    }
  }
]"#;

#[test]
fn global_dependencies_from_npm_output() {
    let deps = PackageManager::Npm
        .list_global_dependencies(Some("p"), Some(NPM_OUTPUT))
        .expect("expected global packages");
    assert_eq!(
        deps,
        vec![
            ("prettier".to_string(), "global packages".to_string()),
            ("pnpm".to_string(), "global packages".to_string()),
        ]
    );
}

#[test]
fn global_dependencies_from_pnpm_output() {
    let deps = PackageManager::Pnpm
        .list_global_dependencies(None, Some(PNPM_OUTPUT))
        .expect("expected global packages");
    assert_eq!(deps, vec![("prettier".to_string(), "global packages".to_string())]);
}

#[test]
fn global_dependencies_need_npm_or_pnpm_and_valid_output() {
    assert_eq!(PackageManager::Yarn.list_global_dependencies(None, Some(NPM_OUTPUT)), None);
    assert_eq!(PackageManager::Bun.list_global_dependencies(None, Some(NPM_OUTPUT)), None);
    assert_eq!(PackageManager::Npm.list_global_dependencies(None, None), None);
    assert_eq!(PackageManager::Npm.list_global_dependencies(None, Some("oops")), None);
    assert_eq!(PackageManager::Pnpm.list_global_dependencies(None, Some("[]")), None);
    assert_eq!(PackageManager::Npm.list_global_dependencies(None, Some("{}")), None);
    assert_eq!(
        PackageManager::Npm.list_global_dependencies(None, Some(r#"{"dependencies": []}"#)),
        None
    );
}

#[test]
fn global_list_command_asks_for_json() {
    let cmd = PackageManager::Npm.global_list_command().expect("npm lists globals");
    assert_eq!(cmd.program, "npm");
    assert_eq!(cmd.combine_args(), strings(&["list", "--global", "--json"]));
    let cmd = PackageManager::Pnpm.global_list_command().expect("pnpm lists globals");
    assert_eq!(cmd.combine_args(), strings(&["list", "--global", "--json"]));
    assert!(PackageManager::Yarn.global_list_command().is_none());
    assert!(PackageManager::YarnBerry.global_list_command().is_none());
    assert!(PackageManager::Bun.global_list_command().is_none());
}

#[test]
fn bins_are_filtered_and_sorted() {
    let bins = strings(&["tsx", "eslint", "tsc", "prettier", "ts-node"]);
    assert_eq!(complete_bins(bins.clone(), Some("ts")), strings(&["ts-node", "tsc", "tsx"]));
    assert_eq!(
        complete_bins(bins, None),
        strings(&["eslint", "prettier", "ts-node", "tsc", "tsx"])
    );
    assert_eq!(complete_bins(strings(&["b", "a", "B", "a"]), None), strings(&["B", "a", "a", "b"]));
}

#[test]
fn local_lists_need_a_project() {
    assert_eq!(PackageManager::list_scripts(None, None), None);
    assert_eq!(PackageManager::list_local_dependencies(None, None), None);
    let p = Project::new(Some(r#"{"scripts": {"dev": "vite", "lint": null}}"#.to_string()), None);
    assert_eq!(
        PackageManager::list_scripts(None, Some(&p)),
        Some(vec![("dev".to_string(), "vite".to_string())])
    );
    assert_eq!(PackageManager::list_local_dependencies(Some("x"), Some(&p)), Some(vec![]));
}
