use unpm::detect::{
    detect_by_install_metadata, detect_by_lockfile, detect_package_manager,
    detect_with_strategies, detection_paths, determine_package_manager, DetectionStrategy,
    DirFacts,
};
use unpm::enums::PackageManager;

fn dir(files: &[&str], dirs: &[&str], package_json: Option<&str>) -> DirFacts {
    DirFacts {
        files: files.iter().map(|s| s.to_string()).collect(),
        dirs: dirs.iter().map(|s| s.to_string()).collect(),
        package_json: package_json.map(|s| s.to_string()),
    }
}

fn detect_as_name(dirs: Vec<DirFacts>, strategies: Option<&Vec<DetectionStrategy>>) -> Option<String> {
    detect_package_manager(&dirs, strategies).map(|pm| pm.to_string())
}

#[test]
fn detect_lockfile_fixtures() {
    let cases = [
        (dir(&["bun.lockb", "package.json"], &[], Some("{}")), Some("bun")),
        (dir(&["package-lock.json", "package.json"], &[], Some("{}")), Some("npm")),
        (dir(&["pnpm-lock.yaml", "package.json"], &[], Some("{}")), Some("pnpm")),
        (dir(&["yarn.lock", "package.json"], &[], Some("{}")), Some("yarn")),
        (dir(&["yarn.lock", ".yarnrc.yml", "package.json"], &[], Some("{}")), Some("yarn")),
        (dir(&["package.json"], &[], Some("{}")), None),
    ];

    for (facts, expected) in cases {
        let actual = detect_as_name(vec![facts], None);
        assert_eq!(actual.as_deref(), expected);
    }
}

fn with_field(field: &str) -> DirFacts {
    let text = format!("{{\"name\": \"fixture\", \"packageManager\": \"{field}\"}}");
    dir(&["package.json"], &[], Some(&text))
}

#[test]
fn detect_package_manager_field_fixtures() {
    let cases = [
        (with_field("bun@1.2.0"), Some("bun")),
        (with_field("npm@10.9.2"), Some("npm")),
        (with_field("pnpm@10.6.0"), Some("pnpm")),
        (with_field("^pnpm@10.6.0"), Some("pnpm")),
        (with_field("yarn@1.22.22"), Some("yarn")),
        (with_field("yarn@4.7.0"), Some("yarn-berry")),
        (dir(&["package.json"], &[], Some("{\"name\": \"fixture\"}")), None),
    ];

    for (facts, expected) in cases {
        let actual = detect_as_name(vec![facts], None);
        assert_eq!(actual.as_deref(), expected);
    }
}

fn with_dev_engines(name: &str, version: &str) -> DirFacts {
    let text = format!(
        "{{\"devEngines\": {{\"packageManager\": {{\"name\": \"{name}\", \"version\": \"{version}\"}}}}}}"
    );
    dir(&["package.json"], &[], Some(&text))
}

#[test]
fn detect_dev_engines_fixtures() {
    let cases = [
        (with_dev_engines("bun", "1.2.0"), Some("bun")),
        (with_dev_engines("npm", "10.9.2"), Some("npm")),
        (with_dev_engines("pnpm", "10.6.0"), Some("pnpm")),
        (with_dev_engines("pnpm", "^10.0.0"), Some("pnpm")),
        (with_dev_engines("yarn", "1.22.22"), Some("yarn")),
        (with_dev_engines("yarn", "^4.0.0"), Some("yarn-berry")),
        (dir(&["package.json"], &[], Some("{\"devEngines\": {}}")), None),
    ];

    for (facts, expected) in cases {
        let actual = detect_as_name(vec![facts], None);
        assert_eq!(actual.as_deref(), expected);
    }
}

#[test]
fn detect_install_metadata_fixtures() {
    let cases = [
        (dir(&["bun.lockb"], &[], None), Some("bun")),
        (dir(&["node_modules/.package-lock.json"], &[], None), Some("npm")),
        (dir(&[], &["node_modules/.pnpm/"], None), Some("pnpm")),
        (dir(&["node_modules/.yarn_integrity"], &[], None), Some("yarn")),
        (dir(&["node_modules/.yarn-state.yml"], &[], None), Some("yarn-berry")),
        (dir(&[".pnp.js"], &[], None), Some("yarn-berry")),
        (dir(&[".pnp.cjs"], &[], None), Some("yarn-berry")),
        (dir(&[], &[], None), None),
    ];

    let strategies = vec![
        DetectionStrategy::InstallMetadata,
        DetectionStrategy::Lockfile,
        DetectionStrategy::PackageManagerField,
        DetectionStrategy::DevEnginesField,
    ];

    for (facts, expected) in cases {
        let actual = detect_as_name(vec![facts], Some(&strategies));
        assert_eq!(actual.as_deref(), expected);
    }
}

#[test]
fn yarn_lock_defers_to_package_json_fields() {
    let facts = dir(&["yarn.lock", "package.json"], &[], Some("{\"packageManager\": \"yarn@3.6.0\"}"));
    assert_eq!(
        detect_with_strategies(&facts, &DetectionStrategy::default()),
        Some(PackageManager::YarnBerry)
    );
    let only_lockfile = vec![DetectionStrategy::Lockfile];
    assert_eq!(detect_with_strategies(&facts, &only_lockfile), Some(PackageManager::Yarn));
}

#[test]
fn lockfile_order_decides_between_lockfiles() {
    let facts = dir(&["package-lock.json", "pnpm-lock.yaml", "bun.lock"], &[], None);
    assert_eq!(detect_by_lockfile(&facts), Some(PackageManager::Bun));
    let facts = dir(&["package-lock.json", "pnpm-workspace.yaml"], &[], None);
    assert_eq!(detect_by_lockfile(&facts), Some(PackageManager::Pnpm));
    let facts = dir(&["npm-shrinkwrap.json"], &[], None);
    assert_eq!(detect_by_lockfile(&facts), Some(PackageManager::Npm));
}

#[test]
fn install_metadata_directory_must_be_a_directory() {
    let facts = dir(&["node_modules/.pnpm/"], &[], None);
    assert_eq!(detect_by_install_metadata(&facts), None);
}

#[test]
fn nearest_directory_decides() {
    let dirs = vec![
        dir(&["package.json"], &[], Some("{}")),
        dir(&["pnpm-lock.yaml"], &[], None),
        dir(&["package-lock.json"], &[], None),
    ];
    assert_eq!(detect_as_name(dirs, None).as_deref(), Some("pnpm"));
}

#[test]
fn default_strategies_skip_install_metadata() {
    let dirs = vec![dir(&[".pnp.cjs"], &[], None)];
    assert_eq!(detect_as_name(dirs, None), None);
}

#[test]
fn dev_engines_come_before_package_manager_field_by_default() {
    let text = "{\"packageManager\": \"npm@10.0.0\", \"devEngines\": {\"packageManager\": {\"name\": \"bun\"}}}";
    let dirs = vec![dir(&["package.json"], &[], Some(text))];
    assert_eq!(detect_as_name(dirs, None).as_deref(), Some("bun"));
}

#[test]
fn determine_reads_yarn_major_version() {
    assert_eq!(determine_package_manager("yarn", "2.0.0"), Some(PackageManager::YarnBerry));
    assert_eq!(determine_package_manager("yarn", "v10.1"), Some(PackageManager::YarnBerry));
    assert_eq!(determine_package_manager("yarn", "1.22.22"), Some(PackageManager::Yarn));
    assert_eq!(determine_package_manager("yarn", ""), Some(PackageManager::Yarn));
    assert_eq!(determine_package_manager("yarn", "latest"), Some(PackageManager::Yarn));
    assert_eq!(
        determine_package_manager("yarn", "99999999999999999999999.0"),
        Some(PackageManager::Yarn)
    );
    assert_eq!(determine_package_manager("pnpm", "1.0.0"), Some(PackageManager::Pnpm));
    assert_eq!(determine_package_manager("Yarn", "4.0.0"), None);
    assert_eq!(determine_package_manager("deno", "2.0.0"), None);
}

#[test]
fn detection_paths_list_every_probed_path() {
    let paths = detection_paths();
    assert_eq!(paths.len(), 15);
    assert_eq!(paths[0], "bun.lock");
    assert_eq!(paths[7], "node_modules/.pnpm/");
    assert_eq!(paths[14], "bun.lockb");
}

#[test]
fn first_strategy_that_finds_decides() {
    let facts = dir(
        &["package-lock.json", "package.json"],
        &["node_modules/.pnpm/"],
        Some("{\"packageManager\": \"bun@1.2.0\"}"),
    );
    let field_first = vec![
        DetectionStrategy::DevEnginesField,
        DetectionStrategy::PackageManagerField,
        DetectionStrategy::Lockfile,
        DetectionStrategy::InstallMetadata,
    ];
    assert_eq!(detect_with_strategies(&facts, &field_first), Some(PackageManager::Bun));
    let metadata_first = vec![DetectionStrategy::InstallMetadata, DetectionStrategy::Lockfile];
    assert_eq!(detect_with_strategies(&facts, &metadata_first), Some(PackageManager::Pnpm));
    let lockfile_first = vec![DetectionStrategy::Lockfile, DetectionStrategy::PackageManagerField];
    assert_eq!(detect_with_strategies(&facts, &lockfile_first), Some(PackageManager::Npm));
    let finds_nothing = vec![DetectionStrategy::DevEnginesField];
    assert_eq!(detect_with_strategies(&facts, &finds_nothing), None);
}
