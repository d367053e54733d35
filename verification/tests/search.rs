use unpm::cli::MainArgs;
use unpm::context::{Config, Context};
use unpm::enums::PackageManager;
use unpm::search::{search_candidates, PackageInfo, SearchPackage, SEARCH_SIZE};

fn ctx(registry: Option<&str>) -> Context {
    let args = MainArgs { config: None, pm: None, runner: None, dry_run: false };
    let config = registry.map(|r| Config { pm: None, runner: None, registry: Some(r.to_string()) });
    Context::new(&args, &config)
}

fn info(name: &str, version: &str, updated: &str, description: &str) -> PackageInfo {
    PackageInfo {
        name: name.to_string(),
        description: description.to_string(),
        version: version.to_string(),
        updated: updated.to_string(),
    }
}

#[test]
fn search_needs_two_to_sixty_four_bytes() {
    let c = ctx(None);
    assert!(PackageManager::search_npm_registry(&c, None).is_none());
    assert!(PackageManager::search_npm_registry(&c, Some("l")).is_none());
    assert!(PackageManager::search_npm_registry(&c, Some(&"a".repeat(65))).is_none());
    let req = PackageManager::search_npm_registry(&c, Some("lo")).expect("searchable");
    assert_eq!(req.base_url, "https://registry.npmjs.org");
    assert_eq!(req.text, "lo");
    assert_eq!(req.size, Some(SEARCH_SIZE));
    assert_eq!(req.from, None);
    assert!(PackageManager::search_npm_registry(&c, Some(&"a".repeat(64))).is_some());
    assert!(PackageManager::search_npm_registry(&c, Some("é")).is_some());
}

#[test]
fn search_uses_configured_registry() {
    let c = ctx(Some("https://registry.npmmirror.com"));
    let req = PackageManager::search_npm_registry(&c, Some("react")).expect("searchable");
    assert_eq!(req.base_url, "https://registry.npmmirror.com");
}

#[test]
fn search_result_needs_a_package_name() {
    assert!(PackageInfo::from_search_object(None, Some("2024-01-01".to_string())).is_none());
    let nameless = SearchPackage { name: None, description: Some("x".to_string()), version: None };
    assert!(PackageInfo::from_search_object(Some(nameless), None).is_none());
    let pkg = SearchPackage { name: Some("lodash".to_string()), description: None, version: None };
    let i = PackageInfo::from_search_object(Some(pkg), None).expect("named package");
    assert_eq!(i.name, "lodash");
    assert_eq!(i.description, "");
    assert_eq!(i.version, "");
    assert_eq!(i.updated, "");
}

#[test]
fn candidates_pad_versions_to_the_longest() {
    let pkgs = vec![
        info("lodash", "4.17.21", "2021-02-20", "Lodash modular utilities."),
        info("lo", "1.0", "2020-01-01", "tiny"),
    ];
    let c = search_candidates(&pkgs);
    assert_eq!(c[0].0, "lodash");
    assert_eq!(c[0].1, "[v4.17.21 | 2021-02-20] Lodash modular utilities.");
    assert_eq!(c[1].0, "lo");
    assert_eq!(c[1].1, "[   v1.0 | 2020-01-01] tiny");
    assert!(search_candidates(&vec![]).is_empty());
}

#[test]
fn search_url_has_endpoint_and_pairs() {
    let c = ctx(None);
    let req = PackageManager::search_npm_registry(&c, Some("lo dash")).expect("searchable");
    assert_eq!(
        unpm::search::search_url(&req).as_deref(),
        Some("https://registry.npmjs.org/-/v1/search?text=lo+dash&size=20")
    );
    let req = unpm::search::SearchRequest {
        base_url: "https://registry.npmmirror.com/mirror".to_string(),
        text: "react".to_string(),
        size: None,
        from: Some(-3),
    };
    assert_eq!(
        unpm::search::search_url(&req).as_deref(),
        Some("https://registry.npmmirror.com/-/v1/search?text=react&from=-3")
    );
    let bad = unpm::search::SearchRequest {
        base_url: "not a url".to_string(),
        text: "x".to_string(),
        size: Some(20),
        from: None,
    };
    assert_eq!(unpm::search::search_url(&bad), None);
}

fn object(name: Option<&str>, updated: Option<&str>) -> unpm::search::SearchObject {
    unpm::search::SearchObject {
        package: Some(SearchPackage {
            name: name.map(|s| s.to_string()),
            description: Some("d".to_string()),
            version: Some("1.0.0".to_string()),
        }),
        updated: updated.map(|s| s.to_string()),
    }
}

#[test]
fn reply_days_are_read_from_update_times() {
    let objects = vec![
        object(Some("a"), Some("2024-03-05T10:11:12.000Z")),
        object(None, Some("2020-01-01T00:00:00Z")),
        object(Some("b"), None),
        object(Some("c"), Some("2023-12-31T23:30:00-02:00")),
    ];
    let infos = PackageInfo::from_search_reply(&objects).expect("all times read");
    let got: Vec<(String, String)> = infos.into_iter().map(|i| (i.name, i.updated)).collect();
    assert_eq!(
        got,
        vec![
            ("a".to_string(), "2024-03-05".to_string()),
            ("b".to_string(), String::new()),
            ("c".to_string(), "2024-01-01".to_string()),
        ]
    );
}

#[test]
fn reply_with_an_unreadable_time_is_refused() {
    let objects = vec![object(Some("a"), None), object(Some("b"), Some("yesterday"))];
    assert!(PackageInfo::from_search_reply(&objects).is_none());
    assert!(PackageInfo::from_search_reply(&vec![]).expect("empty reply").is_empty());
}
