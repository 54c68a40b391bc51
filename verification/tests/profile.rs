use oura::profile::{check_cargo_lock, classify, count_cargo_deps, detect, verify_dependencies, ProjectFacts, ProjectProfile};
use oura::profile::{dependency_total, package_json_dep_count, try_detect, try_verify_dependencies};
use oura::profile::{node_license, package_json_dependencies};

fn facts() -> ProjectFacts {
    ProjectFacts {
        has_cargo_toml: false,
        cargo_toml: None,
        has_package_json: false,
        package_json: None,
        has_python_manifest: false,
        has_cmake_lists: false,
        has_go_mod: false,
        config_files_present: vec![],
        entry_names: vec![],
        readme: None,
    }
}

#[test]
fn test_detect_rust_project() {
    let mut f = facts();
    f.has_cargo_toml = true;
    f.cargo_toml = Some("[package]\nname = \"test\"\n[dependencies]\nserde = \"1.0\"".to_string());
    f.entry_names = vec!["Cargo.toml".to_string()];
    let profile = detect(&f);
    assert_eq!(profile.ecosystem, "rust");
    assert_eq!(profile.dependency_count, 1);
}

#[test]
fn test_detect_node_project() {
    let mut f = facts();
    f.has_package_json = true;
    f.package_json = Some(r#"{"dependencies": {"express": "4.18.0"}}"#.to_string());
    let profile = detect(&f);
    assert_eq!(profile.ecosystem, "node");
    assert_eq!(profile.dependency_count, 1);
}

#[test]
fn test_detect_game_engine() {
    let mut f = facts();
    f.has_cargo_toml = true;
    f.cargo_toml = Some("[dependencies]\nbevy = \"0.12\"".to_string());
    let profile = detect(&f);
    assert!(profile.has_game_engine);
    assert!(profile.indicators.iter().any(|i| i.contains("game-engine")));
}

#[test]
fn test_classify_empty() {
    let result = classify(false, false, &[]);
    assert_eq!(result, "unknown");
}

#[test]
fn test_classify_enterprise() {
    let indicators = vec!["enterprise-config: saml".to_string()];
    let result = classify(true, false, &indicators);
    assert_eq!(result, "enterprise");
}

#[test]
fn test_classify_game_dev() {
    let indicators = vec!["game-engine: rust".to_string()];
    let result = classify(false, false, &indicators);
    assert_eq!(result, "indie");
}

#[test]
fn test_count_cargo_deps() {
    let count = count_cargo_deps("[dependencies]\nserde = \"1.0\"\ntokio = \"1.0\"\n[dev-dependencies]\ntempfile = \"3.0\"");
    assert_eq!(count, 3);
}

#[test]
fn test_verify_dependencies_empty() {
    let report = verify_dependencies(&facts(), None, &vec![]);
    assert!(report.license_issues.is_empty());
    assert!(report.version_issues.is_empty());
}

#[test]
fn test_profile_summary() {
    let profile = ProjectProfile {
        user_type: "indie".to_string(),
        confidence_percent: 80,
        indicators: vec!["test".to_string()],
        ecosystem: "rust".to_string(),
        has_game_engine: false,
        has_paid_tools: false,
        has_enterprise_configs: false,
        dependency_count: 5,
    };
    let summary = profile.summary();
    assert!(summary.contains("indie"));
    assert!(summary.contains("rust"));
}

#[test]
fn profile_summary_text() {
    let profile = ProjectProfile {
        user_type: "indie".to_string(),
        confidence_percent: 50,
        indicators: vec!["a".to_string(), "b".to_string()],
        ecosystem: "rust+node".to_string(),
        has_game_engine: true,
        has_paid_tools: false,
        has_enterprise_configs: false,
        dependency_count: 5,
    };
    assert_eq!(
        profile.summary(),
        "Profile: indie (conf: 50%)\nEcosystem: rust+node\nGame Engine: yes\nPaid Tools: no\nEnterprise: no\nDependencies: 5\nIndicators: a, b"
    );
}

#[test]
fn detect_mixed_project() {
    let mut f = facts();
    f.has_cargo_toml = true;
    f.cargo_toml = Some("[dependencies]\na = \"1\"\nb = \"2\"\n".to_string());
    f.has_package_json = true;
    f.package_json = Some(r#"{"dependencies": {"x": "1", "y": "2"}, "devDependencies": {"z": "3"}}"#.to_string());
    f.has_go_mod = true;
    let profile = detect(&f);
    assert_eq!(profile.ecosystem, "rust+node+go");
    assert_eq!(profile.dependency_count, 5);
    assert_eq!(profile.user_type, "unknown");
}

#[test]
fn cargo_lock_license_issue() {
    let lock = "[[package]]\nname = \"foo\"\nversion = \"1.0.0\"\nlicense = \"AGPL-3.0\"\n\n[[package]]\nname = \"bar\"\nversion = \"0.2.0\"\n";
    let res = check_cargo_lock(lock);
    assert_eq!(res.deps.len(), 2);
    assert_eq!(res.deps[0].name, "foo");
    assert_eq!(res.deps[1].version, "0.2.0");
    assert_eq!(res.license_issues.len(), 1);
    assert_eq!(res.license_issues[0], "foo: restricted license (AGPL-3.0)");
}

#[test]
fn cargo_lock_last_package_is_checked() {
    let lock = "[[package]]\nname = \"x\"\nversion = \"1.0.0\"\nlicense = \"AGPL-3.0\"\n";
    let res = check_cargo_lock(lock);
    assert_eq!(res.deps.len(), 1);
    assert_eq!(res.deps[0].name, "x");
    assert_eq!(res.license_issues, vec!["x: restricted license (AGPL-3.0)".to_string()]);
    let two = "[[package]]\nname = \"a\"\nlicense = \"MIT\"\n[[package]]\nname = \"b\"\nlicense = \"BUSL-1.1\"";
    let res = check_cargo_lock(two);
    assert_eq!(res.deps.len(), 2);
    assert_eq!(res.license_issues, vec!["b: restricted license (BUSL-1.1)".to_string()]);
}

#[test]
fn detect_reads_entry_names_in_lower_case() {
    let mut f = facts();
    f.entry_names = vec!["SAML-Setup.md".to_string(), "Blender-Assets".to_string()];
    let profile = detect(&f);
    assert!(profile.has_enterprise_configs);
    assert!(profile.has_paid_tools);
    assert!(profile.indicators.contains(&"enterprise-pattern: saml".to_string()));
    assert!(profile.indicators.contains(&"paid-tool: blender".to_string()));
}

#[test]
fn test_count_json_deps() {
    let count = package_json_dep_count(r#"{"dependencies": {"express": "4.18.0"}, "devDependencies": {"jest": "29.0.0"}}"#);
    assert_eq!(count, Some(2));
}

#[test]
fn json_dep_count_edges() {
    assert_eq!(package_json_dep_count("not json"), None);
    assert_eq!(package_json_dep_count("{}"), Some(0));
    assert_eq!(package_json_dep_count(r#"{"dependencies": ["a", "b"]}"#), Some(0));
    assert_eq!(package_json_dep_count(r#"{"devDependencies": {"a": "1", "b": "2", "c": "3"}}"#), Some(3));
    assert_eq!(package_json_dep_count("[1, 2]"), Some(0));
}

#[test]
fn unreadable_package_json_counts_nothing() {
    let mut f = facts();
    f.has_package_json = true;
    f.package_json = Some("{ broken".to_string());
    let profile = detect(&f);
    assert_eq!(profile.ecosystem, "node");
    assert_eq!(profile.dependency_count, 0);
    assert_eq!(dependency_total(&f), Some(0));
}

#[test]
fn try_detect_and_verify_give_the_profile() {
    let mut f = facts();
    f.has_cargo_toml = true;
    f.cargo_toml = Some("[dependencies]\na = \"1\"\n".to_string());
    f.has_package_json = true;
    f.package_json = Some(r#"{"dependencies": {"x": "1"}}"#.to_string());
    assert_eq!(dependency_total(&f), Some(2));
    let p = try_detect(&f).unwrap();
    assert_eq!(p.dependency_count, 2);
    assert_eq!(p.ecosystem, "rust+node");
    let report = try_verify_dependencies(&f, Some("[[package]]\nname = \"a\"\nlicense = \"SSPL-1.0\"\n"), &vec![]).unwrap();
    assert_eq!(report.profile.dependency_count, 2);
    assert_eq!(report.license_issues, vec!["a: restricted license (SSPL-1.0)".to_string()]);
}

#[test]
fn flags_come_with_indicators() {
    let mut f = facts();
    f.entry_names = vec!["Unity-Project".to_string()];
    let p = detect(&f);
    if p.has_game_engine || p.has_paid_tools || p.has_enterprise_configs {
        assert!(!p.indicators.is_empty());
    }
    let mut g = facts();
    g.readme = Some("We support SAML login".to_string());
    let q = detect(&g);
    assert!(q.has_enterprise_configs);
    assert_eq!(q.indicators, vec!["readme-enterprise: saml".to_string()]);
    assert_eq!(q.confidence_percent, 50);
}

#[test]
fn package_json_dependencies_are_read_from_the_text() {
    let deps = package_json_dependencies(r#"{"dependencies": {"b": "0.1.0", "a": {"git": "x"}}, "devDependencies": {"c": "1"}}"#);
    assert_eq!(deps.len(), 2);
    assert_eq!(deps[0].name, "a");
    assert_eq!(deps[0].text, None);
    assert_eq!(deps[0].json, r#"{"git":"x"}"#);
    assert_eq!(deps[1].name, "b");
    assert_eq!(deps[1].text.as_deref(), Some("0.1.0"));
    assert_eq!(deps[1].json, "\"0.1.0\"");
    assert!(package_json_dependencies("nope").is_empty());
    assert!(package_json_dependencies("{}").is_empty());
}

#[test]
fn node_license_reads_license_or_first_licenses_type() {
    assert_eq!(node_license(r#"{"license": "MIT"}"#).as_deref(), Some("MIT"));
    assert_eq!(node_license(r#"{"licenses": [{"type": "BSL-1.1"}, {"type": "MIT"}]}"#).as_deref(), Some("BSL-1.1"));
    assert_eq!(node_license(r#"{"license": {"type": "ISC"}}"#), None);
    assert_eq!(node_license(r#"{"name": "x"}"#), None);
    assert_eq!(node_license("not json"), None);
}
