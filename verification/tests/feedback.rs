use oura::feedback::{
    clippy_feedback, connector_entry, extract_number, test_feedback, DefaultCommandRunner, ProfileFeedbackCollector,
    TestFeedbackCollector,
};
use oura::types::{FeedbackKind, Metric};
use oura::config::ConnectorConfig;
use oura::feedback::{collector_plan, ConnectorFeedbackCollector};

#[test]
fn test_extract_number_passed() {
    let output = "test result: ok. 5 passed; 0 failed; 0 ignored";
    assert_eq!(extract_number(output, "passed"), 5);
}

#[test]
fn test_extract_number_failed() {
    let output = "test result: FAILED. 3 passed; 2 failed; 0 ignored";
    assert_eq!(extract_number(output, "failed"), 2);
}

#[test]
fn test_extract_number_unknown_label() {
    let output = "test result: ok. 5 passed; 0 failed";
    assert_eq!(extract_number(output, "unknown"), 0);
}

#[test]
fn test_feedback_from_output() {
    let entries = test_feedback(Ok("test result: FAILED. 3 passed; 2 failed; 0 ignored".to_string()));
    assert_eq!(entries.len(), 1);
    assert_eq!(entries[0].kind, FeedbackKind::Error);
    assert_eq!(entries[0].message, "2 tests failed, 3 passed");
    assert_eq!(entries[0].metric, Some(Metric::PassRatio { passed: 3, failed: 2 }));
    assert_eq!(entries[0].threshold, Some(100));
    let ok = test_feedback(Ok("test result: ok. 4 passed; 0 failed".to_string()));
    assert_eq!(ok[0].kind, FeedbackKind::Success);
    assert_eq!(ok[0].message, "All 4 tests passed");
    assert!(ok[0].details.is_none());
    let err = test_feedback(Err("no cargo".to_string()));
    assert_eq!(err[0].message, "Failed to run tests: no cargo");
    assert_eq!(err[0].metric, Some(Metric::Percent(0)));
}

#[test]
fn clippy_feedback_counts() {
    let out = "warning: unused\nerror: bad\nnote: x\n  = warning: deep\n".to_string();
    let entries = clippy_feedback(Ok(out));
    assert_eq!(entries.len(), 1);
    assert_eq!(entries[0].kind, FeedbackKind::Error);
    assert_eq!(entries[0].message, "Clippy: 2 warnings, 1 errors");
    assert!(clippy_feedback(Ok("all good\n".to_string())).is_empty());
}

#[test]
fn connector_entry_results() {
    let ok = connector_entry("status", Ok("hello".to_string()));
    assert_eq!(ok.source, "connector:status");
    assert_eq!(ok.kind, FeedbackKind::Info);
    assert_eq!(ok.message, "Connector status returned (5 chars)");
    let bad = connector_entry("status", Err("down".to_string()));
    assert_eq!(bad.kind, FeedbackKind::Error);
    assert_eq!(bad.message, "Connector status failed: down");
}

#[test]
fn runners_and_collectors_keep_their_directory() {
    let r = DefaultCommandRunner::new_with_dir("/tmp/x".to_string());
    assert_eq!(r.working_dir().map(|s| s.as_str()), Some("/tmp/x"));
    assert!(DefaultCommandRunner::new().working_dir().is_none());
    let p = ProfileFeedbackCollector::new_with_dir("/p".to_string());
    assert_eq!(p.working_dir().map(|s| s.as_str()), Some("/p"));
    let t = TestFeedbackCollector::new(7u8);
    assert_eq!(*t.command_runner(), 7);
}

#[test]
fn collector_plans() {
    let mut conn = ConnectorConfig::default();
    let p = collector_plan(&vec!["test".to_string(), "profile".to_string()], &conn);
    assert!(p.tests && !p.lint && p.profile && !p.connector);
    conn.enabled = true;
    conn.tools = vec!["memory".to_string()];
    let p = collector_plan(&vec![], &conn);
    assert!(!p.tests && p.connector);
    conn.server_url = String::new();
    assert!(!collector_plan(&vec![], &conn).connector);
}

#[test]
fn connector_tools_when_enabled() {
    let mut conn = ConnectorConfig::default();
    conn.tools = vec!["a".to_string()];
    assert!(ConnectorFeedbackCollector::new(conn.clone()).tools_to_call().is_empty());
    conn.enabled = true;
    assert_eq!(ConnectorFeedbackCollector::new(conn).tools_to_call(), vec!["a".to_string()]);
}

#[test]
fn connector_gives_one_entry_per_tool_in_order() {
    let mut config = ConnectorConfig::default();
    config.enabled = true;
    config.tools = vec!["a".to_string(), "b".to_string()];
    let c = ConnectorFeedbackCollector::new(config);
    let entries = c.feedback_from(vec![Err("down".to_string()), Ok("xyz".to_string())]);
    assert_eq!(entries.len(), 2);
    assert_eq!(entries[0].source, "connector:a");
    assert_eq!(entries[0].kind, FeedbackKind::Error);
    assert_eq!(entries[1].source, "connector:b");
    assert_eq!(entries[1].details.as_deref(), Some("xyz"));
    let off = ConnectorFeedbackCollector::new(ConnectorConfig::default());
    assert!(off.tools_to_call().is_empty());
    assert!(off.feedback_from(vec![]).is_empty());
}
