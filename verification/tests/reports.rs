use oura::engine::{IterationResult, LoopState, LoopStatus, OuraConfig};
use oura::reports::{
    cleanup_allowed, cleanup_done, cleanup_report, code_report, iteration_report, project_depth, project_report,
    security_report, select_results, start_report, status_report, stop_report, FileAnalysis,
};
use oura::types::{FeedbackEntry, FeedbackKind, SecurityAuditEntry};
use oura::reports::verify_report;

fn result(iteration: u32, score: u32, status: LoopStatus, feedback: Vec<FeedbackEntry>) -> IterationResult {
    IterationResult {
        iteration,
        status,
        started_at: "s".into(),
        completed_at: Some("c".into()),
        actions: vec![],
        feedback,
        score,
    }
}

fn fb(kind: FeedbackKind, source: &str, message: &str) -> FeedbackEntry {
    FeedbackEntry { source: source.into(), kind, message: message.into(), details: None, metric: None, threshold: None }
}

#[test]
fn iteration_report_text() {
    let r = result(
        2,
        80,
        LoopStatus::Completed,
        vec![fb(FeedbackKind::Error, "tests", "1 failed"), fb(FeedbackKind::Warning, "clippy", "w")],
    );
    assert_eq!(
        iteration_report(&r),
        "Iteration #2 - Score: 80.0/100\nFeedback: 1 errors, 1 warnings\n  [error] tests: 1 failed\n  [warning] clippy: w\n\n*** CONVERGED ***"
    );
}

#[test]
fn status_and_stop_reports() {
    let state = LoopState {
        id: "id".into(),
        goal: "g".into(),
        config: OuraConfig::default(),
        current_iteration: 1,
        history: vec![result(1, 95, LoopStatus::Running, vec![])],
        status: LoopStatus::Running,
        start_time: "t".into(),
    };
    assert_eq!(
        status_report(&state),
        "Status: running\nGoal: g\nLoop ID: id\nCurrent Iteration: 1\nStarted: t\nLast Iteration: #1 (score: 95.0/100)"
    );
    assert_eq!(start_report(true, "g", &state), "Loop started in manual mode: g\nLoop ID: id\nStatus: running");
    assert_eq!(stop_report(3), "Loop stopped after 3 iterations");
}

#[test]
fn results_filter() {
    let rs = vec![
        result(1, 10, LoopStatus::Running, vec![]),
        result(2, 20, LoopStatus::Running, vec![]),
        result(2, 30, LoopStatus::Running, vec![]),
    ];
    let two = select_results(rs.clone(), Some(2));
    assert_eq!(two.len(), 2);
    assert_eq!(two[1].score, 30);
    assert_eq!(select_results(rs.clone(), Some(0)).len(), 3);
    assert_eq!(select_results(rs.clone(), None).len(), 3);
    assert_eq!(select_results(rs, Some((1u64 << 32) + 1)).len(), 1);
}

#[test]
fn security_report_text() {
    assert_eq!(security_report(&vec![], &vec![]), "Security scan complete: no vulnerabilities found");
    let f = SecurityAuditEntry {
        type_: "xss".into(),
        severity: "high".into(),
        file: "a.js".into(),
        line: Some(3),
        description: "d".into(),
        recommendation: "r".into(),
    };
    assert_eq!(
        security_report(&vec![f], &vec!["x.js".to_string()]),
        "Security scan complete: 1 issues found\n  Critical: 0\n  High: 1\n  Medium: 0\n  Low: 0\n\n[HIGH] a.js:3 - d\n  => r\nSkipped 1 files (not found): x.js\n"
    );
}

#[test]
fn code_report_text() {
    assert_eq!(code_report(&vec![], &vec![]), "Code analysis passed: no clean code violations detected");
    let fa = FileAnalysis { file: "a.rs".into(), issues: vec!["long".into()], suggestions: vec!["split".into()] };
    let clean = FileAnalysis { file: "b.rs".into(), issues: vec![], suggestions: vec!["x".into()] };
    assert_eq!(
        code_report(&vec![fa, clean], &vec![]),
        "Code Analysis Results:\n  a.rs:\n    [ISSUE] long\n    [SUGGEST] split\n"
    );
}

#[test]
fn cleanup_reports() {
    assert_eq!(cleanup_allowed(true, false), Ok(false));
    assert_eq!(cleanup_allowed(true, true), Ok(false));
    assert_eq!(cleanup_allowed(false, true), Ok(true));
    assert_eq!(cleanup_allowed(false, false).unwrap_err().0, -32602);
    assert_eq!(cleanup_report(&vec![], 0), "No files to clean up.");
    let cs = vec![("/a/x.log".to_string(), "file".to_string())];
    assert_eq!(cleanup_report(&cs, 2048), "Found 1 candidates (2.0KB):\n  [file] /a/x.log\n");
    assert_eq!(cleanup_done(1, 512), "\nCleaned: 1 items, freed 512.0B\n");
}

#[test]
fn project_overview() {
    assert_eq!(project_depth(None), 4);
    assert_eq!(project_depth(Some(50)), 10);
    let entries = vec![
        ("src".to_string(), 0, true, 0),
        ("main.rs".to_string(), 1, false, 200_000),
        ("Cargo.toml".to_string(), 0, false, 10),
        ("lib".to_string(), 1, true, 0),
        ("deep.rs".to_string(), 2, false, 5),
    ];
    let r = project_report(
        "p",
        "/x/p",
        1536,
        Some("# T\nline\r\n"),
        Some(2),
        &vec!["Cargo.toml".to_string()],
        &entries,
        4,
    );
    assert_eq!(
        r,
        "[p] (/x/p)\n   Size: 1.5KB\n   README: 10 chars\n# T\nline\n   docs/: 2 files\n   Config: Cargo.toml\n    main.rs (195.3KB)\n  + lib\n      deep.rs (5.0B)\n\n   Large files (>100KB): 1\n"
    );
}

#[test]
fn verify_reports() {
    assert_eq!(verify_report("", &vec![], &vec![], true, true), "No issues found");
    assert_eq!(
        verify_report("S", &vec!["a: restricted license (AGPL-3.0)".to_string()], &vec!["b: unstable version (\"0.1\")".to_string()], true, false),
        "S\nLicense issues:\n  a: restricted license (AGPL-3.0)"
    );
    assert_eq!(
        verify_report("S", &vec![], &vec!["x".to_string(), "y".to_string()], true, true),
        "S\nVersion issues:\n  x\n  y"
    );
}
