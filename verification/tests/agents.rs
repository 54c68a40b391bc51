use oura::agents::{AntiDeletionGuard, AuditFile, RefactorEngine, SecurityAuditor};

fn file(path: &str, content: Option<&str>) -> AuditFile {
    AuditFile { path: path.to_string(), content: content.map(|c| c.to_string()) }
}

#[test]
fn test_security_auditor_creation() {
    let auditor = SecurityAuditor::new();
    let _ = auditor;
}

#[test]
fn test_security_auditor_no_findings() {
    let auditor = SecurityAuditor::new();
    let findings = auditor.audit(&vec![file("clean.js", Some("const x = 1;"))]);
    assert!(findings.is_empty());
}

#[test]
fn test_security_auditor_sql_injection() {
    let auditor = SecurityAuditor::new();
    let findings = auditor.audit(&vec![file("test.js", Some("db.execute('SELECT * FROM users')"))]);
    assert!(!findings.is_empty());
    assert!(findings.iter().any(|f| f.type_ == "sql_injection"));
}

#[test]
fn test_security_auditor_xss() {
    let auditor = SecurityAuditor::new();
    let findings = auditor.audit(&vec![file("test.js", Some("element.innerHTML = userInput"))]);
    assert!(!findings.is_empty());
    assert!(findings.iter().any(|f| f.type_ == "xss"));
}

#[test]
fn test_security_auditor_nonexistent_file() {
    let auditor = SecurityAuditor::new();
    let findings = auditor.audit(&vec![file("/nonexistent/file.js", None)]);
    assert!(findings.is_empty());
}

#[test]
fn test_refactor_engine_creation() {
    let engine = RefactorEngine::new();
    let _ = engine;
}

#[test]
fn test_refactor_engine_clean_code() {
    let engine = RefactorEngine::new();
    let (issues, _) = engine.analyze(Some("const x = 1;"));
    assert!(issues.is_empty());
}

#[test]
fn test_refactor_engine_todo_detection() {
    let engine = RefactorEngine::new();
    let (issues, suggestions) = engine.analyze(Some("// TODO: fix this later"));
    assert!(!issues.is_empty());
    assert!(issues.iter().any(|i| i.contains("TODO")));
    assert!(!suggestions.is_empty());
}

#[test]
fn test_refactor_engine_long_file() {
    let engine = RefactorEngine::new();
    let content = "const x = 1;\n".repeat(600);
    let (issues, _) = engine.analyze(Some(&content));
    assert!(issues.iter().any(|i| i.contains("File too long")));
}

#[test]
fn test_refactor_engine_nonexistent_file() {
    let engine = RefactorEngine::new();
    let (issues, _) = engine.analyze(None);
    assert!(issues.iter().any(|i| i.contains("Cannot read file")));
}

#[test]
fn test_anti_deletion_guard() {
    let guard = AntiDeletionGuard::new();
    let result = guard.check_integrity();
    assert!(result.is_ok());
    assert!(result.unwrap().contains("passed"));
}

#[test]
fn audit_reports_line_of_finding() {
    let auditor = SecurityAuditor::new();
    let findings = auditor.audit(&vec![file("a.js", Some("let a = 1;\nel.innerHTML = x;\n"))]);
    let xss: Vec<_> = findings.iter().filter(|f| f.type_ == "xss").collect();
    assert_eq!(xss.len(), 1);
    assert_eq!(xss[0].line, Some(2));
    assert_eq!(xss[0].file, "a.js");
}

#[test]
fn audit_findings_name_the_file_and_matching_line() {
    let auditor = SecurityAuditor::new();
    let files = vec![
        file("a.txt", Some("element.innerHTML = userInput")),
        file("b.js", Some("const ok = 1;\nelement.innerHTML = userInput\n")),
        file("c.js", None),
    ];
    let findings = auditor.audit(&files);
    assert!(!findings.is_empty());
    for f in &findings {
        assert_eq!(f.file, "b.js");
        assert_eq!(f.line, Some(2));
    }
    assert!(findings.iter().any(|f| f.type_ == "xss"));
}
