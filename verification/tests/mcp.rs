use oura::events::{format_event, frame, frame_len, OuraEvent};
use oura::github::{client_token, pr_title, poll_step, pulls_url, repos, workflow_runs_url, GitHubRepo, PollStep, SynapsisBridge};
use oura::config::GitHubConfig;
use oura::mcp::{
    check_working_dir, is_private_ip, list_tools, mcp_call_host, mcp_call_url, method_not_found, route_method,
    route_resource, route_tool, start_loop_prompt, supported_protocol, tool_name_str, unknown_tool, IpAddress, Method,
    Resource, Tool,
};
use oura::mcp::{behind_count, update_branch};
use oura::mcp::{update_answer, update_begin, update_step, StepOutcome, UpdateAction, UpdateStage};
use oura::mcp::tool_description;
use oura::mcp::host_name;
use oura::mcp::endpoint_url;

#[test]
fn methods_route() {
    assert_eq!(route_method("initialize"), Method::Initialize);
    assert_eq!(route_method("tools/call"), Method::ToolsCall);
    assert_eq!(route_method("ping"), Method::Ping);
    assert_eq!(route_method("tools/lists"), Method::Unknown);
    assert_eq!(method_not_found("x/y"), (-32601, "Method not found: x/y".to_string()));
}

#[test]
fn every_listed_tool_routes_to_itself() {
    let tools = list_tools();
    assert_eq!(tools.len(), 12);
    assert_eq!(tool_name_str(tools[0]), "oura_start_loop");
    assert_eq!(tool_name_str(tools[11]), "oura_guard_destructive");
    for t in tools {
        assert_eq!(route_tool(tool_name_str(t)), t);
    }
    assert!(!list_tools().contains(&Tool::McpCall));
    assert_eq!(route_tool("mcp_call"), Tool::McpCall);
    assert_eq!(route_tool("oura_update"), Tool::Update);
    assert_eq!(route_tool("oura_connector"), Tool::Connector);
    assert_eq!(route_tool("oura_fly"), Tool::Unknown);
    assert_eq!(unknown_tool("oura_fly"), (-32602, "Unknown tool: oura_fly".to_string()));
}

#[test]
fn resources_and_protocols() {
    assert_eq!(route_resource("oura://state"), Resource::State);
    assert_eq!(route_resource("oura://config"), Resource::Config);
    assert_eq!(route_resource("oura://other"), Resource::Unknown);
    assert!(supported_protocol("2024-11-05"));
    assert!(supported_protocol("2025-03-26"));
    assert!(!supported_protocol("unknown"));
}

#[test]
fn prompt_text() {
    let p = start_loop_prompt(None);
    assert!(p.starts_with("I want to start an Oura iteration loop to: improve codebase\n\n"));
    assert!(start_loop_prompt(Some("speed")).contains("goal=\"speed\""));
}

#[test]
fn private_hosts() {
    assert!(is_private_ip("localhost", None));
    assert!(is_private_ip("db.internal", None));
    assert!(is_private_ip("printer.local", None));
    assert!(is_private_ip("10.1.2.3", Some(IpAddress::V4(10, 1, 2, 3))));
    assert!(is_private_ip("172.20.0.1", Some(IpAddress::V4(172, 20, 0, 1))));
    assert!(!is_private_ip("172.32.0.1", Some(IpAddress::V4(172, 32, 0, 1))));
    assert!(is_private_ip("169.254.1.1", Some(IpAddress::V4(169, 254, 1, 1))));
    assert!(is_private_ip("fe80::1", Some(IpAddress::V6(0xfe80, 0, 0, 0, 0, 0, 0, 1))));
    assert!(!is_private_ip("2001:db8::1", Some(IpAddress::V6(0x2001, 0xdb8, 0, 0, 0, 0, 0, 1))));
    assert!(is_private_ip("fd00::1", Some(IpAddress::V6(0xfd00, 0, 0, 0, 0, 0, 0, 1))));
    assert!(is_private_ip("fc00::5", Some(IpAddress::V6(0xfc00, 0, 0, 0, 0, 0, 0, 5))));
    assert!(!is_private_ip("fe00::1", Some(IpAddress::V6(0xfe00, 0, 0, 0, 0, 0, 0, 1))));
    assert!(is_private_ip("[::1]", None));
    assert!(is_private_ip("[fd12::7]", Some(IpAddress::V6(0xfd12, 0, 0, 0, 0, 0, 0, 7))));
    assert!(!is_private_ip("[2001:db8::1]", Some(IpAddress::V6(0x2001, 0xdb8, 0, 0, 0, 0, 0, 1))));
    assert!(!is_private_ip("example.com", None));
}

#[test]
fn mcp_call_checks() {
    assert_eq!(mcp_call_host(Some("http://example.com:7438/")), Ok("example.com".to_string()));
    assert_eq!(mcp_call_host(None).unwrap_err().1, "Missing required parameter: server_url");
    let bad = mcp_call_host(Some("not a url")).unwrap_err();
    assert_eq!(bad.0, -32602);
    assert!(bad.1.starts_with("Invalid server_url: "));
    assert_eq!(mcp_call_host(Some("http://[::1]:80/")), Ok("[::1]".to_string()));
    assert_eq!(host_name("[::1]"), "::1");
    assert_eq!(host_name("example.com"), "example.com");
    assert_eq!(host_name("["), "[");
    let loopback = mcp_call_url("http://[::1]:7438", "[::1]", Some(IpAddress::V6(0, 0, 0, 0, 0, 0, 0, 1)), Some("t"), None)
        .unwrap_err();
    assert_eq!(loopback.0, -32602);
    assert_eq!(loopback.1, "SSRF protection: requests to private/local addresses are blocked");
    let blocked = mcp_call_url("http://localhost/", "localhost", None, Some("t"), None).unwrap_err();
    assert_eq!(blocked.1, "SSRF protection: requests to private/local addresses are blocked");
    assert!(mcp_call_url("http://x", "", None, Some("t"), None).is_err());
    let no_tool = mcp_call_url("http://example.com", "example.com", None, None, None).unwrap_err();
    assert_eq!(no_tool.1, "Missing required parameter: tool_name");
    assert_eq!(
        mcp_call_url("http://example.com//", "example.com", None, Some("t"), None),
        Ok("http://example.com/message".to_string())
    );
    assert_eq!(
        mcp_call_url("http://example.com", "example.com", None, Some("t"), Some("/rpc")),
        Ok("http://example.com/rpc".to_string())
    );
}

#[test]
fn working_dir_refuses_system_directories() {
    assert!(check_working_dir("/proc").is_err());
    assert!(check_working_dir("/sys/kernel").is_err());
    assert!(check_working_dir("/dev/null").is_err());
    assert!(check_working_dir("/procfs").is_ok());
    assert!(check_working_dir("/home/me").is_ok());
}

#[test]
fn event_lines() {
    let e = OuraEvent::IterationCompleted {
        loop_id: "L".into(),
        iteration: 2,
        score: 85,
        status: "running".into(),
        timestamp: "T".into(),
    };
    assert_eq!(format_event(&e), "Loop L iteration 2 completed: score 85.0, status running");
    assert_eq!(e.timestamp(), "T");
    let e = OuraEvent::Error { loop_id: None, message: "boom".into(), timestamp: "T".into() };
    assert_eq!(format_event(&e), "Error: boom");
    let e = OuraEvent::LoopCompleted { loop_id: "L".into(), iterations: 3, final_score: 95, timestamp: "T".into() };
    assert_eq!(format_event(&e), "Loop L completed: 3 iterations, score 95.0");
}

#[test]
fn frames_round_trip() {
    let body = vec![1u8; 300];
    let f = frame(&body);
    assert_eq!(&f[..4], &[0, 0, 1, 44]);
    assert_eq!(&f[4..], &body[..]);
    assert_eq!(frame_len(&[f[0], f[1], f[2], f[3]]), 300);
    assert_eq!(frame_len(&[1, 2, 3, 4]), 0x01020304);
    assert_eq!(u32::from_be_bytes([f[0], f[1], f[2], f[3]]), 300);
}

fn repo(owner: &str, name: &str) -> GitHubRepo {
    GitHubRepo {
        owner: owner.into(),
        repo: name.into(),
        branch: "dev".into(),
        base_branch: "main".into(),
        local_path: None,
    }
}

#[test]
fn github_repos_and_urls() {
    let mut gh = GitHubConfig::default();
    gh.default_owner = "me".into();
    gh.default_repo = "p".into();
    let r = repos(&vec![repo("a", "b")], &gh);
    assert_eq!(r.len(), 2);
    assert_eq!(r[1].owner, "me");
    assert_eq!(r[1].branch, "main");
    let r = repos(&vec![repo("me", "p")], &gh);
    assert_eq!(r.len(), 1);
    assert_eq!(r[0].branch, "dev");
    assert_eq!(pr_title(&gh, "fix"), "[Oura] fix");
    assert_eq!(pulls_url("o", "r"), "https://api.github.com/repos/o/r/pulls");
    assert_eq!(
        workflow_runs_url("o", "r", Some("main")),
        "https://api.github.com/repos/o/r/actions/runs?branch=main"
    );
    assert_eq!(client_token(&gh, Some("env".into()), None), None);
    gh.enabled = true;
    assert_eq!(client_token(&gh, Some("env".into()), Some("gh".into())), Some("env".to_string()));
    assert_eq!(client_token(&gh, None, Some("gh".into())), Some("gh".to_string()));
    gh.token = Some("cfg".into());
    assert_eq!(client_token(&gh, Some("env".into()), None), Some("cfg".to_string()));
}

#[test]
fn workflow_polling() {
    assert!(matches!(poll_step(Some("completed"), Some("success".into()), 0, 3), PollStep::Done(Some(c)) if c == "success"));
    assert!(matches!(poll_step(Some("queued"), None, 0, 3), PollStep::Again));
    assert!(matches!(poll_step(None, None, 2, 3), PollStep::GiveUp));
}

#[test]
fn synapsis_bridge() {
    let b = SynapsisBridge::new(true, None);
    assert_eq!(b.memory_url(), Some("http://localhost:7438/memory/save".to_string()));
    let off = SynapsisBridge::new(false, Some("http://m".into()));
    assert_eq!(off.memory_url(), None);
    assert_eq!(off.endpoint(), "http://m");
}

#[test]
fn update_decisions() {
    assert_eq!(update_branch(Some("feature\n")), "feature");
    assert_eq!(update_branch(Some("HEAD\n")), "main");
    assert_eq!(update_branch(Some("  ")), "main");
    assert_eq!(update_branch(None), "main");
    assert_eq!(behind_count(Some("3\n")), 3);
    assert_eq!(behind_count(Some("0")), 0);
    assert_eq!(behind_count(Some("-2")), -2);
    assert_eq!(behind_count(Some("+7 ")), 7);
    assert_eq!(behind_count(Some("?")), -1);
    assert_eq!(behind_count(Some("99999999999")), -1);
    assert_eq!(behind_count(Some("-2147483648")), i32::MIN);
    assert_eq!(behind_count(None), -1);
}

#[test]
fn tool_catalogue() {
    assert_eq!(tool_description(Tool::LoopStop), "Stop the currently running loop");
    assert!(tool_description(Tool::Cleanup).contains("dry-run"));
    assert_eq!(tool_name_str(Tool::McpCall), "mcp_call");
}

#[test]
fn endpoint_addresses() {
    assert_eq!(endpoint_url("http://h:1///", "/message"), "http://h:1/message");
    assert_eq!(endpoint_url("http://h", "/rpc"), "http://h/rpc");
}

#[test]
fn workflow_run_address() {
    assert_eq!(
        oura::github::workflow_run_url("o", "r", 42),
        "https://api.github.com/repos/o/r/actions/runs/42"
    );
    assert_eq!(
        oura::github::dispatch_url("o", "r", "ci.yml"),
        "https://api.github.com/repos/o/r/actions/workflows/ci.yml/dispatches"
    );
}

#[test]
fn update_begins_only_in_a_git_repository() {
    let (stage, action, text) = update_begin(false, "0.3.1");
    assert_eq!((stage, action), (UpdateStage::Failed, UpdateAction::Finish));
    assert_eq!(text, "Not a git repository. Can't auto-update.");
    let (stage, action, text) = update_begin(true, "0.3.1");
    assert_eq!((stage, action), (UpdateStage::Fetch, UpdateAction::RunFetch));
    assert_eq!(text, "Oura v0.3.1 - checking for updates...\n");
}

#[test]
fn update_applies_when_behind_and_asked() {
    let (s, a, t) = update_step(UpdateStage::Fetch, StepOutcome::Succeeded, true, "main");
    assert_eq!((s, a), (UpdateStage::Count, UpdateAction::RunCount));
    assert_eq!(t, "Git fetch OK.\n");
    let (s, a, t) = update_step(s, StepOutcome::Printed(Some("3\n".into())), true, "main");
    assert_eq!((s, a), (UpdateStage::Pull, UpdateAction::RunPull));
    assert_eq!(t, "3 commits behind origin/main\nApplying update...\n");
    let (s, a, t) = update_step(s, StepOutcome::Succeeded, true, "main");
    assert_eq!((s, a), (UpdateStage::Build, UpdateAction::RunBuild));
    assert_eq!(t, "Git pull OK.\nRunning cargo build --release...\n");
    let (s, a, t) = update_step(s, StepOutcome::Failed("error[E0425]".into()), true, "main");
    assert_eq!((s, a), (UpdateStage::Failed, UpdateAction::Finish));
    assert_eq!(t, "Build failed: error[E0425]\n");
    let (_, _, t) = update_step(UpdateStage::Build, StepOutcome::Succeeded, true, "main");
    assert_eq!(t, "Build OK.\n");
}

#[test]
fn update_reports_without_applying() {
    let (s, a, t) = update_step(UpdateStage::Count, StepOutcome::Printed(Some("2".into())), false, "dev");
    assert_eq!((s, a), (UpdateStage::Done, UpdateAction::Finish));
    assert_eq!(t, "2 commits behind origin/dev\nUse oura_update with apply=true to upgrade.\n");
    let (_, a, t) = update_step(UpdateStage::Count, StepOutcome::Printed(Some("0\n".into())), true, "dev");
    assert_eq!(a, UpdateAction::Finish);
    assert_eq!(t, "Already up to date with origin/dev\n");
    let (_, a, t) = update_step(UpdateStage::Count, StepOutcome::Printed(None), true, "dev");
    assert_eq!(a, UpdateAction::Finish);
    assert_eq!(t, "Could not determine update status.\n");
    let (_, _, t) = update_step(UpdateStage::Count, StepOutcome::Printed(Some("fatal".into())), true, "dev");
    assert_eq!(t, "Could not determine update status.\n");
}

#[test]
fn update_stops_after_a_failed_fetch_or_pull() {
    let (s, a, t) = update_step(UpdateStage::Fetch, StepOutcome::Failed("no remote".into()), true, "main");
    assert_eq!((s, a), (UpdateStage::Failed, UpdateAction::Finish));
    assert_eq!(t, "Git fetch: no remote\n");
    let (_, _, t) = update_step(UpdateStage::Fetch, StepOutcome::Error("timed out".into()), true, "main");
    assert_eq!(t, "Git fetch failed: timed out\n");
    let (s, a, t) = update_step(UpdateStage::Pull, StepOutcome::Error("Command timed out".into()), true, "main");
    assert_eq!((s, a), (UpdateStage::Failed, UpdateAction::Finish));
    assert_eq!(t, "Git pull failed: Command timed out\n");
    let (_, _, t) = update_step(UpdateStage::Pull, StepOutcome::Failed("diverged".into()), true, "main");
    assert_eq!(t, "Git pull failed: diverged\n");
    let (s, a, t) = update_step(UpdateStage::Done, StepOutcome::Succeeded, true, "main");
    assert_eq!((s, a, t.as_str()), (UpdateStage::Done, UpdateAction::Finish, ""));
}

#[test]
fn failed_updates_are_answered_as_errors() {
    let (s, _, t) = update_step(UpdateStage::Fetch, StepOutcome::Error("spawn failed".into()), false, "main");
    let report = format!("Oura v1 - checking for updates...\n{}", t);
    assert_eq!(update_answer(s, report.clone()), Err((-32603, report)));
    let (s, _, t) = update_step(UpdateStage::Build, StepOutcome::Succeeded, true, "main");
    assert_eq!(update_answer(s, t.clone()), Ok("Build OK.\n".to_string()));
    let (s, _, t) = update_begin(false, "1");
    assert_eq!(update_answer(s, t).unwrap_err().0, -32603);
    let (s, _, t) = update_step(UpdateStage::Count, StepOutcome::Printed(None), true, "main");
    assert!(update_answer(s, t).is_ok());
}
