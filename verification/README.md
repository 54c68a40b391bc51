# oura

Oura is an MCP server that drives a refinement loop: it collects feedback
(tests, clippy, the project's profile, tools of other servers), scores each
iteration, and stops when the score converges or the iteration limit is reached.
It also offers a security auditor, a clean-code analyzer, project overviews,
dependency checks and a clean-up of generated files.

`tools/list` offers twelve tools: `oura_start_loop`, `oura_iterate`,
`oura_loop_status`, `oura_loop_stop`, `oura_results`, `oura_configure`,
`oura_plugin_load`, `oura_plugin_list`, `oura_analyze_security`,
`oura_analyze_code`, `oura_check_integrity` and `oura_guard_destructive`. A
`tools/call` also reaches `oura_analyze_project`, `oura_cleanup`, `mcp_call`,
`oura_version`, `oura_update`, `oura_profile`, `oura_verify`, `oura_working_dir`
and `oura_connector`, which are not listed.

The library under `src/` is verified with Verus; `app/` is the server around it.

## Layout

- `src/engine.rs` — the loop: scoring, iteration outcomes, start/stop/time-out,
  and the laws of convergence, limits and numbering.
- `src/feedback.rs` — what test, clippy, profile and connector output becomes as
  feedback; the collectors' settings.
- `src/profile.rs` — project profiling and classification, dependency counting,
  `Cargo.lock` and `package.json` license and version checks.
- `src/agents.rs` — the security auditor, the refactor engine and the integrity
  guard.
- `src/fs_utils.rs` — sizes for display, the bounded directory walks, the
  clean-up candidates.
- `src/mcp.rs` — request and tool routing, the address checks for calls to other
  servers, working-directory checks, update decisions.
- `src/reports.rs` — the text of every tool's answer.
- `src/events.rs` — event lines and the framing of messages sent over QUIC.
- `src/config.rs`, `src/github.rs`, `src/error.rs`, `src/types.rs` — settings,
  GitHub helpers, errors and shared types.
- `src/text.rs`, `src/matching.rs` — text helpers and regular expressions.
- `app/` — `main`, the JSON-RPC loop over stdio, the configuration file, the file
  system, processes, HTTP and QUIC.
- `tests/` — tests of the library.
