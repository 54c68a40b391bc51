use vstd::prelude::*;
use crate::text::{chars_of, decimal, ends_with, ends_with_chars, equal_chars, extend_decimal, extend_str, str_eq, string_of};

verus! {

// ---------------------------------------------------------------------------
// Requests
// ---------------------------------------------------------------------------

/// The methods of the protocol the server answers.
#[derive(PartialEq, Eq, Structural, Clone, Copy, Debug)]
pub enum Method {
    Initialize,
    Initialized,
    ToolsList,
    ToolsCall,
    ResourcesList,
    ResourcesRead,
    PromptsList,
    PromptsGet,
    Ping,
    Unknown,
}

/// The method a request names.
pub open spec fn spec_method(m: Seq<char>) -> Method {
    if m == "initialize"@ {
        Method::Initialize
    } else if m == "initialized"@ {
        Method::Initialized
    } else if m == "tools/list"@ {
        Method::ToolsList
    } else if m == "tools/call"@ {
        Method::ToolsCall
    } else if m == "resources/list"@ {
        Method::ResourcesList
    } else if m == "resources/read"@ {
        Method::ResourcesRead
    } else if m == "prompts/list"@ {
        Method::PromptsList
    } else if m == "prompts/get"@ {
        Method::PromptsGet
    } else if m == "ping"@ {
        Method::Ping
    } else {
        Method::Unknown
    }
}

/// Routes a request by its method name.
pub fn route_method(m: &str) -> (r: Method)
    ensures
        r == spec_method(m@),
{
    if str_eq(m, "initialize") {
        Method::Initialize
    } else if str_eq(m, "initialized") {
        Method::Initialized
    } else if str_eq(m, "tools/list") {
        Method::ToolsList
    } else if str_eq(m, "tools/call") {
        Method::ToolsCall
    } else if str_eq(m, "resources/list") {
        Method::ResourcesList
    } else if str_eq(m, "resources/read") {
        Method::ResourcesRead
    } else if str_eq(m, "prompts/list") {
        Method::PromptsList
    } else if str_eq(m, "prompts/get") {
        Method::PromptsGet
    } else if str_eq(m, "ping") {
        Method::Ping
    } else {
        Method::Unknown
    }
}

/// The error of a request whose method the server does not know.
pub fn method_not_found(m: &str) -> (r: (i32, String))
    ensures
        r.0 == -32601,
        r.1@ == "Method not found: "@ + m@,
{
    let mut v = chars_of("Method not found: ");
    extend_str(&mut v, m);
    (-32601, string_of(&v))
}

/// Whether a client's protocol version is one the server supports.
pub open spec fn spec_supported_protocol(v: Seq<char>) -> bool {
    v == "2024-11-05"@ || v == "2025-03-26"@
}

pub fn supported_protocol(v: &str) -> (r: bool)
    ensures
        r == spec_supported_protocol(v@),
{
    str_eq(v, "2024-11-05") || str_eq(v, "2025-03-26")
}

/// The tools the server offers.
#[derive(PartialEq, Eq, Structural, Clone, Copy, Debug)]
pub enum Tool {
    StartLoop,
    Iterate,
    LoopStatus,
    LoopStop,
    Results,
    Configure,
    PluginLoad,
    PluginList,
    AnalyzeSecurity,
    AnalyzeCode,
    CheckIntegrity,
    GuardDestructive,
    AnalyzeProject,
    Cleanup,
    McpCall,
    Version,
    Update,
    Profile,
    Verify,
    WorkingDir,
    Connector,
    Unknown,
}

/// The name under which a tool is listed and called.
pub open spec fn tool_name(t: Tool) -> Seq<char> {
    match t {
        Tool::StartLoop => "oura_start_loop"@,
        Tool::Iterate => "oura_iterate"@,
        Tool::LoopStatus => "oura_loop_status"@,
        Tool::LoopStop => "oura_loop_stop"@,
        Tool::Results => "oura_results"@,
        Tool::Configure => "oura_configure"@,
        Tool::PluginLoad => "oura_plugin_load"@,
        Tool::PluginList => "oura_plugin_list"@,
        Tool::AnalyzeSecurity => "oura_analyze_security"@,
        Tool::AnalyzeCode => "oura_analyze_code"@,
        Tool::CheckIntegrity => "oura_check_integrity"@,
        Tool::GuardDestructive => "oura_guard_destructive"@,
        Tool::AnalyzeProject => "oura_analyze_project"@,
        Tool::Cleanup => "oura_cleanup"@,
        Tool::McpCall => "mcp_call"@,
        Tool::Version => "oura_version"@,
        Tool::Update => "oura_update"@,
        Tool::Profile => "oura_profile"@,
        Tool::Verify => "oura_verify"@,
        Tool::WorkingDir => "oura_working_dir"@,
        Tool::Connector => "oura_connector"@,
        Tool::Unknown => ""@,
    }
}

/// The tools that `tools/list` offers, in its order.
pub open spec fn listed_tools() -> Seq<Tool> {
    seq![
        Tool::StartLoop,
        Tool::Iterate,
        Tool::LoopStatus,
        Tool::LoopStop,
        Tool::Results,
        Tool::Configure,
        Tool::PluginLoad,
        Tool::PluginList,
        Tool::AnalyzeSecurity,
        Tool::AnalyzeCode,
        Tool::CheckIntegrity,
        Tool::GuardDestructive,
    ]
}

/// The tools a `tools/call` reaches: the listed ones first, then the further
/// tools the server answers without listing them.
pub open spec fn callable_tools() -> Seq<Tool> {
    seq![
        Tool::StartLoop,
        Tool::Iterate,
        Tool::LoopStatus,
        Tool::LoopStop,
        Tool::Results,
        Tool::Configure,
        Tool::PluginLoad,
        Tool::PluginList,
        Tool::AnalyzeSecurity,
        Tool::AnalyzeCode,
        Tool::CheckIntegrity,
        Tool::GuardDestructive,
        Tool::AnalyzeProject,
        Tool::Cleanup,
        Tool::McpCall,
        Tool::Version,
        Tool::Update,
        Tool::Profile,
        Tool::Verify,
        Tool::WorkingDir,
        Tool::Connector,
    ]
}

/// The name of a tool, as text.
pub fn tool_name_str(t: Tool) -> (r: &'static str)
    ensures
        r@ == tool_name(t),
{
    match t {
        Tool::StartLoop => "oura_start_loop",
        Tool::Iterate => "oura_iterate",
        Tool::LoopStatus => "oura_loop_status",
        Tool::LoopStop => "oura_loop_stop",
        Tool::Results => "oura_results",
        Tool::Configure => "oura_configure",
        Tool::PluginLoad => "oura_plugin_load",
        Tool::PluginList => "oura_plugin_list",
        Tool::AnalyzeSecurity => "oura_analyze_security",
        Tool::AnalyzeCode => "oura_analyze_code",
        Tool::CheckIntegrity => "oura_check_integrity",
        Tool::GuardDestructive => "oura_guard_destructive",
        Tool::AnalyzeProject => "oura_analyze_project",
        Tool::Cleanup => "oura_cleanup",
        Tool::McpCall => "mcp_call",
        Tool::Version => "oura_version",
        Tool::Update => "oura_update",
        Tool::Profile => "oura_profile",
        Tool::Verify => "oura_verify",
        Tool::WorkingDir => "oura_working_dir",
        Tool::Connector => "oura_connector",
        Tool::Unknown => "",
    }
}

/// What `tools/list` says a tool does.
pub open spec fn spec_tool_description(t: Tool) -> Seq<char> {
    match t {
        Tool::StartLoop => "Start a new iteration loop to achieve a specific goal. Use manual=true to drive iterations yourself via oura_iterate."@,
        Tool::Iterate => "Execute a single iteration step manually (use after oura_start_loop with manual=true)"@,
        Tool::LoopStatus => "Get current status of the active loop"@,
        Tool::LoopStop => "Stop the currently running loop"@,
        Tool::Results => "Get accumulated results from all iterations"@,
        Tool::Configure => "Update Oura engine configuration"@,
        Tool::PluginLoad => "[EXPERIMENTAL \u{2014} not yet implemented] Load a plugin from a directory path"@,
        Tool::PluginList => "[EXPERIMENTAL \u{2014} not yet implemented] List all loaded plugins"@,
        Tool::AnalyzeSecurity => "Run security audit on specified files (pass at least one file, or you get an empty report)"@,
        Tool::AnalyzeCode => "Analyze code for clean code violations (pass at least one file)"@,
        Tool::CheckIntegrity => "Check code integrity \u{2014} always passes (baseline comparison not yet implemented)"@,
        Tool::GuardDestructive => "[PLACEHOLDER] Acknowledge destructive operation guard (actual scanning not yet implemented)"@,
        Tool::AnalyzeProject => "Scan project directory structure, docs, configs and sizes. Token-efficient project analysis for organization decisions."@,
        Tool::Cleanup => "Scan and clean temp files, build artifacts, caches and old logs. Safe dry-run by default."@,
        Tool::McpCall => "Call a tool on another MCP server via HTTP. Note: private/local addresses (localhost, 127.0.0.1, private IPs) are blocked for security."@,
        Tool::Version => "Show Oura version and build info."@,
        Tool::Update => "Check for updates and optionally rebuild Oura from source via git pull + cargo build."@,
        Tool::Profile => "Detect project profile: indie, studio, enterprise, game-dev, ai-ml, etc. Lightweight analysis, no telemetry."@,
        Tool::Verify => "Verify dependency licenses, versions, and project profile. Checks Cargo.toml, package.json, Cargo.lock."@,
        Tool::WorkingDir => "Set the process working directory (affects all subsequent Oura commands and file operations)"@,
        Tool::Connector => "Call a tool on an external MCP server (e.g. Synapsis) via HTTP or QUIC. Used for cross-server synergy \u{2014} call this manually or configure [connector] in config for auto-call during iteration."@,
        Tool::Unknown => ""@,
    }
}

/// What `tools/list` says a tool does.
pub fn tool_description(t: Tool) -> (r: &'static str)
    ensures
        r@ == spec_tool_description(t),
{
    match t {
        Tool::StartLoop => "Start a new iteration loop to achieve a specific goal. Use manual=true to drive iterations yourself via oura_iterate.",
        Tool::Iterate => "Execute a single iteration step manually (use after oura_start_loop with manual=true)",
        Tool::LoopStatus => "Get current status of the active loop",
        Tool::LoopStop => "Stop the currently running loop",
        Tool::Results => "Get accumulated results from all iterations",
        Tool::Configure => "Update Oura engine configuration",
        Tool::PluginLoad => "[EXPERIMENTAL \u{2014} not yet implemented] Load a plugin from a directory path",
        Tool::PluginList => "[EXPERIMENTAL \u{2014} not yet implemented] List all loaded plugins",
        Tool::AnalyzeSecurity => "Run security audit on specified files (pass at least one file, or you get an empty report)",
        Tool::AnalyzeCode => "Analyze code for clean code violations (pass at least one file)",
        Tool::CheckIntegrity => "Check code integrity \u{2014} always passes (baseline comparison not yet implemented)",
        Tool::GuardDestructive => "[PLACEHOLDER] Acknowledge destructive operation guard (actual scanning not yet implemented)",
        Tool::AnalyzeProject => "Scan project directory structure, docs, configs and sizes. Token-efficient project analysis for organization decisions.",
        Tool::Cleanup => "Scan and clean temp files, build artifacts, caches and old logs. Safe dry-run by default.",
        Tool::McpCall => "Call a tool on another MCP server via HTTP. Note: private/local addresses (localhost, 127.0.0.1, private IPs) are blocked for security.",
        Tool::Version => "Show Oura version and build info.",
        Tool::Update => "Check for updates and optionally rebuild Oura from source via git pull + cargo build.",
        Tool::Profile => "Detect project profile: indie, studio, enterprise, game-dev, ai-ml, etc. Lightweight analysis, no telemetry.",
        Tool::Verify => "Verify dependency licenses, versions, and project profile. Checks Cargo.toml, package.json, Cargo.lock.",
        Tool::WorkingDir => "Set the process working directory (affects all subsequent Oura commands and file operations)",
        Tool::Connector => "Call a tool on an external MCP server (e.g. Synapsis) via HTTP or QUIC. Used for cross-server synergy \u{2014} call this manually or configure [connector] in config for auto-call during iteration.",
        Tool::Unknown => "",
    }
}

/// The tools that `tools/list` offers, in its order.
pub fn list_tools() -> (r: Vec<Tool>)
    ensures
        r@ == listed_tools(),
{
    let r = vec![
        Tool::StartLoop,
        Tool::Iterate,
        Tool::LoopStatus,
        Tool::LoopStop,
        Tool::Results,
        Tool::Configure,
        Tool::PluginLoad,
        Tool::PluginList,
        Tool::AnalyzeSecurity,
        Tool::AnalyzeCode,
        Tool::CheckIntegrity,
        Tool::GuardDestructive,
    ];
    assert(r@ =~= listed_tools());
    r
}

fn callable_tool_list() -> (r: Vec<Tool>)
    ensures
        r@ == callable_tools(),
{
    let r = vec![
        Tool::StartLoop,
        Tool::Iterate,
        Tool::LoopStatus,
        Tool::LoopStop,
        Tool::Results,
        Tool::Configure,
        Tool::PluginLoad,
        Tool::PluginList,
        Tool::AnalyzeSecurity,
        Tool::AnalyzeCode,
        Tool::CheckIntegrity,
        Tool::GuardDestructive,
        Tool::AnalyzeProject,
        Tool::Cleanup,
        Tool::McpCall,
        Tool::Version,
        Tool::Update,
        Tool::Profile,
        Tool::Verify,
        Tool::WorkingDir,
        Tool::Connector,
    ];
    assert(r@ =~= callable_tools());
    r
}

/// Routes a `tools/call` by the tool's name: the callable tool whose name it is, or
/// `Unknown` when no callable tool has that name.
pub fn route_tool(name: &str) -> (r: Tool)
    ensures
        r != Tool::Unknown ==> callable_tools().contains(r) && tool_name(r) == name@,
        r == Tool::Unknown ==> forall|i: int| 0 <= i < callable_tools().len() ==> tool_name(#[trigger] callable_tools()[i]) != name@,
{
    let tools = callable_tool_list();
    let mut i: usize = 0;
    while i < tools.len()
        invariant
            i <= tools.len(),
            tools@ == callable_tools(),
            forall|j: int| 0 <= j < i ==> tool_name(#[trigger] callable_tools()[j]) != name@,
        decreases tools.len() - i,
    {
        let t = tools[i];
        if str_eq(tool_name_str(t), name) {
            assert(callable_tools()[i as int] == t);
            return t;
        }
        i = i + 1;
    }
    Tool::Unknown
}

/// The length, sixth and last character of a name: enough to tell the tool
/// names apart.
spec fn name_key(s: Seq<char>) -> (int, char, char) {
    (s.len() as int, s[5], s[s.len() - 1])
}

spec fn tool_key(t: Tool) -> (int, char, char) {
    match t {
        Tool::StartLoop => (15, 's', 'p'),
        Tool::Iterate => (12, 'i', 'e'),
        Tool::LoopStatus => (16, 'l', 's'),
        Tool::LoopStop => (14, 'l', 'p'),
        Tool::Results => (12, 'r', 's'),
        Tool::Configure => (14, 'c', 'e'),
        Tool::PluginLoad => (16, 'p', 'd'),
        Tool::PluginList => (16, 'p', 't'),
        Tool::AnalyzeSecurity => (21, 'a', 'y'),
        Tool::AnalyzeCode => (17, 'a', 'e'),
        Tool::CheckIntegrity => (20, 'c', 'y'),
        Tool::GuardDestructive => (22, 'g', 'e'),
        Tool::AnalyzeProject => (20, 'a', 't'),
        Tool::Cleanup => (12, 'c', 'p'),
        Tool::McpCall => (8, 'a', 'l'),
        Tool::Version => (12, 'v', 'n'),
        Tool::Update => (11, 'u', 'e'),
        Tool::Profile => (12, 'p', 'e'),
        Tool::Verify => (11, 'v', 'y'),
        Tool::WorkingDir => (16, 'w', 'r'),
        Tool::Connector => (14, 'c', 'r'),
        Tool::Unknown => (0, ' ', ' '),
    }
}

proof fn lemma_tool_key(t: Tool)
    requires
        t != Tool::Unknown,
    ensures
        name_key(tool_name(t)) == tool_key(t),
{
    reveal_strlit("oura_start_loop");
    reveal_strlit("oura_iterate");
    reveal_strlit("oura_loop_status");
    reveal_strlit("oura_loop_stop");
    reveal_strlit("oura_results");
    reveal_strlit("oura_configure");
    reveal_strlit("oura_plugin_load");
    reveal_strlit("oura_plugin_list");
    reveal_strlit("oura_analyze_security");
    reveal_strlit("oura_analyze_code");
    reveal_strlit("oura_check_integrity");
    reveal_strlit("oura_guard_destructive");
    reveal_strlit("oura_analyze_project");
    reveal_strlit("oura_cleanup");
    reveal_strlit("mcp_call");
    reveal_strlit("oura_version");
    reveal_strlit("oura_update");
    reveal_strlit("oura_profile");
    reveal_strlit("oura_verify");
    reveal_strlit("oura_working_dir");
    reveal_strlit("oura_connector");
}

/// Every tool but `Unknown` can be called, and the tools that `tools/list` offers
/// are the first of the callable ones.
pub proof fn law_every_tool_callable(t: Tool)
    requires
        t != Tool::Unknown,
    ensures
        callable_tools().contains(t),
        callable_tools().subrange(0, listed_tools().len() as int) == listed_tools(),
{
    assert(callable_tools().subrange(0, listed_tools().len() as int) =~= listed_tools());
    let k: int = match t {
        Tool::StartLoop => 0,
        Tool::Iterate => 1,
        Tool::LoopStatus => 2,
        Tool::LoopStop => 3,
        Tool::Results => 4,
        Tool::Configure => 5,
        Tool::PluginLoad => 6,
        Tool::PluginList => 7,
        Tool::AnalyzeSecurity => 8,
        Tool::AnalyzeCode => 9,
        Tool::CheckIntegrity => 10,
        Tool::GuardDestructive => 11,
        Tool::AnalyzeProject => 12,
        Tool::Cleanup => 13,
        Tool::McpCall => 14,
        Tool::Version => 15,
        Tool::Update => 16,
        Tool::Profile => 17,
        Tool::Verify => 18,
        Tool::WorkingDir => 19,
        Tool::Connector => 20,
        Tool::Unknown => 0,
    };
    assert(callable_tools()[k] == t);
}

/// No two tools share a name, so a call by a tool's name reaches that tool.
pub proof fn law_tool_names_distinct(a: Tool, b: Tool)
    requires
        a != Tool::Unknown,
        b != Tool::Unknown,
        tool_name(a) == tool_name(b),
    ensures
        a == b,
{
    lemma_tool_key(a);
    lemma_tool_key(b);
}

/// The error of a call of a tool the server does not offer.
pub fn unknown_tool(name: &str) -> (r: (i32, String))
    ensures
        r.0 == -32602,
        r.1@ == "Unknown tool: "@ + name@,
{
    let mut v = chars_of("Unknown tool: ");
    extend_str(&mut v, name);
    (-32602, string_of(&v))
}

/// The resources the server offers.
#[derive(PartialEq, Eq, Structural, Clone, Copy, Debug)]
pub enum Resource {
    State,
    Results,
    Config,
    Unknown,
}

pub open spec fn spec_resource(uri: Seq<char>) -> Resource {
    if uri == "oura://state"@ {
        Resource::State
    } else if uri == "oura://results"@ {
        Resource::Results
    } else if uri == "oura://config"@ {
        Resource::Config
    } else {
        Resource::Unknown
    }
}

/// Routes a `resources/read` by the resource's address.
pub fn route_resource(uri: &str) -> (r: Resource)
    ensures
        r == spec_resource(uri@),
{
    if str_eq(uri, "oura://state") {
        Resource::State
    } else if str_eq(uri, "oura://results") {
        Resource::Results
    } else if str_eq(uri, "oura://config") {
        Resource::Config
    } else {
        Resource::Unknown
    }
}

/// The text of the `start_loop` prompt for a goal ("improve codebase" when none
/// is given).
pub open spec fn start_loop_prompt_text(goal: Seq<char>) -> Seq<char> {
    "I want to start an Oura iteration loop to: "@ + goal
        + "\n\nPlease call oura_start_loop with goal=\""@ + goal
        + "\".\nOura will run iterations until convergence or max iterations reached.\nYou can check progress with oura_loop_status and finally oura_results."@
}

pub fn start_loop_prompt(goal: Option<&str>) -> (r: String)
    ensures
        r@ == start_loop_prompt_text(match goal {
            Some(g) => g@,
            None => "improve codebase"@,
        }),
{
    let g = match goal {
        Some(g) => g,
        None => "improve codebase",
    };
    let mut v = chars_of("I want to start an Oura iteration loop to: ");
    extend_str(&mut v, g);
    extend_str(&mut v, "\n\nPlease call oura_start_loop with goal=\"");
    extend_str(&mut v, g);
    extend_str(
        &mut v,
        "\".\nOura will run iterations until convergence or max iterations reached.\nYou can check progress with oura_loop_status and finally oura_results.",
    );
    string_of(&v)
}

// ---------------------------------------------------------------------------
// Addresses that calls to other servers may not reach
// ---------------------------------------------------------------------------

/// An IP address, as the standard library reads it from text.
#[derive(PartialEq, Eq, Structural, Clone, Copy, Debug)]
pub enum IpAddress {
    V4(u8, u8, u8, u8),
    V6(u16, u16, u16, u16, u16, u16, u16, u16),
}

/// A loopback, private or link-local address: for IPv4 127/8, 10/8, 172.16/12,
/// 192.168/16 and 169.254/16; for IPv6 ::1, the unique-local fc00::/7 and the
/// link-local fe80::/10.
pub open spec fn private_address(a: IpAddress) -> bool {
    match a {
        IpAddress::V4(x, y, _, _) => {
            ||| x == 127
            ||| x == 10
            ||| (x == 172 && 16 <= y <= 31)
            ||| (x == 192 && y == 168)
            ||| (x == 169 && y == 254)
        },
        IpAddress::V6(s0, s1, s2, s3, s4, s5, s6, s7) => {
            ||| (s0 == 0 && s1 == 0 && s2 == 0 && s3 == 0 && s4 == 0 && s5 == 0 && s6 == 0 && s7 == 1)
            ||| (0xfc00 <= s0 <= 0xfdff)
            ||| (0xfe80 <= s0 <= 0xfebf)
        },
    }
}

/// A host without the square brackets that enclose an IPv6 address in a URL.
pub open spec fn unbracket(host: Seq<char>) -> Seq<char> {
    if host.len() >= 2 && host[0] == '[' && host.last() == ']' {
        host.subrange(1, host.len() - 1)
    } else {
        host
    }
}

/// A host that calls may not reach: once unbracketed, a local name, or an address
/// (as `addr`, when the unbracketed host reads as one) that is private.
pub open spec fn spec_private_host(host: Seq<char>, addr: Option<IpAddress>) -> bool {
    let h = unbracket(host);
    ||| h == "localhost"@
    ||| h == "127.0.0.1"@
    ||| h == "::1"@
    ||| ends_with(h, ".local"@)
    ||| ends_with(h, ".internal"@)
    ||| (addr matches Some(a) && private_address(a))
}

pub fn private_address_exec(a: IpAddress) -> (r: bool)
    ensures
        r == private_address(a),
{
    match a {
        IpAddress::V4(x, y, _, _) => x == 127 || x == 10 || (x == 172 && 16 <= y && y <= 31) || (x == 192
            && y == 168) || (x == 169 && y == 254),
        IpAddress::V6(s0, s1, s2, s3, s4, s5, s6, s7) => (s0 == 0 && s1 == 0 && s2 == 0 && s3 == 0 && s4
            == 0 && s5 == 0 && s6 == 0 && s7 == 1) || (0xfc00 <= s0 && s0 <= 0xfdff) || (0xfe80 <= s0 && s0
            <= 0xfebf),
    }
}

fn unbracket_chars(v: &Vec<char>) -> (r: Vec<char>)
    ensures
        r@ == unbracket(v@),
{
    let n = v.len();
    if n >= 2 && v[0] == '[' && v[n - 1] == ']' {
        let mut r: Vec<char> = Vec::new();
        let mut i: usize = 1;
        while i < n - 1
            invariant
                1 <= i <= n - 1,
                n == v.len(),
                n >= 2,
                r@ == v@.subrange(1, i as int),
            decreases n - 1 - i,
        {
            r.push(v[i]);
            i = i + 1;
            assert(r@ =~= v@.subrange(1, i as int));
        }
        r
    } else {
        v.clone()
    }
}

/// The host with the square brackets around an IPv6 address taken off: the text an
/// address is read from.
pub fn host_name(host: &str) -> (r: String)
    ensures
        r@ == unbracket(host@),
{
    let v = chars_of(host);
    let h = unbracket_chars(&v);
    string_of(&h)
}

/// Whether `host` is one that calls to other servers may not reach; `addr` is the
/// address the host, without the brackets of an IPv6 address, reads as, if it reads
/// as one.
pub fn is_private_ip(host: &str, addr: Option<IpAddress>) -> (r: bool)
    ensures
        r == spec_private_host(host@, addr),
{
    let whole = chars_of(host);
    let h = unbracket_chars(&whole);
    if equal_chars(&h, &chars_of("localhost")) || equal_chars(&h, &chars_of("127.0.0.1")) || equal_chars(
        &h,
        &chars_of("::1"),
    ) {
        return true;
    }
    let local = chars_of(".local");
    let internal = chars_of(".internal");
    if ends_with_chars(&h, &local) || ends_with_chars(&h, &internal) {
        return true;
    }
    match addr {
        Some(a) => private_address_exec(a),
        None => false,
    }
}

/// The text of `url::Url::parse`'s error for `s`; none when it parses.
pub uninterp spec fn url_parse_error(s: Seq<char>) -> Option<Seq<char>>;

/// The host that `url::Url::host_str` gives for the URL parsed from `s`.
pub uninterp spec fn url_host(s: Seq<char>) -> Option<Seq<char>>;

#[verifier::external_type_specification]
#[verifier::external_body]
pub struct ExUrl(url::Url);

/// A URL together with the text it was parsed from.
pub struct ParsedUrl {
    source: String,
    url: url::Url,
}

impl ParsedUrl {
    pub closed spec fn source(&self) -> Seq<char> {
        self.source@
    }
}

/// `url::Url::parse`. Claimed: it refuses `s` exactly when `url_parse_error` gives
/// a text, and that text is the error's; the URL kept remembers `s`.
#[verifier::external_body]
fn parse_url(s: &str) -> (r: Result<ParsedUrl, String>)
    ensures
        match r {
            Ok(u) => url_parse_error(s@) is None && u.source() == s@,
            Err(e) => url_parse_error(s@) == Some(e@),
        },
{
    match url::Url::parse(s) {
        Ok(url) => Ok(ParsedUrl { source: s.to_string(), url }),
        Err(e) => Err(e.to_string()),
    }
}

/// `url::Url::host_str` of a parsed URL. Claimed: the host is `url_host` of the
/// text the URL was parsed from; none exactly when that name gives none.
#[verifier::external_body]
fn host_of(u: &ParsedUrl) -> (r: Option<String>)
    ensures
        match r {
            Some(h) => url_host(u.source()) == Some(h@),
            None => url_host(u.source()) is None,
        },
{
    u.url.host_str().map(|h| h.to_string())
}

pub open spec fn missing_parameter(name: Seq<char>) -> Seq<char> {
    "Missing required parameter: "@ + name
}

fn missing(name: &str) -> (r: (i32, String))
    ensures
        r.0 == -32602,
        r.1@ == missing_parameter(name@),
{
    let mut v = chars_of("Missing required parameter: ");
    extend_str(&mut v, name);
    (-32602, string_of(&v))
}

/// The host an `mcp_call` targets: an error when the server address is missing or
/// is no URL; else the URL's host, empty when it has none.
pub fn mcp_call_host(server_url: Option<&str>) -> (r: Result<String, (i32, String)>)
    ensures
        match server_url {
            None => r matches Err(e) && e.0 == -32602 && e.1@ == missing_parameter("server_url"@),
            Some(u) => match url_parse_error(u@) {
                Some(msg) => r matches Err(e) && e.0 == -32602 && e.1@ == "Invalid server_url: "@ + msg,
                None => r matches Ok(h) && h@ == match url_host(u@) {
                    Some(x) => x,
                    None => ""@,
                },
            },
        },
{
    let u = match server_url {
        Some(u) => u,
        None => return Err(missing("server_url")),
    };
    match parse_url(u) {
        Ok(p) => match host_of(&p) {
            Some(h) => Ok(h),
            None => {
                let e = chars_of("");
                Ok(string_of(&e))
            },
        },
        Err(msg) => {
            let mut v = chars_of("Invalid server_url: ");
            extend_str(&mut v, msg.as_str());
            Err((-32602, string_of(&v)))
        },
    }
}

/// `s` without the slashes at its end.
pub open spec fn trim_slashes(s: Seq<char>) -> Seq<char>
    decreases s.len(),
{
    if s.len() > 0 && s.last() == '/' {
        trim_slashes(s.drop_last())
    } else {
        s
    }
}

fn trim_slashes_exec(s: &str) -> (r: Vec<char>)
    ensures
        r@ == trim_slashes(s@),
{
    let mut v = chars_of(s);
    while v.len() > 0 && v[v.len() - 1] == '/'
        invariant
            trim_slashes(v@) == trim_slashes(s@),
        decreases v.len(),
    {
        let ghost before = v@;
        v.pop();
        assert(v@ =~= before.drop_last());
    }
    v
}

/// Where a call to another server posts: the server's address without its trailing
/// slashes, then the endpoint.
pub fn endpoint_url(server_url: &str, endpoint: &str) -> (r: String)
    ensures
        r@ == trim_slashes(server_url@) + endpoint@,
{
    let mut v = trim_slashes_exec(server_url);
    extend_str(&mut v, endpoint);
    string_of(&v)
}

pub open spec fn ssrf_message() -> Seq<char> {
    "SSRF protection: requests to private/local addresses are blocked"@
}

/// Where an `mcp_call` posts: refused for an empty or private host, or without a
/// tool name; else the server address without its trailing slashes, followed by
/// the endpoint ("/message" when none is given).
pub fn mcp_call_url(server_url: &str, host: &str, addr: Option<IpAddress>, tool_name: Option<&str>, endpoint: Option<&str>) -> (r: Result<String, (i32, String)>)
    ensures
        (host@.len() == 0 || spec_private_host(host@, addr)) ==> (r matches Err(e) && e.0 == -32602 && e.1@
            == ssrf_message()),
        !(host@.len() == 0 || spec_private_host(host@, addr)) && tool_name is None ==> (r matches Err(e) && e.0
            == -32602 && e.1@ == missing_parameter("tool_name"@)),
        !(host@.len() == 0 || spec_private_host(host@, addr)) && tool_name is Some ==> (r matches Ok(u) && u@
            == trim_slashes(server_url@) + match endpoint {
            Some(p) => p@,
            None => "/message"@,
        }),
{
    if host.is_empty() || is_private_ip(host, addr) {
        let v = chars_of("SSRF protection: requests to private/local addresses are blocked");
        return Err((-32602, string_of(&v)));
    }
    if tool_name.is_none() {
        return Err(missing("tool_name"));
    }
    let mut v = trim_slashes_exec(server_url);
    match endpoint {
        Some(p) => extend_str(&mut v, p),
        None => extend_str(&mut v, "/message"),
    }
    Ok(string_of(&v))
}

// ---------------------------------------------------------------------------
// Working directories
// ---------------------------------------------------------------------------

/// What `std::path::Path::starts_with` answers: whether `base` is a prefix of
/// `path` in whole components.
pub uninterp spec fn path_starts_with(path: Seq<char>, base: Seq<char>) -> bool;

/// `std::path::Path::starts_with`. Claimed: the answer is `path_starts_with` of the
/// two paths, and depends on nothing else.
#[verifier::external_body]
fn path_has_prefix(path: &str, base: &str) -> (r: bool)
    ensures
        r == path_starts_with(path@, base@),
{
    std::path::Path::new(path).starts_with(base)
}

/// A directory of the system that the working directory may not be set to.
pub open spec fn spec_system_dir(p: Seq<char>) -> bool {
    path_starts_with(p, "/proc"@) || path_starts_with(p, "/sys"@) || path_starts_with(p, "/dev"@)
}

/// Refuses a working directory under /proc, /sys or /dev.
pub fn check_working_dir(resolved: &str) -> (r: Result<(), String>)
    ensures
        spec_system_dir(resolved@) ==> (r matches Err(e) && e@
            == "Cannot set working directory to a system directory"@),
        !spec_system_dir(resolved@) ==> r is Ok,
{
    if path_has_prefix(resolved, "/proc") || path_has_prefix(resolved, "/sys") || path_has_prefix(
        resolved,
        "/dev",
    ) {
        let v = chars_of("Cannot set working directory to a system directory");
        return Err(string_of(&v));
    }
    Ok(())
}

// ---------------------------------------------------------------------------
// Updates of the server's own source tree
// ---------------------------------------------------------------------------

/// The branch an update follows: the current branch as git names it, trimmed, or
/// "main" when git gave none (no output, an empty name, or a detached "HEAD").
pub open spec fn spec_update_branch(head: Option<Seq<char>>) -> Seq<char> {
    match head {
        Some(h) => if crate::text::trim(h).len() > 0 && crate::text::trim(h) != "HEAD"@ {
            crate::text::trim(h)
        } else {
            "main"@
        },
        None => "main"@,
    }
}

pub fn update_branch(head: Option<&str>) -> (r: String)
    ensures
        r@ == spec_update_branch(match head {
            Some(h) => Some(h@),
            None => None,
        }),
{
    if let Some(h) = head {
        let cs = chars_of(h);
        let t = crate::text::trim_range(&cs, 0, cs.len());
        assert(cs@.subrange(0, cs@.len() as int) =~= cs@);
        let detached = chars_of("HEAD");
        if t.len() > 0 && !crate::text::equal_chars(&t, &detached) {
            return string_of(&t);
        }
    }
    let m = chars_of("main");
    string_of(&m)
}

/// What `i32::from_str` gives: an optional sign, then one or more ASCII digits
/// whose value fits in 32 bits with that sign.
pub open spec fn parse_i32(s: Seq<char>) -> Option<i32> {
    let neg = s.len() > 0 && s[0] == '-';
    let t = if s.len() > 0 && (s[0] == '+' || s[0] == '-') { s.drop_first() } else { s };
    if t.len() > 0 && crate::feedback::all_ascii_digits(t) {
        let v = crate::feedback::digits_value(t);
        if neg && v <= 0x8000_0000 {
            Some((-v) as i32)
        } else if !neg && v <= 0x7fff_ffff {
            Some(v as i32)
        } else {
            None
        }
    } else {
        None
    }
}

fn parse_i32_chars(s: &Vec<char>) -> (r: Option<i32>)
    ensures
        r == parse_i32(s@),
{
    let start: usize = if s.len() > 0 && (s[0] == '+' || s[0] == '-') { 1 } else { 0 };
    let neg = s.len() > 0 && s[0] == '-';
    let ghost t = if s@.len() > 0 && (s@[0] == '+' || s@[0] == '-') { s@.drop_first() } else { s@ };
    assert(t =~= s@.subrange(start as int, s@.len() as int));
    if start >= s.len() {
        return None;
    }
    let mut value: u64 = 0;
    let mut i = start;
    while i < s.len()
        invariant
            start <= i <= s.len(),
            t == s@.subrange(start as int, s@.len() as int),
            t == (if s@.len() > 0 && (s@[0] == '+' || s@[0] == '-') { s@.drop_first() } else { s@ }),
            neg == (s@.len() > 0 && s@[0] == '-'),
            crate::feedback::all_ascii_digits(s@.subrange(start as int, i as int)),
            value == crate::feedback::digits_value(s@.subrange(start as int, i as int)),
            value <= 0x8000_0000,
        decreases s.len() - i,
    {
        let c = s[i];
        let ghost prefix = s@.subrange(start as int, i + 1);
        assert(prefix.drop_last() =~= s@.subrange(start as int, i as int));
        if c < '0' || c > '9' {
            proof {
                assert(t[i - start] == c);
                assert(!crate::feedback::all_ascii_digits(t));
            }
            return None;
        }
        let d = (c as u32 - '0' as u32) as u64;
        let next = value * 10 + d;
        assert(next == crate::feedback::digits_value(prefix));
        if next > 0x8000_0000 {
            proof {
                if crate::feedback::all_ascii_digits(t) {
                    assert(t.subrange(0, t.len() as int) =~= t);
                    assert(t.subrange(0, i + 1 - start) =~= prefix);
                    crate::feedback::lemma_prefix_value_grows(t, i + 1 - start, t.len() as int);
                }
            }
            return None;
        }
        value = next;
        i = i + 1;
        assert(crate::feedback::all_ascii_digits(s@.subrange(start as int, i as int))) by {
            assert forall|k: int| 0 <= k < i - start implies '0' <= #[trigger] s@.subrange(start as int, i as int)[k]
                <= '9' by {
                if k < i - 1 - start {
                    assert(s@.subrange(start as int, i as int)[k] == s@.subrange(start as int, i - 1)[k]);
                }
            }
        }
    }
    assert(s@.subrange(start as int, s@.len() as int) == t);
    if neg {
        Some((0 - (value as i64)) as i32)
    } else if value <= 0x7fff_ffff {
        Some(value as i32)
    } else {
        None
    }
}

/// How far the source tree is behind its remote: the count git printed, trimmed
/// and read as an `i32`; -1 when there was no output or it is no number.
pub open spec fn spec_behind_count(output: Option<Seq<char>>) -> i32 {
    match output {
        Some(o) => match parse_i32(crate::text::trim(o)) {
            Some(n) => n,
            None => -1i32,
        },
        None => -1i32,
    }
}

pub fn behind_count(output: Option<&str>) -> (r: i32)
    ensures
        r == spec_behind_count(match output {
            Some(o) => Some(o@),
            None => None,
        }),
{
    match output {
        Some(o) => {
            let cs = chars_of(o);
            let t = crate::text::trim_range(&cs, 0, cs.len());
            assert(cs@.subrange(0, cs@.len() as int) =~= cs@);
            match parse_i32_chars(&t) {
                Some(n) => n,
                None => -1,
            }
        },
        None => -1,
    }
}

// ---------------------------------------------------------------------------
// Updating the server from its source tree
// ---------------------------------------------------------------------------

/// Where an update stands: the step whose outcome comes next, done, or failed (the
/// update could not be carried out, and the report is answered as an error).
#[derive(PartialEq, Eq, Structural, Clone, Copy, Debug)]
pub enum UpdateStage {
    Fetch,
    Count,
    Pull,
    Build,
    Done,
    Failed,
}

/// What the caller does next: run a command, or hand over the report.
#[derive(PartialEq, Eq, Structural, Clone, Copy, Debug)]
pub enum UpdateAction {
    RunFetch,
    RunCount,
    RunPull,
    RunBuild,
    Finish,
}

/// How a step went: a command ran and succeeded, ran and failed (with what it wrote
/// to its error output), or could not run (with the reason); or, for the count of
/// commits behind the remote, what git printed (none when it could not run).
#[derive(Debug)]
pub enum StepOutcome {
    Succeeded,
    Failed(String),
    Error(String),
    Printed(Option<String>),
}

/// How an update begins: outside a git repository it fails at once with a note;
/// else the report opens with the version and a fetch comes first.
pub open spec fn spec_update_begin(is_git_repo: bool, version: Seq<char>) -> (UpdateStage, UpdateAction, Seq<char>) {
    if is_git_repo {
        (UpdateStage::Fetch, UpdateAction::RunFetch, "Oura v"@ + version + " - checking for updates...\n"@)
    } else {
        (UpdateStage::Failed, UpdateAction::Finish, "Not a git repository. Can't auto-update."@)
    }
}

pub fn update_begin(is_git_repo: bool, version: &str) -> (r: (UpdateStage, UpdateAction, String))
    ensures
        (r.0, r.1, r.2@) == spec_update_begin(is_git_repo, version@),
{
    if is_git_repo {
        let mut v = chars_of("Oura v");
        extend_str(&mut v, version);
        extend_str(&mut v, " - checking for updates...\n");
        (UpdateStage::Fetch, UpdateAction::RunFetch, string_of(&v))
    } else {
        let v = chars_of("Not a git repository. Can't auto-update.");
        (UpdateStage::Failed, UpdateAction::Finish, string_of(&v))
    }
}

pub open spec fn finish(text: Seq<char>) -> (UpdateStage, UpdateAction, Seq<char>) {
    (UpdateStage::Done, UpdateAction::Finish, text)
}

pub open spec fn fail(text: Seq<char>) -> (UpdateStage, UpdateAction, Seq<char>) {
    (UpdateStage::Failed, UpdateAction::Finish, text)
}

/// The line that says how far the tree is behind its remote.
pub open spec fn behind_line(b: i32, branch: Seq<char>) -> Seq<char> {
    decimal(b as nat) + " commits behind origin/"@ + branch + "\n"@
}

/// One step of an update: from where the update stands and how the last command
/// went, where it goes next, what the caller does next, and the text the report
/// gains. A fetch, pull or build that failed or could not run fails the update; a
/// tree behind its remote is pulled and rebuilt only when `apply` is set; an outcome
/// that does not belong to the stage ends the update with nothing added.
pub open spec fn spec_update_step(stage: UpdateStage, outcome: StepOutcome, apply: bool, branch: Seq<char>) -> (
    UpdateStage,
    UpdateAction,
    Seq<char>,
) {
    match (stage, outcome) {
        (UpdateStage::Fetch, StepOutcome::Succeeded) => (UpdateStage::Count, UpdateAction::RunCount, "Git fetch OK.\n"@),
        (UpdateStage::Fetch, StepOutcome::Failed(e)) => fail("Git fetch: "@ + e@ + "\n"@),
        (UpdateStage::Fetch, StepOutcome::Error(e)) => fail("Git fetch failed: "@ + e@ + "\n"@),
        (UpdateStage::Count, StepOutcome::Printed(o)) => {
            let b = spec_behind_count(match o {
                Some(t) => Some(t@),
                None => None,
            });
            if b > 0 && apply {
                (UpdateStage::Pull, UpdateAction::RunPull, behind_line(b, branch) + "Applying update...\n"@)
            } else if b > 0 {
                finish(behind_line(b, branch) + "Use oura_update with apply=true to upgrade.\n"@)
            } else if b == 0 {
                finish("Already up to date with origin/"@ + branch + "\n"@)
            } else {
                finish("Could not determine update status.\n"@)
            }
        },
        (UpdateStage::Pull, StepOutcome::Succeeded) => (
            UpdateStage::Build,
            UpdateAction::RunBuild,
            "Git pull OK.\nRunning cargo build --release...\n"@,
        ),
        (UpdateStage::Pull, StepOutcome::Failed(e)) => fail("Git pull failed: "@ + e@ + "\n"@),
        (UpdateStage::Pull, StepOutcome::Error(e)) => fail("Git pull failed: "@ + e@ + "\n"@),
        (UpdateStage::Build, StepOutcome::Succeeded) => finish("Build OK.\n"@),
        (UpdateStage::Build, StepOutcome::Failed(e)) => fail("Build failed: "@ + e@ + "\n"@),
        (UpdateStage::Build, StepOutcome::Error(e)) => fail("Build failed: "@ + e@ + "\n"@),
        _ => finish(Seq::empty()),
    }
}

fn finish_with(v: &Vec<char>) -> (r: (UpdateStage, UpdateAction, String))
    ensures
        (r.0, r.1, r.2@) == finish(v@),
{
    (UpdateStage::Done, UpdateAction::Finish, string_of(v))
}

fn fail_with(v: &Vec<char>) -> (r: (UpdateStage, UpdateAction, String))
    ensures
        (r.0, r.1, r.2@) == fail(v@),
{
    (UpdateStage::Failed, UpdateAction::Finish, string_of(v))
}

fn wrapped(prefix: &str, e: &String) -> (r: Vec<char>)
    ensures
        r@ == prefix@ + e@ + "\n"@,
{
    let mut v = chars_of(prefix);
    extend_str(&mut v, e.as_str());
    extend_str(&mut v, "\n");
    v
}

pub fn update_step(stage: UpdateStage, outcome: StepOutcome, apply: bool, branch: &str) -> (r: (
    UpdateStage,
    UpdateAction,
    String,
))
    ensures
        (r.0, r.1, r.2@) == spec_update_step(stage, outcome, apply, branch@),
{
    match (stage, outcome) {
        (UpdateStage::Fetch, StepOutcome::Succeeded) => {
            let v = chars_of("Git fetch OK.\n");
            (UpdateStage::Count, UpdateAction::RunCount, string_of(&v))
        },
        (UpdateStage::Fetch, StepOutcome::Failed(e)) => fail_with(&wrapped("Git fetch: ", &e)),
        (UpdateStage::Fetch, StepOutcome::Error(e)) => fail_with(&wrapped("Git fetch failed: ", &e)),
        (UpdateStage::Count, StepOutcome::Printed(o)) => {
            let b = behind_count(
                match &o {
                    Some(t) => Some(t.as_str()),
                    None => None,
                },
            );
            if b > 0 {
                let mut v: Vec<char> = Vec::new();
                extend_decimal(&mut v, b as u64);
                extend_str(&mut v, " commits behind origin/");
                extend_str(&mut v, branch);
                extend_str(&mut v, "\n");
                assert(v@ =~= behind_line(b, branch@));
                if apply {
                    extend_str(&mut v, "Applying update...\n");
                    (UpdateStage::Pull, UpdateAction::RunPull, string_of(&v))
                } else {
                    extend_str(&mut v, "Use oura_update with apply=true to upgrade.\n");
                    finish_with(&v)
                }
            } else if b == 0 {
                let mut v = chars_of("Already up to date with origin/");
                extend_str(&mut v, branch);
                extend_str(&mut v, "\n");
                finish_with(&v)
            } else {
                finish_with(&chars_of("Could not determine update status.\n"))
            }
        },
        (UpdateStage::Pull, StepOutcome::Succeeded) => {
            let v = chars_of("Git pull OK.\nRunning cargo build --release...\n");
            (UpdateStage::Build, UpdateAction::RunBuild, string_of(&v))
        },
        (UpdateStage::Pull, StepOutcome::Failed(e)) => fail_with(&wrapped("Git pull failed: ", &e)),
        (UpdateStage::Pull, StepOutcome::Error(e)) => fail_with(&wrapped("Git pull failed: ", &e)),
        (UpdateStage::Build, StepOutcome::Succeeded) => finish_with(&chars_of("Build OK.\n")),
        (UpdateStage::Build, StepOutcome::Failed(e)) => fail_with(&wrapped("Build failed: ", &e)),
        (UpdateStage::Build, StepOutcome::Error(e)) => fail_with(&wrapped("Build failed: ", &e)),
        _ => finish_with(&Vec::new()),
    }
}

/// The order of the stages of an update.
pub open spec fn stage_rank(s: UpdateStage) -> int {
    match s {
        UpdateStage::Fetch => 0,
        UpdateStage::Count => 1,
        UpdateStage::Pull => 2,
        UpdateStage::Build => 3,
        UpdateStage::Done => 4,
        UpdateStage::Failed => 4,
    }
}

/// Each step of an update moves it to a later stage, and it is done or failed
/// exactly when the caller is told to finish; a pull is asked for only when `apply`
/// is set; and a fetch, pull or build that failed or could not run fails the update.
pub proof fn law_update_progresses(stage: UpdateStage, outcome: StepOutcome, apply: bool, branch: Seq<char>)
    requires
        stage != UpdateStage::Done,
        stage != UpdateStage::Failed,
    ensures
        ({
            let (next, action, _text) = spec_update_step(stage, outcome, apply, branch);
            &&& stage_rank(next) > stage_rank(stage)
            &&& ((next == UpdateStage::Done || next == UpdateStage::Failed) <==> action == UpdateAction::Finish)
            &&& action == UpdateAction::RunPull ==> apply
            &&& (stage != UpdateStage::Count && (outcome is Failed || outcome is Error)) ==> next
                == UpdateStage::Failed
        }),
{
}

/// How an update is answered: the report as the result, or, for an update that
/// failed, the report as an internal error (-32603).
pub fn update_answer(stage: UpdateStage, report: String) -> (r: Result<String, (i32, String)>)
    ensures
        stage == UpdateStage::Failed ==> (r matches Err(e) && e.0 == -32603 && e.1@ == report@),
        stage != UpdateStage::Failed ==> (r matches Ok(t) && t@ == report@),
{
    if stage == UpdateStage::Failed {
        Err((-32603, report))
    } else {
        Ok(report)
    }
}

} // verus!
