use vstd::prelude::*;
use vstd::utf8::{encode_utf8, is_char_boundary, is_ascii_chars};
use vstd::string::StringSliceAdditionalSpecFns;
use crate::text::string_views;

verus! {

fn default_profile() -> (r: String)
    ensures
        r@ == "default"@,
{
    String::from_str("default")
}

fn default_feedback_sources() -> (r: Vec<String>)
    ensures
        r@.len() == 2,
        r@[0]@ == "test"@,
        r@[1]@ == "lint"@,
{
    vec![String::from_str("test"), String::from_str("lint")]
}

fn default_max_runtime() -> (r: u64)
    ensures
        r == 3600,
{
    3600
}

fn default_max_iterations() -> (r: u32)
    ensures
        r == 20,
{
    20
}

/// The least score at which a loop converges unless configured otherwise (the
/// threshold 90).
fn default_min_score() -> (r: u32)
    ensures
        r == 90,
{
    90
}

fn default_pr_prefix() -> (r: String)
    ensures
        r@ == "[Oura] "@,
{
    String::from_str("[Oura] ")
}

fn default_logging_level() -> (r: String)
    ensures
        r@ == "info"@,
{
    String::from_str("info")
}

fn default_logging_format() -> (r: String)
    ensures
        r@ == "text"@,
{
    String::from_str("text")
}

fn default_logging_output() -> (r: String)
    ensures
        r@ == "stderr"@,
{
    String::from_str("stderr")
}

/// General settings.
#[derive(Debug)]
pub struct GeneralConfig {
    pub data_dir: Option<String>,
    pub profile: String,
}

impl Default for GeneralConfig {
    fn default() -> (r: Self)
        ensures
            r.data_dir is None,
            r.profile@ == "default"@,
    {
        GeneralConfig { data_dir: None, profile: default_profile() }
    }
}

impl Clone for GeneralConfig {
    fn clone(&self) -> (r: Self)
        ensures
            r == *self,
    {
        GeneralConfig { data_dir: self.data_dir.clone(), profile: self.profile.clone() }
    }
}

/// GitHub settings.
#[derive(Debug)]
pub struct GitHubConfig {
    pub enabled: bool,
    pub default_owner: String,
    pub default_repo: String,
    pub token: Option<String>,
    pub auto_commit: bool,
    pub auto_pr: bool,
    pub pr_title_prefix: String,
    pub workflows_enabled: bool,
}

impl Default for GitHubConfig {
    fn default() -> (r: Self)
        ensures
            !r.enabled,
            r.default_owner@ == Seq::<char>::empty(),
            r.default_repo@ == Seq::<char>::empty(),
            r.token is None,
            !r.auto_commit,
            !r.auto_pr,
            r.pr_title_prefix@ == "[Oura] "@,
            r.workflows_enabled,
    {
        GitHubConfig {
            enabled: false,
            default_owner: String::new(),
            default_repo: String::new(),
            token: None,
            auto_commit: false,
            auto_pr: false,
            pr_title_prefix: default_pr_prefix(),
            workflows_enabled: true,
        }
    }
}

impl Clone for GitHubConfig {
    fn clone(&self) -> (r: Self)
        ensures
            r == *self,
    {
        GitHubConfig {
            enabled: self.enabled,
            default_owner: self.default_owner.clone(),
            default_repo: self.default_repo.clone(),
            token: self.token.clone(),
            auto_commit: self.auto_commit,
            auto_pr: self.auto_pr,
            pr_title_prefix: self.pr_title_prefix.clone(),
            workflows_enabled: self.workflows_enabled,
        }
    }
}

/// The UTF-8 bytes of a string.
pub open spec fn utf8(s: Seq<char>) -> Seq<u8> {
    encode_utf8(s)
}

proof fn lemma_encode_concat(a: Seq<char>, b: Seq<char>)
    ensures
        encode_utf8(a + b) == encode_utf8(a) + encode_utf8(b),
    decreases a.len(),
{
    if a.len() > 0 {
        assert((a + b).drop_first() =~= a.drop_first() + b);
        assert((a + b)[0] == a[0]);
        lemma_encode_concat(a.drop_first(), b);
        assert(encode_utf8(a + b) =~= encode_utf8(a) + encode_utf8(b));
    } else {
        assert(a + b =~= b);
    }
}

/// A token can be masked without cutting a character: it is short, or its first four
/// and last four bytes end and begin on character boundaries.
pub open spec fn maskable(t: Seq<char>) -> bool {
    utf8(t).len() > 8 ==> is_char_boundary(utf8(t), 4) && is_char_boundary(utf8(t), utf8(t).len() - 4)
}

/// The bytes a masked token consists of.
pub open spec fn masked_bytes(t: Seq<char>) -> Seq<u8> {
    let b = utf8(t);
    if b.len() > 8 {
        b.subrange(0, 4) + utf8("…"@) + b.subrange(b.len() - 4, b.len() as int)
    } else {
        utf8("********"@)
    }
}

/// The characters of a masked token: its first four and last four characters
/// around an ellipsis, or eight asterisks for a token of eight characters or less.
pub open spec fn masked_chars(t: Seq<char>) -> Seq<char> {
    if t.len() > 8 {
        t.subrange(0, 4) + "…"@ + t.subrange(t.len() - 4, t.len() as int)
    } else {
        "********"@
    }
}

proof fn lemma_ascii_subrange(t: Seq<char>, a: int, b: int)
    requires
        is_ascii_chars(t),
        0 <= a <= b <= t.len(),
    ensures
        utf8(t.subrange(a, b)) == utf8(t).subrange(a, b),
{
    let s = t.subrange(a, b);
    assert(is_ascii_chars(s));
    vstd::utf8::is_ascii_chars_encode_utf8(t);
    vstd::utf8::is_ascii_chars_encode_utf8(s);
    assert forall|i: int| 0 <= i < s.len() implies utf8(s)[i] == utf8(t).subrange(a, b)[i] by {
        assert(s[i] == t[a + i]);
    }
    assert(utf8(s) =~= utf8(t).subrange(a, b));
}

/// A token of ASCII characters can always be masked, and its mask is its first four
/// and last four characters around an ellipsis, or eight asterisks when it has eight
/// characters or less.
pub proof fn law_ascii_token_mask(t: Seq<char>)
    requires
        is_ascii_chars(t),
    ensures
        maskable(t),
        utf8(masked_chars(t)) == masked_bytes(t),
        forall|m: Seq<char>| utf8(m) == masked_bytes(t) ==> m == masked_chars(t),
{
    broadcast use vstd::utf8::encode_utf8_valid_utf8;
    broadcast use vstd::utf8::encode_utf8_decode_utf8;
    vstd::utf8::is_ascii_chars_encode_utf8(t);
    vstd::utf8::is_ascii_chars_nat_bound(t);
    let b = utf8(t);
    if b.len() > 8 {
        vstd::utf8::is_char_boundary_iff_is_leading_byte(b, 4);
        vstd::utf8::is_char_boundary_iff_is_leading_byte(b, b.len() - 4);
        assert(t[4] as u8 == b[4]);
        assert(t[b.len() - 4] as u8 == b[b.len() - 4]);
        let head = t.subrange(0, 4);
        let tail = t.subrange(t.len() - 4, t.len() as int);
        lemma_ascii_subrange(t, 0, 4);
        lemma_ascii_subrange(t, t.len() - 4, t.len() as int);
        lemma_encode_concat(head, "…"@);
        lemma_encode_concat(head + "…"@, tail);
    }
    assert forall|m: Seq<char>| utf8(m) == masked_bytes(t) implies m == masked_chars(t) by {
        assert(vstd::utf8::decode_utf8(encode_utf8(m)) == m);
        assert(vstd::utf8::decode_utf8(encode_utf8(masked_chars(t))) == masked_chars(t));
    }
}

impl GitHubConfig {
    /// The token for display: its first and last four bytes around an ellipsis, or
    /// eight asterisks for a token of eight bytes or less.
    pub fn masked_token(&self) -> (r: Option<String>)
        requires
            self.token matches Some(t) ==> maskable(t@),
        ensures
            match self.token {
                Some(t) => r matches Some(m) && utf8(m@) == masked_bytes(t@),
                None => r is None,
            },
            match self.token {
                Some(t) => is_ascii_chars(t@) ==> (r matches Some(m) && m@ == masked_chars(t@)),
                None => true,
            },
    {
        match &self.token {
            None => None,
            Some(t) => {
                let s = t.as_str();
                assert(s.spec_bytes() == utf8(t@));
                let n = s.as_bytes().len();
                if n > 8 {
                    let (head, _) = s.split_at(4);
                    let (_, tail) = s.split_at(n - 4);
                    let mut m = String::from_str(head);
                    m.append("…");
                    m.append(tail);
                    proof {
                        lemma_encode_concat(head@, "…"@);
                        lemma_encode_concat(head@ + "…"@, tail@);
                        assert(head.spec_bytes() == encode_utf8(head@));
                        assert(tail.spec_bytes() == encode_utf8(tail@));
                        assert(m@ == head@ + "…"@ + tail@);
                        if is_ascii_chars(t@) {
                            law_ascii_token_mask(t@);
                            assert(utf8(m@) == masked_bytes(t@));
                            assert(m@ == masked_chars(t@));
                        }
                    }
                    Some(m)
                } else {
                    let m = String::from_str("********");
                    proof {
                        if is_ascii_chars(t@) {
                            law_ascii_token_mask(t@);
                            assert(utf8(m@) == masked_bytes(t@));
                            assert(m@ == masked_chars(t@));
                        }
                    }
                    Some(m)
                }
            },
        }
    }
}

/// Logging settings.
#[derive(Debug)]
pub struct LoggingConfig {
    pub level: String,
    pub format: String,
    pub output: String,
}

impl Default for LoggingConfig {
    fn default() -> (r: Self)
        ensures
            r.level@ == "info"@,
            r.format@ == "text"@,
            r.output@ == "stderr"@,
    {
        LoggingConfig {
            level: default_logging_level(),
            format: default_logging_format(),
            output: default_logging_output(),
        }
    }
}

impl Clone for LoggingConfig {
    fn clone(&self) -> (r: Self)
        ensures
            r == *self,
    {
        LoggingConfig { level: self.level.clone(), format: self.format.clone(), output: self.output.clone() }
    }
}

/// Settings for calling tools on another MCP server.
#[derive(Debug)]
pub struct ConnectorConfig {
    pub enabled: bool,
    pub transport: String,
    pub server_url: String,
    pub host: String,
    pub port: u16,
    pub endpoint: String,
    pub tools: Vec<String>,
    pub auto_call: bool,
}

impl Default for ConnectorConfig {
    fn default() -> (r: Self)
        ensures
            !r.enabled,
            r.transport@ == "http"@,
            r.server_url@ == "http://localhost:7438"@,
            r.host@ == "127.0.0.1"@,
            r.port == 7439,
            r.endpoint@ == "/message"@,
            r.tools@.len() == 0,
            !r.auto_call,
    {
        ConnectorConfig {
            enabled: false,
            transport: String::from_str("http"),
            server_url: String::from_str("http://localhost:7438"),
            host: String::from_str("127.0.0.1"),
            port: 7439,
            endpoint: String::from_str("/message"),
            tools: Vec::new(),
            auto_call: false,
        }
    }
}

impl Clone for ConnectorConfig {
    fn clone(&self) -> (r: Self)
        ensures
            r.enabled == self.enabled,
            r.transport == self.transport,
            r.server_url == self.server_url,
            r.host == self.host,
            r.port == self.port,
            r.endpoint == self.endpoint,
            r.tools@ == self.tools@,
            r.auto_call == self.auto_call,
    {
        let tools = self.tools.clone();
        assert(tools@ =~= self.tools@);
        ConnectorConfig {
            enabled: self.enabled,
            transport: self.transport.clone(),
            server_url: self.server_url.clone(),
            host: self.host.clone(),
            port: self.port,
            endpoint: self.endpoint.clone(),
            tools,
            auto_call: self.auto_call,
        }
    }
}

/// Settings of the refinement loop. The convergence threshold is held as
/// `min_score`, the least whole score (0 to 100) that reaches it; 101 stands for a
/// threshold that no score reaches.
#[derive(Debug)]
pub struct LoopEngineConfig {
    pub max_iterations: u32,
    pub min_score: u32,
    pub feedback_sources: Vec<String>,
    pub working_directory: Option<String>,
    pub max_runtime_secs: u64,
}

impl Default for LoopEngineConfig {
    fn default() -> (r: Self)
        ensures
            r.max_iterations == 20,
            r.min_score == 90,
            string_views(r.feedback_sources@) == seq!["test"@, "lint"@],
            r.working_directory is None,
            r.max_runtime_secs == 3600,
    {
        let sources = default_feedback_sources();
        assert(string_views(sources@) =~= seq!["test"@, "lint"@]);
        LoopEngineConfig {
            max_iterations: default_max_iterations(),
            min_score: default_min_score(),
            feedback_sources: sources,
            working_directory: None,
            max_runtime_secs: default_max_runtime(),
        }
    }
}


/// All settings, one section each.
#[derive(Debug)]
pub struct Config {
    pub general: GeneralConfig,
    pub loop_engine: LoopEngineConfig,
    pub github: GitHubConfig,
    pub logging: LoggingConfig,
    pub connector: ConnectorConfig,
}

impl Default for Config {
    fn default() -> (r: Self)
        ensures
            r.general.data_dir is None,
            r.general.profile@ == "default"@,
            r.loop_engine.max_iterations == 20,
            r.loop_engine.min_score == 90,
            string_views(r.loop_engine.feedback_sources@) == seq!["test"@, "lint"@],
            r.loop_engine.working_directory is None,
            r.loop_engine.max_runtime_secs == 3600,
            !r.github.enabled,
            r.github.token is None,
            r.github.pr_title_prefix@ == "[Oura] "@,
            r.github.workflows_enabled,
            r.logging.level@ == "info"@,
            r.logging.format@ == "text"@,
            r.logging.output@ == "stderr"@,
            !r.connector.enabled,
            r.connector.transport@ == "http"@,
            r.connector.port == 7439,
    {
        Config {
            general: GeneralConfig::default(),
            loop_engine: LoopEngineConfig::default(),
            github: GitHubConfig::default(),
            logging: LoggingConfig::default(),
            connector: ConnectorConfig::default(),
        }
    }
}

/// The environment variables that override the configuration file, as read.
pub struct EnvOverrides {
    /// `OURA_MAX_ITERATIONS`.
    pub max_iterations: Option<String>,
    /// `OURA_CONVERGENCE_THRESHOLD`, when it reads as a finite number from 0 to
    /// 100: the least whole score that reaches it.
    pub min_score: Option<u32>,
    /// `OURA_GITHUB_TOKEN`.
    pub github_token: Option<String>,
    /// `OURA_GITHUB_OWNER`.
    pub github_owner: Option<String>,
    /// `OURA_GITHUB_REPO`.
    pub github_repo: Option<String>,
    /// `OURA_GITHUB_ENABLED`.
    pub github_enabled: Option<String>,
    /// `OURA_WORKING_DIR`.
    pub working_dir: Option<String>,
}

/// Whether a flag's value switches it on: "true" or "1".
pub open spec fn flag_on(v: Seq<char>) -> bool {
    v == "true"@ || v == "1"@
}

fn flag_on_exec(v: &str) -> (r: bool)
    ensures
        r == flag_on(v@),
{
    let c = crate::text::chars_of(v);
    let t = crate::text::chars_of("true");
    let one = crate::text::chars_of("1");
    crate::text::equal_chars(&c, &t) || crate::text::equal_chars(&c, &one)
}

fn clone_opt(o: &Option<String>) -> (r: Option<String>)
    ensures
        r == *o,
{
    match o {
        Some(s) => Some(s.clone()),
        None => None,
    }
}

/// Applies the environment overrides to a configuration: a maximum of iterations
/// that reads as a `u32`, a valid threshold, the GitHub token, owner, repository and
/// switch, and the working directory; all else stays.
pub fn apply_env_overrides(config: Config, env: &EnvOverrides) -> (r: Config)
    ensures
        r.loop_engine.max_iterations == (match env.max_iterations {
            Some(v) => match crate::feedback::parse_u32(v@) {
                Some(n) => n,
                None => config.loop_engine.max_iterations,
            },
            None => config.loop_engine.max_iterations,
        }),
        r.loop_engine.min_score == (match env.min_score {
            Some(s) => s,
            None => config.loop_engine.min_score,
        }),
        r.github.token == (match env.github_token {
            Some(t) => Some(t),
            None => config.github.token,
        }),
        r.github.default_owner == (match env.github_owner {
            Some(o) => o,
            None => config.github.default_owner,
        }),
        r.github.default_repo == (match env.github_repo {
            Some(o) => o,
            None => config.github.default_repo,
        }),
        r.github.enabled == (match env.github_enabled {
            Some(v) => flag_on(v@),
            None => config.github.enabled,
        }),
        r.loop_engine.working_directory == (match env.working_dir {
            Some(d) => Some(d),
            None => config.loop_engine.working_directory,
        }),
        r.general == config.general,
        r.logging == config.logging,
        r.connector == config.connector,
        r.loop_engine.feedback_sources == config.loop_engine.feedback_sources,
        r.loop_engine.max_runtime_secs == config.loop_engine.max_runtime_secs,
        r.github.auto_commit == config.github.auto_commit,
        r.github.auto_pr == config.github.auto_pr,
        r.github.pr_title_prefix == config.github.pr_title_prefix,
        r.github.workflows_enabled == config.github.workflows_enabled,
{
    let mut c = config;
    if let Some(v) = &env.max_iterations {
        let chars = crate::text::chars_of(v.as_str());
        if let Some(n) = crate::feedback::parse_u32_chars(&chars) {
            c.loop_engine.max_iterations = n;
        }
    }
    if let Some(s) = env.min_score {
        c.loop_engine.min_score = s;
    }
    if let Some(t) = &env.github_token {
        c.github.token = Some(t.clone());
    }
    if let Some(o) = &env.github_owner {
        c.github.default_owner = o.clone();
    }
    if let Some(o) = &env.github_repo {
        c.github.default_repo = o.clone();
    }
    if let Some(v) = &env.github_enabled {
        c.github.enabled = flag_on_exec(v.as_str());
    }
    if let Some(d) = &env.working_dir {
        c.loop_engine.working_directory = clone_opt(&Some(d.clone()));
    }
    c
}

/// The engine settings a loop configuration gives.
pub fn engine_config(l: &LoopEngineConfig) -> (r: crate::engine::OuraConfig)
    ensures
        r.max_iterations == l.max_iterations,
        r.min_score == l.min_score,
        r.max_runtime_secs == l.max_runtime_secs,
        r.working_directory == l.working_directory,
{
    crate::engine::OuraConfig {
        max_iterations: l.max_iterations,
        min_score: l.min_score,
        max_runtime_secs: l.max_runtime_secs,
        working_directory: clone_opt(&l.working_directory),
    }
}

} // verus!
