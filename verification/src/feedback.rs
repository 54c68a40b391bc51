use vstd::prelude::*;
use crate::matching::{compile, capture_group, regex_compiles, regex_capture_group};
use crate::profile::{ProjectProfile, VerifyReport, profile_summary, yes_no};
use crate::text::{chars_of, string_of, extend_chars, extend_str, extend_decimal, decimal, lines, lines_of, line_views,
    starts_with, contains, starts_with_chars, contains_chars, join, extend_join, string_views};
use crate::types::{FeedbackEntry, FeedbackKind, Metric};
use crate::config::ConnectorConfig;
use vstd::string::StringSliceAdditionalSpecFns;
use vstd::utf8::encode_utf8;

verus! {

/// The value of a string of ASCII digits.
pub open spec fn digits_value(t: Seq<char>) -> nat
    decreases t.len(),
{
    if t.len() == 0 {
        0
    } else {
        digits_value(t.drop_last()) * 10 + ((t.last() as u32) - ('0' as u32)) as nat
    }
}

pub open spec fn all_ascii_digits(t: Seq<char>) -> bool {
    forall|i: int| 0 <= i < t.len() ==> '0' <= #[trigger] t[i] <= '9'
}

/// What `u32::from_str` gives: an optional `+`, then one or more ASCII digits whose
/// value fits in 32 bits.
pub open spec fn parse_u32(s: Seq<char>) -> Option<u32> {
    let t = if s.len() > 0 && s[0] == '+' { s.drop_first() } else { s };
    if t.len() > 0 && all_ascii_digits(t) && digits_value(t) <= u32::MAX {
        Some(digits_value(t) as u32)
    } else {
        None
    }
}

/// Reads a `u32` as `u32::from_str` does.
pub fn parse_u32_chars(s: &Vec<char>) -> (r: Option<u32>)
    ensures
        r == parse_u32(s@),
{
    let start: usize = if s.len() > 0 && s[0] == '+' { 1 } else { 0 };
    let ghost t = if s@.len() > 0 && s@[0] == '+' { s@.drop_first() } else { s@ };
    assert(t =~= s@.subrange(start as int, s@.len() as int));
    if start >= s.len() {
        return None;
    }
    let mut value: u64 = 0;
    let mut i = start;
    while i < s.len()
        invariant
            start <= i <= s.len(),
            t == s@.subrange(start as int, s@.len() as int),
            t == (if s@.len() > 0 && s@[0] == '+' { s@.drop_first() } else { s@ }),
            all_ascii_digits(s@.subrange(start as int, i as int)),
            value == digits_value(s@.subrange(start as int, i as int)),
            value <= u32::MAX,
        decreases s.len() - i,
    {
        let c = s[i];
        let ghost prefix = s@.subrange(start as int, i + 1);
        assert(prefix.drop_last() =~= s@.subrange(start as int, i as int));
        if c < '0' || c > '9' {
            proof {
                assert(t[i - start] == c);
                assert(!('0' <= t[i - start] <= '9'));
                assert(!all_ascii_digits(t));
            }
            return None;
        }
        let d = (c as u32 - '0' as u32) as u64;
        let next = value * 10 + d;
        assert(next == digits_value(prefix));
        if next > u32::MAX as u64 {
            proof {
                if all_ascii_digits(t) {
                    assert(t.subrange(0, t.len() as int) =~= t);
                    assert(t.subrange(0, i + 1 - start) =~= prefix);
                    lemma_prefix_value_grows(t, i + 1 - start, t.len() as int);
                }
            }
            return None;
        }
        value = next;
        i = i + 1;
        assert(all_ascii_digits(s@.subrange(start as int, i as int))) by {
            assert forall|k: int| 0 <= k < i - start implies '0' <= #[trigger] s@.subrange(start as int, i as int)[k] <= '9' by {
                if k < i - 1 - start {
                    assert(s@.subrange(start as int, i as int)[k] == s@.subrange(start as int, i - 1)[k]);
                }
            }
        }
    }
    Some(value as u32)
}

pub(crate) proof fn lemma_prefix_value_grows(t: Seq<char>, a: int, b: int)
    requires
        0 <= a <= b <= t.len(),
        all_ascii_digits(t.subrange(0, b)),
    ensures
        digits_value(t.subrange(0, b)) >= digits_value(t.subrange(0, a)),
    decreases b - a,
{
    if a < b {
        assert(t.subrange(0, b).drop_last() =~= t.subrange(0, b - 1));
        assert(all_ascii_digits(t.subrange(0, b - 1))) by {
            assert forall|k: int| 0 <= k < b - 1 implies '0' <= #[trigger] t.subrange(0, b - 1)[k] <= '9' by {
                assert(t.subrange(0, b - 1)[k] == t.subrange(0, b)[k]);
            }
        }
        lemma_prefix_value_grows(t, a, b - 1);
    }
}


/// The two patterns that find the count before `label` in test output: first on a
/// `test result:` line, then anywhere.
pub open spec fn count_patterns(label: Seq<char>) -> (Seq<char>, Seq<char>) {
    ("(?m)^test result:.*?(\\d+)\\s+"@ + label, "(\\d+)\\s+"@ + label + "\\b"@)
}

/// The number a pattern's first capture reads as, if the pattern compiles, matches,
/// and the capture reads as a `u32`.
pub open spec fn pattern_number(pattern: Seq<char>, text: Seq<char>) -> Option<u32> {
    if regex_compiles(pattern) {
        match regex_capture_group(pattern, text, 1) {
            Some(g) => parse_u32(g),
            None => None,
        }
    } else {
        None
    }
}

/// The count of tests with the given label ("passed" or "failed") in test output:
/// from the `test result:` line, else from anywhere in the output, else 0; always 0
/// for another label.
pub open spec fn spec_extract_number(output: Seq<char>, label: Seq<char>) -> u32 {
    if label == "passed"@ || label == "failed"@ {
        match pattern_number(count_patterns(label).0, output) {
            Some(n) => n,
            None => match pattern_number(count_patterns(label).1, output) {
                Some(n) => n,
                None => 0,
            },
        }
    } else {
        0
    }
}

fn pattern_number_exec(pattern: &Vec<char>, text: &str) -> (r: Option<u32>)
    ensures
        r == pattern_number(pattern@, text@),
{
    let p = string_of(pattern);
    match compile(p.as_str()) {
        Some(re) => match capture_group(&re, text, 1) {
            Some(g) => parse_u32_chars(&chars_of(g.as_str())),
            None => None,
        },
        None => None,
    }
}

/// The count of tests with the given label in test output, as
/// `spec_extract_number` states.
pub fn extract_number(output: &str, label: &str) -> (n: u32)
    ensures
        n == spec_extract_number(output@, label@),
{
    let l = chars_of(label);
    if !(crate::text::equal_chars(&l, &chars_of("passed")) || crate::text::equal_chars(&l, &chars_of("failed"))) {
        return 0;
    }
    let mut p1 = chars_of("(?m)^test result:.*?(\\d+)\\s+");
    extend_chars(&mut p1, &l);
    let mut p2 = chars_of("(\\d+)\\s+");
    extend_chars(&mut p2, &l);
    extend_str(&mut p2, "\\b");
    match pattern_number_exec(&p1, output) {
        Some(n) => n,
        None => match pattern_number_exec(&p2, output) {
            Some(n) => n,
            None => 0,
        },
    }
}

fn str_string(s: &str) -> (r: String)
    ensures
        r@ == s@,
{
    String::from_str(s)
}

/// The text "{failed} tests failed, {passed} passed" or "All {passed} tests passed".
pub open spec fn test_message(passed: u32, failed: u32) -> Seq<char> {
    if failed > 0 {
        decimal(failed as nat) + " tests failed, "@ + decimal(passed as nat) + " passed"@
    } else {
        "All "@ + decimal(passed as nat) + " tests passed"@
    }
}

/// The feedback from running the tests: one entry, an error when tests failed (with
/// the output as details) or the run itself failed, a success otherwise.
pub fn test_feedback(run: Result<String, String>) -> (r: Vec<FeedbackEntry>)
    ensures
        r@.len() == 1,
        r@[0].source@ == "tests"@,
        r@[0].threshold == Some(100u32),
        match run {
            Ok(out) => {
                let passed = spec_extract_number(out@, "passed"@);
                let failed = spec_extract_number(out@, "failed"@);
                &&& r@[0].kind == (if failed > 0 { FeedbackKind::Error } else { FeedbackKind::Success })
                &&& r@[0].message@ == test_message(passed, failed)
                &&& r@[0].details == (if failed > 0 { Some(out) } else { None })
                &&& r@[0].metric == Some(Metric::PassRatio { passed, failed })
            },
            Err(e) => {
                &&& r@[0].kind == FeedbackKind::Error
                &&& r@[0].message@ == "Failed to run tests: "@ + e@
                &&& r@[0].details is None
                &&& r@[0].metric == Some(Metric::Percent(0))
            },
        },
{
    let mut entries: Vec<FeedbackEntry> = Vec::new();
    match run {
        Ok(output) => {
            let passed = extract_number(output.as_str(), "passed");
            let failed = extract_number(output.as_str(), "failed");
            let mut msg: Vec<char>;
            if failed > 0 {
                msg = Vec::new();
                extend_decimal(&mut msg, failed as u64);
                extend_str(&mut msg, " tests failed, ");
                extend_decimal(&mut msg, passed as u64);
                extend_str(&mut msg, " passed");
            } else {
                msg = chars_of("All ");
                extend_decimal(&mut msg, passed as u64);
                extend_str(&mut msg, " tests passed");
            }
            assert(msg@ =~= test_message(passed, failed));
            entries.push(FeedbackEntry {
                source: str_string("tests"),
                kind: if failed > 0 { FeedbackKind::Error } else { FeedbackKind::Success },
                message: string_of(&msg),
                details: if failed > 0 { Some(output) } else { None },
                metric: Some(Metric::PassRatio { passed, failed }),
                threshold: Some(100),
            });
        },
        Err(e) => {
            let mut msg = chars_of("Failed to run tests: ");
            extend_str(&mut msg, e.as_str());
            entries.push(FeedbackEntry {
                source: str_string("tests"),
                kind: FeedbackKind::Error,
                message: string_of(&msg),
                details: None,
                metric: Some(Metric::Percent(0)),
                threshold: Some(100),
            });
        },
    }
    entries
}

/// A line that reports a diagnostic of the given kind (`"warning"` or `"error"`):
/// it starts with `kind:` or holds `kind: `.
pub open spec fn diagnostic_line(line: Seq<char>, kind: Seq<char>) -> bool {
    starts_with(line, kind + ":"@) || contains(line, kind + ": "@)
}

pub open spec fn count_diagnostics(ls: Seq<Seq<char>>, kind: Seq<char>) -> nat
    decreases ls.len(),
{
    if ls.len() == 0 {
        0
    } else {
        count_diagnostics(ls.drop_last(), kind) + if diagnostic_line(ls.last(), kind) { 1nat } else { 0nat }
    }
}

fn count_diagnostics_exec(ls: &Vec<Vec<char>>, kind: &str) -> (n: usize)
    ensures
        n == count_diagnostics(line_views(ls@), kind@),
{
    let mut colon = chars_of(kind);
    extend_str(&mut colon, ":");
    let mut colon_space = chars_of(kind);
    extend_str(&mut colon_space, ": ");
    let ghost views = line_views(ls@);
    let mut n: usize = 0;
    let mut i: usize = 0;
    while i < ls.len()
        invariant
            i <= ls.len(),
            views == line_views(ls@),
            colon@ == kind@ + ":"@,
            colon_space@ == kind@ + ": "@,
            n == count_diagnostics(views.take(i as int), kind@),
            n <= i,
        decreases ls.len() - i,
    {
        assert(views.take(i + 1).drop_last() =~= views.take(i as int));
        assert(views.take(i + 1).last() == ls@[i as int]@);
        if starts_with_chars(&ls[i], &colon) || contains_chars(&ls[i], &colon_space) {
            n = n + 1;
        }
        i = i + 1;
    }
    assert(views.take(ls.len() as int) =~= views);
    n
}

/// The feedback from running clippy: an entry when it reported warnings or errors
/// (an error when there are errors), or when it could not run.
pub fn clippy_feedback(run: Result<String, String>) -> (r: Vec<FeedbackEntry>)
    ensures
        match run {
            Ok(out) => {
                let w = count_diagnostics(lines(out@), "warning"@);
                let e = count_diagnostics(lines(out@), "error"@);
                if w > 0 || e > 0 {
                    &&& r@.len() == 1
                    &&& r@[0].source@ == "clippy"@
                    &&& r@[0].kind == (if e > 0 { FeedbackKind::Error } else { FeedbackKind::Warning })
                    &&& r@[0].message@ == "Clippy: "@ + decimal(w) + " warnings, "@ + decimal(e) + " errors"@
                    &&& r@[0].details == Some(out)
                    &&& r@[0].metric == Some(Metric::Percent(if e > 0 { 0 } else { 100 }))
                    &&& r@[0].threshold == Some(100u32)
                } else {
                    r@.len() == 0
                }
            },
            Err(e) => {
                &&& r@.len() == 1
                &&& r@[0].source@ == "clippy"@
                &&& r@[0].kind == FeedbackKind::Error
                &&& r@[0].message@ == "Failed to run clippy: "@ + e@
                &&& r@[0].details is None
                &&& r@[0].metric == Some(Metric::Percent(0))
                &&& r@[0].threshold == Some(100u32)
            },
        },
{
    let mut entries: Vec<FeedbackEntry> = Vec::new();
    match run {
        Ok(output) => {
            let cs = chars_of(output.as_str());
            let ls = lines_of(&cs);
            let warnings = count_diagnostics_exec(&ls, "warning");
            let errors = count_diagnostics_exec(&ls, "error");
            if warnings > 0 || errors > 0 {
                let mut msg = chars_of("Clippy: ");
                extend_decimal(&mut msg, warnings as u64);
                extend_str(&mut msg, " warnings, ");
                extend_decimal(&mut msg, errors as u64);
                extend_str(&mut msg, " errors");
                entries.push(FeedbackEntry {
                    source: str_string("clippy"),
                    kind: if errors > 0 { FeedbackKind::Error } else { FeedbackKind::Warning },
                    message: string_of(&msg),
                    details: Some(output),
                    metric: Some(Metric::Percent(if errors > 0 { 0 } else { 100 })),
                    threshold: Some(100),
                });
            }
        },
        Err(e) => {
            let mut msg = chars_of("Failed to run clippy: ");
            extend_str(&mut msg, e.as_str());
            entries.push(FeedbackEntry {
                source: str_string("clippy"),
                kind: FeedbackKind::Error,
                message: string_of(&msg),
                details: None,
                metric: Some(Metric::Percent(0)),
                threshold: Some(100),
            });
        },
    }
    entries
}


/// Runs the commands of the feedback collectors, in a given directory or in the
/// process's working directory.
pub struct DefaultCommandRunner {
    working_dir: Option<String>,
}

impl DefaultCommandRunner {
    pub closed spec fn dir(&self) -> Option<String> {
        self.working_dir
    }

    /// A runner that runs commands in the process's working directory.
    pub fn new() -> (r: Self)
        ensures
            r.dir() is None,
    {
        DefaultCommandRunner { working_dir: None }
    }

    /// A runner that runs commands in `dir`.
    pub fn new_with_dir(dir: String) -> (r: Self)
        ensures
            r.dir() == Some(dir),
    {
        DefaultCommandRunner { working_dir: Some(dir) }
    }

    /// The directory commands run in, if not the working directory.
    pub fn working_dir(&self) -> (r: Option<&String>)
        ensures
            match self.dir() {
                Some(d) => r == Some(&d),
                None => r is None,
            },
    {
        self.working_dir.as_ref()
    }
}

impl Default for DefaultCommandRunner {
    fn default() -> (r: Self)
        ensures
            r.dir() is None,
    {
        DefaultCommandRunner::new()
    }
}

/// Collects feedback by running the test suite through a command runner.
pub struct TestFeedbackCollector<R> {
    command_runner: R,
}

impl<R> TestFeedbackCollector<R> {
    pub fn new(command_runner: R) -> (r: Self)
        ensures
            r.runner() == command_runner,
    {
        TestFeedbackCollector { command_runner }
    }

    pub closed spec fn runner(&self) -> R {
        self.command_runner
    }

    /// The runner the collector runs its command with.
    pub fn command_runner(&self) -> (r: &R)
        ensures
            *r == self.runner(),
    {
        &self.command_runner
    }
}

/// Collects feedback by running clippy through a command runner.
pub struct ClippyFeedbackCollector<R> {
    command_runner: R,
}

impl<R> ClippyFeedbackCollector<R> {
    pub fn new(command_runner: R) -> (r: Self)
        ensures
            r.runner() == command_runner,
    {
        ClippyFeedbackCollector { command_runner }
    }

    pub closed spec fn runner(&self) -> R {
        self.command_runner
    }

    /// The runner the collector runs its command with.
    pub fn command_runner(&self) -> (r: &R)
        ensures
            *r == self.runner(),
    {
        &self.command_runner
    }
}

/// The arguments of `cargo` that run the tests.
pub fn test_command_args() -> (r: Vec<&'static str>)
    ensures
        r@.len() == 2,
        r@[0]@ == "test"@,
        r@[1]@ == "--workspace"@,
{
    vec!["test", "--workspace"]
}

/// The arguments of `cargo` that run clippy.
pub fn clippy_command_args() -> (r: Vec<&'static str>)
    ensures
        r@.len() == 2,
        r@[0]@ == "clippy"@,
        r@[1]@ == "--workspace"@,
{
    vec!["clippy", "--workspace"]
}

/// Collects feedback from the project's profile and dependency report.
pub struct ProfileFeedbackCollector {
    working_dir: Option<String>,
}

impl ProfileFeedbackCollector {
    /// A collector for the process's working directory.
    pub fn new() -> (r: Self)
        ensures
            r.dir() is None,
    {
        ProfileFeedbackCollector { working_dir: None }
    }

    /// A collector for the given directory.
    pub fn new_with_dir(dir: String) -> (r: Self)
        ensures
            r.dir() == Some(dir),
    {
        ProfileFeedbackCollector { working_dir: Some(dir) }
    }

    pub closed spec fn dir(&self) -> Option<String> {
        self.working_dir
    }

    /// The directory the collector looks at, if not the working directory.
    pub fn working_dir(&self) -> (r: Option<&String>)
        ensures
            match self.dir() {
                Some(d) => r == Some(&d),
                None => r is None,
            },
    {
        self.working_dir.as_ref()
    }
}

/// How a project's dependency count weighs: an error above 50, a warning above 20.
pub open spec fn dependency_kind(n: usize) -> FeedbackKind {
    if n > 50 {
        FeedbackKind::Error
    } else if n > 20 {
        FeedbackKind::Warning
    } else {
        FeedbackKind::Info
    }
}

/// The headline of the profile feedback.
pub open spec fn profile_message(p: ProjectProfile) -> Seq<char> {
    "Project: "@ + p.user_type@ + " | "@ + decimal(p.dependency_count as nat) + " deps | "@ + p.ecosystem@
        + " engine:"@ + yes_no(p.has_game_engine)
}

/// 100 less `per` for each issue, not below 0.
pub open spec fn issue_metric(n: nat, per: nat) -> u32 {
    if n * per >= 100 {
        0
    } else {
        (100 - n * per) as u32
    }
}

fn issue_metric_exec(n: usize, per: usize) -> (r: u32)
    requires
        per == 5 || per == 10,
    ensures
        r == issue_metric(n as nat, per as nat),
{
    if n >= 20 {
        assert(n * per >= 100) by (nonlinear_arith)
            requires
                n >= 20,
                per >= 5,
        ;
        0
    } else {
        let p = n * per;
        if p >= 100 {
            0
        } else {
            (100 - p) as u32
        }
    }
}

/// The feedback from a project's profile: the profile itself, then the license
/// issues and the version issues when there are any.
pub fn profile_feedback(profile: &ProjectProfile, report: &VerifyReport) -> (r: Vec<FeedbackEntry>)
    ensures
        ({
            let li = string_views(report.license_issues@);
            let vi = string_views(report.version_issues@);
            &&& r@.len() == 1 + (if li.len() > 0 { 1int } else { 0 }) + (if vi.len() > 0 { 1int } else { 0 })
            &&& r@[0].source@ == "profile"@
            &&& r@[0].kind == dependency_kind(profile.dependency_count)
            &&& r@[0].message@ == profile_message(*profile)
            &&& r@[0].details matches Some(d) && d@ == profile_summary(*profile)
            &&& r@[0].metric == Some(Metric::Percent(profile.confidence_percent))
            &&& r@[0].threshold is None
            &&& li.len() > 0 ==> {
                &&& r@[1].source@ == "license"@
                &&& r@[1].kind == FeedbackKind::Warning
                &&& r@[1].message@ == "License issues: "@ + decimal(li.len()) + " restricted deps"@
                &&& r@[1].details matches Some(d) && d@ == join(li, "\n"@)
                &&& r@[1].metric == Some(Metric::Percent(issue_metric(li.len(), 10)))
                &&& r@[1].threshold == Some(100u32)
            }
            &&& vi.len() > 0 ==> {
                let k = if li.len() > 0 { 2int } else { 1 };
                &&& r@[k].source@ == "versioning"@
                &&& r@[k].kind == FeedbackKind::Warning
                &&& r@[k].message@ == "Version issues: "@ + decimal(vi.len()) + " unstable deps"@
                &&& r@[k].details matches Some(d) && d@ == join(vi, "\n"@)
                &&& r@[k].metric == Some(Metric::Percent(issue_metric(vi.len(), 5)))
                &&& r@[k].threshold == Some(100u32)
            }
        }),
{
    let mut entries: Vec<FeedbackEntry> = Vec::new();
    let n = profile.dependency_count;
    let kind = if n > 50 {
        FeedbackKind::Error
    } else if n > 20 {
        FeedbackKind::Warning
    } else {
        FeedbackKind::Info
    };
    let mut msg = chars_of("Project: ");
    extend_str(&mut msg, profile.user_type.as_str());
    extend_str(&mut msg, " | ");
    extend_decimal(&mut msg, n as u64);
    extend_str(&mut msg, " deps | ");
    extend_str(&mut msg, profile.ecosystem.as_str());
    extend_str(&mut msg, " engine:");
    extend_str(&mut msg, if profile.has_game_engine { "yes" } else { "no" });
    entries.push(FeedbackEntry {
        source: str_string("profile"),
        kind,
        message: string_of(&msg),
        details: Some(profile.summary()),
        metric: Some(Metric::Percent(profile.confidence_percent)),
        threshold: None,
    });
    let nl = report.license_issues.len();
    if nl > 0 {
        let mut m = chars_of("License issues: ");
        extend_decimal(&mut m, nl as u64);
        extend_str(&mut m, " restricted deps");
        let mut d: Vec<char> = Vec::new();
        extend_join(&mut d, &report.license_issues, "\n");
        entries.push(FeedbackEntry {
            source: str_string("license"),
            kind: FeedbackKind::Warning,
            message: string_of(&m),
            details: Some(string_of(&d)),
            metric: Some(Metric::Percent(issue_metric_exec(nl, 10))),
            threshold: Some(100),
        });
    }
    let nv = report.version_issues.len();
    if nv > 0 {
        let mut m = chars_of("Version issues: ");
        extend_decimal(&mut m, nv as u64);
        extend_str(&mut m, " unstable deps");
        let mut d: Vec<char> = Vec::new();
        extend_join(&mut d, &report.version_issues, "\n");
        entries.push(FeedbackEntry {
            source: str_string("versioning"),
            kind: FeedbackKind::Warning,
            message: string_of(&m),
            details: Some(string_of(&d)),
            metric: Some(Metric::Percent(issue_metric_exec(nv, 5))),
            threshold: Some(100),
        });
    }
    assert(string_views(report.license_issues@).len() == nl);
    assert(string_views(report.version_issues@).len() == nv);
    entries
}

/// Collects feedback by calling tools on another MCP server.
pub struct ConnectorFeedbackCollector {
    config: ConnectorConfig,
}

impl ConnectorFeedbackCollector {
    pub fn new(config: ConnectorConfig) -> (r: Self)
        ensures
            r.spec_config() == config,
    {
        ConnectorFeedbackCollector { config }
    }

    pub closed spec fn spec_config(&self) -> ConnectorConfig {
        self.config
    }

    /// The connector settings.
    pub fn config(&self) -> (r: &ConnectorConfig)
        ensures
            *r == self.spec_config(),
    {
        &self.config
    }

    /// The tools to call, in order: none when the connector is disabled.
    pub fn tools_to_call(&self) -> (r: Vec<String>)
        ensures
            r@ == self.spec_tools(),
    {
        if !self.config.enabled || self.config.tools.len() == 0 {
            let r: Vec<String> = Vec::new();
            assert(r@ =~= if self.spec_config().enabled { self.spec_config().tools@ } else { Seq::<String>::empty() });
            r
        } else {
            let r = self.config.tools.clone();
            assert(r@ =~= self.config.tools@);
            r
        }
    }

    /// The tools to call, as `tools_to_call` gives them.
    pub open spec fn spec_tools(&self) -> Seq<String> {
        if self.spec_config().enabled { self.spec_config().tools@ } else { Seq::<String>::empty() }
    }

    /// The feedback of a round of calls, given the result of calling each tool of
    /// `tools_to_call` in order: one entry per tool, in that order (none when the
    /// connector is disabled or has no tools).
    pub fn feedback_from(&self, results: Vec<Result<String, String>>) -> (r: Vec<FeedbackEntry>)
        requires
            results@.len() == self.spec_tools().len(),
        ensures
            r@.len() == self.spec_tools().len(),
            forall|k: int| 0 <= k < r@.len() ==> is_connector_entry(self.spec_tools()[k]@, results@[k], #[trigger] r@[k]),
    {
        let tools = self.tools_to_call();
        let ghost all = results@;
        let mut rest = results;
        let mut out: Vec<FeedbackEntry> = Vec::new();
        let mut k: usize = 0;
        while k < tools.len()
            invariant
                tools@ == self.spec_tools(),
                all.len() == tools@.len(),
                k <= tools@.len(),
                rest@ == all.subrange(k as int, all.len() as int),
                out@.len() == k,
                forall|j: int| 0 <= j < k ==> is_connector_entry(tools@[j]@, all[j], #[trigger] out@[j]),
            decreases tools.len() - k,
        {
            let result = rest.remove(0);
            assert(result == all[k as int]);
            let e = connector_entry(tools[k].as_str(), result);
            out.push(e);
            k = k + 1;
            assert(rest@ =~= all.subrange(k as int, all.len() as int));
        }
        out
    }
}

/// The first `n` characters of `s` (all of them when it is shorter).
pub open spec fn prefix_chars(s: Seq<char>, n: nat) -> Seq<char> {
    if s.len() <= n { s } else { s.subrange(0, n as int) }
}

/// The feedback for one call of `tool` that gave `result`: the size and the first
/// 300 characters of the answer, or the error.
pub open spec fn is_connector_entry(tool: Seq<char>, result: Result<String, String>, r: FeedbackEntry) -> bool {
    &&& r.source@ == "connector:"@ + tool
    &&& r.threshold is None
    &&& match result {
        Ok(resp) => {
            &&& r.kind == FeedbackKind::Info
            &&& r.message@ == "Connector "@ + tool + " returned ("@ + decimal(encode_utf8(resp@).len())
                + " chars)"@
            &&& r.details matches Some(d) && d@ == prefix_chars(resp@, 300)
            &&& r.metric is None
        },
        Err(e) => {
            &&& r.kind == FeedbackKind::Error
            &&& r.message@ == "Connector "@ + tool + " failed: "@ + e@
            &&& r.details is None
            &&& r.metric == Some(Metric::Percent(0))
        },
    }
}

/// The feedback for one tool call, as `is_connector_entry` states.
pub fn connector_entry(tool: &str, result: Result<String, String>) -> (r: FeedbackEntry)
    ensures
        is_connector_entry(tool@, result, r),
{
    let mut source = chars_of("connector:");
    extend_str(&mut source, tool);
    match result {
        Ok(response) => {
            let bytes = response.as_str().as_bytes().len();
            let mut msg = chars_of("Connector ");
            extend_str(&mut msg, tool);
            extend_str(&mut msg, " returned (");
            extend_decimal(&mut msg, bytes as u64);
            extend_str(&mut msg, " chars)");
            let cs = chars_of(response.as_str());
            let mut preview: Vec<char> = Vec::new();
            let mut i: usize = 0;
            while i < cs.len() && i < 300
                invariant
                    i <= cs.len(),
                    i <= 300,
                    preview@ == cs@.subrange(0, i as int),
                decreases cs.len() - i,
            {
                preview.push(cs[i]);
                i = i + 1;
                assert(preview@ =~= cs@.subrange(0, i as int));
            }
            assert(preview@ =~= prefix_chars(response@, 300));
            FeedbackEntry {
                source: string_of(&source),
                kind: FeedbackKind::Info,
                message: string_of(&msg),
                details: Some(string_of(&preview)),
                metric: None,
                threshold: None,
            }
        },
        Err(e) => {
            let mut msg = chars_of("Connector ");
            extend_str(&mut msg, tool);
            extend_str(&mut msg, " failed: ");
            extend_str(&mut msg, e.as_str());
            FeedbackEntry {
                source: string_of(&source),
                kind: FeedbackKind::Error,
                message: string_of(&msg),
                details: None,
                metric: Some(Metric::Percent(0)),
                threshold: None,
            }
        },
    }
}

/// Which collectors an engine gathers feedback from.
#[derive(PartialEq, Eq, Structural, Clone, Copy, Debug)]
pub struct CollectorPlan {
    pub tests: bool,
    pub lint: bool,
    pub profile: bool,
    pub connector: bool,
}

pub open spec fn lists(sources: Seq<Seq<char>>, name: Seq<char>) -> bool {
    exists|i: int| 0 <= i < sources.len() && sources[i] == name
}

fn lists_exec(sources: &Vec<String>, name: &str) -> (r: bool)
    ensures
        r == lists(string_views(sources@), name@),
{
    let ghost views = string_views(sources@);
    let mut i: usize = 0;
    while i < sources.len()
        invariant
            i <= sources.len(),
            views == string_views(sources@),
            forall|j: int| 0 <= j < i ==> views[j] != name@,
        decreases sources.len() - i,
    {
        if crate::text::str_eq(sources[i].as_str(), name) {
            assert(views[i as int] == name@);
            return true;
        }
        i = i + 1;
    }
    false
}

/// The collectors an engine uses: tests for the source "test", clippy for "lint",
/// the profile for "profile", and the connector when it is switched on and has a
/// server address and tools.
pub fn collector_plan(sources: &Vec<String>, connector: &ConnectorConfig) -> (r: CollectorPlan)
    ensures
        r.tests == lists(string_views(sources@), "test"@),
        r.lint == lists(string_views(sources@), "lint"@),
        r.profile == lists(string_views(sources@), "profile"@),
        r.connector == (connector.enabled && connector.server_url@.len() > 0 && connector.tools@.len() > 0),
{
    CollectorPlan {
        tests: lists_exec(sources, "test"),
        lint: lists_exec(sources, "lint"),
        profile: lists_exec(sources, "profile"),
        connector: connector.enabled && !connector.server_url.as_str().is_empty() && connector.tools.len() > 0,
    }
}

} // verus!
