use vstd::prelude::*;
use crate::matching::{compile, is_match, match_count, extension_of, path_extension, regex_compiles, regex_is_match, regex_match_count, CompiledRegex};
use crate::text::{chars_of, string_of, lines, lines_of, line_views, lowercase, to_lowercase, equal_chars, extend_str, extend_decimal, decimal, str_views, string_views};
use crate::types::SecurityAuditEntry;

verus! {

/// Number of dangerous-code patterns.
pub const DANGER_PATTERN_COUNT: usize = 9;

/// A pattern of dangerous code: what it finds, how bad it is, the regular
/// expression, what to say, and the languages it applies to.
pub struct DangerPattern {
    pub type_: Seq<char>,
    pub severity: Seq<char>,
    pub pattern: Seq<char>,
    pub description: Seq<char>,
    pub recommendation: Seq<char>,
    pub langs: Seq<Seq<char>>,
}

/// Dangerous-code pattern `k`.
pub open spec fn danger_pattern(k: int) -> DangerPattern {
    if k == 0 {
        DangerPattern {
            type_: "command_injection"@,
            severity: "critical"@,
            pattern: r#"(?i)(?:exec|spawn|system|popen|shell_exec)\s*\(\s*['"`][^'"`]*rm\s+[-][^'"`]*[/~]"#@,
            description: "Dangerous rm -rf execution detected via command execution function"@,
            recommendation: "Use safe file deletion with proper path validation"@,
            langs: seq!["js"@, "php"@, "py"@],
        }
    } else if k == 1 {
        DangerPattern {
            type_: "dangerous_query"@,
            severity: "critical"@,
            pattern: r#"(?i)db\.(?:exec(?:ute)?|query|run)\s*\(\s*['"`]\s*DROP\s+(?:TABLE|DATABASE)"#@,
            description: "DROP TABLE/DATABASE query detected"@,
            recommendation: "Use migrations with automatic backup; never DROP in production code"@,
            langs: seq!["js"@, "ts"@, "py"@, "go"@, "rs"@],
        }
    } else if k == 2 {
        DangerPattern {
            type_: "dangerous_query"@,
            severity: "high"@,
            pattern: r#"(?i)db\.(?:exec(?:ute)?|query|run)\s*\(\s*['"`]\s*DELETE\s+(?!FROM\s+\()"#@,
            description: "DELETE query without WHERE may delete all rows"@,
            recommendation: "Always specify WHERE clause or use safe migration patterns"@,
            langs: seq!["js"@, "ts"@, "py"@, "go"@],
        }
    } else if k == 3 {
        DangerPattern {
            type_: "dangerous_query"@,
            severity: "high"@,
            pattern: r#"(?i)\bTRUNCATE\s+(?:TABLE\s+)?\w+"#@,
            description: "TRUNCATE detected - irreversible data loss"@,
            recommendation: "Use DELETE with condition or backup first"@,
            langs: seq!["sql"@],
        }
    } else if k == 4 {
        DangerPattern {
            type_: "unsafe_deserialization"@,
            severity: "high"@,
            pattern: r#"(?<!\w)(?:eval|JSON\.parse)\s*\(\s*(?:request|req|body|data|input|userInput)"#@,
            description: "eval() of user input - arbitrary code execution risk"@,
            recommendation: "Avoid eval(); use safe parsers"@,
            langs: seq!["js"@, "ts"@],
        }
    } else if k == 5 {
        DangerPattern {
            type_: "xss"@,
            severity: "high"@,
            pattern: r#"(?i)(?:innerHTML|outerHTML|insertAdjacentHTML)\s*="#@,
            description: "innerHTML assignment - XSS vulnerability"@,
            recommendation: "Use textContent or sanitize with DOMPurify"@,
            langs: seq!["js"@, "ts"@, "html"@],
        }
    } else if k == 6 {
        DangerPattern {
            type_: "sql_injection"@,
            severity: "high"@,
            pattern: r#"(?i)(?:execute|query|run|exec)\s*\(\s*['"`]\s*(?:SELECT|INSERT|UPDATE|DELETE)"#@,
            description: "Raw SQL query - possible SQL injection"@,
            recommendation: "Use parameterized queries or prepared statements"@,
            langs: seq!["js"@, "ts"@, "py"@, "go"@, "java"@, "php"@],
        }
    } else if k == 7 {
        DangerPattern {
            type_: "insecure_crypto"@,
            severity: "medium"@,
            pattern: r#"(?i)(?:MD5|SHA1?)\s*(?:\.|::)(?:hash|digest|create)\s*\(|crypto\.createHash\s*\(\s*['"`](?:md5|sha1)['"`]"#@,
            description: "MD5/SHA-1 hash usage - cryptographically broken"@,
            recommendation: "Use SHA-256 or higher"@,
            langs: seq!["js"@, "ts"@, "py"@, "rs"@],
        }
    } else if k == 8 {
        DangerPattern {
            type_: "path_traversal"@,
            severity: "high"@,
            pattern: r#"(?i)(?:open|readFile|writeFile|unlink|rmdir)\s*\([^)]*\.\.\/"#@,
            description: "Path traversal pattern in file operations"@,
            recommendation: "Use path.resolve() with allowlist-based path validation"@,
            langs: seq!["js"@, "ts"@, "py"@, "go"@, "rs"@],
        }
    } else {
        DangerPattern { type_: seq![], severity: seq![], pattern: seq![], description: seq![], recommendation: seq![], langs: seq![] }
    }
}

struct DangerPatternText {
    type_: &'static str,
    severity: &'static str,
    pattern: &'static str,
    description: &'static str,
    recommendation: &'static str,
    langs: Vec<&'static str>,
}


fn danger_pattern_exec(k: usize) -> (r: DangerPatternText)
    requires
        k < DANGER_PATTERN_COUNT,
    ensures
        r.type_@ == danger_pattern(k as int).type_,
        r.severity@ == danger_pattern(k as int).severity,
        r.pattern@ == danger_pattern(k as int).pattern,
        r.description@ == danger_pattern(k as int).description,
        r.recommendation@ == danger_pattern(k as int).recommendation,
        str_views(r.langs@) == danger_pattern(k as int).langs,
{
    let r = match k {
        0 => DangerPatternText {
            type_: "command_injection",
            severity: "critical",
            pattern: r#"(?i)(?:exec|spawn|system|popen|shell_exec)\s*\(\s*['"`][^'"`]*rm\s+[-][^'"`]*[/~]"#,
            description: "Dangerous rm -rf execution detected via command execution function",
            recommendation: "Use safe file deletion with proper path validation",
            langs: vec!["js", "php", "py"],
        },
        1 => DangerPatternText {
            type_: "dangerous_query",
            severity: "critical",
            pattern: r#"(?i)db\.(?:exec(?:ute)?|query|run)\s*\(\s*['"`]\s*DROP\s+(?:TABLE|DATABASE)"#,
            description: "DROP TABLE/DATABASE query detected",
            recommendation: "Use migrations with automatic backup; never DROP in production code",
            langs: vec!["js", "ts", "py", "go", "rs"],
        },
        2 => DangerPatternText {
            type_: "dangerous_query",
            severity: "high",
            pattern: r#"(?i)db\.(?:exec(?:ute)?|query|run)\s*\(\s*['"`]\s*DELETE\s+(?!FROM\s+\()"#,
            description: "DELETE query without WHERE may delete all rows",
            recommendation: "Always specify WHERE clause or use safe migration patterns",
            langs: vec!["js", "ts", "py", "go"],
        },
        3 => DangerPatternText {
            type_: "dangerous_query",
            severity: "high",
            pattern: r#"(?i)\bTRUNCATE\s+(?:TABLE\s+)?\w+"#,
            description: "TRUNCATE detected - irreversible data loss",
            recommendation: "Use DELETE with condition or backup first",
            langs: vec!["sql"],
        },
        4 => DangerPatternText {
            type_: "unsafe_deserialization",
            severity: "high",
            pattern: r#"(?<!\w)(?:eval|JSON\.parse)\s*\(\s*(?:request|req|body|data|input|userInput)"#,
            description: "eval() of user input - arbitrary code execution risk",
            recommendation: "Avoid eval(); use safe parsers",
            langs: vec!["js", "ts"],
        },
        5 => DangerPatternText {
            type_: "xss",
            severity: "high",
            pattern: r#"(?i)(?:innerHTML|outerHTML|insertAdjacentHTML)\s*="#,
            description: "innerHTML assignment - XSS vulnerability",
            recommendation: "Use textContent or sanitize with DOMPurify",
            langs: vec!["js", "ts", "html"],
        },
        6 => DangerPatternText {
            type_: "sql_injection",
            severity: "high",
            pattern: r#"(?i)(?:execute|query|run|exec)\s*\(\s*['"`]\s*(?:SELECT|INSERT|UPDATE|DELETE)"#,
            description: "Raw SQL query - possible SQL injection",
            recommendation: "Use parameterized queries or prepared statements",
            langs: vec!["js", "ts", "py", "go", "java", "php"],
        },
        7 => DangerPatternText {
            type_: "insecure_crypto",
            severity: "medium",
            pattern: r#"(?i)(?:MD5|SHA1?)\s*(?:\.|::)(?:hash|digest|create)\s*\(|crypto\.createHash\s*\(\s*['"`](?:md5|sha1)['"`]"#,
            description: "MD5/SHA-1 hash usage - cryptographically broken",
            recommendation: "Use SHA-256 or higher",
            langs: vec!["js", "ts", "py", "rs"],
        },
        8 => DangerPatternText {
            type_: "path_traversal",
            severity: "high",
            pattern: r#"(?i)(?:open|readFile|writeFile|unlink|rmdir)\s*\([^)]*\.\.\/"#,
            description: "Path traversal pattern in file operations",
            recommendation: "Use path.resolve() with allowlist-based path validation",
            langs: vec!["js", "ts", "py", "go", "rs"],
        },
        _ => DangerPatternText { type_: "", severity: "", pattern: "", description: "", recommendation: "", langs: vec![] },
    };
    assert(str_views(r.langs@) =~= danger_pattern(k as int).langs);
    r
}


/// The language a (lower-cased) file extension belongs to.
pub open spec fn lang_of(ext: Seq<char>) -> Option<Seq<char>> {
    if ext == "js"@ || ext == "jsx"@ || ext == "mjs"@ || ext == "cjs"@ {
        Some("js"@)
    } else if ext == "ts"@ || ext == "tsx"@ || ext == "mts"@ || ext == "cts"@ {
        Some("ts"@)
    } else if ext == "py"@ || ext == "pyw"@ {
        Some("py"@)
    } else if ext == "rs"@ {
        Some("rs"@)
    } else if ext == "go"@ {
        Some("go"@)
    } else if ext == "java"@ || ext == "kt"@ || ext == "kts"@ {
        Some("java"@)
    } else if ext == "php"@ {
        Some("php"@)
    } else if ext == "sql"@ {
        Some("sql"@)
    } else if ext == "html"@ || ext == "htm"@ || ext == "xhtml"@ {
        Some("html"@)
    } else {
        None
    }
}

fn lang_of_exec(ext: &Vec<char>) -> (r: Option<&'static str>)
    ensures
        match r {
            Some(l) => lang_of(ext@) == Some(l@),
            None => lang_of(ext@) is None,
        },
{
    if equal_chars(ext, &chars_of("js")) || equal_chars(ext, &chars_of("jsx")) || equal_chars(ext, &chars_of("mjs")) || equal_chars(ext, &chars_of("cjs")) {
        Some("js")
    } else if equal_chars(ext, &chars_of("ts")) || equal_chars(ext, &chars_of("tsx")) || equal_chars(ext, &chars_of("mts")) || equal_chars(ext, &chars_of("cts")) {
        Some("ts")
    } else if equal_chars(ext, &chars_of("py")) || equal_chars(ext, &chars_of("pyw")) {
        Some("py")
    } else if equal_chars(ext, &chars_of("rs")) {
        Some("rs")
    } else if equal_chars(ext, &chars_of("go")) {
        Some("go")
    } else if equal_chars(ext, &chars_of("java")) || equal_chars(ext, &chars_of("kt")) || equal_chars(ext, &chars_of("kts")) {
        Some("java")
    } else if equal_chars(ext, &chars_of("php")) {
        Some("php")
    } else if equal_chars(ext, &chars_of("sql")) {
        Some("sql")
    } else if equal_chars(ext, &chars_of("html")) || equal_chars(ext, &chars_of("htm")) || equal_chars(ext, &chars_of("xhtml")) {
        Some("html")
    } else {
        None
    }
}

/// A file handed to the auditor: its path, and its text unless it was too large or
/// could not be read.
pub struct AuditFile {
    pub path: String,
    pub content: Option<String>,
}

/// The mathematical value of a finding.
pub struct AuditEntryView {
    pub type_: Seq<char>,
    pub severity: Seq<char>,
    pub file: Seq<char>,
    pub line: Option<usize>,
    pub description: Seq<char>,
    pub recommendation: Seq<char>,
}

pub open spec fn entry_view(e: SecurityAuditEntry) -> AuditEntryView {
    AuditEntryView {
        type_: e.type_@,
        severity: e.severity@,
        file: e.file@,
        line: e.line,
        description: e.description@,
        recommendation: e.recommendation@,
    }
}

pub open spec fn entry_views(v: Seq<SecurityAuditEntry>) -> Seq<AuditEntryView> {
    v.map_values(|e: SecurityAuditEntry| entry_view(e))
}

/// The finding of pattern `k` on line `n` (counted from 1) of `file`.
pub open spec fn finding(k: int, file: Seq<char>, n: int) -> AuditEntryView {
    let p = danger_pattern(k);
    AuditEntryView {
        type_: p.type_,
        severity: p.severity,
        file,
        line: Some(n as usize),
        description: p.description,
        recommendation: p.recommendation,
    }
}

/// The findings of pattern `k` on the lines `ls`, one per matching line.
pub open spec fn line_findings(k: int, file: Seq<char>, ls: Seq<Seq<char>>) -> Seq<AuditEntryView>
    decreases ls.len(),
{
    if ls.len() == 0 {
        seq![]
    } else {
        line_findings(k, file, ls.drop_last()) + if regex_is_match(danger_pattern(k).pattern, ls.last()) {
            seq![finding(k, file, ls.len() as int)]
        } else {
            seq![]
        }
    }
}

/// The lower-cased extension of a path (empty without one).
pub open spec fn file_ext(path: Seq<char>) -> Seq<char> {
    match path_extension(path) {
        Some(e) => lowercase(e),
        None => Seq::empty(),
    }
}

/// Pattern `k` is checked on files with extension `ext`: it compiles, and the
/// extension's language is one of the pattern's.
pub open spec fn pattern_applies(k: int, ext: Seq<char>) -> bool {
    &&& regex_compiles(danger_pattern(k).pattern)
    &&& lang_of(ext) matches Some(l) && danger_pattern(k).langs.contains(l)
}

/// The findings of the first `n` patterns on a file, pattern by pattern.
pub open spec fn findings_upto(n: int, file: Seq<char>, ls: Seq<Seq<char>>, ext: Seq<char>) -> Seq<AuditEntryView>
    decreases n,
{
    if n <= 0 {
        seq![]
    } else {
        findings_upto(n - 1, file, ls, ext) + if pattern_applies(n - 1, ext) {
            line_findings(n - 1, file, ls)
        } else {
            seq![]
        }
    }
}

/// The findings on one file: none when it was not read.
pub open spec fn file_findings(f: AuditFile) -> Seq<AuditEntryView> {
    match f.content {
        Some(c) => findings_upto(DANGER_PATTERN_COUNT as int, f.path@, lines(c@), file_ext(f.path@)),
        None => seq![],
    }
}

/// The findings on all files, file by file.
pub open spec fn audit_findings(files: Seq<AuditFile>) -> Seq<AuditEntryView>
    decreases files.len(),
{
    if files.len() == 0 {
        seq![]
    } else {
        audit_findings(files.drop_last()) + file_findings(files.last())
    }
}

/// The lines of an audited file: none when it was not read.
pub open spec fn file_lines(f: AuditFile) -> Seq<Seq<char>> {
    match f.content {
        Some(c) => lines(c@),
        None => seq![],
    }
}

/// `e` is the finding of pattern `k` on a line of `ls` that the pattern matches.
pub open spec fn line_finding_ok(k: int, file: Seq<char>, ls: Seq<Seq<char>>, e: AuditEntryView) -> bool {
    exists|n: int| 1 <= n <= ls.len() && regex_is_match(danger_pattern(k).pattern, ls[n - 1]) && e == #[trigger] finding(k, file, n)
}

/// `e` is the finding, on a line it matches, of one of the first `m` patterns that
/// applies to files with extension `ext`.
pub open spec fn pattern_finding_ok(m: int, file: Seq<char>, ls: Seq<Seq<char>>, ext: Seq<char>, e: AuditEntryView) -> bool {
    exists|k: int| 0 <= k < m && pattern_applies(k, ext) && #[trigger] line_finding_ok(k, file, ls, e)
}

/// `e` is a finding on one of `files`: it names that file, a line of it (counted
/// from 1) that a pattern applying to the file's extension matches, and that
/// pattern's type, severity, description and recommendation.
pub open spec fn audit_finding_ok(files: Seq<AuditFile>, e: AuditEntryView) -> bool {
    exists|i: int| 0 <= i < files.len() && #[trigger] pattern_finding_ok(DANGER_PATTERN_COUNT as int, files[i].path@,
        file_lines(files[i]), file_ext(files[i].path@), e)
}

proof fn lemma_line_findings(k: int, file: Seq<char>, ls: Seq<Seq<char>>)
    ensures
        forall|j: int| 0 <= j < line_findings(k, file, ls).len() ==> line_finding_ok(k, file, ls, #[trigger] line_findings(k, file, ls)[j]),
    decreases ls.len(),
{
    if ls.len() > 0 {
        let d = ls.drop_last();
        lemma_line_findings(k, file, d);
        let prev = line_findings(k, file, d);
        let all = line_findings(k, file, ls);
        assert forall|j: int| 0 <= j < all.len() implies line_finding_ok(k, file, ls, #[trigger] all[j]) by {
            if j < prev.len() {
                assert(all[j] == prev[j]);
                assert(line_finding_ok(k, file, d, prev[j]));
                let n = choose|n: int| 1 <= n <= d.len() && regex_is_match(danger_pattern(k).pattern, d[n - 1]) && prev[j] == #[trigger] finding(k, file, n);
                assert(d[n - 1] == ls[n - 1]);
                assert(all[j] == finding(k, file, n));
            } else {
                let n = ls.len() as int;
                assert(all[j] == finding(k, file, n));
            }
        }
    }
}

proof fn lemma_findings_upto(m: int, file: Seq<char>, ls: Seq<Seq<char>>, ext: Seq<char>)
    ensures
        forall|j: int| 0 <= j < findings_upto(m, file, ls, ext).len() ==> pattern_finding_ok(m, file, ls, ext, #[trigger] findings_upto(m, file, ls, ext)[j]),
    decreases m,
{
    if m > 0 {
        lemma_findings_upto(m - 1, file, ls, ext);
        lemma_line_findings(m - 1, file, ls);
        let prev = findings_upto(m - 1, file, ls, ext);
        let all = findings_upto(m, file, ls, ext);
        assert forall|j: int| 0 <= j < all.len() implies pattern_finding_ok(m, file, ls, ext, #[trigger] all[j]) by {
            if j < prev.len() {
                assert(all[j] == prev[j]);
                assert(pattern_finding_ok(m - 1, file, ls, ext, prev[j]));
                let k = choose|k: int| 0 <= k < m - 1 && pattern_applies(k, ext) && #[trigger] line_finding_ok(k, file, ls, prev[j]);
                assert(line_finding_ok(k, file, ls, all[j]));
            } else {
                let lf = line_findings(m - 1, file, ls);
                assert(all[j] == lf[j - prev.len()]);
                assert(line_finding_ok(m - 1, file, ls, all[j]));
            }
        }
    }
}

proof fn lemma_unmapped_no_findings(m: int, file: Seq<char>, ls: Seq<Seq<char>>, ext: Seq<char>)
    requires
        lang_of(ext) is None,
    ensures
        findings_upto(m, file, ls, ext).len() == 0,
    decreases m,
{
    if m > 0 {
        lemma_unmapped_no_findings(m - 1, file, ls, ext);
    }
}

proof fn lemma_no_language()
    ensures
        lang_of(Seq::empty()) is None,
{
    reveal_strlit("js");
    assert("js"@.len() > 0);
    reveal_strlit("jsx");
    assert("jsx"@.len() > 0);
    reveal_strlit("mjs");
    assert("mjs"@.len() > 0);
    reveal_strlit("cjs");
    assert("cjs"@.len() > 0);
    reveal_strlit("ts");
    assert("ts"@.len() > 0);
    reveal_strlit("tsx");
    assert("tsx"@.len() > 0);
    reveal_strlit("mts");
    assert("mts"@.len() > 0);
    reveal_strlit("cts");
    assert("cts"@.len() > 0);
    reveal_strlit("py");
    assert("py"@.len() > 0);
    reveal_strlit("pyw");
    assert("pyw"@.len() > 0);
    reveal_strlit("rs");
    assert("rs"@.len() > 0);
    reveal_strlit("go");
    assert("go"@.len() > 0);
    reveal_strlit("java");
    assert("java"@.len() > 0);
    reveal_strlit("kt");
    assert("kt"@.len() > 0);
    reveal_strlit("kts");
    assert("kts"@.len() > 0);
    reveal_strlit("php");
    assert("php"@.len() > 0);
    reveal_strlit("sql");
    assert("sql"@.len() > 0);
    reveal_strlit("html");
    assert("html"@.len() > 0);
    reveal_strlit("htm");
    assert("htm"@.len() > 0);
    reveal_strlit("xhtml");
    assert("xhtml"@.len() > 0);
}

proof fn lemma_language_names()
    ensures
        lang_of("js"@) == Some("js"@),
        lang_of("ts"@) == Some("ts"@),
        lang_of("py"@) == Some("py"@),
        lang_of("rs"@) == Some("rs"@),
        lang_of("go"@) == Some("go"@),
        lang_of("java"@) == Some("java"@),
        lang_of("php"@) == Some("php"@),
        lang_of("sql"@) == Some("sql"@),
        lang_of("html"@) == Some("html"@),
{
    assert(lang_of("js"@) == Some("js"@)) by {
        reveal_strlit("js");
        reveal_strlit("jsx");
        reveal_strlit("mjs");
        reveal_strlit("cjs");
        reveal_strlit("ts");
        reveal_strlit("tsx");
        reveal_strlit("mts");
        reveal_strlit("cts");
        reveal_strlit("py");
        reveal_strlit("pyw");
        reveal_strlit("rs");
        reveal_strlit("go");
        reveal_strlit("java");
        reveal_strlit("kt");
        reveal_strlit("kts");
        reveal_strlit("php");
        reveal_strlit("sql");
        reveal_strlit("html");
        reveal_strlit("htm");
        reveal_strlit("xhtml");
    }
    assert(lang_of("ts"@) == Some("ts"@)) by {
        reveal_strlit("js");
        reveal_strlit("jsx");
        reveal_strlit("mjs");
        reveal_strlit("cjs");
        reveal_strlit("ts");
        reveal_strlit("tsx");
        reveal_strlit("mts");
        reveal_strlit("cts");
        reveal_strlit("py");
        reveal_strlit("pyw");
        reveal_strlit("rs");
        reveal_strlit("go");
        reveal_strlit("java");
        reveal_strlit("kt");
        reveal_strlit("kts");
        reveal_strlit("php");
        reveal_strlit("sql");
        reveal_strlit("html");
        reveal_strlit("htm");
        reveal_strlit("xhtml");
    }
    assert(lang_of("py"@) == Some("py"@)) by {
        reveal_strlit("js");
        reveal_strlit("jsx");
        reveal_strlit("mjs");
        reveal_strlit("cjs");
        reveal_strlit("ts");
        reveal_strlit("tsx");
        reveal_strlit("mts");
        reveal_strlit("cts");
        reveal_strlit("py");
        reveal_strlit("pyw");
        reveal_strlit("rs");
        reveal_strlit("go");
        reveal_strlit("java");
        reveal_strlit("kt");
        reveal_strlit("kts");
        reveal_strlit("php");
        reveal_strlit("sql");
        reveal_strlit("html");
        reveal_strlit("htm");
        reveal_strlit("xhtml");
    }
    assert(lang_of("rs"@) == Some("rs"@)) by {
        reveal_strlit("js");
        reveal_strlit("jsx");
        reveal_strlit("mjs");
        reveal_strlit("cjs");
        reveal_strlit("ts");
        reveal_strlit("tsx");
        reveal_strlit("mts");
        reveal_strlit("cts");
        reveal_strlit("py");
        reveal_strlit("pyw");
        reveal_strlit("rs");
        reveal_strlit("go");
        reveal_strlit("java");
        reveal_strlit("kt");
        reveal_strlit("kts");
        reveal_strlit("php");
        reveal_strlit("sql");
        reveal_strlit("html");
        reveal_strlit("htm");
        reveal_strlit("xhtml");
    }
    assert(lang_of("go"@) == Some("go"@)) by {
        reveal_strlit("js");
        reveal_strlit("jsx");
        reveal_strlit("mjs");
        reveal_strlit("cjs");
        reveal_strlit("ts");
        reveal_strlit("tsx");
        reveal_strlit("mts");
        reveal_strlit("cts");
        reveal_strlit("py");
        reveal_strlit("pyw");
        reveal_strlit("rs");
        reveal_strlit("go");
        reveal_strlit("java");
        reveal_strlit("kt");
        reveal_strlit("kts");
        reveal_strlit("php");
        reveal_strlit("sql");
        reveal_strlit("html");
        reveal_strlit("htm");
        reveal_strlit("xhtml");
    }
    assert(lang_of("java"@) == Some("java"@)) by {
        reveal_strlit("js");
        reveal_strlit("jsx");
        reveal_strlit("mjs");
        reveal_strlit("cjs");
        reveal_strlit("ts");
        reveal_strlit("tsx");
        reveal_strlit("mts");
        reveal_strlit("cts");
        reveal_strlit("py");
        reveal_strlit("pyw");
        reveal_strlit("rs");
        reveal_strlit("go");
        reveal_strlit("java");
        reveal_strlit("kt");
        reveal_strlit("kts");
        reveal_strlit("php");
        reveal_strlit("sql");
        reveal_strlit("html");
        reveal_strlit("htm");
        reveal_strlit("xhtml");
    }
    assert(lang_of("php"@) == Some("php"@)) by {
        reveal_strlit("js");
        reveal_strlit("jsx");
        reveal_strlit("mjs");
        reveal_strlit("cjs");
        reveal_strlit("ts");
        reveal_strlit("tsx");
        reveal_strlit("mts");
        reveal_strlit("cts");
        reveal_strlit("py");
        reveal_strlit("pyw");
        reveal_strlit("rs");
        reveal_strlit("go");
        reveal_strlit("java");
        reveal_strlit("kt");
        reveal_strlit("kts");
        reveal_strlit("php");
        reveal_strlit("sql");
        reveal_strlit("html");
        reveal_strlit("htm");
        reveal_strlit("xhtml");
        assert("php"@.len() != "js"@.len());
        assert("php"@[0] != "jsx"@[0]);
        assert("php"@[0] != "mjs"@[0]);
        assert("php"@[0] != "cjs"@[0]);
        assert("php"@.len() != "ts"@.len());
        assert("php"@[0] != "tsx"@[0]);
        assert("php"@[0] != "mts"@[0]);
        assert("php"@[0] != "cts"@[0]);
        assert("php"@.len() != "py"@.len());
        assert("php"@[1] != "pyw"@[1]);
        assert("php"@.len() != "rs"@.len());
        assert("php"@.len() != "go"@.len());
        assert("php"@.len() != "java"@.len());
        assert("php"@.len() != "kt"@.len());
        assert("php"@[0] != "kts"@[0]);
        assert("php"@[0] != "sql"@[0]);
        assert("php"@.len() != "html"@.len());
        assert("php"@[0] != "htm"@[0]);
        assert("php"@.len() != "xhtml"@.len());
    }
    assert(lang_of("sql"@) == Some("sql"@)) by {
        reveal_strlit("js");
        reveal_strlit("jsx");
        reveal_strlit("mjs");
        reveal_strlit("cjs");
        reveal_strlit("ts");
        reveal_strlit("tsx");
        reveal_strlit("mts");
        reveal_strlit("cts");
        reveal_strlit("py");
        reveal_strlit("pyw");
        reveal_strlit("rs");
        reveal_strlit("go");
        reveal_strlit("java");
        reveal_strlit("kt");
        reveal_strlit("kts");
        reveal_strlit("php");
        reveal_strlit("sql");
        reveal_strlit("html");
        reveal_strlit("htm");
        reveal_strlit("xhtml");
        assert("sql"@.len() != "js"@.len());
        assert("sql"@[0] != "jsx"@[0]);
        assert("sql"@[0] != "mjs"@[0]);
        assert("sql"@[0] != "cjs"@[0]);
        assert("sql"@.len() != "ts"@.len());
        assert("sql"@[0] != "tsx"@[0]);
        assert("sql"@[0] != "mts"@[0]);
        assert("sql"@[0] != "cts"@[0]);
        assert("sql"@.len() != "py"@.len());
        assert("sql"@[0] != "pyw"@[0]);
        assert("sql"@.len() != "rs"@.len());
        assert("sql"@.len() != "go"@.len());
        assert("sql"@.len() != "java"@.len());
        assert("sql"@.len() != "kt"@.len());
        assert("sql"@[0] != "kts"@[0]);
        assert("sql"@[0] != "php"@[0]);
        assert("sql"@.len() != "html"@.len());
        assert("sql"@[0] != "htm"@[0]);
        assert("sql"@.len() != "xhtml"@.len());
    }
    assert(lang_of("html"@) == Some("html"@)) by {
        reveal_strlit("js");
        reveal_strlit("jsx");
        reveal_strlit("mjs");
        reveal_strlit("cjs");
        reveal_strlit("ts");
        reveal_strlit("tsx");
        reveal_strlit("mts");
        reveal_strlit("cts");
        reveal_strlit("py");
        reveal_strlit("pyw");
        reveal_strlit("rs");
        reveal_strlit("go");
        reveal_strlit("java");
        reveal_strlit("kt");
        reveal_strlit("kts");
        reveal_strlit("php");
        reveal_strlit("sql");
        reveal_strlit("html");
        reveal_strlit("htm");
        reveal_strlit("xhtml");
    }
}

/// Every language a dangerous pattern is checked for is the language of the file
/// extension of the same name: a pattern for "py" is checked on `.py` files, one for
/// "js" on `.js` files, and so on.
pub proof fn law_pattern_languages_are_extensions(k: int, j: int)
    requires
        0 <= k < DANGER_PATTERN_COUNT,
        0 <= j < danger_pattern(k).langs.len(),
    ensures
        lang_of(danger_pattern(k).langs[j]) == Some(danger_pattern(k).langs[j]),
{
    lemma_language_names();
}

proof fn lemma_line_findings_complete(k: int, file: Seq<char>, ls: Seq<Seq<char>>, n: int)
    requires
        1 <= n <= ls.len(),
        regex_is_match(danger_pattern(k).pattern, ls[n - 1]),
    ensures
        line_findings(k, file, ls).contains(finding(k, file, n)),
    decreases ls.len(),
{
    let d = ls.drop_last();
    if n == ls.len() {
        let pre = line_findings(k, file, d);
        assert(line_findings(k, file, ls)[pre.len() as int] == finding(k, file, n));
    } else {
        assert(d[n - 1] == ls[n - 1]);
        lemma_line_findings_complete(k, file, d, n);
        let i = choose|i: int| 0 <= i < line_findings(k, file, d).len() && line_findings(k, file, d)[i] == finding(k, file, n);
        assert(line_findings(k, file, ls)[i] == finding(k, file, n));
    }
}

proof fn lemma_findings_upto_complete(m: int, k: int, file: Seq<char>, ls: Seq<Seq<char>>, ext: Seq<char>, n: int)
    requires
        0 <= k < m,
        pattern_applies(k, ext),
        1 <= n <= ls.len(),
        regex_is_match(danger_pattern(k).pattern, ls[n - 1]),
    ensures
        findings_upto(m, file, ls, ext).contains(finding(k, file, n)),
    decreases m,
{
    let pre = findings_upto(m - 1, file, ls, ext);
    if k == m - 1 {
        lemma_line_findings_complete(k, file, ls, n);
        let lf = line_findings(k, file, ls);
        let i = choose|i: int| 0 <= i < lf.len() && lf[i] == finding(k, file, n);
        assert(findings_upto(m, file, ls, ext)[pre.len() + i] == finding(k, file, n));
    } else {
        lemma_findings_upto_complete(m - 1, k, file, ls, ext, n);
        let i = choose|i: int| 0 <= i < pre.len() && pre[i] == finding(k, file, n);
        assert(findings_upto(m, file, ls, ext)[i] == finding(k, file, n));
    }
}

/// An audit misses nothing: on a file that was read, every line that a dangerous
/// pattern matches, where the pattern compiles and is checked for the language of
/// the file's extension, is reported as a finding of that pattern at that line.
pub proof fn law_audit_findings_complete(files: Seq<AuditFile>, i: int, k: int, n: int)
    requires
        0 <= i < files.len(),
        files[i].content is Some,
        0 <= k < DANGER_PATTERN_COUNT,
        regex_compiles(danger_pattern(k).pattern),
        lang_of(file_ext(files[i].path@)) matches Some(l) && danger_pattern(k).langs.contains(l),
        1 <= n <= lines(files[i].content->0@).len(),
        regex_is_match(danger_pattern(k).pattern, lines(files[i].content->0@)[n - 1]),
    ensures
        audit_findings(files).contains(finding(k, files[i].path@, n)),
    decreases files.len(),
{
    let d = files.drop_last();
    let e = finding(k, files[i].path@, n);
    if i == files.len() - 1 {
        let f = files.last();
        let c = f.content->0;
        lemma_findings_upto_complete(DANGER_PATTERN_COUNT as int, k, f.path@, lines(c@), file_ext(f.path@), n);
        let ff = file_findings(f);
        let j = choose|j: int| 0 <= j < ff.len() && ff[j] == e;
        assert(audit_findings(files)[audit_findings(d).len() + j] == e);
    } else {
        assert(d[i] == files[i]);
        law_audit_findings_complete(d, i, k, n);
        let j = choose|j: int| 0 <= j < audit_findings(d).len() && audit_findings(d)[j] == e;
        assert(audit_findings(files)[j] == e);
    }
}

/// Every finding of an audit is sound: it names one of the audited files, a line of
/// that file, and the type, severity, description and recommendation of a dangerous
/// pattern that applies to the file's extension and matches that line. A file that
/// was not read, or whose extension (or lack of one) maps to no language, adds no
/// finding.
pub proof fn law_audit_findings_sound(files: Seq<AuditFile>)
    ensures
        forall|j: int| 0 <= j < audit_findings(files).len() ==> audit_finding_ok(files, #[trigger] audit_findings(files)[j]),
        forall|i: int| 0 <= i < files.len() && (#[trigger] files[i]).content is None ==> file_findings(files[i]).len() == 0,
        forall|i: int| 0 <= i < files.len() && lang_of(file_ext((#[trigger] files[i]).path@)) is None ==> file_findings(files[i]).len() == 0,
        forall|i: int| 0 <= i < files.len() && path_extension((#[trigger] files[i]).path@) is None ==> file_findings(files[i]).len() == 0,
    decreases files.len(),
{
    lemma_no_language();
    assert forall|i: int| 0 <= i < files.len() && lang_of(file_ext((#[trigger] files[i]).path@)) is None implies file_findings(files[i]).len() == 0 by {
        lemma_unmapped_no_findings(DANGER_PATTERN_COUNT as int, files[i].path@, file_lines(files[i]), file_ext(files[i].path@));
    }
    if files.len() > 0 {
        let d = files.drop_last();
        law_audit_findings_sound(d);
        let f = files.last();
        let prev = audit_findings(d);
        let all = audit_findings(files);
        let m = DANGER_PATTERN_COUNT as int;
        lemma_findings_upto(m, f.path@, file_lines(f), file_ext(f.path@));
        assert forall|j: int| 0 <= j < all.len() implies audit_finding_ok(files, #[trigger] all[j]) by {
            if j < prev.len() {
                assert(all[j] == prev[j]);
                assert(audit_finding_ok(d, prev[j]));
                let i = choose|i: int| 0 <= i < d.len() && #[trigger] pattern_finding_ok(m, d[i].path@, file_lines(d[i]), file_ext(d[i].path@), prev[j]);
                assert(d[i] == files[i]);
                assert(pattern_finding_ok(m, files[i].path@, file_lines(files[i]), file_ext(files[i].path@), all[j]));
            } else {
                let i = files.len() - 1;
                assert(files[i] == f);
                match f.content {
                    Some(c) => {
                        let ff = findings_upto(m, f.path@, lines(c@), file_ext(f.path@));
                        assert(all[j] == ff[j - prev.len()]);
                    },
                    None => {},
                }
                assert(pattern_finding_ok(m, files[i].path@, file_lines(files[i]), file_ext(files[i].path@), all[j]));
            }
        }
    }
}

/// Finds dangerous code: destructive commands and queries, injection, weak hashes and
/// path traversal.
pub struct SecurityAuditor;

fn pattern_findings(
    k: usize,
    re: &CompiledRegex,
    path: &String,
    ls: &Vec<Vec<char>>,
    out: &mut Vec<SecurityAuditEntry>,
)
    requires
        k < DANGER_PATTERN_COUNT,
        re.source() == danger_pattern(k as int).pattern,
    ensures
        entry_views(final(out)@) == entry_views(old(out)@) + line_findings(k as int, path@, line_views(ls@)),
{
    let ghost views = line_views(ls@);
    let ghost start = entry_views(out@);
    let p = danger_pattern_exec(k);
    let mut i: usize = 0;
    assert(views.take(0) =~= Seq::<Seq<char>>::empty());
    assert(start + line_findings(k as int, path@, views.take(0)) =~= start);
    while i < ls.len()
        invariant
            i <= ls.len(),
            views == line_views(ls@),
            k < DANGER_PATTERN_COUNT,
            re.source() == danger_pattern(k as int).pattern,
            p.type_@ == danger_pattern(k as int).type_,
            p.severity@ == danger_pattern(k as int).severity,
            p.description@ == danger_pattern(k as int).description,
            p.recommendation@ == danger_pattern(k as int).recommendation,
            entry_views(out@) == start + line_findings(k as int, path@, views.take(i as int)),
        decreases ls.len() - i,
    {
        assert(views.take(i + 1).drop_last() =~= views.take(i as int));
        assert(views.take(i + 1).last() == ls@[i as int]@);
        let line = string_of(&ls[i]);
        if is_match(re, line.as_str()) {
            let e = SecurityAuditEntry {
                type_: String::from_str(p.type_),
                severity: String::from_str(p.severity),
                file: path.clone(),
                line: Some(i + 1),
                description: String::from_str(p.description),
                recommendation: String::from_str(p.recommendation),
            };
            let ghost before = out@;
            out.push(e);
            assert(entry_views(out@) =~= entry_views(before).push(entry_view(e)));
        }
        i = i + 1;
        assert(entry_views(out@) =~= start + line_findings(k as int, path@, views.take(i as int)));
    }
    assert(views.take(ls.len() as int) =~= views);
}

fn has_lang(langs: &Vec<&'static str>, l: &str) -> (r: bool)
    ensures
        r == str_views(langs@).contains(l@),
{
    let lc = chars_of(l);
    let mut i: usize = 0;
    while i < langs.len()
        invariant
            i <= langs.len(),
            lc@ == l@,
            forall|j: int| 0 <= j < i ==> str_views(langs@)[j] != l@,
        decreases langs.len() - i,
    {
        if equal_chars(&chars_of(langs[i]), &lc) {
            assert(str_views(langs@)[i as int] == l@);
            return true;
        }
        i = i + 1;
    }
    false
}

impl SecurityAuditor {
    pub fn new() -> (r: Self) {
        SecurityAuditor
    }

    /// Audits the files: the findings of every pattern that applies to a file, on
    /// every line it matches, file by file and pattern by pattern.
    pub fn audit(&self, files: &Vec<AuditFile>) -> (r: Vec<SecurityAuditEntry>)
        ensures
            entry_views(r@) == audit_findings(files@),
    {
        let mut compiled: Vec<Option<CompiledRegex>> = Vec::new();
        let mut k: usize = 0;
        while k < DANGER_PATTERN_COUNT
            invariant
                k <= DANGER_PATTERN_COUNT,
                compiled@.len() == k,
                forall|j: int| 0 <= j < k ==> match #[trigger] compiled@[j] {
                    Some(c) => regex_compiles(danger_pattern(j).pattern) && c.source() == danger_pattern(j).pattern,
                    None => !regex_compiles(danger_pattern(j).pattern),
                },
            decreases DANGER_PATTERN_COUNT - k,
        {
            let p = danger_pattern_exec(k);
            compiled.push(compile(p.pattern));
            k = k + 1;
        }
        let mut out: Vec<SecurityAuditEntry> = Vec::new();
        let mut fi: usize = 0;
        assert(entry_views(out@) =~= audit_findings(files@.take(0)));
        while fi < files.len()
            invariant
                fi <= files.len(),
                compiled@.len() == DANGER_PATTERN_COUNT,
                forall|j: int| 0 <= j < DANGER_PATTERN_COUNT ==> match #[trigger] compiled@[j] {
                    Some(c) => regex_compiles(danger_pattern(j).pattern) && c.source() == danger_pattern(j).pattern,
                    None => !regex_compiles(danger_pattern(j).pattern),
                },
                entry_views(out@) == audit_findings(files@.take(fi as int)),
            decreases files.len() - fi,
        {
            let f = &files[fi];
            assert(files@.take(fi + 1).drop_last() =~= files@.take(fi as int));
            assert(files@.take(fi + 1).last() == *f);
            if let Some(content) = &f.content {
                let ext_raw = extension_of(f.path.as_str());
                let ext = match &ext_raw {
                    Some(e) => chars_of(to_lowercase(e.as_str()).as_str()),
                    None => Vec::new(),
                };
                assert(ext@ == file_ext(f.path@));
                let lang = lang_of_exec(&ext);
                let cs = chars_of(content.as_str());
                let ls = lines_of(&cs);
                let ghost lv = line_views(ls@);
                let ghost start = entry_views(out@);
                let mut k: usize = 0;
                while k < DANGER_PATTERN_COUNT
                    invariant
                        k <= DANGER_PATTERN_COUNT,
                        compiled@.len() == DANGER_PATTERN_COUNT,
                        forall|j: int| 0 <= j < DANGER_PATTERN_COUNT ==> match #[trigger] compiled@[j] {
                            Some(c) => regex_compiles(danger_pattern(j).pattern) && c.source() == danger_pattern(j).pattern,
                            None => !regex_compiles(danger_pattern(j).pattern),
                        },
                        lv == line_views(ls@),
                        lv == lines(content@),
                        ext@ == file_ext(f.path@),
                        match lang {
                            Some(l) => lang_of(ext@) == Some(l@),
                            None => lang_of(ext@) is None,
                        },
                        entry_views(out@) == start + findings_upto(k as int, f.path@, lv, ext@),
                    decreases DANGER_PATTERN_COUNT - k,
                {
                    let ghost before = entry_views(out@);
                    let applies = match &compiled[k] {
                        Some(re) => match lang {
                            Some(l) => {
                                let p = danger_pattern_exec(k);
                                has_lang(&p.langs, l)
                            },
                            None => false,
                        },
                        None => false,
                    };
                    assert(applies == pattern_applies(k as int, ext@));
                    if applies {
                        match &compiled[k] {
                            Some(re) => {
                                pattern_findings(k, re, &f.path, &ls, &mut out);
                            },
                            None => {},
                        }
                    }
                    assert(entry_views(out@) =~= start + findings_upto(k + 1, f.path@, lv, ext@));
                    k = k + 1;
                }
                assert(entry_views(out@) == audit_findings(files@.take(fi + 1)));
            } else {
                assert(entry_views(out@) =~= audit_findings(files@.take(fi + 1)));
            }
            fi = fi + 1;
        }
        assert(files@.take(files.len() as int) =~= files@);
        out
    }
}


/// A clean-code pattern: the regular expression, what it finds, what to do.
pub open spec fn clean_code_pattern(k: int) -> (Seq<char>, Seq<char>, Seq<char>) {
    if k == 0 {
        ("catch\\s*\\([^)]*\\)\\s*\\{"@, "Generic catch clause"@, "Type the error or add specific error handling"@)
    } else {
        ("//\\s*(TODO|todo|FIXME|fixme|HACK|hack)"@, "Code smell: TODO/FIXME/HACK"@, "Address the technical debt"@)
    }
}

fn clean_code_pattern_exec(k: usize) -> (r: (&'static str, &'static str, &'static str))
    requires
        k < 2,
    ensures
        (r.0@, r.1@, r.2@) == clean_code_pattern(k as int),
{
    if k == 0 {
        ("catch\\s*\\([^)]*\\)\\s*\\{", "Generic catch clause", "Type the error or add specific error handling")
    } else {
        ("//\\s*(TODO|todo|FIXME|fixme|HACK|hack)", "Code smell: TODO/FIXME/HACK", "Address the technical debt")
    }
}

/// The issue and suggestion clean-code pattern `k` gives on `content`, if it
/// compiles and matches at least once.
pub open spec fn pattern_issue(k: int, content: Seq<char>) -> Seq<(Seq<char>, Seq<char>)> {
    let (pat, desc, sugg) = clean_code_pattern(k);
    if regex_compiles(pat) && regex_match_count(pat, content) > 0 {
        seq![(desc + " ("@ + decimal(regex_match_count(pat, content)) + " occurrences)"@, sugg)]
    } else {
        seq![]
    }
}

/// The issues and suggestions found in a file's text: each clean-code pattern that
/// matches, with its number of matches, then a length warning above 500 lines.
pub open spec fn analysis(content: Seq<char>) -> Seq<(Seq<char>, Seq<char>)> {
    pattern_issue(0, content) + pattern_issue(1, content) + if lines(content).len() > 500 {
        seq![("File too long: "@ + decimal(lines(content).len()) + " lines"@, "Split into smaller modules"@)]
    } else {
        seq![]
    }
}

pub open spec fn firsts(v: Seq<(Seq<char>, Seq<char>)>) -> Seq<Seq<char>> {
    v.map_values(|p: (Seq<char>, Seq<char>)| p.0)
}

pub open spec fn seconds(v: Seq<(Seq<char>, Seq<char>)>) -> Seq<Seq<char>> {
    v.map_values(|p: (Seq<char>, Seq<char>)| p.1)
}


/// Finds clean-code problems: generic catch clauses, TODO-style markers, long files.
pub struct RefactorEngine;

impl RefactorEngine {
    pub fn new() -> (r: Self) {
        RefactorEngine
    }

    /// Issues and suggestions for a file's text; a file that could not be read gives
    /// the single issue "Cannot read file" and no suggestion.
    pub fn analyze(&self, content: Option<&str>) -> (r: (Vec<String>, Vec<String>))
        ensures
            content is None ==> string_views(r.0@) == seq!["Cannot read file"@] && r.1@.len() == 0,
            content matches Some(c) ==> string_views(r.0@) == firsts(analysis(c@)) && string_views(r.1@)
                == seconds(analysis(c@)),
    {
        let c = match content {
            Some(c) => c,
            None => {
                let mut issues: Vec<String> = Vec::new();
                issues.push(String::from_str("Cannot read file"));
                assert(string_views(issues@) =~= seq!["Cannot read file"@]);
                return (issues, Vec::new());
            },
        };
        let mut issues: Vec<String> = Vec::new();
        let mut suggestions: Vec<String> = Vec::new();
        let mut k: usize = 0;
        let ghost acc: Seq<(Seq<char>, Seq<char>)> = seq![];
        while k < 2
            invariant
                k <= 2,
                string_views(issues@) == firsts(acc),
                string_views(suggestions@) == seconds(acc),
                acc == if k == 0 { seq![] } else if k == 1 { pattern_issue(0, c@) } else { pattern_issue(0, c@)
                    + pattern_issue(1, c@) },
            decreases 2 - k,
        {
            let (pat, desc, sugg) = clean_code_pattern_exec(k);
            let ghost before = acc;
            if let Some(re) = compile(pat) {
                let count = match_count(&re, c);
                if count > 0 {
                    let mut msg = chars_of(desc);
                    extend_str(&mut msg, " (");
                    extend_decimal(&mut msg, count as u64);
                    extend_str(&mut msg, " occurrences)");
                    let ghost ib = issues@;
                    let ghost sb = suggestions@;
                    issues.push(string_of(&msg));
                    suggestions.push(String::from_str(sugg));
                    proof {
                        let old_acc = acc;
                        acc = acc + seq![(msg@, sugg@)];
                        assert(firsts(acc) =~= firsts(old_acc).push(msg@));
                        assert(seconds(acc) =~= seconds(old_acc).push(sugg@));
                        assert(string_views(issues@) =~= string_views(ib).push(msg@));
                        assert(string_views(suggestions@) =~= string_views(sb).push(sugg@));
                    }
                }
            }
            proof {
                assert(acc =~= before + pattern_issue(k as int, c@));
                if k == 0 {
                    assert(acc =~= pattern_issue(0, c@));
                }
            }
            k = k + 1;
        }
        let cs = chars_of(c);
        let ls = lines_of(&cs);
        assert(line_views(ls@).len() == ls@.len());
        if ls.len() > 500 {
            let mut msg = chars_of("File too long: ");
            extend_decimal(&mut msg, ls.len() as u64);
            extend_str(&mut msg, " lines");
            let ghost ib = issues@;
            let ghost sb = suggestions@;
            issues.push(string_of(&msg));
            suggestions.push(String::from_str("Split into smaller modules"));
            proof {
                let old_acc = acc;
                acc = acc + seq![(msg@, "Split into smaller modules"@)];
                assert(firsts(acc) =~= firsts(old_acc).push(msg@));
                assert(seconds(acc) =~= seconds(old_acc).push("Split into smaller modules"@));
                assert(string_views(issues@) =~= string_views(ib).push(msg@));
                assert(string_views(suggestions@) =~= string_views(sb).push("Split into smaller modules"@));
            }
        } else {
            proof {
                acc = acc + Seq::<(Seq<char>, Seq<char>)>::empty();
            }
        }
        assert(acc =~= analysis(c@));
        assert(string_views(issues@) =~= firsts(acc));
        assert(string_views(suggestions@) =~= seconds(acc));
        (issues, suggestions)
    }
}

/// Guards against the loss of critical code.
pub struct AntiDeletionGuard;

impl AntiDeletionGuard {
    pub fn new() -> (r: Self) {
        AntiDeletionGuard
    }

    /// The integrity check: it always passes, since no baseline is kept.
    pub fn check_integrity(&self) -> (r: Result<String, String>)
        ensures
            r matches Ok(m) && m@ == "Integrity check passed: no baseline violations detected (baseline system not yet implemented in Rust version)"@,
    {
        Ok(String::from_str("Integrity check passed: no baseline violations detected (baseline system not yet implemented in Rust version)"))
    }
}

} // verus!
