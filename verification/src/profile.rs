use vstd::prelude::*;
use crate::text::{lemma_lines_append, lemma_lines_newline, strip_cr, lowercase, to_lowercase, join, extend_join, extend_decimal, decimal, string_views, str_views, chars_of, string_of, extend_chars, extend_str, ends_with, equal_chars, contains, contains_chars, lines, lines_of, line_views, trim, trim_range, starts_with, starts_with_chars};

verus! {

/// Number of profile rules.
pub const RULE_COUNT: usize = 16;

/// The patterns of profile rule `k`: an indicator that contains one of them speaks
/// for the rule's profile.
pub open spec fn rule_patterns(k: int) -> Seq<Seq<char>> {
    if k == 0 {
        seq!["enterprise"@, "saml"@, "ldap"@, "okta"@, "keycloak"@, "active-directory"@, "compliance"@, "hipaa"@, "sox"@, "pci-dss"@, "rbac"@, "abac"@, "multi-tenant"@]
    } else if k == 1 {
        seq!["gamestudio"@, "game-studio"@, "entertainment"@, "interactive"@, "production"@, "media"@, "creative"@, "arts"@, "film"@, "vfx"@]
    } else if k == 2 {
        seq!["unreal"@, "unity"@, "godot"@, "bevy"@, "amethyst"@, "three.js"@, "babylon"@]
    } else if k == 3 {
        seq!["photosh"@, "adobe"@, "maya"@, "blender"@, "substance"@, "houdini"@, "nuke"@, "fusion360"@, "autocad"@, "solidworks"@]
    } else if k == 4 {
        seq!["matlab"@, "simulink"@, "ansys"@, "comsol"@, "wolfram"@, "maple"@]
    } else if k == 5 {
        seq!["datadog"@, "newrelic"@, "databricks"@, "snowflake"@, "sentry"@, "elastic"@, "grafana"@]
    } else if k == 6 {
        seq!["startup"@, "saas"@, "b2b"@, "b2c"@, "mobile"@, "ios"@, "android"@, "react-native"@, "flutter"@]
    } else if k == 7 {
        seq!["education"@, "edtech"@, "course"@, "tutorial"@, "learning"@, "academy"@]
    } else if k == 8 {
        seq!["opensource"@, "open-source"@, "open_source"@, "oss"@, "mit"@, "apache-2.0"@, "gpl"@, "lgpl"@]
    } else if k == 9 {
        seq!["blockchain"@, "web3"@, "ethereum"@, "solana"@, "near"@, "cosmos"@, "crypto"@, "nft"@, "defi"@]
    } else if k == 10 {
        seq!["ai"@, "ml"@, "deep-learning"@, "machine-learning"@, "neural"@, "llm"@, "gpt"@, "transformer"@, "pytorch"@, "tensorflow"@]
    } else if k == 11 {
        seq!["robotics"@, "ros"@, "automation"@, "industrial"@, "iot"@, "embedded"@]
    } else if k == 12 {
        seq!["government"@, "public-sector"@, "ministry"@, "federal"@, "state"@, "agency"@]
    } else if k == 13 {
        seq!["e-commerce"@, "ecommerce"@, "shopify"@, "woocommerce"@, "magento"@, "retail"@]
    } else if k == 14 {
        seq!["health"@, "healthcare"@, "medtech"@, "bio"@, "pharma"@, "clinical"@, "hospital"@]
    } else if k == 15 {
        seq!["fintech"@, "banking"@, "finance"@, "payment"@, "insurance"@, "investment"@]
    } else {
        seq![]
    }
}

/// The profile named by rule `k`.
pub open spec fn rule_label(k: int) -> Seq<char> {
    if k == 0 {
        "enterprise"@
    } else if k == 1 {
        "studio"@
    } else if k == 2 {
        "game-dev"@
    } else if k == 3 {
        "3d-artist"@
    } else if k == 4 {
        "research"@
    } else if k == 5 {
        "devops"@
    } else if k == 6 {
        "startup"@
    } else if k == 7 {
        "education"@
    } else if k == 8 {
        "open-source"@
    } else if k == 9 {
        "blockchain"@
    } else if k == 10 {
        "ai-ml"@
    } else if k == 11 {
        "industrial"@
    } else if k == 12 {
        "government"@
    } else if k == 13 {
        "ecommerce"@
    } else if k == 14 {
        "healthcare"@
    } else if k == 15 {
        "fintech"@
    } else {
        seq![]
    }
}


fn rule_patterns_exec(k: usize) -> (r: Vec<&'static str>)
    requires
        k < RULE_COUNT,
    ensures
        str_views(r@) == rule_patterns(k as int),
{
    let r = match k {
        0 => vec!["enterprise", "saml", "ldap", "okta", "keycloak", "active-directory", "compliance", "hipaa", "sox", "pci-dss", "rbac", "abac", "multi-tenant"],
        1 => vec!["gamestudio", "game-studio", "entertainment", "interactive", "production", "media", "creative", "arts", "film", "vfx"],
        2 => vec!["unreal", "unity", "godot", "bevy", "amethyst", "three.js", "babylon"],
        3 => vec!["photosh", "adobe", "maya", "blender", "substance", "houdini", "nuke", "fusion360", "autocad", "solidworks"],
        4 => vec!["matlab", "simulink", "ansys", "comsol", "wolfram", "maple"],
        5 => vec!["datadog", "newrelic", "databricks", "snowflake", "sentry", "elastic", "grafana"],
        6 => vec!["startup", "saas", "b2b", "b2c", "mobile", "ios", "android", "react-native", "flutter"],
        7 => vec!["education", "edtech", "course", "tutorial", "learning", "academy"],
        8 => vec!["opensource", "open-source", "open_source", "oss", "mit", "apache-2.0", "gpl", "lgpl"],
        9 => vec!["blockchain", "web3", "ethereum", "solana", "near", "cosmos", "crypto", "nft", "defi"],
        10 => vec!["ai", "ml", "deep-learning", "machine-learning", "neural", "llm", "gpt", "transformer", "pytorch", "tensorflow"],
        11 => vec!["robotics", "ros", "automation", "industrial", "iot", "embedded"],
        12 => vec!["government", "public-sector", "ministry", "federal", "state", "agency"],
        13 => vec!["e-commerce", "ecommerce", "shopify", "woocommerce", "magento", "retail"],
        14 => vec!["health", "healthcare", "medtech", "bio", "pharma", "clinical", "hospital"],
        15 => vec!["fintech", "banking", "finance", "payment", "insurance", "investment"],
        _ => vec![],
    };
    assert(str_views(r@) =~= rule_patterns(k as int));
    r
}

fn rule_label_exec(k: usize) -> (r: &'static str)
    requires
        k < RULE_COUNT,
    ensures
        r@ == rule_label(k as int),
{
    match k {
        0 => "enterprise",
        1 => "studio",
        2 => "game-dev",
        3 => "3d-artist",
        4 => "research",
        5 => "devops",
        6 => "startup",
        7 => "education",
        8 => "open-source",
        9 => "blockchain",
        10 => "ai-ml",
        11 => "industrial",
        12 => "government",
        13 => "ecommerce",
        14 => "healthcare",
        15 => "fintech",
        _ => "",
    }
}


/// One of the indicators contains `pat`.
pub open spec fn any_contains(inds: Seq<Seq<char>>, pat: Seq<char>) -> bool {
    exists|i: int| 0 <= i < inds.len() && contains(#[trigger] inds[i], pat)
}

/// How many of `pats` occur in some indicator.
pub open spec fn pattern_hits(pats: Seq<Seq<char>>, inds: Seq<Seq<char>>) -> nat
    decreases pats.len(),
{
    if pats.len() == 0 {
        0
    } else {
        pattern_hits(pats.drop_last(), inds) + if any_contains(inds, pats.last()) { 1nat } else { 0nat }
    }
}

/// The score of rule `k`: its patterns found among the indicators, one more for the
/// enterprise profile when enterprise configuration was found, and one more for the
/// studio and 3d-artist profiles when paid tools were found.
pub open spec fn rule_score(k: int, enterprise: bool, paid_tools: bool, inds: Seq<Seq<char>>) -> nat {
    pattern_hits(rule_patterns(k), inds)
        + (if k == 0 && enterprise { 1nat } else { 0nat })
        + (if (k == 1 || k == 3) && paid_tools { 1nat } else { 0nat })
}

/// Rule `k` wins: it scores, no rule scores more, and every earlier rule scores less.
pub open spec fn rule_wins(k: int, enterprise: bool, paid_tools: bool, inds: Seq<Seq<char>>) -> bool {
    &&& 0 <= k < RULE_COUNT
    &&& rule_score(k, enterprise, paid_tools, inds) >= 1
    &&& forall|j: int| 0 <= j < RULE_COUNT ==> #[trigger] rule_score(j, enterprise, paid_tools, inds)
        <= rule_score(k, enterprise, paid_tools, inds)
    &&& forall|j: int| 0 <= j < k ==> #[trigger] rule_score(j, enterprise, paid_tools, inds)
        < rule_score(k, enterprise, paid_tools, inds)
}

/// At most one rule wins, so the profile given to a project does not depend on the
/// order in which the rules are looked at.
pub proof fn law_one_winning_rule(k1: int, k2: int, enterprise: bool, paid_tools: bool, inds: Seq<Seq<char>>)
    requires
        rule_wins(k1, enterprise, paid_tools, inds),
        rule_wins(k2, enterprise, paid_tools, inds),
    ensures
        k1 == k2,
{
    if k1 < k2 {
        assert(rule_score(k1, enterprise, paid_tools, inds) < rule_score(k2, enterprise, paid_tools, inds));
        assert(rule_score(k2, enterprise, paid_tools, inds) <= rule_score(k1, enterprise, paid_tools, inds));
    } else if k2 < k1 {
        assert(rule_score(k2, enterprise, paid_tools, inds) < rule_score(k1, enterprise, paid_tools, inds));
        assert(rule_score(k1, enterprise, paid_tools, inds) <= rule_score(k2, enterprise, paid_tools, inds));
    }
}

/// The profile given to a project: the winning rule's label; without any scoring
/// rule, "unknown" when there are no indicators and "indie" otherwise.
pub open spec fn spec_classify(enterprise: bool, paid_tools: bool, inds: Seq<Seq<char>>) -> Seq<char> {
    if exists|k: int| rule_wins(k, enterprise, paid_tools, inds) {
        rule_label(choose|k: int| rule_wins(k, enterprise, paid_tools, inds))
    } else if inds.len() == 0 {
        "unknown"@
    } else {
        "indie"@
    }
}

pub open spec fn char_views(v: Seq<Vec<char>>) -> Seq<Seq<char>> {
    v.map_values(|c: Vec<char>| c@)
}


fn any_indicator_contains(inds: &Vec<Vec<char>>, pat: &Vec<char>) -> (r: bool)
    ensures
        r == any_contains(char_views(inds@), pat@),
{
    let ghost views = char_views(inds@);
    let mut i: usize = 0;
    while i < inds.len()
        invariant
            i <= inds.len(),
            views == char_views(inds@),
            forall|j: int| 0 <= j < i ==> !contains(#[trigger] views[j], pat@),
        decreases inds.len() - i,
    {
        if contains_chars(&inds[i], pat) {
            assert(contains(views[i as int], pat@));
            return true;
        }
        i = i + 1;
    }
    false
}

fn hits_of_rule(k: usize, inds: &Vec<Vec<char>>) -> (n: u64)
    requires
        k < RULE_COUNT,
    ensures
        n == pattern_hits(rule_patterns(k as int), char_views(inds@)),
        n <= 16,
{
    let pats = rule_patterns_exec(k);
    let ghost ps = rule_patterns(k as int);
    let ghost views = char_views(inds@);
    assert(ps.len() <= 16);
    let mut n: u64 = 0;
    let mut j: usize = 0;
    while j < pats.len()
        invariant
            j <= pats.len(),
            str_views(pats@) == ps,
            ps.len() <= 16,
            views == char_views(inds@),
            n == pattern_hits(ps.take(j as int), views),
            n <= j,
        decreases pats.len() - j,
    {
        let pat = chars_of(pats[j]);
        assert(pat@ == ps[j as int]);
        assert(ps.take(j + 1).drop_last() =~= ps.take(j as int));
        if any_indicator_contains(inds, &pat) {
            n = n + 1;
        }
        j = j + 1;
    }
    assert(ps.take(pats.len() as int) =~= ps);
    n
}

/// The profile given to a project from its indicators, as
/// `spec_classify` states; where rules tie for the highest score the earliest
/// rule wins.
pub fn classify(enterprise: bool, paid_tools: bool, indicators: &[String]) -> (r: String)
    ensures
        r@ == spec_classify(enterprise, paid_tools, string_views(indicators@)),
{
    let mut inds: Vec<Vec<char>> = Vec::new();
    let mut i: usize = 0;
    while i < indicators.len()
        invariant
            i <= indicators.len(),
            inds@.len() == i,
            char_views(inds@) == string_views(indicators@).take(i as int),
        decreases indicators.len() - i,
    {
        let c = chars_of(indicators[i].as_str());
        let ghost before = inds@;
        inds.push(c);
        i = i + 1;
        assert forall|j: int| 0 <= j < i implies #[trigger] char_views(inds@)[j]
            == string_views(indicators@).take(i as int)[j] by {
            if j < i - 1 {
                assert(inds@[j] == before[j]);
                assert(char_views(before)[j] == string_views(indicators@).take(i - 1)[j]);
            }
        }
        assert(char_views(inds@) =~= string_views(indicators@).take(i as int));
    }
    let ghost views = string_views(indicators@);
    assert(views.take(indicators.len() as int) =~= views);
    assert(char_views(inds@) == views);
    let mut best: usize = 0;
    let mut best_score: u64 = 0;
    let mut k: usize = 0;
    while k < RULE_COUNT
        invariant
            k <= RULE_COUNT,
            char_views(inds@) == views,
            best < RULE_COUNT,
            best_score == 0 ==> forall|j: int| 0 <= j < k ==> #[trigger] rule_score(j, enterprise, paid_tools, views) == 0,
            best_score > 0 ==> {
                &&& best < k
                &&& best_score == rule_score(best as int, enterprise, paid_tools, views)
                &&& forall|j: int| 0 <= j < k ==> #[trigger] rule_score(j, enterprise, paid_tools, views) <= best_score
                &&& forall|j: int| 0 <= j < best ==> #[trigger] rule_score(j, enterprise, paid_tools, views) < best_score
            },
            best_score <= 18,
        decreases RULE_COUNT - k,
    {
        let mut score = hits_of_rule(k, &inds);
        if k == 0 && enterprise {
            score = score + 1;
        }
        if (k == 1 || k == 3) && paid_tools {
            score = score + 1;
        }
        assert(score == rule_score(k as int, enterprise, paid_tools, views));
        if score > best_score {
            best = k;
            best_score = score;
        }
        k = k + 1;
    }
    if best_score > 0 {
        assert(rule_wins(best as int, enterprise, paid_tools, views));
        assert forall|k2: int| rule_wins(k2, enterprise, paid_tools, views) implies k2 == best by {
            if k2 < best {
                assert(rule_score(k2, enterprise, paid_tools, views) < best_score);
            } else if k2 > best {
                assert(rule_score(best as int, enterprise, paid_tools, views) < rule_score(k2, enterprise, paid_tools, views));
            }
        }
        String::from_str(rule_label_exec(best))
    } else {
        assert(!exists|k2: int| rule_wins(k2, enterprise, paid_tools, views));
        if indicators.len() == 0 {
            String::from_str("unknown")
        } else {
            String::from_str("indie")
        }
    }
}

/// Whether a trimmed manifest line opens a dependency section.
pub open spec fn opens_dependencies(t: Seq<char>) -> bool {
    starts_with(t, "[dependencies]"@) || starts_with(t, "[dev-dependencies]"@) || starts_with(
        t,
        "[build-dependencies]"@,
    )
}

/// Walking the manifest's lines: whether the walk is inside a dependency section,
/// and how many dependency lines it has counted. A line is trimmed first; a line
/// that starts with `[` opens a section; inside a dependency section a line with
/// `=` that is no comment counts.
pub open spec fn cargo_walk(ls: Seq<Seq<char>>) -> (bool, nat)
    decreases ls.len(),
{
    if ls.len() == 0 {
        (false, 0)
    } else {
        let prev = cargo_walk(ls.drop_last());
        let t = trim(ls.last());
        if t.len() > 0 && t[0] == '[' {
            (opens_dependencies(t), prev.1)
        } else if prev.0 && t.contains('=') && !(t.len() > 0 && t[0] == '#') {
            (prev.0, prev.1 + 1)
        } else {
            prev
        }
    }
}

/// The number of dependencies a Cargo manifest declares, counted by lines.
pub open spec fn cargo_dependency_count(content: Seq<char>) -> nat {
    cargo_walk(lines(content)).1
}

/// A trimmed manifest line that opens a section.
pub open spec fn is_section_header(t: Seq<char>) -> bool {
    t.len() > 0 && t[0] == '['
}

proof fn lemma_walk_after_other_section(p: Seq<Seq<char>>, h: Seq<char>, q: Seq<Seq<char>>)
    requires
        is_section_header(trim(h)),
        !opens_dependencies(trim(h)),
        forall|i: int| 0 <= i < q.len() ==> !is_section_header(trim(#[trigger] q[i])),
    ensures
        cargo_walk(p + seq![h] + q) == (false, cargo_walk(p).1),
    decreases q.len(),
{
    if q.len() == 0 {
        assert(p + seq![h] + q =~= p.push(h));
        assert(p.push(h).drop_last() =~= p);
    } else {
        let all = p + seq![h] + q;
        assert(all.drop_last() =~= p + seq![h] + q.drop_last());
        assert(all.last() == q.last());
        assert(!is_section_header(trim(q[q.len() - 1])));
        lemma_walk_after_other_section(p, h, q.drop_last());
    }
}

/// A line that opens a section other than `[dependencies]`, `[dev-dependencies]` or
/// `[build-dependencies]` ends the counting: the text after it, while it opens no
/// further section, adds nothing to the count, whatever came before.
pub proof fn law_other_section_ends_counting(before: Seq<char>, header: Seq<char>, body: Seq<char>)
    requires
        before.len() == 0 || before.last() == '\n',
        !header.contains('\n'),
        trim(strip_cr(header)).len() > 0 && trim(strip_cr(header))[0] == '[',
        !starts_with(trim(strip_cr(header)), "[dependencies]"@),
        !starts_with(trim(strip_cr(header)), "[dev-dependencies]"@),
        !starts_with(trim(strip_cr(header)), "[build-dependencies]"@),
        forall|i: int| 0 <= i < lines(body).len() ==> !(trim(#[trigger] lines(body)[i]).len() > 0 && trim(
            lines(body)[i],
        )[0] == '['),
    ensures
        cargo_dependency_count(before + header + "\n"@ + body) == cargo_dependency_count(before),
{
    let tail = header.push('\n') + body;
    assert(before + header + "\n"@ + body =~= before + tail) by {
        reveal_strlit("\n");
    }
    lemma_lines_append(before, tail);
    lemma_lines_newline(header, body);
    let q = lines(body);
    assert forall|i: int| 0 <= i < q.len() implies !is_section_header(trim(#[trigger] q[i])) by {
        assert(!(trim(lines(body)[i]).len() > 0 && trim(lines(body)[i])[0] == '['));
    }
    lemma_walk_after_other_section(lines(before), strip_cr(header), q);
    assert(lines(before + tail) =~= lines(before) + seq![strip_cr(header)] + q);
}

/// A manifest line that declares something: once trimmed, it holds `=` and is no
/// comment.
pub open spec fn declares(l: Seq<char>) -> bool {
    trim(l).contains('=') && !(trim(l).len() > 0 && trim(l)[0] == '#')
}

proof fn lemma_walk_in_dependency_section(p: Seq<Seq<char>>, h: Seq<char>, q: Seq<Seq<char>>)
    requires
        is_section_header(trim(h)),
        opens_dependencies(trim(h)),
        forall|i: int| 0 <= i < q.len() ==> !is_section_header(trim(#[trigger] q[i])),
    ensures
        cargo_walk(p + seq![h] + q) == (true, cargo_walk(p).1 + q.filter(|l: Seq<char>| declares(l)).len()),
    decreases q.len(),
{
    let pred = |l: Seq<char>| declares(l);
    if q.len() == 0 {
        assert(p + seq![h] + q =~= p.push(h));
        assert(p.push(h).drop_last() =~= p);
        reveal(Seq::filter);
    } else {
        let all = p + seq![h] + q;
        let d = q.drop_last();
        assert(all.drop_last() =~= p + seq![h] + d);
        assert(all.last() == q.last());
        assert(!is_section_header(trim(q[q.len() - 1])));
        lemma_walk_in_dependency_section(p, h, d);
        assert(d.push(q.last()) =~= q);
        d.lemma_filter_len_push(pred, q.last());
    }
}

/// Under a `[dependencies]`, `[dev-dependencies]` or `[build-dependencies]` line,
/// each following line that declares something (holds `=` and is no comment) adds
/// one to the count, until a line opens another section; whatever came before.
pub proof fn law_dependency_section_counts(before: Seq<char>, header: Seq<char>, body: Seq<char>)
    requires
        before.len() == 0 || before.last() == '\n',
        !header.contains('\n'),
        starts_with(trim(strip_cr(header)), "[dependencies]"@) || starts_with(trim(strip_cr(header)),
            "[dev-dependencies]"@) || starts_with(trim(strip_cr(header)), "[build-dependencies]"@),
        forall|i: int| 0 <= i < lines(body).len() ==> !(trim(#[trigger] lines(body)[i]).len() > 0 && trim(
            lines(body)[i],
        )[0] == '['),
    ensures
        cargo_dependency_count(before + header + "\n"@ + body) == cargo_dependency_count(before) + lines(
            body,
        ).filter(|l: Seq<char>| trim(l).contains('=') && !(trim(l).len() > 0 && trim(l)[0] == '#')).len(),
{
    let tail = header.push('\n') + body;
    assert(before + header + "\n"@ + body =~= before + tail) by {
        reveal_strlit("\n");
    }
    lemma_lines_append(before, tail);
    lemma_lines_newline(header, body);
    let q = lines(body);
    let t = trim(strip_cr(header));
    assert(is_section_header(t)) by {
        reveal_strlit("[dependencies]");
        reveal_strlit("[dev-dependencies]");
        reveal_strlit("[build-dependencies]");
        if starts_with(t, "[dependencies]"@) {
            assert(t[0] == t.subrange(0, 14)[0]);
        } else if starts_with(t, "[dev-dependencies]"@) {
            assert(t[0] == t.subrange(0, 18)[0]);
        } else {
            assert(t[0] == t.subrange(0, 20)[0]);
        }
    }
    assert forall|i: int| 0 <= i < q.len() implies !is_section_header(trim(#[trigger] q[i])) by {
        assert(!(trim(lines(body)[i]).len() > 0 && trim(lines(body)[i])[0] == '['));
    }
    lemma_walk_in_dependency_section(lines(before), strip_cr(header), q);
    assert(lines(before + tail) =~= lines(before) + seq![strip_cr(header)] + q);
    assert((|l: Seq<char>| declares(l)) =~= (|l: Seq<char>| trim(l).contains('=') && !(trim(l).len() > 0 && trim(l)[0] == '#')));
}

fn has_char(v: &Vec<char>, c: char) -> (r: bool)
    ensures
        r == v@.contains(c),
{
    let mut i: usize = 0;
    while i < v.len()
        invariant
            i <= v.len(),
            forall|k: int| 0 <= k < i ==> v@[k] != c,
        decreases v.len() - i,
    {
        if v[i] == c {
            return true;
        }
        i = i + 1;
    }
    false
}

/// The number of dependencies a Cargo manifest declares in its `[dependencies]`,
/// `[dev-dependencies]` and `[build-dependencies]` sections.
pub fn count_cargo_deps(content: &str) -> (n: usize)
    ensures
        n == cargo_dependency_count(content@),
{
    let chars = chars_of(content);
    let ls = lines_of(&chars);
    let ghost views = line_views(ls@);
    let deps = chars_of("[dependencies]");
    let dev = chars_of("[dev-dependencies]");
    let build = chars_of("[build-dependencies]");
    let mut in_deps = false;
    let mut count: usize = 0;
    let mut i: usize = 0;
    while i < ls.len()
        invariant
            i <= ls.len(),
            views == line_views(ls@),
            deps@ == "[dependencies]"@,
            dev@ == "[dev-dependencies]"@,
            build@ == "[build-dependencies]"@,
            (in_deps, count as nat) == cargo_walk(views.take(i as int)),
            count <= i,
        decreases ls.len() - i,
    {
        let line = &ls[i];
        let t = trim_range(line, 0, line.len());
        assert(line@.subrange(0, line@.len() as int) =~= line@);
        assert(views.take(i + 1).drop_last() =~= views.take(i as int));
        assert(views.take(i + 1).last() == line@);
        if t.len() > 0 && t[0] == '[' {
            in_deps = starts_with_chars(&t, &deps) || starts_with_chars(&t, &dev) || starts_with_chars(&t, &build);
        } else if in_deps && has_char(&t, '=') && !(t.len() > 0 && t[0] == '#') {
            count = count + 1;
        }
        i = i + 1;
    }
    assert(views.take(ls.len() as int) =~= views);
    count
}

/// A dependency of the project.
#[derive(Debug)]
pub struct DependencyInfo {
    pub name: String,
    pub version: String,
    pub license: Option<String>,
    pub is_outdated: bool,
    pub latest_version: Option<String>,
}

/// The mathematical value of a dependency.
pub struct DependencyView {
    pub name: Seq<char>,
    pub version: Seq<char>,
    pub license: Option<Seq<char>>,
    pub is_outdated: bool,
    pub latest_version: Option<Seq<char>>,
}

pub open spec fn opt_view(o: Option<String>) -> Option<Seq<char>> {
    match o {
        Some(s) => Some(s@),
        None => None,
    }
}

impl View for DependencyInfo {
    type V = DependencyView;

    open spec fn view(&self) -> DependencyView {
        DependencyView {
            name: self.name@,
            version: self.version@,
            license: opt_view(self.license),
            is_outdated: self.is_outdated,
            latest_version: opt_view(self.latest_version),
        }
    }
}

pub open spec fn dep_views(v: Seq<DependencyInfo>) -> Seq<DependencyView> {
    v.map_values(|d: DependencyInfo| d@)
}

/// Licenses that restrict use of a dependency.
pub open spec fn is_restricted_license(l: Seq<char>) -> bool {
    l == "BUSL-1.1"@ || l == "BSL-1.1"@ || l == "AGPL-3.0"@ || l == "SSPL-1.0"@ || l == "Elastic-2.0"@
}

/// The report line for a dependency under a restricted license.
pub open spec fn restricted_issue(name: Seq<char>, license: Seq<char>) -> Seq<char> {
    name + ": restricted license ("@ + license + ")"@
}

/// The package being read from a lock file, and what was read before it.
pub struct LockWalk {
    pub name: Option<Seq<char>>,
    pub version: Option<Seq<char>>,
    pub license: Option<Seq<char>>,
    pub deps: Seq<DependencyView>,
    pub issues: Seq<Seq<char>>,
}

/// The quoted value of a `key = "value"` line, when the line has that form.
pub open spec fn quoted_value(t: Seq<char>, prefix: Seq<char>) -> Option<Seq<char>> {
    if starts_with(t, prefix) && ends_with(t.subrange(prefix.len() as int, t.len() as int), "\""@) {
        Some(t.subrange(prefix.len() as int, t.len() - 1))
    } else {
        None
    }
}

pub open spec fn or_keep(new: Option<Seq<char>>, old: Option<Seq<char>>) -> Option<Seq<char>> {
    match new {
        Some(v) => Some(v),
        None => old,
    }
}

/// The dependency a lock-file package stands for.
pub open spec fn package_dep(name: Seq<char>, version: Option<Seq<char>>, license: Option<Seq<char>>) -> DependencyView {
    DependencyView {
        name,
        version: match version {
            Some(v) => v,
            None => Seq::empty(),
        },
        license,
        is_outdated: false,
        latest_version: None,
    }
}

/// The issues found so far, and an issue for the package just closed when it has a
/// name and a restricted license.
pub open spec fn with_license_issue(issues: Seq<Seq<char>>, name: Option<Seq<char>>, license: Option<Seq<char>>) -> Seq<Seq<char>> {
    match (name, license) {
        (Some(n), Some(l)) => if is_restricted_license(l) {
            issues.push(restricted_issue(n, l))
        } else {
            issues
        },
        _ => issues,
    }
}

/// Reading a lock file line by line. A `[[package]]` line closes the package read so
/// far (when it has a name it becomes a dependency, and a restricted license becomes
/// an issue) and starts a new one; `name = "..."`, `version = "..."` and
/// `license = "..."` lines set the package's fields.
pub open spec fn lock_walk(ls: Seq<Seq<char>>) -> LockWalk
    decreases ls.len(),
{
    if ls.len() == 0 {
        LockWalk { name: None, version: None, license: None, deps: seq![], issues: seq![] }
    } else {
        let w = lock_walk(ls.drop_last());
        let t = trim(ls.last());
        if t == "[[package]]"@ {
            LockWalk {
                name: None,
                version: None,
                license: None,
                deps: match w.name {
                    Some(n) => w.deps.push(package_dep(n, w.version, w.license)),
                    None => w.deps,
                },
                issues: with_license_issue(w.issues, w.name, w.license),
            }
        } else {
            LockWalk {
                name: or_keep(quoted_value(t, "name = \""@), w.name),
                version: or_keep(quoted_value(t, "version = \""@), w.version),
                license: or_keep(quoted_value(t, "license = \""@), w.license),
                ..w
            }
        }
    }
}

/// The dependencies a lock file lists: every package with a name, the last one
/// included.
pub open spec fn lock_deps(content: Seq<char>) -> Seq<DependencyView> {
    let w = lock_walk(lines(content));
    match w.name {
        Some(n) => w.deps.push(package_dep(n, w.version, w.license)),
        None => w.deps,
    }
}

/// The license issues found in a lock file: one for every package with a name and a
/// restricted license, the last one included.
pub open spec fn lock_issues(content: Seq<char>) -> Seq<Seq<char>> {
    let w = lock_walk(lines(content));
    with_license_issue(w.issues, w.name, w.license)
}

/// Dependencies and issues found by a license check.
#[derive(Debug)]
pub struct LicenseCheckResult {
    pub deps: Vec<DependencyInfo>,
    pub license_issues: Vec<String>,
    pub version_issues: Vec<String>,
}


fn quoted_value_exec(t: &Vec<char>, prefix: &Vec<char>) -> (r: Option<Vec<char>>)
    ensures
        match r {
            Some(v) => quoted_value(t@, prefix@) == Some(v@),
            None => quoted_value(t@, prefix@) is None,
        },
{
    if !starts_with_chars(t, prefix) {
        return None;
    }
    if t.len() == prefix.len() || t[t.len() - 1] != '"' {
        proof {
            reveal_strlit("\"");
            let rest = t@.subrange(prefix@.len() as int, t@.len() as int);
            if rest.len() >= 1 {
                assert(rest.subrange(rest.len() - 1, rest.len() as int)[0] == t@[t@.len() - 1]);
            }
            assert(!ends_with(rest, "\""@));
        }
        return None;
    }
    let mut v: Vec<char> = Vec::new();
    let mut i = prefix.len();
    while i < t.len() - 1
        invariant
            prefix@.len() <= i <= t@.len() - 1,
            t@.len() > prefix@.len(),
            v@ == t@.subrange(prefix@.len() as int, i as int),
        decreases t.len() - 1 - i,
    {
        v.push(t[i]);
        i = i + 1;
        assert(v@ =~= t@.subrange(prefix@.len() as int, i as int));
    }
    proof {
        reveal_strlit("\"");
        let rest = t@.subrange(prefix@.len() as int, t@.len() as int);
        assert(rest.subrange(rest.len() - 1, rest.len() as int) =~= "\""@);
    }
    Some(v)
}

fn is_restricted_exec(l: &Vec<char>) -> (r: bool)
    ensures
        r == is_restricted_license(l@),
{
    equal_chars(l, &chars_of("BUSL-1.1")) || equal_chars(l, &chars_of("BSL-1.1")) || equal_chars(l, &chars_of("AGPL-3.0"))
        || equal_chars(l, &chars_of("SSPL-1.0")) || equal_chars(l, &chars_of("Elastic-2.0"))
}

fn make_dep(name: &Vec<char>, version: &Option<Vec<char>>, license: &Option<Vec<char>>) -> (d: DependencyInfo)
    ensures
        d@ == package_dep(name@, match version { Some(v) => Some(v@), None => None },
            match license { Some(l) => Some(l@), None => None }),
{
    DependencyInfo {
        name: string_of(name),
        version: match version {
            Some(v) => string_of(v),
            None => String::new(),
        },
        license: match license {
            Some(l) => Some(string_of(l)),
            None => None,
        },
        is_outdated: false,
        latest_version: None,
    }
}

pub open spec fn opt_chars(o: Option<Vec<char>>) -> Option<Seq<char>> {
    match o {
        Some(v) => Some(v@),
        None => None,
    }
}

fn push_license_issue(issues: &mut Vec<String>, name: &Option<Vec<char>>, license: &Option<Vec<char>>)
    ensures
        string_views(final(issues)@) == with_license_issue(string_views(old(issues)@), opt_chars(*name),
            opt_chars(*license)),
{
    if let Some(n) = name {
        if let Some(l) = license {
            if is_restricted_exec(l) {
                let mut msg = n.clone();
                extend_str(&mut msg, ": restricted license (");
                extend_chars(&mut msg, l);
                extend_str(&mut msg, ")");
                let ghost ib = issues@;
                issues.push(string_of(&msg));
                assert(string_views(issues@) =~= string_views(ib).push(msg@));
            }
        }
    }
}

/// Reads the packages of a Cargo lock file: the dependencies it lists and the
/// restricted licenses among them.
pub fn check_cargo_lock(content: &str) -> (r: LicenseCheckResult)
    ensures
        dep_views(r.deps@) == lock_deps(content@),
        string_views(r.license_issues@) == lock_issues(content@),
        r.version_issues@.len() == 0,
{
    let chars = chars_of(content);
    let ls = lines_of(&chars);
    let ghost views = line_views(ls@);
    let package = chars_of("[[package]]");
    let name_p = chars_of("name = \"");
    let version_p = chars_of("version = \"");
    let license_p = chars_of("license = \"");
    let mut name: Option<Vec<char>> = None;
    let mut version: Option<Vec<char>> = None;
    let mut license: Option<Vec<char>> = None;
    let mut deps: Vec<DependencyInfo> = Vec::new();
    let mut issues: Vec<String> = Vec::new();
    let mut i: usize = 0;
    while i < ls.len()
        invariant
            i <= ls.len(),
            views == line_views(ls@),
            package@ == "[[package]]"@,
            name_p@ == "name = \""@,
            version_p@ == "version = \""@,
            license_p@ == "license = \""@,
            ({
                let w = lock_walk(views.take(i as int));
                &&& opt_chars(name) == w.name
                &&& opt_chars(version) == w.version
                &&& opt_chars(license) == w.license
                &&& dep_views(deps@) == w.deps
                &&& string_views(issues@) == w.issues
            }),
        decreases ls.len() - i,
    {
        let line = &ls[i];
        let t = trim_range(line, 0, line.len());
        assert(line@.subrange(0, line@.len() as int) =~= line@);
        assert(views.take(i + 1).drop_last() =~= views.take(i as int));
        assert(views.take(i + 1).last() == line@);
        let ghost w = lock_walk(views.take(i as int));
        if equal_chars(&t, &package) {
            if let Some(n) = &name {
                let d = make_dep(n, &version, &license);
                let ghost before = deps@;
                deps.push(d);
                assert(dep_views(deps@) =~= dep_views(before).push(d@));
            }
            push_license_issue(&mut issues, &name, &license);
            name = None;
            version = None;
            license = None;
        } else {
            if let Some(v) = quoted_value_exec(&t, &name_p) {
                name = Some(v);
            }
            if let Some(v) = quoted_value_exec(&t, &version_p) {
                version = Some(v);
            }
            if let Some(v) = quoted_value_exec(&t, &license_p) {
                license = Some(v);
            }
        }
        i = i + 1;
    }
    assert(views.take(ls.len() as int) =~= views);
    if let Some(n) = &name {
        let d = make_dep(n, &version, &license);
        let ghost before = deps@;
        deps.push(d);
        assert(dep_views(deps@) =~= dep_views(before).push(d@));
    }
    push_license_issue(&mut issues, &name, &license);
    LicenseCheckResult { deps, license_issues: issues, version_issues: Vec::new() }
}


/// Name parts that point to an enterprise setting.
pub open spec fn enterprise_patterns() -> Seq<Seq<char>> {
    seq!["saml"@, "ldap"@, "okta"@, "keycloak"@, "oauth2"@, "enterprise"@, "single-sign-on"@, "sso"@, "active-directory"@, "adfs"@, "compliance"@, "gdpr"@, "hipaa"@, "sox"@, "pci-dss"@, "audit-log"@, "rbac"@, "abac"@, "tenant"@, "multi-tenant"@]
}

fn enterprise_patterns_exec() -> (r: Vec<&'static str>)
    ensures
        str_views(r@) == enterprise_patterns(),
{
    let r = vec!["saml", "ldap", "okta", "keycloak", "oauth2", "enterprise", "single-sign-on", "sso", "active-directory", "adfs", "compliance", "gdpr", "hipaa", "sox", "pci-dss", "audit-log", "rbac", "abac", "tenant", "multi-tenant"];
    assert(str_views(r@) =~= enterprise_patterns());
    r
}

/// Name parts that point to paid tools.
pub open spec fn paid_tool_patterns() -> Seq<Seq<char>> {
    seq!["unreal"@, "unity"@, "UnrealEngine"@, "UnityEngine"@, "photosh"@, "adobe"@, "maya"@, "blender"@, " Substance "@, "houdini"@, "nuke"@, "fusion360"@, "autocad"@, "solidworks"@, "matlab"@, "simulink"@, "ansys"@, "comsol"@, "datadog"@, "newrelic"@, "sentry"@, "databricks"@, "snowflake"@]
}

fn paid_tool_patterns_exec() -> (r: Vec<&'static str>)
    ensures
        str_views(r@) == paid_tool_patterns(),
{
    let r = vec!["unreal", "unity", "UnrealEngine", "UnityEngine", "photosh", "adobe", "maya", "blender", " Substance ", "houdini", "nuke", "fusion360", "autocad", "solidworks", "matlab", "simulink", "ansys", "comsol", "datadog", "newrelic", "sentry", "databricks", "snowflake"];
    assert(str_views(r@) =~= paid_tool_patterns());
    r
}

/// Name parts that point to a studio.
pub open spec fn studio_patterns() -> Seq<Seq<char>> {
    seq!["gamestudio"@, "game-studio"@, "entertainment"@, "interactive"@, "arts"@, "creative"@, "media"@, "production"@]
}

fn studio_patterns_exec() -> (r: Vec<&'static str>)
    ensures
        str_views(r@) == studio_patterns(),
{
    let r = vec!["gamestudio", "game-studio", "entertainment", "interactive", "arts", "creative", "media", "production"];
    assert(str_views(r@) =~= studio_patterns());
    r
}

/// Files whose presence points to an enterprise setting.
pub open spec fn config_file_names() -> Seq<Seq<char>> {
    seq![".saml"@, "SAML"@, "ldap"@, "keycloak.json"@, "okta.json"@, "enterprise.json"@, "enterprise.yml"@, "corporate.json"@, "license.key"@, "LICENSE.key"@, "unity.alf"@, "UnrealLicense"@]
}

fn config_file_names_exec() -> (r: Vec<&'static str>)
    ensures
        str_views(r@) == config_file_names(),
{
    let r = vec![".saml", "SAML", "ldap", "keycloak.json", "okta.json", "enterprise.json", "enterprise.yml", "corporate.json", "license.key", "LICENSE.key", "unity.alf", "UnrealLicense"];
    assert(str_views(r@) =~= config_file_names());
    r
}

/// The files whose presence in a project's root marks enterprise configuration,
/// in the order `config_files_present` follows.
pub fn enterprise_config_files() -> (r: Vec<&'static str>)
    ensures
        str_views(r@) == config_file_names(),
{
    config_file_names_exec()
}

/// Words in a Cargo manifest that point to a game engine.
pub open spec fn rust_engine_names() -> Seq<Seq<char>> {
    seq!["unreal"@, "godot"@, "bevy"@, "amethyst"@]
}

fn rust_engine_names_exec() -> (r: Vec<&'static str>)
    ensures
        str_views(r@) == rust_engine_names(),
{
    let r = vec!["unreal", "godot", "bevy", "amethyst"];
    assert(str_views(r@) =~= rust_engine_names());
    r
}

/// Words in a package manifest that point to a game engine.
pub open spec fn web_engine_names() -> Seq<Seq<char>> {
    seq!["\"three\""@, "\"babylon\""@, "\"phaser\""@, "\"pixi.js\""@]
}

fn web_engine_names_exec() -> (r: Vec<&'static str>)
    ensures
        str_views(r@) == web_engine_names(),
{
    let r = vec!["\"three\"", "\"babylon\"", "\"phaser\"", "\"pixi.js\""];
    assert(str_views(r@) =~= web_engine_names());
    r
}


/// The index of the first of `pats` that occurs in `s`.
pub open spec fn first_match(pats: Seq<Seq<char>>, s: Seq<char>) -> Option<int>
    decreases pats.len(),
{
    if pats.len() == 0 {
        None
    } else if contains(s, pats[0]) {
        Some(0)
    } else {
        match first_match(pats.drop_first(), s) {
            Some(k) => Some(k + 1),
            None => None,
        }
    }
}

proof fn lemma_first_match(pats: Seq<Seq<char>>, s: Seq<char>, i: int)
    requires
        0 <= i <= pats.len(),
        forall|j: int| 0 <= j < i ==> !contains(s, #[trigger] pats[j]),
    ensures
        i < pats.len() && contains(s, pats[i]) ==> first_match(pats, s) == Some(i),
        i == pats.len() ==> first_match(pats, s) is None,
    decreases i,
{
    if i > 0 {
        assert forall|j: int| 0 <= j < i - 1 implies !contains(s, #[trigger] pats.drop_first()[j]) by {
            assert(pats.drop_first()[j] == pats[j + 1]);
        }
        lemma_first_match(pats.drop_first(), s, i - 1);
        assert(!contains(s, pats[0]));
    }
}

pub open spec fn lowered(pats: Seq<Seq<char>>) -> Seq<Seq<char>> {
    pats.map_values(|p: Seq<char>| lowercase(p))
}

fn to_char_vecs(v: &Vec<&str>) -> (r: Vec<Vec<char>>)
    ensures
        char_views(r@) == str_views(v@),
{
    let mut r: Vec<Vec<char>> = Vec::new();
    let mut i: usize = 0;
    while i < v.len()
        invariant
            i <= v.len(),
            r@.len() == i,
            char_views(r@) == str_views(v@).take(i as int),
        decreases v.len() - i,
    {
        let ghost before = r@;
        r.push(chars_of(v[i]));
        i = i + 1;
        assert forall|j: int| 0 <= j < i implies #[trigger] char_views(r@)[j] == str_views(v@).take(i as int)[j] by {
            if j < i - 1 {
                assert(r@[j] == before[j]);
                assert(char_views(before)[j] == str_views(v@).take(i - 1)[j]);
            }
        }
        assert(char_views(r@) =~= str_views(v@).take(i as int));
    }
    assert(str_views(v@).take(v.len() as int) =~= str_views(v@));
    r
}

fn lowered_char_vecs(v: &Vec<&str>) -> (r: Vec<Vec<char>>)
    ensures
        char_views(r@) == lowered(str_views(v@)),
{
    let mut r: Vec<Vec<char>> = Vec::new();
    let mut i: usize = 0;
    while i < v.len()
        invariant
            i <= v.len(),
            r@.len() == i,
            char_views(r@) == lowered(str_views(v@)).take(i as int),
        decreases v.len() - i,
    {
        let ghost before = r@;
        let low = to_lowercase(v[i]);
        r.push(chars_of(low.as_str()));
        i = i + 1;
        assert forall|j: int| 0 <= j < i implies #[trigger] char_views(r@)[j] == lowered(str_views(v@)).take(i as int)[j] by {
            if j < i - 1 {
                assert(r@[j] == before[j]);
                assert(char_views(before)[j] == lowered(str_views(v@)).take(i - 1)[j]);
            }
        }
        assert(char_views(r@) =~= lowered(str_views(v@)).take(i as int));
    }
    assert(lowered(str_views(v@)).take(v.len() as int) =~= lowered(str_views(v@)));
    r
}

fn first_match_exec(pats: &Vec<Vec<char>>, s: &Vec<char>) -> (r: Option<usize>)
    ensures
        match r {
            Some(k) => first_match(char_views(pats@), s@) == Some(k as int) && k < pats@.len(),
            None => first_match(char_views(pats@), s@) is None,
        },
{
    let ghost ps = char_views(pats@);
    let mut i: usize = 0;
    while i < pats.len()
        invariant
            i <= pats.len(),
            ps == char_views(pats@),
            forall|j: int| 0 <= j < i ==> !contains(s@, #[trigger] ps[j]),
        decreases pats.len() - i,
    {
        if contains_chars(s, &pats[i]) {
            proof {
                lemma_first_match(ps, s@, i as int);
            }
            return Some(i);
        }
        i = i + 1;
    }
    proof {
        lemma_first_match(ps, s@, i as int);
    }
    None
}

/// What the file system shows of a project's root directory.
pub struct ProjectFacts {
    /// `Cargo.toml` exists.
    pub has_cargo_toml: bool,
    /// The text of `Cargo.toml`, when it could be read.
    pub cargo_toml: Option<String>,
    /// `package.json` exists.
    pub has_package_json: bool,
    /// The text of `package.json`, when it could be read.
    pub package_json: Option<String>,
    /// `pyproject.toml` or `requirements.txt` exists.
    pub has_python_manifest: bool,
    /// `CMakeLists.txt` exists.
    pub has_cmake_lists: bool,
    /// `go.mod` exists.
    pub has_go_mod: bool,
    /// For each of `config_file_names()`, whether it exists.
    pub config_files_present: Vec<bool>,
    /// The names of the entries of the root directory.
    pub entry_names: Vec<String>,
    /// The first 2048 bytes of `README.md` (or else `README`), when one could be read.
    pub readme: Option<String>,
}

/// A profile of a project: who is likely to work on it, and what it is built with.
#[derive(Debug)]
pub struct ProjectProfile {
    pub user_type: String,
    /// How sure the profile is, in percent.
    pub confidence_percent: u32,
    pub indicators: Vec<String>,
    pub ecosystem: String,
    pub has_game_engine: bool,
    pub has_paid_tools: bool,
    pub has_enterprise_configs: bool,
    pub dependency_count: usize,
}

/// `eco` extended by one more ecosystem.
pub open spec fn add_ecosystem(eco: Seq<char>, name: Seq<char>) -> Seq<char> {
    if eco == "unknown"@ {
        name
    } else {
        eco + "+"@ + name
    }
}

pub open spec fn spec_ecosystem(f: ProjectFacts) -> Seq<char> {
    let e0: Seq<char> = if f.has_cargo_toml { "rust"@ } else { "unknown"@ };
    let e1 = if f.has_package_json { add_ecosystem(e0, "node"@) } else { e0 };
    let e2 = if f.has_python_manifest { add_ecosystem(e1, "python"@) } else { e1 };
    let e3 = if f.has_cmake_lists { add_ecosystem(e2, "cpp"@) } else { e2 };
    if f.has_go_mod { add_ecosystem(e3, "go"@) } else { e3 }
}

/// A Cargo manifest that names a game engine.
pub open spec fn rust_engine_found(f: ProjectFacts) -> bool {
    &&& f.has_cargo_toml
    &&& f.cargo_toml matches Some(t) && first_match(rust_engine_names(), t@) is Some
}

/// A package manifest that names a game engine.
pub open spec fn web_engine_found(f: ProjectFacts) -> bool {
    &&& f.has_package_json
    &&& f.package_json matches Some(t) && first_match(web_engine_names(), t@) is Some
}

pub open spec fn config_indicators(present: Seq<bool>) -> Seq<Seq<char>>
    decreases present.len(),
{
    if present.len() == 0 {
        seq![]
    } else {
        config_indicators(present.drop_last()) + if present.last() && present.len() <= config_file_names().len() {
            seq!["enterprise-config: "@ + config_file_names()[present.len() - 1]]
        } else {
            seq![]
        }
    }
}

pub open spec fn config_found(present: Seq<bool>) -> bool {
    exists|i: int| 0 <= i < present.len() && i < config_file_names().len() && #[trigger] present[i]
}

proof fn lemma_config_found_step(present: Seq<bool>, i: int)
    requires
        0 <= i < present.len(),
    ensures
        config_found(present.take(i + 1)) == (config_found(present.take(i)) || (present[i]
            && i < config_file_names().len())),
{
    let t = present.take(i + 1);
    let s = present.take(i);
    if config_found(t) {
        let w = choose|w: int| 0 <= w < t.len() && w < config_file_names().len() && #[trigger] t[w];
        if w < i {
            assert(s[w]);
        }
    }
    if config_found(s) {
        let w = choose|w: int| 0 <= w < s.len() && w < config_file_names().len() && #[trigger] s[w];
        assert(t[w]);
    }
    if present[i] && i < config_file_names().len() {
        assert(t[i]);
    }
}

pub open spec fn tagged(tag: Seq<char>, pats: Seq<Seq<char>>, m: Option<int>) -> Seq<Seq<char>> {
    match m {
        Some(k) => seq![tag + pats[k]],
        None => seq![],
    }
}

/// The indicators one root entry gives: the first enterprise, paid-tool and studio
/// pattern found in its lower-cased name, each at most once.
pub open spec fn entry_indicators(name: Seq<char>) -> Seq<Seq<char>> {
    let l = lowercase(name);
    tagged("enterprise-pattern: "@, enterprise_patterns(), first_match(enterprise_patterns(), l))
        + tagged("paid-tool: "@, paid_tool_patterns(), first_match(lowered(paid_tool_patterns()), l))
        + tagged("studio-pattern: "@, studio_patterns(), first_match(studio_patterns(), l))
}

pub open spec fn entries_indicators(names: Seq<Seq<char>>) -> Seq<Seq<char>>
    decreases names.len(),
{
    if names.len() == 0 {
        seq![]
    } else {
        entries_indicators(names.drop_last()) + entry_indicators(names.last())
    }
}

pub open spec fn entries_enterprise(names: Seq<Seq<char>>) -> bool {
    exists|i: int| 0 <= i < names.len() && first_match(enterprise_patterns(), lowercase(#[trigger] names[i])) is Some
}

pub open spec fn entries_paid(names: Seq<Seq<char>>) -> bool {
    exists|i: int| 0 <= i < names.len() && first_match(lowered(paid_tool_patterns()), lowercase(#[trigger] names[i])) is Some
}

/// The indicators the README gives: the first enterprise and studio pattern found in
/// its lower-cased text.
pub open spec fn readme_indicators(readme: Option<String>) -> Seq<Seq<char>> {
    match readme {
        Some(r) => {
            let l = lowercase(r@);
            tagged("readme-enterprise: "@, enterprise_patterns(), first_match(enterprise_patterns(), l))
                + tagged("readme-studio: "@, studio_patterns(), first_match(studio_patterns(), l))
        },
        None => seq![],
    }
}

pub open spec fn readme_enterprise(readme: Option<String>) -> bool {
    readme matches Some(r) && first_match(enterprise_patterns(), lowercase(r@)) is Some
}

/// All indicators, in the order they are found.
pub open spec fn spec_indicators(f: ProjectFacts) -> Seq<Seq<char>> {
    (if rust_engine_found(f) { seq!["game-engine: rust"@] } else { seq![] })
        + (if web_engine_found(f) { seq!["game-engine: web"@] } else { seq![] })
        + config_indicators(f.config_files_present@)
        + entries_indicators(string_views(f.entry_names@))
        + readme_indicators(f.readme)
}

pub open spec fn spec_enterprise(f: ProjectFacts) -> bool {
    config_found(f.config_files_present@) || entries_enterprise(string_views(f.entry_names@))
        || readme_enterprise(f.readme)
}

/// For a JSON text and a key: none when `serde_json::from_str` does not read the text
/// as a JSON value; else the number of members of the object the value holds under
/// `key`, none where the value has no such key or it holds no object.
pub uninterp spec fn json_object_len(content: Seq<char>, key: Seq<char>) -> Option<Option<nat>>;

/// `serde_json::from_str::<serde_json::Value>`, then `Value::get` of `key`,
/// `Value::as_object` and `Map::len`. Claimed: the result is `json_object_len` of the
/// text and the key.
#[verifier::external_body]
fn json_member_count(content: &str, key: &str) -> (r: Option<Option<usize>>)
    ensures
        match r {
            Some(Some(n)) => json_object_len(content@, key@) == Some(Some(n as nat)),
            Some(None) => json_object_len(content@, key@) == Some(None::<nat>),
            None => json_object_len(content@, key@) is None,
        },
{
    match serde_json::from_str::<serde_json::Value>(content) {
        Ok(json) => Some(json.get(key).and_then(serde_json::Value::as_object).map(serde_json::Map::len)),
        Err(_) => None,
    }
}

pub open spec fn size_or_zero(k: Option<nat>) -> nat {
    match k {
        Some(n) => n,
        None => 0,
    }
}

/// The sizes of the `dependencies` and `devDependencies` objects of `package.json`
/// (0 for a missing one); none when the text is no JSON.
pub open spec fn json_dep_sizes(content: Seq<char>) -> Option<(nat, nat)> {
    match (json_object_len(content, "dependencies"@), json_object_len(content, "devDependencies"@)) {
        (Some(d), Some(v)) => Some((size_or_zero(d), size_or_zero(v))),
        _ => None,
    }
}

/// The dependencies `package.json` declares: the members of its `dependencies` and
/// `devDependencies` objects; none when the text is no JSON.
pub open spec fn json_dep_count(content: Seq<char>) -> Option<int> {
    match json_dep_sizes(content) {
        Some((d, v)) => Some(d + v as int),
        None => None,
    }
}

fn size_of(k: Option<usize>) -> (r: usize)
    ensures
        r == size_or_zero(match k { Some(n) => Some(n as nat), None => None }),
{
    match k {
        Some(n) => n,
        None => 0,
    }
}

fn json_dep_sizes_exec(content: &str) -> (r: Option<(usize, usize)>)
    ensures
        match r {
            Some((d, v)) => json_dep_sizes(content@) == Some((d as nat, v as nat)),
            None => json_dep_sizes(content@) is None,
        },
{
    let deps = json_member_count(content, "dependencies");
    let dev = json_member_count(content, "devDependencies");
    match (deps, dev) {
        (Some(d), Some(v)) => Some((size_of(d), size_of(v))),
        _ => None,
    }
}

/// Counts the dependencies `package.json` declares; none when the text is no JSON,
/// or when the count does not fit in `usize`.
pub fn package_json_dep_count(content: &str) -> (r: Option<usize>)
    ensures
        r == match json_dep_count(content@) {
            Some(n) => if n <= usize::MAX { Some(n as usize) } else { None },
            None => None,
        },
{
    match json_dep_sizes_exec(content) {
        Some((d, v)) => d.checked_add(v),
        None => None,
    }
}

pub open spec fn spec_dependency_count(f: ProjectFacts) -> int {
    (if f.has_cargo_toml {
        match f.cargo_toml {
            Some(t) => cargo_dependency_count(t@) as int,
            None => 0,
        }
    } else {
        0
    }) + (if f.has_package_json {
        match f.package_json {
            Some(t) => match json_dep_count(t@) {
                Some(n) => n,
                None => 0,
            },
            None => 0,
        }
    } else {
        0
    })
}

/// The number of dependencies the manifests declare, as `spec_dependency_count`
/// states; none when it does not fit in `usize`.
pub fn dependency_total(f: &ProjectFacts) -> (r: Option<usize>)
    ensures
        r == (if spec_dependency_count(*f) <= usize::MAX {
            Some(spec_dependency_count(*f) as usize)
        } else {
            None
        }),
{
    let cargo: usize = if f.has_cargo_toml {
        match &f.cargo_toml {
            Some(t) => count_cargo_deps(t.as_str()),
            None => 0,
        }
    } else {
        0
    };
    if !f.has_package_json {
        return Some(cargo);
    }
    match &f.package_json {
        None => Some(cargo),
        Some(t) => match json_dep_sizes_exec(t.as_str()) {
            None => Some(cargo),
            Some((d, v)) => match cargo.checked_add(d) {
                Some(n) => n.checked_add(v),
                None => None,
            },
        },
    }
}

/// Confidence in percent for a number of indicators.
pub open spec fn spec_confidence(n: nat) -> u32 {
    if n >= 3 { 90 } else if n >= 2 { 70 } else if n >= 1 { 50 } else { 30 }
}


fn push_tagged(
    out: &mut Vec<String>,
    tag: &str,
    pats: &Vec<&'static str>,
    m: Option<usize>,
)
    requires
        m matches Some(k) ==> k < pats@.len(),
    ensures
        string_views(final(out)@) == string_views(old(out)@) + tagged(tag@, str_views(pats@), match m {
            Some(k) => Some(k as int),
            None => None,
        }),
{
    match m {
        Some(k) => {
            let mut v = chars_of(tag);
            extend_str(&mut v, pats[k]);
            let ghost before = out@;
            out.push(string_of(&v));
            assert(string_views(out@) =~= string_views(before) + seq![v@]);
        },
        None => {
            assert(string_views(out@) + Seq::<Seq<char>>::empty() =~= string_views(out@));
        },
    }
}

fn add_ecosystem_exec(eco: Vec<char>, name: &str) -> (r: Vec<char>)
    ensures
        r@ == add_ecosystem(eco@, name@),
{
    let unknown = chars_of("unknown");
    if equal_chars(&eco, &unknown) {
        chars_of(name)
    } else {
        let mut e = eco;
        extend_str(&mut e, "+");
        extend_str(&mut e, name);
        e
    }
}

/// The indicators of game engines in the manifests.
pub open spec fn engine_indicators(f: ProjectFacts) -> Seq<Seq<char>> {
    (if rust_engine_found(f) { seq!["game-engine: rust"@] } else { seq![] })
        + (if web_engine_found(f) { seq!["game-engine: web"@] } else { seq![] })
}

/// What the manifests show: the ecosystem, whether a game engine is named, and the
/// indicators of the engines.
fn manifest_facts(f: &ProjectFacts) -> (r: (Vec<char>, bool, Vec<String>))
    ensures
        r.0@ == spec_ecosystem(*f),
        r.1 == (rust_engine_found(*f) || web_engine_found(*f)),
        string_views(r.2@) == engine_indicators(*f),
{
    let mut indicators: Vec<String> = Vec::new();
    let mut has_game_engine = false;
    let mut eco = chars_of("unknown");
    if f.has_cargo_toml {
        eco = chars_of("rust");
        if let Some(t) = &f.cargo_toml {
            let tc = chars_of(t.as_str());
            let names = to_char_vecs(&rust_engine_names_exec());
            if first_match_exec(&names, &tc).is_some() {
                has_game_engine = true;
                indicators.push(String::from_str("game-engine: rust"));
            }
        }
    }
    assert(string_views(indicators@) =~= (if rust_engine_found(*f) { seq!["game-engine: rust"@] } else { seq![] }));
    if f.has_package_json {
        eco = add_ecosystem_exec(eco, "node");
        if let Some(t) = &f.package_json {
            let tc = chars_of(t.as_str());
            let names = to_char_vecs(&web_engine_names_exec());
            if first_match_exec(&names, &tc).is_some() {
                has_game_engine = true;
                let ghost before = indicators@;
                indicators.push(String::from_str("game-engine: web"));
                assert(string_views(indicators@) =~= string_views(before).push("game-engine: web"@));
            }
        }
    }
    assert(string_views(indicators@) =~= engine_indicators(*f));
    if f.has_python_manifest {
        eco = add_ecosystem_exec(eco, "python");
    }
    if f.has_cmake_lists {
        eco = add_ecosystem_exec(eco, "cpp");
    }
    if f.has_go_mod {
        eco = add_ecosystem_exec(eco, "go");
    }
    (eco, has_game_engine, indicators)
}

/// Adds the indicators of the enterprise configuration files present; whether any
/// is present.
fn push_config_indicators(indicators: &mut Vec<String>, present: &Vec<bool>) -> (r: bool)
    ensures
        string_views(final(indicators)@) == string_views(old(indicators)@) + config_indicators(present@),
        r == config_found(present@),
{
    let configs = config_file_names_exec();
    let ghost start = string_views(indicators@);
    let mut found = false;
    let mut i: usize = 0;
    while i < present.len()
        invariant
            i <= present.len(),
            str_views(configs@) == config_file_names(),
            string_views(indicators@) == start + config_indicators(present@.take(i as int)),
            found == config_found(present@.take(i as int)),
        decreases present.len() - i,
    {
        assert(present@.take(i + 1).drop_last() =~= present@.take(i as int));
        if present[i] && i < configs.len() {
            found = true;
            let mut v = chars_of("enterprise-config: ");
            extend_str(&mut v, configs[i]);
            let ghost before = indicators@;
            indicators.push(string_of(&v));
            assert(string_views(indicators@) =~= string_views(before).push(v@));
        }
        proof {
            lemma_config_found_step(present@, i as int);
        }
        i = i + 1;
    }
    assert(present@.take(present@.len() as int) =~= present@);
    found
}

proof fn lemma_entries_step(names: Seq<Seq<char>>, j: int)
    requires
        0 <= j < names.len(),
    ensures
        entries_enterprise(names.take(j + 1)) == (entries_enterprise(names.take(j)) || first_match(
            enterprise_patterns(),
            lowercase(names[j]),
        ) is Some),
        entries_paid(names.take(j + 1)) == (entries_paid(names.take(j)) || first_match(
            lowered(paid_tool_patterns()),
            lowercase(names[j]),
        ) is Some),
{
    let t = names.take(j + 1);
    let u = names.take(j);
    assert(t[j] == names[j]);
    if entries_enterprise(t) {
        let w = choose|w: int| 0 <= w < t.len() && first_match(enterprise_patterns(), lowercase(#[trigger] t[w])) is Some;
        if w < j {
            assert(u[w] == t[w]);
        }
    }
    if entries_enterprise(u) {
        let w = choose|w: int| 0 <= w < u.len() && first_match(enterprise_patterns(), lowercase(#[trigger] u[w])) is Some;
        assert(t[w] == u[w]);
    }
    if entries_paid(t) {
        let w = choose|w: int| 0 <= w < t.len() && first_match(lowered(paid_tool_patterns()), lowercase(#[trigger] t[w])) is Some;
        if w < j {
            assert(u[w] == t[w]);
        }
    }
    if entries_paid(u) {
        let w = choose|w: int| 0 <= w < u.len() && first_match(lowered(paid_tool_patterns()), lowercase(#[trigger] u[w])) is Some;
        assert(t[w] == u[w]);
    }
}

/// Adds the indicators the root's entry names give; whether an enterprise pattern
/// and whether a paid tool was found among them.
fn push_entry_indicators(indicators: &mut Vec<String>, entry_names: &Vec<String>) -> (r: (bool, bool))
    ensures
        string_views(final(indicators)@) == string_views(old(indicators)@) + entries_indicators(string_views(entry_names@)),
        r.0 == entries_enterprise(string_views(entry_names@)),
        r.1 == entries_paid(string_views(entry_names@)),
{
    let ent = to_char_vecs(&enterprise_patterns_exec());
    let paid_pats = paid_tool_patterns_exec();
    let paid = lowered_char_vecs(&paid_pats);
    let studio = to_char_vecs(&studio_patterns_exec());
    let ent_pats = enterprise_patterns_exec();
    let studio_pats = studio_patterns_exec();
    let ghost names = string_views(entry_names@);
    let ghost start = string_views(indicators@);
    let mut enterprise = false;
    let mut paid_tools = false;
    let mut j: usize = 0;
    while j < entry_names.len()
        invariant
            j <= entry_names.len(),
            names == string_views(entry_names@),
            char_views(ent@) == enterprise_patterns(),
            char_views(paid@) == lowered(paid_tool_patterns()),
            char_views(studio@) == studio_patterns(),
            str_views(ent_pats@) == enterprise_patterns(),
            str_views(paid_pats@) == paid_tool_patterns(),
            str_views(studio_pats@) == studio_patterns(),
            string_views(indicators@) == start + entries_indicators(names.take(j as int)),
            enterprise == entries_enterprise(names.take(j as int)),
            paid_tools == entries_paid(names.take(j as int)),
        decreases entry_names.len() - j,
    {
        assert(names.take(j + 1).drop_last() =~= names.take(j as int));
        assert(names.take(j + 1).last() == entry_names@[j as int]@);
        let low = to_lowercase(entry_names[j].as_str());
        let l = chars_of(low.as_str());
        let me = first_match_exec(&ent, &l);
        push_tagged(indicators, "enterprise-pattern: ", &ent_pats, me);
        let mp = first_match_exec(&paid, &l);
        push_tagged(indicators, "paid-tool: ", &paid_pats, mp);
        let ms = first_match_exec(&studio, &l);
        push_tagged(indicators, "studio-pattern: ", &studio_pats, ms);
        if me.is_some() {
            enterprise = true;
        }
        if mp.is_some() {
            paid_tools = true;
        }
        proof {
            lemma_entries_step(names, j as int);
            assert(string_views(indicators@) =~= start + entries_indicators(names.take(j + 1)));
        }
        j = j + 1;
    }
    assert(names.take(names.len() as int) =~= names);
    (enterprise, paid_tools)
}

/// Adds the indicators the read-me gives; whether an enterprise pattern was found
/// in it.
fn push_readme_indicators(indicators: &mut Vec<String>, readme: &Option<String>) -> (r: bool)
    ensures
        string_views(final(indicators)@) == string_views(old(indicators)@) + readme_indicators(*readme),
        r == readme_enterprise(*readme),
{
    match readme {
        Some(text) => {
            let ent = to_char_vecs(&enterprise_patterns_exec());
            let studio = to_char_vecs(&studio_patterns_exec());
            let ent_pats = enterprise_patterns_exec();
            let studio_pats = studio_patterns_exec();
            let ghost start = string_views(indicators@);
            let low = to_lowercase(text.as_str());
            let l = chars_of(low.as_str());
            let me = first_match_exec(&ent, &l);
            push_tagged(indicators, "readme-enterprise: ", &ent_pats, me);
            let ms = first_match_exec(&studio, &l);
            push_tagged(indicators, "readme-studio: ", &studio_pats, ms);
            assert(string_views(indicators@) =~= start + readme_indicators(*readme));
            me.is_some()
        },
        None => {
            assert(string_views(indicators@) =~= string_views(indicators@) + readme_indicators(*readme));
            false
        },
    }
}

/// What a profile detected from `f` holds: each field as the spec functions
/// `spec_ecosystem`, `spec_indicators`, `spec_enterprise`, `spec_dependency_count`
/// state, the user type classified from the profile's own flags and indicators, and
/// the confidence given by the number of its indicators.
pub open spec fn detected(f: ProjectFacts, p: ProjectProfile) -> bool {
    &&& p.ecosystem@ == spec_ecosystem(f)
    &&& string_views(p.indicators@) == spec_indicators(f)
    &&& p.has_game_engine == (rust_engine_found(f) || web_engine_found(f))
    &&& p.has_paid_tools == entries_paid(string_views(f.entry_names@))
    &&& p.has_enterprise_configs == spec_enterprise(f)
    &&& p.dependency_count == spec_dependency_count(f)
    &&& p.user_type@ == spec_classify(p.has_enterprise_configs, p.has_paid_tools, string_views(p.indicators@))
    &&& p.confidence_percent == spec_confidence(p.indicators@.len())
}

proof fn lemma_config_indicator(present: Seq<bool>)
    ensures
        config_found(present) ==> config_indicators(present).len() >= 1,
    decreases present.len(),
{
    if present.len() > 0 && config_found(present) {
        let i = choose|i: int| 0 <= i < present.len() && i < config_file_names().len() && #[trigger] present[i];
        if i < present.len() - 1 {
            assert(present.drop_last()[i]);
            lemma_config_indicator(present.drop_last());
        }
    }
}

proof fn lemma_entries_indicator(names: Seq<Seq<char>>)
    ensures
        (entries_paid(names) || entries_enterprise(names)) ==> entries_indicators(names).len() >= 1,
    decreases names.len(),
{
    if names.len() > 0 && (entries_paid(names) || entries_enterprise(names)) {
        let last = names.len() - 1;
        let paid_last = first_match(lowered(paid_tool_patterns()), lowercase(names[last])) is Some;
        let ent_last = first_match(enterprise_patterns(), lowercase(names[last])) is Some;
        if !(paid_last || ent_last) {
            let d = names.drop_last();
            if entries_paid(names) {
                let i = choose|i: int| 0 <= i < names.len() && first_match(lowered(paid_tool_patterns()), lowercase(#[trigger] names[i])) is Some;
                assert(d[i] == names[i]);
                assert(entries_paid(d));
            } else {
                let i = choose|i: int| 0 <= i < names.len() && first_match(enterprise_patterns(), lowercase(#[trigger] names[i])) is Some;
                assert(d[i] == names[i]);
                assert(entries_enterprise(d));
            }
            lemma_entries_indicator(d);
        }
    }
}

/// A project with a game engine, a paid tool or an enterprise setting has at least
/// one indicator.
pub proof fn law_flags_have_indicators(f: ProjectFacts)
    ensures
        (rust_engine_found(f) || web_engine_found(f) || entries_paid(string_views(f.entry_names@))
            || spec_enterprise(f)) ==> spec_indicators(f).len() >= 1,
{
    lemma_config_indicator(f.config_files_present@);
    lemma_entries_indicator(string_views(f.entry_names@));
}

/// Profiles a project from what its root directory shows.
pub fn detect(f: &ProjectFacts) -> (r: ProjectProfile)
    requires
        spec_dependency_count(*f) <= usize::MAX,
    ensures
        detected(*f, r),
        (r.has_game_engine || r.has_paid_tools || r.has_enterprise_configs) ==> r.indicators@.len() >= 1,
{
    let dep_count = match dependency_total(f) {
        Some(n) => n,
        None => 0,
    };
    let (eco, has_game_engine, mut indicators) = manifest_facts(f);
    let config_enterprise = push_config_indicators(&mut indicators, &f.config_files_present);
    let (entry_enterprise, has_paid_tools) = push_entry_indicators(&mut indicators, &f.entry_names);
    let readme_enterprise = push_readme_indicators(&mut indicators, &f.readme);
    let has_enterprise = config_enterprise || entry_enterprise || readme_enterprise;
    assert(string_views(indicators@) =~= spec_indicators(*f));
    proof {
        law_flags_have_indicators(*f);
    }
    let user_type = classify(has_enterprise, has_paid_tools, indicators.as_slice());
    let n = indicators.len();
    let confidence_percent: u32 = if n >= 3 { 90 } else if n >= 2 { 70 } else if n >= 1 { 50 } else { 30 };
    ProjectProfile {
        user_type,
        confidence_percent,
        indicators,
        ecosystem: string_of(&eco),
        has_game_engine,
        has_paid_tools,
        has_enterprise_configs: has_enterprise,
        dependency_count: dep_count,
    }
}

/// Profiles a project, as `detect` does, when its dependency count fits in `usize`;
/// none otherwise.
pub fn try_detect(f: &ProjectFacts) -> (r: Option<ProjectProfile>)
    ensures
        match r {
            Some(p) => spec_dependency_count(*f) <= usize::MAX && detected(*f, p),
            None => spec_dependency_count(*f) > usize::MAX,
        },
{
    match dependency_total(f) {
        Some(_) => Some(detect(f)),
        None => None,
    }
}


pub open spec fn yes_no(b: bool) -> Seq<char> {
    if b { "yes"@ } else { "no"@ }
}

fn yes_no_str(b: bool) -> (r: &'static str)
    ensures
        r@ == yes_no(b),
{
    if b { "yes" } else { "no" }
}

/// The text that describes a profile.
pub open spec fn profile_summary(p: ProjectProfile) -> Seq<char> {
    "Profile: "@ + p.user_type@ + " (conf: "@ + decimal(p.confidence_percent as nat) + "%)\nEcosystem: "@
        + p.ecosystem@ + "\nGame Engine: "@ + yes_no(p.has_game_engine) + "\nPaid Tools: "@ + yes_no(
        p.has_paid_tools,
    ) + "\nEnterprise: "@ + yes_no(p.has_enterprise_configs) + "\nDependencies: "@ + decimal(
        p.dependency_count as nat,
    ) + "\nIndicators: "@ + join(string_views(p.indicators@), ", "@)
}

impl ProjectProfile {
    /// Describes the profile in a few lines.
    pub fn summary(&self) -> (r: String)
        ensures
            r@ == profile_summary(*self),
    {
        let mut v = chars_of("Profile: ");
        extend_str(&mut v, self.user_type.as_str());
        extend_str(&mut v, " (conf: ");
        extend_decimal(&mut v, self.confidence_percent as u64);
        extend_str(&mut v, "%)\nEcosystem: ");
        extend_str(&mut v, self.ecosystem.as_str());
        extend_str(&mut v, "\nGame Engine: ");
        extend_str(&mut v, yes_no_str(self.has_game_engine));
        extend_str(&mut v, "\nPaid Tools: ");
        extend_str(&mut v, yes_no_str(self.has_paid_tools));
        extend_str(&mut v, "\nEnterprise: ");
        extend_str(&mut v, yes_no_str(self.has_enterprise_configs));
        extend_str(&mut v, "\nDependencies: ");
        extend_decimal(&mut v, self.dependency_count as u64);
        extend_str(&mut v, "\nIndicators: ");
        extend_join(&mut v, &self.indicators, ", ");
        string_of(&v)
    }
}

/// A dependency listed in `package.json`.
pub struct NodeDependency {
    pub name: String,
    /// The version, when it is a JSON string.
    pub version: Option<String>,
    /// The version as JSON text.
    pub version_json: String,
    /// The license that `node_modules/<name>/package.json` states, if any.
    pub license: Option<String>,
}

/// A member of a JSON object: its key, the value's text when the value is a JSON
/// string, and the value written as JSON.
pub struct JsonMember {
    pub name: String,
    pub text: Option<String>,
    pub json: String,
}

pub open spec fn member_view(m: JsonMember) -> (Seq<char>, Option<Seq<char>>, Seq<char>) {
    (m.name@, opt_view(m.text), m.json@)
}

pub open spec fn member_views(v: Seq<JsonMember>) -> Seq<(Seq<char>, Option<Seq<char>>, Seq<char>)> {
    v.map_values(|m: JsonMember| member_view(m))
}

/// For a JSON text and a key: none when `serde_json::from_str` does not read the text
/// as a JSON value; else the members of the object the value holds under `key`, in
/// the order `Map::iter` gives them (each as its key, `Value::as_str` of its value and
/// the value's JSON text), none where there is no such key or it holds no object.
pub uninterp spec fn json_object_members(content: Seq<char>, key: Seq<char>) -> Option<Option<Seq<(Seq<char>, Option<Seq<char>>, Seq<char>)>>>;

/// `serde_json::from_str::<serde_json::Value>`, `Value::get` of `key`,
/// `Value::as_object`, then `Map::iter` with `Value::as_str` and `Value::to_string`
/// of each value. Claimed: the result is `json_object_members` of the text and key.
#[verifier::external_body]
fn json_members(content: &str, key: &str) -> (r: Option<Option<Vec<JsonMember>>>)
    ensures
        match r {
            Some(Some(v)) => json_object_members(content@, key@) == Some(Some(member_views(v@))),
            Some(None) => json_object_members(content@, key@) == Some(None::<Seq<(Seq<char>, Option<Seq<char>>, Seq<char>)>>),
            None => json_object_members(content@, key@) is None,
        },
{
    match serde_json::from_str::<serde_json::Value>(content) {
        Ok(json) => Some(json.get(key).and_then(serde_json::Value::as_object).map(|m| {
            m.iter().map(|(k, v)| JsonMember { name: k.clone(), text: v.as_str().map(str::to_string), json: v.to_string() }).collect()
        })),
        Err(_) => None,
    }
}

/// For a JSON text and a key: none when `serde_json::from_str` does not read the text
/// as a JSON value; else `Value::as_str` of the value under `key`, none where there is
/// no such key or it holds no string.
pub uninterp spec fn json_member_text(content: Seq<char>, key: Seq<char>) -> Option<Option<Seq<char>>>;

/// `serde_json::from_str::<serde_json::Value>`, `Value::get` of `key`, then
/// `Value::as_str`. Claimed: the result is `json_member_text` of the text and key.
#[verifier::external_body]
fn json_text_member(content: &str, key: &str) -> (r: Option<Option<String>>)
    ensures
        match r {
            Some(t) => json_member_text(content@, key@) == Some(opt_view(t)),
            None => json_member_text(content@, key@) is None,
        },
{
    match serde_json::from_str::<serde_json::Value>(content) {
        Ok(json) => Some(json.get(key).and_then(serde_json::Value::as_str).map(str::to_string)),
        Err(_) => None,
    }
}

/// For a JSON text, a key and a field: none when `serde_json::from_str` does not read
/// the text as a JSON value; else `Value::as_str` of `field` of the first item of the
/// array under `key`, none where any of these is missing or of another kind.
pub uninterp spec fn json_first_item_text(content: Seq<char>, key: Seq<char>, field: Seq<char>) -> Option<Option<Seq<char>>>;

/// `serde_json::from_str::<serde_json::Value>`, `Value::get` of `key`,
/// `Value::as_array`, the first item, `Value::get` of `field`, then `Value::as_str`.
/// Claimed: the result is `json_first_item_text` of the text, key and field.
#[verifier::external_body]
fn json_first_item_member(content: &str, key: &str, field: &str) -> (r: Option<Option<String>>)
    ensures
        match r {
            Some(t) => json_first_item_text(content@, key@, field@) == Some(opt_view(t)),
            None => json_first_item_text(content@, key@, field@) is None,
        },
{
    match serde_json::from_str::<serde_json::Value>(content) {
        Ok(json) => Some(
            json.get(key).and_then(serde_json::Value::as_array).and_then(|a| a.first()).and_then(|i| i.get(field))
                .and_then(serde_json::Value::as_str).map(str::to_string),
        ),
        Err(_) => None,
    }
}

/// The dependencies `package.json` lists: the members of its `dependencies` object;
/// none when the text is no JSON or has no such object.
pub open spec fn listed_node_deps(content: Seq<char>) -> Seq<(Seq<char>, Option<Seq<char>>, Seq<char>)> {
    match json_object_members(content, "dependencies"@) {
        Some(Some(ms)) => ms,
        _ => seq![],
    }
}

/// The members of the `dependencies` object of `package.json`, as
/// `listed_node_deps` states.
pub fn package_json_dependencies(content: &str) -> (r: Vec<JsonMember>)
    ensures
        member_views(r@) == listed_node_deps(content@),
{
    match json_members(content, "dependencies") {
        Some(Some(v)) => v,
        _ => {
            let v: Vec<JsonMember> = Vec::new();
            assert(member_views(v@) =~= Seq::<(Seq<char>, Option<Seq<char>>, Seq<char>)>::empty());
            v
        },
    }
}

/// The license an installed package's `package.json` states: its `license` string,
/// else the `type` of the first entry of its `licenses` array; none when the text is
/// no JSON or states neither.
pub open spec fn spec_node_license(content: Seq<char>) -> Option<Seq<char>> {
    match json_member_text(content, "license"@) {
        None => None,
        Some(Some(l)) => Some(l),
        Some(None) => match json_first_item_text(content, "licenses"@, "type"@) {
            Some(t) => t,
            None => None,
        },
    }
}

pub fn node_license(content: &str) -> (r: Option<String>)
    ensures
        opt_view(r) == spec_node_license(content@),
{
    match json_text_member(content, "license") {
        None => None,
        Some(Some(l)) => Some(l),
        Some(None) => match json_first_item_member(content, "licenses", "type") {
            Some(t) => t,
            None => None,
        },
    }
}

/// The report line for a dependency with an unstable version.
pub open spec fn unstable_issue(name: Seq<char>, version_json: Seq<char>) -> Seq<char> {
    name + ": unstable version ("@ + version_json + ")"@
}

/// A version below 1.0 or a wildcard.
pub open spec fn is_unstable_version(v: Seq<char>) -> bool {
    starts_with(v, "0."@) || v == "*"@
}

pub open spec fn node_dep(d: NodeDependency) -> DependencyView {
    DependencyView {
        name: d.name@,
        version: match d.version {
            Some(v) => v@,
            None => "?"@,
        },
        license: opt_view(d.license),
        is_outdated: false,
        latest_version: None,
    }
}

pub open spec fn node_deps(ds: Seq<NodeDependency>) -> Seq<DependencyView> {
    ds.map_values(|d: NodeDependency| node_dep(d))
}

pub open spec fn node_license_issues(ds: Seq<NodeDependency>) -> Seq<Seq<char>>
    decreases ds.len(),
{
    if ds.len() == 0 {
        seq![]
    } else {
        let d = ds.last();
        node_license_issues(ds.drop_last()) + match d.license {
            Some(l) => if is_restricted_license(l@) { seq![restricted_issue(d.name@, l@)] } else { seq![] },
            None => seq![],
        }
    }
}

pub open spec fn node_version_issues(ds: Seq<NodeDependency>) -> Seq<Seq<char>>
    decreases ds.len(),
{
    if ds.len() == 0 {
        seq![]
    } else {
        let d = ds.last();
        node_version_issues(ds.drop_last()) + match d.version {
            Some(v) => if is_unstable_version(v@) { seq![unstable_issue(d.name@, d.version_json@)] } else { seq![] },
            None => seq![],
        }
    }
}

/// Every dependency whose version is a string beginning with "0." (any 0.x
/// version) or is "*" gets an unstable-version issue naming it and its version as
/// JSON text.
pub proof fn law_unstable_versions_flagged(ds: Seq<NodeDependency>, k: int)
    requires
        0 <= k < ds.len(),
        ds[k].version matches Some(v) && ((v@.len() >= 2 && v@[0] == '0' && v@[1] == '.') || (v@.len() == 1
            && v@[0] == '*')),
    ensures
        node_version_issues(ds).contains(ds[k].name@ + ": unstable version ("@ + ds[k].version_json@ + ")"@),
    decreases ds.len(),
{
    let msg = ds[k].name@ + ": unstable version ("@ + ds[k].version_json@ + ")"@;
    let d = ds.drop_last();
    if k == ds.len() - 1 {
        let v = ds[k].version->0;
        reveal_strlit("0.");
        reveal_strlit("*");
        if v@.len() >= 2 && v@[0] == '0' && v@[1] == '.' {
            assert(v@.subrange(0, 2) =~= "0."@);
        } else {
            assert(v@ =~= "*"@);
        }
        assert(is_unstable_version(v@));
        let tail = seq![unstable_issue(ds[k].name@, ds[k].version_json@)];
        assert(node_version_issues(ds) == node_version_issues(d) + tail);
        assert(node_version_issues(ds)[node_version_issues(d).len() as int] == msg);
    } else {
        assert(d[k] == ds[k]);
        law_unstable_versions_flagged(d, k);
        let i = choose|i: int| 0 <= i < node_version_issues(d).len() && node_version_issues(d)[i] == msg;
        let tail = match ds.last().version {
            Some(v) => if is_unstable_version(v@) { seq![unstable_issue(ds.last().name@, ds.last().version_json@)] } else { seq![] },
            None => seq![],
        };
        assert(node_version_issues(ds) == node_version_issues(d) + tail);
        assert(node_version_issues(ds)[i] == msg);
    }
}

/// Checks the dependencies of `package.json`: each becomes a dependency (version
/// "?" when it is no string), restricted licenses and unstable versions become issues.
pub fn check_node_deps(ds: &Vec<NodeDependency>) -> (r: LicenseCheckResult)
    ensures
        dep_views(r.deps@) == node_deps(ds@),
        string_views(r.license_issues@) == node_license_issues(ds@),
        string_views(r.version_issues@) == node_version_issues(ds@),
{
    let mut deps: Vec<DependencyInfo> = Vec::new();
    let mut lic: Vec<String> = Vec::new();
    let mut ver: Vec<String> = Vec::new();
    let zero_dot = chars_of("0.");
    let star = chars_of("*");
    let mut i: usize = 0;
    while i < ds.len()
        invariant
            i <= ds.len(),
            zero_dot@ == "0."@,
            star@ == "*"@,
            dep_views(deps@) == node_deps(ds@.take(i as int)),
            string_views(lic@) == node_license_issues(ds@.take(i as int)),
            string_views(ver@) == node_version_issues(ds@.take(i as int)),
        decreases ds.len() - i,
    {
        let d = &ds[i];
        let ghost t = ds@.take(i + 1);
        assert(t.drop_last() =~= ds@.take(i as int));
        assert(t.last() == *d);
        let name = chars_of(d.name.as_str());
        if let Some(l) = &d.license {
            let lc = chars_of(l.as_str());
            if is_restricted_exec(&lc) {
                let mut msg = name.clone();
                extend_str(&mut msg, ": restricted license (");
                extend_chars(&mut msg, &lc);
                extend_str(&mut msg, ")");
                let ghost before = lic@;
                lic.push(string_of(&msg));
                assert(string_views(lic@) =~= string_views(before).push(msg@));
            } else {
                assert(string_views(lic@) =~= node_license_issues(t));
            }
        } else {
            assert(string_views(lic@) =~= node_license_issues(t));
        }
        let info = DependencyInfo {
            name: d.name.clone(),
            version: match &d.version {
                Some(v) => v.clone(),
                None => String::from_str("?"),
            },
            license: d.license.clone(),
            is_outdated: false,
            latest_version: None,
        };
        let ghost db = deps@;
        deps.push(info);
        assert(dep_views(deps@) =~= node_deps(t)) by {
            assert(dep_views(deps@) =~= dep_views(db).push(node_dep(*d)));
        }
        if let Some(v) = &d.version {
            let vc = chars_of(v.as_str());
            if starts_with_chars(&vc, &zero_dot) || equal_chars(&vc, &star) {
                let mut msg = name.clone();
                extend_str(&mut msg, ": unstable version (");
                extend_str(&mut msg, d.version_json.as_str());
                extend_str(&mut msg, ")");
                let ghost before = ver@;
                ver.push(string_of(&msg));
                assert(string_views(ver@) =~= string_views(before).push(msg@));
            } else {
                assert(string_views(ver@) =~= node_version_issues(t));
            }
        } else {
            assert(string_views(ver@) =~= node_version_issues(t));
        }
        i = i + 1;
    }
    assert(ds@.take(ds.len() as int) =~= ds@);
    LicenseCheckResult { deps, license_issues: lic, version_issues: ver }
}

/// Dependencies, license and version issues, and the profile of a project.
#[derive(Debug)]
pub struct VerifyReport {
    pub dependencies: Vec<DependencyInfo>,
    pub license_issues: Vec<String>,
    pub version_issues: Vec<String>,
    pub profile: ProjectProfile,
}

/// The issue lines of a report section.
pub open spec fn issue_lines(issues: Seq<Seq<char>>, mark: Seq<char>) -> Seq<char>
    decreases issues.len(),
{
    if issues.len() == 0 {
        seq![]
    } else {
        issue_lines(issues.drop_last(), mark) + "  "@ + mark + " "@ + issues.last() + "\n"@
    }
}

/// The text that describes a verification report.
pub open spec fn report_summary(r: VerifyReport) -> Seq<char> {
    let li = string_views(r.license_issues@);
    let vi = string_views(r.version_issues@);
    "Profile:\n"@ + profile_summary(r.profile) + "\n\n"@ + "Dependencies: "@ + decimal(r.dependencies@.len())
        + "\n"@ + (if li.len() > 0 {
        "\nLicense Issues ("@ + decimal(li.len()) + "):\n"@ + issue_lines(li, "!"@)
    } else {
        seq![]
    }) + (if vi.len() > 0 {
        "\nVersion Issues ("@ + decimal(vi.len()) + "):\n"@ + issue_lines(vi, "~"@)
    } else {
        seq![]
    }) + (if li.len() == 0 && vi.len() == 0 {
        "No license or version issues found.\n"@
    } else {
        seq![]
    })
}

fn extend_issue_lines(dst: &mut Vec<char>, issues: &Vec<String>, mark: &str)
    ensures
        final(dst)@ == old(dst)@ + issue_lines(string_views(issues@), mark@),
{
    let ghost views = string_views(issues@);
    let ghost start = dst@;
    let mut i: usize = 0;
    assert(start + issue_lines(views.take(0), mark@) =~= start);
    while i < issues.len()
        invariant
            i <= issues.len(),
            views == string_views(issues@),
            dst@ == start + issue_lines(views.take(i as int), mark@),
        decreases issues.len() - i,
    {
        assert(views.take(i + 1).drop_last() =~= views.take(i as int));
        assert(views.take(i + 1).last() == issues@[i as int]@);
        extend_str(dst, "  ");
        extend_str(dst, mark);
        extend_str(dst, " ");
        extend_str(dst, issues[i].as_str());
        extend_str(dst, "\n");
        assert(dst@ =~= start + issue_lines(views.take(i + 1), mark@));
        i = i + 1;
    }
    assert(views.take(issues.len() as int) =~= views);
}

impl VerifyReport {
    /// Describes the report: the profile, the number of dependencies, and the issues.
    pub fn summary(&self) -> (r: String)
        ensures
            r@ == report_summary(*self),
    {
        let p = self.profile.summary();
        let mut v = chars_of("Profile:\n");
        extend_str(&mut v, p.as_str());
        extend_str(&mut v, "\n\n");
        extend_str(&mut v, "Dependencies: ");
        extend_decimal(&mut v, self.dependencies.len() as u64);
        extend_str(&mut v, "\n");
        let ghost head = v@;
        if self.license_issues.len() > 0 {
            extend_str(&mut v, "\nLicense Issues (");
            extend_decimal(&mut v, self.license_issues.len() as u64);
            extend_str(&mut v, "):\n");
            extend_issue_lines(&mut v, &self.license_issues, "!");
        }
        let ghost mid = v@;
        if self.version_issues.len() > 0 {
            extend_str(&mut v, "\nVersion Issues (");
            extend_decimal(&mut v, self.version_issues.len() as u64);
            extend_str(&mut v, "):\n");
            extend_issue_lines(&mut v, &self.version_issues, "~");
        }
        let ghost tail = v@;
        if self.license_issues.len() == 0 && self.version_issues.len() == 0 {
            extend_str(&mut v, "No license or version issues found.\n");
        }
        let ghost li = string_views(self.license_issues@);
        let ghost vi = string_views(self.version_issues@);
        assert(li.len() == self.license_issues@.len());
        assert(vi.len() == self.version_issues@.len());
        assert(v@ =~= report_summary(*self));
        string_of(&v)
    }
}

/// What a dependency check of `f` holds, with the text of `Cargo.lock` and the
/// dependencies read from `package.json`: the packages of the lock file when there
/// is a `Cargo.toml`, the dependencies of `package.json` when there is one, the
/// issues found among them, and the project's profile.
pub open spec fn checked_report(
    f: ProjectFacts,
    cargo_lock: Option<Seq<char>>,
    node_deps_found: Seq<NodeDependency>,
    r: VerifyReport,
) -> bool {
    &&& dep_views(r.dependencies@) == (if f.has_cargo_toml {
        match cargo_lock {
            Some(c) => lock_deps(c),
            None => seq![],
        }
    } else {
        seq![]
    }) + (if f.has_package_json { node_deps(node_deps_found) } else { seq![] })
    &&& string_views(r.license_issues@) == (if f.has_cargo_toml {
        match cargo_lock {
            Some(c) => lock_issues(c),
            None => seq![],
        }
    } else {
        seq![]
    }) + (if f.has_package_json { node_license_issues(node_deps_found) } else { seq![] })
    &&& string_views(r.version_issues@) == (if f.has_package_json {
        node_version_issues(node_deps_found)
    } else {
        seq![]
    })
    &&& detected(f, r.profile)
}

pub open spec fn opt_str(o: Option<&str>) -> Option<Seq<char>> {
    match o {
        Some(c) => Some(c@),
        None => None,
    }
}

/// Checks a project's dependencies: its profile, the packages of `Cargo.lock` when
/// there is a `Cargo.toml`, and the dependencies of `package.json` when there is one.
pub fn verify_dependencies(
    f: &ProjectFacts,
    cargo_lock: Option<&str>,
    node_deps_found: &Vec<NodeDependency>,
) -> (r: VerifyReport)
    requires
        spec_dependency_count(*f) <= usize::MAX,
    ensures
        checked_report(*f, opt_str(cargo_lock), node_deps_found@, r),
{
    let profile = detect(f);
    let mut dependencies: Vec<DependencyInfo> = Vec::new();
    let mut license_issues: Vec<String> = Vec::new();
    let mut version_issues: Vec<String> = Vec::new();
    if f.has_cargo_toml {
        if let Some(c) = cargo_lock {
            let res = check_cargo_lock(c);
            dependencies = res.deps;
            license_issues = res.license_issues;
        }
    }
    let ghost d1 = dep_views(dependencies@);
    let ghost l1 = string_views(license_issues@);
    assert(d1 == (if f.has_cargo_toml { match cargo_lock { Some(c) => lock_deps(c@), None => seq![] } } else { seq![] }));
    assert(l1 == (if f.has_cargo_toml { match cargo_lock { Some(c) => lock_issues(c@), None => seq![] } } else { seq![] }));
    if f.has_package_json {
        let mut res = check_node_deps(node_deps_found);
        let ghost db = dependencies@;
        let ghost rd = res.deps@;
        dependencies.append(&mut res.deps);
        assert(dep_views(dependencies@) =~= dep_views(db) + dep_views(rd));
        let ghost lb = license_issues@;
        let ghost rl = res.license_issues@;
        license_issues.append(&mut res.license_issues);
        assert(string_views(license_issues@) =~= string_views(lb) + string_views(rl));
        version_issues = res.version_issues;
    } else {
        assert(dep_views(dependencies@) =~= d1 + Seq::<DependencyView>::empty());
        assert(string_views(license_issues@) =~= l1 + Seq::<Seq<char>>::empty());
        assert(string_views(version_issues@) =~= Seq::<Seq<char>>::empty());
    }
    VerifyReport { dependencies, license_issues, version_issues, profile }
}

/// Checks a project's dependencies, as `verify_dependencies` does, when its
/// dependency count fits in `usize`; none otherwise.
pub fn try_verify_dependencies(
    f: &ProjectFacts,
    cargo_lock: Option<&str>,
    node_deps_found: &Vec<NodeDependency>,
) -> (r: Option<VerifyReport>)
    ensures
        match r {
            Some(rep) => spec_dependency_count(*f) <= usize::MAX && checked_report(*f, opt_str(cargo_lock),
                node_deps_found@, rep),
            None => spec_dependency_count(*f) > usize::MAX,
        },
{
    match dependency_total(f) {
        Some(_) => Some(verify_dependencies(f, cargo_lock, node_deps_found)),
        None => None,
    }
}

} // verus!
