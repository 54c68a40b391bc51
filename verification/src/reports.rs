use vstd::prelude::*;
use vstd::string::StringSliceAdditionalSpecFns;
use crate::engine::{count_feedback, count_kind, IterationResult, IterationResultView, LoopState, LoopStatus, history_view};
use crate::fs_utils::{format_size, spec_format_size, candidate_views};
use crate::text::{chars_of, decimal, lines, lines_of, line_views, extend_decimal, extend_join, extend_str, join, string_of, string_views,
    to_uppercase, uppercase};
use crate::types::{FeedbackEntry, FeedbackKind, SecurityAuditEntry};

verus! {

// ---------------------------------------------------------------------------
// The loop
// ---------------------------------------------------------------------------

/// One line per feedback entry: its kind, source and message.
pub open spec fn feedback_lines(fb: Seq<FeedbackEntry>) -> Seq<char>
    decreases fb.len(),
{
    if fb.len() == 0 {
        seq![]
    } else {
        feedback_lines(fb.drop_last()) + "\n  ["@ + fb.last().kind.spec_name() + "] "@ + fb.last().source@ + ": "@
            + fb.last().message@
    }
}

/// What the end of an iteration adds to its report.
pub open spec fn outcome_note(s: LoopStatus) -> Seq<char> {
    match s {
        LoopStatus::Completed => "\n\n*** CONVERGED ***"@,
        LoopStatus::Failed => "\n\n*** FAILED ***"@,
        _ => Seq::empty(),
    }
}

/// The report of one iteration: number, score, the numbers of errors and
/// warnings, each piece of feedback, and whether the loop converged or failed.
pub open spec fn iteration_report_text(r: IterationResultView) -> Seq<char> {
    "Iteration #"@ + decimal(r.iteration as nat) + " - Score: "@ + decimal(r.score as nat) + ".0/100\nFeedback: "@
        + decimal(count_kind(r.feedback, FeedbackKind::Error)) + " errors, "@ + decimal(
        count_kind(r.feedback, FeedbackKind::Warning),
    ) + " warnings"@ + feedback_lines(r.feedback) + outcome_note(r.status)
}

pub fn iteration_report(r: &IterationResult) -> (s: String)
    ensures
        s@ == iteration_report_text(r@),
{
    let errors = count_feedback(&r.feedback, FeedbackKind::Error);
    let warnings = count_feedback(&r.feedback, FeedbackKind::Warning);
    let mut v = chars_of("Iteration #");
    extend_decimal(&mut v, r.iteration as u64);
    extend_str(&mut v, " - Score: ");
    extend_decimal(&mut v, r.score as u64);
    extend_str(&mut v, ".0/100\nFeedback: ");
    extend_decimal(&mut v, errors as u64);
    extend_str(&mut v, " errors, ");
    extend_decimal(&mut v, warnings as u64);
    extend_str(&mut v, " warnings");
    let ghost head = v@;
    let mut i: usize = 0;
    while i < r.feedback.len()
        invariant
            i <= r.feedback.len(),
            v@ == head + feedback_lines(r.feedback@.take(i as int)),
        decreases r.feedback.len() - i,
    {
        assert(r.feedback@.take(i + 1).drop_last() =~= r.feedback@.take(i as int));
        let f = &r.feedback[i];
        extend_str(&mut v, "\n  [");
        extend_str(&mut v, f.kind.as_str());
        extend_str(&mut v, "] ");
        extend_str(&mut v, f.source.as_str());
        extend_str(&mut v, ": ");
        extend_str(&mut v, f.message.as_str());
        i = i + 1;
        assert(v@ =~= head + feedback_lines(r.feedback@.take(i as int)));
    }
    assert(r.feedback@.take(r.feedback.len() as int) =~= r.feedback@);
    match r.status {
        LoopStatus::Completed => extend_str(&mut v, "\n\n*** CONVERGED ***"),
        LoopStatus::Failed => extend_str(&mut v, "\n\n*** FAILED ***"),
        _ => {},
    }
    assert(v@ =~= iteration_report_text(r@));
    string_of(&v)
}

/// The status report of a loop: status, goal, id, current iteration and start,
/// and the number and score of the last iteration if there is one, one per line.
pub open spec fn status_report_text(s: crate::engine::LoopStateView) -> Seq<char> {
    "Status: "@ + s.status.spec_name() + "\nGoal: "@ + s.goal@ + "\nLoop ID: "@ + s.id@ + "\nCurrent Iteration: "@
        + decimal(s.current_iteration as nat) + "\nStarted: "@ + s.start_time@ + if s.history.len() > 0 {
        "\nLast Iteration: #"@ + decimal(s.history.last().iteration as nat) + " (score: "@ + decimal(
            s.history.last().score as nat,
        ) + ".0/100)"@
    } else {
        Seq::empty()
    }
}

pub fn status_report(s: &LoopState) -> (r: String)
    ensures
        r@ == status_report_text(s@),
{
    let mut v = chars_of("Status: ");
    extend_str(&mut v, s.status.as_str());
    extend_str(&mut v, "\nGoal: ");
    extend_str(&mut v, s.goal.as_str());
    extend_str(&mut v, "\nLoop ID: ");
    extend_str(&mut v, s.id.as_str());
    extend_str(&mut v, "\nCurrent Iteration: ");
    extend_decimal(&mut v, s.current_iteration as u64);
    extend_str(&mut v, "\nStarted: ");
    extend_str(&mut v, s.start_time.as_str());
    if s.history.len() > 0 {
        let last = &s.history[s.history.len() - 1];
        assert(history_view(s.history@).last() == last@);
        extend_str(&mut v, "\nLast Iteration: #");
        extend_decimal(&mut v, last.iteration as u64);
        extend_str(&mut v, " (score: ");
        extend_decimal(&mut v, last.score as u64);
        extend_str(&mut v, ".0/100)");
    }
    assert(v@ =~= status_report_text(s@));
    string_of(&v)
}

/// The answer to starting a loop.
pub fn start_report(manual: bool, goal: &str, s: &LoopState) -> (r: String)
    ensures
        r@ == "Loop started in "@ + (if manual { "manual"@ } else { "autonomous"@ }) + " mode: "@ + goal@
            + "\nLoop ID: "@ + s.id@ + "\nStatus: "@ + s.status.spec_name(),
{
    let mut v = chars_of("Loop started in ");
    if manual {
        extend_str(&mut v, "manual");
    } else {
        extend_str(&mut v, "autonomous");
    }
    extend_str(&mut v, " mode: ");
    extend_str(&mut v, goal);
    extend_str(&mut v, "\nLoop ID: ");
    extend_str(&mut v, s.id.as_str());
    extend_str(&mut v, "\nStatus: ");
    extend_str(&mut v, s.status.as_str());
    string_of(&v)
}

/// The answer to stopping a loop after `n` iterations.
pub fn stop_report(n: u32) -> (r: String)
    ensures
        r@ == "Loop stopped after "@ + decimal(n as nat) + " iterations"@,
{
    let mut v = chars_of("Loop stopped after ");
    extend_decimal(&mut v, n as u64);
    extend_str(&mut v, " iterations");
    string_of(&v)
}

/// The results of iteration `n`, in their order.
pub open spec fn results_of(rs: Seq<IterationResultView>, n: u32) -> Seq<IterationResultView>
    decreases rs.len(),
{
    if rs.len() == 0 {
        seq![]
    } else {
        results_of(rs.drop_last(), n) + if rs.last().iteration == n {
            seq![rs.last()]
        } else {
            seq![]
        }
    }
}

/// The results of iteration `n` are exactly those of the results that have that
/// number: each one kept has it, and none that has it is left out.
pub proof fn law_results_of_exact(rs: Seq<IterationResultView>, n: u32)
    ensures
        forall|i: int| 0 <= i < results_of(rs, n).len() ==> (#[trigger] results_of(rs, n)[i]).iteration == n,
        forall|i: int| 0 <= i < rs.len() && (#[trigger] rs[i]).iteration == n ==> results_of(rs, n).contains(rs[i]),
    decreases rs.len(),
{
    if rs.len() > 0 {
        let init = rs.drop_last();
        law_results_of_exact(init, n);
        let tail = if rs.last().iteration == n { seq![rs.last()] } else { Seq::<IterationResultView>::empty() };
        assert(results_of(rs, n) == results_of(init, n) + tail);
        assert forall|i: int| 0 <= i < results_of(rs, n).len() implies (#[trigger] results_of(rs, n)[i]).iteration == n by {
            if i < results_of(init, n).len() {
                assert(results_of(rs, n)[i] == results_of(init, n)[i]);
            }
        }
        assert forall|i: int| 0 <= i < rs.len() && (#[trigger] rs[i]).iteration == n implies results_of(rs, n).contains(rs[i]) by {
            if i < rs.len() - 1 {
                assert(init[i] == rs[i]);
                let k = choose|k: int| 0 <= k < results_of(init, n).len() && results_of(init, n)[k] == init[i];
                assert(results_of(rs, n)[k] == rs[i]);
            } else {
                assert(results_of(rs, n)[results_of(init, n).len() as int] == rs[i]);
            }
        }
    }
}

/// The results `oura_results` shows: those of iteration `n` when a positive `n` is
/// asked for (compared as a `u32`, as the request's number is cut to 32 bits), else
/// all of them.
pub open spec fn selected_results(results: Seq<IterationResultView>, filter: Option<u64>) -> Seq<IterationResultView> {
    match filter {
        Some(n) => if n > 0 {
            results_of(results, (n % 0x1_0000_0000) as u32)
        } else {
            results
        },
        None => results,
    }
}

pub fn select_results(results: Vec<IterationResult>, filter: Option<u64>) -> (r: Vec<IterationResult>)
    ensures
        history_view(r@) == selected_results(history_view(results@), filter),
{
    let n: u64 = match filter {
        Some(n) => n,
        None => 0,
    };
    if n == 0 {
        return results;
    }
    let want: u32 = (n % 0x1_0000_0000) as u32;
    let ghost all = history_view(results@);
    let mut out: Vec<IterationResult> = Vec::new();
    let mut i: usize = 0;
    while i < results.len()
        invariant
            i <= results.len(),
            all == history_view(results@),
            history_view(out@) == results_of(all.take(i as int), want),
        decreases results.len() - i,
    {
        let ghost prev = history_view(out@);
        assert(all.take(i + 1).drop_last() =~= all.take(i as int));
        if results[i].iteration == want {
            out.push(results[i].clone());
            assert(history_view(out@) =~= prev.push(all[i as int]));
        } else {
            assert(history_view(out@) =~= prev);
        }
        i = i + 1;
        assert(history_view(out@) =~= results_of(all.take(i as int), want));
    }
    assert(all.take(results.len() as int) =~= all);
    out
}

// ---------------------------------------------------------------------------
// Audits
// ---------------------------------------------------------------------------

/// The number of findings of the given severity.
pub open spec fn severity_count(fs: Seq<SecurityAuditEntry>, sev: Seq<char>) -> nat
    decreases fs.len(),
{
    if fs.len() == 0 {
        0
    } else {
        severity_count(fs.drop_last(), sev) + if fs.last().severity@ == sev { 1nat } else { 0nat }
    }
}

pub open spec fn line_text(l: Option<usize>) -> Seq<char> {
    match l {
        Some(n) => decimal(n as nat),
        None => "?"@,
    }
}

/// A finding as reported: severity in capitals, place, description and advice.
pub open spec fn finding_text(f: SecurityAuditEntry) -> Seq<char> {
    "\n["@ + uppercase(f.severity@) + "] "@ + f.file@ + ":"@ + line_text(f.line) + " - "@ + f.description@
        + "\n  => "@ + f.recommendation@
}

pub open spec fn findings_text(fs: Seq<SecurityAuditEntry>) -> Seq<char>
    decreases fs.len(),
{
    if fs.len() == 0 {
        seq![]
    } else {
        findings_text(fs.drop_last()) + finding_text(fs.last())
    }
}

/// The note on files that were asked for and not found.
pub open spec fn skipped_note(skipped: Seq<Seq<char>>) -> Seq<char> {
    if skipped.len() > 0 {
        "\nSkipped "@ + decimal(skipped.len()) + " files (not found): "@ + join(skipped, ", "@) + "\n"@
    } else {
        Seq::empty()
    }
}

/// The report of a security audit: a clean bill when nothing was found and no
/// file was skipped; else the count of findings, the count per severity, each
/// finding, and the skipped files.
pub open spec fn security_report_text(fs: Seq<SecurityAuditEntry>, skipped: Seq<Seq<char>>) -> Seq<char> {
    if fs.len() == 0 && skipped.len() == 0 {
        "Security scan complete: no vulnerabilities found"@
    } else {
        "Security scan complete: "@ + decimal(fs.len()) + " issues found\n  Critical: "@ + decimal(
            severity_count(fs, "critical"@),
        ) + "\n  High: "@ + decimal(severity_count(fs, "high"@)) + "\n  Medium: "@ + decimal(
            severity_count(fs, "medium"@),
        ) + "\n  Low: "@ + decimal(severity_count(fs, "low"@)) + "\n"@ + findings_text(fs) + skipped_note(skipped)
    }
}

fn count_severity(fs: &Vec<SecurityAuditEntry>, sev: &str) -> (n: usize)
    ensures
        n == severity_count(fs@, sev@),
{
    let mut n: usize = 0;
    let mut i: usize = 0;
    while i < fs.len()
        invariant
            i <= fs.len(),
            n == severity_count(fs@.take(i as int), sev@),
            n <= i,
        decreases fs.len() - i,
    {
        assert(fs@.take(i + 1).drop_last() =~= fs@.take(i as int));
        if crate::text::str_eq(fs[i].severity.as_str(), sev) {
            n = n + 1;
        }
        i = i + 1;
    }
    assert(fs@.take(fs.len() as int) =~= fs@);
    n
}

fn extend_skipped(v: &mut Vec<char>, skipped: &Vec<String>)
    ensures
        final(v)@ == old(v)@ + skipped_note(string_views(skipped@)),
{
    if skipped.len() > 0 {
        extend_str(v, "\nSkipped ");
        extend_decimal(v, skipped.len() as u64);
        extend_str(v, " files (not found): ");
        extend_join(v, skipped, ", ");
        extend_str(v, "\n");
    }
    assert(final(v)@ =~= old(v)@ + skipped_note(string_views(skipped@)));
}

pub fn security_report(fs: &Vec<SecurityAuditEntry>, skipped: &Vec<String>) -> (r: String)
    ensures
        r@ == security_report_text(fs@, string_views(skipped@)),
{
    if fs.len() == 0 && skipped.len() == 0 {
        let v = chars_of("Security scan complete: no vulnerabilities found");
        return string_of(&v);
    }
    let mut v = chars_of("Security scan complete: ");
    extend_decimal(&mut v, fs.len() as u64);
    extend_str(&mut v, " issues found\n  Critical: ");
    extend_decimal(&mut v, count_severity(fs, "critical") as u64);
    extend_str(&mut v, "\n  High: ");
    extend_decimal(&mut v, count_severity(fs, "high") as u64);
    extend_str(&mut v, "\n  Medium: ");
    extend_decimal(&mut v, count_severity(fs, "medium") as u64);
    extend_str(&mut v, "\n  Low: ");
    extend_decimal(&mut v, count_severity(fs, "low") as u64);
    extend_str(&mut v, "\n");
    let ghost head = v@;
    let mut i: usize = 0;
    while i < fs.len()
        invariant
            i <= fs.len(),
            v@ == head + findings_text(fs@.take(i as int)),
        decreases fs.len() - i,
    {
        assert(fs@.take(i + 1).drop_last() =~= fs@.take(i as int));
        let f = &fs[i];
        let up = to_uppercase(f.severity.as_str());
        extend_str(&mut v, "\n[");
        extend_str(&mut v, up.as_str());
        extend_str(&mut v, "] ");
        extend_str(&mut v, f.file.as_str());
        extend_str(&mut v, ":");
        match f.line {
            Some(l) => extend_decimal(&mut v, l as u64),
            None => extend_str(&mut v, "?"),
        }
        extend_str(&mut v, " - ");
        extend_str(&mut v, f.description.as_str());
        extend_str(&mut v, "\n  => ");
        extend_str(&mut v, f.recommendation.as_str());
        i = i + 1;
        assert(v@ =~= head + findings_text(fs@.take(i as int)));
    }
    assert(fs@.take(fs.len() as int) =~= fs@);
    extend_skipped(&mut v, skipped);
    assert(v@ =~= security_report_text(fs@, string_views(skipped@)));
    string_of(&v)
}

/// What the code analysis found in one file.
pub struct FileAnalysis {
    pub file: String,
    pub issues: Vec<String>,
    pub suggestions: Vec<String>,
}

pub open spec fn tagged_lines(tag: Seq<char>, items: Seq<Seq<char>>) -> Seq<char>
    decreases items.len(),
{
    if items.len() == 0 {
        seq![]
    } else {
        tagged_lines(tag, items.drop_last()) + "    ["@ + tag + "] "@ + items.last() + "\n"@
    }
}

/// A file's part of the code report: nothing when it has no issues; else its name,
/// its issues and the suggestions.
pub open spec fn file_block(f: FileAnalysis) -> Seq<char> {
    if f.issues@.len() > 0 {
        "  "@ + f.file@ + ":\n"@ + tagged_lines("ISSUE"@, string_views(f.issues@)) + tagged_lines(
            "SUGGEST"@,
            string_views(f.suggestions@),
        )
    } else {
        Seq::empty()
    }
}

pub open spec fn file_blocks(fs: Seq<FileAnalysis>) -> Seq<char>
    decreases fs.len(),
{
    if fs.len() == 0 {
        seq![]
    } else {
        file_blocks(fs.drop_last()) + file_block(fs.last())
    }
}

/// The report of a code analysis: each file with issues, and the skipped files;
/// a pass when that is nothing.
pub open spec fn code_report_text(fs: Seq<FileAnalysis>, skipped: Seq<Seq<char>>) -> Seq<char> {
    let rest = file_blocks(fs) + skipped_note(skipped);
    if rest.len() == 0 {
        "Code analysis passed: no clean code violations detected"@
    } else {
        "Code Analysis Results:\n"@ + rest
    }
}

fn extend_tagged(v: &mut Vec<char>, tag: &str, items: &Vec<String>)
    ensures
        final(v)@ == old(v)@ + tagged_lines(tag@, string_views(items@)),
{
    let ghost start = v@;
    let ghost views = string_views(items@);
    let mut i: usize = 0;
    while i < items.len()
        invariant
            i <= items.len(),
            views == string_views(items@),
            v@ == start + tagged_lines(tag@, views.take(i as int)),
        decreases items.len() - i,
    {
        assert(views.take(i + 1).drop_last() =~= views.take(i as int));
        assert(views.take(i + 1).last() == items@[i as int]@);
        extend_str(v, "    [");
        extend_str(v, tag);
        extend_str(v, "] ");
        extend_str(v, items[i].as_str());
        extend_str(v, "\n");
        i = i + 1;
        assert(v@ =~= start + tagged_lines(tag@, views.take(i as int)));
    }
    assert(views.take(items.len() as int) =~= views);
}

pub fn code_report(fs: &Vec<FileAnalysis>, skipped: &Vec<String>) -> (r: String)
    ensures
        r@ == code_report_text(fs@, string_views(skipped@)),
{
    let mut v: Vec<char> = Vec::new();
    let mut i: usize = 0;
    while i < fs.len()
        invariant
            i <= fs.len(),
            v@ == file_blocks(fs@.take(i as int)),
        decreases fs.len() - i,
    {
        assert(fs@.take(i + 1).drop_last() =~= fs@.take(i as int));
        let f = &fs[i];
        if f.issues.len() > 0 {
            extend_str(&mut v, "  ");
            extend_str(&mut v, f.file.as_str());
            extend_str(&mut v, ":\n");
            extend_tagged(&mut v, "ISSUE", &f.issues);
            extend_tagged(&mut v, "SUGGEST", &f.suggestions);
        }
        i = i + 1;
        assert(v@ =~= file_blocks(fs@.take(i as int)));
    }
    assert(fs@.take(fs.len() as int) =~= fs@);
    extend_skipped(&mut v, skipped);
    if v.len() == 0 {
        let p = chars_of("Code analysis passed: no clean code violations detected");
        return string_of(&p);
    }
    let mut out = chars_of("Code Analysis Results:\n");
    crate::text::extend_chars(&mut out, &v);
    string_of(&out)
}

// ---------------------------------------------------------------------------
// Clean-up
// ---------------------------------------------------------------------------

/// Whether a clean-up deletes: a dry run only lists, and deleting needs `confirm`
/// (refused with -32602 without it). `Ok(true)` exactly when the run is no dry run
/// and `confirm` is set, so nothing is removed otherwise.
pub fn cleanup_allowed(dry_run: bool, confirm: bool) -> (r: Result<bool, (i32, String)>)
    ensures
        (!dry_run && !confirm) ==> (r matches Err(e) && e.0 == -32602 && e.1@
            == "Deletion requires confirm=true. Run with dry_run=true first to preview."@),
        (dry_run || confirm) ==> (r matches Ok(delete) && (delete <==> (!dry_run && confirm))),
{
    if !dry_run && !confirm {
        let v = chars_of("Deletion requires confirm=true. Run with dry_run=true first to preview.");
        return Err((-32602, string_of(&v)));
    }
    Ok(!dry_run)
}

pub open spec fn candidate_lines(cs: Seq<(Seq<char>, Seq<char>)>) -> Seq<char>
    decreases cs.len(),
{
    if cs.len() == 0 {
        seq![]
    } else {
        candidate_lines(cs.drop_last()) + "  ["@ + cs.last().1 + "] "@ + cs.last().0 + "\n"@
    }
}

/// The list of clean-up candidates: how many, the bytes they hold, and each with
/// its kind; "No files to clean up." when there is none.
pub open spec fn cleanup_report_text(cs: Seq<(Seq<char>, Seq<char>)>, total: u64) -> Seq<char> {
    if cs.len() == 0 {
        "No files to clean up."@
    } else {
        "Found "@ + decimal(cs.len()) + " candidates ("@ + spec_format_size(total as nat) + "):\n"@
            + candidate_lines(cs)
    }
}

pub fn cleanup_report(cs: &Vec<(String, String)>, total: u64) -> (r: String)
    ensures
        r@ == cleanup_report_text(candidate_views(cs@), total),
{
    if cs.len() == 0 {
        let v = chars_of("No files to clean up.");
        return string_of(&v);
    }
    let ghost views = candidate_views(cs@);
    let mut v = chars_of("Found ");
    extend_decimal(&mut v, cs.len() as u64);
    extend_str(&mut v, " candidates (");
    let size = format_size(total);
    extend_str(&mut v, size.as_str());
    extend_str(&mut v, "):\n");
    let ghost head = v@;
    let mut i: usize = 0;
    while i < cs.len()
        invariant
            i <= cs.len(),
            views == candidate_views(cs@),
            v@ == head + candidate_lines(views.take(i as int)),
        decreases cs.len() - i,
    {
        assert(views.take(i + 1).drop_last() =~= views.take(i as int));
        assert(views.take(i + 1).last() == (cs@[i as int].0@, cs@[i as int].1@));
        extend_str(&mut v, "  [");
        extend_str(&mut v, cs[i].1.as_str());
        extend_str(&mut v, "] ");
        extend_str(&mut v, cs[i].0.as_str());
        extend_str(&mut v, "\n");
        i = i + 1;
        assert(v@ =~= head + candidate_lines(views.take(i as int)));
    }
    assert(views.take(cs.len() as int) =~= views);
    string_of(&v)
}

/// The closing line of a clean-up: the candidates deleted and the bytes freed.
pub fn cleanup_done(deleted: u64, freed: u64) -> (r: String)
    ensures
        r@ == "\nCleaned: "@ + decimal(deleted as nat) + " items, freed "@ + spec_format_size(freed as nat) + "\n"@,
{
    let mut v = chars_of("\nCleaned: ");
    extend_decimal(&mut v, deleted);
    extend_str(&mut v, " items, freed ");
    let size = format_size(freed);
    extend_str(&mut v, size.as_str());
    extend_str(&mut v, "\n");
    string_of(&v)
}

/// The closing line of a dry run.
pub fn dry_run_note() -> (r: String)
    ensures
        r@ == "\nDry-run mode. Set dry_run=false and confirm=true to actually delete.\n"@,
{
    let v = chars_of("\nDry-run mode. Set dry_run=false and confirm=true to actually delete.\n");
    string_of(&v)
}

// ---------------------------------------------------------------------------
// Project overview
// ---------------------------------------------------------------------------

/// How deep `oura_analyze_project` looks: the requested depth (4 when none),
/// at most 10.
pub fn project_depth(requested: Option<u64>) -> (r: usize)
    ensures
        r == match requested {
            Some(d) => if d < 10 { d } else { 10 },
            None => 4,
        },
{
    match requested {
        Some(d) => if d < 10 { d as usize } else { 10 },
        None => 4,
    }
}

/// `d` levels of indentation, two spaces each.
pub open spec fn indent(d: nat) -> Seq<char>
    decreases d,
{
    if d == 0 {
        seq![]
    } else {
        indent((d - 1) as nat) + "  "@
    }
}

/// An entry's line in the overview: indented by its depth, "+" for a directory,
/// and a file's size.
pub open spec fn entry_line(e: (Seq<char>, usize, bool, u64)) -> Seq<char> {
    indent(e.1 as nat) + (if e.2 { "+"@ } else { " "@ }) + " "@ + e.0 + (if e.2 {
        Seq::empty()
    } else {
        " ("@ + spec_format_size(e.3 as nat) + ")"@
    }) + "\n"@
}

/// The lines of the entries at depth `d`, in the order found.
pub open spec fn depth_lines(es: Seq<(Seq<char>, usize, bool, u64)>, d: nat) -> Seq<char>
    decreases es.len(),
{
    if es.len() == 0 {
        seq![]
    } else {
        depth_lines(es.drop_last(), d) + if es.last().1 == d {
            entry_line(es.last())
        } else {
            seq![]
        }
    }
}

/// The tree part of the overview: the entries from depth 1 to `max_depth`,
/// shallower first, and in the order found within a depth (the order a stable
/// sort by depth gives).
pub open spec fn tree_lines(es: Seq<(Seq<char>, usize, bool, u64)>, max_depth: nat) -> Seq<char>
    decreases max_depth,
{
    if max_depth == 0 {
        seq![]
    } else {
        tree_lines(es, (max_depth - 1) as nat) + depth_lines(es, max_depth)
    }
}

/// The number of files over 100 000 bytes.
pub open spec fn large_files(es: Seq<(Seq<char>, usize, bool, u64)>) -> nat
    decreases es.len(),
{
    if es.len() == 0 {
        0
    } else {
        large_files(es.drop_last()) + if !es.last().2 && es.last().3 > 100_000 { 1nat } else { 0nat }
    }
}

/// The first eight lines of a read-me, joined by line feeds.
pub open spec fn readme_preview(content: Seq<char>) -> Seq<char> {
    let ls = lines(content);
    join(if ls.len() > 8 { ls.take(8) } else { ls }, "\n"@)
}

pub open spec fn readme_part(readme: Option<Seq<char>>, readme_bytes: nat) -> Seq<char> {
    match readme {
        Some(c) => "   README: "@ + decimal(readme_bytes) + " chars\n"@ + readme_preview(c) + "\n"@,
        None => Seq::empty(),
    }
}

pub open spec fn docs_part(docs: Option<usize>) -> Seq<char> {
    match docs {
        Some(n) => "   docs/: "@ + decimal(n as nat) + " files\n"@,
        None => Seq::empty(),
    }
}

pub open spec fn configs_part(configs: Seq<Seq<char>>) -> Seq<char> {
    if configs.len() > 0 {
        "   Config: "@ + join(configs, ", "@) + "\n"@
    } else {
        Seq::empty()
    }
}

pub open spec fn large_part(n: nat) -> Seq<char> {
    if n > 0 {
        "\n   Large files (>100KB): "@ + decimal(n) + "\n"@
    } else {
        Seq::empty()
    }
}

/// The overview of a project: its name and place, its size, the read-me's length
/// in bytes and first lines, the number of entries of docs/, its configuration
/// files, its tree, and the number of large files.
pub open spec fn project_report_text(
    name: Seq<char>,
    place: Seq<char>,
    size: u64,
    readme: Option<Seq<char>>,
    readme_bytes: nat,
    docs: Option<usize>,
    configs: Seq<Seq<char>>,
    es: Seq<(Seq<char>, usize, bool, u64)>,
    max_depth: nat,
) -> Seq<char> {
    "["@ + name + "] ("@ + place + ")\n"@ + "   Size: "@ + spec_format_size(size as nat) + "\n"@ + readme_part(
        readme,
        readme_bytes,
    ) + docs_part(docs) + configs_part(configs) + tree_lines(es, max_depth) + large_part(large_files(es))
}

fn extend_entry_line(v: &mut Vec<char>, e: &(String, usize, bool, u64))
    ensures
        final(v)@ == old(v)@ + entry_line(crate::fs_utils::entry_view(*e)),
{
    let ghost start = v@;
    let mut k: usize = 0;
    while k < e.1
        invariant
            k <= e.1,
            v@ == start + indent(k as nat),
        decreases e.1 - k,
    {
        extend_str(v, "  ");
        k = k + 1;
    }
    if e.2 {
        extend_str(v, "+");
    } else {
        extend_str(v, " ");
    }
    extend_str(v, " ");
    extend_str(v, e.0.as_str());
    if !e.2 {
        extend_str(v, " (");
        let size = format_size(e.3);
        extend_str(v, size.as_str());
        extend_str(v, ")");
    }
    extend_str(v, "\n");
    assert(v@ =~= start + entry_line(crate::fs_utils::entry_view(*e)));
}

fn extend_readme(v: &mut Vec<char>, c: &str)
    ensures
        final(v)@ == old(v)@ + "   README: "@ + decimal((c.spec_bytes().len() as usize) as nat) + " chars\n"@ + readme_preview(c@)
            + "\n"@,
{
    let ghost start = v@;
    extend_str(v, "   README: ");
    extend_decimal(v, c.len() as u64);
    extend_str(v, " chars\n");
    let cs = chars_of(c);
    let ls = lines_of(&cs);
    let n: usize = if ls.len() > 8 { 8 } else { ls.len() };
    let ghost shown = if line_views(ls@).len() > 8 { line_views(ls@).take(8) } else { line_views(ls@) };
    assert(shown.len() == n);
    let ghost before = v@;
    let mut i: usize = 0;
    while i < n
        invariant
            i <= n <= ls.len(),
            shown.len() == n,
            forall|j: int| 0 <= j < n ==> #[trigger] shown[j] == ls@[j]@,
            v@ == before + join(shown.take(i as int), "\n"@),
        decreases n - i,
    {
        assert(shown.take(i + 1).drop_last() =~= shown.take(i as int));
        if i > 0 {
            extend_str(v, "\n");
        }
        crate::text::extend_chars(v, &ls[i]);
        proof {
            if i == 0 {
                assert(shown.take(1) =~= seq![shown[0]]);
            }
        }
        i = i + 1;
        assert(v@ =~= before + join(shown.take(i as int), "\n"@));
    }
    assert(shown.take(n as int) =~= shown);
    assert(shown == (if lines(c@).len() > 8 { lines(c@).take(8) } else { lines(c@) }));
    extend_str(v, "\n");
    assert(v@ =~= start + "   README: "@ + decimal((c.spec_bytes().len() as usize) as nat) + " chars\n"@ + readme_preview(c@) + "\n"@);
}

fn extend_tree(v: &mut Vec<char>, entries: &Vec<(String, usize, bool, u64)>, max_depth: usize)
    ensures
        final(v)@ == old(v)@ + tree_lines(crate::fs_utils::entry_views(entries@), max_depth as nat),
{
    let ghost es = crate::fs_utils::entry_views(entries@);
    let ghost head = v@;
    let mut k: usize = 0;
    while k < max_depth
        invariant
            k <= max_depth,
            es == crate::fs_utils::entry_views(entries@),
            v@ == head + tree_lines(es, k as nat),
        decreases max_depth - k,
    {
        let level = k + 1;
        let ghost mid = v@;
        let mut i: usize = 0;
        while i < entries.len()
            invariant
                i <= entries.len(),
                es == crate::fs_utils::entry_views(entries@),
                v@ == mid + depth_lines(es.take(i as int), level as nat),
            decreases entries.len() - i,
        {
            assert(es.take(i + 1).drop_last() =~= es.take(i as int));
            if entries[i].1 == level {
                extend_entry_line(v, &entries[i]);
            }
            i = i + 1;
            assert(v@ =~= mid + depth_lines(es.take(i as int), level as nat));
        }
        assert(es.take(entries.len() as int) =~= es);
        k = k + 1;
        assert(v@ =~= head + tree_lines(es, k as nat));
    }
}

fn count_large(entries: &Vec<(String, usize, bool, u64)>) -> (n: usize)
    ensures
        n == large_files(crate::fs_utils::entry_views(entries@)),
{
    let ghost es = crate::fs_utils::entry_views(entries@);
    let mut large: usize = 0;
    let mut i: usize = 0;
    while i < entries.len()
        invariant
            i <= entries.len(),
            es == crate::fs_utils::entry_views(entries@),
            large == large_files(es.take(i as int)),
            large <= i,
        decreases entries.len() - i,
    {
        assert(es.take(i + 1).drop_last() =~= es.take(i as int));
        if !entries[i].2 && entries[i].3 > 100_000 {
            large = large + 1;
        }
        i = i + 1;
    }
    assert(es.take(entries.len() as int) =~= es);
    large
}

pub fn project_report(
    name: &str,
    place: &str,
    size: u64,
    readme: Option<&str>,
    docs: Option<usize>,
    configs: &Vec<String>,
    entries: &Vec<(String, usize, bool, u64)>,
    max_depth: usize,
) -> (r: String)
    ensures
        r@ == project_report_text(
            name@,
            place@,
            size,
            match readme {
                Some(c) => Some(c@),
                None => None,
            },
            match readme {
                Some(c) => (c.spec_bytes().len() as usize) as nat,
                None => 0,
            },
            docs,
            string_views(configs@),
            crate::fs_utils::entry_views(entries@),
            max_depth as nat,
        ),
{
    let mut v = chars_of("[");
    extend_str(&mut v, name);
    extend_str(&mut v, "] (");
    extend_str(&mut v, place);
    extend_str(&mut v, ")\n");
    extend_str(&mut v, "   Size: ");
    let total = format_size(size);
    extend_str(&mut v, total.as_str());
    extend_str(&mut v, "\n");
    let ghost p1 = v@;
    let ghost rm = match readme {
        Some(c) => Some(c@),
        None => None,
    };
    let ghost rb: nat = match readme {
        Some(c) => (c.spec_bytes().len() as usize) as nat,
        None => 0,
    };
    if let Some(c) = readme {
        extend_readme(&mut v, c);
    }
    assert(v@ =~= p1 + readme_part(rm, rb));
    let ghost p2 = v@;
    if let Some(n) = docs {
        extend_str(&mut v, "   docs/: ");
        extend_decimal(&mut v, n as u64);
        extend_str(&mut v, " files\n");
    }
    assert(v@ =~= p2 + docs_part(docs));
    let ghost p3 = v@;
    if configs.len() > 0 {
        extend_str(&mut v, "   Config: ");
        extend_join(&mut v, configs, ", ");
        extend_str(&mut v, "\n");
    }
    assert(v@ =~= p3 + configs_part(string_views(configs@)));
    let ghost p4 = v@;
    extend_tree(&mut v, entries, max_depth);
    let ghost p5 = v@;
    let large = count_large(entries);
    if large > 0 {
        extend_str(&mut v, "\n   Large files (>100KB): ");
        extend_decimal(&mut v, large as u64);
        extend_str(&mut v, "\n");
    }
    assert(v@ =~= p5 + large_part(large as nat));
    assert(v@ =~= project_report_text(
        name@,
        place@,
        size,
        match readme {
            Some(c) => Some(c@),
            None => None,
        },
        match readme {
            Some(c) => (c.spec_bytes().len() as usize) as nat,
            None => 0,
        },
        docs,
        string_views(configs@),
        crate::fs_utils::entry_views(entries@),
        max_depth as nat,
    ));
    string_of(&v)
}

/// The answer of `oura_verify`: the profile's summary, then the license issues and
/// the version issues that were asked for, one per indented line; "No issues
/// found" should that be empty.
pub open spec fn verify_report_text(summary: Seq<char>, licenses: Seq<Seq<char>>, versions: Seq<Seq<char>>, check_licenses: bool, check_versions: bool) -> Seq<char> {
    let text = summary + (if check_licenses && licenses.len() > 0 {
        "\nLicense issues:\n  "@ + join(licenses, "\n  "@)
    } else {
        Seq::empty()
    }) + (if check_versions && versions.len() > 0 {
        "\nVersion issues:\n  "@ + join(versions, "\n  "@)
    } else {
        Seq::empty()
    });
    if text.len() == 0 { "No issues found"@ } else { text }
}

pub fn verify_report(
    summary: &str,
    license_issues: &Vec<String>,
    version_issues: &Vec<String>,
    check_licenses: bool,
    check_versions: bool,
) -> (r: String)
    ensures
        r@ == verify_report_text(summary@, string_views(license_issues@), string_views(version_issues@),
            check_licenses, check_versions),
{
    let mut v = chars_of(summary);
    if check_licenses && license_issues.len() > 0 {
        extend_str(&mut v, "\nLicense issues:\n  ");
        extend_join(&mut v, license_issues, "\n  ");
    }
    if check_versions && version_issues.len() > 0 {
        extend_str(&mut v, "\nVersion issues:\n  ");
        extend_join(&mut v, version_issues, "\n  ");
    }
    if v.len() == 0 {
        let n = chars_of("No issues found");
        return string_of(&n);
    }
    string_of(&v)
}

} // verus!
