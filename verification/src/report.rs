//! The report of one finding, and what a batch of findings prints.

use vstd::prelude::*;
use vstd::string::*;
use crate::snippet::{render_with, snippet_text, Colour};
use crate::text::{decimal, indent, indented, push_char, push_decimal};

verus! {

/// One issue reported by the analyzer against a code block.
#[derive(Clone, Debug)]
pub struct Finding {
    /// Source text of the analysed unit.
    pub block_text: String,
    /// Name of the unit.
    pub block_name: String,
    /// What is wrong.
    pub message: String,
    /// Short classification code.
    pub error_code: String,
    /// `error`, `warning`, or anything else.
    pub severity: String,
    /// Further explanation; may be empty.
    pub detail: String,
    /// Advice; may be empty.
    pub hint: String,
    /// Character offset of the problem in `block_text`, counted from 0.
    pub position: i32,
}

/// What a report is assembled from.
#[derive(Clone, Debug)]
pub struct Error {
    /// Raw trace, shown only where there is no snippet.
    pub stack: String,
    /// What is wrong.
    pub message: String,
    /// Severity as reported.
    pub severity: String,
    /// Short classification code.
    pub error_code: String,
    /// Further explanation; may be empty.
    pub detail: String,
    /// Advice; may be empty.
    pub hint: String,
    /// The rendered snippet, or empty where none could be rendered.
    pub error_message_with_snippet: String,
}

/// What processing a batch of findings prints, in the order in which it is
/// printed, and the exit status.
#[derive(Clone, Debug)]
pub struct Outcome {
    /// For standard output: the line that counts the errors.
    pub error_summary: String,
    /// For the error output: the reports of the errors.
    pub error_reports: String,
    /// For standard output: the line that counts the warnings, and one line
    /// for each of them.
    pub warning_summary: String,
    /// 1 where an error was found, else 0.
    pub exit_code: i32,
}

/// `lines` joined by line breaks.
pub open spec fn join_lines(lines: Seq<Seq<char>>) -> Seq<char>
    decreases lines.len(),
{
    if lines.len() == 0 {
        Seq::empty()
    } else if lines.len() == 1 {
        lines[0]
    } else {
        join_lines(lines.drop_last()).push('\n') + lines.last()
    }
}

/// The line for a labelled field: none where the field is empty.
pub open spec fn labelled(label: Seq<char>, value: Seq<char>) -> Seq<Seq<char>> {
    if value.len() == 0 {
        Seq::empty()
    } else {
        seq![label + value]
    }
}

/// The body of a report: the snippet, or without one a generic line and the
/// indented trace.
pub open spec fn body_lines(snippet: Seq<char>, stack: Seq<char>) -> Seq<Seq<char>> {
    if snippet.len() > 0 {
        seq![snippet]
    } else {
        seq!["🛑 Error occurred whilst processing"@, indented(stack, "    "@)]
    }
}

/// The lines of a report, in order: an empty line, the body, an empty line,
/// then severity, code, detail and hint, each only where it is not empty.
pub open spec fn report_lines(
    snippet: Seq<char>,
    stack: Seq<char>,
    severity: Seq<char>,
    error_code: Seq<char>,
    detail: Seq<char>,
    hint: Seq<char>,
) -> Seq<Seq<char>> {
    seq![Seq::<char>::empty()] + body_lines(snippet, stack) + seq![Seq::<char>::empty()]
        + labelled("Severity:\t"@, severity) + labelled("Code:    \t"@, error_code) + labelled(
        "Detail:  \t"@,
        detail,
    ) + labelled("Hint:    \t"@, hint)
}

/// The report assembled from `error`.
pub open spec fn report_text(error: Error) -> Seq<char> {
    join_lines(
        report_lines(
            error.error_message_with_snippet@,
            error.stack@,
            error.severity@,
            error.error_code@,
            error.detail@,
            error.hint@,
        ),
    )
}

/// The snippet of a finding; empty where its position lies outside its text.
pub open spec fn finding_snippet(colour: Colour, finding: Finding) -> Seq<char> {
    if 0 <= finding.position <= finding.block_text@.len() {
        snippet_text(
            colour,
            finding.block_text@,
            finding.block_name@,
            finding.message@,
            finding.error_code@,
            finding.position as int,
        )
    } else {
        Seq::empty()
    }
}

/// The report of a finding: its snippet, or the generic body where the
/// snippet could not be rendered, followed by its labelled fields.
pub open spec fn finding_report(colour: Colour, finding: Finding) -> Seq<char> {
    join_lines(
        report_lines(
            finding_snippet(colour, finding),
            Seq::empty(),
            finding.severity@,
            finding.error_code@,
            finding.detail@,
            finding.hint@,
        ),
    )
}

/// That a finding is an error.
pub open spec fn is_error(finding: Finding) -> bool {
    finding.severity@ == "error"@
}

/// That a finding is a warning.
pub open spec fn is_warning(finding: Finding) -> bool {
    finding.severity@ == "warning"@
}

/// Number of errors among `findings`.
pub open spec fn error_count(findings: Seq<Finding>) -> nat
    decreases findings.len(),
{
    if findings.len() == 0 {
        0
    } else if is_error(findings.last()) {
        error_count(findings.drop_last()) + 1
    } else {
        error_count(findings.drop_last())
    }
}

/// Number of warnings among `findings`.
pub open spec fn warning_count(findings: Seq<Finding>) -> nat
    decreases findings.len(),
{
    if findings.len() == 0 {
        0
    } else if is_warning(findings.last()) {
        warning_count(findings.drop_last()) + 1
    } else {
        warning_count(findings.drop_last())
    }
}

/// The reports of the errors among `findings`, in order, each closed by a
/// line break.
pub open spec fn error_reports(colour: Colour, findings: Seq<Finding>) -> Seq<char>
    decreases findings.len(),
{
    if findings.len() == 0 {
        Seq::empty()
    } else if is_error(findings.last()) {
        error_reports(colour, findings.drop_last()) + finding_report(
            colour,
            findings.last(),
        ).push('\n')
    } else {
        error_reports(colour, findings.drop_last())
    }
}

/// One bullet line for each warning among `findings`, in order.
pub open spec fn warning_bullets(findings: Seq<Finding>) -> Seq<char>
    decreases findings.len(),
{
    if findings.len() == 0 {
        Seq::empty()
    } else if is_warning(findings.last()) {
        warning_bullets(findings.drop_last()) + ("  - "@ + findings.last().message@).push('\n')
    } else {
        warning_bullets(findings.drop_last())
    }
}

/// The summary line for `count` findings of one kind; nothing for none.
pub open spec fn summary_line(count: nat, kind: Seq<char>) -> Seq<char> {
    if count == 0 {
        Seq::empty()
    } else {
        "plpgsql_check-cli: Found "@ + decimal(count) + " "@ + kind + ":\n"@
    }
}

/// What a batch prints about its errors on standard output: their count,
/// or nothing where there is none.
pub open spec fn error_summary_text(findings: Seq<Finding>) -> Seq<char> {
    summary_line(error_count(findings), "errors"@)
}

/// What a batch prints about its warnings on standard output: their count
/// and one line for each, or nothing where there is none.
pub open spec fn warning_summary_text(findings: Seq<Finding>) -> Seq<char> {
    summary_line(warning_count(findings), "warnings"@) + warning_bullets(findings)
}

/// Exit status for a batch: 1 where it holds an error, else 0.
pub open spec fn exit_code_of(findings: Seq<Finding>) -> int {
    if error_count(findings) > 0 {
        1
    } else {
        0
    }
}

/// Adds a line to a text that already holds `lines`.
fn push_line(out: &mut String, line: &str, Ghost(lines): Ghost<Seq<Seq<char>>>)
    requires
        lines.len() > 0,
        old(out)@ == join_lines(lines),
    ensures
        final(out)@ == join_lines(lines.push(line@)),
{
    push_char(out, '\n');
    out.append(line);
    assert(lines.push(line@).drop_last() =~= lines);
}

/// Adds the line of a labelled field, unless the field is empty.
fn push_labelled(out: &mut String, label: &str, value: &str, Ghost(lines): Ghost<Seq<Seq<char>>>)
    requires
        lines.len() > 0,
        old(out)@ == join_lines(lines),
    ensures
        final(out)@ == join_lines(lines + labelled(label@, value@)),
{
    if !value.is_empty() {
        let mut line = String::new();
        line.append(label);
        line.append(value);
        assert(line@ =~= label@ + value@);
        push_line(out, line.as_str(), Ghost(lines));
        assert(lines.push(line@) =~= lines + labelled(label@, value@));
    } else {
        assert(lines + labelled(label@, value@) =~= lines);
    }
}

/// Assembles the report of one error: an empty line, the snippet (or a
/// generic line and the indented trace where there is none), an empty line,
/// and the labelled fields that are not empty.
pub fn assemble(error: &Error) -> (out: String)
    ensures
        out@ == report_text(*error),
{
    let mut out = String::new();
    let ghost mut lines: Seq<Seq<char>> = seq![Seq::<char>::empty()];
    assert(out@ =~= join_lines(lines));
    if !error.error_message_with_snippet.as_str().is_empty() {
        push_line(&mut out, error.error_message_with_snippet.as_str(), Ghost(lines));
        proof {
            lines = lines.push(error.error_message_with_snippet@);
        }
    } else {
        push_line(&mut out, "🛑 Error occurred whilst processing", Ghost(lines));
        proof {
            lines = lines.push("🛑 Error occurred whilst processing"@);
        }
        let trace = indent(error.stack.as_str(), "    ");
        push_line(&mut out, trace.as_str(), Ghost(lines));
        proof {
            lines = lines.push(trace@);
        }
    }
    assert(lines =~= seq![Seq::<char>::empty()] + body_lines(
        error.error_message_with_snippet@,
        error.stack@,
    ));
    push_line(&mut out, "", Ghost(lines));
    proof {
        reveal_strlit("");
        assert(""@ =~= Seq::<char>::empty());
        lines = lines.push(Seq::<char>::empty());
    }
    push_labelled(&mut out, "Severity:\t", error.severity.as_str(), Ghost(lines));
    proof {
        lines = lines + labelled("Severity:\t"@, error.severity@);
    }
    push_labelled(&mut out, "Code:    \t", error.error_code.as_str(), Ghost(lines));
    proof {
        lines = lines + labelled("Code:    \t"@, error.error_code@);
    }
    push_labelled(&mut out, "Detail:  \t", error.detail.as_str(), Ghost(lines));
    proof {
        lines = lines + labelled("Detail:  \t"@, error.detail@);
    }
    push_labelled(&mut out, "Hint:    \t", error.hint.as_str(), Ghost(lines));
    proof {
        lines = lines + labelled("Hint:    \t"@, error.hint@);
        assert(lines =~= report_lines(
            error.error_message_with_snippet@,
            error.stack@,
            error.severity@,
            error.error_code@,
            error.detail@,
            error.hint@,
        ));
    }
    out
}

/// The report of one finding, with or without colours. Where its position
/// lies outside its text no snippet is rendered and the report falls back to
/// the generic body.
pub fn report_finding(finding: &Finding, colour: Colour) -> (out: String)
    ensures
        out@ == finding_report(colour, *finding),
{
    let snippet = match render_with(
        colour,
        finding.block_text.as_str(),
        finding.block_name.as_str(),
        finding.message.as_str(),
        finding.error_code.as_str(),
        finding.position,
    ) {
        Ok(text) => text,
        Err(_) => String::new(),
    };
    let error = Error {
        stack: String::new(),
        message: finding.message.clone(),
        severity: finding.severity.clone(),
        error_code: finding.error_code.clone(),
        detail: finding.detail.clone(),
        hint: finding.hint.clone(),
        error_message_with_snippet: snippet,
    };
    assemble(&error)
}

/// Appends the summary line for `count` findings of one kind.
fn push_summary(out: &mut String, count: usize, kind: &str)
    ensures
        final(out)@ == old(out)@ + summary_line(count as nat, kind@),
{
    if count > 0 {
        out.append("plpgsql_check-cli: Found ");
        push_decimal(out, count);
        out.append(" ");
        out.append(kind);
        out.append(":\n");
        assert(out@ =~= old(out)@ + summary_line(count as nat, kind@));
    } else {
        assert(out@ =~= old(out)@ + summary_line(count as nat, kind@));
    }
}

/// Processes a batch of findings: errors are counted and reported in full,
/// warnings are counted and listed by their messages, and findings of any
/// other severity are passed over. The exit status is 1
/// where there was an error. `colour` says whether the reports carry ANSI
/// colour codes.
pub fn report_findings(findings: &Vec<Finding>, colour: Colour) -> (outcome: Outcome)
    ensures
        outcome.error_summary@ == error_summary_text(findings@),
        outcome.error_reports@ == error_reports(colour, findings@),
        outcome.warning_summary@ == warning_summary_text(findings@),
        outcome.exit_code == exit_code_of(findings@),
{
    let error_word = String::from_str("error");
    let warning_word = String::from_str("warning");
    let mut errors: usize = 0;
    let mut warnings: usize = 0;
    let mut reports = String::new();
    let mut bullets = String::new();
    let mut i: usize = 0;
    while i < findings.len()
        invariant
            i <= findings.len(),
            error_word@ == "error"@,
            warning_word@ == "warning"@,
            errors == error_count(findings@.take(i as int)),
            warnings == warning_count(findings@.take(i as int)),
            errors <= i,
            warnings <= i,
            reports@ == error_reports(colour, findings@.take(i as int)),
            bullets@ == warning_bullets(findings@.take(i as int)),
        decreases findings.len() - i,
    {
        let finding = &findings[i];
        assert(findings@.take(i + 1).drop_last() =~= findings@.take(i as int));
        assert(findings@.take(i + 1).last() == findings@[i as int]);
        if finding.severity == error_word {
            errors += 1;
            let report = report_finding(finding, colour);
            reports.append(report.as_str());
            push_char(&mut reports, '\n');
            assert(reports@ =~= error_reports(colour, findings@.take(i + 1)));
        }
        if finding.severity == warning_word {
            warnings += 1;
            bullets.append("  - ");
            bullets.append(finding.message.as_str());
            push_char(&mut bullets, '\n');
            assert(bullets@ =~= warning_bullets(findings@.take(i + 1)));
        }
        i += 1;
    }
    assert(findings@.take(findings.len() as int) =~= findings@);
    let mut error_summary = String::new();
    push_summary(&mut error_summary, errors, "errors");
    assert(error_summary@ =~= error_summary_text(findings@));
    let mut warning_summary = String::new();
    push_summary(&mut warning_summary, warnings, "warnings");
    warning_summary.append(bullets.as_str());
    assert(warning_summary@ =~= warning_summary_text(findings@));
    let exit_code: i32 = if errors > 0 {
        1
    } else {
        0
    };
    Outcome { error_summary, error_reports: reports, warning_summary, exit_code }
}

/// Every finding is an error, a warning, or neither, and never both.
pub proof fn lemma_severity_partition(finding: Finding)
    ensures
        !(is_error(finding) && is_warning(finding)),
{
    reveal_strlit("error");
    reveal_strlit("warning");
    if is_error(finding) && is_warning(finding) {
        assert("error"@.len() == "warning"@.len());
    }
}

/// A finding that is neither an error nor a warning changes nothing: counts,
/// output and exit status are those of the batch without it.
pub proof fn lemma_other_severity_ignored(
    colour: Colour,
    findings: Seq<Finding>,
    finding: Finding,
)
    requires
        !is_error(finding),
        !is_warning(finding),
    ensures
        error_count(findings.push(finding)) == error_count(findings),
        warning_count(findings.push(finding)) == warning_count(findings),
        error_summary_text(findings.push(finding)) == error_summary_text(findings),
        warning_summary_text(findings.push(finding)) == warning_summary_text(findings),
        error_reports(colour, findings.push(finding)) == error_reports(colour, findings),
        exit_code_of(findings.push(finding)) == exit_code_of(findings),
{
    assert(findings.push(finding).drop_last() =~= findings);
}

/// Errors and warnings together never outnumber the findings.
pub proof fn lemma_counts_bounded(findings: Seq<Finding>)
    ensures
        error_count(findings) + warning_count(findings) <= findings.len(),
    decreases findings.len(),
{
    if findings.len() > 0 {
        lemma_counts_bounded(findings.drop_last());
        lemma_severity_partition(findings.last());
    }
}

/// Empty detail and hint leave no line in the report.
pub proof fn lemma_empty_fields_omitted(
    snippet: Seq<char>,
    stack: Seq<char>,
    severity: Seq<char>,
    error_code: Seq<char>,
)
    ensures
        report_lines(snippet, stack, severity, error_code, Seq::empty(), Seq::empty())
            == seq![Seq::<char>::empty()] + body_lines(snippet, stack) + seq![
            Seq::<char>::empty(),
        ] + labelled("Severity:\t"@, severity) + labelled("Code:    \t"@, error_code),
{
    assert(labelled("Detail:  \t"@, Seq::empty()) =~= Seq::<Seq<char>>::empty());
    assert(labelled("Hint:    \t"@, Seq::empty()) =~= Seq::<Seq<char>>::empty());
    assert(report_lines(snippet, stack, severity, error_code, Seq::empty(), Seq::empty())
        =~= seq![Seq::<char>::empty()] + body_lines(snippet, stack) + seq![
        Seq::<char>::empty(),
    ] + labelled("Severity:\t"@, severity) + labelled("Code:    \t"@, error_code));
}

} // verus!
