use plpgsql_check_report::report::{assemble, report_finding, report_findings, Error, Finding};
use plpgsql_check_report::snippet::{render, render_with, Colour};

fn finding(severity: &str, message: &str, position: i32) -> Finding {
    Finding {
        block_text: "select 1;\nselect bad_col;".to_string(),
        block_name: "public.f()".to_string(),
        message: message.to_string(),
        error_code: "42703".to_string(),
        severity: severity.to_string(),
        detail: String::new(),
        hint: String::new(),
        position,
    }
}

fn error(snippet: &str) -> Error {
    Error {
        stack: String::new(),
        message: "boom".to_string(),
        severity: "error".to_string(),
        error_code: "42703".to_string(),
        detail: "some detail".to_string(),
        hint: "some hint".to_string(),
        error_message_with_snippet: snippet.to_string(),
    }
}

#[test]
fn assembles_all_fields_in_order() {
    let out = assemble(&error("SNIPPET"));
    assert_eq!(
        out,
        "\nSNIPPET\n\nSeverity:\terror\nCode:    \t42703\nDetail:  \tsome detail\nHint:    \tsome hint"
    );
}

#[test]
fn empty_hint_and_detail_are_omitted() {
    let mut e = error("SNIPPET");
    e.detail = String::new();
    e.hint = String::new();
    let out = assemble(&e);
    assert_eq!(out, "\nSNIPPET\n\nSeverity:\terror\nCode:    \t42703");
    assert!(!out.contains("Hint:"));
    assert!(!out.contains("Detail:"));
}

#[test]
fn every_empty_field_is_omitted() {
    let e = Error {
        stack: String::new(),
        message: String::new(),
        severity: String::new(),
        error_code: String::new(),
        detail: String::new(),
        hint: "try again".to_string(),
        error_message_with_snippet: "S".to_string(),
    };
    assert_eq!(assemble(&e), "\nS\n\nHint:    \ttry again");
}

#[test]
fn missing_snippet_falls_back_to_generic_body() {
    let mut e = error("");
    e.stack = "frame 1\nframe 2".to_string();
    e.detail = String::new();
    e.hint = String::new();
    assert_eq!(
        assemble(&e),
        "\n🛑 Error occurred whilst processing\nframe 1\n    frame 2\n\nSeverity:\terror\nCode:    \t42703"
    );
}

#[test]
fn report_of_finding_holds_its_snippet() {
    let f = finding("error", "column \"bad_col\" does not exist", 17);
    let snippet =
        render(&f.block_text, &f.block_name, &f.message, &f.error_code, f.position).unwrap();
    assert_eq!(
        report_finding(&f, Colour::Ansi),
        format!("\n{}\n\nSeverity:\terror\nCode:    \t42703", snippet)
    );
}

#[test]
fn report_of_finding_with_bad_position_falls_back() {
    let f = finding("error", "boom", 99);
    assert_eq!(
        report_finding(&f, Colour::Ansi),
        "\n🛑 Error occurred whilst processing\n\n\nSeverity:\terror\nCode:    \t42703"
    );
}

#[test]
fn one_error_and_one_warning() {
    let e = finding("error", "column \"bad_col\" does not exist", 17);
    let w = finding("warning", "unused variable \"v\"", 0);
    let outcome = report_findings(&vec![e.clone(), w], Colour::Ansi);
    assert_eq!(outcome.error_summary, "plpgsql_check-cli: Found 1 errors:\n");
    assert_eq!(
        outcome.warning_summary,
        "plpgsql_check-cli: Found 1 warnings:\n  - unused variable \"v\"\n"
    );
    assert_eq!(outcome.error_reports, format!("{}\n", report_finding(&e, Colour::Ansi)));
    assert!(outcome.error_reports.contains("\x1b[1;31m🛑 Error occurred at line 2, column 7 of"));
    assert_eq!(outcome.error_reports.lines().count(), 9);
    assert_eq!(outcome.exit_code, 1);
}

#[test]
fn no_findings_print_nothing() {
    let outcome = report_findings(&Vec::new(), Colour::Ansi);
    assert_eq!(outcome.error_summary, "");
    assert_eq!(outcome.error_reports, "");
    assert_eq!(outcome.warning_summary, "");
    assert_eq!(outcome.exit_code, 0);
}

#[test]
fn warnings_alone_exit_zero() {
    let outcome = report_findings(&vec![finding("warning", "w1", 0), finding("warning", "w2", 0)], Colour::Ansi);
    assert_eq!(outcome.error_summary, "");
    assert_eq!(outcome.warning_summary, "plpgsql_check-cli: Found 2 warnings:\n  - w1\n  - w2\n");
    assert_eq!(outcome.error_reports, "");
    assert_eq!(outcome.exit_code, 0);
}

#[test]
fn other_severities_are_counted_nowhere() {
    let with_others = report_findings(&vec![
        finding("notice", "n", 0),
        finding("error", "e", 3),
        finding("", "blank", 0),
        finding("warning", "w", 0),
        finding("ERROR", "upper", 0),
        finding("warning extra", "x", 0),
    ], Colour::Ansi);
    let without = report_findings(&vec![finding("error", "e", 3), finding("warning", "w", 0)], Colour::Ansi);
    assert_eq!(with_others.error_summary, without.error_summary);
    assert_eq!(with_others.warning_summary, without.warning_summary);
    assert_eq!(with_others.error_reports, without.error_reports);
    assert_eq!(with_others.exit_code, without.exit_code);
    assert_eq!(with_others.error_summary, "plpgsql_check-cli: Found 1 errors:\n");
    assert_eq!(with_others.warning_summary, "plpgsql_check-cli: Found 1 warnings:\n  - w\n");

    let only_others = report_findings(&vec![finding("notice", "n", 0), finding("info", "i", 0)], Colour::Ansi);
    assert_eq!(only_others.error_summary, "");
    assert_eq!(only_others.warning_summary, "");
    assert_eq!(only_others.error_reports, "");
    assert_eq!(only_others.exit_code, 0);
}

#[test]
fn errors_are_reported_in_order() {
    let a = finding("error", "first", 0);
    let b = finding("error", "second", 12);
    let outcome = report_findings(&vec![a.clone(), finding("warning", "w", 0), b.clone()], Colour::Ansi);
    assert_eq!(outcome.error_summary, "plpgsql_check-cli: Found 2 errors:\n");
    assert_eq!(outcome.warning_summary, "plpgsql_check-cli: Found 1 warnings:\n  - w\n");
    assert_eq!(outcome.error_reports, format!("{}\n{}\n", report_finding(&a, Colour::Ansi), report_finding(&b, Colour::Ansi)));
    assert_eq!(outcome.exit_code, 1);
}

#[test]
fn one_bad_position_does_not_stop_the_batch() {
    let bad = finding("error", "bad", -5);
    let good = finding("error", "good", 10);
    let outcome = report_findings(&vec![bad, good.clone()], Colour::Ansi);
    assert_eq!(outcome.exit_code, 1);
    assert_eq!(outcome.error_summary, "plpgsql_check-cli: Found 2 errors:\n");
    assert!(outcome.error_reports.starts_with("\n🛑 Error occurred whilst processing\n"));
    assert!(outcome.error_reports.ends_with(&format!("{}\n", report_finding(&good, Colour::Ansi))));
}

#[test]
fn reporting_twice_gives_the_same_bytes() {
    let f = finding("error", "e", 17);
    assert_eq!(report_finding(&f, Colour::Ansi).as_bytes(), report_finding(&f, Colour::Ansi).as_bytes());
}

#[test]
fn plain_reports_carry_no_escape_sequence() {
    let e = finding("error", "column \"bad_col\" does not exist", 17);
    let outcome = report_findings(&vec![e.clone(), finding("warning", "w", 0)], Colour::Plain);
    let snippet = render_with(
        Colour::Plain,
        &e.block_text,
        &e.block_name,
        &e.message,
        &e.error_code,
        e.position,
    )
    .unwrap();
    assert_eq!(
        outcome.error_reports,
        format!("\n{}\n\nSeverity:\terror\nCode:    \t42703\n", snippet)
    );
    assert!(!outcome.error_reports.contains('\x1b'));
    assert_eq!(outcome.error_summary, "plpgsql_check-cli: Found 1 errors:\n");
    assert_eq!(outcome.warning_summary, "plpgsql_check-cli: Found 1 warnings:\n  - w\n");
    assert_eq!(outcome.exit_code, 1);
}

#[test]
fn summary_counts_are_written_in_decimal() {
    let mut findings = Vec::new();
    for i in 0..12 {
        findings.push(finding("warning", &format!("w{}", i), 0));
    }
    let outcome = report_findings(&findings, Colour::Ansi);
    assert!(outcome
        .warning_summary
        .starts_with("plpgsql_check-cli: Found 12 warnings:\n  - w0\n  - w1\n"));
    assert!(outcome.warning_summary.ends_with("  - w11\n"));
    assert_eq!(outcome.warning_summary.lines().count(), 13);
}
