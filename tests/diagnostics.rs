use resume_ide::diagnostics::{extract_after_pattern, parse_diagnostics, parse_line_number, Diagnostic, Severity};

#[test]
fn test_diagnostic_error_creation() {
    let diag = Diagnostic::error("Undefined control sequence");
    assert_eq!(diag.severity, Severity::Error);
    assert_eq!(diag.message, "Undefined control sequence");
    assert!(diag.file.is_none());
    assert!(diag.line.is_none());
}

#[test]
fn test_diagnostic_warning_creation() {
    let diag = Diagnostic::warning("Font shape not available");
    assert_eq!(diag.severity, Severity::Warning);
    assert_eq!(diag.message, "Font shape not available");
}

#[test]
fn test_diagnostic_with_file() {
    let diag = Diagnostic::error("Error").with_file("resume.tex");
    assert_eq!(diag.file, Some("resume.tex".to_string()));
}

#[test]
fn test_diagnostic_with_line() {
    let diag = Diagnostic::error("Error").with_line(42);
    assert_eq!(diag.line, Some(42));
}

#[test]
fn test_diagnostic_with_column() {
    let diag = Diagnostic::error("Error").with_column(15);
    assert_eq!(diag.column, Some(15));
}

#[test]
fn test_diagnostic_builder_chain() {
    let diag = Diagnostic::error("Undefined command")
        .with_file("main.tex")
        .with_line(10)
        .with_column(5);

    assert_eq!(diag.severity, Severity::Error);
    assert_eq!(diag.message, "Undefined command");
    assert_eq!(diag.file, Some("main.tex".to_string()));
    assert_eq!(diag.line, Some(10));
    assert_eq!(diag.column, Some(5));
}

#[test]
fn test_parse_empty_output() {
    let diagnostics = parse_diagnostics("");
    assert!(diagnostics.is_empty());
}

#[test]
fn test_parse_clean_output() {
    let output = "This is XeTeX, Version 3.14159265\nOutput written on resume.pdf";
    let diagnostics = parse_diagnostics(output);
    assert!(diagnostics.is_empty());
}

#[test]
fn test_parse_latex_error() {
    let output = "! LaTeX Error: File `missing.sty' not found.";
    let diagnostics = parse_diagnostics(output);

    assert_eq!(diagnostics.len(), 1);
    assert_eq!(diagnostics[0].severity, Severity::Error);
    assert!(diagnostics[0].message.contains("File `missing.sty' not found"));
}

#[test]
fn test_parse_undefined_control_sequence() {
    let output = "! Undefined control sequence.\nl.15 \\badcommand";
    let diagnostics = parse_diagnostics(output);

    assert_eq!(diagnostics.len(), 1);
    assert_eq!(diagnostics[0].severity, Severity::Error);
    assert_eq!(diagnostics[0].line, Some(15));
}

#[test]
fn test_parse_tectonic_error() {
    let output = "error: the main file must be readable";
    let diagnostics = parse_diagnostics(output);

    assert_eq!(diagnostics.len(), 1);
    assert_eq!(diagnostics[0].severity, Severity::Error);
    assert!(diagnostics[0].message.contains("main file must be readable"));
}

#[test]
fn test_parse_warning() {
    let output = "LaTeX Warning: Citation `foo' on page 1 undefined";
    let diagnostics = parse_diagnostics(output);

    assert_eq!(diagnostics.len(), 1);
    assert_eq!(diagnostics[0].severity, Severity::Warning);
    assert!(diagnostics[0].message.contains("Citation"));
}

#[test]
fn test_parse_multiple_diagnostics() {
    let output = r#"
! Undefined control sequence.
l.10 \foo
LaTeX Warning: Label not defined
! LaTeX Error: Environment undefined.
l.25
        "#;

    let diagnostics = parse_diagnostics(output);

    assert!(diagnostics.len() >= 2);
    assert!(diagnostics.iter().any(|d| d.severity == Severity::Error));
    assert!(diagnostics.iter().any(|d| d.severity == Severity::Warning));
}

#[test]
fn test_parse_line_number() {
    assert_eq!(parse_line_number("l.42 \\foo"), Some(42));
    assert_eq!(parse_line_number("l.1 text"), Some(1));
    assert_eq!(parse_line_number("l.999"), Some(999));
    assert_eq!(parse_line_number("not a line"), None);
}

#[test]
fn test_extract_after_pattern() {
    assert_eq!(
        extract_after_pattern("error: something bad", "error:"),
        "something bad"
    );
    assert_eq!(
        extract_after_pattern("ERROR: uppercase", "error:"),
        "uppercase"
    );
    assert_eq!(extract_after_pattern("no match", "error:"), "");
}

#[test]
fn test_diagnostic_clone() {
    let diag = Diagnostic::error("Test").with_line(5);
    let cloned = diag.clone();
    assert_eq!(diag.message, cloned.message);
    assert_eq!(diag.line, cloned.line);
}

#[test]
fn test_severity_equality() {
    assert_eq!(Severity::Error, Severity::Error);
    assert_ne!(Severity::Error, Severity::Warning);
}

// Further cases.

#[test]
fn latex_error_message_loses_marker_and_label() {
    let diagnostics = parse_diagnostics("! LaTeX Error: File `missing.sty' not found.");
    assert_eq!(diagnostics.len(), 1);
    assert_eq!(diagnostics[0].message, "File `missing.sty' not found.");
    assert_eq!(diagnostics[0].line, None);
}

#[test]
fn plain_error_message_is_trimmed_payload() {
    let diagnostics = parse_diagnostics("error: the main file must be readable");
    assert_eq!(diagnostics.len(), 1);
    assert_eq!(diagnostics[0].severity, Severity::Error);
    assert_eq!(diagnostics[0].message, "the main file must be readable");
}

#[test]
fn latex_warning_message_follows_the_token() {
    let diagnostics = parse_diagnostics("LaTeX Warning: Citation `foo' on page 1 undefined");
    assert_eq!(diagnostics.len(), 1);
    assert_eq!(diagnostics[0].message, "Citation `foo' on page 1 undefined");
}

#[test]
fn parsing_twice_gives_the_same_diagnostics() {
    let output = "! Missing $ inserted.\nl.7 x^2\nPackage hyperref Warning: Token not allowed\nerror: stop";
    let first = parse_diagnostics(output);
    let second = parse_diagnostics(output);
    assert_eq!(first.len(), 3);
    assert_eq!(first.len(), second.len());
    for (a, b) in first.iter().zip(second.iter()) {
        assert_eq!(a.severity, b.severity);
        assert_eq!(a.message, b.message);
        assert_eq!(a.file, b.file);
        assert_eq!(a.line, b.line);
        assert_eq!(a.column, b.column);
    }
}

#[test]
fn diagnostics_keep_the_order_of_their_lines() {
    let output = "Warning: first\n! second\nerror: third";
    let d = parse_diagnostics(output);
    assert_eq!(d.len(), 3);
    assert_eq!((d[0].severity.clone(), d[0].message.as_str()), (Severity::Warning, "first"));
    assert_eq!((d[1].severity.clone(), d[1].message.as_str()), (Severity::Error, "second"));
    assert_eq!((d[2].severity.clone(), d[2].message.as_str()), (Severity::Error, "third"));
}

#[test]
fn bang_line_beats_error_token() {
    let d = parse_diagnostics("! error: inner");
    assert_eq!(d.len(), 1);
    assert_eq!(d[0].message, "error: inner");
}

#[test]
fn error_token_beats_warning_token() {
    let d = parse_diagnostics("warning: error: both");
    assert_eq!(d.len(), 1);
    assert_eq!(d[0].severity, Severity::Error);
    assert_eq!(d[0].message, "both");
}

#[test]
fn empty_payload_gives_no_diagnostic() {
    assert!(parse_diagnostics("error:   ").is_empty());
    assert!(parse_diagnostics("Warning:").is_empty());
}

#[test]
fn location_before_any_diagnostic_is_dropped() {
    let d = parse_diagnostics("l.3 \\foo\n! Bad thing");
    assert_eq!(d.len(), 1);
    assert_eq!(d[0].line, None);
}

#[test]
fn location_is_not_overwritten() {
    let d = parse_diagnostics("! Bad thing\nl.3 \\foo\nl.9 \\bar");
    assert_eq!(d.len(), 1);
    assert_eq!(d[0].line, Some(3));
}

#[test]
fn location_without_digits_attaches_nothing() {
    let d = parse_diagnostics("! Bad thing\nl.x");
    assert_eq!(d[0].line, None);
    let d = parse_diagnostics("! Bad thing\nl.x\nl.4");
    assert_eq!(d[0].line, Some(4));
}

#[test]
fn crlf_line_endings_are_understood() {
    let d = parse_diagnostics("! Bad thing\r\nl.12 \\x\r\n");
    assert_eq!(d.len(), 1);
    assert_eq!(d[0].message, "Bad thing");
    assert_eq!(d[0].line, Some(12));
}

#[test]
fn repeated_diagnostics_are_kept() {
    let d = parse_diagnostics("error: same\nerror: same");
    assert_eq!(d.len(), 2);
}

#[test]
fn line_number_that_does_not_fit_is_none() {
    assert_eq!(parse_line_number("l.4294967295"), Some(4294967295));
    assert_eq!(parse_line_number("l.4294967296"), None);
    assert_eq!(parse_line_number("l."), None);
    assert_eq!(parse_line_number("l.007x"), Some(7));
}

#[test]
fn extract_trims_unicode_spaces() {
    assert_eq!(extract_after_pattern("Error:\u{a0} spaced \t", "error:"), "spaced");
    assert_eq!(extract_after_pattern("x warning: y", "WARNING:"), "y");
}

#[test]
fn location_lines_alone_give_nothing() {
    assert!(parse_diagnostics("l.3 \\foo\nl.4\nOutput written on cv.pdf (1 page).").is_empty());
}
