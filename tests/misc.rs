use resume_ide::pdf::pdf_base64;
use resume_ide::report::{debug_probe_paths, debug_report, profile_report};
use resume_ide::state::AppState;

#[test]
fn pdf_bytes_become_padded_base64() {
    assert_eq!(pdf_base64(b"hello"), "aGVsbG8=");
    assert_eq!(pdf_base64(b"%PDF"), "JVBERg==");
    assert_eq!(pdf_base64(b""), "");
}

#[test]
fn opening_a_file_makes_it_current() {
    let mut state = AppState::new();
    assert_eq!(state.current_path(), Err("No file is currently open".to_string()));
    let info = state.open_file("/docs/cv.tex".to_string(), "\\documentclass{article}".to_string());
    assert_eq!(info.name, "cv.tex");
    assert_eq!(info.path, "/docs/cv.tex");
    assert_eq!(info.content, "\\documentclass{article}");
    assert_eq!(state.current_path(), Ok("/docs/cv.tex".to_string()));
    assert!(AppState::default().current_file.is_none());
}

#[test]
fn report_lists_each_location() {
    let paths = debug_probe_paths("/home/ann");
    assert_eq!(paths.len(), 5);
    assert_eq!(paths[3], "/home/ann/.texlive/bin/x86_64-linux/pdflatex");
    let exists = vec![true, false, false, false, false];
    let report = debug_report("/home/ann", &paths, &exists, Some("/usr/bin/pdflatex".to_string()));
    assert!(report.starts_with("HOME: /home/ann\nCommon paths:\n  /usr/bin/pdflatex: EXISTS\n  /usr/local/bin/pdflatex: not found\n"));
    assert!(report.ends_with("\npdflatex found in PATH: /usr/bin/pdflatex"));
    assert!(report.contains("HOME"));
    let report = debug_report("NOT_FOUND", &Vec::new(), &Vec::new(), None);
    assert_eq!(report, "HOME: NOT_FOUND\nCommon paths:\n\npdflatex not found in PATH");
}

#[test]
fn profile_report_names_the_profile() {
    assert_eq!(
        profile_report("C:\\Users\\ann", "C:\\x\\pdflatex.exe", false),
        "USERPROFILE: C:\\Users\\ann\nPath: C:\\x\\pdflatex.exe\nExists: false"
    );
}
