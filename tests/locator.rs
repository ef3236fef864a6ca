use resume_ide::locator::{
    availability_probe, known_install_paths, path_from_lookup, path_like, LocatorStep, Probe,
    RequirementsStatus, ResolvedTool, ToolLocator,
};

fn resolve(candidates: Vec<String>, answer: impl Fn(&Probe) -> bool) -> (ResolvedTool, usize) {
    let (mut locator, first) = ToolLocator::new(candidates);
    let mut probe = first;
    let mut probes = 0;
    loop {
        probes += 1;
        match locator.advance(answer(&probe)) {
            LocatorStep::Probe(p) => probe = p,
            LocatorStep::Resolved(t) => return (t, probes),
        }
    }
}

fn candidates() -> Vec<String> {
    vec!["".to_string(), "/a/pdflatex".to_string(), "/b/pdflatex".to_string()]
}

#[test]
fn first_probe_runs_the_bare_command() {
    let (_, first) = ToolLocator::new(candidates());
    match first {
        Probe::Version(c) => assert_eq!(c, "pdflatex"),
        other => panic!("unexpected {:?}", other),
    }
}

#[test]
fn bare_command_that_runs_is_taken() {
    let (tool, probes) = resolve(candidates(), |_| true);
    assert_eq!(tool.command, "pdflatex");
    assert!(!tool.qualified);
    assert_eq!(probes, 1);
}

#[test]
fn first_existing_location_is_taken_even_unverified() {
    let (tool, _) = resolve(candidates(), |p| match p {
        Probe::Version(_) => false,
        Probe::Exists(path) => path == "/b/pdflatex",
    });
    assert_eq!(tool.command, "/b/pdflatex");
    assert!(tool.qualified);
}

#[test]
fn nothing_installed_still_gives_a_command() {
    let (tool, probes) = resolve(candidates(), |_| false);
    assert_eq!(tool.command, "pdflatex");
    assert!(!tool.command.is_empty());
    assert!(!tool.qualified);
    assert_eq!(probes, 3);
    let (tool, _) = resolve(Vec::new(), |_| false);
    assert_eq!(tool.command, "pdflatex");
}

#[test]
fn empty_candidates_are_never_probed() {
    let (tool, _) = resolve(vec!["".to_string()], |p| match p {
        Probe::Exists(path) => {
            assert!(!path.is_empty());
            true
        }
        Probe::Version(_) => false,
    });
    assert_eq!(tool.command, "pdflatex");
}

#[test]
fn windows_locations_start_under_the_profile() {
    let paths = known_install_paths(Some("C:\\Users\\ann"), true);
    assert_eq!(paths.len(), 4);
    assert_eq!(paths[0], "C:\\Users\\ann\\AppData\\Local\\Programs\\MiKTeX\\miktex\\bin\\x64\\pdflatex.exe");
    assert_eq!(paths[3], "C:\\MiKTeX\\miktex\\bin\\x64\\pdflatex.exe");
    let paths = known_install_paths(None, true);
    assert!(paths[0].starts_with("C:\\Users\\Default\\"));
    assert!(known_install_paths(Some("/home/ann"), false).is_empty());
}

#[test]
fn path_like_needs_a_separator() {
    assert!(path_like("/usr/bin/pdflatex"));
    assert!(path_like("C:\\x\\pdflatex.exe"));
    assert!(!path_like("pdflatex"));
}

#[test]
fn availability_depends_on_the_kind_of_tool() {
    match availability_probe(&ResolvedTool::bare()) {
        Probe::Version(c) => assert_eq!(c, "pdflatex"),
        other => panic!("unexpected {:?}", other),
    }
    match availability_probe(&ResolvedTool::from_command("/x/pdflatex".to_string())) {
        Probe::Exists(p) => assert_eq!(p, "/x/pdflatex"),
        other => panic!("unexpected {:?}", other),
    }
}

#[test]
fn lookup_output_is_trimmed() {
    assert_eq!(path_from_lookup("  /usr/bin/pdflatex\n", false).as_deref(), Some("/usr/bin/pdflatex"));
    assert_eq!(path_from_lookup("C:\\a\\pdflatex.exe\r\nC:\\b\\pdflatex.exe\r\n", true).as_deref(), Some("C:\\a\\pdflatex.exe"));
    assert_eq!(path_from_lookup(" \n", false), None);
    assert_eq!(path_from_lookup("", true), None);
}

#[test]
fn requirements_follow_the_probes() {
    let bare = ResolvedTool::bare();
    assert!(RequirementsStatus::needs_lookup(&bare, true));
    assert!(!RequirementsStatus::needs_lookup(&bare, false));
    let s = RequirementsStatus::from_probes(&bare, true, Some("/usr/bin/pdflatex\n"), false);
    assert!(s.pdflatex_available && s.all_satisfied);
    assert_eq!(s.pdflatex_path.as_deref(), Some("/usr/bin/pdflatex"));
    let s = RequirementsStatus::from_probes(&bare, false, None, false);
    assert!(!s.pdflatex_available && !s.all_satisfied);
    assert_eq!(s.pdflatex_path, None);
    let full = ResolvedTool::from_command("C:\\MiKTeX\\pdflatex.exe".to_string());
    assert!(!RequirementsStatus::needs_lookup(&full, true));
    let s = RequirementsStatus::from_probes(&full, true, None, true);
    assert_eq!(s.pdflatex_path.as_deref(), Some("C:\\MiKTeX\\pdflatex.exe"));
}

#[test]
fn compiler_test_requirements_status_clone() {
    let status = RequirementsStatus {
        pdflatex_available: true,
        pdflatex_path: Some("/path".to_string()),
        all_satisfied: true,
    };

    let cloned = status.clone();
    assert_eq!(status.pdflatex_available, cloned.pdflatex_available);
    assert_eq!(status.pdflatex_path, cloned.pdflatex_path);
    assert_eq!(status.all_satisfied, cloned.all_satisfied);
}

#[test]
fn requirements_test_requirements_status_clone() {
    let status = RequirementsStatus {
        pdflatex_available: true,
        pdflatex_path: Some("/path".to_string()),
        all_satisfied: true,
    };

    let cloned = status.clone();
    assert_eq!(status.pdflatex_available, cloned.pdflatex_available);
    assert_eq!(status.pdflatex_path, cloned.pdflatex_path);
    assert_eq!(status.all_satisfied, cloned.all_satisfied);
}

#[test]
fn compiler_test_requirements_status_debug() {
    let status = RequirementsStatus {
        pdflatex_available: false,
        pdflatex_path: None,
        all_satisfied: false,
    };

    let debug_str = format!("{:?}", status);
    assert!(debug_str.contains("RequirementsStatus"));
    assert!(debug_str.contains("pdflatex_available: false"));
}

#[test]
fn requirements_test_requirements_status_debug() {
    let status = RequirementsStatus {
        pdflatex_available: false,
        pdflatex_path: None,
        all_satisfied: false,
    };

    let debug_str = format!("{:?}", status);
    assert!(debug_str.contains("RequirementsStatus"));
    assert!(debug_str.contains("pdflatex_available: false"));
}
