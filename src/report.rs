//! A plain-text report on where the compiler might be installed, for users
//! to paste into a bug report. The caller looks at the machine; this module
//! says what to look at and writes the report.
use vstd::prelude::*;

use crate::locator::{opt_text, texts};

verus! {

/// The locations the report looks at on Unix-like systems, under the
/// user's home directory `home` and the usual system roots.
pub open spec fn probe_paths_spec(home: Seq<char>) -> Seq<Seq<char>> {
    seq![
        "/usr/bin/pdflatex"@,
        "/usr/local/bin/pdflatex"@,
        "/opt/texbin/pdflatex"@,
        home + "/.texlive/bin/x86_64-linux/pdflatex"@,
        home + "/.texlive/bin/universal-darwin/pdflatex"@,
    ]
}

/// The locations the report looks at; see `probe_paths_spec`.
pub fn debug_probe_paths(home: &str) -> (r: Vec<String>)
    ensures
        texts(r@) == probe_paths_spec(home@),
{
    let mut r: Vec<String> = Vec::new();
    r.push("/usr/bin/pdflatex".to_owned());
    r.push("/usr/local/bin/pdflatex".to_owned());
    r.push("/opt/texbin/pdflatex".to_owned());
    let mut linux = home.to_owned();
    linux.append("/.texlive/bin/x86_64-linux/pdflatex");
    r.push(linux);
    let mut darwin = home.to_owned();
    darwin.append("/.texlive/bin/universal-darwin/pdflatex");
    r.push(darwin);
    assert(texts(r@) =~= probe_paths_spec(home@));
    r
}

/// The report's line on one location.
pub open spec fn path_line(path: Seq<char>, exists: bool) -> Seq<char> {
    "  "@ + path + ": "@ + (if exists {
        "EXISTS"@
    } else {
        "not found"@
    }) + "\n"@
}

/// The report's lines on the first `n` locations.
pub open spec fn path_lines(paths: Seq<Seq<char>>, exists: Seq<bool>, n: int) -> Seq<char>
    decreases n,
{
    if n <= 0 {
        Seq::empty()
    } else {
        path_lines(paths, exists, n - 1) + path_line(paths[n - 1], exists[n - 1])
    }
}

/// The report: the home directory, each location and whether it exists,
/// and where the search path finds the compiler, if it does.
pub open spec fn report_spec(
    home: Seq<char>,
    paths: Seq<Seq<char>>,
    exists: Seq<bool>,
    in_path: Option<Seq<char>>,
) -> Seq<char> {
    "HOME: "@ + home + "\n"@ + "Common paths:\n"@ + path_lines(paths, exists, paths.len() as int)
        + match in_path {
        Some(p) => "\npdflatex found in PATH: "@ + p,
        None => "\npdflatex not found in PATH"@,
    }
}

/// Writes the report. `exists[i]` tells whether `paths[i]` exists;
/// `in_path` is where the search path finds the compiler.
pub fn debug_report(
    home: &str,
    paths: &Vec<String>,
    exists: &Vec<bool>,
    in_path: Option<String>,
) -> (r: String)
    requires
        paths@.len() == exists@.len(),
    ensures
        r@ == report_spec(home@, texts(paths@), exists@, opt_text(in_path)),
{
    let mut r = "HOME: ".to_owned();
    r.append(home);
    r.append("\n");
    r.append("Common paths:\n");
    let ghost head = r@;
    let mut i: usize = 0;
    while i < paths.len()
        invariant
            i <= paths@.len(),
            paths@.len() == exists@.len(),
            r@ == head + path_lines(texts(paths@), exists@, i as int),
        decreases paths.len() - i,
    {
        let ghost before = r@;
        r.append("  ");
        r.append(paths[i].as_str());
        r.append(": ");
        if exists[i] {
            r.append("EXISTS");
        } else {
            r.append("not found");
        }
        r.append("\n");
        assert(r@ =~= head + path_lines(texts(paths@), exists@, i + 1));
        i = i + 1;
    }
    match in_path {
        Some(p) => {
            r.append("\npdflatex found in PATH: ");
            r.append(p.as_str());
        },
        None => {
            r.append("\npdflatex not found in PATH");
        },
    }
    assert(r@ =~= report_spec(home@, texts(paths@), exists@, opt_text(in_path)));
    r
}

/// The short report of Windows systems: the user profile directory, the
/// per-user MiKTeX location, and whether it exists.
pub open spec fn profile_report_spec(profile: Seq<char>, path: Seq<char>, exists: bool) -> Seq<
    char,
> {
    "USERPROFILE: "@ + profile + "\nPath: "@ + path + "\nExists: "@ + (if exists {
        "true"@
    } else {
        "false"@
    })
}

/// Writes the short report of Windows systems; see `profile_report_spec`.
pub fn profile_report(profile: &str, path: &str, exists: bool) -> (r: String)
    ensures
        r@ == profile_report_spec(profile@, path@, exists),
{
    let mut r = "USERPROFILE: ".to_owned();
    r.append(profile);
    r.append("\nPath: ");
    r.append(path);
    r.append("\nExists: ");
    if exists {
        r.append("true");
    } else {
        r.append("false");
    }
    assert(r@ =~= profile_report_spec(profile@, path@, exists));
    r
}

} // verus!
