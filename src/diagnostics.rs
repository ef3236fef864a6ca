//! Reading a LaTeX compiler's free-form output as a list of diagnostics.
//!
//! The output is read line by line. Each line either starts a new diagnostic,
//! gives the source line of the diagnostic before it, or is ignored.
use vstd::prelude::*;

use crate::text::{
    chars_of, contains, contains_exec, find_nocase, find_nocase_exec, has_prefix,
    starts_with_chars, string_of, sub_chars, trim, trim_bounds,
};

verus! {

/// How serious a diagnostic is.
#[derive(Debug, Clone, PartialEq, Eq, Structural)]
pub enum Severity {
    Error,
    Warning,
    Info,
}

/// One message of the compiler, with where it points in the source if known.
#[derive(Debug, Clone)]
pub struct Diagnostic {
    pub severity: Severity,
    pub message: String,
    pub file: Option<String>,
    pub line: Option<u32>,
    pub column: Option<u32>,
}

/// What a `Diagnostic` holds, with its text as character sequences.
pub ghost struct DiagnosticView {
    pub severity: Severity,
    pub message: Seq<char>,
    pub file: Option<Seq<char>>,
    pub line: Option<u32>,
    pub column: Option<u32>,
}

impl View for Diagnostic {
    type V = DiagnosticView;

    open spec fn view(&self) -> DiagnosticView {
        DiagnosticView {
            severity: self.severity,
            message: self.message@,
            file: match self.file {
                Some(f) => Some(f@),
                None => None,
            },
            line: self.line,
            column: self.column,
        }
    }
}

/// The views of a list of diagnostics.
pub open spec fn views(ds: Seq<Diagnostic>) -> Seq<DiagnosticView> {
    ds.map_values(|d: Diagnostic| d@)
}

/// A fresh diagnostic: no file, no line, no column.
pub open spec fn fresh(severity: Severity, message: Seq<char>) -> DiagnosticView {
    DiagnosticView { severity, message, file: None, line: None, column: None }
}

/// The marker that opens a TeX error line.
pub open spec fn bang_mark() -> Seq<char> {
    seq!['!', ' ']
}

/// The label that LaTeX puts after `bang_mark` on its own errors.
pub open spec fn latex_error_label() -> Seq<char> {
    seq!['L', 'a', 'T', 'e', 'X', ' ', 'E', 'r', 'r', 'o', 'r', ':', ' ']
}

/// The token of a plain error line, matched without regard to case.
pub open spec fn error_token() -> Seq<char> {
    seq!['e', 'r', 'r', 'o', 'r', ':']
}

/// The token of a plain warning line, matched without regard to case.
pub open spec fn warning_token() -> Seq<char> {
    seq!['w', 'a', 'r', 'n', 'i', 'n', 'g', ':']
}

/// The label of a LaTeX warning line.
pub open spec fn latex_warning_label() -> Seq<char> {
    seq!['L', 'a', 'T', 'e', 'X', ' ', 'W', 'a', 'r', 'n', 'i', 'n', 'g', ':']
}

/// The marker of a line that gives a source line number (`l.15 ...`).
pub open spec fn location_mark() -> Seq<char> {
    seq!['l', '.']
}

/// The text after the first case-insensitive occurrence of `pattern` in
/// `line`, trimmed; empty when `pattern` does not occur.
pub open spec fn text_after(line: Seq<char>, pattern: Seq<char>) -> Seq<char> {
    match find_nocase(line, pattern) {
        Some(i) => trim(line.subrange((i + pattern.len()) as int, line.len() as int)),
        None => Seq::empty(),
    }
}

/// The message of a line that starts with `bang_mark`: the line without
/// that marker and without `latex_error_label` right after it.
pub open spec fn bang_message(line: Seq<char>) -> Seq<char> {
    let rest = line.skip(bang_mark().len() as int);
    if has_prefix(rest, latex_error_label()) {
        rest.skip(latex_error_label().len() as int)
    } else {
        rest
    }
}

/// `c` is an ASCII decimal digit.
pub open spec fn is_digit(c: char) -> bool {
    '0' <= c && c <= '9'
}

/// The end of the run of ASCII digits that starts at `i` in `s`.
pub open spec fn digits_end(s: Seq<char>, i: int) -> int
    decreases s.len() - i,
{
    if 0 <= i < s.len() && is_digit(s[i]) {
        digits_end(s, i + 1)
    } else {
        i
    }
}

/// The number that the decimal digits `ds` write.
pub open spec fn decimal_value(ds: Seq<char>) -> nat
    decreases ds.len(),
{
    if ds.len() == 0 {
        0
    } else {
        decimal_value(ds.drop_last()) * 10 + ((ds.last() as u32 - '0' as u32) as nat)
    }
}

/// The line number that a location line gives: the digits right after
/// `location_mark` (or at the start, where the mark is absent), read as a
/// `u32`; none when there are no digits or the number does not fit.
pub open spec fn line_number_of(line: Seq<char>) -> Option<u32> {
    let start: int = if has_prefix(line, location_mark()) {
        location_mark().len() as int
    } else {
        0
    };
    let ds = line.subrange(start, digits_end(line, start));
    if ds.len() == 0 || decimal_value(ds) > u32::MAX {
        None
    } else {
        Some(decimal_value(ds) as u32)
    }
}

/// `acc` with a new diagnostic of `message`, unless `message` is empty.
pub open spec fn push_unless_empty(
    acc: Seq<DiagnosticView>,
    severity: Severity,
    message: Seq<char>,
) -> Seq<DiagnosticView> {
    if message.len() > 0 {
        acc.push(fresh(severity, message))
    } else {
        acc
    }
}

/// `acc` with the line number `n` given to its last diagnostic, where there
/// is one and it has no line number yet.
pub open spec fn attach_line(acc: Seq<DiagnosticView>, n: Option<u32>) -> Seq<DiagnosticView> {
    match n {
        Some(k) => if acc.len() > 0 && acc.last().line is None {
            acc.update(acc.len() - 1, DiagnosticView { line: Some(k), ..acc.last() })
        } else {
            acc
        },
        None => acc,
    }
}

/// What one line of output does to the diagnostics read so far. The first
/// rule that applies decides.
pub open spec fn scan_line(acc: Seq<DiagnosticView>, line: Seq<char>) -> Seq<DiagnosticView> {
    if has_prefix(line, bang_mark()) {
        acc.push(fresh(Severity::Error, bang_message(line)))
    } else if find_nocase(line, error_token()) is Some {
        push_unless_empty(acc, Severity::Error, text_after(line, error_token()))
    } else if find_nocase(line, warning_token()) is Some {
        push_unless_empty(acc, Severity::Warning, text_after(line, warning_token()))
    } else if contains(line, latex_warning_label()) {
        push_unless_empty(acc, Severity::Warning, text_after(line, latex_warning_label()))
    } else if has_prefix(line, location_mark()) {
        attach_line(acc, line_number_of(line))
    } else {
        acc
    }
}

/// The end of the line that starts at `i`: the position of the next `'\n'`,
/// or the end of `s`.
pub open spec fn line_end(s: Seq<char>, i: int) -> int
    decreases s.len() - i,
{
    if 0 <= i < s.len() && s[i] != '\n' {
        line_end(s, i + 1)
    } else {
        i
    }
}

/// A line ended by `'\n'` loses one `'\r'` before it.
pub open spec fn without_cr(l: Seq<char>) -> Seq<char> {
    if l.len() > 0 && l.last() == '\r' {
        l.drop_last()
    } else {
        l
    }
}

/// The lines of `s` from position `i` on. Lines end at `'\n'`, or at
/// `"\r\n"`; the last line needs no ending, and an empty text after the
/// last `'\n'` is no line.
pub open spec fn lines_from(s: Seq<char>, i: int) -> Seq<Seq<char>>
    decreases s.len() - i,
{
    if i < 0 || i >= s.len() {
        Seq::empty()
    } else {
        let e = line_end(s, i);
        if i <= e < s.len() {
            seq![without_cr(s.subrange(i, e))] + lines_from(s, e + 1)
        } else {
            seq![s.subrange(i, s.len() as int)]
        }
    }
}

/// The lines of `s`.
pub open spec fn lines_of(s: Seq<char>) -> Seq<Seq<char>> {
    lines_from(s, 0)
}

/// `scan_line` applied to each of `lines` in turn, starting from `acc`.
pub open spec fn scan_lines(acc: Seq<DiagnosticView>, lines: Seq<Seq<char>>) -> Seq<
    DiagnosticView,
>
    decreases lines.len(),
{
    if lines.len() == 0 {
        acc
    } else {
        scan_lines(scan_line(acc, lines[0]), lines.drop_first())
    }
}

/// The diagnostics that the compiler output `s` holds, in the order of the
/// lines that gave them.
pub open spec fn diagnostics_of(s: Seq<char>) -> Seq<DiagnosticView> {
    scan_lines(Seq::empty(), lines_of(s))
}

/// The characters of `bang_mark`.
fn bang_mark_chars() -> (r: Vec<char>)
    ensures
        r@ == bang_mark(),
{
    let r = vec!['!', ' '];
    assert(r@ =~= bang_mark());
    r
}

/// The characters of `latex_error_label`.
fn latex_error_label_chars() -> (r: Vec<char>)
    ensures
        r@ == latex_error_label(),
{
    let r = vec!['L', 'a', 'T', 'e', 'X', ' ', 'E', 'r', 'r', 'o', 'r', ':', ' '];
    assert(r@ =~= latex_error_label());
    r
}

/// The characters of `error_token`.
fn error_token_chars() -> (r: Vec<char>)
    ensures
        r@ == error_token(),
{
    let r = vec!['e', 'r', 'r', 'o', 'r', ':'];
    assert(r@ =~= error_token());
    r
}

/// The characters of `warning_token`.
fn warning_token_chars() -> (r: Vec<char>)
    ensures
        r@ == warning_token(),
{
    let r = vec!['w', 'a', 'r', 'n', 'i', 'n', 'g', ':'];
    assert(r@ =~= warning_token());
    r
}

/// The characters of `latex_warning_label`.
fn latex_warning_label_chars() -> (r: Vec<char>)
    ensures
        r@ == latex_warning_label(),
{
    let r = vec!['L', 'a', 'T', 'e', 'X', ' ', 'W', 'a', 'r', 'n', 'i', 'n', 'g', ':'];
    assert(r@ =~= latex_warning_label());
    r
}

/// The characters of `location_mark`.
fn location_mark_chars() -> (r: Vec<char>)
    ensures
        r@ == location_mark(),
{
    let r = vec!['l', '.'];
    assert(r@ =~= location_mark());
    r
}

/// `text_after` on executable characters.
fn text_after_chars(line: &Vec<char>, pattern: &Vec<char>) -> (r: String)
    ensures
        r@ == text_after(line@, pattern@),
{
    let n = line.len();
    match find_nocase_exec(line, pattern) {
        Some(i) => {
            let (a, b) = trim_bounds(line, i + pattern.len());
            string_of(line, a, b)
        },
        None => String::new(),
    }
}

/// `line_number_of` on executable characters.
fn line_number_of_chars(line: &Vec<char>) -> (r: Option<u32>)
    ensures
        r == line_number_of(line@),
{
    let n = line.len();
    let start: usize = if starts_with_chars(line, &location_mark_chars()) {
        2
    } else {
        0
    };
    let cap: u64 = 0x1_0000_0000;
    let mut value: u64 = 0;
    let mut i: usize = start;
    while i < n && '0' <= line[i] && line[i] <= '9'
        invariant
            start <= i <= n,
            n == line@.len(),
            start <= n,
            cap == 0x1_0000_0000,
            digits_end(line@, i as int) == digits_end(line@, start as int),
            value == if decimal_value(line@.subrange(start as int, i as int)) > u32::MAX {
                cap as nat
            } else {
                decimal_value(line@.subrange(start as int, i as int))
            },
        decreases n - i,
    {
        let ghost before = decimal_value(line@.subrange(start as int, i as int));
        assert(line@.subrange(start as int, i + 1).drop_last() =~= line@.subrange(
            start as int,
            i as int,
        ));
        let d = (line[i] as u32 - '0' as u32) as u64;
        let ghost next = line@.subrange(start as int, i + 1);
        assert(next.last() == line@[i as int]);
        assert(decimal_value(next) == before * 10 + d);
        assert(before * 10 >= before) by (nonlinear_arith)
            requires
                before >= 0,
        ;
        if value < cap {
            assert(value == before);
            value = value * 10 + d;
            if value >= cap {
                value = cap;
            }
        }
        i = i + 1;
    }
    proof {
        if start == 2 {
            assert(has_prefix(line@, location_mark()));
        }
    }
    if i == start || value >= cap {
        None
    } else {
        Some(value as u32)
    }
}

/// Reading is deterministic: any two results of `parse_diagnostics` on the
/// same text hold the same diagnostics, in the same order.
pub proof fn parse_is_deterministic(
    text1: Seq<char>,
    text2: Seq<char>,
    r1: Seq<Diagnostic>,
    r2: Seq<Diagnostic>,
)
    requires
        text1 == text2,
        views(r1) == diagnostics_of(text1),
        views(r2) == diagnostics_of(text2),
    ensures
        views(r1) == views(r2),
{
}

/// A line never takes back what was read before it: earlier diagnostics
/// keep their place, severity, message, file and column, and a line number
/// once set stays; new diagnostics only come at the end.
pub proof fn scan_line_keeps_earlier_diagnostics(acc: Seq<DiagnosticView>, line: Seq<char>)
    ensures
        scan_line(acc, line).len() >= acc.len(),
        forall|i: int|
            0 <= i < acc.len() ==> {
                let d = #[trigger] scan_line(acc, line)[i];
                &&& d.severity == acc[i].severity
                &&& d.message == acc[i].message
                &&& d.file == acc[i].file
                &&& d.column == acc[i].column
                &&& (acc[i].line is Some ==> d.line == acc[i].line)
            },
{
}

/// A line that no rule turns into a diagnostic: no error marker at its
/// start, no `error:` or `warning:` in any case, no LaTeX warning label.
pub open spec fn is_quiet(line: Seq<char>) -> bool {
    &&& !has_prefix(line, bang_mark())
    &&& find_nocase(line, error_token()) is None
    &&& find_nocase(line, warning_token()) is None
    &&& !contains(line, latex_warning_label())
}

/// Quiet lines read from nothing give nothing.
proof fn quiet_lines_give_nothing(lines: Seq<Seq<char>>)
    requires
        forall|i: int| 0 <= i < lines.len() ==> is_quiet(#[trigger] lines[i]),
    ensures
        scan_lines(Seq::empty(), lines) == Seq::<DiagnosticView>::empty(),
    decreases lines.len(),
{
    if lines.len() > 0 {
        assert(is_quiet(lines[0]));
        assert(scan_line(Seq::empty(), lines[0]) == Seq::<DiagnosticView>::empty());
        let rest = lines.drop_first();
        assert forall|i: int| 0 <= i < rest.len() implies is_quiet(#[trigger] rest[i]) by {
            assert(rest[i] == lines[i + 1]);
        }
        quiet_lines_give_nothing(rest);
    }
}

/// Output whose lines carry no error marker, no error or warning token and
/// no LaTeX warning label gives no diagnostics: location lines alone never
/// make one.
pub proof fn clean_output_gives_no_diagnostics(text: Seq<char>)
    requires
        forall|i: int| 0 <= i < lines_of(text).len() ==> is_quiet(#[trigger] lines_of(text)[i]),
    ensures
        diagnostics_of(text).len() == 0,
{
    quiet_lines_give_nothing(lines_of(text));
}

/// Each line adds at most one diagnostic to those read before it.
proof fn scan_lines_grows_by_at_most_one_per_line(
    acc: Seq<DiagnosticView>,
    lines: Seq<Seq<char>>,
)
    ensures
        scan_lines(acc, lines).len() <= acc.len() + lines.len(),
    decreases lines.len(),
{
    if lines.len() > 0 {
        scan_lines_grows_by_at_most_one_per_line(scan_line(acc, lines[0]), lines.drop_first());
    }
}

/// Reading never yields more diagnostics than the text has lines.
pub proof fn at_most_one_diagnostic_per_line(text: Seq<char>)
    ensures
        diagnostics_of(text).len() <= lines_of(text).len(),
{
    scan_lines_grows_by_at_most_one_per_line(Seq::empty(), lines_of(text));
}

impl Diagnostic {
    fn new(severity: Severity, message: String) -> (d: Diagnostic)
        ensures
            d@ == fresh(severity, message@),
    {
        Diagnostic { severity, message, file: None, line: None, column: None }
    }

    /// An error with `message`, and no location.
    pub fn error(message: &str) -> (d: Diagnostic)
        ensures
            d@ == fresh(Severity::Error, message@),
    {
        Diagnostic::new(Severity::Error, message.to_owned())
    }

    /// A warning with `message`, and no location.
    pub fn warning(message: &str) -> (d: Diagnostic)
        ensures
            d@ == fresh(Severity::Warning, message@),
    {
        Diagnostic::new(Severity::Warning, message.to_owned())
    }

    /// This diagnostic, pointing into `file`.
    pub fn with_file(self, file: &str) -> (d: Diagnostic)
        ensures
            d@ == (DiagnosticView { file: Some(file@), ..self@ }),
    {
        let mut d = self;
        d.file = Some(file.to_owned());
        d
    }

    /// This diagnostic, pointing at source line `line`.
    pub fn with_line(self, line: u32) -> (d: Diagnostic)
        ensures
            d@ == (DiagnosticView { line: Some(line), ..self@ }),
    {
        let mut d = self;
        d.line = Some(line);
        d
    }

    /// This diagnostic, pointing at column `column`.
    pub fn with_column(self, column: u32) -> (d: Diagnostic)
        ensures
            d@ == (DiagnosticView { column: Some(column), ..self@ }),
    {
        let mut d = self;
        d.column = Some(column);
        d
    }
}

/// `acc` with `d` added at its end.
fn push_diagnostic(acc: &mut Vec<Diagnostic>, d: Diagnostic)
    ensures
        views(final(acc)@) == views(old(acc)@).push(d@),
{
    acc.push(d);
    assert(views(acc@) =~= views(old(acc)@).push(d@));
}

/// `acc` with a diagnostic of `message` added at its end, unless `message` is
/// empty.
fn push_unless_empty_exec(acc: &mut Vec<Diagnostic>, severity: Severity, message: String)
    ensures
        views(final(acc)@) == push_unless_empty(views(old(acc)@), severity, message@),
{
    if !message.as_str().is_empty() {
        push_diagnostic(acc, Diagnostic::new(severity, message));
    }
}

/// `attach_line` on executable values.
fn attach_line_exec(acc: &mut Vec<Diagnostic>, n: Option<u32>)
    ensures
        views(final(acc)@) == attach_line(views(old(acc)@), n),
{
    if let Some(k) = n {
        let len = acc.len();
        if len > 0 && acc[len - 1].line.is_none() {
            let mut d = acc.pop().unwrap();
            d.line = Some(k);
            acc.push(d);
            assert(views(acc@) =~= attach_line(views(old(acc)@), n));
        }
    }
}

/// `scan_line` on executable values: what one line of output does to the
/// diagnostics read so far.
fn scan_line_exec(acc: &mut Vec<Diagnostic>, line: &Vec<char>)
    ensures
        views(final(acc)@) == scan_line(views(old(acc)@), line@),
{
    let error = error_token_chars();
    let warning = warning_token_chars();
    let latex_warning = latex_warning_label_chars();
    if starts_with_chars(line, &bang_mark_chars()) {
        let rest = sub_chars(line, 2, line.len());
        let label = latex_error_label_chars();
        let message = if starts_with_chars(&rest, &label) {
            string_of(&rest, label.len(), rest.len())
        } else {
            string_of(&rest, 0, rest.len())
        };
        assert(rest@.subrange(0, rest@.len() as int) =~= rest@);
        push_diagnostic(acc, Diagnostic::new(Severity::Error, message));
    } else if find_nocase_exec(line, &error).is_some() {
        push_unless_empty_exec(acc, Severity::Error, text_after_chars(line, &error));
    } else if find_nocase_exec(line, &warning).is_some() {
        push_unless_empty_exec(acc, Severity::Warning, text_after_chars(line, &warning));
    } else if contains_exec(line, &latex_warning) {
        push_unless_empty_exec(acc, Severity::Warning, text_after_chars(line, &latex_warning));
    } else if starts_with_chars(line, &location_mark_chars()) {
        attach_line_exec(acc, line_number_of_chars(line));
    }
}

/// Reads a compiler's output into diagnostics, one line at a time, in the
/// order of the lines that gave them. Never fails: lines that no rule takes
/// are ignored.
pub fn parse_diagnostics(output: &str) -> (r: Vec<Diagnostic>)
    ensures
        views(r@) == diagnostics_of(output@),
{
    let s = chars_of(output);
    let n = s.len();
    let mut acc: Vec<Diagnostic> = Vec::new();
    assert(views(acc@) =~= Seq::<DiagnosticView>::empty());
    let mut pos: usize = 0;
    while pos < n
        invariant
            n == s@.len(),
            s@ == output@,
            pos <= n,
            scan_lines(views(acc@), lines_from(s@, pos as int)) == diagnostics_of(output@),
        decreases n - pos,
    {
        let mut e: usize = pos;
        while e < n && s[e] != '\n'
            invariant
                pos <= e <= n,
                n == s@.len(),
                line_end(s@, e as int) == line_end(s@, pos as int),
            decreases n - e,
        {
            e = e + 1;
        }
        let ghost before = views(acc@);
        if e < n {
            let line = if e > pos && s[e - 1] == '\r' {
                sub_chars(&s, pos, e - 1)
            } else {
                sub_chars(&s, pos, e)
            };
            assert(line@ == without_cr(s@.subrange(pos as int, e as int))) by {
                if e > pos && s@[e - 1] == '\r' {
                    assert(s@.subrange(pos as int, e as int).drop_last() =~= s@.subrange(
                        pos as int,
                        e - 1,
                    ));
                }
            }
            let ghost rest = lines_from(s@, e + 1);
            assert(lines_from(s@, pos as int) == seq![line@] + rest);
            assert((seq![line@] + rest).drop_first() =~= rest);
            scan_line_exec(&mut acc, &line);
            pos = e + 1;
        } else {
            let line = sub_chars(&s, pos, n);
            assert(lines_from(s@, pos as int) == seq![line@]);
            assert(seq![line@].drop_first() =~= Seq::<Seq<char>>::empty());
            scan_line_exec(&mut acc, &line);
            pos = n;
        }
    }
    acc
}

/// The line number that a location line such as `"l.15 \\foo"` gives: the
/// ASCII digits right after its `l.` marker, read as a `u32`. `None` when
/// there are no digits there or the number does not fit.
pub fn parse_line_number(line: &str) -> (r: Option<u32>)
    ensures
        r == line_number_of(line@),
{
    line_number_of_chars(&chars_of(line))
}

/// The text of `line` after the first occurrence of `pattern`, case ignored,
/// with the white space at its ends removed. Empty when `pattern` does not
/// occur in `line`.
pub fn extract_after_pattern(line: &str, pattern: &str) -> (r: String)
    ensures
        r@ == text_after(line@, pattern@),
{
    text_after_chars(&chars_of(line), &chars_of(pattern))
}

} // verus!
