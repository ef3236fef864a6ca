//! Finding a runnable LaTeX compiler.
//!
//! The search first asks whether the bare command runs (`pdflatex --version`
//! succeeds), then looks for the compiler at well-known install locations, in
//! order. The first location that exists is taken, whether or not its own
//! version probe succeeds. Where nothing is found the bare command is taken
//! all the same, so that running it later reports the missing installation.
//!
//! `ToolLocator` makes the decisions; the caller runs each `Probe` it asks
//! for and hands back the outcome.
use vstd::prelude::*;

use crate::diagnostics::line_end;
use crate::text::{chars_of, starts_with_chars, string_of, trim, trim_bounds};

verus! {

/// The compiler's bare command name.
pub open spec fn bare_command() -> Seq<char> {
    seq!['p', 'd', 'f', 'l', 'a', 't', 'e', 'x']
}

/// `s` holds a path separator, so that it names a file rather than a command
/// to look up on the search path.
pub open spec fn is_path_like(s: Seq<char>) -> bool {
    exists|i: int| 0 <= i < s.len() && (s[i] == '/' || s[i] == '\\')
}

/// Whether `s` holds a path separator.
pub fn path_like(s: &str) -> (r: bool)
    ensures
        r == is_path_like(s@),
{
    let c = chars_of(s);
    let mut i: usize = 0;
    while i < c.len()
        invariant
            i <= c@.len(),
            c@ == s@,
            forall|j: int| 0 <= j < i ==> !(c@[j] == '/' || c@[j] == '\\'),
        decreases c.len() - i,
    {
        if c[i] == '/' || c[i] == '\\' {
            return true;
        }
        i = i + 1;
    }
    false
}

/// A compiler to run: a command name or a path to the executable.
#[derive(Debug, Clone)]
pub struct ResolvedTool {
    pub command: String,
    /// The command is a path, not a name for the search path to resolve.
    pub qualified: bool,
}

impl ResolvedTool {
    /// The bare command, left to the executable search path.
    pub fn bare() -> (r: ResolvedTool)
        ensures
            r.command@ == bare_command(),
            !r.qualified,
    {
        let command = "pdflatex".to_owned();
        proof {
            reveal_strlit("pdflatex");
        }
        assert(command@ =~= bare_command());
        ResolvedTool { command, qualified: false }
    }

    /// The tool that `command` names; qualified where it is path-like.
    pub fn from_command(command: String) -> (r: ResolvedTool)
        ensures
            r.command@ == command@,
            r.qualified == is_path_like(command@),
    {
        let qualified = path_like(command.as_str());
        ResolvedTool { command, qualified }
    }
}

/// A question about the machine that the search needs answered.
#[derive(Debug, Clone)]
pub enum Probe {
    /// Run the command with `--version`: does it exit successfully?
    Version(String),
    /// Does a file exist at this path?
    Exists(String),
}

/// `Probe`, with its text as characters.
pub ghost enum ProbeView {
    Version(Seq<char>),
    Exists(Seq<char>),
}

impl View for Probe {
    type V = ProbeView;

    open spec fn view(&self) -> ProbeView {
        match self {
            Probe::Version(c) => ProbeView::Version(c@),
            Probe::Exists(p) => ProbeView::Exists(p@),
        }
    }
}

/// What the search does next.
#[derive(Debug, Clone)]
pub enum LocatorStep {
    /// Answer this probe and hand its outcome to `ToolLocator::advance`.
    Probe(Probe),
    /// The search is over.
    Resolved(ResolvedTool),
}

/// `LocatorStep`, with its text as characters; a resolved tool is its
/// command and whether that is qualified.
pub ghost enum StepView {
    Probe(ProbeView),
    Resolved(Seq<char>, bool),
}

impl View for LocatorStep {
    type V = StepView;

    open spec fn view(&self) -> StepView {
        match self {
            LocatorStep::Probe(p) => StepView::Probe(p@),
            LocatorStep::Resolved(t) => StepView::Resolved(t.command@, t.qualified),
        }
    }
}

/// Where the search stands.
#[derive(Debug, Clone, Copy, PartialEq, Eq, Structural)]
pub enum LocatorStage {
    /// Waiting for the version probe of the bare command.
    ProbingBare,
    /// Waiting to hear whether the candidate at this index exists.
    CheckingCandidate(usize),
    /// Waiting for the version probe of the candidate at this index, which
    /// exists.
    VerifyingCandidate(usize),
    /// The tool is resolved.
    Finished,
}

/// The texts of a list of strings.
pub open spec fn texts(v: Seq<String>) -> Seq<Seq<char>> {
    v.map_values(|s: String| s@)
}

/// The first candidate at or after `from` that is not empty.
pub open spec fn next_candidate(c: Seq<Seq<char>>, from: int) -> Option<nat>
    decreases c.len() - from,
{
    if from < 0 || from >= c.len() {
        None
    } else if c[from].len() > 0 {
        Some(from as nat)
    } else {
        next_candidate(c, from + 1)
    }
}

/// Stage and step once the candidates before `from` are ruled out.
pub open spec fn scan_from(c: Seq<Seq<char>>, from: int) -> (LocatorStage, StepView) {
    match next_candidate(c, from) {
        Some(i) => (LocatorStage::CheckingCandidate(i as usize), StepView::Probe(ProbeView::Exists(c[i as int]))),
        None => (LocatorStage::Finished, StepView::Resolved(bare_command(), false)),
    }
}

/// Stage and step after the probe of `stage` came out as `outcome`.
pub open spec fn transition(stage: LocatorStage, c: Seq<Seq<char>>, outcome: bool) -> (
    LocatorStage,
    StepView,
) {
    match stage {
        LocatorStage::ProbingBare => if outcome {
            (LocatorStage::Finished, StepView::Resolved(bare_command(), false))
        } else {
            scan_from(c, 0)
        },
        LocatorStage::CheckingCandidate(i) => if outcome {
            (LocatorStage::VerifyingCandidate(i), StepView::Probe(ProbeView::Version(c[i as int])))
        } else {
            scan_from(c, i + 1)
        },
        LocatorStage::VerifyingCandidate(i) => (
            LocatorStage::Finished,
            StepView::Resolved(c[i as int], is_path_like(c[i as int])),
        ),
        LocatorStage::Finished => (LocatorStage::Finished, StepView::Resolved(bare_command(), false)),
    }
}

/// The candidate that `next_candidate` picks is in the list and not empty.
proof fn next_candidate_is_nonempty(c: Seq<Seq<char>>, from: int)
    ensures
        next_candidate(c, from) matches Some(i) ==> from <= i < c.len() && c[i as int].len() > 0,
    decreases c.len() - from,
{
    if 0 <= from < c.len() && c[from].len() == 0 {
        next_candidate_is_nonempty(c, from + 1);
    }
}

/// Whatever the probes answer, a search never resolves to an empty
/// command: the bare command is not empty, and empty candidates are passed
/// over.
pub proof fn resolved_command_is_nonempty(stage: LocatorStage, c: Seq<Seq<char>>, outcome: bool)
    requires
        match stage {
            LocatorStage::CheckingCandidate(i) => i < c.len() && c[i as int].len() > 0,
            LocatorStage::VerifyingCandidate(i) => i < c.len() && c[i as int].len() > 0,
            _ => true,
        },
    ensures
        transition(stage, c, outcome).1 matches StepView::Resolved(command, _) ==> command.len()
            > 0,
{
    assert(bare_command().len() == 8);
    next_candidate_is_nonempty(c, 0);
    if let LocatorStage::CheckingCandidate(i) = stage {
        next_candidate_is_nonempty(c, i + 1);
    }
}

/// The index after `after`, or the first index where `after` is `None`.
pub open spec fn first_after(after: Option<usize>) -> int {
    match after {
        Some(k) => k + 1,
        None => 0,
    }
}

/// The stage of a search in progress points at a non-empty candidate.
pub open spec fn stage_in_progress(stage: LocatorStage, c: Seq<Seq<char>>) -> bool {
    match stage {
        LocatorStage::CheckingCandidate(i) => i < c.len() && c[i as int].len() > 0,
        LocatorStage::VerifyingCandidate(i) => i < c.len() && c[i as int].len() > 0,
        LocatorStage::ProbingBare => true,
        LocatorStage::Finished => false,
    }
}

/// An upper bound on the probes a search at `stage` still asks, over `n`
/// candidates.
pub open spec fn probes_left(stage: LocatorStage, n: nat) -> int {
    match stage {
        LocatorStage::ProbingBare => (2 * n + 2) as int,
        LocatorStage::CheckingCandidate(i) => 2 * (n - i) + 1,
        LocatorStage::VerifyingCandidate(i) => 2 * (n - i),
        LocatorStage::Finished => 0,
    }
}

/// The search from `stage` with `answers` as the outcomes of its probes, in
/// order: the command it resolves to and whether that is qualified, or none
/// where the answers run out first.
pub open spec fn run_search(stage: LocatorStage, c: Seq<Seq<char>>, answers: Seq<bool>) -> Option<
    (Seq<char>, bool),
>
    decreases answers.len(),
{
    if answers.len() == 0 {
        None
    } else {
        match transition(stage, c, answers[0]) {
            (_, StepView::Resolved(command, qualified)) => Some((command, qualified)),
            (next, StepView::Probe(_)) => run_search(next, c, answers.drop_first()),
        }
    }
}

/// A step that asks another probe leaves the search in progress, with
/// fewer probes left.
proof fn probing_step_makes_progress(stage: LocatorStage, c: Seq<Seq<char>>, outcome: bool)
    requires
        stage_in_progress(stage, c),
        c.len() <= usize::MAX,
        transition(stage, c, outcome).1 is Probe,
    ensures
        stage_in_progress(transition(stage, c, outcome).0, c),
        probes_left(transition(stage, c, outcome).0, c.len()) < probes_left(stage, c.len()),
{
    next_candidate_is_nonempty(c, 0);
    if let LocatorStage::CheckingCandidate(i) = stage {
        next_candidate_is_nonempty(c, i + 1);
    }
}

/// Whatever the machine answers (no compiler anywhere included), a search
/// that is given an answer for each probe ends, within `2n + 2` probes for
/// `n` candidates, with a command that is not empty.
pub proof fn search_always_resolves(stage: LocatorStage, c: Seq<Seq<char>>, answers: Seq<bool>)
    requires
        stage_in_progress(stage, c),
        c.len() <= usize::MAX,
        answers.len() >= probes_left(stage, c.len()),
    ensures
        run_search(stage, c, answers) matches Some((command, _)) && command.len() > 0,
    decreases answers.len(),
{
    resolved_command_is_nonempty(stage, c, answers[0]);
    if transition(stage, c, answers[0]).1 is Probe {
        probing_step_makes_progress(stage, c, answers[0]);
        search_always_resolves(transition(stage, c, answers[0]).0, c, answers.drop_first());
    }
}

/// The search for a compiler among known install locations.
pub struct ToolLocator {
    candidates: Vec<String>,
    stage: LocatorStage,
}

impl ToolLocator {
    /// The install locations, in the order in which they are tried.
    pub closed spec fn candidates(&self) -> Seq<Seq<char>> {
        texts(self.candidates@)
    }

    pub closed spec fn stage(&self) -> LocatorStage {
        self.stage
    }

    /// The stage points into the candidate list.
    pub closed spec fn wf(&self) -> bool {
        match self.stage {
            LocatorStage::CheckingCandidate(i) => i < self.candidates@.len()
                && self.candidates@[i as int]@.len() > 0,
            LocatorStage::VerifyingCandidate(i) => i < self.candidates@.len()
                && self.candidates@[i as int]@.len() > 0,
            _ => true,
        }
    }

    /// An upper bound on the probes still to come.
    pub closed spec fn remaining(&self) -> nat {
        let n = self.candidates@.len();
        match self.stage {
            LocatorStage::ProbingBare => 2 * n + 2,
            LocatorStage::CheckingCandidate(i) => (2 * (n - i) + 1) as nat,
            LocatorStage::VerifyingCandidate(i) => (2 * (n - i)) as nat,
            LocatorStage::Finished => 0,
        }
    }

    /// A search over `candidates`, and its first probe: whether the bare
    /// command runs. Empty candidates are passed over.
    pub fn new(candidates: Vec<String>) -> (r: (ToolLocator, Probe))
        ensures
            r.0.wf(),
            r.0.candidates() == texts(candidates@),
            r.0.stage() == LocatorStage::ProbingBare,
            r.1@ == ProbeView::Version(bare_command()),
    {
        let bare = ResolvedTool::bare();
        (ToolLocator { candidates, stage: LocatorStage::ProbingBare }, Probe::Version(bare.command))
    }

    /// The first candidate that is not empty, after the one at `after`
    /// (from the first where `after` is `None`), as a step.
    fn scan(&mut self, after: Option<usize>) -> (r: LocatorStep)
        requires
            after matches Some(k) ==> k < old(self).candidates@.len(),
        ensures
            final(self).wf(),
            final(self).candidates == old(self).candidates,
            (final(self).stage(), r@) == scan_from(old(self).candidates(), first_after(after)),
            r matches LocatorStep::Resolved(t) ==> t.command@.len() > 0,
            final(self).stage() matches LocatorStage::CheckingCandidate(j) ==> first_after(after)
                <= j,
    {
        let n = self.candidates.len();
        let from: usize = match after {
            Some(k) => k + 1,
            None => 0,
        };
        let mut i: usize = from;
        while i < n
            invariant
                from <= i <= n,
                from == first_after(after),
                n == self.candidates@.len(),
                self.candidates == old(self).candidates,
                next_candidate(texts(self.candidates@), i as int) == next_candidate(
                    texts(self.candidates@),
                    from as int,
                ),
            decreases n - i,
        {
            if self.candidates[i].as_str().is_empty() {
                i = i + 1;
            } else {
                self.stage = LocatorStage::CheckingCandidate(i);
                return LocatorStep::Probe(Probe::Exists(self.candidates[i].clone()));
            }
        }
        self.stage = LocatorStage::Finished;
        LocatorStep::Resolved(ResolvedTool::bare())
    }

    /// Whether the search is over.
    pub fn is_finished(&self) -> (r: bool)
        ensures
            r == (self.stage() == LocatorStage::Finished),
    {
        self.stage == LocatorStage::Finished
    }

    /// Takes the outcome of the last probe and says what comes next. Every
    /// resolved command is non-empty, and each step brings the end of the
    /// search nearer.
    pub fn advance(&mut self, outcome: bool) -> (r: LocatorStep)
        requires
            old(self).wf(),
            old(self).stage() != LocatorStage::Finished,
        ensures
            final(self).wf(),
            final(self).candidates() == old(self).candidates(),
            (final(self).stage(), r@) == transition(old(self).stage(), old(self).candidates(), outcome),
            r matches LocatorStep::Resolved(t) ==> t.command@.len() > 0,
            r is Resolved <==> final(self).stage() == LocatorStage::Finished,
            final(self).remaining() < old(self).remaining(),
    {
        match self.stage {
            LocatorStage::ProbingBare => {
                if outcome {
                    self.stage = LocatorStage::Finished;
                    LocatorStep::Resolved(ResolvedTool::bare())
                } else {
                    self.scan(None)
                }
            },
            LocatorStage::CheckingCandidate(i) => {
                if outcome {
                    self.stage = LocatorStage::VerifyingCandidate(i);
                    LocatorStep::Probe(Probe::Version(self.candidates[i].clone()))
                } else {
                    self.scan(Some(i))
                }
            },
            LocatorStage::VerifyingCandidate(i) => {
                self.stage = LocatorStage::Finished;
                LocatorStep::Resolved(ResolvedTool::from_command(self.candidates[i].clone()))
            },
            LocatorStage::Finished => {
                LocatorStep::Resolved(ResolvedTool::bare())
            },
        }
    }
}

/// The install locations tried after the bare command: on Windows, where
/// MiKTeX puts the compiler under the user's profile (`home`, or the default
/// profile where it is unknown) and under the machine-wide roots. Elsewhere
/// the installers put the compiler on the search path and the list is empty.
pub open spec fn install_paths_spec(home: Option<Seq<char>>, windows: bool) -> Seq<Seq<char>> {
    if windows {
        let h = match home {
            Some(h) => h,
            None => "C:\\Users\\Default"@,
        };
        seq![
            h + "\\AppData\\Local\\Programs\\MiKTeX\\miktex\\bin\\x64\\pdflatex.exe"@,
            "C:\\Program Files\\MiKTeX\\miktex\\bin\\x64\\pdflatex.exe"@,
            "C:\\Program Files (x86)\\MiKTeX\\miktex\\bin\\x64\\pdflatex.exe"@,
            "C:\\MiKTeX\\miktex\\bin\\x64\\pdflatex.exe"@,
        ]
    } else {
        Seq::empty()
    }
}

/// The install locations to search, in order; see `install_paths_spec`.
pub fn known_install_paths(home: Option<&str>, windows: bool) -> (r: Vec<String>)
    ensures
        texts(r@) == install_paths_spec(
            match home {
                Some(h) => Some(h@),
                None => None,
            },
            windows,
        ),
{
    let mut r: Vec<String> = Vec::new();
    if windows {
        let mut profile = match home {
            Some(h) => h.to_owned(),
            None => "C:\\Users\\Default".to_owned(),
        };
        profile.append("\\AppData\\Local\\Programs\\MiKTeX\\miktex\\bin\\x64\\pdflatex.exe");
        r.push(profile);
        r.push("C:\\Program Files\\MiKTeX\\miktex\\bin\\x64\\pdflatex.exe".to_owned());
        r.push("C:\\Program Files (x86)\\MiKTeX\\miktex\\bin\\x64\\pdflatex.exe".to_owned());
        r.push("C:\\MiKTeX\\miktex\\bin\\x64\\pdflatex.exe".to_owned());
    }
    assert(texts(r@) =~= install_paths_spec(
        match home {
            Some(h) => Some(h@),
            None => None,
        },
        windows,
    ));
    r
}

/// The text of an optional string.
pub open spec fn opt_text(o: Option<String>) -> Option<Seq<char>> {
    match o {
        Some(s) => Some(s@),
        None => None,
    }
}

/// Whether the compiler can be used, and where it lives.
#[derive(Debug, Clone)]
pub struct RequirementsStatus {
    pub pdflatex_available: bool,
    pub pdflatex_path: Option<String>,
    pub all_satisfied: bool,
}

/// The probe that tells whether `tool` is available: a path must exist, a
/// bare command must run.
pub fn availability_probe(tool: &ResolvedTool) -> (r: Probe)
    ensures
        r@ == if tool.qualified {
            ProbeView::Exists(tool.command@)
        } else {
            ProbeView::Version(tool.command@)
        },
{
    if tool.qualified {
        Probe::Exists(tool.command.clone())
    } else {
        Probe::Version(tool.command.clone())
    }
}

/// Whether `command` is the bare command name.
fn is_bare_command(command: &str) -> (r: bool)
    ensures
        r == (command@ == bare_command()),
{
    let c = chars_of(command);
    let bare = vec!['p', 'd', 'f', 'l', 'a', 't', 'e', 'x'];
    assert(bare@ =~= bare_command());
    let r = c.len() == bare.len() && starts_with_chars(&c, &bare);
    assert(r ==> c@ =~= c@.take(bare@.len() as int));
    assert(c@ == bare_command() ==> c@.take(bare@.len() as int) =~= bare@);
    r
}

/// The path that a search-path lookup (`which`, `where`) printed: its output
/// (or only its first line), trimmed; none where that is empty.
pub open spec fn lookup_path(output: Seq<char>, first_line_only: bool) -> Option<Seq<char>> {
    let t = trim(
        if first_line_only {
            output.subrange(0, line_end(output, 0))
        } else {
            output
        },
    );
    if t.len() == 0 {
        None
    } else {
        Some(t)
    }
}

/// `lookup_path` on executable text.
pub fn path_from_lookup(output: &str, first_line_only: bool) -> (r: Option<String>)
    ensures
        opt_text(r) == lookup_path(output@, first_line_only),
{
    let c = chars_of(output);
    let n = c.len();
    let mut end: usize = n;
    if first_line_only {
        end = 0;
        while end < n && c[end] != '\n'
            invariant
                end <= n,
                n == c@.len(),
                line_end(c@, end as int) == line_end(c@, 0),
            decreases n - end,
        {
            end = end + 1;
        }
    }
    let line = crate::text::sub_chars(&c, 0, end);
    assert(c@.subrange(0, n as int) =~= c@);
    let (a, b) = trim_bounds(&line, 0);
    assert(line@.subrange(0, line@.len() as int) =~= line@);
    if a == b {
        None
    } else {
        Some(string_of(&line, a, b))
    }
}

impl RequirementsStatus {
    /// Whether the status needs a search-path lookup to say where the
    /// compiler lives: it is available as a bare command.
    pub fn needs_lookup(tool: &ResolvedTool, available: bool) -> (r: bool)
        ensures
            r == (available && tool.command@ == bare_command()),
    {
        available && is_bare_command(tool.command.as_str())
    }

    /// The status of `tool`, given the outcome of its `availability_probe`
    /// and, where `needs_lookup` held, the output of the lookup (`None` where
    /// it failed). A qualified tool's path is its command.
    pub fn from_probes(
        tool: &ResolvedTool,
        available: bool,
        lookup: Option<&str>,
        first_line_only: bool,
    ) -> (r: RequirementsStatus)
        ensures
            r.pdflatex_available == available,
            r.all_satisfied == available,
            opt_text(r.pdflatex_path) == if !available {
                None
            } else if tool.command@ == bare_command() {
                match lookup {
                    Some(out) => lookup_path(out@, first_line_only),
                    None => None,
                }
            } else {
                Some(tool.command@)
            },
    {
        let pdflatex_path = if !available {
            None
        } else if is_bare_command(tool.command.as_str()) {
            match lookup {
                Some(out) => path_from_lookup(out, first_line_only),
                None => None,
            }
        } else {
            Some(tool.command.clone())
        };
        RequirementsStatus { pdflatex_available: available, pdflatex_path, all_satisfied: available }
    }
}

} // verus!
