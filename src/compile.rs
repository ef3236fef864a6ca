//! One build of a LaTeX document, from its source file to a PDF.
//!
//! A build creates its output directory, resolves the compiler, runs it on
//! the source, and then looks for the PDF that the run should have left in
//! the output directory. The compiler's exit status does not count: it
//! fails on mere warnings. Where the PDF is there, it may be copied beside
//! the source, and the build succeeds once the copy has succeeded.
//!
//! `BuildSession` makes those decisions. The caller performs each
//! `BuildAction` and hands back what came of it as a `BuildEvent`, with the
//! time since the build started.
use vstd::prelude::*;

use crate::locator::{opt_text, texts, ResolvedTool};
use crate::paths::{
    file_stem_of, has_no_slash, is_child_named, is_parent_text, is_plain_name, join, parent_of,
};

verus! {

/// The outcome of one build.
#[derive(Debug, Clone)]
pub struct BuildResult {
    pub success: bool,
    /// Where the PDF is, on success.
    pub pdf_path: Option<String>,
    /// What the compiler wrote to its standard output, then to its standard
    /// error.
    pub log: String,
    pub duration_ms: u64,
    /// Why the build failed, on failure.
    pub error_message: Option<String>,
}

/// A `BuildResult`, with its text as characters.
pub ghost struct BuildResultView {
    pub success: bool,
    pub pdf_path: Option<Seq<char>>,
    pub log: Seq<char>,
    pub duration_ms: u64,
    pub error_message: Option<Seq<char>>,
}

impl View for BuildResult {
    type V = BuildResultView;

    open spec fn view(&self) -> BuildResultView {
        BuildResultView {
            success: self.success,
            pdf_path: opt_text(self.pdf_path),
            log: self.log@,
            duration_ms: self.duration_ms,
            error_message: opt_text(self.error_message),
        }
    }
}

impl BuildResultView {
    /// A successful result names the PDF and no error; a failed one names an
    /// error and no PDF.
    pub open spec fn is_consistent(self) -> bool {
        &&& self.success == (self.pdf_path is Some)
        &&& self.success == (self.error_message is None)
    }
}

/// The successful result with the PDF at `pdf_path`.
pub open spec fn success_view(pdf_path: Seq<char>, log: Seq<char>, duration_ms: u64) -> BuildResultView {
    BuildResultView { success: true, pdf_path: Some(pdf_path), log, duration_ms, error_message: None }
}

/// The failed result for the reason `error`.
pub open spec fn failure_view(error: Seq<char>, log: Seq<char>, duration_ms: u64) -> BuildResultView {
    BuildResultView { success: false, pdf_path: None, log, duration_ms, error_message: Some(error) }
}

impl BuildResult {
    /// A successful build, whose PDF is at `pdf_path`.
    pub fn succeeded(pdf_path: String, log: String, duration_ms: u64) -> (r: BuildResult)
        ensures
            r@ == success_view(pdf_path@, log@, duration_ms),
            r@.is_consistent(),
    {
        BuildResult { success: true, pdf_path: Some(pdf_path), log, duration_ms, error_message: None }
    }

    /// A failed build, for the reason `error`.
    pub fn failed(error: String, log: String, duration_ms: u64) -> (r: BuildResult)
        ensures
            r@ == failure_view(error@, log@, duration_ms),
            r@.is_consistent(),
    {
        BuildResult { success: false, pdf_path: None, log, duration_ms, error_message: Some(error) }
    }
}

/// Of a consistent result, success means exactly that there is a PDF and no
/// error.
pub proof fn success_iff_pdf_and_no_error(r: BuildResultView)
    requires
        r.is_consistent(),
    ensures
        r.success <==> (r.pdf_path is Some && r.error_message is None),
{
}

/// The name of the PDF built from a source whose file stem is `stem`: the
/// stem with the extension `pdf`, or `output.pdf` where there is no stem.
pub open spec fn artifact_name_spec(stem: Option<Seq<char>>) -> Seq<char> {
    match stem {
        Some(s) => s + ".pdf"@,
        None => "output.pdf"@,
    }
}

/// The name of the PDF built from a source whose file stem is `stem`.
pub fn artifact_name(stem: Option<String>) -> (r: String)
    ensures
        r@ == artifact_name_spec(opt_text(stem)),
{
    match stem {
        Some(s) => {
            let mut r = s;
            r.append(".pdf");
            r
        },
        None => "output.pdf".to_owned(),
    }
}

/// `prefix` followed by `text`.
fn prefixed(prefix: &str, text: &str) -> (r: String)
    ensures
        r@ == prefix@ + text@,
{
    let mut r = prefix.to_owned();
    r.append(text);
    r
}

/// The arguments of the compiler: no interaction, output into `out_dir`,
/// and the source last.
pub open spec fn arguments_spec(out_dir: Seq<char>, source: Seq<char>) -> Seq<Seq<char>> {
    seq!["-interaction=nonstopmode"@, "-output-directory="@ + out_dir, source]
}

/// The arguments with which the compiler is run on `source`.
pub fn compiler_arguments(out_dir: &str, source: &str) -> (r: Vec<String>)
    ensures
        texts(r@) == arguments_spec(out_dir@, source@),
{
    let mut r: Vec<String> = Vec::new();
    r.push("-interaction=nonstopmode".to_owned());
    r.push(prefixed("-output-directory=", out_dir));
    r.push(source.to_owned());
    assert(texts(r@) =~= arguments_spec(out_dir@, source@));
    r
}

/// The log of a run: its standard output, a line break, its standard error.
pub fn combined_log(stdout: &str, stderr: &str) -> (r: String)
    ensures
        r@ == stdout@ + "\n"@ + stderr@,
{
    let mut r = stdout.to_owned();
    r.append("\n");
    r.append(stderr);
    r
}

/// The reason given when the output directory cannot be created: the
/// scratch directory of a build that copies its PDF, else the output
/// directory.
pub open spec fn directory_error(e: Seq<char>, relocate: bool) -> Seq<char> {
    if relocate {
        "Failed to create build directory: "@ + e
    } else {
        "Failed to create output directory: "@ + e
    }
}

/// The reason given when the compiler cannot be started; a build that
/// copies its PDF adds a hint on installing the compiler.
pub open spec fn spawn_error(e: Seq<char>, relocate: bool) -> Seq<char> {
    if relocate {
        "Failed to run pdflatex: "@ + e + ". Make sure TeX Live or MiKTeX is installed."@
    } else {
        "Failed to run pdflatex: "@ + e
    }
}

/// The reason given when the compiler left no PDF.
pub open spec fn no_artifact_error() -> Seq<char> {
    "Compilation failed - no PDF generated"@
}

/// The reason given when the PDF cannot be copied beside the source.
pub open spec fn copy_error(e: Seq<char>) -> Seq<char> {
    "Failed to copy PDF: "@ + e
}

/// The reason given when the build was cancelled.
pub open spec fn cancel_error() -> Seq<char> {
    "Build cancelled"@
}

/// What the caller does next for a build.
#[derive(Debug, Clone)]
pub enum BuildAction {
    /// Create this directory, with any missing parents.
    CreateDirectory(String),
    /// Resolve the compiler (see `ToolLocator`).
    ResolveTool,
    /// Run `program` with `arguments`, capturing its output. Where
    /// `search_dir` is set, the child alone gets it put in front of its
    /// executable search path.
    Run { program: String, arguments: Vec<String>, search_dir: Option<String> },
    /// Does a file exist at this path?
    CheckArtifact(String),
    /// Copy the file at `from` to `to`, replacing any file there.
    Copy { from: String, to: String },
    /// The build is over.
    Finish(BuildResult),
}

/// A `BuildAction`, with its text as characters.
pub ghost enum BuildActionView {
    CreateDirectory(Seq<char>),
    ResolveTool,
    Run(Seq<char>, Seq<Seq<char>>, Option<Seq<char>>),
    CheckArtifact(Seq<char>),
    Copy(Seq<char>, Seq<char>),
    Finish(BuildResultView),
}

impl View for BuildAction {
    type V = BuildActionView;

    open spec fn view(&self) -> BuildActionView {
        match self {
            BuildAction::CreateDirectory(d) => BuildActionView::CreateDirectory(d@),
            BuildAction::ResolveTool => BuildActionView::ResolveTool,
            BuildAction::Run { program, arguments, search_dir } => BuildActionView::Run(
                program@,
                texts(arguments@),
                opt_text(*search_dir),
            ),
            BuildAction::CheckArtifact(p) => BuildActionView::CheckArtifact(p@),
            BuildAction::Copy { from, to } => BuildActionView::Copy(from@, to@),
            BuildAction::Finish(r) => BuildActionView::Finish(r@),
        }
    }
}

/// What came of a `BuildAction`.
#[derive(Debug, Clone)]
pub enum BuildEvent {
    DirectoryCreated,
    DirectoryFailed(String),
    ToolResolved(ResolvedTool),
    /// The compiler ran to its end, whatever its exit status.
    ProcessExited { stdout: String, stderr: String },
    /// The compiler could not be started.
    SpawnFailed(String),
    ArtifactChecked(bool),
    Copied,
    CopyFailed(String),
    /// The caller gave up on the build.
    Cancelled,
}

/// Where a build stands.
#[derive(Debug, Clone, Copy, PartialEq, Eq, Structural)]
pub enum BuildStage {
    CreatingDirectory,
    ResolvingTool,
    Running,
    CheckingArtifact,
    Copying,
    Done,
}

/// The stage that waits for `event`; `Cancelled` is taken at every stage
/// but the last.
pub open spec fn accepts_spec(stage: BuildStage, event: BuildEvent) -> bool {
    match event {
        BuildEvent::DirectoryCreated | BuildEvent::DirectoryFailed(_) => stage
            == BuildStage::CreatingDirectory,
        BuildEvent::ToolResolved(_) => stage == BuildStage::ResolvingTool,
        BuildEvent::ProcessExited { .. } | BuildEvent::SpawnFailed(_) => stage
            == BuildStage::Running,
        BuildEvent::ArtifactChecked(_) => stage == BuildStage::CheckingArtifact,
        BuildEvent::Copied | BuildEvent::CopyFailed(_) => stage == BuildStage::Copying,
        BuildEvent::Cancelled => stage != BuildStage::Done,
    }
}

/// The stage a build moves to on `event`.
pub open spec fn next_stage(event: BuildEvent, relocate: bool) -> BuildStage {
    match event {
        BuildEvent::DirectoryCreated => BuildStage::ResolvingTool,
        BuildEvent::ToolResolved(_) => BuildStage::Running,
        BuildEvent::ProcessExited { .. } => BuildStage::CheckingArtifact,
        BuildEvent::ArtifactChecked(found) => if found && relocate {
            BuildStage::Copying
        } else {
            BuildStage::Done
        },
        _ => BuildStage::Done,
    }
}

/// Where the PDF of a build goes, given the source's file stem `stem` and
/// directory part `parent`: it is named after the stem (see
/// `artifact_name_spec`); the compiler leaves it in `out_dir`; it is
/// copied into `parent`, or to the bare name where the source has no
/// directory part. The joins are stated for a plain name, as `join` is.
pub open spec fn is_placement(
    name: Seq<char>,
    artifact: Seq<char>,
    destination: Seq<char>,
    stem: Option<Seq<char>>,
    parent: Option<Seq<char>>,
    out_dir: Seq<char>,
) -> bool {
    &&& name == artifact_name_spec(stem)
    &&& is_plain_name(name) ==> is_child_named(artifact, out_dir, name)
    &&& match parent {
        Some(p) => is_plain_name(name) ==> is_child_named(destination, p, name),
        None => destination == name,
    }
}

/// `stem` and `parent` are what std can give as the file stem and the
/// directory part of `source`: a non-empty stem without `/`, and a leading
/// part of `source` shorter than it.
pub open spec fn are_source_parts(
    stem: Option<Seq<char>>,
    parent: Option<Seq<char>>,
    source: Seq<char>,
) -> bool {
    &&& stem matches Some(s) ==> s.len() > 0 && has_no_slash(s)
    &&& parent matches Some(p) ==> is_parent_text(p, source)
}

/// The directory put in front of the compiler's search path: the directory
/// `parent` of a qualified tool; none for a bare command.
pub fn search_dir_for(tool: &ResolvedTool, parent: Option<String>) -> (r: Option<String>)
    ensures
        opt_text(r) == if tool.qualified {
            opt_text(parent)
        } else {
            None
        },
{
    if tool.qualified {
        parent
    } else {
        None
    }
}

/// A build in progress.
pub struct BuildSession {
    source: String,
    out_dir: String,
    relocate: bool,
    name: String,
    artifact: String,
    destination: String,
    log: String,
    stage: BuildStage,
}

impl BuildSession {
    /// The source file.
    pub closed spec fn source(&self) -> Seq<char> {
        self.source@
    }

    /// The directory that the compiler writes into.
    pub closed spec fn out_dir(&self) -> Seq<char> {
        self.out_dir@
    }

    /// Whether the PDF is copied beside the source.
    pub closed spec fn relocate(&self) -> bool {
        self.relocate
    }

    /// The file name of the PDF.
    pub closed spec fn name(&self) -> Seq<char> {
        self.name@
    }

    /// Where the compiler should leave the PDF.
    pub closed spec fn artifact(&self) -> Seq<char> {
        self.artifact@
    }

    /// Where the PDF is copied: beside the source, under the same name.
    pub closed spec fn destination(&self) -> Seq<char> {
        self.destination@
    }

    /// What the compiler printed, once it has run.
    pub closed spec fn log(&self) -> Seq<char> {
        self.log@
    }

    pub closed spec fn stage(&self) -> BuildStage {
        self.stage
    }

    /// A build of `source` into `out_dir`, whose file stem is `stem` and
    /// whose directory part is `parent`, and its first action: create
    /// `out_dir`. The PDF is placed as `is_placement` says. Where `relocate`
    /// holds, it is copied beside the source once built.
    pub fn from_parts(
        source: &str,
        out_dir: &str,
        relocate: bool,
        stem: Option<String>,
        parent: Option<String>,
    ) -> (r: (BuildSession, BuildAction))
        ensures
            r.0.source() == source@,
            r.0.out_dir() == out_dir@,
            r.0.relocate() == relocate,
            r.0.log() == Seq::<char>::empty(),
            r.0.stage() == BuildStage::CreatingDirectory,
            r.1@ == BuildActionView::CreateDirectory(out_dir@),
            is_placement(
                r.0.name(),
                r.0.artifact(),
                r.0.destination(),
                opt_text(stem),
                opt_text(parent),
                out_dir@,
            ),
    {
        let name = artifact_name(stem);
        let artifact = join(out_dir, name.as_str());
        let destination = match parent {
            Some(dir) => join(dir.as_str(), name.as_str()),
            None => name.clone(),
        };
        let session = BuildSession {
            source: source.to_owned(),
            out_dir: out_dir.to_owned(),
            relocate,
            name,
            artifact,
            destination,
            log: String::new(),
            stage: BuildStage::CreatingDirectory,
        };
        (session, BuildAction::CreateDirectory(out_dir.to_owned()))
    }

    /// A build of `source` into `out_dir` (see `from_parts`), with the file
    /// stem and directory part that std reads from `source`.
    pub fn new(source: &str, out_dir: &str, relocate: bool) -> (r: (BuildSession, BuildAction))
        ensures
            r.0.source() == source@,
            r.0.out_dir() == out_dir@,
            r.0.relocate() == relocate,
            r.0.log() == Seq::<char>::empty(),
            r.0.stage() == BuildStage::CreatingDirectory,
            r.1@ == BuildActionView::CreateDirectory(out_dir@),
            exists|stem: Option<Seq<char>>, parent: Option<Seq<char>>|
                #[trigger] are_source_parts(stem, parent, source@) && is_placement(
                    r.0.name(),
                    r.0.artifact(),
                    r.0.destination(),
                    stem,
                    parent,
                    out_dir@,
                ),
    {
        let stem = file_stem_of(source);
        let parent = parent_of(source);
        let r = BuildSession::from_parts(source, out_dir, relocate, stem, parent);
        assert(are_source_parts(opt_text(stem), opt_text(parent), source@));
        r
    }

    /// Whether the build waits for `event` now.
    pub fn accepts(&self, event: &BuildEvent) -> (r: bool)
        ensures
            r == accepts_spec(self.stage(), *event),
    {
        match event {
            BuildEvent::DirectoryCreated | BuildEvent::DirectoryFailed(_) => self.stage
                == BuildStage::CreatingDirectory,
            BuildEvent::ToolResolved(_) => self.stage == BuildStage::ResolvingTool,
            BuildEvent::ProcessExited { .. } | BuildEvent::SpawnFailed(_) => self.stage
                == BuildStage::Running,
            BuildEvent::ArtifactChecked(_) => self.stage == BuildStage::CheckingArtifact,
            BuildEvent::Copied | BuildEvent::CopyFailed(_) => self.stage == BuildStage::Copying,
            BuildEvent::Cancelled => self.stage != BuildStage::Done,
        }
    }

    /// Ends the build with `result`.
    fn finish(&mut self, result: BuildResult) -> (r: BuildAction)
        ensures
            final(self).stage() == BuildStage::Done,
            final(self).source() == old(self).source(),
            final(self).out_dir() == old(self).out_dir(),
            final(self).relocate() == old(self).relocate(),
            final(self).name() == old(self).name(),
            final(self).artifact() == old(self).artifact(),
            final(self).destination() == old(self).destination(),
            final(self).log() == old(self).log(),
            r@ == BuildActionView::Finish(result@),
    {
        self.stage = BuildStage::Done;
        BuildAction::Finish(result)
    }

    /// Takes what came of the last action, `elapsed_ms` after the build
    /// started, and says what comes next. Every result it ends with is
    /// consistent, and a PDF is reported only once it is where the caller
    /// expects it.
    pub fn advance(&mut self, event: BuildEvent, elapsed_ms: u64) -> (r: BuildAction)
        requires
            accepts_spec(old(self).stage(), event),
        ensures
            final(self).source() == old(self).source(),
            final(self).out_dir() == old(self).out_dir(),
            final(self).relocate() == old(self).relocate(),
            final(self).name() == old(self).name(),
            final(self).artifact() == old(self).artifact(),
            final(self).destination() == old(self).destination(),
            final(self).stage() == next_stage(event, old(self).relocate()),
            !(event is ProcessExited) ==> final(self).log() == old(self).log(),
            r is Finish <==> final(self).stage() == BuildStage::Done,
            r matches BuildAction::Finish(res) ==> res@.is_consistent(),
            match event {
                BuildEvent::DirectoryCreated => r@ == BuildActionView::ResolveTool,
                BuildEvent::DirectoryFailed(e) => r@ == BuildActionView::Finish(
                    failure_view(directory_error(e@, old(self).relocate()), Seq::empty(), elapsed_ms),
                ),
                BuildEvent::ToolResolved(t) => r matches BuildAction::Run {
                    program,
                    arguments,
                    search_dir,
                } && program@ == t.command@ && texts(arguments@) == arguments_spec(
                    old(self).out_dir(),
                    old(self).source(),
                ) && (!t.qualified ==> search_dir is None) && (search_dir matches Some(d)
                    ==> t.qualified && is_parent_text(d@, t.command@)),
                BuildEvent::ProcessExited { stdout, stderr } => r@
                    == BuildActionView::CheckArtifact(old(self).artifact()) && final(self).log()
                    == stdout@ + "\n"@ + stderr@,
                BuildEvent::SpawnFailed(e) => r@ == BuildActionView::Finish(
                    failure_view(spawn_error(e@, old(self).relocate()), Seq::empty(), elapsed_ms),
                ),
                BuildEvent::ArtifactChecked(found) => r@ == if !found {
                    BuildActionView::Finish(
                        failure_view(no_artifact_error(), old(self).log(), elapsed_ms),
                    )
                } else if old(self).relocate() {
                    BuildActionView::Copy(old(self).artifact(), old(self).destination())
                } else {
                    BuildActionView::Finish(
                        success_view(old(self).artifact(), old(self).log(), elapsed_ms),
                    )
                },
                BuildEvent::Copied => r@ == BuildActionView::Finish(
                    success_view(old(self).destination(), old(self).log(), elapsed_ms),
                ),
                BuildEvent::CopyFailed(e) => r@ == BuildActionView::Finish(
                    failure_view(copy_error(e@), old(self).log(), elapsed_ms),
                ),
                BuildEvent::Cancelled => r@ == BuildActionView::Finish(
                    failure_view(cancel_error(), old(self).log(), elapsed_ms),
                ),
            },
    {
        match event {
            BuildEvent::DirectoryCreated => {
                self.stage = BuildStage::ResolvingTool;
                BuildAction::ResolveTool
            },
            BuildEvent::DirectoryFailed(e) => {
                let error = if self.relocate {
                    prefixed("Failed to create build directory: ", e.as_str())
                } else {
                    prefixed("Failed to create output directory: ", e.as_str())
                };
                self.finish(BuildResult::failed(error, String::new(), elapsed_ms))
            },
            BuildEvent::ToolResolved(tool) => {
                let parent = if tool.qualified {
                    parent_of(tool.command.as_str())
                } else {
                    None
                };
                let search_dir = search_dir_for(&tool, parent);
                let arguments = compiler_arguments(self.out_dir.as_str(), self.source.as_str());
                self.stage = BuildStage::Running;
                BuildAction::Run { program: tool.command, arguments, search_dir }
            },
            BuildEvent::ProcessExited { stdout, stderr } => {
                self.log = combined_log(stdout.as_str(), stderr.as_str());
                self.stage = BuildStage::CheckingArtifact;
                BuildAction::CheckArtifact(self.artifact.clone())
            },
            BuildEvent::SpawnFailed(e) => {
                let mut error = prefixed("Failed to run pdflatex: ", e.as_str());
                if self.relocate {
                    error.append(". Make sure TeX Live or MiKTeX is installed.");
                }
                self.finish(BuildResult::failed(error, String::new(), elapsed_ms))
            },
            BuildEvent::ArtifactChecked(found) => {
                if !found {
                    let log = self.log.clone();
                    self.finish(
                        BuildResult::failed(
                            "Compilation failed - no PDF generated".to_owned(),
                            log,
                            elapsed_ms,
                        ),
                    )
                } else if self.relocate {
                    self.stage = BuildStage::Copying;
                    BuildAction::Copy { from: self.artifact.clone(), to: self.destination.clone() }
                } else {
                    let log = self.log.clone();
                    let artifact = self.artifact.clone();
                    self.finish(BuildResult::succeeded(artifact, log, elapsed_ms))
                }
            },
            BuildEvent::Copied => {
                let log = self.log.clone();
                let destination = self.destination.clone();
                self.finish(BuildResult::succeeded(destination, log, elapsed_ms))
            },
            BuildEvent::CopyFailed(e) => {
                let log = self.log.clone();
                let error = prefixed("Failed to copy PDF: ", e.as_str());
                self.finish(BuildResult::failed(error, log, elapsed_ms))
            },
            BuildEvent::Cancelled => {
                let log = self.log.clone();
                self.finish(BuildResult::failed("Build cancelled".to_owned(), log, elapsed_ms))
            },
        }
    }
}

} // verus!
