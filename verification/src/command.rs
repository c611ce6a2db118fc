//! The boundary between the verified lifecycle logic and the world: the
//! actions the logic asks its caller to perform, and the events the caller
//! reports back. Both sides are plain values.
use vstd::prelude::*;

verus! {

/// Spec-level shape of an external command invocation.
pub struct CommandV {
    pub program: Seq<char>,
    pub args: Seq<Seq<char>>,
    pub cwd: Option<Seq<char>>,
}

/// An external command for the caller to run: a program, its arguments, and
/// an optional working directory.
#[derive(Debug)]
pub struct LaunchCommand {
    pub program: String,
    pub args: Vec<String>,
    pub cwd: Option<String>,
}

impl View for LaunchCommand {
    type V = CommandV;

    open spec fn view(&self) -> CommandV {
        CommandV {
            program: self.program@,
            args: self.args.deep_view(),
            cwd: match self.cwd {
                Some(s) => Some(s@),
                None => None,
            },
        }
    }
}

/// What became of one attempt to run an external command: it either could
/// not be started, or it terminated, with an exit code unless it was ended
/// abnormally.
#[derive(Clone, Copy, Debug)]
pub enum ProcOutcome {
    NoSpawn,
    Exited(Option<i32>),
}

impl ProcOutcome {
    /// An external tool succeeded exactly when it exited with code zero.
    pub open spec fn success(self) -> bool {
        self == ProcOutcome::Exited(Some(0i32))
    }
}

/// Spec-level shape of an action.
pub enum ActionV {
    CheckExists(Seq<char>),
    Run(CommandV),
    WriteFile { path: Seq<char>, contents: Seq<char> },
    MakeDirAll(Seq<char>),
}

impl ActionV {
    /// Existence checks read the filesystem; every other action mutates the
    /// world (runs a process, writes a file, creates directories).
    pub open spec fn mutates(self) -> bool {
        !(self is CheckExists)
    }
}

/// One step of outside work the lifecycle asks its caller to perform.
#[derive(Debug)]
pub enum Action {
    /// Report whether a path exists.
    CheckExists(String),
    /// Run a command to completion and report its outcome.
    Run(LaunchCommand),
    /// Write a whole file and report whether the write succeeded.
    WriteFile { path: String, contents: String },
    /// Create a directory and its parents and report whether that succeeded.
    MakeDirAll(String),
}

impl View for Action {
    type V = ActionV;

    open spec fn view(&self) -> ActionV {
        match self {
            Action::CheckExists(p) => ActionV::CheckExists(p@),
            Action::Run(c) => ActionV::Run(c@),
            Action::WriteFile { path, contents } => ActionV::WriteFile {
                path: path@,
                contents: contents@,
            },
            Action::MakeDirAll(p) => ActionV::MakeDirAll(p@),
        }
    }
}

/// The caller's report on the action it was asked to perform.
#[derive(Clone, Copy, Debug)]
pub enum Event {
    /// Answer to `CheckExists`.
    Exists(bool),
    /// Answer to `Run`.
    Process(ProcOutcome),
    /// Answer to `WriteFile`.
    FileWritten(bool),
    /// Answer to `MakeDirAll`.
    DirMade(bool),
}

} // verus!
