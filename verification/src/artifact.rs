//! Build adapter for the primary target platform: the project's native
//! build tool is run in the source tree, and the executable artifact is
//! expected at a fixed relative path afterwards. The tool itself is run by
//! the caller; success means exit code zero.
use vstd::prelude::*;

use crate::command::{CommandV, LaunchCommand, ProcOutcome};
use crate::error::Error;
use crate::paths::{join, join_v};

verus! {

/// Spec-level shape of a build artifact: the path of the executable.
#[verifier::ext_equal]
pub struct BinaryV {
    pub path: Seq<char>,
}

/// The command that builds the source tree at `location`.
pub open spec fn compile_command_v(location: Seq<char>) -> CommandV {
    CommandV { program: "scons"@, args: Seq::empty(), cwd: Some(location) }
}

/// Where a successful build of `location` leaves its executable.
pub open spec fn artifact_path_v(location: Seq<char>) -> Seq<char> {
    join_v(location, "endless-sky"@)
}

/// The compiled executable of one instance, named by its path.
#[derive(Debug)]
pub struct Binary {
    path: String,
}

impl View for Binary {
    type V = BinaryV;

    closed spec fn view(&self) -> BinaryV {
        BinaryV { path: self.path@ }
    }
}

impl Clone for Binary {
    fn clone(&self) -> (r: Self)
        ensures
            r@ == self@,
    {
        Binary { path: self.path.clone() }
    }
}

impl PartialEq for Binary {
    fn eq(&self, other: &Self) -> bool {
        self.path == other.path
    }
}

impl vstd::std_specs::cmp::PartialEqSpecImpl for Binary {
    open spec fn obeys_eq_spec() -> bool {
        true
    }

    open spec fn eq_spec(&self, other: &Self) -> bool {
        self@ == other@
    }
}

impl Binary {
    /// Names an executable by its path; nothing about the filesystem is
    /// checked here — the repair pass re-validates it.
    pub fn new(path: String) -> (b: Binary)
        ensures
            b@.path == path@,
    {
        Binary { path }
    }

    /// The command that runs the build tool in `location`.
    pub fn compile_command(location: &str) -> (c: LaunchCommand)
        ensures
            c@ == compile_command_v(location@),
    {
        let c = LaunchCommand {
            program: String::from_str("scons"),
            args: Vec::new(),
            cwd: Some(String::from_str(location)),
        };
        proof {
            assert(c@.args =~= Seq::<Seq<char>>::empty());
        }
        c
    }

    /// Reads the outcome of the build command.
    pub fn compile_result(outcome: ProcOutcome) -> (r: Result<(), Error>)
        ensures
            outcome.success() ==> r matches Ok(_),
            outcome matches ProcOutcome::NoSpawn ==> r == Err::<(), Error>(Error::SpawnFailed),
            !outcome.success() && !(outcome matches ProcOutcome::NoSpawn) ==> r == Err::<(), Error>(
                Error::CompileFailed,
            ),
    {
        match outcome {
            ProcOutcome::NoSpawn => Err(Error::SpawnFailed),
            ProcOutcome::Exited(Some(0i32)) => Ok(()),
            ProcOutcome::Exited(_) => Err(Error::CompileFailed),
        }
    }

    /// The fixed relative path at which the artifact of a build of
    /// `location` is expected.
    pub fn artifact_path(location: &str) -> (p: String)
        ensures
            p@ == artifact_path_v(location@),
    {
        join(location, "endless-sky")
    }

    /// Adopts the artifact a reported-successful build should have left at
    /// `path`; `path_exists` is the caller's reading of the filesystem.
    pub fn locate(path: String, path_exists: bool) -> (r: Result<Binary, Error>)
        ensures
            path_exists ==> (r matches Ok(b) && b@.path == path@),
            !path_exists ==> r == Err::<Binary, Error>(Error::ArtifactMissing),
    {
        if path_exists {
            Ok(Binary { path })
        } else {
            Err(Error::ArtifactMissing)
        }
    }

    /// The command that starts this executable directly, with no arguments
    /// yet.
    pub fn command(&self) -> (c: LaunchCommand)
        ensures
            c@ == (CommandV { program: self@.path, args: Seq::empty(), cwd: None }),
    {
        let c = LaunchCommand { program: self.path.clone(), args: Vec::new(), cwd: None };
        proof {
            assert(c@.args =~= Seq::<Seq<char>>::empty());
        }
        c
    }

    /// The path of the executable.
    pub fn file(&self) -> (r: &str)
        ensures
            r@ == self@.path,
    {
        self.path.as_str()
    }
}

} // verus!
