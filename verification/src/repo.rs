//! Source control adapter: the commands that clone, open and check out a
//! working tree, and the readings of their outcomes. The version-control
//! tool itself is run by the caller; success means exit code zero.
use vstd::prelude::*;

use crate::command::{CommandV, LaunchCommand, ProcOutcome};
use crate::error::Error;

verus! {

/// The command `git clone <url> <location>`.
pub open spec fn clone_command_v(url: Seq<char>, location: Seq<char>) -> CommandV {
    CommandV { program: "git"@, args: seq!["clone"@, url, location], cwd: None }
}

/// The command `git checkout <refspec>`, run inside `dir`.
pub open spec fn checkout_command_v(dir: Seq<char>, refspec: Seq<char>) -> CommandV {
    CommandV { program: "git"@, args: seq!["checkout"@, refspec], cwd: Some(dir) }
}

/// A version-control working tree on disk, named by its path.
#[derive(Debug)]
pub struct Repository {
    path: String,
}

impl View for Repository {
    type V = Seq<char>;

    closed spec fn view(&self) -> Seq<char> {
        self.path@
    }
}

impl Repository {
    /// The command that creates a working tree at `location` from `url`.
    pub fn clone_command(url: &str, location: &str) -> (c: LaunchCommand)
        ensures
            c@ == clone_command_v(url@, location@),
    {
        let mut args: Vec<String> = Vec::new();
        args.push(String::from_str("clone"));
        args.push(String::from_str(url));
        args.push(String::from_str(location));
        let c = LaunchCommand { program: String::from_str("git"), args, cwd: None };
        proof {
            assert(c@.args =~= seq!["clone"@, url@, location@]);
        }
        c
    }

    /// Reads the outcome of the clone command: the working tree at
    /// `location` exists exactly when the tool exited successfully.
    pub fn clone_result(location: String, outcome: ProcOutcome) -> (r: Result<Repository, Error>)
        ensures
            outcome.success() ==> (r matches Ok(repo) && repo@ == location@),
            outcome matches ProcOutcome::NoSpawn ==> r == Err::<Repository, Error>(
                Error::SpawnFailed,
            ),
            !outcome.success() && !(outcome matches ProcOutcome::NoSpawn) ==> r == Err::<
                Repository,
                Error,
            >(Error::CloneFailed),
    {
        match outcome {
            ProcOutcome::NoSpawn => Err(Error::SpawnFailed),
            ProcOutcome::Exited(Some(0i32)) => Ok(Repository { path: location }),
            ProcOutcome::Exited(_) => Err(Error::CloneFailed),
        }
    }

    /// Wraps an existing working tree; `location_exists` is the caller's
    /// reading of the filesystem. Whether the directory really is a working
    /// tree is not checked.
    pub fn open(location: String, location_exists: bool) -> (r: Result<Repository, Error>)
        ensures
            location_exists ==> (r matches Ok(repo) && repo@ == location@),
            !location_exists ==> r == Err::<Repository, Error>(Error::RepoMissing),
    {
        if location_exists {
            Ok(Repository { path: location })
        } else {
            Err(Error::RepoMissing)
        }
    }

    /// The command that checks out `refspec` inside this working tree. A
    /// branch name, tag name and commit hash are all passed identically.
    pub fn checkout(&self, refspec: &str) -> (c: LaunchCommand)
        ensures
            c@ == checkout_command_v(self@, refspec@),
    {
        let mut args: Vec<String> = Vec::new();
        args.push(String::from_str("checkout"));
        args.push(String::from_str(refspec));
        let c = LaunchCommand {
            program: String::from_str("git"),
            args,
            cwd: Some(self.path.clone()),
        };
        proof {
            assert(c@.args =~= seq!["checkout"@, refspec@]);
        }
        c
    }

    /// Reads the outcome of a checkout command.
    pub fn checkout_result(outcome: ProcOutcome) -> (r: Result<(), Error>)
        ensures
            outcome.success() ==> r matches Ok(_),
            outcome matches ProcOutcome::NoSpawn ==> r == Err::<(), Error>(Error::SpawnFailed),
            !outcome.success() && !(outcome matches ProcOutcome::NoSpawn) ==> r == Err::<(), Error>(
                Error::CheckoutFailed,
            ),
    {
        match outcome {
            ProcOutcome::NoSpawn => Err(Error::SpawnFailed),
            ProcOutcome::Exited(Some(0i32)) => Ok(()),
            ProcOutcome::Exited(_) => Err(Error::CheckoutFailed),
        }
    }

    /// The path of the working tree.
    pub fn location(&self) -> (r: &str)
        ensures
            r@ == self@,
    {
        self.path.as_str()
    }
}

} // verus!
