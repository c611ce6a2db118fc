//! Lifecycle manager for isolated local instances of a game, each pinned to
//! a version-control reference, built from source, and launched with its own
//! save-data directory.
//!
//! The crate is pure: every decision of the lifecycle — which command to run
//! next, which path to probe, how to interpret an exit status, what to write
//! into the durable descriptor — is a verified function from plain values to
//! plain values. The caller performs the filesystem and process work those
//! decisions name and feeds the observed outcome back in as an event.
use vstd::prelude::*;

pub mod artifact;
pub mod command;
pub mod descriptor;
pub mod error;
pub mod lifecycle;
pub mod model;
pub mod paths;
pub mod repo;
pub mod version;

use crate::artifact::Binary;
use crate::command::{CommandV, LaunchCommand, ProcOutcome};
use crate::error::Error;
use crate::model::InstanceV;
use crate::version::RepoVersion;

verus! {

/// The command that launches instance `i`: its executable, pointed at the
/// instance's own save-data directory.
pub open spec fn launch_command_v(i: InstanceV) -> CommandV {
    CommandV { program: i.binary.path, args: seq!["-c"@, i.data], cwd: None }
}

/// The persisted unit: one independently buildable, launchable,
/// save-isolated copy of the game, pinned to a version descriptor.
#[derive(Debug)]
pub struct Instance {
    pub name: String,
    data: String,
    version: RepoVersion,
    binary: Binary,
}

impl View for Instance {
    type V = InstanceV;

    closed spec fn view(&self) -> InstanceV {
        InstanceV { name: self.name@, data: self.data@, version: self.version@, binary: self.binary@ }
    }
}

impl Clone for Instance {
    fn clone(&self) -> (r: Self)
        ensures
            r@ == self@,
    {
        Instance {
            name: self.name.clone(),
            data: self.data.clone(),
            version: self.version.clone(),
            binary: self.binary.clone(),
        }
    }
}

impl PartialEq for Instance {
    fn eq(&self, other: &Self) -> bool {
        self.name == other.name && self.data == other.data && self.version == other.version
            && self.binary == other.binary
    }
}

impl vstd::std_specs::cmp::PartialEqSpecImpl for Instance {
    open spec fn obeys_eq_spec() -> bool {
        true
    }

    open spec fn eq_spec(&self, other: &Self) -> bool {
        self@ == other@
    }
}

impl Instance {
    /// Assembles a record from its four parts; nothing about the filesystem
    /// is checked here.
    pub fn assemble(name: String, data: String, version: RepoVersion, binary: Binary) -> (r: Self)
        ensures
            r@ == (InstanceV { name: name@, data: data@, version: version@, binary: binary@ }),
    {
        Instance { name, data, version, binary }
    }

    /// The instance's name, the key under the instance root.
    pub fn name(&self) -> (r: &str)
        ensures
            r@ == self@.name,
    {
        self.name.as_str()
    }

    /// The instance's save-data directory.
    pub fn data(&self) -> (r: &str)
        ensures
            r@ == self@.data,
    {
        self.data.as_str()
    }

    /// The version descriptor this instance tracks.
    pub fn version(&self) -> (r: &RepoVersion)
        ensures
            r@ == self@.version,
    {
        &self.version
    }

    /// The instance's compiled executable.
    pub fn binary(&self) -> (r: &Binary)
        ensures
            r@ == self@.binary,
    {
        &self.binary
    }

    /// The same record with a different executable.
    pub fn with_binary(self, binary: Binary) -> (r: Self)
        ensures
            r@ == (InstanceV { binary: binary@, ..self@ }),
    {
        Instance { binary, ..self }
    }

    /// The command that starts this instance's executable, directing the
    /// game at the instance's own save-data directory.
    pub fn launch(&self) -> (c: LaunchCommand)
        ensures
            c@ == launch_command_v(self@),
    {
        let mut c = self.binary.command();
        proof {
            assert(c@.args.len() == 0);
            assert(c.args@.len() == 0);
        }
        c.args.push(String::from_str("-c"));
        c.args.push(self.data.clone());
        proof {
            assert(c@.args =~~= seq!["-c"@, self@.data]);
        }
        c
    }

    /// Reads the outcome of the launch command: the game's exit code, or
    /// why there is none.
    pub fn launch_result(outcome: ProcOutcome) -> (r: Result<i32, Error>)
        ensures
            outcome matches ProcOutcome::NoSpawn ==> r == Err::<i32, Error>(Error::SpawnFailed),
            outcome matches ProcOutcome::Exited(None) ==> r == Err::<i32, Error>(Error::NoExitCode),
            outcome matches ProcOutcome::Exited(Some(code)) ==> r == Ok::<i32, Error>(code),
    {
        match outcome {
            ProcOutcome::NoSpawn => Err(Error::SpawnFailed),
            ProcOutcome::Exited(None) => Err(Error::NoExitCode),
            ProcOutcome::Exited(Some(code)) => Ok(code),
        }
    }
}

} // verus!
