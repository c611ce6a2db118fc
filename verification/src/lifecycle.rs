//! The instance lifecycle as a state machine. Each operation is a chain of
//! outside steps — probe a path, run a tool, write a file — and the machine
//! decides, from the state so far and the caller's report on the last step,
//! what to do next. The caller loops: perform the action, hand back the
//! event, until the machine is done or has failed.
use vstd::prelude::*;

use crate::artifact::{artifact_path_v, compile_command_v, Binary, BinaryV};
use crate::command::{Action, ActionV, Event, ProcOutcome};
use crate::descriptor::{descriptor_v, parse_descriptor_v};
use crate::error::Error;
use crate::model::{InstanceV, RepoVersionV};
use crate::paths::{join, join_v, lemma_parent_join, parent_of, parent_v};
use crate::repo::{checkout_command_v, clone_command_v, Repository};
use crate::version::RepoVersion;
use crate::Instance;

verus! {

/// Where the repair pass stands: which probe or tool it is waiting on.
pub enum EnsureStepV {
    CheckSaves,
    MakingSaves,
    CheckBinary,
    Recompiling { source: Seq<char> },
    RecheckArtifact { source: Seq<char> },
}

/// Spec-level shape of a repair pass in flight.
#[verifier::ext_equal]
pub struct EnsureV {
    pub record: InstanceV,
    pub step: EnsureStepV,
}

/// What one repair step decides: go on with another action, finish with
/// the (possibly repaired) record, or fail.
pub enum EnsureOutcomeV {
    Continue(EnsureV, ActionV),
    Done(InstanceV),
    Failed(Error),
}

/// The repair pass begins by probing the record's saves directory.
pub open spec fn ensure_start_v(r: InstanceV) -> (EnsureV, ActionV) {
    (
        EnsureV { record: r, step: EnsureStepV::CheckSaves },
        ActionV::CheckExists(join_v(r.data, "saves"@)),
    )
}

/// Which kind of event answers the pending action of a repair step.
pub open spec fn ensure_expects(j: EnsureV, ev: Event) -> bool {
    match j.step {
        EnsureStepV::CheckSaves => ev is Exists,
        EnsureStepV::MakingSaves => ev is DirMade,
        EnsureStepV::CheckBinary => ev is Exists,
        EnsureStepV::Recompiling { .. } => ev is Process,
        EnsureStepV::RecheckArtifact { .. } => ev is Exists,
    }
}

/// The repair pass: create the saves directory when it is missing, and
/// recompile from the sibling source tree when the artifact is missing.
pub open spec fn ensure_step_v(j: EnsureV, ev: Event) -> EnsureOutcomeV {
    match (j.step, ev) {
        (EnsureStepV::CheckSaves, Event::Exists(b)) => if b {
            EnsureOutcomeV::Continue(
                EnsureV { step: EnsureStepV::CheckBinary, ..j },
                ActionV::CheckExists(j.record.binary.path),
            )
        } else {
            EnsureOutcomeV::Continue(
                EnsureV { step: EnsureStepV::MakingSaves, ..j },
                ActionV::MakeDirAll(join_v(j.record.data, "saves"@)),
            )
        },
        (EnsureStepV::MakingSaves, Event::DirMade(b)) => if b {
            EnsureOutcomeV::Continue(
                EnsureV { step: EnsureStepV::CheckBinary, ..j },
                ActionV::CheckExists(j.record.binary.path),
            )
        } else {
            EnsureOutcomeV::Failed(Error::IoFailed)
        },
        (EnsureStepV::CheckBinary, Event::Exists(b)) => if b {
            EnsureOutcomeV::Done(j.record)
        } else {
            match parent_v(j.record.data) {
                None => EnsureOutcomeV::Failed(Error::PathResolutionFailed),
                Some(par) => EnsureOutcomeV::Continue(
                    EnsureV {
                        step: EnsureStepV::Recompiling { source: join_v(par, "endless-sky"@) },
                        ..j
                    },
                    ActionV::Run(compile_command_v(join_v(par, "endless-sky"@))),
                ),
            }
        },
        (EnsureStepV::Recompiling { source }, Event::Process(o)) => if o is NoSpawn {
            EnsureOutcomeV::Failed(Error::SpawnFailed)
        } else if o.success() {
            EnsureOutcomeV::Continue(
                EnsureV { step: EnsureStepV::RecheckArtifact { source }, ..j },
                ActionV::CheckExists(artifact_path_v(source)),
            )
        } else {
            EnsureOutcomeV::Failed(Error::CompileFailed)
        },
        (EnsureStepV::RecheckArtifact { source }, Event::Exists(b)) => if b {
            EnsureOutcomeV::Done(
                InstanceV { binary: BinaryV { path: artifact_path_v(source) }, ..j.record },
            )
        } else {
            EnsureOutcomeV::Failed(Error::ArtifactMissing)
        },
        _ => arbitrary(),
    }
}

/// A repair pass in flight.
#[derive(Debug)]
pub struct EnsureJob {
    record: Instance,
    step: EnsureStep,
}

#[derive(Debug)]
enum EnsureStep {
    CheckSaves,
    MakingSaves,
    CheckBinary,
    Recompiling { source: String },
    RecheckArtifact { source: String },
}

impl View for EnsureJob {
    type V = EnsureV;

    closed spec fn view(&self) -> EnsureV {
        EnsureV {
            record: self.record@,
            step: match &self.step {
                EnsureStep::CheckSaves => EnsureStepV::CheckSaves,
                EnsureStep::MakingSaves => EnsureStepV::MakingSaves,
                EnsureStep::CheckBinary => EnsureStepV::CheckBinary,
                EnsureStep::Recompiling { source } => EnsureStepV::Recompiling {
                    source: source@,
                },
                EnsureStep::RecheckArtifact { source } => EnsureStepV::RecheckArtifact {
                    source: source@,
                },
            },
        }
    }
}

/// What one executed repair step decided.
#[derive(Debug)]
pub enum EnsureOutcome {
    Continue(EnsureJob, Action),
    Done(Instance),
    Failed(Error),
}

impl View for EnsureOutcome {
    type V = EnsureOutcomeV;

    closed spec fn view(&self) -> EnsureOutcomeV {
        match self {
            EnsureOutcome::Continue(j, a) => EnsureOutcomeV::Continue(j@, a@),
            EnsureOutcome::Done(i) => EnsureOutcomeV::Done(i@),
            EnsureOutcome::Failed(e) => EnsureOutcomeV::Failed(*e),
        }
    }
}

impl EnsureJob {
    /// Answers the pending action's event and decides the next step.
    pub fn step(self, ev: Event) -> (r: EnsureOutcome)
        requires
            ensure_expects(self@, ev),
        ensures
            r@ == ensure_step_v(self@, ev),
    {
        let EnsureJob { record, step } = self;
        match (step, ev) {
            (EnsureStep::CheckSaves, Event::Exists(b)) => if b {
                let probe = String::from_str(record.binary().file());
                EnsureOutcome::Continue(
                    EnsureJob { record, step: EnsureStep::CheckBinary },
                    Action::CheckExists(probe),
                )
            } else {
                let saves = join(record.data(), "saves");
                EnsureOutcome::Continue(
                    EnsureJob { record, step: EnsureStep::MakingSaves },
                    Action::MakeDirAll(saves),
                )
            },
            (EnsureStep::MakingSaves, Event::DirMade(b)) => if b {
                let probe = String::from_str(record.binary().file());
                EnsureOutcome::Continue(
                    EnsureJob { record, step: EnsureStep::CheckBinary },
                    Action::CheckExists(probe),
                )
            } else {
                EnsureOutcome::Failed(Error::IoFailed)
            },
            (EnsureStep::CheckBinary, Event::Exists(b)) => if b {
                EnsureOutcome::Done(record)
            } else {
                match parent_of(record.data()) {
                    None => EnsureOutcome::Failed(Error::PathResolutionFailed),
                    Some(par) => {
                        let source = join(par.as_str(), "endless-sky");
                        let cmd = Binary::compile_command(source.as_str());
                        EnsureOutcome::Continue(
                            EnsureJob { record, step: EnsureStep::Recompiling { source } },
                            Action::Run(cmd),
                        )
                    },
                }
            },
            (EnsureStep::Recompiling { source }, Event::Process(o)) => {
                match Binary::compile_result(o) {
                    Err(e) => EnsureOutcome::Failed(e),
                    Ok(_) => {
                        let artifact = Binary::artifact_path(source.as_str());
                        EnsureOutcome::Continue(
                            EnsureJob { record, step: EnsureStep::RecheckArtifact { source } },
                            Action::CheckExists(artifact),
                        )
                    },
                }
            },
            (EnsureStep::RecheckArtifact { source }, Event::Exists(b)) => {
                let artifact = Binary::artifact_path(source.as_str());
                match Binary::locate(artifact, b) {
                    Err(e) => EnsureOutcome::Failed(e),
                    Ok(bin) => {
                        proof {
                            assert(bin@ =~= (BinaryV { path: artifact_path_v(source@) }));
                        }
                        EnsureOutcome::Done(record.with_binary(bin))
                    },
                }
            },
            _ => {
                proof {
                    assert(false);
                }
                EnsureOutcome::Failed(Error::IoFailed)
            },
        }
    }
}

/// Where a creation stands: which probe or tool it is waiting on.
pub enum CreateStepV {
    CheckSource,
    Cloning,
    CheckingOut,
    Compiling,
    CheckArtifact,
    Persisting(InstanceV),
    Ensuring(EnsureV),
}

/// Spec-level shape of a creation in flight.
#[verifier::ext_equal]
pub struct CreateV {
    pub name: Seq<char>,
    pub version: RepoVersionV,
    pub location: Seq<char>,
    pub es_location: Seq<char>,
    pub step: CreateStepV,
}

/// What one creation step decides.
pub enum CreateOutcomeV {
    Continue(CreateV, ActionV),
    Done(InstanceV),
    Failed(Error),
}

/// Creation begins by probing for an existing source tree under the
/// instance's directory.
pub open spec fn create_start_v(root: Seq<char>, name: Seq<char>, version: RepoVersionV) -> (
    CreateV,
    ActionV,
) {
    let location = join_v(root, name);
    let es = join_v(location, "endless-sky"@);
    (
        CreateV { name, version, location, es_location: es, step: CreateStepV::CheckSource },
        ActionV::CheckExists(es),
    )
}

/// Which kind of event answers the pending action of a creation step.
pub open spec fn create_expects(j: CreateV, ev: Event) -> bool {
    match j.step {
        CreateStepV::CheckSource => ev is Exists,
        CreateStepV::Cloning => ev is Process,
        CreateStepV::CheckingOut => ev is Process,
        CreateStepV::Compiling => ev is Process,
        CreateStepV::CheckArtifact => ev is Exists,
        CreateStepV::Persisting(_) => ev is FileWritten,
        CreateStepV::Ensuring(ej) => ensure_expects(ej, ev),
    }
}

/// One creation step: clone or open the source tree, check out the pinned
/// reference, compile, persist the descriptor, then run the repair pass.
pub open spec fn create_step_v(j: CreateV, ev: Event) -> CreateOutcomeV {
    match (j.step, ev) {
        (CreateStepV::CheckSource, Event::Exists(b)) => if b {
            CreateOutcomeV::Continue(
                CreateV { step: CreateStepV::CheckingOut, ..j },
                ActionV::Run(checkout_command_v(j.es_location, j.version.version.payload())),
            )
        } else {
            CreateOutcomeV::Continue(
                CreateV { step: CreateStepV::Cloning, ..j },
                ActionV::Run(clone_command_v(j.version.repo, j.es_location)),
            )
        },
        (CreateStepV::Cloning, Event::Process(o)) => if o is NoSpawn {
            CreateOutcomeV::Failed(Error::SpawnFailed)
        } else if o.success() {
            CreateOutcomeV::Continue(
                CreateV { step: CreateStepV::CheckingOut, ..j },
                ActionV::Run(checkout_command_v(j.es_location, j.version.version.payload())),
            )
        } else {
            CreateOutcomeV::Failed(Error::CloneFailed)
        },
        (CreateStepV::CheckingOut, Event::Process(o)) => if o is NoSpawn {
            CreateOutcomeV::Failed(Error::SpawnFailed)
        } else if o.success() {
            CreateOutcomeV::Continue(
                CreateV { step: CreateStepV::Compiling, ..j },
                ActionV::Run(compile_command_v(j.es_location)),
            )
        } else {
            CreateOutcomeV::Failed(Error::CheckoutFailed)
        },
        (CreateStepV::Compiling, Event::Process(o)) => if o is NoSpawn {
            CreateOutcomeV::Failed(Error::SpawnFailed)
        } else if o.success() {
            CreateOutcomeV::Continue(
                CreateV { step: CreateStepV::CheckArtifact, ..j },
                ActionV::CheckExists(artifact_path_v(j.es_location)),
            )
        } else {
            CreateOutcomeV::Failed(Error::CompileFailed)
        },
        (CreateStepV::CheckArtifact, Event::Exists(b)) => if b {
            let inst = InstanceV {
                name: j.name,
                data: join_v(j.location, "data"@),
                version: j.version,
                binary: BinaryV { path: artifact_path_v(j.es_location) },
            };
            CreateOutcomeV::Continue(
                CreateV { step: CreateStepV::Persisting(inst), ..j },
                ActionV::WriteFile {
                    path: join_v(j.location, "instance.json"@),
                    contents: descriptor_v(inst),
                },
            )
        } else {
            CreateOutcomeV::Failed(Error::ArtifactMissing)
        },
        (CreateStepV::Persisting(inst), Event::FileWritten(b)) => if b {
            CreateOutcomeV::Continue(
                CreateV { step: CreateStepV::Ensuring(ensure_start_v(inst).0), ..j },
                ensure_start_v(inst).1,
            )
        } else {
            CreateOutcomeV::Failed(Error::IoFailed)
        },
        (CreateStepV::Ensuring(ej), _) => match ensure_step_v(ej, ev) {
            EnsureOutcomeV::Continue(ej2, a) => CreateOutcomeV::Continue(
                CreateV { step: CreateStepV::Ensuring(ej2), ..j },
                a,
            ),
            EnsureOutcomeV::Done(r) => CreateOutcomeV::Done(r),
            EnsureOutcomeV::Failed(e) => CreateOutcomeV::Failed(e),
        },
        _ => arbitrary(),
    }
}

/// The repair pass on a healthy record is a no-op: when both probes
/// answer that the paths exist, every action it issues is a bare
/// existence check — nothing is run, written or created — and the record
/// comes back unchanged. Hence running `ensure` twice in succession on a
/// healthy record performs no filesystem mutation the second time.
pub proof fn lemma_ensure_idempotent_on_healthy(r: InstanceV)
    ensures
        ({
            let (j0, a0) = ensure_start_v(r);
            let s1 = ensure_step_v(j0, Event::Exists(true));
            let s2 = ensure_step_v(s1->Continue_0, Event::Exists(true));
            &&& !a0.mutates()
            &&& s1 is Continue
            &&& !(s1->Continue_1).mutates()
            &&& s2 == EnsureOutcomeV::Done(r)
        }),
{
}

/// The repair pass restores a deleted artifact: when the saves directory
/// is present but the executable's path no longer exists, the pass runs
/// the build tool in the sibling source tree, probes the rebuilt
/// artifact's fixed path, and finishes with the record's artifact path
/// replaced by that probed-existing path.
pub proof fn lemma_ensure_repairs_missing_artifact(r: InstanceV, par: Seq<char>)
    requires
        parent_v(r.data) == Some(par),
    ensures
        ({
            let source = join_v(par, "endless-sky"@);
            let (j0, a0) = ensure_start_v(r);
            let s1 = ensure_step_v(j0, Event::Exists(true));
            let s2 = ensure_step_v(s1->Continue_0, Event::Exists(false));
            let s3 = ensure_step_v(
                s2->Continue_0,
                Event::Process(ProcOutcome::Exited(Some(0i32))),
            );
            let s4 = ensure_step_v(s3->Continue_0, Event::Exists(true));
            &&& s1 is Continue
            &&& s2 is Continue
            &&& s2->Continue_1 == ActionV::Run(compile_command_v(source))
            &&& s3 is Continue
            &&& s3->Continue_1 == ActionV::CheckExists(artifact_path_v(source))
            &&& s4 == EnsureOutcomeV::Done(
                InstanceV { binary: BinaryV { path: artifact_path_v(source) }, ..r },
            )
        }),
{
}

/// A creation in flight.
#[derive(Debug)]
pub struct CreateJob {
    name: String,
    version: RepoVersion,
    location: String,
    es_location: String,
    step: CreateStep,
}

#[derive(Debug)]
enum CreateStep {
    CheckSource,
    Cloning,
    CheckingOut,
    Compiling,
    CheckArtifact,
    Persisting(Instance),
    Ensuring(EnsureJob),
}

impl View for CreateJob {
    type V = CreateV;

    closed spec fn view(&self) -> CreateV {
        CreateV {
            name: self.name@,
            version: self.version@,
            location: self.location@,
            es_location: self.es_location@,
            step: match &self.step {
                CreateStep::CheckSource => CreateStepV::CheckSource,
                CreateStep::Cloning => CreateStepV::Cloning,
                CreateStep::CheckingOut => CreateStepV::CheckingOut,
                CreateStep::Compiling => CreateStepV::Compiling,
                CreateStep::CheckArtifact => CreateStepV::CheckArtifact,
                CreateStep::Persisting(i) => CreateStepV::Persisting(i@),
                CreateStep::Ensuring(ej) => CreateStepV::Ensuring(ej@),
            },
        }
    }
}

/// What one executed creation step decided.
#[derive(Debug)]
pub enum CreateOutcome {
    Continue(CreateJob, Action),
    Done(Instance),
    Failed(Error),
}

impl View for CreateOutcome {
    type V = CreateOutcomeV;

    closed spec fn view(&self) -> CreateOutcomeV {
        match self {
            CreateOutcome::Continue(j, a) => CreateOutcomeV::Continue(j@, a@),
            CreateOutcome::Done(i) => CreateOutcomeV::Done(i@),
            CreateOutcome::Failed(e) => CreateOutcomeV::Failed(*e),
        }
    }
}

impl CreateJob {
    /// Answers the pending action's event and decides the next step.
    pub fn step(self, ev: Event) -> (r: CreateOutcome)
        requires
            create_expects(self@, ev),
        ensures
            r@ == create_step_v(self@, ev),
    {
        let CreateJob { name, version, location, es_location, step } = self;
        match (step, ev) {
            (CreateStep::CheckSource, Event::Exists(b)) => if b {
                match Repository::open(es_location.clone(), true) {
                    Err(_) => {
                        proof {
                            assert(false);
                        }
                        CreateOutcome::Failed(Error::RepoMissing)
                    },
                    Ok(repo) => {
                        let cmd = repo.checkout(version.checkout().as_str());
                        CreateOutcome::Continue(
                            CreateJob {
                                name,
                                version,
                                location,
                                es_location,
                                step: CreateStep::CheckingOut,
                            },
                            Action::Run(cmd),
                        )
                    },
                }
            } else {
                let cmd = Repository::clone_command(version.repo.as_str(), es_location.as_str());
                CreateOutcome::Continue(
                    CreateJob { name, version, location, es_location, step: CreateStep::Cloning },
                    Action::Run(cmd),
                )
            },
            (CreateStep::Cloning, Event::Process(o)) => {
                match Repository::clone_result(es_location.clone(), o) {
                    Err(e) => CreateOutcome::Failed(e),
                    Ok(repo) => {
                        let cmd = repo.checkout(version.checkout().as_str());
                        CreateOutcome::Continue(
                            CreateJob {
                                name,
                                version,
                                location,
                                es_location,
                                step: CreateStep::CheckingOut,
                            },
                            Action::Run(cmd),
                        )
                    },
                }
            },
            (CreateStep::CheckingOut, Event::Process(o)) => {
                match Repository::checkout_result(o) {
                    Err(e) => CreateOutcome::Failed(e),
                    Ok(_) => {
                        let cmd = Binary::compile_command(es_location.as_str());
                        CreateOutcome::Continue(
                            CreateJob {
                                name,
                                version,
                                location,
                                es_location,
                                step: CreateStep::Compiling,
                            },
                            Action::Run(cmd),
                        )
                    },
                }
            },
            (CreateStep::Compiling, Event::Process(o)) => {
                match Binary::compile_result(o) {
                    Err(e) => CreateOutcome::Failed(e),
                    Ok(_) => {
                        let artifact = Binary::artifact_path(es_location.as_str());
                        CreateOutcome::Continue(
                            CreateJob {
                                name,
                                version,
                                location,
                                es_location,
                                step: CreateStep::CheckArtifact,
                            },
                            Action::CheckExists(artifact),
                        )
                    },
                }
            },
            (CreateStep::CheckArtifact, Event::Exists(b)) => {
                let artifact = Binary::artifact_path(es_location.as_str());
                match Binary::locate(artifact, b) {
                    Err(e) => CreateOutcome::Failed(e),
                    Ok(bin) => {
                        proof {
                            assert(bin@ =~= (BinaryV { path: artifact_path_v(es_location@) }));
                        }
                        let data = join(location.as_str(), "data");
                        let inst = Instance::assemble(name.clone(), data, version.clone(), bin);
                        let contents = inst.to_descriptor();
                        let path = join(location.as_str(), "instance.json");
                        CreateOutcome::Continue(
                            CreateJob {
                                name,
                                version,
                                location,
                                es_location,
                                step: CreateStep::Persisting(inst),
                            },
                            Action::WriteFile { path, contents },
                        )
                    },
                }
            },
            (CreateStep::Persisting(inst), Event::FileWritten(b)) => if b {
                let (ej, a) = inst.ensure();
                CreateOutcome::Continue(
                    CreateJob {
                        name,
                        version,
                        location,
                        es_location,
                        step: CreateStep::Ensuring(ej),
                    },
                    a,
                )
            } else {
                CreateOutcome::Failed(Error::IoFailed)
            },
            (CreateStep::Ensuring(ej), _) => {
                match ej.step(ev) {
                    EnsureOutcome::Continue(ej2, a) => CreateOutcome::Continue(
                        CreateJob {
                            name,
                            version,
                            location,
                            es_location,
                            step: CreateStep::Ensuring(ej2),
                        },
                        a,
                    ),
                    EnsureOutcome::Done(r) => CreateOutcome::Done(r),
                    EnsureOutcome::Failed(e) => CreateOutcome::Failed(e),
                }
            },
            _ => {
                proof {
                    assert(false);
                }
                CreateOutcome::Failed(Error::IoFailed)
            },
        }
    }
}

impl Instance {
    /// Begins creating the named instance pinned to `version` under the
    /// given instance root; the caller then loops on `CreateJob::step`.
    pub fn create(name: String, version: RepoVersion, root: &str) -> (r: (CreateJob, Action))
        ensures
            r.0@ == create_start_v(root@, name@, version@).0,
            r.1@ == create_start_v(root@, name@, version@).1,
    {
        let location = join(root, name.as_str());
        let es_location = join(location.as_str(), "endless-sky");
        let action = Action::CheckExists(es_location.clone());
        (
            CreateJob { name, version, location, es_location, step: CreateStep::CheckSource },
            action,
        )
    }

    /// Begins reopening an instance from the contents of its descriptor
    /// file; `text` is that file's contents, or nothing when the file does
    /// not exist. On success the caller then loops on `EnsureJob::step`.
    pub fn open(text: Option<String>) -> (r: Result<(EnsureJob, Action), Error>)
        ensures
            text is None ==> (r matches Err(e) && e == Error::DescriptorMissing),
            text matches Some(t) ==> (parse_descriptor_v(t@) is None ==> (r matches Err(e) && e
                == Error::MalformedDescriptor)),
            text matches Some(t) ==> (parse_descriptor_v(t@) matches Some(iv) ==> (r matches Ok(
                ja,
            ) && ja.0@ == ensure_start_v(iv).0 && ja.1@ == ensure_start_v(iv).1)),
    {
        match text {
            None => Err(Error::DescriptorMissing),
            Some(t) => match Instance::parse_descriptor(t.as_str()) {
                Err(e) => Err(e),
                Ok(inst) => Ok(inst.ensure()),
            },
        }
    }

    /// Begins the idempotent repair pass on this record; the caller then
    /// loops on `EnsureJob::step`.
    pub fn ensure(self) -> (r: (EnsureJob, Action))
        ensures
            r.0@ == ensure_start_v(self@).0,
            r.1@ == ensure_start_v(self@).1,
    {
        let saves = join(self.data(), "saves");
        (EnsureJob { record: self, step: EnsureStep::CheckSaves }, Action::CheckExists(saves))
    }
}

/// Paths at or below the directory `dir`.
pub open spec fn owned_by(dir: Seq<char>, p: Seq<char>) -> bool {
    p == dir || (dir + "/"@).is_prefix_of(p)
}

/// The local paths one action reads or writes: the probed, created or
/// written path, a command's working directory, and — for the clone
/// command — its destination argument.
pub open spec fn touched(a: ActionV) -> Set<Seq<char>> {
    match a {
        ActionV::CheckExists(p) => set![p],
        ActionV::MakeDirAll(p) => set![p],
        ActionV::WriteFile { path, .. } => set![path],
        ActionV::Run(c) => {
            let base = match c.cwd {
                Some(d) => set![d],
                None => Set::<Seq<char>>::empty(),
            };
            if c.program == "git"@ && c.args.len() == 3 && c.args[0] == "clone"@ {
                base.insert(c.args[2])
            } else {
                base
            }
        },
    }
}

/// Every path the action touches lies at or below `dir`.
pub open spec fn action_confined(a: ActionV, dir: Seq<char>) -> bool {
    forall|p: Seq<char>| touched(a).contains(p) ==> owned_by(dir, p)
}

/// What stays true of a repair pass working on the instance at `dir`.
pub open spec fn ensure_confined(ej: EnsureV, dir: Seq<char>) -> bool {
    &&& ej.record.data == join_v(dir, "data"@)
    &&& owned_by(dir, ej.record.binary.path)
    &&& match ej.step {
        EnsureStepV::Recompiling { source } => owned_by(dir, source),
        EnsureStepV::RecheckArtifact { source } => owned_by(dir, source),
        _ => true,
    }
}

/// What stays true of a creation of `name` under `root`.
pub open spec fn create_confined(j: CreateV, root: Seq<char>, name: Seq<char>) -> bool {
    let dir = join_v(root, name);
    &&& j.location == dir
    &&& j.es_location == join_v(dir, "endless-sky"@)
    &&& match j.step {
        CreateStepV::Persisting(i) => i.data == join_v(dir, "data"@) && owned_by(
            dir,
            i.binary.path,
        ),
        CreateStepV::Ensuring(ej) => ensure_confined(ej, dir),
        _ => true,
    }
}

/// A directory owns every path joined below a path it owns.
proof fn lemma_owned_join(dir: Seq<char>, p: Seq<char>, c: Seq<char>)
    requires
        owned_by(dir, p),
    ensures
        owned_by(dir, join_v(p, c)),
{
    reveal_strlit("/");
    assert((dir + "/"@).is_prefix_of(join_v(p, c))) by {
        assert(join_v(p, c).subrange(0, dir.len() + 1 as int) =~= dir + "/"@);
    }
}

/// One repair step on a confined pass touches only the instance's own
/// directory and stays confined.
pub proof fn lemma_ensure_step_confined(ej: EnsureV, ev: Event, dir: Seq<char>)
    requires
        ensure_confined(ej, dir),
        ensure_expects(ej, ev),
    ensures
        ({
            let s = ensure_step_v(ej, ev);
            s is Continue ==> ensure_confined(s->Continue_0, dir) && action_confined(
                s->Continue_1,
                dir,
            )
        }),
{
    lemma_owned_join(dir, dir, "data"@);
    lemma_owned_join(dir, ej.record.data, "saves"@);
    lemma_owned_join(dir, dir, "endless-sky"@);
    assert(forall|i: int| 0 <= i < "data"@.len() ==> "data"@[i] != '/') by {
        reveal_strlit("data");
    }
    assert("data"@.len() > 0) by {
        reveal_strlit("data");
    }
    lemma_parent_join(dir, "data"@);
    match ej.step {
        EnsureStepV::Recompiling { source } => {
            lemma_owned_join(dir, source, "endless-sky"@);
        },
        EnsureStepV::RecheckArtifact { source } => {
            lemma_owned_join(dir, source, "endless-sky"@);
        },
        _ => {
        },
    }
}

/// One creation step on a confined creation touches only the instance's
/// own directory and stays confined.
pub proof fn lemma_create_step_confined(j: CreateV, ev: Event, root: Seq<char>, name: Seq<char>)
    requires
        create_confined(j, root, name),
        create_expects(j, ev),
    ensures
        ({
            let s = create_step_v(j, ev);
            s is Continue ==> create_confined(s->Continue_0, root, name) && action_confined(
                s->Continue_1,
                join_v(root, name),
            )
        }),
{
    let dir = join_v(root, name);
    lemma_owned_join(dir, dir, "endless-sky"@);
    lemma_owned_join(dir, dir, "data"@);
    lemma_owned_join(dir, dir, "instance.json"@);
    lemma_owned_join(dir, j.es_location, "endless-sky"@);
    match j.step {
        CreateStepV::Persisting(inst) => {
            lemma_owned_join(dir, inst.data, "saves"@);
        },
        CreateStepV::Ensuring(ej) => {
            lemma_ensure_step_confined(ej, ev, dir);
        },
        _ => {
        },
    }
}

/// The opening probe of a creation is confined to the instance's own
/// directory, and the creation starts confined.
pub proof fn lemma_create_start_confined(root: Seq<char>, name: Seq<char>, version: RepoVersionV)
    ensures
        create_confined(create_start_v(root, name, version).0, root, name),
        action_confined(create_start_v(root, name, version).1, join_v(root, name)),
{
    lemma_owned_join(join_v(root, name), join_v(root, name), "endless-sky"@);
}

/// Every action issued while the events `evs` drive a creation forward
/// touches only paths at or below `dir`. Events of the wrong kind for the
/// pending action fall outside the step function's contract and end the
/// run here.
pub open spec fn create_actions_confined(j: CreateV, evs: Seq<Event>, dir: Seq<char>) -> bool
    decreases evs.len(),
{
    evs.len() == 0 || !create_expects(j, evs[0]) || {
        match create_step_v(j, evs[0]) {
            CreateOutcomeV::Continue(j2, a) => action_confined(a, dir) && create_actions_confined(
                j2,
                evs.subrange(1, evs.len() as int),
                dir,
            ),
            _ => true,
        }
    }
}

/// However a creation's outside steps turn out, the whole run stays inside
/// the instance's own directory. Together with the disjointness of
/// distinct names' directories, creations of distinct names never touch a
/// common path.
pub proof fn lemma_create_run_confined(
    j: CreateV,
    evs: Seq<Event>,
    root: Seq<char>,
    name: Seq<char>,
)
    requires
        create_confined(j, root, name),
    ensures
        create_actions_confined(j, evs, join_v(root, name)),
    decreases evs.len(),
{
    if evs.len() > 0 && create_expects(j, evs[0]) {
        lemma_create_step_confined(j, evs[0], root, name);
        let s = create_step_v(j, evs[0]);
        if s is Continue {
            lemma_create_run_confined(s->Continue_0, evs.subrange(1, evs.len() as int), root, name);
        }
    }
}

/// A name fit to be a directory component: non-empty and free of
/// separators.
pub open spec fn fs_safe_name(n: Seq<char>) -> bool {
    n.len() > 0 && forall|i: int| 0 <= i < n.len() ==> n[i] != '/'
}

/// Instances with distinct filesystem-safe names own disjoint path sets:
/// no path lies in both instances' directories. With the confinement of
/// every creation step, two creations under distinct names never touch a
/// common path, so they cannot interfere.
pub proof fn lemma_distinct_names_disjoint(
    root: Seq<char>,
    a: Seq<char>,
    b: Seq<char>,
    p: Seq<char>,
)
    requires
        fs_safe_name(a),
        fs_safe_name(b),
        a != b,
        owned_by(join_v(root, a), p),
    ensures
        !owned_by(join_v(root, b), p),
{
    reveal_strlit("/");
    let la = join_v(root, a);
    let lb = join_v(root, b);
    let pa = la + "/"@;
    let pb = lb + "/"@;
    if owned_by(lb, p) {
        if p == la && p == lb {
            assert(a.len() == b.len());
            assert(a =~= b) by {
                assert forall|i: int| 0 <= i < a.len() implies a[i] == b[i] by {
                    assert(la[root.len() + 1 + i] == a[i]);
                    assert(lb[root.len() + 1 + i] == b[i]);
                }
            }
        } else if p == la {
            let k = (root.len() + 1 + b.len()) as int;
            assert(pb[k] == '/');
            assert(p.subrange(0, pb.len() as int)[k] == p[k]);
            assert(la[k] == a[b.len() as int]);
            assert(false);
        } else if p == lb {
            let k = (root.len() + 1 + a.len()) as int;
            assert(pa[k] == '/');
            assert(p.subrange(0, pa.len() as int)[k] == p[k]);
            assert(lb[k] == b[a.len() as int]);
            assert(false);
        } else {
            if a.len() == b.len() {
                assert(a =~= b) by {
                    assert forall|i: int| 0 <= i < a.len() implies a[i] == b[i] by {
                        assert(p.subrange(0, pa.len() as int)[root.len() + 1 + i] == p[root.len()
                            + 1 + i]);
                        assert(p.subrange(0, pb.len() as int)[root.len() + 1 + i] == p[root.len()
                            + 1 + i]);
                        assert(pa[root.len() + 1 + i] == a[i]);
                        assert(pb[root.len() + 1 + i] == b[i]);
                    }
                }
            } else if a.len() < b.len() {
                let k = (root.len() + 1 + a.len()) as int;
                assert(pa[k] == '/');
                assert(p.subrange(0, pa.len() as int)[k] == p[k]);
                assert(p.subrange(0, pb.len() as int)[k] == p[k]);
                assert(pb[k] == b[a.len() as int]);
                assert(false);
            } else {
                let k = (root.len() + 1 + b.len()) as int;
                assert(pb[k] == '/');
                assert(p.subrange(0, pb.len() as int)[k] == p[k]);
                assert(p.subrange(0, pa.len() as int)[k] == p[k]);
                assert(pa[k] == a[b.len() as int]);
                assert(false);
            }
        }
    }
}

} // verus!
