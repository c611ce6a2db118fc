use es_manager::artifact::Binary;
use es_manager::command::{Action, Event, ProcOutcome};
use es_manager::error::Error;
use es_manager::lifecycle::{CreateJob, CreateOutcome, EnsureJob, EnsureOutcome};
use es_manager::version::{RepoVersion, Version};
use es_manager::Instance;

fn ok() -> Event {
    Event::Process(ProcOutcome::Exited(Some(0)))
}

fn fail() -> Event {
    Event::Process(ProcOutcome::Exited(Some(1)))
}

fn record(name: &str, data: &str, bin: &str) -> Instance {
    Instance::assemble(
        name.to_string(),
        data.to_string(),
        RepoVersion { repo: "u".to_string(), version: Version::Tag("v1".to_string()) },
        Binary::new(bin.to_string()),
    )
}

fn advance(job: CreateJob, ev: Event) -> (CreateJob, Action) {
    match job.step(ev) {
        CreateOutcome::Continue(j, a) => (j, a),
        other => panic!("expected the creation to continue, got {:?}", other),
    }
}

fn advance_ensure(job: EnsureJob, ev: Event) -> (EnsureJob, Action) {
    match job.step(ev) {
        EnsureOutcome::Continue(j, a) => (j, a),
        other => panic!("expected the repair pass to continue, got {:?}", other),
    }
}

#[test]
fn create_on_clean_root_builds_and_persists() {
    let (job, action) = Instance::create("test".to_string(), RepoVersion::default(), "root");
    match &action {
        Action::CheckExists(p) => assert_eq!(p, "root/test/endless-sky"),
        other => panic!("unexpected action {:?}", other),
    }
    // no source tree yet: the machine clones
    let (job, action) = advance(job, Event::Exists(false));
    match &action {
        Action::Run(c) => {
            assert_eq!(c.program, "git");
            assert_eq!(
                c.args,
                vec![
                    "clone".to_string(),
                    "https://github.com/endless-sky/endless-sky".to_string(),
                    "root/test/endless-sky".to_string()
                ]
            );
            assert!(c.cwd.is_none());
        }
        other => panic!("unexpected action {:?}", other),
    }
    let (job, action) = advance(job, ok());
    match &action {
        Action::Run(c) => {
            assert_eq!(c.program, "git");
            assert_eq!(c.args, vec!["checkout".to_string(), "master".to_string()]);
            assert_eq!(c.cwd.as_deref(), Some("root/test/endless-sky"));
        }
        other => panic!("unexpected action {:?}", other),
    }
    let (job, action) = advance(job, ok());
    match &action {
        Action::Run(c) => {
            assert_eq!(c.program, "scons");
            assert!(c.args.is_empty());
            assert_eq!(c.cwd.as_deref(), Some("root/test/endless-sky"));
        }
        other => panic!("unexpected action {:?}", other),
    }
    let (job, action) = advance(job, ok());
    match &action {
        Action::CheckExists(p) => assert_eq!(p, "root/test/endless-sky/endless-sky"),
        other => panic!("unexpected action {:?}", other),
    }
    let (job, action) = advance(job, Event::Exists(true));
    let descriptor = match &action {
        Action::WriteFile { path, contents } => {
            assert_eq!(path, "root/test/instance.json");
            contents.clone()
        }
        other => panic!("unexpected action {:?}", other),
    };
    let (job, action) = advance(job, Event::FileWritten(true));
    match &action {
        Action::CheckExists(p) => assert_eq!(p, "root/test/data/saves"),
        other => panic!("unexpected action {:?}", other),
    }
    // clean root: the saves directory does not exist yet
    let (job, action) = advance(job, Event::Exists(false));
    match &action {
        Action::MakeDirAll(p) => assert_eq!(p, "root/test/data/saves"),
        other => panic!("unexpected action {:?}", other),
    }
    let (job, action) = advance(job, Event::DirMade(true));
    match &action {
        Action::CheckExists(p) => assert_eq!(p, "root/test/endless-sky/endless-sky"),
        other => panic!("unexpected action {:?}", other),
    }
    let created = match job.step(Event::Exists(true)) {
        CreateOutcome::Done(i) => i,
        other => panic!("expected the creation to finish, got {:?}", other),
    };
    assert_eq!(created.name, "test");
    assert_eq!(created.data(), "root/test/data");
    assert_eq!(created.binary().file(), "root/test/endless-sky/endless-sky");
    assert_eq!(*created.version(), RepoVersion::default());

    // reopening from the persisted descriptor yields an equal record
    let (job, action) = Instance::open(Some(descriptor)).unwrap();
    match &action {
        Action::CheckExists(p) => assert_eq!(p, "root/test/data/saves"),
        other => panic!("unexpected action {:?}", other),
    }
    let (job, _action) = advance_ensure(job, Event::Exists(true));
    let reopened = match job.step(Event::Exists(true)) {
        EnsureOutcome::Done(i) => i,
        other => panic!("expected the repair pass to finish, got {:?}", other),
    };
    assert_eq!(reopened, created);
}

#[test]
fn create_reuses_an_existing_source_tree() {
    let (job, _action) = Instance::create("test".to_string(), RepoVersion::default(), "root");
    let (_job, action) = advance(job, Event::Exists(true));
    match &action {
        Action::Run(c) => {
            assert_eq!(c.program, "git");
            assert_eq!(c.args[0], "checkout");
        }
        other => panic!("unexpected action {:?}", other),
    }
}

#[test]
fn failed_clone_surfaces_clone_failed() {
    let (job, _) = Instance::create("t".to_string(), RepoVersion::default(), "root");
    let (job, _) = advance(job, Event::Exists(false));
    match job.step(fail()) {
        CreateOutcome::Failed(Error::CloneFailed) => {}
        other => panic!("expected CloneFailed, got {:?}", other),
    }
}

#[test]
fn unspawnable_tool_surfaces_spawn_failed() {
    let (job, _) = Instance::create("t".to_string(), RepoVersion::default(), "root");
    let (job, _) = advance(job, Event::Exists(false));
    match job.step(Event::Process(ProcOutcome::NoSpawn)) {
        CreateOutcome::Failed(Error::SpawnFailed) => {}
        other => panic!("expected SpawnFailed, got {:?}", other),
    }
}

#[test]
fn failed_checkout_surfaces_checkout_failed() {
    let (job, _) = Instance::create("t".to_string(), RepoVersion::default(), "root");
    let (job, _) = advance(job, Event::Exists(true));
    match job.step(fail()) {
        CreateOutcome::Failed(Error::CheckoutFailed) => {}
        other => panic!("expected CheckoutFailed, got {:?}", other),
    }
}

#[test]
fn failed_compile_surfaces_compile_failed() {
    let (job, _) = Instance::create("t".to_string(), RepoVersion::default(), "root");
    let (job, _) = advance(job, Event::Exists(true));
    let (job, _) = advance(job, ok());
    match job.step(fail()) {
        CreateOutcome::Failed(Error::CompileFailed) => {}
        other => panic!("expected CompileFailed, got {:?}", other),
    }
}

#[test]
fn missing_artifact_after_build_surfaces_artifact_missing() {
    let (job, _) = Instance::create("t".to_string(), RepoVersion::default(), "root");
    let (job, _) = advance(job, Event::Exists(true));
    let (job, _) = advance(job, ok());
    let (job, _) = advance(job, ok());
    match job.step(Event::Exists(false)) {
        CreateOutcome::Failed(Error::ArtifactMissing) => {}
        other => panic!("expected ArtifactMissing, got {:?}", other),
    }
}

#[test]
fn failed_descriptor_write_surfaces_io_failed() {
    let (job, _) = Instance::create("t".to_string(), RepoVersion::default(), "root");
    let (job, _) = advance(job, Event::Exists(true));
    let (job, _) = advance(job, ok());
    let (job, _) = advance(job, ok());
    let (job, _) = advance(job, Event::Exists(true));
    match job.step(Event::FileWritten(false)) {
        CreateOutcome::Failed(Error::IoFailed) => {}
        other => panic!("expected IoFailed, got {:?}", other),
    }
}

#[test]
fn ensure_on_healthy_record_only_probes_and_changes_nothing() {
    let original = record("t", "root/t/data", "root/t/endless-sky/endless-sky");
    let twin = record("t", "root/t/data", "root/t/endless-sky/endless-sky");
    let (job, action) = original.ensure();
    match &action {
        Action::CheckExists(p) => assert_eq!(p, "root/t/data/saves"),
        other => panic!("unexpected action {:?}", other),
    }
    let (job, action) = advance_ensure(job, Event::Exists(true));
    match &action {
        Action::CheckExists(p) => assert_eq!(p, "root/t/endless-sky/endless-sky"),
        other => panic!("unexpected action {:?}", other),
    }
    let done = match job.step(Event::Exists(true)) {
        EnsureOutcome::Done(i) => i,
        other => panic!("expected the repair pass to finish, got {:?}", other),
    };
    assert_eq!(done, twin);
    // a second pass issues the same two bare probes and changes nothing
    let (job, action) = done.ensure();
    match &action {
        Action::CheckExists(p) => assert_eq!(p, "root/t/data/saves"),
        other => panic!("unexpected action {:?}", other),
    }
    let (job, action) = advance_ensure(job, Event::Exists(true));
    match &action {
        Action::CheckExists(p) => assert_eq!(p, "root/t/endless-sky/endless-sky"),
        other => panic!("unexpected action {:?}", other),
    }
    let done = match job.step(Event::Exists(true)) {
        EnsureOutcome::Done(i) => i,
        other => panic!("expected the repair pass to finish, got {:?}", other),
    };
    assert_eq!(done, twin);
}

#[test]
fn ensure_recreates_a_missing_saves_directory() {
    let i = record("t", "root/t/data", "root/t/endless-sky/endless-sky");
    let (job, _) = i.ensure();
    let (job, action) = advance_ensure(job, Event::Exists(false));
    match &action {
        Action::MakeDirAll(p) => assert_eq!(p, "root/t/data/saves"),
        other => panic!("unexpected action {:?}", other),
    }
    let (job, _) = advance_ensure(job, Event::DirMade(true));
    match job.step(Event::Exists(true)) {
        EnsureOutcome::Done(_) => {}
        other => panic!("expected the repair pass to finish, got {:?}", other),
    }
}

#[test]
fn ensure_recompiles_a_deleted_artifact() {
    let i = record("t", "root/t/data", "root/t/endless-sky/endless-sky");
    let (job, _) = i.ensure();
    let (job, _) = advance_ensure(job, Event::Exists(true));
    let (job, action) = advance_ensure(job, Event::Exists(false));
    match &action {
        Action::Run(c) => {
            assert_eq!(c.program, "scons");
            assert_eq!(c.cwd.as_deref(), Some("root/t/endless-sky"));
        }
        other => panic!("unexpected action {:?}", other),
    }
    let (job, action) = advance_ensure(job, ok());
    match &action {
        Action::CheckExists(p) => assert_eq!(p, "root/t/endless-sky/endless-sky"),
        other => panic!("unexpected action {:?}", other),
    }
    let repaired = match job.step(Event::Exists(true)) {
        EnsureOutcome::Done(i) => i,
        other => panic!("expected the repair pass to finish, got {:?}", other),
    };
    assert_eq!(repaired.binary().file(), "root/t/endless-sky/endless-sky");
    assert_eq!(repaired.data(), "root/t/data");
}

#[test]
fn ensure_without_a_parent_data_path_fails_path_resolution() {
    let i = record("t", "data", "somewhere/endless-sky");
    let (job, _) = i.ensure();
    let (job, _) = advance_ensure(job, Event::Exists(true));
    match job.step(Event::Exists(false)) {
        EnsureOutcome::Failed(Error::PathResolutionFailed) => {}
        other => panic!("expected PathResolutionFailed, got {:?}", other),
    }
}

#[test]
fn ensure_failed_recompile_surfaces_compile_failed() {
    let i = record("t", "root/t/data", "root/t/endless-sky/endless-sky");
    let (job, _) = i.ensure();
    let (job, _) = advance_ensure(job, Event::Exists(true));
    let (job, _) = advance_ensure(job, Event::Exists(false));
    match job.step(fail()) {
        EnsureOutcome::Failed(Error::CompileFailed) => {}
        other => panic!("expected CompileFailed, got {:?}", other),
    }
}

#[test]
fn ensure_failed_saves_creation_surfaces_io_failed() {
    let i = record("t", "root/t/data", "root/t/endless-sky/endless-sky");
    let (job, _) = i.ensure();
    let (job, _) = advance_ensure(job, Event::Exists(false));
    match job.step(Event::DirMade(false)) {
        EnsureOutcome::Failed(Error::IoFailed) => {}
        other => panic!("expected IoFailed, got {:?}", other),
    }
}

#[test]
fn open_without_a_descriptor_file_fails() {
    match Instance::open(None) {
        Err(Error::DescriptorMissing) => {}
        other => panic!("expected DescriptorMissing, got {:?}", other),
    }
}

#[test]
fn open_with_malformed_text_fails() {
    match Instance::open(Some("{}".to_string())) {
        Err(Error::MalformedDescriptor) => {}
        other => panic!("expected MalformedDescriptor, got {:?}", other),
    }
}

#[test]
fn launch_points_the_game_at_the_instance_saves() {
    let i = record("t", "root/t/data", "root/t/endless-sky/endless-sky");
    let c = i.launch();
    assert_eq!(c.program, "root/t/endless-sky/endless-sky");
    assert_eq!(c.args, vec!["-c".to_string(), "root/t/data".to_string()]);
    assert!(c.cwd.is_none());
}

#[test]
fn launch_result_reads_the_exit_code() {
    assert_eq!(Instance::launch_result(ProcOutcome::Exited(Some(3))), Ok(3));
    assert_eq!(Instance::launch_result(ProcOutcome::Exited(Some(0))), Ok(0));
    assert_eq!(Instance::launch_result(ProcOutcome::Exited(None)), Err(Error::NoExitCode));
    assert_eq!(Instance::launch_result(ProcOutcome::NoSpawn), Err(Error::SpawnFailed));
}

#[test]
fn creations_with_distinct_names_touch_distinct_directories() {
    let (_ja, action_a) = Instance::create("alpha".to_string(), RepoVersion::default(), "root");
    let (_jb, action_b) = Instance::create("beta".to_string(), RepoVersion::default(), "root");
    let pa = match &action_a {
        Action::CheckExists(p) => p.clone(),
        other => panic!("unexpected action {:?}", other),
    };
    let pb = match &action_b {
        Action::CheckExists(p) => p.clone(),
        other => panic!("unexpected action {:?}", other),
    };
    assert!(pa.starts_with("root/alpha/"));
    assert!(pb.starts_with("root/beta/"));
    assert_ne!(pa, pb);
}
