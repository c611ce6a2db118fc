use es_manager::artifact::Binary;
use es_manager::command::ProcOutcome;
use es_manager::error::Error;
use es_manager::repo::Repository;

#[test]
fn open_missing_tree_fails_with_repo_missing() {
    match Repository::open("root/x/endless-sky".to_string(), false) {
        Err(Error::RepoMissing) => {}
        other => panic!("expected RepoMissing, got {:?}", other),
    }
}

#[test]
fn open_existing_tree_wraps_its_path() {
    let repo = Repository::open("root/x/endless-sky".to_string(), true).unwrap();
    assert_eq!(repo.location(), "root/x/endless-sky");
}

#[test]
fn clone_command_names_tool_url_and_destination() {
    let c = Repository::clone_command("https://example/repo", "root/x/endless-sky");
    assert_eq!(c.program, "git");
    assert_eq!(
        c.args,
        vec![
            "clone".to_string(),
            "https://example/repo".to_string(),
            "root/x/endless-sky".to_string()
        ]
    );
    assert!(c.cwd.is_none());
}

#[test]
fn checkout_command_runs_inside_the_tree() {
    let repo = Repository::open("root/x/endless-sky".to_string(), true).unwrap();
    let c = repo.checkout("v0.9.16");
    assert_eq!(c.program, "git");
    assert_eq!(c.args, vec!["checkout".to_string(), "v0.9.16".to_string()]);
    assert_eq!(c.cwd.as_deref(), Some("root/x/endless-sky"));
}

#[test]
fn clone_result_reads_the_outcome() {
    assert!(matches!(
        Repository::clone_result("d".to_string(), ProcOutcome::NoSpawn),
        Err(Error::SpawnFailed)
    ));
    assert!(matches!(
        Repository::clone_result("d".to_string(), ProcOutcome::Exited(Some(1))),
        Err(Error::CloneFailed)
    ));
    assert!(matches!(
        Repository::clone_result("d".to_string(), ProcOutcome::Exited(None)),
        Err(Error::CloneFailed)
    ));
    let repo = Repository::clone_result("d".to_string(), ProcOutcome::Exited(Some(0))).unwrap();
    assert_eq!(repo.location(), "d");
}

#[test]
fn checkout_result_reads_the_outcome() {
    assert!(matches!(
        Repository::checkout_result(ProcOutcome::NoSpawn),
        Err(Error::SpawnFailed)
    ));
    assert!(matches!(
        Repository::checkout_result(ProcOutcome::Exited(Some(128))),
        Err(Error::CheckoutFailed)
    ));
    assert!(Repository::checkout_result(ProcOutcome::Exited(Some(0))).is_ok());
}

#[test]
fn compile_command_runs_the_build_tool_in_the_tree() {
    let c = Binary::compile_command("root/x/endless-sky");
    assert_eq!(c.program, "scons");
    assert!(c.args.is_empty());
    assert_eq!(c.cwd.as_deref(), Some("root/x/endless-sky"));
}

#[test]
fn compile_result_reads_the_outcome() {
    assert!(matches!(Binary::compile_result(ProcOutcome::NoSpawn), Err(Error::SpawnFailed)));
    assert!(matches!(
        Binary::compile_result(ProcOutcome::Exited(Some(2))),
        Err(Error::CompileFailed)
    ));
    assert!(Binary::compile_result(ProcOutcome::Exited(Some(0))).is_ok());
}

#[test]
fn artifact_sits_at_the_fixed_relative_path() {
    assert_eq!(Binary::artifact_path("root/x/endless-sky"), "root/x/endless-sky/endless-sky");
}

#[test]
fn absent_artifact_fails_with_artifact_missing() {
    match Binary::locate("root/x/endless-sky/endless-sky".to_string(), false) {
        Err(Error::ArtifactMissing) => {}
        other => panic!("expected ArtifactMissing, got {:?}", other),
    }
    let b = Binary::locate("root/x/endless-sky/endless-sky".to_string(), true).unwrap();
    assert_eq!(b.file(), "root/x/endless-sky/endless-sky");
}

#[test]
fn binary_command_runs_the_executable_directly() {
    let b = Binary::new("root/x/endless-sky/endless-sky".to_string());
    let c = b.command();
    assert_eq!(c.program, "root/x/endless-sky/endless-sky");
    assert!(c.args.is_empty());
    assert!(c.cwd.is_none());
}
