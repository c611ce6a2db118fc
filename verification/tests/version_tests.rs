use es_manager::version::{RepoVersion, Version};

#[test]
fn branch_head_on_example_repo_is_valid() {
    let v = RepoVersion {
        repo: "https://example/repo".to_string(),
        version: Version::BranchHead("master".to_string()),
    };
    assert!(v.is_valid());
}

#[test]
fn empty_repo_url_is_invalid() {
    let v = RepoVersion { repo: "".to_string(), version: Version::Tag("v1".to_string()) };
    assert!(!v.is_valid());
}

#[test]
fn commit_hash_must_be_alphanumeric() {
    let ok = RepoVersion { repo: "x".to_string(), version: Version::Commit("abc123".to_string()) };
    assert!(ok.is_valid());
    let bad = RepoVersion {
        repo: "x".to_string(),
        version: Version::Commit("abc-123".to_string()),
    };
    assert!(!bad.is_valid());
}

#[test]
fn empty_reference_payloads_are_invalid() {
    assert!(!Version::Commit("".to_string()).is_valid());
    assert!(!Version::BranchHead("".to_string()).is_valid());
    assert!(!Version::Tag("".to_string()).is_valid());
}

#[test]
fn mixed_case_commit_is_valid() {
    assert!(Version::Commit("AbC09zZ".to_string()).is_valid());
}

#[test]
fn commit_with_space_is_invalid() {
    assert!(!Version::Commit("abc 123".to_string()).is_valid());
}

#[test]
fn default_version_is_master_on_upstream() {
    let v = RepoVersion::default();
    assert_eq!(v.repo, "https://github.com/endless-sky/endless-sky");
    assert_eq!(v.version, Version::BranchHead("master".to_string()));
    assert!(v.is_valid());
}

#[test]
fn checkout_hands_back_the_raw_payload() {
    let v = RepoVersion { repo: "r".to_string(), version: Version::Tag("v1.2".to_string()) };
    assert_eq!(v.checkout().as_str(), "v1.2");
    assert_eq!(Version::Commit("deadbeef".to_string()).checkout().as_str(), "deadbeef");
}

#[test]
fn version_equality_is_structural() {
    assert_eq!(Version::Tag("a".to_string()), Version::Tag("a".to_string()));
    assert_ne!(Version::Tag("a".to_string()), Version::BranchHead("a".to_string()));
    assert_ne!(Version::Tag("a".to_string()), Version::Tag("b".to_string()));
}
