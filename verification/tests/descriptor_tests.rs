use es_manager::artifact::Binary;
use es_manager::error::Error;
use es_manager::version::{RepoVersion, Version};
use es_manager::Instance;

fn record(name: &str, data: &str, repo: &str, version: Version, bin: &str) -> Instance {
    Instance::assemble(
        name.to_string(),
        data.to_string(),
        RepoVersion { repo: repo.to_string(), version },
        Binary::new(bin.to_string()),
    )
}

#[test]
fn descriptor_text_is_exactly_the_canonical_form() {
    let i = record(
        "test",
        "root/test/data",
        "https://example/repo",
        Version::BranchHead("master".to_string()),
        "root/test/endless-sky/endless-sky",
    );
    let expected = "{\n  \"name\": \"test\",\n  \"data\": \"root/test/data\",\n  \"version\": {\n    \"repo\": \"https://example/repo\",\n    \"version\": {\n      \"BranchHead\": \"master\"\n    }\n  },\n  \"binary\": {\n    \"path\": \"root/test/endless-sky/endless-sky\"\n  }\n}";
    assert_eq!(i.to_descriptor(), expected);
}

#[test]
fn round_trip_branch_head() {
    let i = record("a", "r/a/data", "https://example/repo", Version::BranchHead("main".to_string()), "r/a/endless-sky/endless-sky");
    let back = Instance::parse_descriptor(&i.to_descriptor()).unwrap();
    assert_eq!(back, i);
}

#[test]
fn round_trip_commit() {
    let i = record("b", "r/b/data", "u", Version::Commit("abc123".to_string()), "r/b/bin");
    let back = Instance::parse_descriptor(&i.to_descriptor()).unwrap();
    assert_eq!(back, i);
}

#[test]
fn round_trip_tag() {
    let i = record("c", "r/c/data", "u", Version::Tag("v0.9.16".to_string()), "r/c/bin");
    let back = Instance::parse_descriptor(&i.to_descriptor()).unwrap();
    assert_eq!(back, i);
}

#[test]
fn round_trip_with_quotes_and_backslashes() {
    let i = record(
        "we\"ird\\name",
        "C:\\Games\\es\\data",
        "https://example/repo",
        Version::Tag("v\\1\"2".to_string()),
        "C:\\Games\\es\\endless-sky.exe",
    );
    let back = Instance::parse_descriptor(&i.to_descriptor()).unwrap();
    assert_eq!(back, i);
}

#[test]
fn round_trip_empty_strings() {
    let i = record("", "", "", Version::Commit("".to_string()), "");
    let back = Instance::parse_descriptor(&i.to_descriptor()).unwrap();
    assert_eq!(back, i);
}

#[test]
fn garbage_is_malformed() {
    match Instance::parse_descriptor("not a descriptor") {
        Err(Error::MalformedDescriptor) => {}
        other => panic!("expected MalformedDescriptor, got {:?}", other),
    }
}

#[test]
fn truncated_descriptor_is_malformed() {
    let i = record("t", "r/t/data", "u", Version::Tag("v1".to_string()), "r/t/bin");
    let text = i.to_descriptor();
    let cut = &text[..text.len() - 2];
    match Instance::parse_descriptor(cut) {
        Err(Error::MalformedDescriptor) => {}
        other => panic!("expected MalformedDescriptor, got {:?}", other),
    }
}

#[test]
fn descriptor_with_trailing_junk_is_malformed() {
    let i = record("t", "r/t/data", "u", Version::Tag("v1".to_string()), "r/t/bin");
    let mut text = i.to_descriptor();
    text.push_str(" ");
    match Instance::parse_descriptor(&text) {
        Err(Error::MalformedDescriptor) => {}
        other => panic!("expected MalformedDescriptor, got {:?}", other),
    }
}

#[test]
fn unknown_reference_key_is_malformed() {
    let i = record("t", "r/t/data", "u", Version::Tag("v1".to_string()), "r/t/bin");
    let text = i.to_descriptor().replace("\"Tag\"", "\"Branch\"");
    match Instance::parse_descriptor(&text) {
        Err(Error::MalformedDescriptor) => {}
        other => panic!("expected MalformedDescriptor, got {:?}", other),
    }
}

#[test]
fn descriptor_is_well_formed_json() {
    let i = record(
        "test",
        "root/te\"st/data",
        "https://example/repo",
        Version::Commit("0123abcd".to_string()),
        "root/test/endless-sky/endless-sky",
    );
    let v: serde_json::Value = serde_json::from_str(&i.to_descriptor()).unwrap();
    assert_eq!(v["name"].as_str().unwrap(), "test");
    assert_eq!(v["data"].as_str().unwrap(), "root/te\"st/data");
    assert_eq!(v["version"]["repo"].as_str().unwrap(), "https://example/repo");
    assert_eq!(v["version"]["version"]["Commit"].as_str().unwrap(), "0123abcd");
    assert_eq!(v["binary"]["path"].as_str().unwrap(), "root/test/endless-sky/endless-sky");
}
