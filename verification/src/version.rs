//! Version descriptors: a repository URL plus a version-control reference,
//! with a pure validity predicate over both.
use vstd::prelude::*;

use crate::model::{is_ascii_alnum, RepoVersionV, VersionV};

verus! {

/// A version-control reference: a commit hash, the head of a branch, or a tag.
#[derive(Debug)]
pub enum Version {
    Commit(String),
    BranchHead(String),
    Tag(String),
}

impl View for Version {
    type V = VersionV;

    open spec fn view(&self) -> VersionV {
        match self {
            Version::Commit(s) => VersionV::Commit(s@),
            Version::BranchHead(s) => VersionV::BranchHead(s@),
            Version::Tag(s) => VersionV::Tag(s@),
        }
    }
}

impl Clone for Version {
    fn clone(&self) -> (r: Self)
        ensures
            r@ == self@,
    {
        match self {
            Version::Commit(s) => Version::Commit(s.clone()),
            Version::BranchHead(s) => Version::BranchHead(s.clone()),
            Version::Tag(s) => Version::Tag(s.clone()),
        }
    }
}

impl Version {
    /// The raw reference string handed to the version-control tool; a branch
    /// name, tag name and commit hash are all passed identically.
    pub fn checkout(&self) -> (r: &String)
        ensures
            r@ == self@.payload(),
    {
        match self {
            Version::Commit(s) => s,
            Version::Tag(s) => s,
            Version::BranchHead(s) => s,
        }
    }

    /// Decides well-formedness of the reference alone.
    pub fn is_valid(&self) -> (r: bool)
        ensures
            r == self@.valid(),
    {
        match self {
            Version::Commit(s) => !s.as_str().is_empty() && all_ascii_alnum(s.as_str()),
            Version::BranchHead(s) => !s.as_str().is_empty(),
            Version::Tag(s) => !s.as_str().is_empty(),
        }
    }
}

/// Decides whether every character of `s` is ASCII alphanumeric.
fn all_ascii_alnum(s: &str) -> (r: bool)
    ensures
        r == forall|i: int| 0 <= i < s@.len() ==> is_ascii_alnum(#[trigger] s@[i]),
{
    let n = s.unicode_len();
    let mut i: usize = 0;
    while i < n
        invariant
            n == s@.len(),
            i <= n,
            forall|j: int| 0 <= j < i ==> is_ascii_alnum(#[trigger] s@[j]),
        decreases n - i,
    {
        let c = s.get_char(i);
        let u = c as u32;
        if !((48 <= u && u <= 57) || (97 <= u && u <= 122) || (65 <= u && u <= 90)) {
            return false;
        }
        i = i + 1;
    }
    true
}

impl PartialEq for Version {
    fn eq(&self, other: &Self) -> bool {
        match (self, other) {
            (Version::Commit(a), Version::Commit(b)) => *a == *b,
            (Version::BranchHead(a), Version::BranchHead(b)) => *a == *b,
            (Version::Tag(a), Version::Tag(b)) => *a == *b,
            _ => false,
        }
    }
}

impl vstd::std_specs::cmp::PartialEqSpecImpl for Version {
    open spec fn obeys_eq_spec() -> bool {
        true
    }

    open spec fn eq_spec(&self, other: &Self) -> bool {
        self@ == other@
    }
}

impl Default for Version {
    /// The default reference: the head of the `master` branch.
    fn default() -> (r: Self)
        ensures
            r@ == VersionV::BranchHead("master"@),
    {
        Version::BranchHead(String::from_str("master"))
    }
}

/// A version descriptor: which repository, and which reference within it.
#[derive(Debug)]
pub struct RepoVersion {
    pub repo: String,
    pub version: Version,
}

impl View for RepoVersion {
    type V = RepoVersionV;

    open spec fn view(&self) -> RepoVersionV {
        RepoVersionV { repo: self.repo@, version: self.version@ }
    }
}

impl Clone for RepoVersion {
    fn clone(&self) -> (r: Self)
        ensures
            r@ == self@,
    {
        RepoVersion { repo: self.repo.clone(), version: self.version.clone() }
    }
}

impl PartialEq for RepoVersion {
    fn eq(&self, other: &Self) -> bool {
        self.repo == other.repo && self.version == other.version
    }
}

impl vstd::std_specs::cmp::PartialEqSpecImpl for RepoVersion {
    open spec fn obeys_eq_spec() -> bool {
        true
    }

    open spec fn eq_spec(&self, other: &Self) -> bool {
        self@ == other@
    }
}

impl Default for RepoVersion {
    /// The default descriptor: the well-known upstream repository at the
    /// head of its `master` branch.
    fn default() -> (r: Self)
        ensures
            r@ == (RepoVersionV {
                repo: "https://github.com/endless-sky/endless-sky"@,
                version: VersionV::BranchHead("master"@),
            }),
    {
        RepoVersion::from_version(Version::default())
    }
}

impl RepoVersion {
    /// Pins `version` against the well-known upstream repository URL.
    pub fn from_version(version: Version) -> (r: Self)
        ensures
            r@ == (RepoVersionV {
                repo: "https://github.com/endless-sky/endless-sky"@,
                version: version@,
            }),
    {
        RepoVersion {
            repo: String::from_str("https://github.com/endless-sky/endless-sky"),
            version,
        }
    }

    /// The reference string the version-control tool is asked to check out.
    pub fn checkout(&self) -> (r: &String)
        ensures
            r@ == self@.version.payload(),
    {
        self.version.checkout()
    }

    /// Decides well-formedness: non-empty URL and a well-formed reference.
    pub fn is_valid(&self) -> (r: bool)
        ensures
            r == self@.valid(),
    {
        !self.repo.as_str().is_empty() && self.version.is_valid()
    }
}

} // verus!
