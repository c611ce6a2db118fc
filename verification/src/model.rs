//! Mathematical models of the manager's data: each executable type in the
//! crate has a view into one of these spec-level shapes, and every contract
//! is stated over them.
use vstd::prelude::*;

use crate::artifact::BinaryV;

verus! {

/// Spec-level shape of a version-control reference.
pub enum VersionV {
    Commit(Seq<char>),
    BranchHead(Seq<char>),
    Tag(Seq<char>),
}

impl VersionV {
    /// The raw reference string handed to the version-control tool.
    pub open spec fn payload(self) -> Seq<char> {
        match self {
            VersionV::Commit(s) => s,
            VersionV::BranchHead(s) => s,
            VersionV::Tag(s) => s,
        }
    }

    /// A reference is well formed when its payload is non-empty and, for a
    /// commit, consists of ASCII alphanumeric characters alone.
    pub open spec fn valid(self) -> bool {
        match self {
            VersionV::Commit(s) => s.len() > 0 && forall|i: int|
                0 <= i < s.len() ==> is_ascii_alnum(#[trigger] s[i]),
            VersionV::BranchHead(s) => s.len() > 0,
            VersionV::Tag(s) => s.len() > 0,
        }
    }
}

/// ASCII digits, lower-case letters and upper-case letters.
pub open spec fn is_ascii_alnum(c: char) -> bool {
    (48 <= c as u32 && c as u32 <= 57) || (97 <= c as u32 && c as u32 <= 122) || (65 <= c as u32
        && c as u32 <= 90)
}

/// Spec-level shape of a version descriptor: repository plus reference.
#[verifier::ext_equal]
pub struct RepoVersionV {
    pub repo: Seq<char>,
    pub version: VersionV,
}

impl RepoVersionV {
    /// A descriptor is well formed when the repository URL is non-empty and
    /// the reference is well formed.
    pub open spec fn valid(self) -> bool {
        self.repo.len() > 0 && self.version.valid()
    }
}

/// Spec-level shape of an instance record: the persisted unit.
#[verifier::ext_equal]
pub struct InstanceV {
    pub name: Seq<char>,
    pub data: Seq<char>,
    pub version: RepoVersionV,
    pub binary: BinaryV,
}

} // verus!
