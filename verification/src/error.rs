//! Error taxonomy of the instance lifecycle manager. Every failing step of
//! the lifecycle surfaces exactly one of these to its caller.
use vstd::prelude::*;

verus! {

/// Everything that can go wrong while creating, reloading, repairing or
/// launching an instance.
#[derive(Clone, Copy, Debug, PartialEq, Eq, Structural)]
pub enum Error {
    /// The version-control tool exited non-zero while cloning.
    CloneFailed,
    /// The version-control tool exited non-zero while checking out.
    CheckoutFailed,
    /// An existing working tree was expected at a path that does not exist.
    RepoMissing,
    /// The build tool exited non-zero.
    CompileFailed,
    /// A reported-successful build left no artifact at the expected path.
    ArtifactMissing,
    /// No descriptor file exists where an instance was to be reloaded from.
    DescriptorMissing,
    /// The descriptor file does not parse as a descriptor.
    MalformedDescriptor,
    /// An external process could not be started at all.
    SpawnFailed,
    /// A launched process terminated without an exit code.
    NoExitCode,
    /// A path that must have a parent directory has none.
    PathResolutionFailed,
    /// A filesystem write or directory creation failed.
    IoFailed,
}

} // verus!
