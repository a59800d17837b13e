use vstd::prelude::*;

verus! {

/// The failures that the provisioning logic decides on.
#[derive(Clone, Debug)]
pub enum ToolchainError {
    /// No prebuilt toolchain is published for this host: build it locally.
    UnsupportedPlatform,
    /// The release `tag` has no asset named `asset`.
    AssetNotFound { asset: String, tag: String },
    /// A toolchain directory lacks a file or directory it must hold.
    Validation { path: String },
    /// No toolchain is installed and fetching one is not allowed.
    OfflineUnavailable,
    /// The component selection names no known set of components.
    InvalidComponents { value: String },
    /// Neither a build directory nor a home directory is known.
    MissingBuildRoot,
    /// The libc build was skipped, but one of its sysroots is missing.
    MissingSysroot { path32: String, path64: String },
    /// The toolchain manager reports another sysroot than the one registered.
    SysrootMismatch { registered: String, reported: String },
    /// The toolchain `name` at `path` lacks the target library directory `lib_dir`.
    IncompleteToolchain { name: String, path: String, lib_dir: String },
    /// The libc can only be built on Linux.
    LibcUnsupported,
}

} // verus!
