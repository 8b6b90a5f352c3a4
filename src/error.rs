use vstd::prelude::*;

verus! {

/// Why an installation stopped.
#[derive(Debug, Clone, PartialEq, Eq)]
pub enum InstallError {
    /// Removal of a protected path (the home directory or the root) was refused.
    SafetyViolation,
    /// No download artifact exists for the host operating system and architecture.
    UnsupportedPlatform,
    /// The user's home or data directory could not be determined.
    HomeDirectoryUnknown,
    /// The transport failed before or while a response was read.
    NetworkError(String),
    /// The server answered with a non-success HTTP status.
    ServerError(u16),
    /// A local file could not be created, written, removed or given permissions.
    LocalIoError(String),
    /// The archive's index could not be read.
    ArchiveCorrupt(String),
    /// A registry value could not be written.
    RegistryError(String),
}

} // verus!
