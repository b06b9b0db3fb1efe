use vstd::prelude::*;

verus! {

/// What can go wrong in the supervisor, the pairing code and the plugin
/// install. Each is reported to the user; none ends the application.
#[derive(Debug, Clone, PartialEq, Eq)]
pub enum BridgeError {
    /// The bridge executable could not be started; the cause as text.
    SpawnFailed(String),
    /// A start was asked for while the bridge runs.
    AlreadyRunning,
    /// The running bridge could not be terminated; the cause as text.
    TerminationFailed(String),
    /// A directory that the operation needs could not be resolved.
    ResourcePathUnavailable(String),
    /// The platform has no known location for the operation.
    UnsupportedPlatform,
    /// The pairing code could not be encoded or serialized.
    EncodingFailed(String),
    /// Copying a directory tree failed.
    FilesystemCopyFailed(String),
}

} // verus!
