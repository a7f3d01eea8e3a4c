use vstd::prelude::*;

verus! {

/// The error taxonomy of the synchronization engine.
///
/// Every operation on the repository reports its failure as exactly one of
/// these kinds, so that a caller can tell "retry later" (`NetworkError`)
/// from "caller error" (`RefNotFound`, `RemoteNotFound`) from "needs
/// operator attention" (`ResetFailed`, `BootstrapFailure`). Each variant
/// carries the engine-reported message.
#[derive(Debug, Clone, PartialEq, Eq)]
pub enum SyncError {
    /// Neither opening nor cloning produced a usable repository at startup;
    /// fatal, the service must not start serving.
    BootstrapFailure(String),
    /// A requested branch or reference name does not resolve.
    RefNotFound(String),
    /// A requested remote name is not configured.
    RemoteNotFound(String),
    /// A fetch/transfer could not complete; no automatic retry is made.
    NetworkError(String),
    /// The working tree or index could not be updated to match an
    /// already-advanced remote-tracking reference. The tracking reference
    /// stays ahead of the working tree until a later pull reconciles them.
    ResetFailed(String),
    /// A result could not be serialized for transport.
    EncodingFailure(String),
    /// Any other failure reported by the underlying engine.
    EngineFailure(String),
}

impl SyncError {
    /// The engine-reported message carried by the error.
    pub open spec fn spec_message(&self) -> Seq<char> {
        match self {
            SyncError::BootstrapFailure(m) => m@,
            SyncError::RefNotFound(m) => m@,
            SyncError::RemoteNotFound(m) => m@,
            SyncError::NetworkError(m) => m@,
            SyncError::ResetFailed(m) => m@,
            SyncError::EncodingFailure(m) => m@,
            SyncError::EngineFailure(m) => m@,
        }
    }

    /// The engine-reported message carried by the error.
    pub fn message(&self) -> (r: &String)
        ensures
            r@ == self.spec_message(),
    {
        match self {
            SyncError::BootstrapFailure(m) => m,
            SyncError::RefNotFound(m) => m,
            SyncError::RemoteNotFound(m) => m,
            SyncError::NetworkError(m) => m,
            SyncError::ResetFailed(m) => m,
            SyncError::EncodingFailure(m) => m,
            SyncError::EngineFailure(m) => m,
        }
    }
}

} // verus!
