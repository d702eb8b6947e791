use vstd::prelude::*;

verus! {

/// Every terminal failure the library can report.
///
/// Each operation surfaces exactly one of these; none is swallowed and none
/// triggers a retry on the other connection backend.
#[derive(Clone, Copy, Debug, PartialEq, Eq, Structural)]
pub enum SshError {
    /// The entry lacks the credential its auth mode requires.
    MissingCredential,
    /// A stored secret is not a well-formed encoded blob.
    CodecError,
    /// The embedded protocol handshake failed; fatal, never retried.
    HandshakeFailure,
    /// Every credential attempt was rejected, or none could be made.
    AuthenticationFailed,
    /// The external client process exited with this non-zero code.
    BackendExitFailure(i32),
    /// The sync peer answered with this error status.
    SyncRejected(u16),
    /// A socket, channel or process-level fault.
    TransportError,
}

} // verus!
