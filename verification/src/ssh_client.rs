use vstd::prelude::*;
use vstd::string::StringExecFns;

use crate::codec::{decode_clear, decode_ok, decoded};
use crate::config::{AuthMode, Entry};
use crate::error::SshError;

verus! {

// Connecting to a stored entry is one irreversible choice between two
// backends, made by probing for an installed external client, followed by
// that backend's own protocol. Everything here is the decision logic: the
// caller probes, spawns, connects and pumps bytes, and feeds the outcomes
// back in as events.

/// The mechanism that will speak the remote-shell protocol.
#[derive(Clone, Copy, Debug, PartialEq, Eq, Structural)]
pub enum Backend {
    /// Delegate to a locally installed client in the caller's terminal.
    ExternalProcess,
    /// Open our own transport, handshake and channel.
    EmbeddedProtocol,
}

/// Pick the backend once per connection attempt: the external client where
/// the probe found one, the embedded protocol otherwise. A failure of the
/// chosen backend is surfaced, never retried on the other.
pub fn select_backend(external_available: bool) -> (r: Backend)
    ensures
        r == (if external_available {
            Backend::ExternalProcess
        } else {
            Backend::EmbeddedProtocol
        }),
{
    if external_available {
        Backend::ExternalProcess
    } else {
        Backend::EmbeddedProtocol
    }
}

/// One credential the embedded backend will offer, already decoded to the
/// secret text.
#[derive(Clone, Debug)]
pub enum Attempt {
    UseKey(String),
    UsePassword(String),
}

/// What an attempt is mathematically: which credential, spelling what text.
pub enum AttemptV {
    Key(Seq<char>),
    Pwd(Seq<char>),
}

impl View for Attempt {
    type V = AttemptV;

    open spec fn view(&self) -> AttemptV {
        match self {
            Attempt::UseKey(t) => AttemptV::Key(t@),
            Attempt::UsePassword(t) => AttemptV::Pwd(t@),
        }
    }
}

/// The ordered credential attempts an entry's auth mode calls for.
///
/// Password mode offers the password alone; key mode the key alone; under
/// `Both` every present credential is offered, the key strictly first.
/// `MissingCredential` arises exactly where the mode's required credential
/// is absent (under `Both`, where neither is present); `CodecError` where a
/// credential the mode would offer is not a well-formed stored blob.
pub open spec fn resolve_spec(e: Entry) -> Result<Seq<AttemptV>, SshError> {
    match e.auth_mode {
        AuthMode::Password => match e.password {
            Some(p) => if decode_ok(p@) {
                Ok(seq![AttemptV::Pwd(decoded(p@))])
            } else {
                Err(SshError::CodecError)
            },
            None => Err(SshError::MissingCredential),
        },
        AuthMode::Rsa => match e.rsa_key {
            Some(k) => if decode_ok(k@) {
                Ok(seq![AttemptV::Key(decoded(k@))])
            } else {
                Err(SshError::CodecError)
            },
            None => Err(SshError::MissingCredential),
        },
        AuthMode::Both => match (e.rsa_key, e.password) {
            (None, None) => Err(SshError::MissingCredential),
            (Some(k), None) => if decode_ok(k@) {
                Ok(seq![AttemptV::Key(decoded(k@))])
            } else {
                Err(SshError::CodecError)
            },
            (None, Some(p)) => if decode_ok(p@) {
                Ok(seq![AttemptV::Pwd(decoded(p@))])
            } else {
                Err(SshError::CodecError)
            },
            (Some(k), Some(p)) => if !decode_ok(k@) {
                Err(SshError::CodecError)
            } else if !decode_ok(p@) {
                Err(SshError::CodecError)
            } else {
                Ok(seq![AttemptV::Key(decoded(k@)), AttemptV::Pwd(decoded(p@))])
            },
        },
    }
}

/// Resolve an entry into its ordered list of credential attempts.
pub fn resolve_attempts(entry: &Entry) -> (r: Result<Vec<Attempt>, SshError>)
    ensures
        (match r {
            Ok(v) => {
                &&& resolve_spec(*entry) matches Ok(m)
                &&& v@.map_values(|a: Attempt| a@) =~= m
            },
            Err(e) => resolve_spec(*entry) == Err::<Seq<AttemptV>, SshError>(e),
        }),
{
    match entry.auth_mode {
        AuthMode::Password => match &entry.password {
            Some(p) => match decode_clear(p.as_str()) {
                Ok(t) => Ok(vec![Attempt::UsePassword(t)]),
                Err(e) => Err(e),
            },
            None => Err(SshError::MissingCredential),
        },
        AuthMode::Rsa => match &entry.rsa_key {
            Some(k) => match decode_clear(k.as_str()) {
                Ok(t) => Ok(vec![Attempt::UseKey(t)]),
                Err(e) => Err(e),
            },
            None => Err(SshError::MissingCredential),
        },
        AuthMode::Both => match (&entry.rsa_key, &entry.password) {
            (None, None) => Err(SshError::MissingCredential),
            (Some(k), None) => match decode_clear(k.as_str()) {
                Ok(t) => Ok(vec![Attempt::UseKey(t)]),
                Err(e) => Err(e),
            },
            (None, Some(p)) => match decode_clear(p.as_str()) {
                Ok(t) => Ok(vec![Attempt::UsePassword(t)]),
                Err(e) => Err(e),
            },
            (Some(k), Some(p)) => match decode_clear(k.as_str()) {
                Ok(kt) => match decode_clear(p.as_str()) {
                    Ok(pt) => Ok(vec![Attempt::UseKey(kt), Attempt::UsePassword(pt)]),
                    Err(e) => Err(e),
                },
                Err(e) => Err(e),
            },
        },
    }
}

/// Law: under `Both` with both credentials stored and well-formed, the
/// attempt order is exactly the key first, then the password.
pub proof fn lemma_both_attempt_order(e: Entry)
    requires
        e.auth_mode is Both,
        e.rsa_key is Some,
        e.password is Some,
        decode_ok(e.rsa_key->0@),
        decode_ok(e.password->0@),
    ensures
        resolve_spec(e) == Ok::<Seq<AttemptV>, SshError>(
            seq![
                AttemptV::Key(decoded(e.rsa_key->0@)),
                AttemptV::Pwd(decoded(e.password->0@)),
            ],
        ),
{
}

/// Law: in password mode with no stored password, resolution fails with
/// `MissingCredential`. Resolution produces no attempt list then, so the
/// connection logic hands its driver nothing to put on the network.
pub proof fn lemma_password_mode_needs_password(e: Entry)
    requires
        e.auth_mode is Password,
        e.password is None,
    ensures
        resolve_spec(e) == Err::<Seq<AttemptV>, SshError>(SshError::MissingCredential),
{
}

// --- The embedded-protocol backend, as a state machine. ---
//
// The driver performs one outside operation per action, then hands the
// outcome back as an event. The machine never asks for network work before
// the protocol allows it, tries the resolved attempts strictly in order,
// and turns the first acceptance into a session.

/// Where the embedded connection stands.
#[derive(Clone, Copy, Debug, PartialEq, Eq, Structural)]
pub enum EmState {
    /// Waiting for the raw connection to `ip:22`.
    Connecting,
    /// Waiting for the protocol handshake.
    Handshaking,
    /// Waiting for the verdict on the attempt at this position.
    Authenticating { idx: usize },
    /// Authenticated; waiting for the interactive channel.
    OpeningChannel,
    /// Waiting for the pseudo-terminal.
    RequestingPty,
    /// Waiting for the remote shell.
    StartingShell,
    /// The duplex copy loop is running.
    Pumping,
    /// Waiting for the channel to close.
    Closing,
    /// The session ended by remote closure.
    Done,
    /// The connection failed; terminal, never retried.
    Failed(SshError),
}

/// What the driver reports back after performing an action.
#[derive(Clone, Copy, Debug, PartialEq, Eq, Structural)]
pub enum EmEvent {
    TcpOk,
    TcpFailed,
    HandshakeOk,
    HandshakeFailed,
    AuthAccepted,
    AuthRejected,
    ChannelOk,
    ChannelFailed,
    PtyOk,
    PtyFailed,
    ShellOk,
    ShellFailed,
    PumpDone,
    PumpFailed,
    CloseOk,
    CloseFailed,
}

/// The one outside operation the driver is asked to perform next.
#[derive(Clone, Copy, Debug, PartialEq, Eq, Structural)]
pub enum EmAction {
    /// Open the raw connection to the entry's `ip:22`.
    ConnectTcp,
    /// Perform the protocol handshake.
    DoHandshake,
    /// Offer the attempt at this position of the resolved list.
    TryAuth(usize),
    /// Open the interactive channel.
    OpenChannel,
    /// Request a pseudo-terminal on the channel.
    RequestPty,
    /// Start the remote shell.
    StartShell,
    /// Run the duplex copy loop until the remote side ends it.
    RunPump,
    /// Close the channel and the connection.
    CloseChannel,
    /// Nothing more: the machine is in a terminal state.
    Stop,
}

/// The transition relation, over the length `n` of the attempt list.
///
/// A handshake fault is `HandshakeFailure`; a rejection of the last
/// attempt (or an empty list) is `AuthenticationFailed`; every other
/// fault, and any event that does not belong to the state, is a
/// `TransportError`. Terminal states ask for nothing further.
pub open spec fn em_step_spec(n: int, s: EmState, e: EmEvent) -> (EmState, EmAction) {
    match s {
        EmState::Connecting => match e {
            EmEvent::TcpOk => (EmState::Handshaking, EmAction::DoHandshake),
            _ => (EmState::Failed(SshError::TransportError), EmAction::Stop),
        },
        EmState::Handshaking => match e {
            EmEvent::HandshakeOk => if n > 0 {
                (EmState::Authenticating { idx: 0 }, EmAction::TryAuth(0))
            } else {
                (EmState::Failed(SshError::AuthenticationFailed), EmAction::Stop)
            },
            EmEvent::HandshakeFailed => (EmState::Failed(SshError::HandshakeFailure), EmAction::Stop),
            _ => (EmState::Failed(SshError::TransportError), EmAction::Stop),
        },
        EmState::Authenticating { idx } => match e {
            EmEvent::AuthAccepted => (EmState::OpeningChannel, EmAction::OpenChannel),
            EmEvent::AuthRejected => if idx + 1 < n {
                (
                    EmState::Authenticating { idx: (idx + 1) as usize },
                    EmAction::TryAuth((idx + 1) as usize),
                )
            } else {
                (EmState::Failed(SshError::AuthenticationFailed), EmAction::Stop)
            },
            _ => (EmState::Failed(SshError::TransportError), EmAction::Stop),
        },
        EmState::OpeningChannel => match e {
            EmEvent::ChannelOk => (EmState::RequestingPty, EmAction::RequestPty),
            _ => (EmState::Failed(SshError::TransportError), EmAction::Stop),
        },
        EmState::RequestingPty => match e {
            EmEvent::PtyOk => (EmState::StartingShell, EmAction::StartShell),
            _ => (EmState::Failed(SshError::TransportError), EmAction::Stop),
        },
        EmState::StartingShell => match e {
            EmEvent::ShellOk => (EmState::Pumping, EmAction::RunPump),
            _ => (EmState::Failed(SshError::TransportError), EmAction::Stop),
        },
        EmState::Pumping => match e {
            EmEvent::PumpDone => (EmState::Closing, EmAction::CloseChannel),
            _ => (EmState::Failed(SshError::TransportError), EmAction::Stop),
        },
        EmState::Closing => match e {
            EmEvent::CloseOk => (EmState::Done, EmAction::Stop),
            _ => (EmState::Failed(SshError::TransportError), EmAction::Stop),
        },
        EmState::Done => (EmState::Done, EmAction::Stop),
        EmState::Failed(err) => (EmState::Failed(err), EmAction::Stop),
    }
}

/// Advance the embedded connection by one reported outcome.
pub fn embedded_step(attempts: &Vec<Attempt>, s: EmState, e: EmEvent) -> (r: (EmState, EmAction))
    ensures
        r == em_step_spec(attempts@.len() as int, s, e),
{
    let n = attempts.len();
    match s {
        EmState::Connecting => match e {
            EmEvent::TcpOk => (EmState::Handshaking, EmAction::DoHandshake),
            _ => (EmState::Failed(SshError::TransportError), EmAction::Stop),
        },
        EmState::Handshaking => match e {
            EmEvent::HandshakeOk => {
                if n > 0 {
                    (EmState::Authenticating { idx: 0 }, EmAction::TryAuth(0))
                } else {
                    (EmState::Failed(SshError::AuthenticationFailed), EmAction::Stop)
                }
            },
            EmEvent::HandshakeFailed => (
                EmState::Failed(SshError::HandshakeFailure),
                EmAction::Stop,
            ),
            _ => (EmState::Failed(SshError::TransportError), EmAction::Stop),
        },
        EmState::Authenticating { idx } => match e {
            EmEvent::AuthAccepted => (EmState::OpeningChannel, EmAction::OpenChannel),
            EmEvent::AuthRejected => {
                if n > 0 && idx < n - 1 {
                    let next = idx + 1;
                    (EmState::Authenticating { idx: next }, EmAction::TryAuth(next))
                } else {
                    (EmState::Failed(SshError::AuthenticationFailed), EmAction::Stop)
                }
            },
            _ => (EmState::Failed(SshError::TransportError), EmAction::Stop),
        },
        EmState::OpeningChannel => match e {
            EmEvent::ChannelOk => (EmState::RequestingPty, EmAction::RequestPty),
            _ => (EmState::Failed(SshError::TransportError), EmAction::Stop),
        },
        EmState::RequestingPty => match e {
            EmEvent::PtyOk => (EmState::StartingShell, EmAction::StartShell),
            _ => (EmState::Failed(SshError::TransportError), EmAction::Stop),
        },
        EmState::StartingShell => match e {
            EmEvent::ShellOk => (EmState::Pumping, EmAction::RunPump),
            _ => (EmState::Failed(SshError::TransportError), EmAction::Stop),
        },
        EmState::Pumping => match e {
            EmEvent::PumpDone => (EmState::Closing, EmAction::CloseChannel),
            _ => (EmState::Failed(SshError::TransportError), EmAction::Stop),
        },
        EmState::Closing => match e {
            EmEvent::CloseOk => (EmState::Done, EmAction::Stop),
            _ => (EmState::Failed(SshError::TransportError), EmAction::Stop),
        },
        EmState::Done => (EmState::Done, EmAction::Stop),
        EmState::Failed(err) => (EmState::Failed(err), EmAction::Stop),
    }
}

/// Resolve an entry and set the embedded backend at its start.
///
/// On success the driver receives the attempt list, the starting state and
/// the first action, the raw connection. On failure — a missing or
/// malformed credential — there is no attempt list and no action: nothing
/// touches the network.
pub fn embedded_begin(entry: &Entry) -> (r: Result<(Vec<Attempt>, EmState, EmAction), SshError>)
    ensures
        (match r {
            Ok(t) => {
                &&& resolve_spec(*entry) matches Ok(m)
                &&& t.0@.map_values(|a: Attempt| a@) =~= m
                &&& t.1 == EmState::Connecting
                &&& t.2 == EmAction::ConnectTcp
            },
            Err(e) => resolve_spec(*entry) == Err::<Seq<AttemptV>, SshError>(e),
        }),
{
    match resolve_attempts(entry) {
        Ok(v) => Ok((v, EmState::Connecting, EmAction::ConnectTcp)),
        Err(e) => Err(e),
    }
}

/// Law: for a `Both` entry with both credentials stored, a transport that
/// rejects the key attempt does not fail the connection: the machine moves
/// to the password attempt, and its acceptance authenticates the session.
pub proof fn lemma_key_rejection_falls_back(e: Entry)
    requires
        e.auth_mode is Both,
        e.rsa_key is Some,
        e.password is Some,
        decode_ok(e.rsa_key->0@),
        decode_ok(e.password->0@),
    ensures
        resolve_spec(e) is Ok,
        resolve_spec(e) matches Ok(m) ==> ({
            &&& m.len() == 2
            &&& m[0] is Key
            &&& m[1] is Pwd
            &&& em_step_spec(m.len() as int, EmState::Authenticating { idx: 0 }, EmEvent::AuthRejected)
                == (EmState::Authenticating { idx: 1 }, EmAction::TryAuth(1usize))
            &&& em_step_spec(m.len() as int, EmState::Authenticating { idx: 1 }, EmEvent::AuthAccepted)
                == (EmState::OpeningChannel, EmAction::OpenChannel)
        }),
{
}

// --- The external-process backend. ---

/// Everything the driver needs to invoke the external client: the
/// destination, and the decoded key material to place in a fresh
/// access-restricted temporary file for the invocation's duration.
pub struct ExternalPlan {
    pub destination: String,
    pub key_text: Option<String>,
}

/// The `username@ip` destination the external client is pointed at.
pub open spec fn dest_of(e: Entry) -> Seq<char> {
    e.username@ + "@"@ + e.ip@
}

/// What the external invocation must look like: in password mode no
/// credential is pre-supplied (the client prompts); a stored key in key
/// or both mode is decoded for the temporary key file. Key mode requires
/// the key; under both, an absent key falls back to the client's own
/// password prompt, and only an entry with neither credential fails with
/// `MissingCredential`.
pub open spec fn external_plan_spec(e: Entry) -> Result<(Seq<char>, Option<Seq<char>>), SshError> {
    match e.auth_mode {
        AuthMode::Password => Ok((dest_of(e), None::<Seq<char>>)),
        AuthMode::Rsa => match e.rsa_key {
            Some(k) => if decode_ok(k@) {
                Ok((dest_of(e), Some(decoded(k@))))
            } else {
                Err(SshError::CodecError)
            },
            None => Err(SshError::MissingCredential),
        },
        AuthMode::Both => match e.rsa_key {
            Some(k) => if decode_ok(k@) {
                Ok((dest_of(e), Some(decoded(k@))))
            } else {
                Err(SshError::CodecError)
            },
            None => if e.password is Some {
                Ok((dest_of(e), None::<Seq<char>>))
            } else {
                Err(SshError::MissingCredential)
            },
        },
    }
}

/// Plan the external client's invocation for an entry.
pub fn external_plan(entry: &Entry) -> (r: Result<ExternalPlan, SshError>)
    ensures
        (match r {
            Ok(p) => {
                &&& external_plan_spec(*entry) matches Ok(m)
                &&& p.destination@ == m.0
                &&& (match p.key_text {
                    Some(t) => m.1 == Some(t@),
                    None => m.1 is None,
                })
            },
            Err(e) => external_plan_spec(*entry) == Err::<(Seq<char>, Option<Seq<char>>), SshError>(
                e,
            ),
        }),
{
    let mut destination = entry.username.clone();
    destination.append("@");
    destination.append(entry.ip.as_str());
    match entry.auth_mode {
        AuthMode::Password => Ok(ExternalPlan { destination, key_text: None }),
        AuthMode::Rsa => match &entry.rsa_key {
            Some(k) => match decode_clear(k.as_str()) {
                Ok(t) => Ok(ExternalPlan { destination, key_text: Some(t) }),
                Err(e) => Err(e),
            },
            None => Err(SshError::MissingCredential),
        },
        AuthMode::Both => match &entry.rsa_key {
            Some(k) => match decode_clear(k.as_str()) {
                Ok(t) => Ok(ExternalPlan { destination, key_text: Some(t) }),
                Err(e) => Err(e),
            },
            None => {
                if entry.password.is_some() {
                    Ok(ExternalPlan { destination, key_text: None })
                } else {
                    Err(SshError::MissingCredential)
                }
            },
        },
    }
}

/// Read the external client's exit into the library's failure taxonomy:
/// exit code zero is success, any other code is `BackendExitFailure` with
/// that code, and an end without a code (the process was killed by a
/// signal) is a transport-level fault.
pub fn interpret_exit(code: Option<i32>) -> (r: Result<(), SshError>)
    ensures
        (match code {
            Some(c) => if c == 0 {
                r == Ok::<(), SshError>(())
            } else {
                r == Err::<(), SshError>(SshError::BackendExitFailure(c))
            },
            None => r == Err::<(), SshError>(SshError::TransportError),
        }),
{
    match code {
        Some(c) => {
            if c == 0 {
                Ok(())
            } else {
                Err(SshError::BackendExitFailure(c))
            }
        },
        None => Err(SshError::TransportError),
    }
}

// --- The interactive I/O pump's decision rule. ---

/// What one poll of the pump's two directions observed.
#[derive(Clone, Copy, Debug, PartialEq, Eq, Structural)]
pub enum PumpEvent {
    /// The remote channel yielded bytes.
    RemoteData,
    /// The remote channel had nothing yet; not a fault.
    RemoteWouldBlock,
    /// Local input yielded bytes.
    LocalData,
    /// Local input had nothing yet; not a fault.
    LocalWouldBlock,
    /// The remote side signalled end-of-stream.
    RemoteEof,
    /// A genuine read or write failure.
    IoFault,
}

/// What the pump does with that observation.
#[derive(Clone, Copy, Debug, PartialEq, Eq, Structural)]
pub enum PumpStep {
    /// Write the remote bytes to local output and go on.
    CopyToLocal,
    /// Write the local bytes to the remote channel and go on.
    CopyToRemote,
    /// Nothing to move this round; go on.
    Idle,
    /// The remote side ended the session: stop cleanly.
    Finish,
    /// A genuine failure: stop and surface `TransportError`.
    Abort,
}

/// The duplex copy loop's rule for one observation: data moves to the
/// other side, a read that would block is tolerated, end-of-stream from
/// the remote side terminates the loop, and only a genuine I/O failure
/// aborts it.
pub fn pump_step(e: PumpEvent) -> (r: PumpStep)
    ensures
        (match e {
            PumpEvent::RemoteData => r == PumpStep::CopyToLocal,
            PumpEvent::LocalData => r == PumpStep::CopyToRemote,
            PumpEvent::RemoteWouldBlock | PumpEvent::LocalWouldBlock => r == PumpStep::Idle,
            PumpEvent::RemoteEof => r == PumpStep::Finish,
            PumpEvent::IoFault => r == PumpStep::Abort,
        }),
{
    match e {
        PumpEvent::RemoteData => PumpStep::CopyToLocal,
        PumpEvent::LocalData => PumpStep::CopyToRemote,
        PumpEvent::RemoteWouldBlock | PumpEvent::LocalWouldBlock => PumpStep::Idle,
        PumpEvent::RemoteEof => PumpStep::Finish,
        PumpEvent::IoFault => PumpStep::Abort,
    }
}

/// The bytes one pump observation moves: exactly the first `filled` bytes
/// of the read buffer — what the read put there — never the stale
/// remainder behind them. A count beyond the buffer takes the whole
/// buffer.
pub fn pump_chunk(buf: &[u8], filled: usize) -> (r: Vec<u8>)
    ensures
        r@ == buf@.take(
            if filled <= buf@.len() {
                filled as int
            } else {
                buf@.len() as int
            },
        ),
{
    let n = if filled <= buf.len() {
        filled
    } else {
        buf.len()
    };
    let mut out: Vec<u8> = Vec::new();
    let mut i: usize = 0;
    while i < n
        invariant
            n <= buf@.len(),
            0 <= i <= n,
            out@ =~= buf@.subrange(0, i as int),
        decreases n - i,
    {
        out.push(buf[i]);
        i += 1;
    }
    proof {
        assert(out@ =~= buf@.take(n as int));
    }
    out
}

} // verus!
