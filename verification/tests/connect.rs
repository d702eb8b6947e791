use ssh_cli::codec::encode_clear;
use ssh_cli::config::{AuthMode, Entry};
use ssh_cli::error::SshError;
use ssh_cli::ssh_client::{
    embedded_begin, embedded_step, external_plan, interpret_exit, pump_chunk, pump_step,
    resolve_attempts, select_backend, Attempt, Backend, EmAction, EmEvent, EmState, PumpEvent,
    PumpStep,
};

fn entry(auth_mode: AuthMode, password: Option<&str>, rsa_key: Option<&str>) -> Entry {
    Entry {
        name: "box".to_string(),
        ip: "192.0.2.7".to_string(),
        username: "alice".to_string(),
        password: password.map(encode_clear),
        rsa_key: rsa_key.map(encode_clear),
        auth_mode,
    }
}

#[test]
fn backend_selection_follows_probe() {
    assert_eq!(select_backend(true), Backend::ExternalProcess);
    assert_eq!(select_backend(false), Backend::EmbeddedProtocol);
}

#[test]
fn both_mode_tries_key_then_password() {
    let e = entry(AuthMode::Both, Some("pw"), Some("my key text"));
    let attempts = resolve_attempts(&e).unwrap();
    assert_eq!(attempts.len(), 2);
    match &attempts[0] {
        Attempt::UseKey(t) => assert_eq!(t, "my key text"),
        Attempt::UsePassword(_) => panic!("password must not come first"),
    }
    match &attempts[1] {
        Attempt::UsePassword(t) => assert_eq!(t, "pw"),
        Attempt::UseKey(_) => panic!("key must not come twice"),
    }
}

#[test]
fn both_mode_with_one_credential_offers_it_alone() {
    let only_key = resolve_attempts(&entry(AuthMode::Both, None, Some("my key text"))).unwrap();
    assert_eq!(only_key.len(), 1);
    assert!(matches!(&only_key[0], Attempt::UseKey(t) if t == "my key text"));

    let only_pw = resolve_attempts(&entry(AuthMode::Both, Some("pw"), None)).unwrap();
    assert_eq!(only_pw.len(), 1);
    assert!(matches!(&only_pw[0], Attempt::UsePassword(t) if t == "pw"));
}

#[test]
fn missing_credentials_are_rejected_before_any_attempt() {
    assert!(matches!(
        resolve_attempts(&entry(AuthMode::Password, None, Some("my key text"))),
        Err(SshError::MissingCredential)
    ));
    assert!(matches!(
        resolve_attempts(&entry(AuthMode::Rsa, Some("pw"), None)),
        Err(SshError::MissingCredential)
    ));
    assert!(matches!(
        resolve_attempts(&entry(AuthMode::Both, None, None)),
        Err(SshError::MissingCredential)
    ));
    assert!(matches!(
        embedded_begin(&entry(AuthMode::Password, None, None)),
        Err(SshError::MissingCredential)
    ));
}

#[test]
fn malformed_stored_secret_is_codec_error() {
    let mut e = entry(AuthMode::Password, Some("pw"), None);
    e.password = Some("not-base64!!".to_string());
    assert!(matches!(resolve_attempts(&e), Err(SshError::CodecError)));
}

#[test]
fn embedded_fake_transport_password_fallback_succeeds() {
    // A transport that accepts only password auth: it rejects the key
    // attempt of a `Both` entry, and the machine must still reach a
    // session through the password fallback.
    let e = entry(AuthMode::Both, Some("pw"), Some("my key text"));
    let (attempts, mut state, mut action) = embedded_begin(&e).unwrap();
    assert_eq!(state, EmState::Connecting);
    assert_eq!(action, EmAction::ConnectTcp);

    let outcomes = [
        (EmEvent::TcpOk, EmAction::DoHandshake),
        (EmEvent::HandshakeOk, EmAction::TryAuth(0)),
        (EmEvent::AuthRejected, EmAction::TryAuth(1)),
        (EmEvent::AuthAccepted, EmAction::OpenChannel),
        (EmEvent::ChannelOk, EmAction::RequestPty),
        (EmEvent::PtyOk, EmAction::StartShell),
        (EmEvent::ShellOk, EmAction::RunPump),
        (EmEvent::PumpDone, EmAction::CloseChannel),
        (EmEvent::CloseOk, EmAction::Stop),
    ];
    for (event, expected_action) in outcomes {
        let (next_state, next_action) = embedded_step(&attempts, state, event);
        assert_eq!(next_action, expected_action);
        state = next_state;
        action = next_action;
    }
    assert_eq!(state, EmState::Done);
    assert_eq!(action, EmAction::Stop);
}

#[test]
fn embedded_all_attempts_rejected_fails_authentication() {
    let e = entry(AuthMode::Both, Some("pw"), Some("my key text"));
    let (attempts, state, _) = embedded_begin(&e).unwrap();
    let (state, _) = embedded_step(&attempts, state, EmEvent::TcpOk);
    let (state, _) = embedded_step(&attempts, state, EmEvent::HandshakeOk);
    let (state, _) = embedded_step(&attempts, state, EmEvent::AuthRejected);
    let (state, action) = embedded_step(&attempts, state, EmEvent::AuthRejected);
    assert_eq!(state, EmState::Failed(SshError::AuthenticationFailed));
    assert_eq!(action, EmAction::Stop);
}

#[test]
fn embedded_handshake_failure_is_fatal() {
    let e = entry(AuthMode::Password, Some("pw"), None);
    let (attempts, state, _) = embedded_begin(&e).unwrap();
    let (state, _) = embedded_step(&attempts, state, EmEvent::TcpOk);
    let (state, action) = embedded_step(&attempts, state, EmEvent::HandshakeFailed);
    assert_eq!(state, EmState::Failed(SshError::HandshakeFailure));
    assert_eq!(action, EmAction::Stop);
}

#[test]
fn embedded_tcp_failure_is_transport_error() {
    let e = entry(AuthMode::Password, Some("pw"), None);
    let (attempts, state, _) = embedded_begin(&e).unwrap();
    let (state, _) = embedded_step(&attempts, state, EmEvent::TcpFailed);
    assert_eq!(state, EmState::Failed(SshError::TransportError));
}

#[test]
fn external_plan_password_mode_presupplies_nothing() {
    let plan = external_plan(&entry(AuthMode::Password, Some("pw"), None)).unwrap();
    assert_eq!(plan.destination, "alice@192.0.2.7");
    assert!(plan.key_text.is_none());
}

#[test]
fn external_plan_key_modes_decode_the_key() {
    let plan = external_plan(&entry(AuthMode::Rsa, None, Some("my key text"))).unwrap();
    assert_eq!(plan.destination, "alice@192.0.2.7");
    assert_eq!(plan.key_text.as_deref(), Some("my key text"));

    let plan = external_plan(&entry(AuthMode::Both, Some("pw"), Some("my key text"))).unwrap();
    assert_eq!(plan.key_text.as_deref(), Some("my key text"));

    assert!(matches!(
        external_plan(&entry(AuthMode::Rsa, Some("pw"), None)),
        Err(SshError::MissingCredential)
    ));
}

#[test]
fn external_plan_both_without_key_falls_back_to_the_prompt() {
    // Under `Both` a missing key is not an error while a password is
    // stored: the client is run as in password mode and prompts itself.
    let plan = external_plan(&entry(AuthMode::Both, Some("pw"), None)).unwrap();
    assert_eq!(plan.destination, "alice@192.0.2.7");
    assert!(plan.key_text.is_none());

    assert!(matches!(
        external_plan(&entry(AuthMode::Both, None, None)),
        Err(SshError::MissingCredential)
    ));
}

#[test]
fn nonzero_exit_is_backend_exit_failure() {
    assert_eq!(
        interpret_exit(Some(3)),
        Err(SshError::BackendExitFailure(3))
    );
    assert_eq!(interpret_exit(Some(0)), Ok(()));
    assert_eq!(interpret_exit(None), Err(SshError::TransportError));
}

#[test]
fn pump_moves_exactly_the_bytes_read() {
    let buf = [7u8, 8, 9, 0, 0, 0];
    assert_eq!(pump_chunk(&buf, 3), vec![7, 8, 9]);
    assert_eq!(pump_chunk(&buf, 0), Vec::<u8>::new());
    assert_eq!(pump_chunk(&buf, 99), vec![7, 8, 9, 0, 0, 0]);
}

#[test]
fn pump_tolerates_blocking_and_stops_on_eof() {
    assert_eq!(pump_step(PumpEvent::RemoteData), PumpStep::CopyToLocal);
    assert_eq!(pump_step(PumpEvent::LocalData), PumpStep::CopyToRemote);
    assert_eq!(pump_step(PumpEvent::RemoteWouldBlock), PumpStep::Idle);
    assert_eq!(pump_step(PumpEvent::LocalWouldBlock), PumpStep::Idle);
    assert_eq!(pump_step(PumpEvent::RemoteEof), PumpStep::Finish);
    assert_eq!(pump_step(PumpEvent::IoFault), PumpStep::Abort);
}
