use devenv_provision::error::ErrorKind;
use devenv_provision::session::{OpenReport, Operation, SecureSession, SessionState};

fn authenticated() -> SecureSession {
    let mut session = SecureSession::new();
    assert_eq!(session.on_connect(true), Ok(()));
    assert_eq!(session.on_authenticate(true), Ok(()));
    session
}

#[test]
fn new_session_is_disconnected() {
    let session = SecureSession::new();
    assert_eq!(session.state(), SessionState::Disconnected);
    assert!(!session.is_open());
    assert!(!session.is_closed());
}

#[test]
fn session_goes_through_its_states_in_order() {
    let mut session = SecureSession::new();
    assert_eq!(session.permit(Operation::Connect), Ok(()));
    assert_eq!(session.on_connect(true), Ok(()));
    assert_eq!(session.state(), SessionState::Connected);
    assert!(session.is_open());
    assert_eq!(session.permit(Operation::Authenticate), Ok(()));
    assert_eq!(session.on_authenticate(true), Ok(()));
    assert_eq!(session.state(), SessionState::Authenticated);
    assert_eq!(session.permit(Operation::Send), Ok(()));
    assert_eq!(session.permit(Operation::Run), Ok(()));
    session.close();
    assert_eq!(session.state(), SessionState::Closed);
    assert!(session.is_closed());
    assert!(!session.is_open());
}

#[test]
fn unreachable_host_leaves_session_disconnected() {
    let mut session = SecureSession::new();
    assert_eq!(session.on_connect(false), Err(ErrorKind::ConnectError));
    assert_eq!(session.state(), SessionState::Disconnected);
}

#[test]
fn rejected_key_leaves_session_connected_until_closed() {
    let mut session = SecureSession::new();
    assert_eq!(session.on_connect(true), Ok(()));
    assert_eq!(session.on_authenticate(false), Err(ErrorKind::AuthError));
    assert_eq!(session.state(), SessionState::Connected);
    assert_eq!(session.permit(Operation::Send), Err(ErrorKind::TransferError));
    session.close();
    assert_eq!(session.state(), SessionState::Closed);
}

#[test]
fn operations_out_of_turn_are_refused_with_their_own_error() {
    let session = SecureSession::new();
    assert_eq!(
        session.permit(Operation::Authenticate),
        Err(ErrorKind::AuthError)
    );
    assert_eq!(session.permit(Operation::Send), Err(ErrorKind::TransferError));
    assert_eq!(session.permit(Operation::Run), Err(ErrorKind::ExecError));
    let ready = authenticated();
    assert_eq!(ready.permit(Operation::Connect), Err(ErrorKind::ConnectError));
    assert_eq!(
        ready.permit(Operation::Authenticate),
        Err(ErrorKind::AuthError)
    );
}

#[test]
fn reports_out_of_turn_change_nothing() {
    let mut session = SecureSession::new();
    assert_eq!(session.on_authenticate(true), Err(ErrorKind::AuthError));
    assert_eq!(session.state(), SessionState::Disconnected);
    let mut ready = authenticated();
    assert_eq!(ready.on_connect(true), Err(ErrorKind::ConnectError));
    assert_eq!(ready.state(), SessionState::Authenticated);
}

#[test]
fn closed_session_refuses_everything() {
    let mut session = authenticated();
    session.close();
    assert_eq!(
        session.permit(Operation::Connect),
        Err(ErrorKind::SessionClosedError)
    );
    assert_eq!(
        session.permit(Operation::Authenticate),
        Err(ErrorKind::SessionClosedError)
    );
    assert_eq!(
        session.permit(Operation::Send),
        Err(ErrorKind::SessionClosedError)
    );
    assert_eq!(
        session.permit(Operation::Run),
        Err(ErrorKind::SessionClosedError)
    );
    assert_eq!(session.on_connect(true), Err(ErrorKind::SessionClosedError));
    assert_eq!(
        session.on_authenticate(true),
        Err(ErrorKind::SessionClosedError)
    );
    assert_eq!(session.state(), SessionState::Closed);
}

#[test]
fn send_and_run_fail_after_close() {
    let mut session = authenticated();
    assert!(session.send("/tmp/file", vec![1, 2, 3], 0o644).is_ok());
    assert!(session.run("true").is_ok());
    session.close();
    assert_eq!(
        session.send("/tmp/file", vec![1, 2, 3], 0o644).err(),
        Some(ErrorKind::SessionClosedError)
    );
    assert_eq!(
        session.run("true").err(),
        Some(ErrorKind::SessionClosedError)
    );
    assert_eq!(
        session.clone_on_remote("git@example.com:org/app.git").err(),
        Some(ErrorKind::SessionClosedError)
    );
}

#[test]
fn close_is_idempotent() {
    let mut session = SecureSession::new();
    session.close();
    assert_eq!(session.state(), SessionState::Closed);
    session.close();
    assert_eq!(session.state(), SessionState::Closed);
    assert_eq!(
        session.run("true").err(),
        Some(ErrorKind::SessionClosedError)
    );
}

#[test]
fn open_tells_the_failures_apart() {
    assert_eq!(
        SecureSession::open(OpenReport::Unreachable).err(),
        Some(ErrorKind::ConnectError)
    );
    assert_eq!(
        SecureSession::open(OpenReport::KeyRejected).err(),
        Some(ErrorKind::AuthError)
    );
    let session = SecureSession::open(OpenReport::Ready).unwrap();
    assert_eq!(session.state(), SessionState::Authenticated);
}

#[test]
fn every_kind_of_failure_has_its_text() {
    assert_eq!(ErrorKind::ConnectError.text(), "the host could not be reached");
    assert_eq!(ErrorKind::AuthError.text(), "the host rejected the key");
    assert_eq!(ErrorKind::TransferError.text(), "the file was not transferred");
    assert_eq!(
        ErrorKind::ExecError.text(),
        "the command did not run to its end"
    );
    assert_eq!(
        ErrorKind::NotAGitRepoError.text(),
        "the path holds no repository"
    );
    assert_eq!(
        ErrorKind::NoOriginRemoteError.text(),
        "the repository has no origin remote"
    );
    assert_eq!(ErrorKind::GitError.text(), "the repository could not be read");
    assert_eq!(ErrorKind::SessionClosedError.text(), "the session is closed");
    assert_eq!(
        ErrorKind::MissingCredentialError.text(),
        "the credential file could not be read"
    );
    assert_eq!(ErrorKind::Cancelled.text(), "the run was cancelled");
}
