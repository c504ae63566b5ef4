//! The lifecycle of one secure-shell connection.
//!
//! The connection itself belongs to the caller. A [`SecureSession`] follows
//! it: the caller asks before each operation whether it may be attempted,
//! and says afterwards how connecting and authenticating went. A session
//! only ever moves forward, and once closed it admits nothing.

use vstd::prelude::*;
use crate::error::ErrorKind;

verus! {

/// Where a connection stands in its life. The order of the variants is the
/// order in which a connection passes through them.
#[derive(Clone, Copy, Debug, PartialEq, Eq, Structural)]
pub enum SessionState {
    Disconnected,
    Connected,
    Authenticated,
    Closed,
}

/// What a caller may ask of a session, besides closing it.
#[derive(Clone, Copy, Debug, PartialEq, Eq, Structural)]
pub enum Operation {
    /// Reach the host and shake hands.
    Connect,
    /// Prove who the user is.
    Authenticate,
    /// Write a file on the host.
    Send,
    /// Run a command on the host.
    Run,
}

/// The position of a state along the connection's life.
pub open spec fn rank(state: SessionState) -> nat {
    match state {
        SessionState::Disconnected => 0,
        SessionState::Connected => 1,
        SessionState::Authenticated => 2,
        SessionState::Closed => 3,
    }
}

/// Whether a connection in this state holds the transport open.
pub open spec fn is_open(state: SessionState) -> bool {
    state == SessionState::Connected || state == SessionState::Authenticated
}

/// The one state in which an operation is valid.
pub open spec fn required_state(operation: Operation) -> SessionState {
    match operation {
        Operation::Connect => SessionState::Disconnected,
        Operation::Authenticate => SessionState::Connected,
        Operation::Send => SessionState::Authenticated,
        Operation::Run => SessionState::Authenticated,
    }
}

/// The failure that an operation reports when it is its own.
pub open spec fn own_error(operation: Operation) -> ErrorKind {
    match operation {
        Operation::Connect => ErrorKind::ConnectError,
        Operation::Authenticate => ErrorKind::AuthError,
        Operation::Send => ErrorKind::TransferError,
        Operation::Run => ErrorKind::ExecError,
    }
}

/// Whether an operation may be attempted in a state, and if not, why not:
/// on a closed session nothing may, and elsewhere only the operation whose
/// turn it is.
pub open spec fn admission(state: SessionState, operation: Operation) -> Result<(), ErrorKind> {
    if state == SessionState::Closed {
        Err(ErrorKind::SessionClosedError)
    } else if state == required_state(operation) {
        Ok(())
    } else {
        Err(own_error(operation))
    }
}

/// The state after an attempt to connect was reported.
pub open spec fn after_connect(state: SessionState, reached: bool) -> SessionState {
    if state == SessionState::Disconnected && reached {
        SessionState::Connected
    } else {
        state
    }
}

/// The state after an attempt to authenticate was reported. A connection
/// whose key was rejected stays connected until it is closed.
pub open spec fn after_authenticate(state: SessionState, accepted: bool) -> SessionState {
    if state == SessionState::Connected && accepted {
        SessionState::Authenticated
    } else {
        state
    }
}

/// What an attempt to open a session came to.
#[derive(Clone, Copy, Debug, PartialEq, Eq, Structural)]
pub enum OpenReport {
    /// The host was not reached, or the handshake failed.
    Unreachable,
    /// The host was reached and rejected the key.
    KeyRejected,
    /// The host was reached and accepted the key.
    Ready,
}

/// One connection to a remote host, followed through its life.
#[derive(Debug)]
pub struct SecureSession {
    state: SessionState,
}

impl View for SecureSession {
    type V = SessionState;

    closed spec fn view(&self) -> SessionState {
        self.state
    }
}

impl SecureSession {
    /// A session that has not connected yet.
    pub fn new() -> (session: SecureSession)
        ensures
            session@ == SessionState::Disconnected,
    {
        SecureSession { state: SessionState::Disconnected }
    }

    /// The session that an attempt to open one leaves: ready for use when
    /// the host was reached and accepted the key, and otherwise the failure
    /// of the step that went wrong. No session is left after a failure, so
    /// the caller drops the transport that it had opened.
    pub fn open(report: OpenReport) -> (opened: Result<SecureSession, ErrorKind>)
        ensures
            report == OpenReport::Ready ==> opened is Ok && opened->Ok_0@
                == SessionState::Authenticated,
            report == OpenReport::Unreachable ==> opened == Err::<SecureSession, ErrorKind>(
                ErrorKind::ConnectError,
            ),
            report == OpenReport::KeyRejected ==> opened == Err::<SecureSession, ErrorKind>(
                ErrorKind::AuthError,
            ),
    {
        let mut session = SecureSession::new();
        match session.on_connect(report != OpenReport::Unreachable) {
            Err(kind) => Err(kind),
            Ok(()) => match session.on_authenticate(report == OpenReport::Ready) {
                Err(kind) => Err(kind),
                Ok(()) => Ok(session),
            },
        }
    }

    /// The state of the session.
    pub fn state(&self) -> (state: SessionState)
        ensures
            state == self@,
    {
        self.state
    }

    /// Whether the session was closed.
    pub fn is_closed(&self) -> (closed: bool)
        ensures
            closed == (self@ == SessionState::Closed),
    {
        self.state == SessionState::Closed
    }

    /// Whether the session holds the transport open, so that it has to be
    /// closed before it is dropped.
    pub fn is_open(&self) -> (open: bool)
        ensures
            open == is_open(self@),
    {
        self.state == SessionState::Connected || self.state == SessionState::Authenticated
    }

    /// Says whether an operation may be attempted now. It is asked before
    /// anything goes over the network.
    pub fn permit(&self, operation: Operation) -> (admitted: Result<(), ErrorKind>)
        ensures
            admitted == admission(self@, operation),
    {
        let required = match operation {
            Operation::Connect => SessionState::Disconnected,
            Operation::Authenticate => SessionState::Connected,
            Operation::Send => SessionState::Authenticated,
            Operation::Run => SessionState::Authenticated,
        };
        if self.state == SessionState::Closed {
            Err(ErrorKind::SessionClosedError)
        } else if self.state == required {
            Ok(())
        } else {
            Err(
                match operation {
                    Operation::Connect => ErrorKind::ConnectError,
                    Operation::Authenticate => ErrorKind::AuthError,
                    Operation::Send => ErrorKind::TransferError,
                    Operation::Run => ErrorKind::ExecError,
                },
            )
        }
    }

    /// Takes note of how connecting went. Where connecting was not
    /// admitted the session stays as it is and the refusal is returned.
    pub fn on_connect(&mut self, reached: bool) -> (noted: Result<(), ErrorKind>)
        ensures
            final(self)@ == after_connect(old(self)@, reached),
            noted == (match admission(old(self)@, Operation::Connect) {
                Err(kind) => Err(kind),
                Ok(()) => if reached {
                    Ok(())
                } else {
                    Err(ErrorKind::ConnectError)
                },
            }),
    {
        match self.permit(Operation::Connect) {
            Err(kind) => Err(kind),
            Ok(()) => {
                if reached {
                    self.state = SessionState::Connected;
                    Ok(())
                } else {
                    Err(ErrorKind::ConnectError)
                }
            },
        }
    }

    /// Takes note of how authenticating went. Where authenticating was not
    /// admitted the session stays as it is and the refusal is returned.
    pub fn on_authenticate(&mut self, accepted: bool) -> (noted: Result<(), ErrorKind>)
        ensures
            final(self)@ == after_authenticate(old(self)@, accepted),
            noted == (match admission(old(self)@, Operation::Authenticate) {
                Err(kind) => Err(kind),
                Ok(()) => if accepted {
                    Ok(())
                } else {
                    Err(ErrorKind::AuthError)
                },
            }),
    {
        match self.permit(Operation::Authenticate) {
            Err(kind) => Err(kind),
            Ok(()) => {
                if accepted {
                    self.state = SessionState::Authenticated;
                    Ok(())
                } else {
                    Err(ErrorKind::AuthError)
                }
            },
        }
    }

    /// Closes the session. Closing a closed session changes nothing.
    pub fn close(&mut self)
        ensures
            final(self)@ == SessionState::Closed,
    {
        self.state = SessionState::Closed;
    }
}

/// A session never moves backward, whatever is reported to it.
pub proof fn lemma_session_moves_forward(state: SessionState, reached: bool, accepted: bool)
    ensures
        rank(state) <= rank(after_connect(state, reached)),
        rank(state) <= rank(after_authenticate(state, accepted)),
        rank(state) <= rank(SessionState::Closed),
{
}

/// Once a session is closed it stays closed, and nothing is admitted on
/// it: every operation is refused with `SessionClosedError`.
pub proof fn lemma_closed_session_admits_nothing(
    operation: Operation,
    reached: bool,
    accepted: bool,
)
    ensures
        admission(SessionState::Closed, operation) == Err::<(), ErrorKind>(
            ErrorKind::SessionClosedError,
        ),
        after_connect(SessionState::Closed, reached) == SessionState::Closed,
        after_authenticate(SessionState::Closed, accepted) == SessionState::Closed,
{
}

/// Sending and running are admitted on an authenticated session and on no
/// other.
pub proof fn lemma_only_authenticated_session_works(state: SessionState)
    ensures
        admission(state, Operation::Send) is Ok <==> state == SessionState::Authenticated,
        admission(state, Operation::Run) is Ok <==> state == SessionState::Authenticated,
{
}

} // verus!
