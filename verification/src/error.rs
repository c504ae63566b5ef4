//! The kinds of failure that provisioning knows.

use vstd::prelude::*;

verus! {

/// Why an operation or a run failed.
#[derive(Clone, Copy, Debug, PartialEq, Eq, Structural)]
pub enum ErrorKind {
    /// The remote host could not be reached, or the protocol handshake
    /// with it did not complete.
    ConnectError,
    /// The remote host did not accept the key.
    AuthError,
    /// A file did not arrive on the remote host, or was not admitted for
    /// sending. Nothing may be assumed of the remote file.
    TransferError,
    /// A command could not be run to its end on the remote host.
    ExecError,
    /// The local path holds no repository.
    NotAGitRepoError,
    /// The local repository names no remote called `origin`.
    NoOriginRemoteError,
    /// The local repository could not be read.
    GitError,
    /// The session was closed before the operation was asked for.
    SessionClosedError,
    /// The local credential file could not be read.
    MissingCredentialError,
    /// The caller gave the run up while an operation was under way.
    Cancelled,
}

/// A short text for each kind of failure, for messages to the user.
pub open spec fn kind_text(kind: ErrorKind) -> Seq<char> {
    match kind {
        ErrorKind::ConnectError => "the host could not be reached"@,
        ErrorKind::AuthError => "the host rejected the key"@,
        ErrorKind::TransferError => "the file was not transferred"@,
        ErrorKind::ExecError => "the command did not run to its end"@,
        ErrorKind::NotAGitRepoError => "the path holds no repository"@,
        ErrorKind::NoOriginRemoteError => "the repository has no origin remote"@,
        ErrorKind::GitError => "the repository could not be read"@,
        ErrorKind::SessionClosedError => "the session is closed"@,
        ErrorKind::MissingCredentialError => "the credential file could not be read"@,
        ErrorKind::Cancelled => "the run was cancelled"@,
    }
}

impl ErrorKind {
    /// The text of this kind of failure.
    pub fn text(&self) -> (text: &'static str)
        ensures
            text@ == kind_text(*self),
    {
        match self {
            ErrorKind::ConnectError => "the host could not be reached",
            ErrorKind::AuthError => "the host rejected the key",
            ErrorKind::TransferError => "the file was not transferred",
            ErrorKind::ExecError => "the command did not run to its end",
            ErrorKind::NotAGitRepoError => "the path holds no repository",
            ErrorKind::NoOriginRemoteError => "the repository has no origin remote",
            ErrorKind::GitError => "the repository could not be read",
            ErrorKind::SessionClosedError => "the session is closed",
            ErrorKind::MissingCredentialError => "the credential file could not be read",
            ErrorKind::Cancelled => "the run was cancelled",
        }
    }
}

} // verus!
