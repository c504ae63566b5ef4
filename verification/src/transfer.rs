//! Uploading a file over an open session.
//!
//! The copy protocol announces the length of a file before the first byte
//! of it, so a transfer is described in full before it starts. A
//! [`TransferSpec`] is such a description, and one exists only where the
//! announced length is the length of the content.

use vstd::prelude::*;
use crate::error::ErrorKind;
use crate::session::{admission, Operation, SecureSession};

verus! {

/// What a transfer is, as plain values.
pub struct TransferView {
    /// The path of the file on the remote host.
    pub destination: Seq<char>,
    /// The number of bytes that is announced.
    pub length: u64,
    /// The permission bits of the remote file.
    pub mode: i32,
    /// The bytes of the file.
    pub content: Seq<u8>,
}

/// Whether the announced length is the length of the content.
pub open spec fn well_declared(transfer: TransferView) -> bool {
    transfer.length == transfer.content.len()
}

/// One upload that is ready to be carried out.
#[derive(Debug)]
pub struct TransferSpec {
    destination: String,
    length: u64,
    mode: i32,
    content: Vec<u8>,
}

impl View for TransferSpec {
    type V = TransferView;

    closed spec fn view(&self) -> TransferView {
        TransferView {
            destination: self.destination@,
            length: self.length,
            mode: self.mode,
            content: self.content@,
        }
    }
}

impl TransferSpec {
    #[verifier::type_invariant]
    spec fn announced_length_is_exact(&self) -> bool {
        self.length == self.content@.len()
    }

    /// Describes a transfer with a length that the caller announces. A
    /// length that is not the length of the content is refused with
    /// `TransferError`, and then nothing exists that could be sent.
    pub fn new(destination: String, length: u64, mode: i32, content: Vec<u8>) -> (made: Result<
        TransferSpec,
        ErrorKind,
    >)
        ensures
            length == content@.len() ==> made is Ok && made->Ok_0@ == (TransferView {
                destination: destination@,
                length,
                mode,
                content: content@,
            }),
            length != content@.len() ==> made == Err::<TransferSpec, ErrorKind>(
                ErrorKind::TransferError,
            ),
    {
        if content.len() as u64 == length {
            Ok(TransferSpec { destination, length, mode, content })
        } else {
            Err(ErrorKind::TransferError)
        }
    }

    /// Describes the transfer of the given content, announcing its exact
    /// length.
    pub fn for_content(destination: String, mode: i32, content: Vec<u8>) -> (made: TransferSpec)
        ensures
            made@ == (TransferView {
                destination: destination@,
                length: content@.len() as u64,
                mode,
                content: content@,
            }),
            well_declared(made@),
    {
        let length = content.len() as u64;
        TransferSpec { destination, length, mode, content }
    }

    /// The path of the file on the remote host.
    pub fn destination(&self) -> (destination: &str)
        ensures
            destination@ == self@.destination,
    {
        self.destination.as_str()
    }

    /// The number of bytes to announce, which is the number of bytes of
    /// the content.
    pub fn length(&self) -> (length: u64)
        ensures
            length == self@.length,
            well_declared(self@),
    {
        proof {
            use_type_invariant(self);
        }
        self.length
    }

    /// The permission bits of the remote file.
    pub fn mode(&self) -> (mode: i32)
        ensures
            mode == self@.mode,
    {
        self.mode
    }

    /// The bytes to write.
    pub fn content(&self) -> (content: &Vec<u8>)
        ensures
            content@ == self@.content,
            well_declared(self@),
    {
        proof {
            use_type_invariant(self);
        }
        &self.content
    }

    /// Judges a transfer that was carried out. It succeeded only if the
    /// transport wrote the whole file; after anything else nothing may be
    /// assumed of the remote file.
    pub fn confirm(&self, written: Option<u64>) -> (confirmed: Result<(), ErrorKind>)
        ensures
            confirmed == transfer_verdict(self@, written),
    {
        match written {
            Some(count) => {
                if count == self.length {
                    Ok(())
                } else {
                    Err(ErrorKind::TransferError)
                }
            },
            None => Err(ErrorKind::TransferError),
        }
    }
}

/// The verdict on a transfer of which the transport reports how many bytes
/// it wrote, or that it failed.
pub open spec fn transfer_verdict(transfer: TransferView, written: Option<u64>) -> Result<
    (),
    ErrorKind,
> {
    if written == Some(transfer.length) {
        Ok(())
    } else {
        Err(ErrorKind::TransferError)
    }
}

impl SecureSession {
    /// Prepares the upload of `bytes` to `path`. The session has to be
    /// authenticated: on a closed session the answer is
    /// `SessionClosedError`, on one that is not ready yet `TransferError`.
    /// The length that will be announced is the length of `bytes`.
    pub fn send(&self, path: &str, bytes: Vec<u8>, mode: i32) -> (prepared: Result<
        TransferSpec,
        ErrorKind,
    >)
        ensures
            match admission(self@, Operation::Send) {
                Ok(()) => prepared is Ok && prepared->Ok_0@ == (TransferView {
                    destination: path@,
                    length: bytes@.len() as u64,
                    mode,
                    content: bytes@,
                }) && well_declared(prepared->Ok_0@),
                Err(kind) => prepared == Err::<TransferSpec, ErrorKind>(kind),
            },
    {
        match self.permit(Operation::Send) {
            Err(kind) => Err(kind),
            Ok(()) => Ok(TransferSpec::for_content(path.to_owned(), mode, bytes)),
        }
    }
}

} // verus!
