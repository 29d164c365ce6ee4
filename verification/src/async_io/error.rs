use vstd::prelude::*;
use vstd::std_specs::convert::FromSpecImpl;

verus! {

/// The engine's report that a destination was too small, with the size it
/// needs.
#[derive(Debug, Clone, Copy, PartialEq, Eq, Structural)]
pub struct InsufficientSizeError {
    pub required_size: usize,
}

/// Why the engine could not encode a handshake message.
#[derive(Debug, Clone, Copy, PartialEq, Eq, Structural)]
pub enum EncodeError {
    /// The destination was too small.
    InsufficientSize(InsufficientSizeError),
    /// The message had been encoded before.
    AlreadyEncoded,
}

/// Why the engine could not encrypt application data.
#[derive(Debug, Clone, Copy, PartialEq, Eq, Structural)]
pub enum EncryptError {
    /// The destination was too small.
    InsufficientSize(InsufficientSizeError),
    /// The connection cannot encrypt any more records.
    EncryptExhausted,
}

/// A failure of the TLS protocol itself, as the engine describes it:
/// a malformed or rejected record, a failed handshake or verification.
#[derive(Debug, Clone)]
pub struct TlsError {
    pub description: String,
}

/// What can end a handshake or a channel.
#[derive(Debug)]
pub enum Error<E> {
    /// The transport failed; its error is passed on as it came.
    TransitError(E),
    /// The engine reported the connection closed while traffic was expected.
    ConnectionAborted,
    TlsError(TlsError),
    EncodeError(EncodeError),
    EncryptError(EncryptError),
}

impl<E> From<TlsError> for Error<E> {
    fn from(err: TlsError) -> (r: Self) {
        Error::TlsError(err)
    }
}

impl<E> FromSpecImpl<TlsError> for Error<E> {
    open spec fn obeys_from_spec() -> bool {
        true
    }

    open spec fn from_spec(err: TlsError) -> Self {
        Error::TlsError(err)
    }
}

impl<E> From<EncodeError> for Error<E> {
    fn from(err: EncodeError) -> (r: Self) {
        Error::EncodeError(err)
    }
}

impl<E> FromSpecImpl<EncodeError> for Error<E> {
    open spec fn obeys_from_spec() -> bool {
        true
    }

    open spec fn from_spec(err: EncodeError) -> Self {
        Error::EncodeError(err)
    }
}

impl<E> From<EncryptError> for Error<E> {
    fn from(err: EncryptError) -> (r: Self) {
        Error::EncryptError(err)
    }
}

impl<E> FromSpecImpl<EncryptError> for Error<E> {
    open spec fn obeys_from_spec() -> bool {
        true
    }

    open spec fn from_spec(err: EncryptError) -> Self {
        Error::EncryptError(err)
    }
}

/// An I/O failure, or the end of the stream where more bytes were due.
#[derive(Copy, Clone, Debug)]
pub enum ClosedError<E> {
    Other(E),
    Closed,
}

impl<E> From<E> for ClosedError<E> {
    fn from(err: E) -> (r: Self) {
        ClosedError::Other(err)
    }
}

impl<E> FromSpecImpl<E> for ClosedError<E> {
    open spec fn obeys_from_spec() -> bool {
        true
    }

    open spec fn from_spec(err: E) -> Self {
        ClosedError::Other(err)
    }
}

} // verus!
