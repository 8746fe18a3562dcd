//! Error taxonomy of the session-establishment layer.

use crate::midhandshake_dtls_stream::MidHandshakeDtlsStream;
use vstd::prelude::*;

verus! {

/// A configuration rejected at construction, never mid-handshake.
#[derive(Debug, Copy, Clone, PartialEq, Eq, Structural)]
pub enum ConfigurationError {
    /// The configured protocol version range admits no version.
    EmptyVersionRange,
    /// An identity is required for this role but none was supplied.
    MissingIdentity,
    /// The identity's private key does not belong to its certificate.
    KeyCertificateMismatch,
    /// A datagram was to be sent on a channel with no pinned remote address.
    NoPinnedRemote,
}

/// Bad SRTP profile.
#[derive(Debug, Copy, Clone, PartialEq, Eq, Structural)]
pub enum SrtpProfileError {
    /// The profile name is not one of the supported protection profiles.
    BadProfile,
}

impl SrtpProfileError {
    /// A short description of the error.
    pub fn description(&self) -> (r: String)
        ensures
            r@ == "bad SRTP profile"@,
    {
        "bad SRTP profile".to_owned()
    }
}

/// An error terminating one attempt or session operation.
#[derive(Debug, Clone)]
pub enum Error {
    /// Invalid configuration, reported when the coordinator is constructed.
    Configuration(ConfigurationError),
    /// Opaque failure inside the cryptographic engine, with its message.
    CryptoEngine(String),
    /// The peer's certificate was rejected; carries the engine's
    /// verification result code so callers can tell "peer certificate
    /// invalid" from a transport or protocol error.
    Verification(u64),
    /// Socket I/O failure, with its message.
    Transport(String),
    /// Bad SRTP profile.
    SrtpProfile(SrtpProfileError),
}

impl core::convert::From<SrtpProfileError> for Error {
    /// Wraps a profile error.
    fn from(err: SrtpProfileError) -> (r: Error) {
        Error::SrtpProfile(err)
    }
}

impl vstd::std_specs::convert::FromSpecImpl<SrtpProfileError> for Error {
    open spec fn obeys_from_spec() -> bool {
        true
    }

    open spec fn from_spec(err: SrtpProfileError) -> Error {
        Error::SrtpProfile(err)
    }
}

/// An error that can occur during the handshake process.
pub enum HandshakeError<S> {
    /// The attempt terminated; see the inner error.
    Failure(Error),
    /// The attempt was interrupted midway because the transport was not
    /// ready. Not a fatal outcome: the suspended attempt it carries resumes
    /// once the stream can perform I/O again.
    WouldBlock(MidHandshakeDtlsStream<S>),
}

impl<S> core::convert::From<Error> for HandshakeError<S> {
    /// A terminal error terminates the attempt.
    fn from(e: Error) -> (r: HandshakeError<S>) {
        HandshakeError::Failure(e)
    }
}

impl<S> vstd::std_specs::convert::FromSpecImpl<Error> for HandshakeError<S> {
    open spec fn obeys_from_spec() -> bool {
        true
    }

    open spec fn from_spec(e: Error) -> HandshakeError<S> {
        HandshakeError::Failure(e)
    }
}

} // verus!
