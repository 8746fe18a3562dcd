//! Session establishment for datagram TLS over UDP-like transports.
//!
//! The crate covers the handshake-admission and session-establishment layer:
//! a stateless-cookie defense that gates which claimed remote addresses may
//! trigger real handshake work, a resumable handshake state machine that is
//! safe to drive from blocking or cooperative I/O, and the session handle's
//! application-data bookkeeping. The cryptographic handshake itself, record
//! protection, and certificate validation are the underlying TLS engine's
//! work; this crate decides, and the engine's results are handed in as plain
//! values.

mod certificate;
mod certificate_fingerprint;
mod connection;
mod crypto;
mod dtls_acceptor;
mod dtls_acceptor_builder;
mod dtls_connection_builder;
mod dtls_connector;
mod dtls_stream;
mod error;
mod hex;
mod identity;
mod midhandshake_dtls_stream;
mod protocol;
mod remote_addr;
mod srtp_profile;
mod udp_channel;
mod util;

pub use crate::certificate::Certificate;
pub use crate::certificate_fingerprint::{CertificateFingerprint, SignatureAlgorithm};
pub use crate::connection::{ConnectionId, ConnectionInfo, CookieFactory, ListenKeys};
pub use crate::dtls_acceptor::DtlsAcceptor;
pub use crate::dtls_acceptor_builder::DtlsAcceptorBuilder;
pub use crate::dtls_connection_builder::DtlsConnectorBuilder;
pub use crate::dtls_connector::{dtls_connect, DtlsConnector};
pub use crate::dtls_stream::{DtlsStream, DtlsStreamExt, SessionParams, SyncDtlsStream};
pub use crate::error::{ConfigurationError, Error, HandshakeError, SrtpProfileError};
pub use crate::identity::{CertificateIdentity, ConnectorIdentity, PskIdentity};
pub use crate::midhandshake_dtls_stream::{
    AttemptState, ClientFlight, HandshakeEvent, HandshakePhase, HandshakeRole,
    MidHandshakeDtlsStream, StepResult,
};
pub use crate::protocol::{try_set_supported_protocols, Protocol, ProtocolOptions};
pub use crate::remote_addr::RemoteAddr;
pub use crate::srtp_profile::{negotiate_srtp_profile, SrtpProfile};
pub use crate::udp_channel::UdpChannel;
