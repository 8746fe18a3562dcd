//! The duplex datagram channel contract: one socket, optionally pinned to a
//! remote address.
//!
//! The socket itself — binding, sending, receiving, readiness — is the
//! caller's transport, blocking or cooperative; this type carries it
//! together with the pinned remote address and decides what the contract
//! decides: where writes go, and that the datagram layer buffers nothing.
//! One inbound datagram is one read — never merged, never reassembled — and
//! one write is sent as one datagram.

use crate::error::{ConfigurationError, Error};
use crate::remote_addr::RemoteAddr;
use vstd::prelude::*;

verus! {

/// Wrapper pairing a datagram socket with the remote endpoint its writes go
/// to, if one is pinned.
pub struct UdpChannel<S> {
    /// The bound datagram socket.
    pub socket: S,
    /// The pinned remote address, if any: a channel used for accepting may
    /// leave it open until the first datagram reveals the peer.
    pub remote_addr: Option<RemoteAddr>,
}

impl<S> UdpChannel<S> {
    /// Pins a socket to a remote address.
    pub fn new(socket: S, remote_addr: Option<RemoteAddr>) -> (r: UdpChannel<S>)
        ensures
            r.socket == socket,
            r.remote_addr == remote_addr,
    {
        UdpChannel { socket, remote_addr }
    }

    /// Where a write must be sent: the pinned remote address. Writing on a
    /// channel with no pinned remote is a configuration error.
    pub fn write_target(&self) -> (r: Result<&RemoteAddr, Error>)
        ensures
            match self.remote_addr {
                Option::Some(a) => r matches Ok(t) && *t == a,
                Option::None => r matches Err(e) && e == Error::Configuration(
                    ConfigurationError::NoPinnedRemote,
                ),
            },
    {
        match &self.remote_addr {
            Option::Some(a) => Ok(a),
            Option::None => Err(Error::Configuration(ConfigurationError::NoPinnedRemote)),
        }
    }

    /// Datagram transport holds no application buffering: flushing is a
    /// no-op that always succeeds.
    pub fn flush(&self) -> (r: Result<(), Error>)
        ensures
            r is Ok,
    {
        Ok(())
    }
}

} // verus!
