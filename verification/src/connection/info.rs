//! Identity of one connection attempt.

use crate::connection::ConnectionId;
use crate::remote_addr::RemoteAddr;
use vstd::prelude::*;

verus! {

/// Identity of one listen/accept attempt: a short random id for diagnostics
/// and the claimed remote address. Created fresh for each attempt and handed
/// through the coordinator's calls explicitly; it lives only as long as the
/// cookie generation and verification that use it.
#[derive(Debug, Clone)]
pub struct ConnectionInfo {
    pub id: ConnectionId,
    pub remote: RemoteAddr,
}

impl ConnectionInfo {
    /// Pairs an attempt id with the claimed remote address.
    pub fn new(id: ConnectionId, remote: RemoteAddr) -> (r: ConnectionInfo)
        ensures
            r.id == id,
            r.remote == remote,
    {
        ConnectionInfo { id, remote }
    }
}

} // verus!
