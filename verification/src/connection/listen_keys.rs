//! Endpoint-lifetime secret key material for accepting endpoints.

use crate::crypto::random_bytes;
use vstd::prelude::*;

verus! {

/// The size in bytes of each listen key.
pub const LISTEN_KEY_BYTES: usize = 64;

/// Information that should be preserved between restarts for server
/// endpoints: cookies minted before a restart stay valid after it when these
/// keys are kept. Immutable once constructed; safe to share read-only across
/// all concurrently handled attempts on one endpoint.
#[derive(Clone, Debug)]
pub struct ListenKeys {
    /// Key ensuring the integrity of data bound into handshake cookies.
    pub cookie: Vec<u8>,
    /// Key for authenticated connection resets to clients of a previous
    /// instance of this endpoint.
    pub reset: Vec<u8>,
}

impl ListenKeys {
    /// Both keys hold exactly `LISTEN_KEY_BYTES` bytes.
    pub open spec fn wf(self) -> bool {
        self.cookie@.len() == LISTEN_KEY_BYTES && self.reset@.len() == LISTEN_KEY_BYTES
    }

    /// Draws two independent keys from the operating system's
    /// cryptographically secure random source.
    pub fn new() -> (r: ListenKeys)
        ensures
            r.wf(),
    {
        ListenKeys { cookie: random_bytes(LISTEN_KEY_BYTES), reset: random_bytes(LISTEN_KEY_BYTES) }
    }

    /// Rebuilds keys persisted by the caller as two runs of
    /// `LISTEN_KEY_BYTES` raw bytes.
    pub fn from_bytes(cookie: Vec<u8>, reset: Vec<u8>) -> (r: ListenKeys)
        requires
            cookie@.len() == LISTEN_KEY_BYTES,
            reset@.len() == LISTEN_KEY_BYTES,
        ensures
            r.wf(),
            r.cookie@ == cookie@,
            r.reset@ == reset@,
    {
        ListenKeys { cookie, reset }
    }
}

} // verus!
