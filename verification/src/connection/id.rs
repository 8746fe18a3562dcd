//! Protocol-level identifier for a connection.

use crate::crypto::random_bytes;
use crate::hex::{spec_hex_lower, hex_lower};
use vstd::prelude::*;

verus! {

/// The largest number of bytes a connection id may hold.
pub const MAX_CID_SIZE: usize = 18;

/// Protocol-level identifier for a connection.
///
/// Mainly useful for identifying this connection's packets on the wire with
/// diagnostic tools; never key material for the handshake cookie.
#[derive(Debug, Clone, Eq, PartialEq, Ord, PartialOrd, Hash)]
pub struct ConnectionId(Vec<u8>);

impl View for ConnectionId {
    type V = Seq<u8>;

    closed spec fn view(&self) -> Seq<u8> {
        self.0@
    }
}

impl ConnectionId {
    /// A connection id holds at most `MAX_CID_SIZE` bytes.
    pub open spec fn wf(self) -> bool {
        self@.len() <= MAX_CID_SIZE
    }

    /// Builds an id from the first `len` bytes of a buffer.
    pub fn new(data: [u8; 18], len: usize) -> (r: ConnectionId)
        requires
            len <= MAX_CID_SIZE,
        ensures
            r@ == data@.take(len as int),
            r.wf(),
    {
        let mut bytes: Vec<u8> = Vec::new();
        for i in 0..len
            invariant
                len <= 18,
                bytes@ == data@.take(i as int),
        {
            bytes.push(data[i]);
            assert(data@.take(i + 1) =~= data@.take(i as int).push(data@[i as int]));
        }
        ConnectionId(bytes)
    }

    /// Draws `len` bytes from the operating system's cryptographically
    /// secure random source. Asking for more than `MAX_CID_SIZE` bytes is a
    /// precondition violation, not a silent truncation.
    pub fn random(len: u8) -> (r: ConnectionId)
        requires
            len as int <= MAX_CID_SIZE,
        ensures
            r@.len() == len as int,
            r.wf(),
    {
        ConnectionId(random_bytes(len as usize))
    }

    /// The number of bytes in the id.
    pub fn len(&self) -> (n: usize)
        ensures
            n == self@.len(),
    {
        self.0.len()
    }

    /// The bytes of the id.
    pub fn as_bytes(&self) -> (r: &[u8])
        ensures
            r@ == self@,
    {
        self.0.as_slice()
    }

    /// The id rendered as lower-case hex, two digits per byte, as diagnostic
    /// tools print it.
    pub fn to_hex(&self) -> (r: String)
        ensures
            r@ == spec_hex_lower(self@),
    {
        hex_lower(self.0.as_slice())
    }
}

} // verus!
