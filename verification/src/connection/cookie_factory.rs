//! The stateless-retry defense: an unforgeable cookie binding a claimed
//! remote address, held by no server-side storage at all.
//!
//! The cookie is a keyed MAC over the canonical encoding of the remote
//! address, so the accepting endpoint can confirm that a claimed address
//! receives traffic before it commits per-client state or asymmetric
//! cryptography — under unlimited concurrent spoofed attempts the defense
//! costs constant memory.

use crate::connection::ConnectionInfo;
use crate::crypto::{blake2b_keyed_mac, blake2b_mac, bytes_eq_constant_time};
use crate::remote_addr::{spec_address_encoding, RemoteAddr};
use crate::util::clone_bytes;
use vstd::prelude::*;

verus! {

/// The fixed size of a cookie tag in bytes.
pub const COOKIE_MAC_BYTES: usize = 64;

/// Mints and verifies address-bound handshake cookies. Immutable after
/// construction and safe to share read-only across concurrent attempts.
pub struct CookieFactory {
    mac_key: Vec<u8>,
}

impl Clone for CookieFactory {
    /// A copy MACs with the same key.
    fn clone(&self) -> (r: Self)
        ensures
            r.spec_key() == self.spec_key(),
    {
        CookieFactory { mac_key: clone_bytes(&self.mac_key) }
    }
}

/// The cookie that a factory with the given key mints for a remote address:
/// the keyed MAC over the address's canonical encoding.
pub open spec fn spec_cookie(key: Seq<u8>, remote: RemoteAddr) -> Seq<u8> {
    blake2b_keyed_mac(key, spec_address_encoding(remote))
}

/// Whether a presented cookie is accepted for a remote address under a key:
/// exactly when it equals the cookie minted for that address.
pub open spec fn spec_cookie_accepted(key: Seq<u8>, remote: RemoteAddr, cookie: Seq<u8>) -> bool {
    cookie == spec_cookie(key, remote)
}

impl CookieFactory {
    /// The MAC key holds exactly `COOKIE_MAC_BYTES` bytes.
    pub open spec fn wf(self) -> bool {
        self.spec_key().len() == COOKIE_MAC_BYTES
    }

    /// The secret key the factory MACs with.
    pub closed spec fn spec_key(self) -> Seq<u8> {
        self.mac_key@
    }

    /// Builds a factory over the given cookie key, normally
    /// `ListenKeys::cookie`.
    pub fn new(mac_key: Vec<u8>) -> (r: CookieFactory)
        requires
            mac_key@.len() == COOKIE_MAC_BYTES,
        ensures
            r.wf(),
            r.spec_key() == mac_key@,
    {
        CookieFactory { mac_key }
    }

    /// Computes the cookie tag for one connection attempt.
    pub fn generate_mac(&self, conn: &ConnectionInfo) -> (mac: Vec<u8>)
        requires
            self.wf(),
        ensures
            mac@ == spec_cookie(self.spec_key(), conn.remote),
            mac@.len() == COOKIE_MAC_BYTES,
    {
        let encoded = conn.remote.encode();
        blake2b_mac(self.mac_key.as_slice(), encoded.as_slice())
    }

    /// Writes the cookie tag for one attempt into the head of `out` and
    /// returns how many bytes were written, as the engine's cookie-generation
    /// hook expects.
    pub fn generate(&self, conn: &ConnectionInfo, out: &mut Vec<u8>) -> (n: usize)
        requires
            self.wf(),
            old(out)@.len() >= COOKIE_MAC_BYTES,
        ensures
            n == COOKIE_MAC_BYTES,
            final(out)@ == spec_cookie(self.spec_key(), conn.remote) + old(out)@.skip(
                COOKIE_MAC_BYTES as int,
            ),
            final(out)@.len() == old(out)@.len(),
    {
        let mac = self.generate_mac(conn);
        let ghost tag = mac@;
        for i in 0..COOKIE_MAC_BYTES
            invariant
                out@.len() == old(out)@.len() >= COOKIE_MAC_BYTES,
                mac@ == tag,
                tag == spec_cookie(self.spec_key(), conn.remote),
                tag.len() == COOKIE_MAC_BYTES,
                out@ == tag.take(i as int) + old(out)@.skip(i as int),
        {
            out.set(i, mac[i]);
            assert(out@ =~= tag.take(i + 1) + old(out)@.skip(i + 1));
        }
        assert(out@ =~= tag + old(out)@.skip(COOKIE_MAC_BYTES as int));
        COOKIE_MAC_BYTES
    }

    /// Recomputes the tag for the claimed address and compares it against
    /// the presented bytes in constant time. True exactly when the cookie is
    /// the one minted for this address; any length or content mismatch is a
    /// verification failure, and malformed input never raises.
    pub fn verify(&self, conn: &ConnectionInfo, cookie_data: &[u8]) -> (ok: bool)
        requires
            self.wf(),
        ensures
            ok == spec_cookie_accepted(self.spec_key(), conn.remote, cookie_data@),
    {
        let expected = self.generate_mac(conn);
        bytes_eq_constant_time(cookie_data, expected.as_slice())
    }
}

/// A cookie round-trips: the tag minted for an address is accepted for that
/// address, and a presented cookie differing from the minted one — a single
/// flipped bit included — is rejected.
pub proof fn lemma_cookie_round_trip(key: Seq<u8>, remote: RemoteAddr, presented: Seq<u8>)
    ensures
        spec_cookie_accepted(key, remote, spec_cookie(key, remote)),
        presented != spec_cookie(key, remote) ==> !spec_cookie_accepted(key, remote, presented),
{
}

/// A cookie with any one byte changed from the minted tag is rejected.
pub proof fn lemma_cookie_bit_flip_rejected(
    key: Seq<u8>,
    remote: RemoteAddr,
    flipped: Seq<u8>,
    i: int,
)
    requires
        0 <= i < spec_cookie(key, remote).len(),
        flipped.len() == spec_cookie(key, remote).len(),
        flipped[i] != spec_cookie(key, remote)[i],
    ensures
        !spec_cookie_accepted(key, remote, flipped),
{
}

/// Cookies bind the address injectively below the MAC: distinct addresses
/// are MACed over distinct messages, so a collision of their cookies is a
/// collision of the MAC itself, never of the encoding.
pub proof fn lemma_distinct_addresses_distinct_messages(a: RemoteAddr, b: RemoteAddr)
    ensures
        a != b ==> spec_address_encoding(a) != spec_address_encoding(b),
{
    crate::remote_addr::lemma_address_encoding_injective(a, b);
}

} // verus!
