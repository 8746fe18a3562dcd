//! Trusted boundary to the outside cryptographic primitives: the keyed
//! BLAKE2b MAC behind the handshake cookie, the constant-time byte
//! comparison, the operating system's random source, and the digests used
//! for certificate fingerprints.

use vstd::prelude::*;

verus! {

/// Tag produced by the keyed BLAKE2b MAC with 512-bit output for a given key
/// and message. The tag is a pure function of the two arguments; nothing
/// more is assumed about its bytes.
pub uninterp spec fn blake2b_keyed_mac(key: Seq<u8>, msg: Seq<u8>) -> Seq<u8>;

/// Relies on `blake2::Blake2bMac512`: the 64-byte tag is a deterministic
/// function of key and message. `new_from_slice` rejects only keys longer
/// than the 64-byte block, so a key within that bound cannot fail.
#[verifier::external_body]
pub(crate) fn blake2b_mac(key: &[u8], msg: &[u8]) -> (tag: Vec<u8>)
    requires
        key@.len() <= 64,
    ensures
        tag@ == blake2b_keyed_mac(key@, msg@),
        tag@.len() == 64,
{
    let mut mac = <blake2::Blake2bMac512 as digest::KeyInit>::new_from_slice(key)
        .expect("key fits in one block");
    digest::Mac::update(&mut mac, msg);
    digest::Mac::finalize(mac).into_bytes().to_vec()
}

/// Relies on `constant_time_eq::constant_time_eq`: returns true exactly when
/// the two byte strings have equal length and equal contents, in time that
/// does not depend on the contents or on the position of any difference.
#[verifier::external_body]
pub(crate) fn bytes_eq_constant_time(a: &[u8], b: &[u8]) -> (r: bool)
    ensures
        r == (a@ == b@),
{
    constant_time_eq::constant_time_eq(a, b)
}

/// Relies on `rand::rngs::OsRng`, the operating system's cryptographically
/// secure random source: fills the buffer with `n` bytes. Nothing is assumed
/// about the bytes themselves; it aborts only if the OS source is unusable.
#[verifier::external_body]
pub(crate) fn random_bytes(n: usize) -> (r: Vec<u8>)
    ensures
        r@.len() == n,
{
    let mut buf = vec![0u8; n];
    rand::RngCore::fill_bytes(&mut rand::rngs::OsRng, &mut buf);
    buf
}

/// Digest of the SHA-1 hash function for a given input. A pure function of
/// the input alone; nothing more is assumed about its bytes.
pub uninterp spec fn sha1_digest_of(data: Seq<u8>) -> Seq<u8>;

/// Relies on `sha1::Sha1`: the 20-byte SHA-1 digest of the input.
#[verifier::external_body]
pub(crate) fn sha1_digest(data: &[u8]) -> (r: Vec<u8>)
    ensures
        r@ == sha1_digest_of(data@),
        r@.len() == 20,
{
    <sha1::Sha1 as digest::Digest>::digest(data).to_vec()
}

/// Digest of the SHA-256 hash function for a given input. A pure function of
/// the input alone; nothing more is assumed about its bytes.
pub uninterp spec fn sha256_digest_of(data: Seq<u8>) -> Seq<u8>;

/// Relies on `sha2::Sha256`: the 32-byte SHA-256 digest of the input.
#[verifier::external_body]
pub(crate) fn sha256_digest(data: &[u8]) -> (r: Vec<u8>)
    ensures
        r@ == sha256_digest_of(data@),
        r@.len() == 32,
{
    <sha2::Sha256 as digest::Digest>::digest(data).to_vec()
}

} // verus!
