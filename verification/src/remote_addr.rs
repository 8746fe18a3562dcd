//! Remote transport addresses as plain values, and their canonical encoding.
//!
//! The handshake cookie binds a claimed remote address; the MAC is computed
//! over this canonical byte form: one address-family tag byte, the raw
//! address bytes (4 for IPv4, 16 for IPv6), and the port as two big-endian
//! bytes. The family tag keeps an IPv4-mapped IPv6 form from colliding with
//! the literal IPv4 form.

use vstd::prelude::*;

verus! {

broadcast use vstd::array::group_array_axioms;

/// Family tag byte for an IPv4 address in the canonical encoding.
pub const FAMILY_TAG_V4: u8 = 4;

/// Family tag byte for an IPv6 address in the canonical encoding.
pub const FAMILY_TAG_V6: u8 = 6;

/// The address of the remote endpoint of one connection attempt.
#[allow(inconsistent_fields)]
#[derive(Clone, Copy, Debug, PartialEq, Eq)]
pub enum RemoteAddr {
    V4 { octets: [u8; 4], port: u16 },
    V6 { octets: [u8; 16], port: u16 },
}

/// The port as two big-endian bytes.
pub open spec fn spec_port_bytes(port: u16) -> Seq<u8> {
    seq![(port / 256) as u8, (port % 256) as u8]
}

/// Canonical encoding of an address: family tag, raw address bytes, port.
pub open spec fn spec_address_encoding(addr: RemoteAddr) -> Seq<u8> {
    match addr {
        RemoteAddr::V4 { octets, port } => seq![FAMILY_TAG_V4] + octets@ + spec_port_bytes(port),
        RemoteAddr::V6 { octets, port } => seq![FAMILY_TAG_V6] + octets@ + spec_port_bytes(port),
    }
}

impl RemoteAddr {
    /// The port of the address.
    pub open spec fn spec_port(self) -> u16 {
        match self {
            RemoteAddr::V4 { port, .. } => port,
            RemoteAddr::V6 { port, .. } => port,
        }
    }

    /// Computes the canonical encoding of the address.
    pub fn encode(&self) -> (r: Vec<u8>)
        ensures
            r@ == spec_address_encoding(*self),
    {
        let mut out: Vec<u8> = Vec::new();
        match self {
            RemoteAddr::V4 { octets, port } => {
                out.push(FAMILY_TAG_V4);
                for i in 0..4
                    invariant
                        out@ == seq![FAMILY_TAG_V4] + octets@.take(i as int),
                {
                    out.push(octets[i]);
                    assert(octets@.take(i + 1) == octets@.take(i as int).push(octets@[i as int]));
                }
                assert(octets@.take(4) == octets@);
                push_port_bytes(&mut out, *port);
            },
            RemoteAddr::V6 { octets, port } => {
                out.push(FAMILY_TAG_V6);
                for i in 0..16
                    invariant
                        out@ == seq![FAMILY_TAG_V6] + octets@.take(i as int),
                {
                    out.push(octets[i]);
                    assert(octets@.take(i + 1) == octets@.take(i as int).push(octets@[i as int]));
                }
                assert(octets@.take(16) == octets@);
                push_port_bytes(&mut out, *port);
            },
        }
        out
    }
}

/// Appends the port in big-endian order.
fn push_port_bytes(out: &mut Vec<u8>, port: u16)
    ensures
        final(out)@ == old(out)@ + spec_port_bytes(port),
{
    out.push((port / 256) as u8);
    out.push((port % 256) as u8);
    assert(out@ =~= old(out)@ + spec_port_bytes(port));
}

/// Distinct addresses have distinct canonical encodings, so a cookie minted
/// for one address can never be the cookie of another.
pub proof fn lemma_address_encoding_injective(a: RemoteAddr, b: RemoteAddr)
    ensures
        spec_address_encoding(a) == spec_address_encoding(b) ==> a == b,
{
    if spec_address_encoding(a) == spec_address_encoding(b) {
        match (a, b) {
            (RemoteAddr::V4 { octets: oa, port: pa }, RemoteAddr::V4 { octets: ob, port: pb }) => {
                assert(forall|i: int| 0 <= i < 4 ==> oa@[i] == #[trigger] ob@[i]) by {
                    assert(forall|i: int|
                        0 <= i < 4 ==> spec_address_encoding(a)[i + 1] == #[trigger] oa@[i]);
                    assert(forall|i: int|
                        0 <= i < 4 ==> spec_address_encoding(b)[i + 1] == #[trigger] ob@[i]);
                }
                assert(oa =~= ob);
                assert(spec_address_encoding(a)[5] == (pa / 256) as u8);
                assert(spec_address_encoding(a)[6] == (pa % 256) as u8);
                assert(spec_address_encoding(b)[5] == (pb / 256) as u8);
                assert(spec_address_encoding(b)[6] == (pb % 256) as u8);
                lemma_port_bytes_injective(pa, pb);
            },
            (RemoteAddr::V6 { octets: oa, port: pa }, RemoteAddr::V6 { octets: ob, port: pb }) => {
                assert(forall|i: int| 0 <= i < 16 ==> oa@[i] == #[trigger] ob@[i]) by {
                    assert(forall|i: int|
                        0 <= i < 16 ==> spec_address_encoding(a)[i + 1] == #[trigger] oa@[i]);
                    assert(forall|i: int|
                        0 <= i < 16 ==> spec_address_encoding(b)[i + 1] == #[trigger] ob@[i]);
                }
                assert(oa =~= ob);
                assert(spec_address_encoding(a)[17] == (pa / 256) as u8);
                assert(spec_address_encoding(a)[18] == (pa % 256) as u8);
                assert(spec_address_encoding(b)[17] == (pb / 256) as u8);
                assert(spec_address_encoding(b)[18] == (pb % 256) as u8);
                lemma_port_bytes_injective(pa, pb);
            },
            (RemoteAddr::V4 { .. }, RemoteAddr::V6 { .. }) => {
                assert(spec_address_encoding(a).len() == 7);
                assert(spec_address_encoding(b).len() == 19);
            },
            (RemoteAddr::V6 { .. }, RemoteAddr::V4 { .. }) => {
                assert(spec_address_encoding(a).len() == 19);
                assert(spec_address_encoding(b).len() == 7);
            },
        }
    }
}

/// Big-endian port bytes determine the port.
proof fn lemma_port_bytes_injective(a: u16, b: u16)
    requires
        (a / 256) as u8 == (b / 256) as u8,
        (a % 256) as u8 == (b % 256) as u8,
    ensures
        a == b,
{
    assert(a == 256 * (a / 256) + a % 256);
    assert(b == 256 * (b / 256) + b % 256);
}

} // verus!
