//! Certificate fingerprints: a digest of the DER form together with the
//! hash that produced it.

use crate::hex::{append_hex_byte_upper, spec_hex_byte_upper};
use vstd::prelude::*;
use vstd::string::StringExecFns;

verus! {

/// The hash function a fingerprint was computed with.
#[derive(Clone, Copy, Debug, PartialEq, Eq, Structural)]
pub enum SignatureAlgorithm {
    Sha1,
    Sha256,
}

/// A certificate fingerprint: the digest bytes and the hash that made them.
#[derive(Debug)]
pub struct CertificateFingerprint {
    pub bytes: Vec<u8>,
    pub signature_algorithm: SignatureAlgorithm,
}

/// Upper-case hex rendering with `:` between bytes, as fingerprint strings
/// are conventionally printed.
pub open spec fn spec_hex_colon_upper(data: Seq<u8>) -> Seq<char>
    decreases data.len(),
{
    if data.len() == 0 {
        Seq::empty()
    } else if data.len() == 1 {
        spec_hex_byte_upper(data.last())
    } else {
        spec_hex_colon_upper(data.drop_last()) + seq![':'] + spec_hex_byte_upper(data.last())
    }
}

/// The printed form of a fingerprint: the hash's name, a space, then the
/// digest in colon-separated upper-case hex. A fingerprint with no digest
/// bytes prints as the hash's name alone.
pub open spec fn spec_fingerprint_string(
    alg: SignatureAlgorithm,
    bytes: Seq<u8>,
) -> Seq<char> {
    if bytes.len() == 0 {
        match alg {
            SignatureAlgorithm::Sha1 => "sha-1"@,
            SignatureAlgorithm::Sha256 => "sha-256"@,
        }
    } else {
        (match alg {
            SignatureAlgorithm::Sha1 => "sha-1 "@,
            SignatureAlgorithm::Sha256 => "sha-256 "@,
        }) + spec_hex_colon_upper(bytes)
    }
}

impl CertificateFingerprint {
    /// Pairs digest bytes with the hash that produced them.
    pub fn new(bytes: Vec<u8>, signature_algorithm: SignatureAlgorithm) -> (r:
        CertificateFingerprint)
        ensures
            r.bytes == bytes,
            r.signature_algorithm == signature_algorithm,
    {
        CertificateFingerprint { bytes, signature_algorithm }
    }

    /// Renders the fingerprint as its conventional string form.
    pub fn to_string(&self) -> (r: String)
        ensures
            r@ == spec_fingerprint_string(self.signature_algorithm, self.bytes@),
    {
        if self.bytes.len() == 0 {
            return match self.signature_algorithm {
                SignatureAlgorithm::Sha1 => "sha-1".to_owned(),
                SignatureAlgorithm::Sha256 => "sha-256".to_owned(),
            };
        }
        let mut out: String = match self.signature_algorithm {
            SignatureAlgorithm::Sha1 => "sha-1 ".to_owned(),
            SignatureAlgorithm::Sha256 => "sha-256 ".to_owned(),
        };
        let ghost prefix = out@;
        append_hex_byte_upper(&mut out, self.bytes[0]);
        assert(self.bytes@.take(1).last() == self.bytes@[0]);
        assert(out@ == prefix + spec_hex_colon_upper(self.bytes@.take(1)));
        for i in 1..self.bytes.len()
            invariant
                1 <= i <= self.bytes@.len(),
                out@ == prefix + spec_hex_colon_upper(self.bytes@.take(i as int)),
        {
            out.append(":");
            append_hex_byte_upper(&mut out, self.bytes[i]);
            proof {
                reveal_strlit(":");
                let cur = self.bytes@.take(i + 1);
                assert(cur.drop_last() =~= self.bytes@.take(i as int));
                assert(cur.last() == self.bytes@[i as int]);
                assert(":"@ =~= seq![':']);
                assert(out@ =~= prefix + spec_hex_colon_upper(cur));
            }
        }
        assert(self.bytes@.take(self.bytes@.len() as int) =~= self.bytes@);
        out
    }
}

} // verus!
