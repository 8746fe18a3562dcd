//! X.509 certificates as the session layer sees them: a DER byte string
//! whose outer structure is checked here, and whose deep validation is the
//! TLS engine's work.

use crate::certificate_fingerprint::{CertificateFingerprint, SignatureAlgorithm};
use crate::crypto::{sha1_digest, sha1_digest_of, sha256_digest, sha256_digest_of};
use crate::error::Error;
use crate::util::clone_bytes;
use vstd::prelude::*;

verus! {

/// An X.509 certificate, carried as its DER encoding.
#[derive(Debug)]
pub struct Certificate {
    der: Vec<u8>,
}

impl View for Certificate {
    type V = Seq<u8>;

    closed spec fn view(&self) -> Seq<u8> {
        self.der@
    }
}

impl Clone for Certificate {
    /// A copy carries the same DER bytes.
    fn clone(&self) -> (r: Self)
        ensures
            r@ == self@,
    {
        Certificate { der: clone_bytes(&self.der) }
    }
}

/// Big-endian integer value of a run of bytes.
pub open spec fn spec_be_value(b: Seq<u8>) -> int
    decreases b.len(),
{
    if b.len() == 0 {
        0
    } else {
        spec_be_value(b.drop_last()) * 256 + b.last()
    }
}

/// 256 to the power `i`.
pub open spec fn spec_pow256(i: int) -> int
    decreases i,
{
    if i <= 0 {
        1
    } else {
        256 * spec_pow256(i - 1)
    }
}

/// Whether a byte string is one whole DER SEQUENCE: tag `0x30`, a definite
/// length in shortest form, and a content length that spans exactly the rest
/// of the input. The certificate's inner fields are the engine's to
/// validate.
pub open spec fn spec_certificate_der_well_formed(b: Seq<u8>) -> bool {
    &&& b.len() >= 2
    &&& b[0] == 0x30
    &&& if b[1] < 0x80 {
        b.len() == 2 + b[1]
    } else {
        let n = b[1] - 0x80;
        &&& 1 <= n <= 4
        &&& b.len() >= 2 + n
        &&& (n == 1 ==> b[2] >= 0x80)
        &&& (n > 1 ==> b[2] != 0)
        &&& b.len() == 2 + n + spec_be_value(b.subrange(2, 2 + n))
    }
}

/// The DER re-encoding of the first CERTIFICATE block of a PEM input, as
/// the engine parses it: a pure function of the input bytes.
pub uninterp spec fn spec_pem_der(b: Seq<u8>) -> Seq<u8>;

/// Relies on `openssl::x509::X509::from_pem` and `X509::to_der`: parses the
/// first PEM-armored CERTIFICATE block — the engine decides which inputs
/// parse — and re-encodes it as DER, a deterministic function of the input.
#[verifier::external_body]
fn x509_pem_to_der(buf: &[u8]) -> (r: Option<Vec<u8>>)
    ensures
        r matches Some(der) ==> der@ == spec_pem_der(buf@),
{
    let cert = openssl::x509::X509::from_pem(buf).ok()?;
    cert.to_der().ok()
}

impl Certificate {
    /// Reads a DER-encoded certificate: accepted exactly when the input is
    /// one whole DER SEQUENCE.
    pub fn from_der(buf: &[u8]) -> (r: Result<Certificate, Error>)
        ensures
            r is Ok <==> spec_certificate_der_well_formed(buf@),
            r matches Ok(c) ==> c@ == buf@,
            r matches Err(e) ==> e is CryptoEngine,
    {
        if !der_certificate_well_formed(buf) {
            return Err(Error::CryptoEngine("not a single DER SEQUENCE".to_owned()));
        }
        Ok(Certificate { der: vstd::slice::slice_to_vec(buf) })
    }

    /// Reads a PEM-encoded certificate — the input should carry a
    /// `-----BEGIN CERTIFICATE-----` block. The engine parses the armor;
    /// what it hands back is re-checked here, so an accepted certificate is
    /// always the block's DER form, itself one whole DER SEQUENCE.
    pub fn from_pem(buf: &[u8]) -> (r: Result<Certificate, Error>)
        ensures
            r matches Ok(c) ==> c@ == spec_pem_der(buf@) && spec_certificate_der_well_formed(c@),
            r matches Err(e) ==> e is CryptoEngine,
    {
        match x509_pem_to_der(buf) {
            Option::Some(der) => {
                if !der_certificate_well_formed(der.as_slice()) {
                    return Err(Error::CryptoEngine("not a single DER SEQUENCE".to_owned()));
                }
                Ok(Certificate { der })
            },
            Option::None => Err(Error::CryptoEngine("no PEM certificate block".to_owned())),
        }
    }

    /// Serializes the certificate back into its DER bytes.
    pub fn to_der(&self) -> (r: Result<Vec<u8>, Error>)
        ensures
            r matches Ok(der) && der@ == self@,
    {
        Ok(clone_bytes(&self.der))
    }

    /// The digest of the DER representation under the chosen hash, paired
    /// with that hash's name.
    pub fn fingerprint(&self, signature_algorithm: SignatureAlgorithm) -> (r: Result<
        CertificateFingerprint,
        Error,
    >)
        ensures
            r matches Ok(fp) && fp.signature_algorithm == signature_algorithm && fp.bytes@
                == match signature_algorithm {
                SignatureAlgorithm::Sha1 => sha1_digest_of(self@),
                SignatureAlgorithm::Sha256 => sha256_digest_of(self@),
            },
    {
        let bytes = match signature_algorithm {
            SignatureAlgorithm::Sha1 => sha1_digest(self.der.as_slice()),
            SignatureAlgorithm::Sha256 => sha256_digest(self.der.as_slice()),
        };
        Ok(CertificateFingerprint { bytes, signature_algorithm })
    }
}

/// Checks that a byte string is one whole DER SEQUENCE in shortest-form
/// definite length.
fn der_certificate_well_formed(buf: &[u8]) -> (r: bool)
    ensures
        r == spec_certificate_der_well_formed(buf@),
{
    if buf.len() < 2 {
        return false;
    }
    if buf[0] != 0x30 {
        return false;
    }
    let l1 = buf[1];
    if l1 < 0x80 {
        buf.len() == 2 + l1 as usize
    } else {
        let n = (l1 - 0x80) as usize;
        if n < 1 || n > 4 {
            return false;
        }
        if buf.len() < 2 + n {
            return false;
        }
        if n == 1 && buf[2] < 0x80 {
            return false;
        }
        if n > 1 && buf[2] == 0 {
            return false;
        }
        let mut value: usize = 0;
        assert(buf@.subrange(2, 2) =~= Seq::<u8>::empty());
        for i in 0..n
            invariant
                n <= 4,
                buf@.len() >= 2 + n,
                value == spec_be_value(buf@.subrange(2, 2 + i as int)),
                value < spec_pow256(i as int),
        {
            proof {
                assert(spec_pow256(0) == 1);
                assert(spec_pow256(1) == 256);
                assert(spec_pow256(2) == 65536);
                assert(spec_pow256(3) == 16777216);
                assert(spec_pow256(4) == 4294967296);
                assert(spec_pow256(i as int) <= spec_pow256(3)) by {
                    if i == 0 {
                        assert(spec_pow256(0) == 1);
                    }
                }
            }
            value = value * 256 + buf[2 + i] as usize;
            proof {
                let sub = buf@.subrange(2, 2 + i + 1);
                assert(sub.drop_last() =~= buf@.subrange(2, 2 + i as int));
                assert(sub.last() == buf@[2 + i]);
                assert(spec_pow256(i + 1) == 256 * spec_pow256(i as int));
            }
        }
        buf.len() - 2 - n == value
    }
}

} // verus!
