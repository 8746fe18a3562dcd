//! Cryptographic identities: a certificate with its private key and chain,
//! or a pre-shared key.

use crate::certificate::Certificate;
use crate::error::{ConfigurationError, Error};
use crate::util::clone_bytes;
use vstd::prelude::*;

verus! {

/// A certificate identity: the leaf certificate, its private key in DER
/// form, and the chain towards a trusted root, leaf first.
///
/// Whether the key actually belongs to the certificate only the engine's
/// cryptography can tell; the coordinator surfaces that failure as
/// `ConfigurationError::KeyCertificateMismatch` when the engine's context is
/// built, still before any handshake runs.
#[derive(Debug)]
pub struct CertificateIdentity {
    cert: Certificate,
    key_der: Vec<u8>,
    chain: Vec<Certificate>,
}

impl CertificateIdentity {
    /// The identity's private key bytes.
    pub closed spec fn spec_key_der(self) -> Seq<u8> {
        self.key_der@
    }

    /// The identity's leaf certificate.
    pub closed spec fn spec_certificate(self) -> Certificate {
        self.cert
    }

    /// The identity's chain certificates, leaf end first.
    pub closed spec fn spec_chain(self) -> Seq<Certificate> {
        self.chain@
    }

    /// Assembles an identity from a leaf certificate, its private key in DER
    /// form, and the chain towards a trusted root. An empty key is a missing
    /// identity, rejected here at construction.
    pub fn new(cert: Certificate, key_der: Vec<u8>, chain: Vec<Certificate>) -> (r: Result<
        CertificateIdentity,
        Error,
    >)
        ensures
            key_der@.len() == 0 ==> r == Result::<CertificateIdentity, Error>::Err(
                Error::Configuration(ConfigurationError::MissingIdentity),
            ),
            key_der@.len() > 0 ==> (r matches Ok(id) && id.spec_certificate() == cert
                && id.spec_key_der() == key_der@ && id.spec_chain() == chain@),
    {
        if key_der.len() == 0 {
            Err(Error::Configuration(ConfigurationError::MissingIdentity))
        } else {
            Ok(CertificateIdentity { cert, key_der, chain })
        }
    }

    /// The X.509 certificate of this identity.
    pub fn certificate(&self) -> (r: Certificate)
        ensures
            r@ == self.spec_certificate()@,
    {
        self.cert.clone()
    }

    /// The private key in DER form.
    pub fn key_der(&self) -> (r: &Vec<u8>)
        ensures
            r@ == self.spec_key_der(),
    {
        &self.key_der
    }

    /// The chain certificates, leaf end first.
    pub fn chain(&self) -> (r: &Vec<Certificate>)
        ensures
            r@ == self.spec_chain(),
    {
        &self.chain
    }
}

/// Identity and key for pre-shared-key authentication on the connecting
/// side.
#[derive(Debug)]
pub struct PskIdentity {
    identity: Vec<u8>,
    key: Vec<u8>,
}

impl PskIdentity {
    /// The identity hint presented to the peer.
    pub closed spec fn spec_identity(self) -> Seq<u8> {
        self.identity@
    }

    /// The pre-shared key itself.
    pub closed spec fn spec_key(self) -> Seq<u8> {
        self.key@
    }

    /// The identity hint bytes, for the engine's callback.
    pub fn identity(&self) -> (r: &Vec<u8>)
        ensures
            r@ == self.spec_identity(),
    {
        &self.identity
    }

    /// The key bytes, for the engine's callback.
    pub fn key(&self) -> (r: &Vec<u8>)
        ensures
            r@ == self.spec_key(),
    {
        &self.key
    }

    /// Pairs a pre-shared key with the identity hint presented for it.
    pub fn new(identity: &[u8], key: &[u8]) -> (r: PskIdentity)
        ensures
            r.spec_identity() == identity@,
            r.spec_key() == key@,
    {
        PskIdentity {
            identity: vstd::slice::slice_to_vec(identity),
            key: vstd::slice::slice_to_vec(key),
        }
    }
}

/// The identities a connecting endpoint can authenticate with.
#[derive(Debug)]
pub enum ConnectorIdentity {
    Certificate(CertificateIdentity),
    Psk(PskIdentity),
}

} // verus!
