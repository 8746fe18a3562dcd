//! Configuration for an accepting endpoint, assembled once and handed to the
//! acceptor's constructor.

use crate::dtls_acceptor::DtlsAcceptor;
use crate::error::Error;
use crate::identity::CertificateIdentity;
use crate::protocol::Protocol;
use crate::srtp_profile::SrtpProfile;
use vstd::prelude::*;

verus! {

/// Configuration of a `DtlsAcceptor`: the server's identity, the SRTP
/// profiles to offer through the `use_srtp` extension, and the supported
/// protocol version range. An immutable value; each setter returns the
/// updated configuration.
pub struct DtlsAcceptorBuilder {
    /// The identity acting as the server's private key and certificate
    /// chain.
    pub identity: CertificateIdentity,
    /// The SRTP profiles to offer, in the endpoint's preference order.
    pub srtp_profiles: Vec<SrtpProfile>,
    /// The lowest protocol version to accept; none admits the oldest
    /// supported.
    pub min_protocol: Option<Protocol>,
    /// The highest protocol version to accept; none admits the newest
    /// supported.
    pub max_protocol: Option<Protocol>,
}

impl DtlsAcceptorBuilder {
    /// Sets the minimum supported protocol version; `None` admits the oldest
    /// version the engine supports.
    pub fn min_protocol_version(self, protocol: Option<Protocol>) -> (r: DtlsAcceptorBuilder)
        ensures
            r == (DtlsAcceptorBuilder { min_protocol: protocol, ..self }),
    {
        DtlsAcceptorBuilder { min_protocol: protocol, ..self }
    }

    /// Sets the maximum supported protocol version; `None` admits the newest
    /// version the engine supports.
    pub fn max_protocol_version(self, protocol: Option<Protocol>) -> (r: DtlsAcceptorBuilder)
        ensures
            r == (DtlsAcceptorBuilder { max_protocol: protocol, ..self }),
    {
        DtlsAcceptorBuilder { max_protocol: protocol, ..self }
    }

    /// Appends one SRTP profile to the offer, keeping the order profiles
    /// were added in — the order negotiation prefers.
    pub fn add_srtp_profile(self, profile: SrtpProfile) -> (r: DtlsAcceptorBuilder)
        ensures
            r.srtp_profiles@ == self.srtp_profiles@.push(profile),
            r.identity == self.identity,
            r.min_protocol == self.min_protocol,
            r.max_protocol == self.max_protocol,
    {
        let mut srtp_profiles = self.srtp_profiles;
        srtp_profiles.push(profile);
        DtlsAcceptorBuilder { srtp_profiles, ..self }
    }

    /// Creates a new `DtlsAcceptor` with the settings from this
    /// configuration.
    pub fn build(self) -> (r: Result<DtlsAcceptor, Error>)
        ensures
            crate::protocol::spec_version_range_empty(self.min_protocol, self.max_protocol) ==> (
            r matches Err(e) && e == Error::Configuration(
                crate::error::ConfigurationError::EmptyVersionRange,
            )),
            !crate::protocol::spec_version_range_empty(self.min_protocol, self.max_protocol) ==> (
            r matches Ok(a) && DtlsAcceptor::spec_built_from(a, self)),
    {
        DtlsAcceptor::new(self)
    }
}

} // verus!
