//! Configuration for a connecting endpoint, assembled once and handed to the
//! connector's constructor.

use crate::certificate::Certificate;
use crate::dtls_connector::DtlsConnector;
use crate::error::Error;
use crate::identity::ConnectorIdentity;
use crate::protocol::Protocol;
use crate::srtp_profile::SrtpProfile;
use vstd::prelude::*;

verus! {

/// Configuration of a `DtlsConnector`: the client's identity if it
/// authenticates, the SRTP profiles to offer, the protocol version range,
/// extra trust roots, and the hostname/certificate validation switches. An
/// immutable value; each setter returns the updated configuration.
pub struct DtlsConnectorBuilder {
    /// The identity for client authentication, if any.
    pub identity: Option<ConnectorIdentity>,
    /// The SRTP profiles to offer, in preference order.
    pub srtp_profiles: Vec<SrtpProfile>,
    /// The lowest protocol version to use; none admits the oldest supported.
    pub min_protocol: Option<Protocol>,
    /// The highest protocol version to use; none admits the newest
    /// supported.
    pub max_protocol: Option<Protocol>,
    /// Certificates trusted beyond the system roots.
    pub root_certificates: Vec<Certificate>,
    /// Whether to skip certificate validation entirely.
    pub accept_invalid_certs: bool,
    /// Whether to skip hostname verification.
    pub accept_invalid_hostnames: bool,
    /// Whether to send the server name indication.
    pub use_sni: bool,
}

impl DtlsConnectorBuilder {
    /// Sets the identity to be used for client authentication.
    pub fn identity(self, identity: ConnectorIdentity) -> (r: DtlsConnectorBuilder)
        ensures
            r == (DtlsConnectorBuilder { identity: Some(identity), ..self }),
    {
        DtlsConnectorBuilder { identity: Some(identity), ..self }
    }

    /// Sets the minimum supported protocol version; `None` admits the oldest
    /// version the engine supports.
    pub fn min_protocol_version(self, protocol: Option<Protocol>) -> (r: DtlsConnectorBuilder)
        ensures
            r == (DtlsConnectorBuilder { min_protocol: protocol, ..self }),
    {
        DtlsConnectorBuilder { min_protocol: protocol, ..self }
    }

    /// Sets the maximum supported protocol version; `None` admits the newest
    /// version the engine supports.
    pub fn max_protocol_version(self, protocol: Option<Protocol>) -> (r: DtlsConnectorBuilder)
        ensures
            r == (DtlsConnectorBuilder { max_protocol: protocol, ..self }),
    {
        DtlsConnectorBuilder { max_protocol: protocol, ..self }
    }

    /// Appends one SRTP profile to the offer, keeping the order profiles
    /// were added in.
    pub fn add_srtp_profile(self, profile: SrtpProfile) -> (r: DtlsConnectorBuilder)
        ensures
            r.srtp_profiles@ == self.srtp_profiles@.push(profile),
            r.identity == self.identity,
            r.min_protocol == self.min_protocol,
            r.max_protocol == self.max_protocol,
            r.root_certificates == self.root_certificates,
            r.accept_invalid_certs == self.accept_invalid_certs,
            r.accept_invalid_hostnames == self.accept_invalid_hostnames,
            r.use_sni == self.use_sni,
    {
        let mut srtp_profiles = self.srtp_profiles;
        srtp_profiles.push(profile);
        DtlsConnectorBuilder { srtp_profiles, ..self }
    }

    /// Adds a certificate to the set of roots the connector trusts beyond
    /// the system's own, for servers the system does not trust.
    pub fn add_root_certificate(self, cert: Certificate) -> (r: DtlsConnectorBuilder)
        ensures
            r.root_certificates@ == self.root_certificates@.push(cert),
            r.identity == self.identity,
            r.srtp_profiles == self.srtp_profiles,
            r.min_protocol == self.min_protocol,
            r.max_protocol == self.max_protocol,
            r.accept_invalid_certs == self.accept_invalid_certs,
            r.accept_invalid_hostnames == self.accept_invalid_hostnames,
            r.use_sni == self.use_sni,
    {
        let mut root_certificates = self.root_certificates;
        root_certificates.push(cert);
        DtlsConnectorBuilder { root_certificates, ..self }
    }

    /// Controls certificate validation. Trusting invalid certificates
    /// trusts any certificate for any site, expired ones included: a last
    /// resort only.
    pub fn danger_accept_invalid_certs(self, accept_invalid_certs: bool) -> (r:
        DtlsConnectorBuilder)
        ensures
            r == (DtlsConnectorBuilder { accept_invalid_certs, ..self }),
    {
        DtlsConnectorBuilder { accept_invalid_certs, ..self }
    }

    /// Controls the use of Server Name Indication.
    pub fn use_sni(self, use_sni: bool) -> (r: DtlsConnectorBuilder)
        ensures
            r == (DtlsConnectorBuilder { use_sni, ..self }),
    {
        DtlsConnectorBuilder { use_sni, ..self }
    }

    /// Controls hostname verification. Trusting invalid hostnames trusts
    /// any valid certificate for any site: a last resort only.
    pub fn danger_accept_invalid_hostnames(self, accept_invalid_hostnames: bool) -> (r:
        DtlsConnectorBuilder)
        ensures
            r == (DtlsConnectorBuilder { accept_invalid_hostnames, ..self }),
    {
        DtlsConnectorBuilder { accept_invalid_hostnames, ..self }
    }

    /// Creates a new `DtlsConnector` with the settings from this
    /// configuration.
    pub fn build(self) -> (r: Result<DtlsConnector, Error>)
        ensures
            crate::protocol::spec_version_range_empty(self.min_protocol, self.max_protocol) ==> (
            r matches Err(e) && e == Error::Configuration(
                crate::error::ConfigurationError::EmptyVersionRange,
            )),
            !crate::protocol::spec_version_range_empty(self.min_protocol, self.max_protocol) ==> (
            r matches Ok(c) && DtlsConnector::spec_built_from(c, self)),
    {
        DtlsConnector::new(self)
    }
}

} // verus!
