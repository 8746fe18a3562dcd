//! The connecting coordinator: it validates the endpoint's configuration at
//! construction and starts each outgoing attempt as a suspended state
//! machine.

use crate::dtls_connection_builder::DtlsConnectorBuilder;
use crate::dtls_stream::DtlsStream;
use crate::certificate::Certificate;
use crate::error::{Error, HandshakeError};
use crate::identity::ConnectorIdentity;
use crate::midhandshake_dtls_stream::{
    AttemptState, HandshakePhase, HandshakeRole, MidHandshakeDtlsStream,
};
use crate::protocol::{
    spec_protocol_options, spec_version_range_empty, try_set_supported_protocols, Protocol,
    ProtocolOptions,
};
use crate::srtp_profile::{spec_srtp_line, srtp_profile_line, SrtpProfile};
use vstd::prelude::*;

verus! {

/// Connector to a UDP endpoint secured with DTLS.
///
/// Everything here is fixed at construction: the identity, the translated
/// version range, the `use_srtp` offer, the extra trust roots, and the
/// hostname/certificate validation switches. The connector is then read-only
/// and safe to share across attempts.
pub struct DtlsConnector {
    identity: Option<ConnectorIdentity>,
    srtp_profiles: Vec<SrtpProfile>,
    srtp_line: String,
    options: ProtocolOptions,
    root_certificates: Vec<Certificate>,
    use_sni: bool,
    accept_invalid_hostnames: bool,
    accept_invalid_certs: bool,
}

impl DtlsConnector {
    /// The client's identity, if it authenticates.
    pub closed spec fn spec_identity(self) -> Option<ConnectorIdentity> {
        self.identity
    }

    /// The SRTP profiles offered, in preference order.
    pub closed spec fn spec_srtp_profiles(self) -> Seq<SrtpProfile> {
        self.srtp_profiles@
    }

    /// The `use_srtp` configuration line.
    pub closed spec fn spec_srtp_line(self) -> Seq<char> {
        self.srtp_line@
    }

    /// The translated protocol version flags.
    pub closed spec fn spec_options(self) -> ProtocolOptions {
        self.options
    }

    /// The extra trust roots.
    pub closed spec fn spec_root_certificates(self) -> Seq<Certificate> {
        self.root_certificates@
    }

    /// Whether the server name indication is sent.
    pub closed spec fn spec_use_sni(self) -> bool {
        self.use_sni
    }

    /// Whether hostname verification is skipped.
    pub closed spec fn spec_accept_invalid_hostnames(self) -> bool {
        self.accept_invalid_hostnames
    }

    /// Whether certificate validation is skipped.
    pub closed spec fn spec_accept_invalid_certs(self) -> bool {
        self.accept_invalid_certs
    }

    /// What construction from a configuration promises: the configuration is
    /// carried over verbatim, the version range is translated, and the
    /// `use_srtp` line is the profiles' names joined.
    pub open spec fn spec_built_from(c: DtlsConnector, b: DtlsConnectorBuilder) -> bool {
        &&& c.spec_identity() == b.identity
        &&& c.spec_srtp_profiles() == b.srtp_profiles@
        &&& c.spec_srtp_line() == spec_srtp_line(b.srtp_profiles@)
        &&& c.spec_options() == spec_protocol_options(b.min_protocol, b.max_protocol)
        &&& c.spec_root_certificates() == b.root_certificates@
        &&& c.spec_use_sni() == b.use_sni
        &&& c.spec_accept_invalid_hostnames() == b.accept_invalid_hostnames
        &&& c.spec_accept_invalid_certs() == b.accept_invalid_certs
    }

    /// Creates a connector with the settings from the given configuration:
    /// the version range is translated into enable/disable flags — an empty
    /// range is a configuration error here, never mid-handshake — and the
    /// `use_srtp` offer line is built.
    pub fn new(builder: DtlsConnectorBuilder) -> (r: Result<DtlsConnector, Error>)
        ensures
            spec_version_range_empty(builder.min_protocol, builder.max_protocol) ==> (r matches Err(
                e,
            ) && e == Error::Configuration(crate::error::ConfigurationError::EmptyVersionRange)),
            !spec_version_range_empty(builder.min_protocol, builder.max_protocol) ==> (r matches Ok(
                c,
            ) && DtlsConnector::spec_built_from(c, builder)),
    {
        let options = match try_set_supported_protocols(builder.min_protocol, builder.max_protocol) {
            Ok(o) => o,
            Err(e) => {
                return Err(e);
            },
        };
        let srtp_line = srtp_profile_line(&builder.srtp_profiles);
        Ok(
            DtlsConnector {
                identity: builder.identity,
                srtp_profiles: builder.srtp_profiles,
                srtp_line,
                options,
                root_certificates: builder.root_certificates,
                use_sni: builder.use_sni,
                accept_invalid_hostnames: builder.accept_invalid_hostnames,
                accept_invalid_certs: builder.accept_invalid_certs,
            },
        )
    }

    /// Returns a new configuration for a `DtlsConnector`: no identity, no
    /// SRTP profiles, versions from DTLS 1.0 up, no extra roots, SNI on,
    /// full validation.
    pub fn builder() -> (r: DtlsConnectorBuilder)
        ensures
            r.identity is None,
            r.srtp_profiles@ == Seq::<SrtpProfile>::empty(),
            r.min_protocol == Some(Protocol::Dtlsv10),
            r.max_protocol == Option::<Protocol>::None,
            r.root_certificates@ == Seq::<Certificate>::empty(),
            r.use_sni,
            !r.accept_invalid_certs,
            !r.accept_invalid_hostnames,
    {
        DtlsConnectorBuilder {
            identity: None,
            srtp_profiles: Vec::new(),
            min_protocol: Some(Protocol::Dtlsv10),
            max_protocol: None,
            root_certificates: Vec::new(),
            accept_invalid_certs: false,
            accept_invalid_hostnames: false,
            use_sni: true,
        }
    }

    /// Initiates a handshake on the provided channel, bringing it to its
    /// first suspension point: the attempt owns the channel and resumes as
    /// the engine's outcomes come in. The provided domain serves the server
    /// name indication and hostname validation; the attempt carries it
    /// exactly when indication is on, and hostname validation is read off
    /// this connector's switches.
    pub fn connect<S>(&self, domain: &str, stream: S) -> (r: Result<DtlsStream<S>, HandshakeError<S>>)
        ensures
            r matches Err(HandshakeError::WouldBlock(m)) && m.spec_channel() == stream && {
                let s = m.spec_state();
                &&& s.role == HandshakeRole::Client
                &&& s.phase == HandshakePhase::Handshaking
                &&& s.retry_owed is None
                &&& s.cookie_factory is None
                &&& (self.spec_use_sni() ==> (s.sni matches Some(d) && d@ == domain@))
                &&& (!self.spec_use_sni() ==> s.sni is None)
                &&& s.wf()
            },
    {
        let sni: Option<String> = if self.use_sni {
            Some(domain.to_owned())
        } else {
            None
        };
        let state = AttemptState {
            role: HandshakeRole::Client,
            phase: HandshakePhase::Handshaking,
            cookie_factory: None,
            retry_owed: None,
            sni,
        };
        Err(HandshakeError::WouldBlock(MidHandshakeDtlsStream::suspend(stream, state)))
    }

    /// The `use_srtp` offer line, for the engine's context.
    pub fn srtp_line(&self) -> (r: &String)
        ensures
            r@ == self.spec_srtp_line(),
    {
        &self.srtp_line
    }

    /// The translated protocol version flags, for the engine's context.
    pub fn protocol_options(&self) -> (r: ProtocolOptions)
        ensures
            r == self.spec_options(),
    {
        self.options
    }

    /// The client's identity, for the engine's context.
    pub fn identity(&self) -> (r: &Option<ConnectorIdentity>)
        ensures
            *r == self.spec_identity(),
    {
        &self.identity
    }

    /// The extra trust roots, for the engine's certificate store.
    pub fn root_certificates(&self) -> (r: &Vec<Certificate>)
        ensures
            r@ == self.spec_root_certificates(),
    {
        &self.root_certificates
    }

    /// Whether the server name indication is sent.
    pub fn uses_sni(&self) -> (r: bool)
        ensures
            r == self.spec_use_sni(),
    {
        self.use_sni
    }

    /// Whether hostname verification is skipped.
    pub fn accepts_invalid_hostnames(&self) -> (r: bool)
        ensures
            r == self.spec_accept_invalid_hostnames(),
    {
        self.accept_invalid_hostnames
    }

    /// Whether certificate validation is skipped.
    pub fn accepts_invalid_certs(&self) -> (r: bool)
        ensures
            r == self.spec_accept_invalid_certs(),
    {
        self.accept_invalid_certs
    }
}

/// Starts a handshake on a channel with this identity under otherwise
/// default settings and no server name indication, as a convenience for
/// simple clients.
pub fn dtls_connect<S>(stream: S, identity: ConnectorIdentity) -> (r: Result<
    DtlsStream<S>,
    HandshakeError<S>,
>)
    ensures
        r matches Err(HandshakeError::WouldBlock(m)) && m.spec_channel() == stream && {
            let s = m.spec_state();
            &&& s.role == HandshakeRole::Client
            &&& s.phase == HandshakePhase::Handshaking
            &&& s.sni is None
            &&& s.wf()
        },
{
    let connector = match DtlsConnector::new(
        DtlsConnector::builder().identity(identity).use_sni(false),
    ) {
        Ok(c) => c,
        Err(_) => {
            proof {
                assert(false);
            }
            vstd::pervasive::unreached()
        },
    };
    connector.connect("", stream)
}

} // verus!
