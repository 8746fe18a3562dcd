//! The accepting coordinator: it validates the endpoint's configuration at
//! construction, owns the endpoint's cookie keys, and starts each incoming
//! attempt as a suspended state machine.

use crate::connection::{ConnectionInfo, CookieFactory, ListenKeys};
use crate::dtls_acceptor_builder::DtlsAcceptorBuilder;
use crate::dtls_stream::SyncDtlsStream;
use crate::error::{Error, HandshakeError};
use crate::identity::CertificateIdentity;
use crate::midhandshake_dtls_stream::{
    AttemptState, HandshakePhase, HandshakeRole, MidHandshakeDtlsStream,
};
use crate::protocol::{
    spec_protocol_options, spec_version_range_empty, try_set_supported_protocols, Protocol,
    ProtocolOptions,
};
use crate::srtp_profile::{spec_srtp_line, srtp_profile_line, SrtpProfile};
use vstd::prelude::*;

verus! {

/// Acceptor for incoming UDP sessions secured with DTLS.
///
/// Everything here is fixed at construction: the identity, the translated
/// version range, the `use_srtp` offer, and the endpoint-lifetime listen
/// keys behind the cookie defense. The acceptor is then read-only and safe
/// to share across all concurrently handled attempts.
pub struct DtlsAcceptor {
    identity: CertificateIdentity,
    srtp_profiles: Vec<SrtpProfile>,
    srtp_line: String,
    options: ProtocolOptions,
    keys: ListenKeys,
    cookie_factory: CookieFactory,
}

impl DtlsAcceptor {
    /// The server's identity.
    pub closed spec fn spec_identity(self) -> CertificateIdentity {
        self.identity
    }

    /// The SRTP profiles offered, in preference order.
    pub closed spec fn spec_srtp_profiles(self) -> Seq<SrtpProfile> {
        self.srtp_profiles@
    }

    /// The `use_srtp` configuration line.
    pub closed spec fn spec_srtp_line(self) -> Seq<char> {
        self.srtp_line@
    }

    /// The translated protocol version flags.
    pub closed spec fn spec_options(self) -> ProtocolOptions {
        self.options
    }

    /// The endpoint's listen keys.
    pub closed spec fn spec_keys(self) -> ListenKeys {
        self.keys
    }

    /// The endpoint's cookie key, which every attempt of this acceptor
    /// mints and verifies cookies under.
    pub closed spec fn spec_cookie_key(self) -> Seq<u8> {
        self.cookie_factory.spec_key()
    }

    /// The cookie factory is keyed by the endpoint's cookie listen key.
    pub open spec fn wf(self) -> bool {
        &&& self.spec_keys().wf()
        &&& self.spec_cookie_key() == self.spec_keys().cookie@
    }

    /// What construction from a configuration promises: the configuration
    /// is carried over verbatim, the version range is translated, the
    /// `use_srtp` line is the profiles' names joined, and fresh endpoint
    /// keys back a well-formed cookie factory.
    pub open spec fn spec_built_from(a: DtlsAcceptor, b: DtlsAcceptorBuilder) -> bool {
        &&& a.spec_identity() == b.identity
        &&& a.spec_srtp_profiles() == b.srtp_profiles@
        &&& a.spec_srtp_line() == spec_srtp_line(b.srtp_profiles@)
        &&& a.spec_options() == spec_protocol_options(b.min_protocol, b.max_protocol)
        &&& a.wf()
    }

    /// Creates a `DtlsAcceptor` with default settings for the given
    /// identity.
    pub fn default(identity: CertificateIdentity) -> (r: Result<DtlsAcceptor, Error>)
        ensures
            r matches Ok(a) && a.spec_identity() == identity && a.spec_srtp_profiles()
                == Seq::<SrtpProfile>::empty() && a.spec_options() == spec_protocol_options(
                Some(Protocol::Dtlsv10),
                None,
            ) && a.wf(),
    {
        let r = DtlsAcceptor::builder(identity).build();
        match r {
            Ok(a) => Ok(a),
            Err(_) => {
                proof {
                    assert(false);
                }
                vstd::pervasive::unreached()
            },
        }
    }

    /// Creates an acceptor with the settings from the given configuration:
    /// the version range is translated into enable/disable flags — an empty
    /// range is a configuration error here, never mid-handshake — the
    /// `use_srtp` offer line is built, and endpoint-lifetime listen keys are
    /// drawn from the secure random source.
    pub fn new(builder: DtlsAcceptorBuilder) -> (r: Result<DtlsAcceptor, Error>)
        ensures
            spec_version_range_empty(builder.min_protocol, builder.max_protocol) ==> (r matches Err(
                e,
            ) && e == Error::Configuration(crate::error::ConfigurationError::EmptyVersionRange)),
            !spec_version_range_empty(builder.min_protocol, builder.max_protocol) ==> (r matches Ok(
                a,
            ) && DtlsAcceptor::spec_built_from(a, builder)),
    {
        let options = match try_set_supported_protocols(builder.min_protocol, builder.max_protocol) {
            Ok(o) => o,
            Err(e) => {
                return Err(e);
            },
        };
        let srtp_line = srtp_profile_line(&builder.srtp_profiles);
        let keys = ListenKeys::new();
        let cookie_factory = CookieFactory::new(crate::util::clone_bytes(&keys.cookie));
        Ok(
            DtlsAcceptor {
                identity: builder.identity,
                srtp_profiles: builder.srtp_profiles,
                srtp_line,
                options,
                keys,
                cookie_factory,
            },
        )
    }

    /// Returns a new configuration for a `DtlsAcceptor` with this identity:
    /// no SRTP profiles, versions from DTLS 1.0 up.
    pub fn builder(identity: CertificateIdentity) -> (r: DtlsAcceptorBuilder)
        ensures
            r.identity == identity,
            r.srtp_profiles@ == Seq::<SrtpProfile>::empty(),
            r.min_protocol == Some(Protocol::Dtlsv10),
            r.max_protocol == Option::<Protocol>::None,
    {
        DtlsAcceptorBuilder {
            identity,
            srtp_profiles: Vec::new(),
            min_protocol: Some(Protocol::Dtlsv10),
            max_protocol: None,
        }
    }

    /// Accepts a new attempt on the provided channel, bringing it to its
    /// first suspension point: the attempt owns the channel, starts in the
    /// cookie round under this endpoint's keys, and resumes as the
    /// transport's datagrams and the engine's outcomes come in. No work is
    /// done for the claimed address beyond this constant-size state.
    pub fn accept<S>(&self, stream: S) -> (r: Result<SyncDtlsStream<S>, HandshakeError<S>>)
        requires
            self.wf(),
        ensures
            r matches Err(HandshakeError::WouldBlock(m)) && m.spec_channel() == stream && {
                let s = m.spec_state();
                &&& s.role == HandshakeRole::Server
                &&& s.phase == HandshakePhase::CookieExchange
                &&& s.retry_owed is None
                &&& s.cookie_factory matches Some(f) && f.spec_key() == self.spec_cookie_key()
                &&& s.wf()
            },
    {
        let factory = self.cookie_factory.clone();
        let state = AttemptState {
            role: HandshakeRole::Server,
            phase: HandshakePhase::CookieExchange,
            cookie_factory: Some(factory),
            retry_owed: None,
            sni: None,
        };
        Err(HandshakeError::WouldBlock(MidHandshakeDtlsStream::suspend(stream, state)))
    }

    /// The endpoint's cookie factory, for wiring the engine's cookie hooks.
    pub fn cookie_factory(&self) -> (r: &CookieFactory)
        ensures
            r.spec_key() == self.spec_cookie_key(),
    {
        &self.cookie_factory
    }

    /// The endpoint's listen keys, which a caller may persist across
    /// restarts so cookies issued before a restart stay valid after it.
    pub fn listen_keys(&self) -> (r: &ListenKeys)
        ensures
            *r == self.spec_keys(),
    {
        &self.keys
    }

    /// The `use_srtp` offer line, for the engine's context.
    pub fn srtp_line(&self) -> (r: &String)
        ensures
            r@ == self.spec_srtp_line(),
    {
        &self.srtp_line
    }

    /// The translated protocol version flags, for the engine's context.
    pub fn protocol_options(&self) -> (r: ProtocolOptions)
        ensures
            r == self.spec_options(),
    {
        self.options
    }

    /// The server's identity, for the engine's context.
    pub fn identity(&self) -> (r: &CertificateIdentity)
        ensures
            *r == self.spec_identity(),
    {
        &self.identity
    }

    /// Decides one datagram of the cookie round, exactly as the suspended
    /// attempt's own step does: a flight echoing the cookie minted for its
    /// address proceeds to the real handshake; any other flight is owed a
    /// retry request carrying that cookie. The decision reads only the
    /// endpoint key and the flight.
    pub fn screen_flight(&self, info: &ConnectionInfo, cookie: Option<&Vec<u8>>) -> (r: Option<Vec<u8>>)
        requires
            self.wf(),
        ensures
            match r {
                // pass through: the echoed cookie is the one minted for this address
                Option::None => cookie matches Some(c) && crate::connection::spec_cookie_accepted(
                    self.spec_cookie_key(),
                    info.remote,
                    c@,
                ),
                // owed a retry: anything else, and the reply is that cookie
                Option::Some(retry) => retry@ == crate::connection::spec_cookie(
                    self.spec_cookie_key(),
                    info.remote,
                ) && !(cookie matches Some(c) && crate::connection::spec_cookie_accepted(
                    self.spec_cookie_key(),
                    info.remote,
                    c@,
                )),
            },
    {
        let verified = match cookie {
            Some(c) => self.cookie_factory.verify(info, c.as_slice()),
            None => false,
        };
        if verified {
            None
        } else {
            Some(self.cookie_factory.generate_mac(info))
        }
    }
}

} // verus!
