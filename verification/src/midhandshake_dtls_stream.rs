//! The resumable handshake state machine.
//!
//! One attempt moves through `NotStarted -> InProgress -> {Established |
//! Failed}`, where `InProgress` may repeat under suspension. The outside
//! work — socket I/O and the engine's cryptographic stepping — happens
//! between calls: each resumption hands in what that work produced as a
//! plain event, and this machine decides the one outcome it leads to. The
//! same machine therefore runs under a blocking driver (the thread waits on
//! the socket between events) and a cooperative one (the task yields between
//! events).

use crate::connection::{spec_cookie, spec_cookie_accepted, ConnectionInfo, CookieFactory};
use crate::dtls_stream::{DtlsStream, SessionParams};
use crate::error::{Error, HandshakeError};
use vstd::prelude::*;

verus! {

/// Which side of the handshake an attempt plays.
#[derive(Debug, Copy, Clone, PartialEq, Eq, Structural)]
pub enum HandshakeRole {
    Client,
    Server,
}

/// Where a suspended attempt stands.
#[derive(Debug, Copy, Clone, PartialEq, Eq, Structural)]
pub enum HandshakePhase {
    /// Accepting side before the claimed address proved it can receive
    /// traffic: only the cookie round runs; no engine work has begun and no
    /// per-client state exists.
    CookieExchange,
    /// The engine drives the cryptographic handshake.
    Handshaking,
}

/// One datagram of the accepting side's cookie round, as the admission
/// decision sees it: the attempt identity carrying the claimed source
/// address, and the echoed cookie if the flight carried one.
pub struct ClientFlight {
    pub info: ConnectionInfo,
    pub cookie: Option<Vec<u8>>,
}

/// What the outside work handed back for one driving step.
pub enum HandshakeEvent {
    /// The transport reported not-ready at a suspension point.
    NotReady,
    /// A datagram arrived during the accepting side's cookie round.
    Flight(ClientFlight),
    /// The engine completed the cryptographic handshake, reporting what it
    /// negotiated.
    Established(SessionParams),
    /// The engine failed, with its opaque message.
    EngineFailed(String),
    /// The engine rejected the peer's certificate, with the verification
    /// result code.
    CertificateRejected(u64),
}

/// The saved, plain-value state of one suspended attempt.
pub struct AttemptState {
    /// Which side this attempt plays.
    pub role: HandshakeRole,
    /// Where the attempt stands.
    pub phase: HandshakePhase,
    /// The accepting endpoint's cookie factory — endpoint-wide key material,
    /// never per-client state. The connecting side has none.
    pub cookie_factory: Option<CookieFactory>,
    /// The attempt owed a retry request: the identity of the last flight
    /// whose cookie did not verify. Its cookie is recomputed from the
    /// endpoint key on demand; nothing else outlives the flight.
    pub retry_owed: Option<ConnectionInfo>,
    /// The server name the connecting side indicates, when indication is on.
    pub sni: Option<String>,
}

impl AttemptState {
    /// A server attempt carries the endpoint's cookie factory; a client
    /// attempt carries none and never enters the cookie round.
    pub open spec fn wf(self) -> bool {
        &&& (self.role == HandshakeRole::Server <==> self.cookie_factory is Some)
        &&& (self.cookie_factory matches Some(f) ==> f.wf())
        &&& (self.role == HandshakeRole::Client ==> self.phase == HandshakePhase::Handshaking)
        &&& (self.retry_owed is Some ==> self.role == HandshakeRole::Server)
        &&& (self.sni is Some ==> self.role == HandshakeRole::Client)
    }
}

/// The one outcome a resumption resolves to: completed, suspended again, or
/// failed — never a mix.
pub enum StepResult {
    Established(SessionParams),
    InProgress(AttemptState),
    Failed(Error),
}

/// Whether a flight's echoed cookie verifies under a factory key.
pub open spec fn spec_flight_verified(key: Seq<u8>, f: ClientFlight) -> bool {
    f.cookie matches Some(c) && spec_cookie_accepted(key, f.info.remote, c@)
}

/// What one resumption of a suspended attempt resolves to, for each event
/// the outside work can hand in.
///
/// A never-ready transport suspends the attempt again with its state intact.
/// During the accepting side's cookie round, a flight whose cookie verifies
/// admits the address to the real handshake, and any other flight — first
/// contact and failed verification look the same — leaves the round where it
/// was, owing that address a retry request. Engine completion establishes
/// the session; engine failure and certificate rejection terminate the
/// attempt.
pub open spec fn spec_step(s: AttemptState, ev: HandshakeEvent) -> StepResult {
    match ev {
        HandshakeEvent::NotReady => StepResult::InProgress(s),
        HandshakeEvent::Flight(f) => {
            if s.phase == HandshakePhase::CookieExchange {
                match s.cookie_factory {
                    Option::Some(fac) => if spec_flight_verified(fac.spec_key(), f) {
                        StepResult::InProgress(
                            AttemptState {
                                phase: HandshakePhase::Handshaking,
                                retry_owed: None,
                                ..s
                            },
                        )
                    } else {
                        StepResult::InProgress(AttemptState { retry_owed: Some(f.info), ..s })
                    },
                    Option::None => StepResult::InProgress(s),
                }
            } else {
                // outside the cookie round, datagrams are the engine's to
                // consume; the saved state is untouched
                StepResult::InProgress(s)
            }
        },
        HandshakeEvent::Established(p) => StepResult::Established(p),
        HandshakeEvent::EngineFailed(m) => StepResult::Failed(Error::CryptoEngine(m)),
        HandshakeEvent::CertificateRejected(code) => StepResult::Failed(Error::Verification(code)),
    }
}

/// A DTLS stream interrupted midway through the handshake process. It owns
/// the channel and the attempt's saved state between a would-block outcome
/// and the next resume call; dropping it releases the attempt with no
/// further effect.
pub struct MidHandshakeDtlsStream<S> {
    channel: S,
    state: AttemptState,
}

impl<S> MidHandshakeDtlsStream<S> {
    /// The transport channel the attempt owns.
    pub closed spec fn spec_channel(self) -> S {
        self.channel
    }

    /// The attempt's saved state.
    pub closed spec fn spec_state(self) -> AttemptState {
        self.state
    }

    /// Suspends an attempt over its channel.
    pub(crate) fn suspend(channel: S, state: AttemptState) -> (r: MidHandshakeDtlsStream<S>)
        ensures
            r.spec_channel() == channel,
            r.spec_state() == state,
    {
        MidHandshakeDtlsStream { channel, state }
    }

    /// A shared reference to the inner stream.
    pub fn get_ref(&self) -> (r: &S)
        ensures
            *r == self.spec_channel(),
    {
        &self.channel
    }

    /// A mutable reference to the inner stream, for driving its I/O; the
    /// attempt's saved state is untouched by whatever the caller does with
    /// it.
    pub fn get_mut(&mut self) -> (r: &mut S)
        ensures
            *r == old(self).spec_channel(),
            final(self).spec_channel() == *final(r),
            final(self).spec_state() == old(self).spec_state(),
    {
        &mut self.channel
    }

    /// Where the attempt stands.
    pub fn phase(&self) -> (r: HandshakePhase)
        ensures
            r == self.spec_state().phase,
    {
        self.state.phase
    }

    /// The server name this attempt indicates, if indication is on.
    pub fn sni(&self) -> (r: &Option<String>)
        ensures
            *r == self.spec_state().sni,
    {
        &self.state.sni
    }

    /// Which side the attempt plays.
    pub fn role(&self) -> (r: HandshakeRole)
        ensures
            r == self.spec_state().role,
    {
        self.state.role
    }

    /// The retry request owed to the last unverified flight, if any: its
    /// attempt identity and the cookie to send back, minted afresh from the
    /// endpoint key. Nothing per-address was stored to produce it.
    pub fn pending_retry(&self) -> (r: Option<(&ConnectionInfo, Vec<u8>)>)
        requires
            self.spec_state().wf(),
        ensures
            match self.spec_state().retry_owed {
                Option::None => r is None,
                Option::Some(info) => r matches Some(pair) && *pair.0 == info && pair.1@
                    == spec_cookie(
                    self.spec_state().cookie_factory->Some_0.spec_key(),
                    info.remote,
                ),
            },
    {
        match (&self.state.retry_owed, &self.state.cookie_factory) {
            (Option::Some(info), Option::Some(fac)) => {
                let cookie = fac.generate_mac(info);
                Some((info, cookie))
            },
            _ => None,
        }
    }

    /// Restarts the handshake process with what the outside work produced
    /// since the suspension.
    ///
    /// The resumption resolves to exactly one of: the negotiated stream, a
    /// fresh suspension carrying the saved state, or a terminal failure. A
    /// would-block is not fatal: resume again once the stream is ready. The
    /// engine reports completion only once the cookie round has admitted
    /// the address, so a completion event belongs to the handshaking phase.
    pub fn handshake(self, event: HandshakeEvent) -> (r: Result<DtlsStream<S>, HandshakeError<S>>)
        requires
            self.spec_state().wf(),
            event is Established ==> self.spec_state().phase == HandshakePhase::Handshaking,
        ensures
            match spec_step(self.spec_state(), event) {
                StepResult::Established(p) => r matches Ok(stream) && stream.spec_channel()
                    == self.spec_channel() && stream.spec_params() == p && stream.spec_pending()
                    == Seq::<u8>::empty() && !stream.spec_closed(),
                StepResult::InProgress(s2) => r matches Err(HandshakeError::WouldBlock(m))
                    && m.spec_channel() == self.spec_channel() && m.spec_state() == s2
                    && m.spec_state().wf(),
                StepResult::Failed(e) => r matches Err(HandshakeError::Failure(e2)) && e2 == e,
            },
    {
        let MidHandshakeDtlsStream { channel, state } = self;
        match event {
            HandshakeEvent::NotReady => Err(
                HandshakeError::WouldBlock(MidHandshakeDtlsStream { channel, state }),
            ),
            HandshakeEvent::Flight(f) => {
                if matches!(state.phase, HandshakePhase::CookieExchange) && state.cookie_factory.is_some() {
                    let verified = match (&state.cookie_factory, &f.cookie) {
                        (Option::Some(fac), Option::Some(c)) => fac.verify(&f.info, c.as_slice()),
                        _ => false,
                    };
                    if verified {
                        let next = AttemptState {
                            phase: HandshakePhase::Handshaking,
                            retry_owed: None,
                            ..state
                        };
                        Err(HandshakeError::WouldBlock(MidHandshakeDtlsStream { channel, state: next }))
                    } else {
                        let next = AttemptState { retry_owed: Some(f.info), ..state };
                        Err(HandshakeError::WouldBlock(MidHandshakeDtlsStream { channel, state: next }))
                    }
                } else {
                    Err(HandshakeError::WouldBlock(MidHandshakeDtlsStream { channel, state }))
                }
            },
            HandshakeEvent::Established(p) => Ok(DtlsStream::establish(channel, p)),
            HandshakeEvent::EngineFailed(m) => Err(HandshakeError::Failure(Error::CryptoEngine(m))),
            HandshakeEvent::CertificateRejected(code) => Err(
                HandshakeError::Failure(Error::Verification(code)),
            ),
        }
    }
}

/// The state a suspended attempt reaches after `n` resumptions against a
/// transport that never becomes ready.
pub open spec fn spec_resume_never_ready(s: AttemptState, n: nat) -> StepResult
    decreases n,
{
    if n == 0 {
        StepResult::InProgress(s)
    } else {
        match spec_resume_never_ready(s, (n - 1) as nat) {
            StepResult::InProgress(s2) => spec_step(s2, HandshakeEvent::NotReady),
            other => other,
        }
    }
}

/// Resuming against a transport that never becomes ready never completes,
/// never fails, and never changes the saved state: after any number of
/// resumptions the attempt is suspended exactly as it was.
pub proof fn lemma_never_ready_never_completes(s: AttemptState, n: nat)
    ensures
        spec_resume_never_ready(s, n) == StepResult::InProgress(s),
    decreases n,
{
    if n > 0 {
        lemma_never_ready_never_completes(s, (n - 1) as nat);
    }
}

/// An unverified flight — first contact from an unknown address, a missing
/// cookie, a forged one — leaves the accepting attempt exactly where it was:
/// same role, same phase, same endpoint keys. All that the step records is
/// which attempt is owed a retry request, itself a pure function of the
/// endpoint key and that flight's address.
pub proof fn lemma_spoofed_flight_keeps_no_state(s: AttemptState, f: ClientFlight)
    requires
        s.wf(),
        s.phase == HandshakePhase::CookieExchange,
        !spec_flight_verified(s.cookie_factory->Some_0.spec_key(), f),
    ensures
        spec_step(s, HandshakeEvent::Flight(f)) == StepResult::InProgress(
            AttemptState { retry_owed: Some(f.info), ..s },
        ),
{
}

/// The states a cookie round passes through under a whole run of unverified
/// flights.
pub open spec fn spec_run_spoofed(s: AttemptState, flights: Seq<ClientFlight>) -> AttemptState
    decreases flights.len(),
{
    if flights.len() == 0 {
        s
    } else {
        spec_run_spoofed(
            AttemptState { retry_owed: Some(flights.first().info), ..s },
            flights.drop_first(),
        )
    }
}

/// However many spoofed flights arrive — addresses that echo nothing or
/// echo forged cookies — the accepting attempt accumulates nothing: after
/// the whole flood its state differs from the start only in which single
/// flight is owed a retry, so the defense holds constant memory per
/// endpoint, not per address.
pub proof fn lemma_spoofed_flood_accumulates_nothing(s: AttemptState, flights: Seq<ClientFlight>)
    requires
        s.wf(),
        s.phase == HandshakePhase::CookieExchange,
    ensures
        spec_run_spoofed(s, flights).role == s.role,
        spec_run_spoofed(s, flights).phase == s.phase,
        spec_run_spoofed(s, flights).cookie_factory == s.cookie_factory,
        spec_run_spoofed(s, flights).sni == s.sni,
        spec_run_spoofed(s, flights).wf(),
        flights.len() > 0 ==> spec_run_spoofed(s, flights).retry_owed == Some(
            flights.last().info,
        ),
        flights.len() == 0 ==> spec_run_spoofed(s, flights) == s,
    decreases flights.len(),
{
    if flights.len() > 0 {
        let s2 = AttemptState { retry_owed: Some(flights.first().info), ..s };
        lemma_spoofed_flood_accumulates_nothing(s2, flights.drop_first());
        if flights.len() > 1 {
            assert(flights.drop_first().last() == flights.last());
        }
    }
}

/// Each unverified flight in a run is the flight `spec_step` takes on the
/// state the previous flights left, so the flood lemma speaks of the same
/// machine the resumptions run.
pub proof fn lemma_run_spoofed_matches_step(s: AttemptState, f: ClientFlight)
    requires
        s.wf(),
        s.phase == HandshakePhase::CookieExchange,
        !spec_flight_verified(s.cookie_factory->Some_0.spec_key(), f),
    ensures
        spec_step(s, HandshakeEvent::Flight(f)) == StepResult::InProgress(
            spec_run_spoofed(s, seq![f]),
        ),
{
    let s2 = AttemptState { retry_owed: Some(f.info), ..s };
    assert(seq![f].first() == f);
    assert(seq![f].drop_first().len() == 0);
    assert(spec_run_spoofed(s2, seq![f].drop_first()) == s2);
    assert(spec_run_spoofed(s, seq![f]) == s2);
}

} // verus!
