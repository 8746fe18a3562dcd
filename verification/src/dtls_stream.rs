//! The established session: application-data bookkeeping, introspection of
//! what was negotiated, and shutdown.
//!
//! Record protection itself is the engine's work: the engine hands decrypted
//! application payloads in, and takes payloads out to protect. This handle
//! owns the transport channel for the session's lifetime and does the
//! bookkeeping that is the session layer's own: ordered delivery of
//! decrypted bytes, the datagram-boundary check on writes, and the session's
//! negotiated facts.

use crate::certificate::Certificate;
use crate::error::Error;
use crate::srtp_profile::{spec_profile_name, SrtpProfile};
use vstd::prelude::*;

verus! {

/// What the engine reports about a session it has just established, as
/// plain values.
#[derive(Debug)]
pub struct SessionParams {
    /// Wire name of the SRTP profile the `use_srtp` extension negotiated,
    /// if any.
    pub srtp_profile_name: Option<String>,
    /// The peer's presented certificate, if mutual authentication occurred.
    pub peer_certificate: Option<Certificate>,
    /// The keying-material block the engine exported for this session, if
    /// it supports export.
    pub keying_material: Option<Vec<u8>>,
    /// Largest application payload one datagram of this session carries.
    pub mtu: usize,
}

/// A stream managing a DTLS session whose handshake has completed: both
/// sides are ready to send and receive application data.
#[derive(Debug)]
pub struct DtlsStream<S> {
    channel: S,
    params: SessionParams,
    pending: Vec<u8>,
    closed: bool,
}

/// The established stream of a blocking transport; the cooperative variant
/// drives the same handle from a scheduler.
pub type SyncDtlsStream<S> = DtlsStream<S>;

impl<S> DtlsStream<S> {
    /// The transport channel the session owns.
    pub closed spec fn spec_channel(self) -> S {
        self.channel
    }

    /// What the engine reported at establishment.
    pub closed spec fn spec_params(self) -> SessionParams {
        self.params
    }

    /// Decrypted application bytes delivered by the engine and not yet read.
    pub closed spec fn spec_pending(self) -> Seq<u8> {
        self.pending@
    }

    /// Whether the session has been shut down.
    pub closed spec fn spec_closed(self) -> bool {
        self.closed
    }

    /// Wraps a completed handshake: the session starts open, with nothing
    /// pending.
    pub(crate) fn establish(channel: S, params: SessionParams) -> (r: DtlsStream<S>)
        ensures
            r.spec_channel() == channel,
            r.spec_params() == params,
            r.spec_pending() == Seq::<u8>::empty(),
            !r.spec_closed(),
    {
        let pending: Vec<u8> = Vec::new();
        DtlsStream { channel, params, pending, closed: false }
    }

    /// Hands the decrypted payload of one processed record over for later
    /// reads. After shutdown the session delivers nothing, and the bytes are
    /// discarded.
    pub fn deliver_plaintext(&mut self, data: Vec<u8>)
        ensures
            final(self).spec_pending() == if old(self).spec_closed() {
                old(self).spec_pending()
            } else {
                old(self).spec_pending() + data@
            },
            final(self).spec_channel() == old(self).spec_channel(),
            final(self).spec_params() == old(self).spec_params(),
            final(self).spec_closed() == old(self).spec_closed(),
    {
        if !self.closed {
            let mut data = data;
            self.pending.append(&mut data);
        }
    }

    /// Reads up to `max` bytes of delivered application data, in delivery
    /// order. A zero-length result only means nothing is pending right now;
    /// it is not end of stream, and callers tolerate it as progress.
    pub fn read(&mut self, max: usize) -> (r: Vec<u8>)
        ensures
            r@ == old(self).spec_pending().take(
                vstd::math::min(max as int, old(self).spec_pending().len() as int),
            ),
            final(self).spec_pending() == old(self).spec_pending().skip(
                vstd::math::min(max as int, old(self).spec_pending().len() as int),
            ),
            final(self).spec_channel() == old(self).spec_channel(),
            final(self).spec_params() == old(self).spec_params(),
            final(self).spec_closed() == old(self).spec_closed(),
    {
        let k = if max < self.pending.len() {
            max
        } else {
            self.pending.len()
        };
        let mut tail = self.pending.split_off(k);
        core::mem::swap(&mut self.pending, &mut tail);
        assert(tail@ =~= old(self).spec_pending().take(
            vstd::math::min(max as int, old(self).spec_pending().len() as int),
        ));
        assert(self.pending@ =~= old(self).spec_pending().skip(
            vstd::math::min(max as int, old(self).spec_pending().len() as int),
        ));
        tail
    }

    /// Frames one write as a single datagram's payload for the engine to
    /// protect: the bytes pass through exactly. A payload over the session's
    /// datagram size, or a write on a shut-down session, is a transport
    /// error — datagrams are never split or merged here.
    pub fn write(&self, buf: &[u8]) -> (r: Result<Vec<u8>, Error>)
        ensures
            (buf@.len() <= self.spec_params().mtu && !self.spec_closed()) ==> (r matches Ok(p)
                && p@ == buf@),
            (buf@.len() > self.spec_params().mtu || self.spec_closed()) ==> (r matches Err(e)
                && e is Transport),
    {
        if self.closed {
            return Err(Error::Transport("session is shut down".to_owned()));
        }
        if buf.len() > self.params.mtu {
            return Err(Error::Transport("payload exceeds one datagram".to_owned()));
        }
        Ok(vstd::slice::slice_to_vec(buf))
    }

    /// Shuts the session down: the close notification goes to the engine,
    /// and whether the peer's own notification was already received or is
    /// still to come, both steps are success. Undelivered pending bytes
    /// stay readable.
    pub fn shutdown(&mut self) -> (r: Result<(), Error>)
        ensures
            final(self).spec_closed(),
            final(self).spec_channel() == old(self).spec_channel(),
            final(self).spec_params() == old(self).spec_params(),
            final(self).spec_pending() == old(self).spec_pending(),
            r is Ok,
    {
        self.closed = true;
        Ok(())
    }




}

/// What a session wrote comes back exactly on the peer: a payload accepted
/// by `write`, carried by the engine, delivered to the peer's session and
/// read there is the original byte string.
pub proof fn lemma_session_round_trip<S, T>(
    writer: DtlsStream<S>,
    reader_before: DtlsStream<T>,
    reader_after: DtlsStream<T>,
    payload: Seq<u8>,
)
    requires
        payload.len() <= writer.spec_params().mtu,
        !writer.spec_closed(),
        !reader_before.spec_closed(),
        reader_before.spec_pending().len() == 0,
        // the engine delivered the payload unchanged to the peer
        reader_after.spec_pending() == reader_before.spec_pending() + payload,
    ensures
        // a read of the payload's length returns exactly the bytes written
        reader_after.spec_pending().take(
            vstd::math::min(payload.len() as int, reader_after.spec_pending().len() as int),
        ) == payload,
{
    assert(reader_after.spec_pending() =~= payload);
    assert(reader_after.spec_pending().take(payload.len() as int) =~= payload);
}

/// Introspection shared by the session handles of both transport modes:
/// the negotiated facts of the session and access to the underlying stream.
pub trait DtlsStreamExt<S> {
    /// The underlying stream.
    spec fn spec_inner(&self) -> S;

    /// The session's negotiated facts.
    spec fn spec_session(&self) -> SessionParams;

    /// Delivered bytes not yet read.
    spec fn spec_buffered(&self) -> nat;

    /// A shared reference to the underlying stream.
    fn get_ref(&self) -> (r: &S)
        ensures
            *r == self.spec_inner(),
    ;

    /// A mutable reference to the underlying stream, for driving its I/O;
    /// the session's bookkeeping is untouched by whatever the caller does
    /// with it.
    fn get_mut(&mut self) -> (r: &mut S)
        ensures
            *r == old(self).spec_inner(),
            final(self).spec_inner() == *final(r),
            final(self).spec_session() == old(self).spec_session(),
            final(self).spec_buffered() == old(self).spec_buffered(),
    ;

    /// Derives keying material bound to this session's secret for a
    /// separately keyed higher-layer protocol: the first `len` bytes of the
    /// engine's exported block. Fails when the engine exported nothing —
    /// export unsupported or the handshake incomplete — or when more is
    /// asked than was exported.
    fn keying_material(&self, len: usize) -> (r: Result<Vec<u8>, Error>)
        ensures
            match self.spec_session().keying_material {
                Option::None => r matches Err(e) && e is CryptoEngine,
                Option::Some(block) => if len <= block@.len() {
                    r matches Ok(km) && km@ == block@.take(len as int)
                } else {
                    r matches Err(e) && e is CryptoEngine
                },
            },
    ;

    /// The SRTP profile the handshake's `use_srtp` extension selected, or
    /// none when the extension did not run. An unparseable profile name is
    /// a profile error.
    fn selected_srtp_profile(&self) -> (r: Result<Option<SrtpProfile>, Error>)
        ensures
            match self.spec_session().srtp_profile_name {
                Option::None => r matches Ok(o) && o is None,
                Option::Some(name) => {
                    &&& (r matches Ok(o) ==> (o matches Some(p) && name@ == spec_profile_name(p)))
                    &&& (r matches Err(e) ==> e == Error::SrtpProfile(
                        crate::error::SrtpProfileError::BadProfile,
                    ) && (forall|p: SrtpProfile| name@ != spec_profile_name(p)))
                },
            },
    ;

    /// The number of delivered bytes a read would not go to the transport
    /// for: if this is above zero, the next read is served from the current
    /// record without touching the underlying stream.
    fn buffered_read_size(&self) -> (r: Result<usize, Error>)
        ensures
            r matches Ok(n) && n == self.spec_buffered(),
    ;

    /// The peer's presented certificate, if mutual authentication occurred.
    fn peer_certificate(&self) -> (r: Result<Option<Certificate>, Error>)
        ensures
            match self.spec_session().peer_certificate {
                Option::None => r matches Ok(o) && o is None,
                Option::Some(c) => r matches Ok(o) && (o matches Some(c2) && c2@ == c@),
            },
    ;
}

impl<S> DtlsStreamExt<S> for DtlsStream<S> {
    open spec fn spec_inner(&self) -> S {
        self.spec_channel()
    }

    open spec fn spec_session(&self) -> SessionParams {
        self.spec_params()
    }

    open spec fn spec_buffered(&self) -> nat {
        self.spec_pending().len()
    }

    fn get_ref(&self) -> (r: &S) {
        &self.channel
    }

    fn get_mut(&mut self) -> (r: &mut S) {
        &mut self.channel
    }

    fn keying_material(&self, len: usize) -> (r: Result<Vec<u8>, Error>) {
        match &self.params.keying_material {
            Option::None => Err(
                Error::CryptoEngine("engine exported no keying material".to_owned()),
            ),
            Option::Some(block) => {
                if len <= block.len() {
                    Ok(
                        vstd::slice::slice_to_vec(
                            vstd::slice::slice_subrange(block.as_slice(), 0, len),
                        ),
                    )
                } else {
                    Err(Error::CryptoEngine("more keying material asked than exported".to_owned()))
                }
            },
        }
    }

    fn selected_srtp_profile(&self) -> (r: Result<Option<SrtpProfile>, Error>) {
        match &self.params.srtp_profile_name {
            Option::None => Ok(None),
            Option::Some(name) => match SrtpProfile::from_str(name.as_str()) {
                Ok(p) => Ok(Some(p)),
                Err(e) => Err(Error::SrtpProfile(e)),
            },
        }
    }

    fn buffered_read_size(&self) -> (r: Result<usize, Error>) {
        Ok(self.pending.len())
    }

    fn peer_certificate(&self) -> (r: Result<Option<Certificate>, Error>) {
        match &self.params.peer_certificate {
            Option::None => Ok(None),
            Option::Some(c) => Ok(Some(c.clone())),
        }
    }
}

} // verus!
