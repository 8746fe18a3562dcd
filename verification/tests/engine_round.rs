//! A whole session against the real engine: the cookie round runs through
//! the library's verified factory, the engine's SRTP tie-break is pinned to
//! the library's negotiation rule, and application data round-trips through
//! the real record layer.

use std::cell::RefCell;
use std::collections::VecDeque;
use std::io::{Error, ErrorKind, Read, Result, Write};
use std::rc::Rc;
use std::sync::atomic::{AtomicUsize, Ordering};
use std::sync::Arc;

use openssl::ssl::{
    HandshakeError as SslHandshakeError, MidHandshakeSslStream, Ssl, SslContext,
    SslContextBuilder, SslMethod, SslOptions, SslStream, SslVerifyMode,
};

use udp_dtls::{
    negotiate_srtp_profile, ClientFlight, ConnectionId, ConnectionInfo, DtlsAcceptor,
    DtlsConnector, DtlsStreamExt, HandshakeError, HandshakeEvent, RemoteAddr, SessionParams,
    SrtpProfile,
};

/// A lossless in-memory datagram wire: each write is one datagram, each read
/// returns one, and an empty queue reports would-block.
struct Wire {
    client_to_server: VecDeque<Vec<u8>>,
    server_to_client: VecDeque<Vec<u8>>,
}

#[derive(Clone)]
struct ClientEnd(Rc<RefCell<Wire>>);

#[derive(Clone)]
struct ServerEnd(Rc<RefCell<Wire>>);

fn pop_one(queue: &mut VecDeque<Vec<u8>>, buf: &mut [u8]) -> Result<usize> {
    match queue.pop_front() {
        Some(datagram) => {
            let n = datagram.len().min(buf.len());
            buf[..n].copy_from_slice(&datagram[..n]);
            Ok(n)
        }
        None => Err(Error::new(ErrorKind::WouldBlock, "no datagram queued")),
    }
}

impl Read for ClientEnd {
    fn read(&mut self, buf: &mut [u8]) -> Result<usize> {
        pop_one(&mut self.0.borrow_mut().server_to_client, buf)
    }
}

impl Write for ClientEnd {
    fn write(&mut self, buf: &[u8]) -> Result<usize> {
        self.0.borrow_mut().client_to_server.push_back(buf.to_vec());
        Ok(buf.len())
    }

    fn flush(&mut self) -> Result<()> {
        Ok(())
    }
}

impl Read for ServerEnd {
    fn read(&mut self, buf: &mut [u8]) -> Result<usize> {
        pop_one(&mut self.0.borrow_mut().client_to_server, buf)
    }
}

impl Write for ServerEnd {
    fn write(&mut self, buf: &[u8]) -> Result<usize> {
        self.0.borrow_mut().server_to_client.push_back(buf.to_vec());
        Ok(buf.len())
    }

    fn flush(&mut self) -> Result<()> {
        Ok(())
    }
}

fn self_signed_identity() -> (openssl::x509::X509, openssl::pkey::PKey<openssl::pkey::Private>) {
    let rsa = openssl::rsa::Rsa::generate(2048).unwrap();
    let pkey = openssl::pkey::PKey::from_rsa(rsa).unwrap();
    let mut name = openssl::x509::X509NameBuilder::new().unwrap();
    name.append_entry_by_text("CN", "localhost").unwrap();
    let name = name.build();
    let mut builder = openssl::x509::X509::builder().unwrap();
    builder.set_version(2).unwrap();
    let serial = openssl::bn::BigNum::from_u32(7).unwrap().to_asn1_integer().unwrap();
    builder.set_serial_number(&serial).unwrap();
    builder.set_subject_name(&name).unwrap();
    builder.set_issuer_name(&name).unwrap();
    builder.set_pubkey(&pkey).unwrap();
    builder.set_not_before(&openssl::asn1::Asn1Time::days_from_now(0).unwrap()).unwrap();
    builder.set_not_after(&openssl::asn1::Asn1Time::days_from_now(7).unwrap()).unwrap();
    builder.sign(&pkey, openssl::hash::MessageDigest::sha256()).unwrap();
    (builder.build(), pkey)
}

/// Builds the engine's server context from the acceptor's validated
/// configuration, with the cookie hooks calling the verified factory.
fn engine_server_context(
    acceptor: &DtlsAcceptor,
    cert: &openssl::x509::X509,
    pkey: &openssl::pkey::PKey<openssl::pkey::Private>,
    info: ConnectionInfo,
    minted: Arc<AtomicUsize>,
    checked: Arc<AtomicUsize>,
) -> SslContext {
    let mut builder = SslContextBuilder::new(SslMethod::dtls_server()).unwrap();
    builder.set_certificate(cert).unwrap();
    builder.set_private_key(pkey).unwrap();
    builder.check_private_key().unwrap();
    builder.set_tlsext_use_srtp(acceptor.srtp_line()).unwrap();
    builder.set_verify(SslVerifyMode::NONE);
    builder.set_read_ahead(true);
    let minting = acceptor.cookie_factory().clone();
    let mint_info = info.clone();
    builder.set_cookie_generate_cb(move |_, buf| {
        minted.fetch_add(1, Ordering::SeqCst);
        let mac = minting.generate_mac(&mint_info);
        buf[..mac.len()].copy_from_slice(&mac);
        Ok(mac.len())
    });
    let checking = acceptor.cookie_factory().clone();
    builder.set_cookie_verify_cb(move |_, cookie| {
        checked.fetch_add(1, Ordering::SeqCst);
        checking.verify(&info, cookie)
    });
    builder.set_options(SslOptions::COOKIE_EXCHANGE);
    builder.build()
}

fn engine_client_context(connector: &DtlsConnector) -> SslContext {
    let mut builder = SslContextBuilder::new(SslMethod::dtls_client()).unwrap();
    builder.set_tlsext_use_srtp(connector.srtp_line()).unwrap();
    builder.set_verify(SslVerifyMode::NONE);
    builder.set_read_ahead(true);
    builder.build()
}

enum Driving<S> {
    Done(SslStream<S>),
    Suspended(MidHandshakeSslStream<S>),
}

fn start<S: Read + Write>(
    r: std::result::Result<SslStream<S>, SslHandshakeError<S>>,
) -> Driving<S> {
    match r {
        Ok(s) => Driving::Done(s),
        Err(SslHandshakeError::WouldBlock(mid)) => Driving::Suspended(mid),
        Err(_) => panic!("engine handshake failed at its first step"),
    }
}

fn step<S: Read + Write>(d: Driving<S>) -> Driving<S> {
    match d {
        Driving::Done(s) => Driving::Done(s),
        Driving::Suspended(mid) => start(mid.handshake()),
    }
}

/// Runs the full DTLS handshake over the in-memory wire and returns both
/// engine streams.
fn run_engine_handshake(
    acceptor: &DtlsAcceptor,
    connector: &DtlsConnector,
    info: ConnectionInfo,
    minted: Arc<AtomicUsize>,
    checked: Arc<AtomicUsize>,
) -> (SslStream<ServerEnd>, SslStream<ClientEnd>) {
    let wire = Rc::new(RefCell::new(Wire {
        client_to_server: VecDeque::new(),
        server_to_client: VecDeque::new(),
    }));
    let (cert, pkey) = self_signed_identity();
    let server_ctx = engine_server_context(acceptor, &cert, &pkey, info, minted, checked);
    let client_ctx = engine_client_context(connector);

    let server_ssl = Ssl::new(&server_ctx).unwrap();
    let client_ssl = Ssl::new(&client_ctx).unwrap();
    let mut server = start(server_ssl.accept(ServerEnd(wire.clone())));
    let mut client = start(client_ssl.connect(ClientEnd(wire.clone())));
    for _ in 0..100 {
        client = step(client);
        server = step(server);
        if matches!(client, Driving::Done(_)) && matches!(server, Driving::Done(_)) {
            break;
        }
    }
    match (server, client) {
        (Driving::Done(s), Driving::Done(c)) => (s, c),
        _ => panic!("the engine handshake did not complete over a lossless wire"),
    }
}

fn session_params_of(ssl: &openssl::ssl::SslRef) -> SessionParams {
    SessionParams {
        srtp_profile_name: ssl.selected_srtp_profile().map(|p| p.name().to_string()),
        peer_certificate: None,
        keying_material: {
            let mut buf = vec![0u8; 32];
            ssl.export_keying_material(&mut buf, "EXTRACTOR-dtls_srtp", None).ok().map(|_| buf)
        },
        mtu: 1500,
    }
}

#[test]
fn whole_session_against_the_real_engine() {
    let server_profiles = vec![SrtpProfile::Aes128CmSha180, SrtpProfile::AeadAes256Gcm];
    let client_profiles = vec![SrtpProfile::AeadAes256Gcm, SrtpProfile::Aes128CmSha180];

    let lib_cert = udp_dtls::Certificate::from_der(&[0x30, 0x03, 0x01, 0x02, 0x03]).unwrap();
    let identity = match udp_dtls::CertificateIdentity::new(lib_cert, vec![1], Vec::new()) {
        Ok(id) => id,
        Err(_) => panic!("identity with a key must build"),
    };
    let acceptor = DtlsAcceptor::builder(identity)
        .add_srtp_profile(server_profiles[0])
        .add_srtp_profile(server_profiles[1])
        .build()
        .unwrap();
    let connector = DtlsConnector::builder()
        .add_srtp_profile(client_profiles[0])
        .add_srtp_profile(client_profiles[1])
        .danger_accept_invalid_certs(true)
        .build()
        .unwrap();

    let info = ConnectionInfo::new(
        ConnectionId::new([0; 18], 4),
        RemoteAddr::V4 { octets: [127, 0, 0, 1], port: 47000 },
    );
    let minted = Arc::new(AtomicUsize::new(0));
    let checked = Arc::new(AtomicUsize::new(0));
    let (server_engine, client_engine) =
        run_engine_handshake(&acceptor, &connector, info.clone(), minted.clone(), checked.clone());

    // the cookie round ran on the wire, through the verified factory
    assert!(minted.load(Ordering::SeqCst) >= 1);
    assert!(checked.load(Ordering::SeqCst) >= 1);

    // the engine's tie-break is the one the library's negotiation states:
    // the first profile in the server's order that the client offers
    let negotiated = negotiate_srtp_profile(&server_profiles, &client_profiles)
        .expect("the offers overlap");
    assert_eq!(negotiated, SrtpProfile::Aes128CmSha180);
    let engine_selected = server_engine
        .ssl()
        .selected_srtp_profile()
        .expect("the extension ran")
        .name()
        .to_string();
    assert_eq!(engine_selected, negotiated.to_string());

    // conclude both attempts in the verified machine
    let server_params = session_params_of(server_engine.ssl());
    let client_params = session_params_of(client_engine.ssl());
    let echoed = acceptor.cookie_factory().generate_mac(&info);
    let mid = match acceptor.accept(server_engine) {
        Err(HandshakeError::WouldBlock(m)) => m,
        _ => panic!("accept starts suspended"),
    };
    let mid = match mid.handshake(HandshakeEvent::Flight(ClientFlight {
        info,
        cookie: Some(echoed),
    })) {
        Err(HandshakeError::WouldBlock(m)) => m,
        _ => panic!("the verified flight keeps the attempt suspended"),
    };
    let mut server_session = match mid.handshake(HandshakeEvent::Established(server_params)) {
        Ok(s) => s,
        Err(_) => panic!("completion establishes the session"),
    };
    let mid = match connector.connect("localhost", client_engine) {
        Err(HandshakeError::WouldBlock(m)) => m,
        _ => panic!("connect starts suspended"),
    };
    let mut client_session = match mid.handshake(HandshakeEvent::Established(client_params)) {
        Ok(s) => s,
        Err(_) => panic!("completion establishes the session"),
    };

    // both sides see the same negotiated profile through the library
    assert_eq!(server_session.selected_srtp_profile().unwrap(), Some(negotiated));
    assert_eq!(client_session.selected_srtp_profile().unwrap(), Some(negotiated));

    // both sides export the same keying material for the higher layer
    let server_km = server_session.keying_material(32).unwrap();
    let client_km = client_session.keying_material(32).unwrap();
    assert_eq!(server_km, client_km);

    // application data round-trips through the real record layer
    for len in [1usize, 64, 1500] {
        let original: Vec<u8> = (0..len).map(|i| (i % 251) as u8).collect();
        let payload = client_session.write(&original).unwrap();
        client_session.get_mut().ssl_write(&payload).map(|_| ()).unwrap();
        let mut buf = vec![0u8; 4096];
        let n = server_session.get_mut().ssl_read(&mut buf).unwrap();
        server_session.deliver_plaintext(buf[..n].to_vec());
        let got = server_session.read(len);
        assert_eq!(got, original);
    }
}
