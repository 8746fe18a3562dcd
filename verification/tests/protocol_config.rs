//! Version-range translation and coordinator construction.

use udp_dtls::{
    try_set_supported_protocols, Certificate, CertificateIdentity, ConfigurationError,
    DtlsAcceptor, DtlsConnector, Error, Protocol, SrtpProfile,
};

fn test_identity() -> CertificateIdentity {
    let cert = Certificate::from_der(&[0x30, 0x03, 0x01, 0x02, 0x03]).unwrap();
    match CertificateIdentity::new(cert, vec![1, 2, 3], Vec::new()) {
        Ok(id) => id,
        Err(_) => panic!("identity with a key must build"),
    }
}

#[test]
fn open_range_disables_nothing() {
    let opts = try_set_supported_protocols(None, None).unwrap();
    assert!(!opts.disable_dtlsv10);
    assert!(!opts.disable_dtlsv12);
}

#[test]
fn minimum_above_oldest_disables_oldest() {
    let opts = try_set_supported_protocols(Some(Protocol::Dtlsv12), None).unwrap();
    assert!(opts.disable_dtlsv10);
    assert!(!opts.disable_dtlsv12);
}

#[test]
fn maximum_below_newest_disables_newest() {
    let opts = try_set_supported_protocols(None, Some(Protocol::Dtlsv10)).unwrap();
    assert!(!opts.disable_dtlsv10);
    assert!(opts.disable_dtlsv12);
}

#[test]
fn empty_range_is_a_configuration_error() {
    let r = try_set_supported_protocols(Some(Protocol::Dtlsv12), Some(Protocol::Dtlsv10));
    assert!(matches!(
        r,
        Err(Error::Configuration(ConfigurationError::EmptyVersionRange))
    ));
}

#[test]
fn acceptor_rejects_empty_version_range_at_construction() {
    let r = DtlsAcceptor::builder(test_identity())
        .min_protocol_version(Some(Protocol::Dtlsv12))
        .max_protocol_version(Some(Protocol::Dtlsv10))
        .build();
    assert!(matches!(
        r,
        Err(Error::Configuration(ConfigurationError::EmptyVersionRange))
    ));
}

#[test]
fn connector_rejects_empty_version_range_at_construction() {
    let r = DtlsConnector::builder()
        .min_protocol_version(Some(Protocol::Dtlsv12))
        .max_protocol_version(Some(Protocol::Dtlsv10))
        .build();
    assert!(matches!(
        r,
        Err(Error::Configuration(ConfigurationError::EmptyVersionRange))
    ));
}

#[test]
fn acceptor_builds_srtp_offer_line() {
    let acceptor = DtlsAcceptor::builder(test_identity())
        .add_srtp_profile(SrtpProfile::Aes128CmSha180)
        .add_srtp_profile(SrtpProfile::AeadAes256Gcm)
        .build()
        .unwrap();
    assert_eq!(
        acceptor.srtp_line(),
        "SRTP_AES128_CM_SHA1_80:SRTP_AEAD_AES_256_GCM"
    );
    assert!(!acceptor.protocol_options().disable_dtlsv10);
}

#[test]
fn connector_defaults_validate_everything() {
    let connector = DtlsConnector::builder()
        .add_srtp_profile(SrtpProfile::AeadAes128Gcm)
        .build()
        .unwrap();
    assert!(connector.uses_sni());
    assert!(!connector.accepts_invalid_certs());
    assert!(!connector.accepts_invalid_hostnames());
    assert_eq!(connector.srtp_line(), "SRTP_AEAD_AES_128_GCM");
    assert!(connector.identity().is_none());
    assert!(connector.root_certificates().is_empty());
}

#[test]
fn connector_switches_carry_over() {
    let connector = DtlsConnector::builder()
        .use_sni(false)
        .danger_accept_invalid_certs(true)
        .danger_accept_invalid_hostnames(true)
        .build()
        .unwrap();
    assert!(!connector.uses_sni());
    assert!(connector.accepts_invalid_certs());
    assert!(connector.accepts_invalid_hostnames());
}

#[test]
fn identity_requires_a_key() {
    let cert = Certificate::from_der(&[0x30, 0x03, 0x01, 0x02, 0x03]).unwrap();
    let r = CertificateIdentity::new(cert, Vec::new(), Vec::new());
    assert!(matches!(
        r,
        Err(Error::Configuration(ConfigurationError::MissingIdentity))
    ));
}

#[test]
fn identity_exposes_its_certificate() {
    let id = test_identity();
    let cert = id.certificate();
    assert_eq!(cert.to_der().unwrap(), vec![0x30, 0x03, 0x01, 0x02, 0x03]);
    assert_eq!(id.key_der(), &vec![1, 2, 3]);
    assert!(id.chain().is_empty());
}
