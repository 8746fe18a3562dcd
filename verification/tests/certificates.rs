//! DER acceptance, PEM reading through the real engine, and fingerprints
//! through the real digests.

use udp_dtls::{Certificate, CertificateFingerprint, Error, SignatureAlgorithm};

const SMALL_DER: [u8; 5] = [0x30, 0x03, 0x01, 0x02, 0x03];

#[test]
fn short_form_der_round_trips() {
    let c = Certificate::from_der(&SMALL_DER).unwrap();
    assert_eq!(c.to_der().unwrap(), SMALL_DER.to_vec());
}

#[test]
fn long_form_der_round_trips() {
    // 0x81 length form: one length byte, content of 128 bytes
    let mut der = vec![0x30, 0x81, 0x80];
    der.extend(std::iter::repeat(0xEE).take(128));
    let c = Certificate::from_der(&der).unwrap();
    assert_eq!(c.to_der().unwrap(), der);
}

#[test]
fn malformed_der_is_rejected() {
    // wrong outer tag
    assert!(matches!(
        Certificate::from_der(&[0x31, 0x01, 0x00]),
        Err(Error::CryptoEngine(_))
    ));
    // too short
    assert!(Certificate::from_der(&[]).is_err());
    assert!(Certificate::from_der(&[0x30]).is_err());
    // truncated content
    assert!(Certificate::from_der(&[0x30, 0x03, 0x01]).is_err());
    // trailing garbage after the sequence
    assert!(Certificate::from_der(&[0x30, 0x01, 0x00, 0x00]).is_err());
    // long form used where short form is required
    assert!(Certificate::from_der(&[0x30, 0x81, 0x01, 0x00]).is_err());
    // indefinite length is not DER
    assert!(Certificate::from_der(&[0x30, 0x80, 0x00, 0x00]).is_err());
}

#[test]
fn fingerprints_use_the_chosen_hash() {
    let c = Certificate::from_der(&SMALL_DER).unwrap();
    let sha1 = c.fingerprint(SignatureAlgorithm::Sha1).unwrap();
    let sha256 = c.fingerprint(SignatureAlgorithm::Sha256).unwrap();
    assert_eq!(sha1.bytes.len(), 20);
    assert_eq!(sha256.bytes.len(), 32);
    assert!(matches!(sha1.signature_algorithm, SignatureAlgorithm::Sha1));
    assert!(matches!(sha256.signature_algorithm, SignatureAlgorithm::Sha256));
    // the digest is not the input handed back
    assert_ne!(&sha256.bytes[..5], &SMALL_DER[..]);
    assert_ne!(&sha1.bytes[..5], &SMALL_DER[..]);
    // and is deterministic
    let again = c.fingerprint(SignatureAlgorithm::Sha256).unwrap();
    assert_eq!(again.bytes, sha256.bytes);
}

#[test]
fn distinct_certificates_distinct_fingerprints() {
    let a = Certificate::from_der(&SMALL_DER).unwrap();
    let b = Certificate::from_der(&[0x30, 0x03, 0x01, 0x02, 0x04]).unwrap();
    let fa = a.fingerprint(SignatureAlgorithm::Sha256).unwrap();
    let fb = b.fingerprint(SignatureAlgorithm::Sha256).unwrap();
    assert_ne!(fa.bytes, fb.bytes);
}

#[test]
fn fingerprint_prints_prefixed_colon_hex() {
    let fp = CertificateFingerprint::new(vec![0xAB, 0x0C, 0xDE], SignatureAlgorithm::Sha256);
    assert_eq!(fp.to_string(), "sha-256 AB:0C:DE");
    let fp = CertificateFingerprint::new(vec![0x01], SignatureAlgorithm::Sha1);
    assert_eq!(fp.to_string(), "sha-1 01");
    let fp = CertificateFingerprint::new(Vec::new(), SignatureAlgorithm::Sha1);
    assert_eq!(fp.to_string(), "sha-1");
}

fn self_signed() -> openssl::x509::X509 {
    let rsa = openssl::rsa::Rsa::generate(2048).unwrap();
    let pkey = openssl::pkey::PKey::from_rsa(rsa).unwrap();
    let mut name = openssl::x509::X509NameBuilder::new().unwrap();
    name.append_entry_by_text("CN", "localhost").unwrap();
    let name = name.build();
    let mut builder = openssl::x509::X509::builder().unwrap();
    builder.set_version(2).unwrap();
    let serial = openssl::bn::BigNum::from_u32(1).unwrap().to_asn1_integer().unwrap();
    builder.set_serial_number(&serial).unwrap();
    builder.set_subject_name(&name).unwrap();
    builder.set_issuer_name(&name).unwrap();
    builder.set_pubkey(&pkey).unwrap();
    let not_before = openssl::asn1::Asn1Time::days_from_now(0).unwrap();
    let not_after = openssl::asn1::Asn1Time::days_from_now(365).unwrap();
    builder.set_not_before(&not_before).unwrap();
    builder.set_not_after(&not_after).unwrap();
    builder.sign(&pkey, openssl::hash::MessageDigest::sha256()).unwrap();
    builder.build()
}

#[test]
fn pem_reading_matches_der_reading() {
    let x509 = self_signed();
    let pem = x509.to_pem().unwrap();
    let der = x509.to_der().unwrap();
    // the PEM armor is decoded, not handed back
    let c = Certificate::from_pem(&pem).unwrap();
    assert_eq!(c.to_der().unwrap(), der);
    let d = Certificate::from_der(&der).unwrap();
    assert_eq!(d.to_der().unwrap(), der);
}

#[test]
fn non_pem_input_is_rejected() {
    assert!(matches!(
        Certificate::from_pem(b"not a certificate"),
        Err(Error::CryptoEngine(_))
    ));
}
