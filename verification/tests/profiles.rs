//! SRTP profile names, parsing, and negotiation.

use udp_dtls::{negotiate_srtp_profile, SrtpProfile, SrtpProfileError};

#[test]
fn profile_names_match_wire_names() {
    assert_eq!(SrtpProfile::Aes128CmSha180.to_string(), "SRTP_AES128_CM_SHA1_80");
    assert_eq!(SrtpProfile::Aes128CmSha132.to_string(), "SRTP_AES128_CM_SHA1_32");
    assert_eq!(SrtpProfile::AeadAes128Gcm.to_string(), "SRTP_AEAD_AES_128_GCM");
    assert_eq!(SrtpProfile::AeadAes256Gcm.to_string(), "SRTP_AEAD_AES_256_GCM");
}

#[test]
fn profile_parsing_round_trips() {
    for p in [
        SrtpProfile::Aes128CmSha180,
        SrtpProfile::Aes128CmSha132,
        SrtpProfile::AeadAes128Gcm,
        SrtpProfile::AeadAes256Gcm,
    ] {
        assert_eq!(SrtpProfile::from_str(&p.to_string()), Ok(p));
    }
}

#[test]
fn unknown_profile_name_is_rejected() {
    assert_eq!(
        SrtpProfile::from_str("SRTP_NULL_NULL"),
        Err(SrtpProfileError::BadProfile)
    );
    assert_eq!(SrtpProfile::from_str(""), Err(SrtpProfileError::BadProfile));
    // prefixes and case variants are not names
    assert_eq!(
        SrtpProfile::from_str("SRTP_AES128_CM_SHA1_8"),
        Err(SrtpProfileError::BadProfile)
    );
    assert_eq!(
        SrtpProfile::from_str("srtp_aes128_cm_sha1_80"),
        Err(SrtpProfileError::BadProfile)
    );
}

#[test]
fn negotiation_prefers_server_order() {
    // server offers [first, second]; the client lists the same two in the
    // opposite order; the tie-break is the server's order, deterministically
    let server = vec![SrtpProfile::Aes128CmSha180, SrtpProfile::AeadAes256Gcm];
    let client = vec![SrtpProfile::AeadAes256Gcm, SrtpProfile::Aes128CmSha180];
    assert_eq!(
        negotiate_srtp_profile(&server, &client),
        Some(SrtpProfile::Aes128CmSha180)
    );
    // and the same pair the other way round
    assert_eq!(
        negotiate_srtp_profile(&client, &server),
        Some(SrtpProfile::AeadAes256Gcm)
    );
}

#[test]
fn negotiation_skips_profiles_the_client_lacks() {
    let server = vec![SrtpProfile::Aes128CmSha132, SrtpProfile::AeadAes128Gcm];
    let client = vec![SrtpProfile::AeadAes128Gcm];
    assert_eq!(
        negotiate_srtp_profile(&server, &client),
        Some(SrtpProfile::AeadAes128Gcm)
    );
}

#[test]
fn negotiation_fails_without_common_profile() {
    let server = vec![SrtpProfile::Aes128CmSha180];
    let client = vec![SrtpProfile::AeadAes256Gcm];
    assert_eq!(negotiate_srtp_profile(&server, &client), None);
    assert_eq!(negotiate_srtp_profile(&Vec::new(), &client), None);
    assert_eq!(negotiate_srtp_profile(&server, &Vec::new()), None);
}
