//! SRTP protection profiles: their wire names and how one is negotiated.
//!
//! SRTP is the Secure Real-Time Transport Protocol; a profile named here
//! protects a higher-layer stream, negotiated through the handshake's
//! `use_srtp` extension independently of the handshake's own record
//! protection.

use crate::error::SrtpProfileError;
use vstd::prelude::*;
use vstd::string::{StrSliceExecFns, StringExecFns};

verus! {

/// The supported SRTP protection profiles.
#[derive(Hash, Clone, Copy, Ord, PartialOrd, Eq, PartialEq, Structural, Debug)]
pub enum SrtpProfile {
    /// `SRTP_AES128_CM_HMAC_SHA1_80` of RFC 5764.
    Aes128CmSha180,
    /// `SRTP_AES128_CM_HMAC_SHA1_32` of RFC 5764.
    Aes128CmSha132,
    /// The profile of the same name defined in RFC 7714.
    AeadAes128Gcm,
    /// The profile of the same name defined in RFC 7714.
    AeadAes256Gcm,
}

/// The wire name of a profile.
pub open spec fn spec_profile_name(p: SrtpProfile) -> Seq<char> {
    match p {
        SrtpProfile::Aes128CmSha180 => "SRTP_AES128_CM_SHA1_80"@,
        SrtpProfile::Aes128CmSha132 => "SRTP_AES128_CM_SHA1_32"@,
        SrtpProfile::AeadAes128Gcm => "SRTP_AEAD_AES_128_GCM"@,
        SrtpProfile::AeadAes256Gcm => "SRTP_AEAD_AES_256_GCM"@,
    }
}

impl SrtpProfile {
    /// The profile's wire name.
    pub fn to_string(&self) -> (r: String)
        ensures
            r@ == spec_profile_name(*self),
    {
        match self {
            SrtpProfile::Aes128CmSha180 => "SRTP_AES128_CM_SHA1_80".to_owned(),
            SrtpProfile::Aes128CmSha132 => "SRTP_AES128_CM_SHA1_32".to_owned(),
            SrtpProfile::AeadAes128Gcm => "SRTP_AEAD_AES_128_GCM".to_owned(),
            SrtpProfile::AeadAes256Gcm => "SRTP_AEAD_AES_256_GCM".to_owned(),
        }
    }

    /// Parses a wire name back into a profile: succeeds exactly on the four
    /// supported names.
    pub fn from_str(s: &str) -> (r: Result<SrtpProfile, SrtpProfileError>)
        ensures
            match r {
                Ok(p) => s@ == spec_profile_name(p),
                Err(e) => e == SrtpProfileError::BadProfile && (forall|p: SrtpProfile|
                    s@ != spec_profile_name(p)),
            },
    {
        if str_eq(s, "SRTP_AES128_CM_SHA1_80") {
            Ok(SrtpProfile::Aes128CmSha180)
        } else if str_eq(s, "SRTP_AES128_CM_SHA1_32") {
            Ok(SrtpProfile::Aes128CmSha132)
        } else if str_eq(s, "SRTP_AEAD_AES_128_GCM") {
            Ok(SrtpProfile::AeadAes128Gcm)
        } else if str_eq(s, "SRTP_AEAD_AES_256_GCM") {
            Ok(SrtpProfile::AeadAes256Gcm)
        } else {
            proof {
                assert forall|p: SrtpProfile| s@ != spec_profile_name(p) by {
                    match p {
                        SrtpProfile::Aes128CmSha180 => assert(s@ != "SRTP_AES128_CM_SHA1_80"@),
                        SrtpProfile::Aes128CmSha132 => assert(s@ != "SRTP_AES128_CM_SHA1_32"@),
                        SrtpProfile::AeadAes128Gcm => assert(s@ != "SRTP_AEAD_AES_128_GCM"@),
                        SrtpProfile::AeadAes256Gcm => assert(s@ != "SRTP_AEAD_AES_256_GCM"@),
                    }
                }
            }
            Err(SrtpProfileError::BadProfile)
        }
    }
}

/// Character-for-character string equality.
fn str_eq(a: &str, b: &str) -> (r: bool)
    ensures
        r == (a@ == b@),
{
    let a_len = a.unicode_len();
    let b_len = b.unicode_len();
    if a_len != b_len {
        return false;
    }
    for i in 0..a_len
        invariant
            a_len == a@.len(),
            a_len == b@.len(),
            forall|j: int| 0 <= j < i ==> a@[j] == b@[j],
    {
        if a.get_char(i) != b.get_char(i) {
            return false;
        }
    }
    proof {
        assert(a@ =~= b@);
    }
    true
}

/// The profile the accepting endpoint selects from its own configured order
/// and the client's offer: the first profile in the server's order that the
/// client also offers, the engine's documented tie-break rule.
pub open spec fn spec_negotiate_srtp(server: Seq<SrtpProfile>, client: Seq<SrtpProfile>) -> Option<
    SrtpProfile,
>
    decreases server.len(),
{
    if server.len() == 0 {
        None
    } else if client.contains(server[0]) {
        Some(server[0])
    } else {
        spec_negotiate_srtp(server.drop_first(), client)
    }
}

/// Computes the negotiated profile for a server order and a client offer.
pub fn negotiate_srtp_profile(server: &Vec<SrtpProfile>, client: &Vec<SrtpProfile>) -> (r: Option<
    SrtpProfile,
>)
    ensures
        r == spec_negotiate_srtp(server@, client@),
{
    assert(server@.skip(0) =~= server@);
    for i in 0..server.len()
        invariant
            spec_negotiate_srtp(server@, client@) == spec_negotiate_srtp(
                server@.skip(i as int),
                client@,
            ),
    {
        if profile_list_contains(client, server[i]) {
            assert(server@.skip(i as int)[0] == server@[i as int]);
            return Some(server[i]);
        }
        assert(server@.skip(i as int).drop_first() =~= server@.skip(i + 1));
        assert(server@.skip(i as int)[0] == server@[i as int]);
    }
    assert(server@.skip(server@.len() as int) =~= Seq::<SrtpProfile>::empty());
    None
}

/// The `use_srtp` configuration line for a list of profiles: their wire
/// names joined with `:`.
pub open spec fn spec_srtp_line(profiles: Seq<SrtpProfile>) -> Seq<char>
    decreases profiles.len(),
{
    if profiles.len() == 0 {
        Seq::empty()
    } else if profiles.len() == 1 {
        spec_profile_name(profiles.last())
    } else {
        spec_srtp_line(profiles.drop_last()) + seq![':'] + spec_profile_name(profiles.last())
    }
}

/// Joins the profiles' wire names with `:` for the engine's `use_srtp`
/// configuration.
pub fn srtp_profile_line(profiles: &Vec<SrtpProfile>) -> (r: String)
    ensures
        r@ == spec_srtp_line(profiles@),
{
    let mut out = String::new();
    if profiles.len() == 0 {
        return out;
    }
    out.append(profiles[0].to_string().as_str());
    assert(profiles@.take(1).last() == profiles@[0]);
    assert(out@ =~= spec_srtp_line(profiles@.take(1)));
    for i in 1..profiles.len()
        invariant
            1 <= i <= profiles@.len(),
            out@ == spec_srtp_line(profiles@.take(i as int)),
    {
        out.append(":");
        out.append(profiles[i].to_string().as_str());
        proof {
            reveal_strlit(":");
            let cur = profiles@.take(i + 1);
            assert(cur.drop_last() =~= profiles@.take(i as int));
            assert(cur.last() == profiles@[i as int]);
            assert(":"@ =~= seq![':']);
            assert(out@ =~= spec_srtp_line(cur));
        }
    }
    assert(profiles@.take(profiles@.len() as int) =~= profiles@);
    out
}

/// Whether a profile list contains a profile.
fn profile_list_contains(list: &Vec<SrtpProfile>, p: SrtpProfile) -> (r: bool)
    ensures
        r == list@.contains(p),
{
    for i in 0..list.len()
        invariant
            forall|j: int| 0 <= j < i ==> list@[j] != p,
    {
        if list[i] == p {
            return true;
        }
    }
    false
}

/// Negotiation follows the accepting side's preference order: the profile at
/// the first server position the client offers is the one selected, whatever
/// order the client listed its own profiles in.
pub proof fn lemma_negotiation_server_preference(
    server: Seq<SrtpProfile>,
    client: Seq<SrtpProfile>,
    i: int,
)
    requires
        0 <= i < server.len(),
        client.contains(server[i]),
        forall|j: int| 0 <= j < i ==> !client.contains(#[trigger] server[j]),
    ensures
        spec_negotiate_srtp(server, client) == Some(server[i]),
    decreases i,
{
    if i == 0 {
    } else {
        assert(server.drop_first()[i - 1] == server[i]);
        assert(forall|j: int|
            0 <= j < i - 1 ==> server.drop_first()[j] == #[trigger] server[j + 1]);
        lemma_negotiation_server_preference(server.drop_first(), client, i - 1);
    }
}

/// Negotiation selects nothing exactly when no server profile is offered by
/// the client.
pub proof fn lemma_negotiation_none(server: Seq<SrtpProfile>, client: Seq<SrtpProfile>)
    requires
        forall|j: int| 0 <= j < server.len() ==> !client.contains(#[trigger] server[j]),
    ensures
        spec_negotiate_srtp(server, client) is None,
    decreases server.len(),
{
    if server.len() > 0 {
        assert(forall|j: int|
            0 <= j < server.len() - 1 ==> server.drop_first()[j] == #[trigger] server[j + 1]);
        lemma_negotiation_none(server.drop_first(), client);
    }
}

} // verus!
