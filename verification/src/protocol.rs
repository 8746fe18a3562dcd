//! DTLS protocol versions and the enable/disable flags a version range
//! translates into.

use crate::error::{ConfigurationError, Error};
use vstd::prelude::*;

verus! {

/// DTLS protocol versions.
#[derive(Debug, Copy, Clone, PartialEq, Eq, Structural)]
pub enum Protocol {
    Dtlsv10,
    Dtlsv12,
}

/// The flags a configured version range translates into at
/// context-construction time: which protocol versions the engine must
/// disable.
#[derive(Debug, Copy, Clone, PartialEq, Eq, Structural)]
pub struct ProtocolOptions {
    /// Disable DTLS 1.0.
    pub disable_dtlsv10: bool,
    /// Disable DTLS 1.2.
    pub disable_dtlsv12: bool,
}

/// The flags for an inclusive version range: a minimum above DTLS 1.0
/// disables DTLS 1.0, a maximum below DTLS 1.2 disables DTLS 1.2, and an
/// absent bound disables nothing on its side.
pub open spec fn spec_protocol_options(min: Option<Protocol>, max: Option<Protocol>) -> ProtocolOptions {
    ProtocolOptions {
        disable_dtlsv10: min == Some(Protocol::Dtlsv12),
        disable_dtlsv12: max == Some(Protocol::Dtlsv10),
    }
}

/// Whether the range admits no version at all.
pub open spec fn spec_version_range_empty(min: Option<Protocol>, max: Option<Protocol>) -> bool {
    min == Some(Protocol::Dtlsv12) && max == Some(Protocol::Dtlsv10)
}

/// Translates a version range into the engine's enable/disable flags.
///
/// A range that admits no version is a configuration error, raised here at
/// construction time and never mid-handshake. An absent minimum admits the
/// oldest supported version; an absent maximum the newest.
pub fn try_set_supported_protocols(min: Option<Protocol>, max: Option<Protocol>) -> (r: Result<
    ProtocolOptions,
    Error,
>)
    ensures
        spec_version_range_empty(min, max) ==> r == Result::<ProtocolOptions, Error>::Err(
            Error::Configuration(ConfigurationError::EmptyVersionRange),
        ),
        !spec_version_range_empty(min, max) ==> r == Result::<ProtocolOptions, Error>::Ok(
            spec_protocol_options(min, max),
        ),
{
    let disable_dtlsv10 = matches!(min, Some(Protocol::Dtlsv12));
    let disable_dtlsv12 = matches!(max, Some(Protocol::Dtlsv10));
    if disable_dtlsv10 && disable_dtlsv12 {
        Err(Error::Configuration(ConfigurationError::EmptyVersionRange))
    } else {
        Ok(ProtocolOptions { disable_dtlsv10, disable_dtlsv12 })
    }
}

} // verus!
