//! Per-attempt connection identity, endpoint keys, and the stateless-cookie
//! defense.

mod cookie_factory;
mod id;
mod info;
mod listen_keys;

pub use self::cookie_factory::{spec_cookie, spec_cookie_accepted, CookieFactory, COOKIE_MAC_BYTES};
pub use self::cookie_factory::{
    lemma_cookie_bit_flip_rejected, lemma_cookie_round_trip,
    lemma_distinct_addresses_distinct_messages,
};
pub use self::id::{ConnectionId, MAX_CID_SIZE};
pub use self::info::ConnectionInfo;
pub use self::listen_keys::{ListenKeys, LISTEN_KEY_BYTES};
