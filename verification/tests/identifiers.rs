//! Connection ids and listen keys, drawn from the real random source.

use udp_dtls::{ConnectionId, ListenKeys};

#[test]
fn random_id_has_exact_length() {
    for n in 0..=18u8 {
        let id = ConnectionId::random(n);
        assert_eq!(id.len(), n as usize);
        assert_eq!(id.as_bytes().len(), n as usize);
    }
}

#[test]
fn random_ids_differ() {
    let a = ConnectionId::random(18);
    let b = ConnectionId::random(18);
    assert_ne!(a.as_bytes(), b.as_bytes());
}

#[test]
fn new_id_takes_prefix() {
    let mut data = [0u8; 18];
    for i in 0..18 {
        data[i] = i as u8 + 1;
    }
    let id = ConnectionId::new(data, 5);
    assert_eq!(id.as_bytes(), &[1, 2, 3, 4, 5]);
    let empty = ConnectionId::new(data, 0);
    assert_eq!(empty.len(), 0);
}

#[test]
fn id_prints_as_lower_hex() {
    let mut data = [0u8; 18];
    data[0] = 0xAB;
    data[1] = 0x0F;
    data[2] = 0x00;
    let id = ConnectionId::new(data, 3);
    assert_eq!(id.to_hex(), "ab0f00");
    assert_eq!(ConnectionId::new(data, 0).to_hex(), "");
}

#[test]
fn listen_keys_draw_two_independent_keys() {
    let keys = ListenKeys::new();
    assert_eq!(keys.cookie.len(), 64);
    assert_eq!(keys.reset.len(), 64);
    assert_ne!(keys.cookie, keys.reset);
    let other = ListenKeys::new();
    assert_ne!(keys.cookie, other.cookie);
}

#[test]
fn listen_keys_rebuild_from_persisted_bytes() {
    let cookie = vec![5u8; 64];
    let reset = vec![6u8; 64];
    let keys = ListenKeys::from_bytes(cookie.clone(), reset.clone());
    assert_eq!(keys.cookie, cookie);
    assert_eq!(keys.reset, reset);
}
