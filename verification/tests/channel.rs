//! The datagram channel contract.

use udp_dtls::{ConfigurationError, Error, RemoteAddr, UdpChannel};

#[derive(Debug, PartialEq)]
struct FakeSocket;

#[test]
fn pinned_channel_knows_its_write_target() {
    let addr = RemoteAddr::V6 { octets: [1; 16], port: 443 };
    let ch = UdpChannel::new(FakeSocket, Some(addr));
    assert_eq!(ch.write_target().unwrap(), &addr);
    assert_eq!(ch.remote_addr, Some(addr));
}

#[test]
fn unpinned_channel_cannot_send() {
    let ch = UdpChannel::new(FakeSocket, None);
    assert!(matches!(
        ch.write_target(),
        Err(Error::Configuration(ConfigurationError::NoPinnedRemote))
    ));
}

#[test]
fn flush_is_a_no_op() {
    let ch = UdpChannel::new(FakeSocket, None);
    assert!(ch.flush().is_ok());
}
