use smoltcp::socket::TcpState;
use smoltcp::time::Duration;
use smoltcp::wire::{IpAddress, IpEndpoint, Ipv6Address};
use tunnel_core::addr::{ipv4_bits, SocketAddress};
use tunnel_core::control::TcpOptions;

use tunnel_core::tcp::{AcceptError, TcpTun, TCP_IDLE_TIMEOUT_MICROS};

fn front_end(keepalive_micros: Option<u64>) -> TcpTun {
    let opts = TcpOptions { send_buffer_size: Some(4096), recv_buffer_size: Some(8192), keepalive_micros };
    TcpTun::new(opts, 1500)
}

fn destination() -> SocketAddress {
    SocketAddress::V4 { ip: ipv4_bits(10, 0, 0, 1), port: 80 }
}

#[test]
fn front_end_keeps_its_configuration() {
    let tun = front_end(Some(15_000_000));
    assert_eq!(tun.mtu(), 1500);
    assert_eq!(tun.accept_opts().send_buffer_size, Some(4096));
    assert_eq!(tun.accept_opts().recv_buffer_size, Some(8192));
    assert_eq!(tun.accept_opts().keepalive_micros, Some(15_000_000));
}

#[test]
fn only_a_first_handshake_segment_opens_a_flow() {
    let tun = front_end(None);
    assert!(matches!(tun.handle_packet(destination(), false, false), Ok(None)));
    assert!(matches!(tun.handle_packet(destination(), false, true), Ok(None)));
    assert!(matches!(tun.handle_packet(destination(), true, true), Ok(None)));
    assert!(matches!(tun.handle_packet(destination(), true, false), Ok(Some(_))));
}

#[test]
fn port_zero_cannot_be_listened_on() {
    let tun = front_end(None);
    let dst = SocketAddress::V4 { ip: ipv4_bits(10, 0, 0, 1), port: 0 };
    assert!(matches!(tun.handle_packet(dst, true, false), Err(AcceptError::Unaddressable)));
    // A segment that opens nothing is not looked at any further.
    assert!(matches!(tun.handle_packet(dst, true, true), Ok(None)));
    assert_eq!(AcceptError::Unaddressable.message(), "unaddressable destination");
}

#[test]
fn admitted_flow_listens_on_the_destination() {
    let tun = front_end(Some(15_000_000));
    let flow = tun.handle_packet(destination(), true, false).unwrap().unwrap();
    assert_eq!(flow.socket.state(), TcpState::Listen);
    assert_eq!(flow.socket.local_endpoint(), IpEndpoint::new(IpAddress::v4(10, 0, 0, 1), 80));
    assert_eq!(flow.socket.recv_capacity(), 8192);
    assert_eq!(flow.socket.send_capacity(), 4096);
    assert_eq!(flow.socket.recv_queue(), 0);
    assert_eq!(flow.socket.send_queue(), 0);
    assert_eq!(flow.socket.keep_alive(), Some(Duration::from_secs(15)));
    assert_eq!(flow.socket.timeout(), Some(Duration::from_secs(7200)));
    assert_eq!(TCP_IDLE_TIMEOUT_MICROS, 7200 * 1_000_000);
    assert!(!flow.control.is_closed());
    assert!(!flow.control.has_send_waker());
    assert!(!flow.control.has_recv_waker());
}

#[test]
fn admitted_flow_without_keep_alive_has_none() {
    let tun = front_end(None);
    let flow = tun.handle_packet(destination(), true, false).unwrap().unwrap();
    assert_eq!(flow.socket.keep_alive(), None);
    assert_eq!(flow.socket.timeout(), Some(Duration::from_secs(7200)));
}

#[test]
fn admitted_flow_uses_default_sizes() {
    let opts = TcpOptions { send_buffer_size: None, recv_buffer_size: None, keepalive_micros: None };
    let tun = TcpTun::new(opts, 1500);
    let flow = tun.handle_packet(destination(), true, false).unwrap().unwrap();
    assert_eq!(flow.socket.recv_capacity(), 87380);
    assert_eq!(flow.socket.send_capacity(), 16384);
}

#[test]
fn ipv6_destination_is_listened_on() {
    let tun = front_end(None);
    let dst = SocketAddress::V6 { ip: 0x2001_0db8_0000_0000_0000_0000_0000_0001, port: 443, flowinfo: 4, scope_id: 2 };
    let flow = tun.handle_packet(dst, true, false).unwrap().unwrap();
    assert_eq!(flow.socket.state(), TcpState::Listen);
    let expected = IpAddress::Ipv6(Ipv6Address::new(0x2001, 0x0db8, 0, 0, 0, 0, 0, 1));
    assert_eq!(flow.socket.local_endpoint(), IpEndpoint::new(expected, 443));
}
