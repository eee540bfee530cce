use std::sync::{Arc, Mutex};
use tokio::runtime::Builder;
use tokio::sync::mpsc::Receiver;
use tunnel_core::addr::{ipv4_bits, SocketAddress};
use tunnel_core::association::{
    admission_result, RelayError, SendPlan, UdpAssociation, UdpAssociationContext,
    KEEP_ALIVE_QUEUE_BOUND, KEEP_ALIVE_SEND_TIMEOUT_MILLIS,
};
use tunnel_core::channel::Admission;

fn peer() -> SocketAddress {
    SocketAddress::V4 { ip: ipv4_bits(192, 168, 0, 9), port: 4000 }
}

#[test]
fn a_payload_that_is_not_queued_counts_as_dropped() {
    assert_eq!(admission_result(Admission::Queued), Ok(()));
    assert_eq!(admission_result(Admission::Full), Err(RelayError::ChannelFull));
    assert_eq!(admission_result(Admission::Closed), Err(RelayError::ChannelFull));
}

#[test]
fn relay_error_has_its_message() {
    assert_eq!(RelayError::ChannelFull.message(), "udp relay channel full");
}

#[test]
fn association_queues_up_to_its_bound() {
    let runtime = Builder::new_current_thread().build().unwrap();
    let queue: Arc<Mutex<Option<Receiver<Vec<u8>>>>> = Arc::new(Mutex::new(None));
    let kept = queue.clone();
    let assoc = UdpAssociation::new(move |receiver| {
        *kept.lock().unwrap() = Some(receiver);
        runtime.spawn(std::future::pending::<()>())
    });
    for i in 0..128u8 {
        assert_eq!(assoc.try_send(vec![i]), Ok(()));
    }
    assert_eq!(assoc.try_send(vec![128]), Err(RelayError::ChannelFull));
    let mut receiver = queue.lock().unwrap().take().unwrap();
    assert_eq!(receiver.try_recv().ok(), Some(vec![0]));
    assert_eq!(assoc.try_send(vec![129]), Ok(()));
    for i in 1..128u8 {
        assert_eq!(receiver.try_recv().ok(), Some(vec![i]));
    }
    assert_eq!(receiver.try_recv().ok(), Some(vec![129]));
    assert!(receiver.try_recv().is_err());
}

#[test]
fn association_with_a_dead_worker_drops_everything() {
    let runtime = Builder::new_current_thread().build().unwrap();
    let assoc = UdpAssociation::new(move |receiver| {
        drop(receiver);
        runtime.spawn(async {})
    });
    assert_eq!(assoc.try_send(vec![1]), Err(RelayError::ChannelFull));
}

#[test]
fn worker_connects_before_its_first_send() {
    let mut context: UdpAssociationContext<u32> = UdpAssociationContext::new(peer());
    assert_eq!(context.peer_addr(), peer());
    assert_eq!(context.socket(), None);
    assert_eq!(context.send_plan(), SendPlan::ConnectThenSend);
    context.socket_connected(7);
    assert_eq!(context.socket(), Some(&7));
    assert_eq!(context.send_plan(), SendPlan::Send);
    context.send_finished(true);
    assert_eq!(context.socket(), Some(&7));
    assert_eq!(context.send_plan(), SendPlan::Send);
}

#[test]
fn failed_send_lets_the_socket_go() {
    let mut context: UdpAssociationContext<u32> = UdpAssociationContext::new(peer());
    context.socket_connected(7);
    context.send_finished(false);
    assert_eq!(context.socket(), None);
    assert_eq!(context.send_plan(), SendPlan::ConnectThenSend);
    // The next payload connects anew.
    context.socket_connected(8);
    assert_eq!(context.socket(), Some(&8));
    // A failure without a socket changes nothing.
    context.send_finished(false);
    context.send_finished(false);
    assert_eq!(context.socket(), None);
}

#[test]
fn datagram_from_upstream_goes_back_to_the_worker_s_client() {
    let mut context: UdpAssociationContext<u32> = UdpAssociationContext::new(peer());
    context.socket_connected(7);
    assert_eq!(context.receive_finished(true), Some(peer()));
    assert_eq!(context.socket(), Some(&7));
    assert_eq!(context.receive_finished(true), Some(peer()));
    assert_eq!(KEEP_ALIVE_SEND_TIMEOUT_MILLIS, 1000);
    assert_eq!(KEEP_ALIVE_QUEUE_BOUND, 64);
}

#[test]
fn failed_receive_lets_the_socket_go() {
    let mut context: UdpAssociationContext<u32> = UdpAssociationContext::new(peer());
    context.socket_connected(7);
    assert_eq!(context.receive_finished(false), None);
    assert_eq!(context.socket(), None);
    assert_eq!(context.send_plan(), SendPlan::ConnectThenSend);
    assert_eq!(context.peer_addr(), peer());
}
