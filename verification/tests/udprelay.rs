use std::sync::atomic::{AtomicBool, AtomicUsize, Ordering};
use std::sync::{Arc, Mutex};
use std::time::{Duration, Instant};
use tokio::runtime::{Builder, Runtime};
use tokio::sync::mpsc::Receiver;
use tokio::task::JoinHandle;
use tunnel_core::addr::{ipv4_bits, SocketAddress};
use tunnel_core::association::{RelayError, ASSOCIATION_QUEUE_BOUND};
use tunnel_core::udprelay::{UdpTunnel, DEFAULT_UDP_EXPIRY_MILLIS, RECEIVE_RETRY_DELAY_MILLIS};

/// Sets its flag when it is dropped: a worker's future holds one, so the
/// flag tells that the worker is gone.
struct Gone(Arc<AtomicBool>);

impl Drop for Gone {
    fn drop(&mut self) {
        self.0.store(true, Ordering::SeqCst);
    }
}

/// A shell with a runtime that only runs when the test lets it.
struct Shell {
    runtime: Runtime,
    spawned: Arc<AtomicUsize>,
}

/// What a test keeps of a worker: the receiving end of its queue, and
/// whether the worker is gone.
struct Worker {
    queue: Arc<Mutex<Option<Receiver<Vec<u8>>>>>,
    gone: Arc<AtomicBool>,
}

impl Shell {
    fn new() -> Shell {
        Shell {
            runtime: Builder::new_current_thread().build().unwrap(),
            spawned: Arc::new(AtomicUsize::new(0)),
        }
    }

    /// A worker that never takes anything out of its queue.
    fn paused_worker(&self) -> (Worker, impl FnOnce(Receiver<Vec<u8>>) -> JoinHandle<()> + '_) {
        let queue = Arc::new(Mutex::new(None));
        let gone = Arc::new(AtomicBool::new(false));
        let worker = Worker { queue: queue.clone(), gone: gone.clone() };
        let spawned = self.spawned.clone();
        let spawn = move |receiver: Receiver<Vec<u8>>| {
            spawned.fetch_add(1, Ordering::SeqCst);
            *queue.lock().unwrap() = Some(receiver);
            let guard = Gone(gone);
            self.runtime.spawn(async move {
                let _guard = guard;
                std::future::pending::<()>().await
            })
        };
        (worker, spawn)
    }

    /// A worker that lets go of its queue at once.
    fn dead_worker(&self) -> impl FnOnce(Receiver<Vec<u8>>) -> JoinHandle<()> + '_ {
        move |receiver: Receiver<Vec<u8>>| {
            drop(receiver);
            self.runtime.spawn(async {})
        }
    }

    fn spawned(&self) -> usize {
        self.spawned.load(Ordering::SeqCst)
    }

    /// Lets the runtime carry out what is pending, cancellations included.
    fn settle(&self) {
        self.runtime.block_on(async {
            for _ in 0..4 {
                tokio::task::yield_now().await;
            }
        });
    }
}

impl Worker {
    fn take(&self) -> Option<Vec<u8>> {
        self.queue.lock().unwrap().as_mut().unwrap().try_recv().ok()
    }

    fn is_gone(&self) -> bool {
        self.gone.load(Ordering::SeqCst)
    }
}

fn client(last: u8, port: u16) -> SocketAddress {
    SocketAddress::V4 { ip: ipv4_bits(192, 168, 0, last), port }
}

fn wait(duration: Duration) {
    let start = Instant::now();
    while start.elapsed() < duration {
        std::hint::spin_loop();
    }
}

#[test]
fn new_tunnel_is_empty() {
    let tunnel = UdpTunnel::new(None, None);
    assert_eq!(tunnel.peers(), Vec::new());
    assert_eq!(tunnel.time_to_live_millis(), 300_000);
    assert_eq!(DEFAULT_UDP_EXPIRY_MILLIS, 300_000);
    assert_eq!(RECEIVE_RETRY_DELAY_MILLIS, 1000);
    let tunnel = UdpTunnel::new(Some(1500), Some(3));
    assert_eq!(tunnel.time_to_live_millis(), 1500);
    assert_eq!(tunnel.peers(), Vec::new());
}

#[test]
fn first_datagram_creates_an_association() {
    let shell = Shell::new();
    let mut tunnel = UdpTunnel::new(None, None);
    let a = client(1, 5000);
    let (worker, spawn) = shell.paused_worker();
    assert_eq!(tunnel.send_packet(a, b"one", spawn), Ok(()));
    assert_eq!(shell.spawned(), 1);
    assert_eq!(tunnel.peers(), vec![a]);
    assert_eq!(worker.take(), Some(b"one".to_vec()));
    assert_eq!(worker.take(), None);
}

#[test]
fn later_datagrams_reuse_the_association() {
    let shell = Shell::new();
    let mut tunnel = UdpTunnel::new(None, None);
    let a = client(1, 5000);
    let (worker, spawn) = shell.paused_worker();
    assert_eq!(tunnel.send_packet(a, b"one", spawn), Ok(()));
    let (unused, spawn) = shell.paused_worker();
    assert_eq!(tunnel.send_packet(a, b"two", spawn), Ok(()));
    assert_eq!(shell.spawned(), 1);
    assert!(unused.queue.lock().unwrap().is_none());
    assert_eq!(tunnel.peers(), vec![a]);
    assert_eq!(worker.take(), Some(b"one".to_vec()));
    assert_eq!(worker.take(), Some(b"two".to_vec()));
    assert_eq!(worker.take(), None);
}

#[test]
fn two_clients_get_two_associations() {
    let shell = Shell::new();
    let mut tunnel = UdpTunnel::new(None, None);
    let a = client(1, 5000);
    let b = client(2, 5000);
    let (worker_a, spawn) = shell.paused_worker();
    assert_eq!(tunnel.send_packet(a, b"from a", spawn), Ok(()));
    let (worker_b, spawn) = shell.paused_worker();
    assert_eq!(tunnel.send_packet(b, b"from b", spawn), Ok(()));
    assert_eq!(shell.spawned(), 2);
    // B's datagram came last: B is the most recently used.
    assert_eq!(tunnel.peers(), vec![b, a]);
    assert_eq!(worker_a.take(), Some(b"from a".to_vec()));
    assert_eq!(worker_a.take(), None);
    assert_eq!(worker_b.take(), Some(b"from b".to_vec()));
    assert_eq!(worker_b.take(), None);

    let (_kept_1, spawn) = shell.paused_worker();
    assert_eq!(tunnel.send_packet(a, b"again", spawn), Ok(()));
    assert_eq!(tunnel.peers(), vec![a, b]);
    assert_eq!(shell.spawned(), 2);
}

#[test]
fn same_address_with_another_port_is_another_client() {
    let shell = Shell::new();
    let mut tunnel = UdpTunnel::new(None, None);
    let (_kept_2, spawn) = shell.paused_worker();
    assert_eq!(tunnel.send_packet(client(1, 5000), b"x", spawn), Ok(()));
    let (_kept_3, spawn) = shell.paused_worker();
    assert_eq!(tunnel.send_packet(client(1, 5001), b"y", spawn), Ok(()));
    assert_eq!(tunnel.peers(), vec![client(1, 5001), client(1, 5000)]);
}

#[test]
fn overload_drops_what_does_not_fit() {
    let shell = Shell::new();
    let mut tunnel = UdpTunnel::new(None, None);
    let a = client(1, 5000);
    let (worker, spawn) = shell.paused_worker();
    assert_eq!(tunnel.send_packet(a, &[0, 0], spawn), Ok(()));
    let mut accepted = 1;
    let mut rejected = 0;
    for i in 1..200u16 {
        let (_kept_4, spawn) = shell.paused_worker();
        let payload = [(i >> 8) as u8, i as u8];
        match tunnel.send_packet(a, &payload, spawn) {
            Ok(()) => {
                assert_eq!(rejected, 0, "a datagram was accepted after one was dropped");
                accepted += 1;
            }
            Err(error) => {
                assert_eq!(error, RelayError::ChannelFull);
                rejected += 1;
            }
        }
    }
    assert_eq!(accepted, 128);
    assert_eq!(rejected, 72);
    assert_eq!(ASSOCIATION_QUEUE_BOUND, 128);
    // What was accepted waits in the order in which it came.
    for i in 0..128u16 {
        assert_eq!(worker.take(), Some(vec![(i >> 8) as u8, i as u8]));
    }
    assert_eq!(worker.take(), None);
    // With room again, the next datagram is taken.
    let (_kept_5, spawn) = shell.paused_worker();
    assert_eq!(tunnel.send_packet(a, b"next", spawn), Ok(()));
    assert_eq!(worker.take(), Some(b"next".to_vec()));
}

#[test]
fn association_is_installed_even_if_its_queue_refuses() {
    let shell = Shell::new();
    let mut tunnel = UdpTunnel::new(None, None);
    let a = client(1, 5000);
    assert_eq!(tunnel.send_packet(a, b"lost", shell.dead_worker()), Err(RelayError::ChannelFull));
    assert_eq!(tunnel.peers(), vec![a]);
}

#[test]
fn keep_alive_refreshes_recency() {
    let shell = Shell::new();
    let mut tunnel = UdpTunnel::new(None, None);
    let a = client(1, 5000);
    let b = client(2, 5000);
    let (worker_a, spawn) = shell.paused_worker();
    assert_eq!(tunnel.send_packet(a, b"a", spawn), Ok(()));
    let (_kept_6, spawn) = shell.paused_worker();
    assert_eq!(tunnel.send_packet(b, b"b", spawn), Ok(()));
    assert_eq!(tunnel.peers(), vec![b, a]);

    assert!(tunnel.keep_alive(a));
    assert_eq!(tunnel.peers(), vec![a, b]);
    // A keep-alive carries no data.
    assert_eq!(worker_a.take(), Some(b"a".to_vec()));
    assert_eq!(worker_a.take(), None);

    assert!(!tunnel.keep_alive(client(3, 5000)));
    assert_eq!(tunnel.peers(), vec![a, b]);
    assert_eq!(shell.spawned(), 2);
}

#[test]
fn capacity_evicts_the_least_recently_used() {
    let shell = Shell::new();
    let mut tunnel = UdpTunnel::new(None, Some(2));
    let a = client(1, 5000);
    let b = client(2, 5000);
    let c = client(3, 5000);
    let (worker_a, spawn) = shell.paused_worker();
    assert_eq!(tunnel.send_packet(a, b"a", spawn), Ok(()));
    let (worker_b, spawn) = shell.paused_worker();
    assert_eq!(tunnel.send_packet(b, b"b", spawn), Ok(()));
    let (worker_c, spawn) = shell.paused_worker();
    assert_eq!(tunnel.send_packet(c, b"c", spawn), Ok(()));
    assert_eq!(tunnel.peers(), vec![c, b]);
    shell.settle();
    assert!(worker_a.is_gone());
    assert!(!worker_b.is_gone());
    assert!(!worker_c.is_gone());
}

#[test]
fn capacity_of_one_keeps_the_latest_client() {
    let shell = Shell::new();
    let mut tunnel = UdpTunnel::new(None, Some(1));
    let a = client(1, 5000);
    let b = client(2, 5000);
    let (_kept_7, spawn) = shell.paused_worker();
    assert_eq!(tunnel.send_packet(a, b"a", spawn), Ok(()));
    let (_kept_8, spawn) = shell.paused_worker();
    assert_eq!(tunnel.send_packet(b, b"b", spawn), Ok(()));
    assert_eq!(tunnel.peers(), vec![b]);
}

#[test]
fn idle_association_expires() {
    let shell = Shell::new();
    let mut tunnel = UdpTunnel::new(Some(1000), None);
    let a = client(1, 5000);
    let (worker, spawn) = shell.paused_worker();
    assert_eq!(tunnel.send_packet(a, b"only", spawn), Ok(()));
    assert_eq!(tunnel.peers(), vec![a]);
    assert!(!worker.is_gone());

    wait(Duration::from_millis(2000));
    tunnel.cleanup();
    assert_eq!(tunnel.peers(), Vec::new());
    shell.settle();
    assert!(worker.is_gone());
    assert!(!tunnel.keep_alive(a));
}

#[test]
fn cleanup_keeps_what_has_not_expired() {
    let shell = Shell::new();
    let mut tunnel = UdpTunnel::new(Some(400), None);
    let a = client(1, 5000);
    let b = client(2, 5000);
    let (worker_a, spawn) = shell.paused_worker();
    assert_eq!(tunnel.send_packet(a, b"a", spawn), Ok(()));
    wait(Duration::from_millis(250));
    let (worker_b, spawn) = shell.paused_worker();
    assert_eq!(tunnel.send_packet(b, b"b", spawn), Ok(()));
    wait(Duration::from_millis(250));
    // A has idled for half a second, B for a quarter.
    tunnel.cleanup();
    assert_eq!(tunnel.peers(), vec![b]);
    shell.settle();
    assert!(worker_a.is_gone());
    assert!(!worker_b.is_gone());
}

#[test]
fn keep_alive_postpones_expiry() {
    let shell = Shell::new();
    let mut tunnel = UdpTunnel::new(Some(400), None);
    let a = client(1, 5000);
    let (worker, spawn) = shell.paused_worker();
    assert_eq!(tunnel.send_packet(a, b"a", spawn), Ok(()));
    wait(Duration::from_millis(250));
    assert!(tunnel.keep_alive(a));
    wait(Duration::from_millis(250));
    tunnel.cleanup();
    assert_eq!(tunnel.peers(), vec![a]);
    shell.settle();
    assert!(!worker.is_gone());
}

#[test]
fn expired_client_gets_a_new_association() {
    let shell = Shell::new();
    let mut tunnel = UdpTunnel::new(Some(100), None);
    let a = client(1, 5000);
    let (first, spawn) = shell.paused_worker();
    assert_eq!(tunnel.send_packet(a, b"first", spawn), Ok(()));
    wait(Duration::from_millis(250));
    let (second, spawn) = shell.paused_worker();
    assert_eq!(tunnel.send_packet(a, b"second", spawn), Ok(()));
    assert_eq!(shell.spawned(), 2);
    assert_eq!(tunnel.peers(), vec![a]);
    assert_eq!(second.take(), Some(b"second".to_vec()));
    shell.settle();
    assert!(first.is_gone());
    assert!(!second.is_gone());
}

#[test]
fn dropping_the_tunnel_stops_its_workers() {
    let shell = Shell::new();
    let mut tunnel = UdpTunnel::new(None, None);
    let (worker, spawn) = shell.paused_worker();
    assert_eq!(tunnel.send_packet(client(1, 5000), b"a", spawn), Ok(()));
    drop(tunnel);
    shell.settle();
    assert!(worker.is_gone());
}
