use std::sync::atomic::{AtomicUsize, Ordering};
use std::sync::Arc;
use std::task::{Wake, Waker};
use tunnel_core::control::{
    ReadPoll, ShutdownPoll, TcpOptions, TcpSocketControl, WritePoll, DEFAULT_TCP_RECV_BUFFER_SIZE,
    DEFAULT_TCP_SEND_BUFFER_SIZE,
};

struct Counter {
    wakes: AtomicUsize,
}

impl Wake for Counter {
    fn wake(self: Arc<Self>) {
        self.wakes.fetch_add(1, Ordering::SeqCst);
    }
}

fn counting_waker() -> (Arc<Counter>, Waker) {
    let counter = Arc::new(Counter { wakes: AtomicUsize::new(0) });
    (counter.clone(), Waker::from(counter))
}

fn wakes(counter: &Arc<Counter>) -> usize {
    counter.wakes.load(Ordering::SeqCst)
}

fn options(send: u32, recv: u32) -> TcpOptions {
    TcpOptions { send_buffer_size: Some(send), recv_buffer_size: Some(recv), keepalive_micros: None }
}

#[test]
fn options_fall_back_to_defaults() {
    let unset = TcpOptions { send_buffer_size: None, recv_buffer_size: None, keepalive_micros: None };
    assert_eq!(unset.send_size(), 16384);
    assert_eq!(unset.recv_size(), 87380);
    assert_eq!(DEFAULT_TCP_SEND_BUFFER_SIZE, 16384);
    assert_eq!(DEFAULT_TCP_RECV_BUFFER_SIZE, 87380);
    let set = options(4096, 8192);
    assert_eq!(set.send_size(), 4096);
    assert_eq!(set.recv_size(), 8192);
}

#[test]
fn new_control_is_open_and_idle() {
    let control = TcpSocketControl::new(&options(8, 8));
    assert!(!control.is_closed());
    assert!(!control.has_send_waker());
    assert!(!control.has_recv_waker());
}

#[test]
fn write_takes_what_fits() {
    let (_, waker) = counting_waker();
    let mut control = TcpSocketControl::new(&options(4, 4));
    assert_eq!(control.poll_write(&waker, &[1, 2, 3]), WritePoll::Ready(3));
    assert_eq!(control.poll_write(&waker, &[4, 5, 6]), WritePoll::Ready(1));
    assert!(!control.has_send_waker());
}

#[test]
fn write_of_nothing_is_ready_with_zero() {
    let (_, waker) = counting_waker();
    let mut control = TcpSocketControl::new(&options(4, 4));
    assert_eq!(control.poll_write(&waker, &[]), WritePoll::Ready(0));
}

#[test]
fn write_on_full_ring_suspends() {
    let (counter, waker) = counting_waker();
    let mut control = TcpSocketControl::new(&options(2, 2));
    assert_eq!(control.poll_write(&waker, &[1, 2]), WritePoll::Ready(2));
    assert_eq!(control.poll_write(&waker, &[3]), WritePoll::Pending);
    assert!(control.has_send_waker());
    assert_eq!(wakes(&counter), 0);
}

#[test]
fn write_with_no_capacity_always_suspends() {
    let (_, waker) = counting_waker();
    let mut control = TcpSocketControl::new(&options(0, 0));
    assert_eq!(control.poll_write(&waker, &[1]), WritePoll::Pending);
    assert_eq!(control.poll_write(&waker, &[]), WritePoll::Pending);
}

#[test]
fn backpressure_admits_exactly_the_send_size() {
    let (_, waker) = counting_waker();
    let mut control = TcpSocketControl::new(&options(4096, 4096));
    let data: Vec<u8> = (0..65536u32).map(|i| (i % 251) as u8).collect();
    let mut admitted = 0usize;
    loop {
        match control.poll_write(&waker, &data[admitted..]) {
            WritePoll::Ready(n) => admitted += n,
            WritePoll::Pending => break,
            WritePoll::BrokenPipe => panic!("the flow is open"),
        }
    }
    assert_eq!(admitted, 4096);
    assert!(control.has_send_waker());
}

#[test]
fn read_on_empty_ring_suspends() {
    let (counter, waker) = counting_waker();
    let mut control = TcpSocketControl::new(&options(4, 4));
    let mut dst = [9u8; 4];
    assert_eq!(control.poll_read(&waker, &mut dst), ReadPoll::Pending);
    assert_eq!(dst, [9, 9, 9, 9]);
    assert!(control.has_recv_waker());
    assert_eq!(wakes(&counter), 0);
}

#[test]
fn same_task_suspending_again_is_not_woken() {
    let (counter, waker) = counting_waker();
    let mut control = TcpSocketControl::new(&options(4, 4));
    let mut dst = [0u8; 4];
    assert_eq!(control.poll_read(&waker, &mut dst), ReadPoll::Pending);
    assert_eq!(control.poll_read(&waker, &mut dst), ReadPoll::Pending);
    assert_eq!(wakes(&counter), 0);
    assert!(control.has_recv_waker());
}

#[test]
fn displaced_reader_is_woken() {
    let (first, first_waker) = counting_waker();
    let (second, second_waker) = counting_waker();
    let mut control = TcpSocketControl::new(&options(4, 4));
    let mut dst = [0u8; 4];
    assert_eq!(control.poll_read(&first_waker, &mut dst), ReadPoll::Pending);
    assert_eq!(control.poll_read(&second_waker, &mut dst), ReadPoll::Pending);
    assert_eq!(wakes(&first), 1);
    assert_eq!(wakes(&second), 0);
    assert!(control.has_recv_waker());
}

#[test]
fn displaced_writer_is_woken() {
    let (first, first_waker) = counting_waker();
    let (second, second_waker) = counting_waker();
    let mut control = TcpSocketControl::new(&options(1, 1));
    assert_eq!(control.poll_write(&first_waker, &[1]), WritePoll::Ready(1));
    assert_eq!(control.poll_write(&first_waker, &[2]), WritePoll::Pending);
    assert_eq!(control.poll_write(&second_waker, &[2]), WritePoll::Pending);
    assert_eq!(wakes(&first), 1);
    assert_eq!(wakes(&second), 0);
}

#[test]
fn flush_is_always_done() {
    let control = TcpSocketControl::new(&options(1, 1));
    assert!(control.poll_flush());
}

#[test]
fn shutdown_closes_and_waits() {
    let (counter, waker) = counting_waker();
    let mut control = TcpSocketControl::new(&options(4, 4));
    assert_eq!(control.poll_shutdown(&waker), ShutdownPoll::Pending);
    assert!(control.is_closed());
    assert!(control.has_send_waker());
    assert_eq!(wakes(&counter), 0);
    assert_eq!(control.poll_shutdown(&waker), ShutdownPoll::Done);
    assert!(control.is_closed());
}

#[test]
fn shutdown_displaces_a_suspended_writer() {
    let (writer, writer_waker) = counting_waker();
    let (closer, closer_waker) = counting_waker();
    let mut control = TcpSocketControl::new(&options(0, 0));
    assert_eq!(control.poll_write(&writer_waker, &[1]), WritePoll::Pending);
    assert_eq!(control.poll_shutdown(&closer_waker), ShutdownPoll::Pending);
    assert_eq!(wakes(&writer), 1);
    assert_eq!(wakes(&closer), 0);
}

#[test]
fn closed_flow_reads_eof_and_writes_broken_pipe() {
    let (counter, waker) = counting_waker();
    let mut control = TcpSocketControl::new(&options(4, 4));
    assert_eq!(control.poll_write(&waker, &[1, 2]), WritePoll::Ready(2));
    control.abandon();
    assert!(control.is_closed());
    let mut dst = [7u8; 2];
    assert_eq!(control.poll_read(&waker, &mut dst), ReadPoll::Eof);
    assert_eq!(dst, [7, 7]);
    assert_eq!(control.poll_write(&waker, &[3]), WritePoll::BrokenPipe);
    assert!(!control.has_recv_waker());
    assert!(!control.has_send_waker());
    assert_eq!(wakes(&counter), 0);
    // Closed stays closed, whatever is called.
    assert_eq!(control.poll_shutdown(&waker), ShutdownPoll::Done);
    control.abandon();
    control.close();
    assert!(control.is_closed());
    assert_eq!(control.poll_read(&waker, &mut dst), ReadPoll::Eof);
    assert_eq!(control.poll_write(&waker, &[3]), WritePoll::BrokenPipe);
}

#[test]
fn abandon_wakes_nobody() {
    let (counter, waker) = counting_waker();
    let mut control = TcpSocketControl::new(&options(4, 4));
    let mut dst = [0u8; 1];
    assert_eq!(control.poll_read(&waker, &mut dst), ReadPoll::Pending);
    control.abandon();
    assert!(control.is_closed());
    assert!(control.has_recv_waker());
    assert_eq!(wakes(&counter), 0);
}

#[test]
fn close_wakes_both_sides_once() {
    let (reader, reader_waker) = counting_waker();
    let (writer, writer_waker) = counting_waker();
    let mut control = TcpSocketControl::new(&options(0, 4));
    let mut dst = [0u8; 1];
    assert_eq!(control.poll_read(&reader_waker, &mut dst), ReadPoll::Pending);
    assert_eq!(control.poll_write(&writer_waker, &[1]), WritePoll::Pending);
    control.close();
    assert!(control.is_closed());
    assert!(!control.has_recv_waker());
    assert!(!control.has_send_waker());
    assert_eq!(wakes(&reader), 1);
    assert_eq!(wakes(&writer), 1);
    control.close();
    assert_eq!(wakes(&reader), 1);
    assert_eq!(wakes(&writer), 1);
}

#[test]
fn close_resolves_a_pending_shutdown() {
    let (closer, closer_waker) = counting_waker();
    let mut control = TcpSocketControl::new(&options(4, 4));
    assert_eq!(control.poll_shutdown(&closer_waker), ShutdownPoll::Pending);
    control.close();
    assert_eq!(wakes(&closer), 1);
    assert_eq!(control.poll_shutdown(&closer_waker), ShutdownPoll::Done);
}

#[test]
fn polls_tell_when_to_notify_the_poller() {
    assert!(ReadPoll::Ready(0).notifies_poller());
    assert!(ReadPoll::Ready(5).notifies_poller());
    assert!(!ReadPoll::Pending.notifies_poller());
    assert!(!ReadPoll::Eof.notifies_poller());
    assert!(WritePoll::Ready(0).notifies_poller());
    assert!(!WritePoll::Pending.notifies_poller());
    assert!(!WritePoll::BrokenPipe.notifies_poller());
}
