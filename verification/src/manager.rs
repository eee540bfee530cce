//! The poller's work on one flow.
//!
//! On every round the poller visits each flow with its socket of the stack
//! and its control block, moves octets between the two, wakes whoever waits
//! for them, and learns whether the flow is to be removed.

use crate::control::{ControlView, TcpSocketControl};
use crate::ring::{free_space, min_len};
use crate::stack::{
    socket_can_recv, socket_can_send, socket_close, socket_is_open, socket_recv, socket_send,
    socket_view, SocketView,
};
use smoltcp::socket::TcpSocket;
use std::task::Waker;
use vstd::prelude::*;

verus! {

/// How long the poller sleeps when the stack has no timer pending, in
/// milliseconds.
pub const DEFAULT_POLL_DELAY_MILLIS: u64 = 50;

/// The octets that one visit moves from the socket to the receive ring:
/// all that the socket holds, as far as the ring has room.
pub open spec fn inbound_moved(socket: SocketView, control: ControlView) -> nat {
    min_len(socket.rx.len(), free_space(control.recv_capacity, control.recv.len()))
}

/// The octets that one visit moves from the send ring to the socket: all
/// that the ring holds, as far as the socket has room, and none while the
/// socket's transmit half is not open.
pub open spec fn outbound_moved(socket: SocketView, control: ControlView) -> nat {
    if socket.may_send() {
        min_len(control.send.len(), free_space(socket.tx_capacity, socket.tx.len()))
    } else {
        0
    }
}

/// The socket after one visit.
pub open spec fn serviced_socket(socket: SocketView, control: ControlView) -> SocketView {
    if !socket.is_open() {
        socket
    } else if control.is_closed {
        socket.after_close()
    } else {
        SocketView {
            rx: socket.rx.skip(inbound_moved(socket, control) as int),
            tx: socket.tx + control.send.subrange(0, outbound_moved(socket, control) as int),
            ..socket
        }
    }
}

/// The control block after one visit.
///
/// A flow whose socket is no longer open is torn down.  A flow that its
/// user closed is left alone while the stack closes its half.  On any other
/// flow, received octets move in first, then written octets move out; the
/// reader is woken if anything moved in, the writer if anything moved out.
pub open spec fn serviced_control(socket: SocketView, control: ControlView) -> ControlView {
    if !socket.is_open() {
        control.torn_down()
    } else if control.is_closed {
        control
    } else {
        ControlView {
            recv: control.recv + socket.rx.subrange(0, inbound_moved(socket, control) as int),
            recv_waker: if inbound_moved(socket, control) > 0 {
                None
            } else {
                control.recv_waker
            },
            send: control.send.skip(outbound_moved(socket, control) as int),
            send_waker: if outbound_moved(socket, control) > 0 {
                None
            } else {
                control.send_waker
            },
            ..control
        }
    }
}

/// Whether a visit ends with the flow removed: exactly when its socket is
/// no longer open.
pub open spec fn serviced_removal(socket: SocketView, control: ControlView) -> bool {
    !socket.is_open()
}

/// Visits one flow and tells whether it is to be removed from the poller's
/// table and from the stack.
pub fn service_socket(socket: &mut TcpSocket<'static>, control: &mut TcpSocketControl) -> (remove:
    bool)
    requires
        old(control).wf(),
    ensures
        final(control).wf(),
        final(control)@.follows(old(control)@),
        socket_view(*final(socket)) == serviced_socket(socket_view(*old(socket)), old(control)@),
        final(control)@ == serviced_control(socket_view(*old(socket)), old(control)@),
        remove == serviced_removal(socket_view(*old(socket)), old(control)@),
{
    if !socket_is_open(socket) {
        control.close();
        return true;
    }
    if control.is_closed() {
        socket_close(socket);
        return false;
    }
    let ghost socket0 = socket_view(*socket);
    let ghost control0 = control@;
    let mut remove = false;

    let ghost mut moved_in: nat = 0;
    let mut has_received = false;
    proof {
        assert(socket0.rx.skip(0) =~= socket0.rx);
        assert(control0.recv + socket0.rx.subrange(0, 0) =~= control0.recv);
    }
    while socket_can_recv(socket) && !control.recv_is_full()
        invariant
            control.wf(),
            socket0.is_open(),
            !control0.is_closed,
            !remove,
            has_received == (moved_in > 0),
            moved_in <= inbound_moved(socket0, control0),
            socket_view(*socket) == (SocketView { rx: socket0.rx.skip(moved_in as int), ..socket0 }),
            control@ == (ControlView {
                recv: control0.recv + socket0.rx.subrange(0, moved_in as int),
                ..control0
            }),
        ensures
            moved_in == inbound_moved(socket0, control0),
        decreases socket_view(*socket).rx.len(),
    {
        let ghost rx_before = socket_view(*socket).rx;
        match socket_recv(socket, control) {
            Ok(n) => {
                has_received = true;
                proof {
                    assert(rx_before.skip(n as int) =~= socket0.rx.skip(moved_in + n));
                    assert(control0.recv + socket0.rx.subrange(0, moved_in as int)
                        + rx_before.subrange(0, n as int) =~= control0.recv + socket0.rx.subrange(
                        0,
                        moved_in + n,
                    ));
                    moved_in = moved_in + n as nat;
                }
            },
            Err(_) => {
                remove = true;
                control.close();
                break ;
            },
        }
    }
    if has_received {
        control.wake_reader();
    }
    let ghost socket1 = socket_view(*socket);
    let ghost control1 = control@;

    let ghost mut moved_out: nat = 0;
    let mut has_sent = false;
    proof {
        assert(control1.send.skip(0) =~= control1.send);
        assert(socket1.tx + control1.send.subrange(0, 0) =~= socket1.tx);
    }
    while socket_can_send(socket) && !control.send_is_empty()
        invariant
            control.wf(),
            !remove,
            has_sent == (moved_out > 0),
            socket1.may_send() == socket0.may_send(),
            socket1.tx == socket0.tx,
            socket1.tx_capacity == socket0.tx_capacity,
            control1.send == control0.send,
            moved_out <= outbound_moved(socket0, control0),
            socket_view(*socket) == (SocketView {
                tx: socket1.tx + control1.send.subrange(0, moved_out as int),
                ..socket1
            }),
            control@ == (ControlView { send: control1.send.skip(moved_out as int), ..control1 }),
        ensures
            moved_out == outbound_moved(socket0, control0),
        decreases control@.send.len(),
    {
        let ghost send_before = control@.send;
        match socket_send(socket, control) {
            Ok(n) => {
                has_sent = true;
                proof {
                    assert(send_before.skip(n as int) =~= control1.send.skip(moved_out + n));
                    assert(socket1.tx + control1.send.subrange(0, moved_out as int)
                        + send_before.subrange(0, n as int) =~= socket1.tx + control1.send.subrange(
                        0,
                        moved_out + n,
                    ));
                    moved_out = moved_out + n as nat;
                }
            },
            Err(_) => {
                remove = true;
                control.close();
                break ;
            },
        }
    }
    if has_sent {
        control.wake_writer();
    }
    remove
}

/// The time until the poller's next round, in milliseconds, unless it is
/// notified earlier: what the stack asks for, else the default.
pub fn next_poll_delay(stack_delay_millis: Option<u64>) -> (delay: u64)
    ensures
        delay == match stack_delay_millis {
            Some(millis) => millis,
            None => DEFAULT_POLL_DELAY_MILLIS,
        },
{
    match stack_delay_millis {
        Some(millis) => millis,
        None => DEFAULT_POLL_DELAY_MILLIS,
    }
}

/// A visit neither loses, adds nor reorders octets: what the socket and the
/// send ring hold towards the remote end, read in order, is the same before
/// and after, and so is what the receive ring and the socket hold towards
/// the user.
pub proof fn lemma_service_keeps_streams(socket: SocketView, control: ControlView)
    requires
        control.wf(),
    ensures
        serviced_socket(socket, control).tx + serviced_control(socket, control).send == socket.tx
            + control.send,
        serviced_control(socket, control).recv + serviced_socket(socket, control).rx
            == control.recv + socket.rx,
{
    let moved_in = inbound_moved(socket, control) as int;
    let moved_out = outbound_moved(socket, control) as int;
    assert(socket.tx + control.send.subrange(0, moved_out) + control.send.skip(moved_out)
        =~= socket.tx + control.send);
    assert(control.recv + socket.rx.subrange(0, moved_in) + socket.rx.skip(moved_in)
        =~= control.recv + socket.rx);
}

/// What a writer hands over reaches the stack behind everything handed over
/// before it: after a write and a visit, the socket and the send ring hold,
/// read in order, what they held before followed by the octets that the
/// write took.
pub proof fn lemma_written_octets_follow_in_order(
    socket: SocketView,
    control: ControlView,
    src: Seq<u8>,
    registered: Option<Waker>,
)
    requires
        control.wf(),
    ensures
        control.after_write(src, registered).wf(),
        control.after_write(src, registered).send == control.send + src.subrange(
            0,
            control.write_len(src.len()) as int,
        ),
        serviced_socket(socket, control.after_write(src, registered)).tx + serviced_control(
            socket,
            control.after_write(src, registered),
        ).send == socket.tx + control.send + src.subrange(0, control.write_len(src.len()) as int),
{
    let written = control.after_write(src, registered);
    let taken = control.write_len(src.len()) as int;
    assert(written.send =~= control.send + src.subrange(0, taken));
    lemma_service_keeps_streams(socket, written);
}

/// What a reader is handed is the oldest of what arrived: after a visit and
/// a read, the octets read, followed by what the receive ring and the
/// socket still hold, are what the two held before the visit.
pub proof fn lemma_read_octets_come_in_order(
    socket: SocketView,
    control: ControlView,
    room: nat,
    registered: Option<Waker>,
)
    requires
        control.wf(),
    ensures
        serviced_control(socket, control).recv.subrange(
            0,
            serviced_control(socket, control).read_len(room) as int,
        ) + serviced_control(socket, control).after_read(room, registered).recv + serviced_socket(
            socket,
            control,
        ).rx == control.recv + socket.rx,
{
    let visited = serviced_control(socket, control);
    let read = visited.read_len(room) as int;
    lemma_service_keeps_streams(socket, control);
    assert(visited.recv.subrange(0, read) + visited.after_read(room, registered).recv
        =~= visited.recv);
}

/// A visit leaves nobody waiting for what it brought about: a reader's
/// waker is gone from its slot once octets have arrived, a writer's once
/// room was made, and both once the flow was torn down.
pub proof fn lemma_service_wakes(socket: SocketView, control: ControlView)
    requires
        control.wf(),
    ensures
        serviced_control(socket, control).recv.len() > control.recv.len() ==> serviced_control(
            socket,
            control,
        ).recv_waker.is_none(),
        serviced_control(socket, control).send.len() < control.send.len() ==> serviced_control(
            socket,
            control,
        ).send_waker.is_none(),
        serviced_control(socket, control).is_closed && !control.is_closed ==> serviced_control(
            socket,
            control,
        ).recv_waker.is_none() && serviced_control(socket, control).send_waker.is_none(),
{
}

/// A visit ends with the receive ring full or the socket's received octets
/// taken, and with the send ring empty or the socket unable to take more,
/// unless the flow is closed or removed.
pub proof fn lemma_service_moves_all_it_can(socket: SocketView, control: ControlView)
    requires
        control.wf(),
        socket.tx.len() <= socket.tx_capacity,
        socket.is_open(),
        !control.is_closed,
    ensures
        serviced_socket(socket, control).rx.len() == 0 || serviced_control(socket, control).recv.len()
            == control.recv_capacity,
        serviced_control(socket, control).send.len() == 0 || !serviced_socket(
            socket,
            control,
        ).can_send(),
{
}

} // verus!
