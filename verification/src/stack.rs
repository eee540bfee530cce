//! The TCP socket of the `smoltcp` stack, as far as the tunnel drives it.
//!
//! Nothing here is proved.  A socket is seen through one name, its
//! [`SocketView`]; each contract restates over that view what the socket's
//! source does.

use crate::addr::SocketAddress;
use crate::control::{ControlView, TcpSocketControl};
use crate::ring::{free_space, ring_capacity, ring_contents};
use smoltcp::socket::TcpSocket;
use smoltcp::storage::RingBuffer;
use smoltcp::time::Duration;
use smoltcp::wire::{IpAddress, IpEndpoint, Ipv4Address, Ipv6Address};
use vstd::prelude::*;

verus! {

#[verifier::external_type_specification]
#[verifier::external_body]
pub struct ExTcpSocket<'a>(TcpSocket<'a>);

#[verifier::external_type_specification]
#[verifier::external_body]
pub struct ExStackError(smoltcp::Error);

/// The receive buffer above which the stack refuses to create a socket.
pub const MAX_RX_CAPACITY: usize = 0x4000_0000;

/// The states of the TCP state machine.
#[derive(Clone, Copy, Debug, PartialEq, Eq, Structural)]
pub enum TcpState {
    Closed,
    Listen,
    SynSent,
    SynReceived,
    Established,
    FinWait1,
    FinWait2,
    CloseWait,
    Closing,
    LastAck,
    TimeWait,
}

/// What contracts see of a socket of the stack.
pub struct SocketView {
    pub state: TcpState,
    /// Octets received from the remote end and not yet taken, oldest first.
    pub rx: Seq<u8>,
    pub rx_capacity: nat,
    /// Octets queued for the remote end, oldest first.
    pub tx: Seq<u8>,
    pub tx_capacity: nat,
    /// Keep-alive interval, in microseconds.
    pub keep_alive: Option<u64>,
    /// Idle timeout, in microseconds.
    pub timeout: Option<u64>,
    /// The endpoint that the socket listens on, once it does.
    pub local: Option<SocketAddress>,
}

impl SocketView {
    /// A socket just created over buffers of the given capacities.
    pub open spec fn created(rx_capacity: nat, tx_capacity: nat) -> SocketView {
        SocketView {
            state: TcpState::Closed,
            rx: Seq::empty(),
            rx_capacity,
            tx: Seq::empty(),
            tx_capacity,
            keep_alive: None,
            timeout: None,
            local: None,
        }
    }

    /// Whether the socket takes part in any exchange: it is neither closed
    /// nor lingering in TIME-WAIT.
    pub open spec fn is_open(self) -> bool {
        !(self.state is Closed) && !(self.state is TimeWait)
    }

    /// Whether the transmit half is open.
    pub open spec fn may_send(self) -> bool {
        self.state is Established || self.state is CloseWait
    }

    /// Whether the receive half is open, or something received still waits.
    pub open spec fn may_recv(self) -> bool {
        self.state is Established || self.state is FinWait1 || self.state is FinWait2
            || self.rx.len() > 0
    }

    pub open spec fn can_send(self) -> bool {
        self.may_send() && self.tx.len() < self.tx_capacity
    }

    pub open spec fn can_recv(self) -> bool {
        self.may_recv() && self.rx.len() > 0
    }

    /// The state after the transmit half was closed.
    pub open spec fn after_close(self) -> SocketView {
        SocketView {
            state: match self.state {
                TcpState::Listen | TcpState::SynSent => TcpState::Closed,
                TcpState::SynReceived | TcpState::Established => TcpState::FinWait1,
                TcpState::CloseWait => TcpState::LastAck,
                other => other,
            },
            ..self
        }
    }

    /// The state of a socket that was told to listen on `endpoint` and did.
    pub open spec fn listening(self, endpoint: SocketAddress) -> SocketView {
        SocketView {
            state: TcpState::Listen,
            rx: Seq::empty(),
            tx: Seq::empty(),
            keep_alive: None,
            timeout: None,
            local: Some(spec_endpoint(endpoint)),
            ..self
        }
    }
}

/// What the stack keeps of an address: family, bits and port.
pub open spec fn spec_endpoint(addr: SocketAddress) -> SocketAddress {
    match addr {
        SocketAddress::V4 { .. } => addr,
        SocketAddress::V6 { ip, port, .. } => SocketAddress::V6 { ip, port, flowinfo: 0, scope_id: 0 },
    }
}

/// What contracts see of a socket.
pub uninterp spec fn socket_view(socket: TcpSocket<'static>) -> SocketView;

/// `TcpSocket::new`: a closed socket over the two buffers, with no
/// keep-alive and no timeout.  It panics on a receive buffer above one GiB.
#[verifier::external_body]
pub(crate) fn socket_new(
    rx_buffer: RingBuffer<'static, u8>,
    tx_buffer: RingBuffer<'static, u8>,
) -> (socket: TcpSocket<'static>)
    requires
        ring_capacity(rx_buffer) <= MAX_RX_CAPACITY,
        ring_contents(rx_buffer).len() == 0,
        ring_contents(tx_buffer).len() == 0,
    ensures
        socket_view(socket) == SocketView::created(
            ring_capacity(rx_buffer),
            ring_capacity(tx_buffer),
        ),
{
    TcpSocket::new(rx_buffer, tx_buffer)
}

/// `TcpSocket::listen`: refused for port zero and on an open socket;
/// otherwise the socket is reset, which also clears keep-alive and timeout,
/// and listens on the endpoint.
#[verifier::external_body]
pub(crate) fn socket_listen(socket: &mut TcpSocket<'static>, endpoint: SocketAddress) -> (result:
    Result<(), smoltcp::Error>)
    ensures
        result.is_err() == (endpoint.spec_port() == 0 || socket_view(*old(socket)).is_open()),
        socket_view(*final(socket)) == if result.is_ok() {
            socket_view(*old(socket)).listening(endpoint)
        } else {
            socket_view(*old(socket))
        },
{
    let local = match endpoint {
        SocketAddress::V4 { ip, port } => IpEndpoint::new(
            IpAddress::Ipv4(Ipv4Address(ip.to_be_bytes())),
            port,
        ),
        SocketAddress::V6 { ip, port, .. } => IpEndpoint::new(
            IpAddress::Ipv6(Ipv6Address(ip.to_be_bytes())),
            port,
        ),
    };
    socket.listen(local)
}

/// `TcpSocket::set_keep_alive`, with the interval in microseconds.
#[verifier::external_body]
pub(crate) fn socket_set_keep_alive(socket: &mut TcpSocket<'static>, interval: Option<u64>)
    ensures
        socket_view(*final(socket)) == (SocketView {
            keep_alive: interval,
            ..socket_view(*old(socket))
        }),
{
    socket.set_keep_alive(interval.map(Duration::from_micros))
}

/// `TcpSocket::set_timeout`, with the duration in microseconds.
#[verifier::external_body]
pub(crate) fn socket_set_timeout(socket: &mut TcpSocket<'static>, duration: Option<u64>)
    ensures
        socket_view(*final(socket)) == (SocketView {
            timeout: duration,
            ..socket_view(*old(socket))
        }),
{
    socket.set_timeout(duration.map(Duration::from_micros))
}

/// `TcpSocket::is_open`: whether the state is neither CLOSED nor TIME-WAIT.
#[verifier::external_body]
pub(crate) fn socket_is_open(socket: &TcpSocket<'static>) -> (open: bool)
    ensures
        open == socket_view(*socket).is_open(),
{
    socket.is_open()
}

/// `TcpSocket::close`: closes the transmit half, which moves the state
/// machine as [`SocketView::after_close`] says and touches nothing else.
#[verifier::external_body]
pub(crate) fn socket_close(socket: &mut TcpSocket<'static>)
    ensures
        socket_view(*final(socket)) == socket_view(*old(socket)).after_close(),
{
    socket.close()
}

/// `TcpSocket::can_recv`: whether the receive half is open and something
/// received waits.
#[verifier::external_body]
pub(crate) fn socket_can_recv(socket: &TcpSocket<'static>) -> (ready: bool)
    ensures
        ready == socket_view(*socket).can_recv(),
{
    socket.can_recv()
}

/// `TcpSocket::can_send`: whether the transmit half is open and the
/// transmit buffer is not full.
#[verifier::external_body]
pub(crate) fn socket_can_send(socket: &TcpSocket<'static>) -> (ready: bool)
    ensures
        ready == socket_view(*socket).can_send(),
{
    socket.can_send()
}

/// `TcpSocket::recv`, handing what the socket offers to the control block.
///
/// The socket refuses if and only if its receive half is not open.
/// Otherwise it offers the longest stretch of its oldest received octets
/// that lies unbroken in its buffer, which is not empty if the buffer is
/// not; the control block takes as much of it as its receive ring has room
/// for, and the socket drops what was taken.
#[verifier::external_body]
pub(crate) fn socket_recv(socket: &mut TcpSocket<'static>, control: &mut TcpSocketControl) -> (result:
    Result<usize, smoltcp::Error>)
    requires
        old(control).wf(),
    ensures
        result.is_ok() == socket_view(*old(socket)).may_recv(),
        final(control).wf(),
        match result {
            Ok(n) => {
                let rx = socket_view(*old(socket)).rx;
                let room = free_space(old(control)@.recv_capacity, old(control)@.recv.len());
                &&& n <= rx.len()
                &&& n <= room
                &&& (rx.len() > 0 && room > 0 ==> n > 0)
                &&& socket_view(*final(socket)) == (SocketView {
                    rx: rx.skip(n as int),
                    ..socket_view(*old(socket))
                })
                &&& final(control)@ == (ControlView {
                    recv: old(control)@.recv + rx.subrange(0, n as int),
                    ..old(control)@
                })
            },
            Err(_) => {
                &&& socket_view(*final(socket)) == socket_view(*old(socket))
                &&& final(control)@ == old(control)@
            },
        },
{
    socket.recv(
        |buffer| {
            let n = control.accept_from_stack(buffer);
            (n, n)
        },
    )
}

/// `TcpSocket::send`, filling what the socket offers from the control block.
///
/// The socket refuses if and only if its transmit half is not open.  Otherwise it offers the longest unbroken stretch of free room at
/// the end of its transmit buffer, which is not empty if the buffer is not
/// full; the control block moves the oldest octets of its send ring there,
/// as many as fit, and the socket queues them behind what it holds.
#[verifier::external_body]
pub(crate) fn socket_send(socket: &mut TcpSocket<'static>, control: &mut TcpSocketControl) -> (result:
    Result<usize, smoltcp::Error>)
    requires
        old(control).wf(),
    ensures
        result.is_ok() == socket_view(*old(socket)).may_send(),
        final(control).wf(),
        match result {
            Ok(n) => {
                let tx = socket_view(*old(socket)).tx;
                let room = free_space(socket_view(*old(socket)).tx_capacity, tx.len());
                &&& n <= old(control)@.send.len()
                &&& n <= room
                &&& (old(control)@.send.len() > 0 && room > 0 ==> n > 0)
                &&& socket_view(*final(socket)) == (SocketView {
                    tx: tx + old(control)@.send.subrange(0, n as int),
                    ..socket_view(*old(socket))
                })
                &&& final(control)@ == (ControlView {
                    send: old(control)@.send.skip(n as int),
                    ..old(control)@
                })
            },
            Err(_) => {
                &&& socket_view(*final(socket)) == socket_view(*old(socket))
                &&& final(control)@ == old(control)@
            },
        },
{
    socket.send(
        |buffer| {
            let n = control.drain_to_stack(buffer);
            (n, n)
        },
    )
}

} // verus!
