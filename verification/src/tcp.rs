//! The TCP front end: which intercepted segments open a flow, and what a
//! flow starts out with.

use crate::addr::SocketAddress;
use crate::control::{ControlView, TcpOptions, TcpSocketControl, MAX_TCP_RECV_BUFFER_SIZE};
use crate::ring::ring_new;
use crate::stack::{
    socket_listen, socket_new, socket_set_keep_alive, socket_set_timeout, socket_view, spec_endpoint,
    SocketView, TcpState,
};
use smoltcp::socket::TcpSocket;
use vstd::prelude::*;

verus! {

/// After two hours without a segment from the remote end a flow is aborted.
/// In microseconds.
pub const TCP_IDLE_TIMEOUT_MICROS: u64 = 7_200_000_000;

/// A flow that was just admitted: its socket, listening in the stack's
/// place for the rest of the handshake, and its control block.
pub struct AcceptedFlow {
    pub socket: TcpSocket<'static>,
    pub control: TcpSocketControl,
}

/// Why an intercepted segment could not open a flow.
#[derive(Clone, Copy, Debug, PartialEq, Eq, Structural)]
pub enum AcceptError {
    /// The destination cannot be listened on: its port is zero.
    Unaddressable,
}

impl AcceptError {
    /// The error in words.
    pub fn message(&self) -> (text: &'static str)
        ensures
            text@ == "unaddressable destination"@,
    {
        "unaddressable destination"
    }
}

/// The TCP front end of a tunnel.
pub struct TcpTun {
    accept_opts: TcpOptions,
    mtu: u32,
}

impl TcpTun {
    /// The options under which flows are accepted.
    pub closed spec fn spec_accept_opts(&self) -> TcpOptions {
        self.accept_opts
    }

    pub closed spec fn spec_mtu(&self) -> u32 {
        self.mtu
    }

    /// The stack can make a socket for the configured receive size.
    pub open spec fn wf(&self) -> bool {
        self.spec_accept_opts().spec_recv_size() <= MAX_TCP_RECV_BUFFER_SIZE
    }

    /// The socket that a first handshake segment for `dst_addr` is answered
    /// with: listening on that address, with empty buffers of the
    /// configured sizes, the configured keep-alive and the idle timeout.
    pub open spec fn listener(&self, dst_addr: SocketAddress) -> SocketView {
        SocketView {
            state: TcpState::Listen,
            rx: Seq::empty(),
            rx_capacity: self.spec_accept_opts().spec_recv_size() as nat,
            tx: Seq::empty(),
            tx_capacity: self.spec_accept_opts().spec_send_size() as nat,
            keep_alive: self.spec_accept_opts().keepalive_micros,
            timeout: Some(TCP_IDLE_TIMEOUT_MICROS),
            local: Some(spec_endpoint(dst_addr)),
        }
    }

    /// A front end that accepts flows under `accept_opts`, on a device with
    /// the given MTU.
    pub fn new(accept_opts: TcpOptions, mtu: u32) -> (tun: TcpTun)
        requires
            accept_opts.spec_recv_size() <= MAX_TCP_RECV_BUFFER_SIZE,
        ensures
            tun.wf(),
            tun.spec_accept_opts() == accept_opts,
            tun.spec_mtu() == mtu,
    {
        TcpTun { accept_opts, mtu }
    }

    #[verifier::when_used_as_spec(spec_mtu)]
    pub fn mtu(&self) -> (mtu: u32)
        ensures
            mtu == self.spec_mtu(),
    {
        self.mtu
    }

    #[verifier::when_used_as_spec(spec_accept_opts)]
    pub fn accept_opts(&self) -> (opts: TcpOptions)
        ensures
            opts == self.spec_accept_opts(),
    {
        self.accept_opts
    }

    /// Looks at an intercepted TCP segment bound for `dst_addr`, of which
    /// `syn` and `ack` are the flags.
    ///
    /// A segment with SYN set and ACK clear opens a flow, unless its
    /// destination port is zero, which the stack cannot listen on.  Any
    /// other segment opens nothing: it belongs to a flow that the stack
    /// knows, or to none.
    pub fn handle_packet(&self, dst_addr: SocketAddress, syn: bool, ack: bool) -> (result: Result<
        Option<AcceptedFlow>,
        AcceptError,
    >)
        requires
            self.wf(),
        ensures
            !(syn && !ack) ==> result == Ok::<Option<AcceptedFlow>, AcceptError>(None),
            syn && !ack && dst_addr.spec_port() == 0 ==> result == Err::<
                Option<AcceptedFlow>,
                AcceptError,
            >(AcceptError::Unaddressable),
            syn && !ack && dst_addr.spec_port() != 0 ==> {
                &&& result matches Ok(Some(flow))
                &&& socket_view(flow.socket) == self.listener(dst_addr)
                &&& flow.control.wf()
                &&& flow.control@ == ControlView::fresh(
                    self.spec_accept_opts().spec_send_size() as nat,
                    self.spec_accept_opts().spec_recv_size() as nat,
                )
            },
    {
        if !(syn && !ack) {
            return Ok(None);
        }
        let send_buffer_size = self.accept_opts.send_size();
        let recv_buffer_size = self.accept_opts.recv_size();

        let mut socket = socket_new(
            ring_new(vec![0u8; recv_buffer_size as usize]),
            ring_new(vec![0u8; send_buffer_size as usize]),
        );
        match socket_listen(&mut socket, dst_addr) {
            Ok(()) => {},
            Err(_) => {
                return Err(AcceptError::Unaddressable);
            },
        }
        socket_set_keep_alive(&mut socket, self.accept_opts.keepalive_micros);
        socket_set_timeout(&mut socket, Some(TCP_IDLE_TIMEOUT_MICROS));

        let control = TcpSocketControl::new(&self.accept_opts);
        Ok(Some(AcceptedFlow { socket, control }))
    }
}

} // verus!
