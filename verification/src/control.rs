//! The control block of one tunnelled TCP flow.
//!
//! A control block sits between the task that reads and writes a flow and
//! the poller that drives the TCP/IP stack.  It holds two octet rings, one
//! per direction, at most one suspended waker per direction, and a closed
//! flag that is never cleared once set.

use crate::ring::{
    free_space, min_len, ring_capacity, ring_contents, ring_dequeue_slice, ring_enqueue_slice,
    ring_is_empty, ring_is_full, ring_new,
};
use crate::waker::{register, wake};
use smoltcp::storage::RingBuffer;
use std::task::Waker;
use vstd::prelude::*;

verus! {

/// Octets a flow may hold on their way to the stack, unless configured.
pub const DEFAULT_TCP_SEND_BUFFER_SIZE: u32 = 16384;

/// Octets a flow may hold on their way to the reader, unless configured.
pub const DEFAULT_TCP_RECV_BUFFER_SIZE: u32 = 87380;

/// The stack refuses a receive buffer above one GiB.
pub const MAX_TCP_RECV_BUFFER_SIZE: u32 = 0x4000_0000;

/// What a deployment may set for the flows it accepts.
#[derive(Clone, Copy, Debug, PartialEq, Eq, Structural)]
pub struct TcpOptions {
    pub send_buffer_size: Option<u32>,
    pub recv_buffer_size: Option<u32>,
    /// Keep-alive interval, in microseconds.
    pub keepalive_micros: Option<u64>,
}

impl TcpOptions {
    pub open spec fn spec_send_size(&self) -> u32 {
        match self.send_buffer_size {
            Some(size) => size,
            None => DEFAULT_TCP_SEND_BUFFER_SIZE,
        }
    }

    pub open spec fn spec_recv_size(&self) -> u32 {
        match self.recv_buffer_size {
            Some(size) => size,
            None => DEFAULT_TCP_RECV_BUFFER_SIZE,
        }
    }

    /// The send ring's size: what is configured, else the default.
    #[verifier::when_used_as_spec(spec_send_size)]
    pub fn send_size(&self) -> (size: u32)
        ensures
            size == self.spec_send_size(),
    {
        match self.send_buffer_size {
            Some(size) => size,
            None => DEFAULT_TCP_SEND_BUFFER_SIZE,
        }
    }

    /// The receive ring's size: what is configured, else the default.
    #[verifier::when_used_as_spec(spec_recv_size)]
    pub fn recv_size(&self) -> (size: u32)
        ensures
            size == self.spec_recv_size(),
    {
        match self.recv_buffer_size {
            Some(size) => size,
            None => DEFAULT_TCP_RECV_BUFFER_SIZE,
        }
    }
}

/// How a read on a flow ended.
#[derive(Clone, Copy, Debug, PartialEq, Eq, Structural)]
pub enum ReadPoll {
    /// The flow is closed: end of stream, nothing was read.
    Eof,
    /// Nothing to read yet: the caller's waker was registered.
    Pending,
    /// That many octets were moved to the front of the destination.
    Ready(usize),
}

/// How a write on a flow ended.
#[derive(Clone, Copy, Debug, PartialEq, Eq, Structural)]
pub enum WritePoll {
    /// The flow is closed: nothing was taken.
    BrokenPipe,
    /// The send ring is full: the caller's waker was registered.
    Pending,
    /// That many octets from the front of the source were taken.
    Ready(usize),
}

/// How a shutdown of a flow ended.
#[derive(Clone, Copy, Debug, PartialEq, Eq, Structural)]
pub enum ShutdownPoll {
    /// The flow was closed already.
    Done,
    /// The flow is closed now; the caller waits for the poller to tear it down.
    Pending,
}

impl ReadPoll {
    /// The number of octets handed to the reader.
    pub open spec fn spec_bytes(&self) -> nat {
        match *self {
            ReadPoll::Ready(n) => n as nat,
            _ => 0,
        }
    }

    /// Whether the poller must be notified: a read that took octets out of
    /// the ring made room that the poller can fill.
    pub open spec fn spec_notifies_poller(&self) -> bool {
        *self is Ready
    }

    #[verifier::when_used_as_spec(spec_notifies_poller)]
    pub fn notifies_poller(&self) -> (notify: bool)
        ensures
            notify == self.spec_notifies_poller(),
    {
        match self {
            ReadPoll::Ready(_) => true,
            _ => false,
        }
    }
}

impl WritePoll {
    /// The number of octets taken from the writer.
    pub open spec fn spec_bytes(&self) -> nat {
        match *self {
            WritePoll::Ready(n) => n as nat,
            _ => 0,
        }
    }

    /// Whether the poller must be notified: a write that put octets into
    /// the ring gave the poller work.
    pub open spec fn spec_notifies_poller(&self) -> bool {
        *self is Ready
    }

    #[verifier::when_used_as_spec(spec_notifies_poller)]
    pub fn notifies_poller(&self) -> (notify: bool)
        ensures
            notify == self.spec_notifies_poller(),
    {
        match self {
            WritePoll::Ready(_) => true,
            _ => false,
        }
    }
}

/// The state of a control block, as contracts see it.
pub struct ControlView {
    /// Octets written by the user and not yet handed to the stack, oldest first.
    pub send: Seq<u8>,
    pub send_capacity: nat,
    pub send_waker: Option<Waker>,
    /// Octets received from the stack and not yet read by the user, oldest first.
    pub recv: Seq<u8>,
    pub recv_capacity: nat,
    pub recv_waker: Option<Waker>,
    pub is_closed: bool,
}

impl ControlView {
    /// Neither ring holds more than its capacity.
    pub open spec fn wf(self) -> bool {
        &&& self.send.len() <= self.send_capacity
        &&& self.recv.len() <= self.recv_capacity
    }

    /// What every operation keeps between the state `before` it and the
    /// state after it: the capacities stay, and a closed flow stays closed.
    pub open spec fn follows(self, before: ControlView) -> bool {
        &&& self.send_capacity == before.send_capacity
        &&& self.recv_capacity == before.recv_capacity
        &&& before.is_closed ==> self.is_closed
    }

    /// A new control block with rings of the given sizes.
    pub open spec fn fresh(send_size: nat, recv_size: nat) -> ControlView {
        ControlView {
            send: Seq::empty(),
            send_capacity: send_size,
            send_waker: None,
            recv: Seq::empty(),
            recv_capacity: recv_size,
            recv_waker: None,
            is_closed: false,
        }
    }

    /// The number of octets that a read into a destination with `room`
    /// octets hands over: the oldest ones, as many as there is room for,
    /// and none from a closed flow.
    pub open spec fn read_len(self, room: nat) -> nat {
        if self.is_closed {
            0
        } else {
            min_len(room, self.recv.len())
        }
    }

    /// The result of a read into a destination with `room` octets.
    pub open spec fn read_result(self, room: nat) -> ReadPoll {
        if self.is_closed {
            ReadPoll::Eof
        } else if self.recv.len() == 0 {
            ReadPoll::Pending
        } else {
            ReadPoll::Ready(self.read_len(room) as usize)
        }
    }

    /// The state after a read into a destination with `room` octets, where
    /// `registered` is what the receive slot holds afterwards.
    pub open spec fn after_read(self, room: nat, registered: Option<Waker>) -> ControlView {
        if self.is_closed {
            self
        } else if self.recv.len() == 0 {
            ControlView { recv_waker: registered, ..self }
        } else {
            ControlView { recv: self.recv.skip(self.read_len(room) as int), ..self }
        }
    }

    /// The number of octets that a write of a source of `len` octets takes:
    /// as many as the send ring has room for, and none on a closed flow.
    pub open spec fn write_len(self, len: nat) -> nat {
        if self.is_closed {
            0
        } else {
            min_len(len, free_space(self.send_capacity, self.send.len()))
        }
    }

    /// The result of a write of a source of `len` octets.
    pub open spec fn write_result(self, len: nat) -> WritePoll {
        if self.is_closed {
            WritePoll::BrokenPipe
        } else if self.send.len() >= self.send_capacity {
            WritePoll::Pending
        } else {
            WritePoll::Ready(self.write_len(len) as usize)
        }
    }

    /// The state after a write of `src`, where `registered` is what the send
    /// slot holds afterwards.
    pub open spec fn after_write(self, src: Seq<u8>, registered: Option<Waker>) -> ControlView {
        if self.is_closed {
            self
        } else if self.send.len() >= self.send_capacity {
            ControlView { send_waker: registered, ..self }
        } else {
            ControlView {
                send: self.send + src.subrange(0, self.write_len(src.len()) as int),
                ..self
            }
        }
    }

    /// The state after a shutdown, where `registered` is what the send slot
    /// holds afterwards.
    pub open spec fn after_shutdown(self, registered: Option<Waker>) -> ControlView {
        if self.is_closed {
            self
        } else {
            ControlView { is_closed: true, send_waker: registered, ..self }
        }
    }

    /// The state after the poller has torn the flow down: closed, with both
    /// slots emptied.
    pub open spec fn torn_down(self) -> ControlView {
        ControlView { is_closed: true, send_waker: None, recv_waker: None, ..self }
    }
}

/// The control block of one flow.
pub struct TcpSocketControl {
    send_buffer: RingBuffer<'static, u8>,
    send_waker: Option<Waker>,
    recv_buffer: RingBuffer<'static, u8>,
    recv_waker: Option<Waker>,
    is_closed: bool,
}

impl View for TcpSocketControl {
    type V = ControlView;

    closed spec fn view(&self) -> ControlView {
        ControlView {
            send: ring_contents(self.send_buffer),
            send_capacity: ring_capacity(self.send_buffer),
            send_waker: self.send_waker,
            recv: ring_contents(self.recv_buffer),
            recv_capacity: ring_capacity(self.recv_buffer),
            recv_waker: self.recv_waker,
            is_closed: self.is_closed,
        }
    }
}

impl TcpSocketControl {
    /// Neither ring holds more than its capacity.
    pub open spec fn wf(&self) -> bool {
        self@.wf()
    }

    /// A control block for a flow accepted under `tcp_opts`: open, with
    /// empty rings of the configured sizes and no waker waiting.
    pub fn new(tcp_opts: &TcpOptions) -> (control: TcpSocketControl)
        ensures
            control.wf(),
            control@ == ControlView::fresh(
                tcp_opts.spec_send_size() as nat,
                tcp_opts.spec_recv_size() as nat,
            ),
    {
        let send_buffer_size = tcp_opts.send_size();
        let recv_buffer_size = tcp_opts.recv_size();
        TcpSocketControl {
            send_buffer: ring_new(vec![0u8; send_buffer_size as usize]),
            send_waker: None,
            recv_buffer: ring_new(vec![0u8; recv_buffer_size as usize]),
            recv_waker: None,
            is_closed: false,
        }
    }

    pub fn is_closed(&self) -> (closed: bool)
        ensures
            closed == self@.is_closed,
    {
        self.is_closed
    }

    /// Whether a writer, or a shutdown, waits to be woken.
    pub fn has_send_waker(&self) -> (waiting: bool)
        ensures
            waiting == self@.send_waker.is_some(),
    {
        self.send_waker.is_some()
    }

    /// Whether a reader waits to be woken.
    pub fn has_recv_waker(&self) -> (waiting: bool)
        ensures
            waiting == self@.recv_waker.is_some(),
    {
        self.recv_waker.is_some()
    }

    /// Reads from the flow into `dst`.
    ///
    /// On a closed flow this is the end of the stream and changes nothing.
    /// With nothing buffered, the task of `waker` is registered to be woken
    /// and the read is pending.  Otherwise the oldest octets, as many as
    /// `dst` has room for, move to the front of `dst`.
    pub fn poll_read(&mut self, waker: &Waker, dst: &mut [u8]) -> (result: ReadPoll)
        requires
            old(self).wf(),
        ensures
            final(self).wf(),
            final(self)@.follows(old(self)@),
            result == old(self)@.read_result(old(dst)@.len()),
            final(self)@ == old(self)@.after_read(old(dst)@.len(), final(self)@.recv_waker),
            result is Pending ==> final(self)@.recv_waker.is_some(),
            final(dst)@ == old(self)@.recv.subrange(0, result.spec_bytes() as int) + old(dst)@.skip(
                result.spec_bytes() as int,
            ),
    {
        if self.is_closed {
            assert(old(dst)@.skip(0) =~= old(dst)@);
            assert(old(self)@.recv.subrange(0, 0) + old(dst)@ =~= old(dst)@);
            return ReadPoll::Eof;
        }
        if ring_is_empty(&self.recv_buffer) {
            register(&mut self.recv_waker, waker);
            assert(old(dst)@.skip(0) =~= old(dst)@);
            assert(old(self)@.recv.subrange(0, 0) + old(dst)@ =~= old(dst)@);
            return ReadPoll::Pending;
        }
        let n = ring_dequeue_slice(&mut self.recv_buffer, dst);
        ReadPoll::Ready(n)
    }

    /// Writes `src` to the flow.
    ///
    /// On a closed flow this fails and changes nothing.  With a full send
    /// ring, the task of `waker` is registered to be woken and the write is
    /// pending.  Otherwise as long a prefix of `src` as fits is appended to
    /// what waits for the stack.
    pub fn poll_write(&mut self, waker: &Waker, src: &[u8]) -> (result: WritePoll)
        requires
            old(self).wf(),
        ensures
            final(self).wf(),
            final(self)@.follows(old(self)@),
            result == old(self)@.write_result(src@.len()),
            final(self)@ == old(self)@.after_write(src@, final(self)@.send_waker),
            result is Pending ==> final(self)@.send_waker.is_some(),
            final(self)@.send == old(self)@.send + src@.subrange(0, result.spec_bytes() as int),
    {
        if self.is_closed {
            assert(old(self)@.send + src@.subrange(0, 0) =~= old(self)@.send);
            return WritePoll::BrokenPipe;
        }
        if ring_is_full(&self.send_buffer) {
            register(&mut self.send_waker, waker);
            assert(old(self)@.send + src@.subrange(0, 0) =~= old(self)@.send);
            return WritePoll::Pending;
        }
        let n = ring_enqueue_slice(&mut self.send_buffer, src);
        WritePoll::Ready(n)
    }

    /// Flushes the flow: there is nothing to flush, since nothing is held
    /// back outside the send ring.
    pub fn poll_flush(&self) -> (done: bool)
        ensures
            done,
    {
        true
    }

    /// Shuts the flow down.
    ///
    /// A closed flow is done.  An open one is closed now, and the task of
    /// `waker` is registered in the send slot, to be woken when the poller
    /// has torn the flow down.
    pub fn poll_shutdown(&mut self, waker: &Waker) -> (result: ShutdownPoll)
        requires
            old(self).wf(),
        ensures
            final(self).wf(),
            final(self)@.follows(old(self)@),
            final(self)@.is_closed,
            result == if old(self)@.is_closed {
                ShutdownPoll::Done
            } else {
                ShutdownPoll::Pending
            },
            final(self)@ == old(self)@.after_shutdown(final(self)@.send_waker),
            result is Pending ==> final(self)@.send_waker.is_some(),
    {
        if self.is_closed {
            return ShutdownPoll::Done;
        }
        self.is_closed = true;
        register(&mut self.send_waker, waker);
        ShutdownPoll::Pending
    }

    /// Marks the flow closed when its user lets go of it.  Nobody is woken:
    /// the poller finds the flag on its next round.
    pub fn abandon(&mut self)
        requires
            old(self).wf(),
        ensures
            final(self).wf(),
            final(self)@.follows(old(self)@),
            final(self)@ == (ControlView { is_closed: true, ..old(self)@ }),
    {
        self.is_closed = true;
    }

    /// Tears the flow down on behalf of the poller: the flow is closed and
    /// whoever waits on either slot is woken.
    pub fn close(&mut self)
        requires
            old(self).wf(),
        ensures
            final(self).wf(),
            final(self)@.follows(old(self)@),
            final(self)@ == old(self)@.torn_down(),
    {
        self.is_closed = true;
        wake(&mut self.send_waker);
        wake(&mut self.recv_waker);
    }

    /// Wakes the reader, if one waits.
    pub(crate) fn wake_reader(&mut self)
        requires
            old(self).wf(),
        ensures
            final(self)@ == (ControlView { recv_waker: None, ..old(self)@ }),
    {
        wake(&mut self.recv_waker);
    }

    /// Wakes the writer, if one waits.
    pub(crate) fn wake_writer(&mut self)
        requires
            old(self).wf(),
        ensures
            final(self)@ == (ControlView { send_waker: None, ..old(self)@ }),
    {
        wake(&mut self.send_waker);
    }

    /// Whether the receive ring has no room left.
    pub(crate) fn recv_is_full(&self) -> (full: bool)
        requires
            self.wf(),
        ensures
            full == (self@.recv.len() == self@.recv_capacity),
    {
        ring_is_full(&self.recv_buffer)
    }

    /// Whether nothing waits for the stack.
    pub(crate) fn send_is_empty(&self) -> (empty: bool)
        ensures
            empty == (self@.send.len() == 0),
    {
        ring_is_empty(&self.send_buffer)
    }

    /// Takes octets that the stack received: as long a prefix of `data` as
    /// the receive ring has room for is appended to it.
    pub(crate) fn accept_from_stack(&mut self, data: &[u8]) -> (n: usize)
        requires
            old(self).wf(),
        ensures
            final(self).wf(),
            n == min_len(
                data@.len(),
                free_space(old(self)@.recv_capacity, old(self)@.recv.len()),
            ),
            final(self)@ == (ControlView {
                recv: old(self)@.recv + data@.subrange(0, n as int),
                ..old(self)@
            }),
    {
        ring_enqueue_slice(&mut self.recv_buffer, data)
    }

    /// Hands octets to the stack: the oldest octets of the send ring, as
    /// many as `buffer` has room for, move to the front of `buffer`.
    pub(crate) fn drain_to_stack(&mut self, buffer: &mut [u8]) -> (n: usize)
        requires
            old(self).wf(),
        ensures
            final(self).wf(),
            n == min_len(old(buffer)@.len(), old(self)@.send.len()),
            final(buffer)@ == old(self)@.send.subrange(0, n as int) + old(buffer)@.skip(n as int),
            final(self)@ == (ControlView { send: old(self)@.send.skip(n as int), ..old(self)@ }),
    {
        ring_dequeue_slice(&mut self.send_buffer, buffer)
    }
}

/// A flow never holds more octets than its two rings were made for.
pub proof fn lemma_buffered_octets_bounded(control: TcpSocketControl)
    requires
        control.wf(),
    ensures
        control@.send.len() + control@.recv.len() <= control@.send_capacity
            + control@.recv_capacity,
{
}

/// A closed flow is inert: a read is the end of the stream, a write is a
/// broken pipe, a shutdown is done, and none of them changes anything.
pub proof fn lemma_closed_flow_is_inert(
    control: ControlView,
    room: nat,
    src: Seq<u8>,
    registered: Option<Waker>,
)
    requires
        control.is_closed,
    ensures
        control.read_result(room) == ReadPoll::Eof,
        control.after_read(room, registered) == control,
        control.write_result(src.len()) == WritePoll::BrokenPipe,
        control.after_write(src, registered) == control,
        control.after_shutdown(registered) == control,
{
}

/// No operation of a reader or writer reopens a flow or resizes its rings,
/// and each keeps the rings within their capacities.
pub proof fn lemma_operations_follow(
    control: ControlView,
    room: nat,
    src: Seq<u8>,
    registered: Option<Waker>,
)
    requires
        control.wf(),
    ensures
        control.after_read(room, registered).follows(control),
        control.after_read(room, registered).wf(),
        control.after_write(src, registered).follows(control),
        control.after_write(src, registered).wf(),
        control.after_shutdown(registered).follows(control),
        control.after_shutdown(registered).wf(),
        control.after_shutdown(registered).is_closed,
        control.torn_down().follows(control),
        control.torn_down().wf(),
        control.torn_down().is_closed,
{
}

/// Closure is monotone over any two steps: if each state follows the one
/// before it, the last follows the first.
pub proof fn lemma_follows_is_transitive(a: ControlView, b: ControlView, c: ControlView)
    requires
        b.follows(a),
        c.follows(b),
    ensures
        c.follows(a),
{
}

} // verus!
