//! The life of a flow as a sequence of steps, and what holds of every such
//! life: the flow is a faithful pipe in both directions.
//!
//! Everything here is specification and proof; nothing is executed.

use crate::control::ControlView;
use crate::manager::{lemma_service_keeps_streams, serviced_control, serviced_socket};
use crate::ring::min_len;
use crate::stack::{SocketView, TcpState};
use std::task::Waker;
use vstd::prelude::*;

verus! {

/// One thing that happens to a flow.
pub enum FlowStep {
    /// The user writes `src`; `registered` is what the send slot holds
    /// afterwards if the write suspends.
    Write { src: Seq<u8>, registered: Option<Waker> },
    /// The user reads into a destination with `room` octets; `registered`
    /// is what the receive slot holds afterwards if the read suspends.
    Read { room: nat, registered: Option<Waker> },
    /// The user shuts the flow down.
    Shutdown { registered: Option<Waker> },
    /// The user lets go of the flow.
    Abandon,
    /// The poller visits the flow.
    Visit,
    /// The stack does its own work: the remote end has acknowledged the
    /// `acknowledged` oldest queued octets, or all if there are fewer;
    /// `arrived` has come in from the remote end; and the state machine
    /// has moved to `state`.
    Stack { acknowledged: nat, arrived: Seq<u8>, state: TcpState },
}

/// A flow together with the record of what has passed through it.
pub struct FlowTrace {
    pub socket: SocketView,
    pub control: ControlView,
    /// The octets that writes have taken, in the order of the writes.
    pub written: Seq<u8>,
    /// The octets that the remote end has acknowledged, in order.
    pub delivered: Seq<u8>,
    /// The octets that have come in from the remote end, in order.
    pub arrived: Seq<u8>,
    /// The octets that reads have handed over, in the order of the reads.
    pub read: Seq<u8>,
}

impl FlowTrace {
    /// The record agrees with the flow: what was written is what was
    /// delivered followed by what still waits, first in the socket, then in
    /// the send ring; what has arrived is what was read followed by what
    /// still waits, first in the receive ring, then in the socket.
    pub open spec fn faithful(self) -> bool {
        &&& self.control.wf()
        &&& self.delivered + self.socket.tx + self.control.send == self.written
        &&& self.read + self.control.recv + self.socket.rx == self.arrived
    }

    /// The trace after one step.
    pub open spec fn step(self, step: FlowStep) -> FlowTrace {
        match step {
            FlowStep::Write { src, registered } => FlowTrace {
                control: self.control.after_write(src, registered),
                written: self.written + src.subrange(0, self.control.write_len(src.len()) as int),
                ..self
            },
            FlowStep::Read { room, registered } => FlowTrace {
                control: self.control.after_read(room, registered),
                read: self.read + self.control.recv.subrange(
                    0,
                    self.control.read_len(room) as int,
                ),
                ..self
            },
            FlowStep::Shutdown { registered } => FlowTrace {
                control: self.control.after_shutdown(registered),
                ..self
            },
            FlowStep::Abandon => FlowTrace {
                control: ControlView { is_closed: true, ..self.control },
                ..self
            },
            FlowStep::Visit => FlowTrace {
                socket: serviced_socket(self.socket, self.control),
                control: serviced_control(self.socket, self.control),
                ..self
            },
            FlowStep::Stack { acknowledged, arrived, state } => FlowTrace {
                socket: SocketView {
                    state,
                    tx: self.socket.tx.skip(min_len(acknowledged, self.socket.tx.len()) as int),
                    rx: self.socket.rx + arrived,
                    ..self.socket
                },
                delivered: self.delivered + self.socket.tx.subrange(
                    0,
                    min_len(acknowledged, self.socket.tx.len()) as int,
                ),
                arrived: self.arrived + arrived,
                ..self
            },
        }
    }

    /// The trace after the given steps, taken in order.
    pub open spec fn run(self, steps: Seq<FlowStep>) -> FlowTrace
        decreases steps.len(),
    {
        if steps.len() == 0 {
            self
        } else {
            self.run(steps.drop_last()).step(steps.last())
        }
    }
}

/// No step loses, adds or reorders an octet, reopens a closed flow or
/// resizes a ring.
pub proof fn lemma_step_is_faithful(trace: FlowTrace, step: FlowStep)
    requires
        trace.faithful(),
    ensures
        trace.step(step).faithful(),
        trace.step(step).control.follows(trace.control),
{
    let next = trace.step(step);
    match step {
        FlowStep::Write { src, registered } => {
            let taken = src.subrange(0, trace.control.write_len(src.len()) as int);
            assert(next.control.send =~= trace.control.send + taken);
            assert(next.delivered + next.socket.tx + next.control.send =~= trace.delivered
                + trace.socket.tx + trace.control.send + taken);
        },
        FlowStep::Read { room, registered } => {
            let n = trace.control.read_len(room) as int;
            assert(trace.control.recv.subrange(0, n) + next.control.recv =~= trace.control.recv);
            assert(next.read + next.control.recv + next.socket.rx =~= trace.read
                + trace.control.recv + trace.socket.rx);
        },
        FlowStep::Shutdown { registered } => {},
        FlowStep::Abandon => {},
        FlowStep::Visit => {
            lemma_service_keeps_streams(trace.socket, trace.control);
            assert(next.delivered + next.socket.tx + next.control.send =~= trace.delivered + (
            trace.socket.tx + trace.control.send));
            assert(next.read + next.control.recv + next.socket.rx =~= trace.read + (
            trace.control.recv + trace.socket.rx));
            assert(trace.delivered + (trace.socket.tx + trace.control.send) =~= trace.delivered
                + trace.socket.tx + trace.control.send);
            assert(trace.read + (trace.control.recv + trace.socket.rx) =~= trace.read
                + trace.control.recv + trace.socket.rx);
        },
        FlowStep::Stack { acknowledged, arrived, state } => {
            let n = min_len(acknowledged, trace.socket.tx.len()) as int;
            assert(trace.socket.tx.subrange(0, n) + trace.socket.tx.skip(n) =~= trace.socket.tx);
            assert(next.delivered + next.socket.tx + next.control.send =~= trace.delivered
                + trace.socket.tx + trace.control.send);
            assert(next.read + next.control.recv + next.socket.rx =~= trace.read
                + trace.control.recv + trace.socket.rx + arrived);
        },
    }
}

/// A flow is a faithful pipe, whatever happens to it and in whatever order.
///
/// After any steps, the octets that writes have taken are, in order, those
/// that the remote end has acknowledged followed by those that still wait
/// in the socket and in the send ring; and the octets that have arrived
/// from the remote end are, in order, those that reads have handed over
/// followed by those that still wait in the receive ring and in the socket.
/// Neither ring has outgrown its capacity, the capacities are what they
/// were, and a flow that was closed is closed.
pub proof fn lemma_run_is_faithful(trace: FlowTrace, steps: Seq<FlowStep>)
    requires
        trace.faithful(),
    ensures
        trace.run(steps).faithful(),
        trace.run(steps).control.follows(trace.control),
    decreases steps.len(),
{
    if steps.len() > 0 {
        lemma_run_is_faithful(trace, steps.drop_last());
        lemma_step_is_faithful(trace.run(steps.drop_last()), steps.last());
    }
}

/// A flow that has just been opened, with nothing in its socket and
/// nothing on record, is faithful.
pub proof fn lemma_new_flow_is_faithful(socket: SocketView, send_size: nat, recv_size: nat)
    requires
        socket.tx.len() == 0,
        socket.rx.len() == 0,
    ensures
        (FlowTrace {
            socket,
            control: ControlView::fresh(send_size, recv_size),
            written: Seq::empty(),
            delivered: Seq::empty(),
            arrived: Seq::empty(),
            read: Seq::empty(),
        }).faithful(),
{
    let control = ControlView::fresh(send_size, recv_size);
    assert(Seq::<u8>::empty() + socket.tx + control.send =~= Seq::<u8>::empty());
    assert(Seq::<u8>::empty() + control.recv + socket.rx =~= Seq::<u8>::empty());
}

} // verus!
