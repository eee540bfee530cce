//! One UDP association: the state that the tunnel keeps for one client
//! address.

use crate::addr::SocketAddress;
use crate::channel::{queue_bound, queue_new, queue_try_send, task_abort, Admission};
use tokio::sync::mpsc::{Receiver, Sender};
use tokio::task::JoinHandle;
use vstd::prelude::*;

verus! {

/// Payloads that may wait for the worker of one association.  What arrives
/// beyond that is dropped: a stuck upstream costs datagrams, not memory.
pub const ASSOCIATION_QUEUE_BOUND: usize = 128;

/// Why a datagram was not relayed.
#[derive(Clone, Copy, Debug, PartialEq, Eq, Structural)]
pub enum RelayError {
    /// The association's queue did not take the payload.
    ChannelFull,
}

impl RelayError {
    /// The error in words.
    pub fn message(&self) -> (text: &'static str)
        ensures
            text@ == "udp relay channel full"@,
    {
        "udp relay channel full"
    }
}

/// What the front end reports for a payload, given what the queue did with
/// it: a payload that is not in the queue counts as dropped on a full
/// queue, whatever kept it out.
pub open spec fn spec_admission_result(admission: Admission) -> Result<(), RelayError> {
    match admission {
        Admission::Queued => Ok(()),
        Admission::Full => Err(RelayError::ChannelFull),
        Admission::Closed => Err(RelayError::ChannelFull),
    }
}

#[verifier::when_used_as_spec(spec_admission_result)]
pub fn admission_result(admission: Admission) -> (result: Result<(), RelayError>)
    ensures
        result == spec_admission_result(admission),
{
    match admission {
        Admission::Queued => Ok(()),
        Admission::Full => Err(RelayError::ChannelFull),
        Admission::Closed => Err(RelayError::ChannelFull),
    }
}

/// The front end's handle on an association: the sending end of its queue
/// and the task of its worker.  Letting go of the handle cancels the worker.
pub struct UdpAssociation {
    assoc_handle: JoinHandle<()>,
    sender: Sender<Vec<u8>>,
}

impl Drop for UdpAssociation {
    fn drop(&mut self)
        opens_invariants none
        no_unwind
    {
        task_abort(&self.assoc_handle);
    }
}

impl UdpAssociation {
    /// The number of payloads that the association's queue was created to hold.
    pub closed spec fn spec_queue_bound(&self) -> nat {
        queue_bound(self.sender)
    }

    /// The queue is bounded as every association's queue is.
    pub open spec fn wf(&self) -> bool {
        self.spec_queue_bound() == ASSOCIATION_QUEUE_BOUND
    }

    /// Creates an association: a queue with the common bound, and a worker
    /// that `spawn_worker` starts on the queue's receiving end.
    pub fn new<F: FnOnce(Receiver<Vec<u8>>) -> JoinHandle<()>>(spawn_worker: F) -> (assoc:
        UdpAssociation)
        requires
            forall|receiver: Receiver<Vec<u8>>| spawn_worker.requires((receiver,)),
        ensures
            assoc.wf(),
    {
        let (sender, receiver) = queue_new(ASSOCIATION_QUEUE_BOUND);
        let assoc_handle = spawn_worker(receiver);
        UdpAssociation { assoc_handle, sender }
    }

    /// Offers a payload to the worker without waiting.  The payload is
    /// either queued or dropped; which, the queue decides.
    pub fn try_send(&self, data: Vec<u8>) -> (result: Result<(), RelayError>)
        ensures
            result.is_err() ==> result == Err::<(), RelayError>(RelayError::ChannelFull),
    {
        admission_result(queue_try_send(&self.sender, data))
    }
}

/// What a worker does with a payload that it took from its queue.
#[derive(Clone, Copy, Debug, PartialEq, Eq, Structural)]
pub enum SendPlan {
    /// No upstream socket is held: connect one through the relay that the
    /// balancer prefers now, then send on it.
    ConnectThenSend,
    /// Send on the socket that is held.
    Send,
}

/// How long a worker waits for its keep-alive signal to be taken before it
/// gives the signal up, in milliseconds.
pub const KEEP_ALIVE_SEND_TIMEOUT_MILLIS: u64 = 1000;

/// Keep-alive signals that may wait for the front end.
pub const KEEP_ALIVE_QUEUE_BOUND: usize = 64;

/// The worker's side of an association: the client that it serves and the
/// upstream socket that it holds, if any.  `S` is the socket type of the
/// runtime shell; a worker never looks inside it.
pub struct UdpAssociationContext<S> {
    peer_addr: SocketAddress,
    proxied_socket: Option<S>,
}

impl<S> UdpAssociationContext<S> {
    pub closed spec fn spec_peer_addr(&self) -> SocketAddress {
        self.peer_addr
    }

    /// The upstream socket that the worker holds, if any.
    pub closed spec fn spec_socket(&self) -> Option<S> {
        self.proxied_socket
    }

    /// The context of a worker that serves `peer_addr` and holds no
    /// upstream socket yet.
    pub fn new(peer_addr: SocketAddress) -> (context: Self)
        ensures
            context.spec_peer_addr() == peer_addr,
            context.spec_socket().is_none(),
    {
        UdpAssociationContext { peer_addr, proxied_socket: None }
    }

    #[verifier::when_used_as_spec(spec_peer_addr)]
    pub fn peer_addr(&self) -> (peer: SocketAddress)
        ensures
            peer == self.spec_peer_addr(),
    {
        self.peer_addr
    }

    /// The socket to send and to receive on, if one is held.  While none
    /// is held, nothing can arrive from upstream.
    pub fn socket(&self) -> (socket: Option<&S>)
        ensures
            socket.is_some() == self.spec_socket().is_some(),
            socket matches Some(held) ==> self.spec_socket() == Some(*held),
    {
        self.proxied_socket.as_ref()
    }

    /// What to do with a payload taken from the queue.
    pub fn send_plan(&self) -> (plan: SendPlan)
        ensures
            plan == if self.spec_socket().is_some() {
                SendPlan::Send
            } else {
                SendPlan::ConnectThenSend
            },
    {
        if self.proxied_socket.is_some() {
            SendPlan::Send
        } else {
            SendPlan::ConnectThenSend
        }
    }

    /// Takes the socket that was connected for this association.
    pub fn socket_connected(&mut self, socket: S)
        ensures
            final(self).spec_peer_addr() == old(self).spec_peer_addr(),
            final(self).spec_socket() == Some(socket),
    {
        self.proxied_socket = Some(socket);
    }

    /// Records how sending a payload upstream ended.  After a failure the
    /// socket is let go, so that the next payload connects anew, through
    /// whichever relay is preferred by then.
    pub fn send_finished(&mut self, sent: bool)
        ensures
            final(self).spec_peer_addr() == old(self).spec_peer_addr(),
            final(self).spec_socket() == if sent {
                old(self).spec_socket()
            } else {
                None
            },
    {
        if !sent {
            self.proxied_socket = None;
        }
    }

    /// Records how receiving from upstream ended, and names the client to
    /// serve for it.  For a datagram that arrived, that is this worker's
    /// client: its association is to be kept alive, and the datagram goes
    /// back to it.  A failure lets the socket go and serves nobody.
    pub fn receive_finished(&mut self, received: bool) -> (client: Option<SocketAddress>)
        ensures
            final(self).spec_peer_addr() == old(self).spec_peer_addr(),
            final(self).spec_socket() == if received {
                old(self).spec_socket()
            } else {
                None
            },
            client == if received {
                Some(old(self).spec_peer_addr())
            } else {
                None
            },
    {
        if received {
            Some(self.peer_addr)
        } else {
            self.proxied_socket = None;
            None
        }
    }
}

} // verus!
