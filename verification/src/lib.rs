//! Data-plane core of a transparent tunnel: the decisions that splice
//! intercepted TCP flows and UDP datagrams onto an upstream relay.
//!
//! The crate holds no I/O and no tasks.  A runtime shell feeds it frames,
//! wakers and datagrams and carries out what it decides.

pub mod addr;
pub mod ring;
pub mod waker;
pub mod control;
pub mod stack;
pub mod manager;
pub mod stream;
pub mod tcp;
pub mod channel;
pub mod association;
pub mod lru;
pub mod udprelay;
