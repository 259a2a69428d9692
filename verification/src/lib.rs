//! A user-space TCP connection core: the per-connection state machine,
//! sequence arithmetic, timers and the signal types that bind the machine
//! to the surrounding IP layer.
//!
//! The stack never allocates: buffers are supplied by the caller and the
//! machine is driven as a Mealy machine, one handler call at a time.

use vstd::prelude::*;

pub mod connection;
pub mod endpoint;
pub mod laws;
pub mod phantom_btree;
pub mod seqnum;
pub mod storage;
pub mod time;
pub mod wire;

verus! {

/// Errors surfaced at the core boundary.
#[derive(Clone, Copy, Debug, PartialEq, Eq, Structural)]
pub enum Error {
    /// Routing failed; surfaced up from the IP layer.
    Unreachable,
    /// A protocol violation by the caller, such as opening a connection
    /// that is neither closed nor listening.
    Illegal,
    /// No free slot or ephemeral port was available.
    Exhausted,
}

} // verus!
