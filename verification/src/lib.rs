//! A verified model of a concurrent TCP echo server.
//!
//! The library captures the decision logic of the server as two state
//! machines with proved contracts: an acceptor that hands out new
//! connections until a shutdown signal arrives, and a per-connection
//! handler that echoes every byte it reads back to its peer. The
//! surrounding runtime (sockets, tasks, signals, logging) performs the
//! actions these machines choose and feeds the outcomes back in.

pub mod acceptor;
pub mod conn;
pub mod server;

use vstd::prelude::*;

verus! {

/// Capacity, in bytes, of the scratch buffer a connection driver reads into.
pub const BUF_CAPACITY: usize = 1024;

} // verus!
