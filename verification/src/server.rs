//! Isolation between concurrently live connections.
//!
//! At any instant, the live connections form a table from a connection's
//! identity to its [`ConnView`]. Each handler owns its connection outright,
//! so an event on one connection steps exactly one entry of that table.
//! The lemma here makes the isolation explicit: a step of one connection
//! leaves every other connection's entire state — its phase and both of its
//! byte histories — untouched, and neither enables nor disables any event
//! on it.

use vstd::prelude::*;

use crate::conn::ConnEvent;
use crate::conn::ConnView;
use crate::conn::conn_enabled;
use crate::conn::conn_step;

verus! {

/// The live connections, each under its identity, after an event on the
/// connection `id`: only that connection's entry moves.
pub open spec fn conns_step(
    conns: Map<int, ConnView>,
    id: int,
    e: ConnEvent,
) -> Map<int, ConnView> {
    conns.insert(id, conn_step(conns[id], e))
}

/// Connection isolation: whatever happens on connection `a` — data arriving,
/// an orderly close, a read or write failure — connection `b`'s state is
/// unchanged: no byte sent on `a` enters `b`'s histories, and every event
/// that was possible on `b` remains exactly as possible.
pub proof fn lemma_connection_isolation(
    conns: Map<int, ConnView>,
    a: int,
    b: int,
    e: ConnEvent,
)
    requires
        a != b,
        conns.dom().contains(b),
    ensures
        conns_step(conns, a, e).dom().contains(b),
        conns_step(conns, a, e)[b] == conns[b],
        forall|e2: ConnEvent|
            conn_enabled(#[trigger] conns_step(conns, a, e)[b], e2) == conn_enabled(
                conns[b],
                e2,
            ),
{
}

} // verus!
