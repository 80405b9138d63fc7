//! The acceptor and shutdown coordination.
//!
//! An [`Acceptor`] decides, for every outcome of waiting on the listening
//! endpoint, whether to hand the new connection to an independent handler,
//! to absorb a transient accept failure and keep listening, or — once the
//! external termination signal has been seen — to stop accepting for good.
//! The driver owns the socket and the signal; it reports each outcome as an
//! [`AcceptEvent`] and performs the returned [`AcceptAction`].

use vstd::prelude::*;

verus! {

/// Whether the server is still accepting new connections.
#[derive(Clone, Copy, Debug, PartialEq, Eq, Structural)]
pub enum AcceptorPhase {
    /// The accept loop is live: new connections are taken.
    Accepting,
    /// The termination signal was seen: no connection is accepted any more.
    Stopped,
}

/// One outcome of waiting at the listening endpoint.
#[derive(Clone, Copy, Debug, PartialEq, Eq, Structural)]
pub enum AcceptEvent {
    /// A new connection was accepted.
    Connected,
    /// The endpoint reported a (transient) failure while accepting.
    AcceptFailed,
    /// The external termination signal was delivered.
    ShutdownSignal,
}

/// What the driver must do next.
#[derive(Clone, Copy, Debug, PartialEq, Eq, Structural)]
pub enum AcceptAction {
    /// Launch an independent handler for the new connection, do not await
    /// it, and go back to accepting.
    SpawnHandler,
    /// Record the accept failure and go back to accepting.
    ContinueAccepting,
    /// Issue no further accept call.
    StopAccepting,
}

/// The acceptor's abstract state: its phase together with how many
/// connections it has handed out and how many accept failures it has
/// absorbed. The counts exist so that the contracts can say that the
/// acceptor's decisions never depend on them.
pub struct AcceptorView {
    pub phase: AcceptorPhase,
    pub accepted: nat,
    pub failed: nat,
}

/// The state a fresh acceptor starts in.
pub open spec fn accept_init() -> AcceptorView {
    AcceptorView { phase: AcceptorPhase::Accepting, accepted: 0, failed: 0 }
}

/// The successor state after one event.
pub open spec fn accept_step(s: AcceptorView, e: AcceptEvent) -> AcceptorView {
    if s.phase is Stopped {
        s
    } else {
        match e {
            AcceptEvent::Connected => AcceptorView { accepted: s.accepted + 1, ..s },
            AcceptEvent::AcceptFailed => AcceptorView { failed: s.failed + 1, ..s },
            AcceptEvent::ShutdownSignal => AcceptorView { phase: AcceptorPhase::Stopped, ..s },
        }
    }
}

/// The action the driver is told to perform for one event.
pub open spec fn accept_action(s: AcceptorView, e: AcceptEvent) -> AcceptAction {
    if s.phase is Stopped {
        AcceptAction::StopAccepting
    } else {
        match e {
            AcceptEvent::Connected => AcceptAction::SpawnHandler,
            AcceptEvent::AcceptFailed => AcceptAction::ContinueAccepting,
            AcceptEvent::ShutdownSignal => AcceptAction::StopAccepting,
        }
    }
}

/// The state after a whole sequence of events.
pub open spec fn accept_run(s: AcceptorView, evs: Seq<AcceptEvent>) -> AcceptorView
    decreases evs.len(),
{
    if evs.len() == 0 {
        s
    } else {
        accept_run(accept_step(s, evs[0]), evs.skip(1))
    }
}

/// Once stopped, the acceptor never changes again and never spawns: every
/// further event leaves it stopped and is answered with `StopAccepting`.
pub proof fn lemma_stopped_is_absorbing(s: AcceptorView, e: AcceptEvent)
    requires
        s.phase is Stopped,
    ensures
        accept_step(s, e) == s,
        accept_action(s, e) == AcceptAction::StopAccepting,
{
}

/// A stopped acceptor stays exactly as it is over any sequence of events.
pub proof fn lemma_stopped_run(s: AcceptorView, evs: Seq<AcceptEvent>)
    requires
        s.phase is Stopped,
    ensures
        accept_run(s, evs) == s,
    decreases evs.len(),
{
    if evs.len() > 0 {
        lemma_stopped_run(accept_step(s, evs[0]), evs.skip(1));
    }
}

/// Unbounded acceptance: while the acceptor is accepting, a new connection
/// is always handed to a handler and acceptance goes on — whatever the
/// counts of previously accepted connections and absorbed failures, and
/// however many of those connections are still open (no part of the state
/// tracks them).
pub proof fn lemma_unbounded_acceptance(s: AcceptorView)
    requires
        s.phase is Accepting,
    ensures
        accept_action(s, AcceptEvent::Connected) == AcceptAction::SpawnHandler,
        accept_step(s, AcceptEvent::Connected).phase is Accepting,
        accept_step(s, AcceptEvent::Connected).accepted == s.accepted + 1,
{
}

/// Accept-error resilience: an accept failure is absorbed — the acceptor
/// keeps accepting, and the very next connection is handed to a handler
/// like any other.
pub proof fn lemma_accept_error_resilience(s: AcceptorView)
    requires
        s.phase is Accepting,
    ensures
        accept_action(s, AcceptEvent::AcceptFailed) == AcceptAction::ContinueAccepting,
        accept_step(s, AcceptEvent::AcceptFailed).phase is Accepting,
        accept_action(accept_step(s, AcceptEvent::AcceptFailed), AcceptEvent::Connected)
            == AcceptAction::SpawnHandler,
{
}

/// As long as no shutdown signal has arrived, the acceptor is still
/// accepting.
pub proof fn lemma_accepting_until_shutdown(s: AcceptorView, evs: Seq<AcceptEvent>)
    requires
        s.phase is Accepting,
        forall|k: int| 0 <= k < evs.len() ==> evs[k] != AcceptEvent::ShutdownSignal,
    ensures
        accept_run(s, evs).phase is Accepting,
    decreases evs.len(),
{
    if evs.len() > 0 {
        assert(forall|k: int|
            0 <= k < evs.skip(1).len() ==> evs.skip(1)[k] == evs[k + 1]);
        lemma_accepting_until_shutdown(accept_step(s, evs[0]), evs.skip(1));
    }
}

/// Unbounded acceptance over whole histories: at any point of a run in
/// which no shutdown signal has occurred yet, a new connection is handed to
/// a handler, no matter how many connections and failures came before.
pub proof fn lemma_acceptance_before_shutdown(s: AcceptorView, evs: Seq<AcceptEvent>, j: int)
    requires
        s.phase is Accepting,
        0 <= j < evs.len(),
        forall|k: int| 0 <= k < j ==> evs[k] != AcceptEvent::ShutdownSignal,
        evs[j] == AcceptEvent::Connected,
    ensures
        accept_action(accept_run(s, evs.take(j)), evs[j]) == AcceptAction::SpawnHandler,
{
    lemma_accepting_until_shutdown(s, evs.take(j));
}

/// Shutdown precedence: once the termination signal has occurred in a run,
/// the acceptor is stopped at every later point, and no later event — in
/// particular no later inbound connection — is answered with a spawn.
pub proof fn lemma_shutdown_precedence(s: AcceptorView, evs: Seq<AcceptEvent>, i: int, j: int)
    requires
        0 <= i < j < evs.len(),
        evs[i] == AcceptEvent::ShutdownSignal,
    ensures
        accept_run(s, evs.take(j)).phase is Stopped,
        accept_action(accept_run(s, evs.take(j)), evs[j]) != AcceptAction::SpawnHandler,
    decreases i,
{
    let s1 = accept_step(s, evs[0]);
    assert(evs.take(j).skip(1) =~= evs.skip(1).take(j - 1));
    if i == 0 {
        assert(s1.phase is Stopped);
        lemma_stopped_run(s1, evs.skip(1).take(j - 1));
    } else {
        assert(forall|k: int|
            0 <= k < evs.skip(1).len() ==> evs.skip(1)[k] == evs[k + 1]);
        lemma_shutdown_precedence(s1, evs.skip(1), i - 1, j - 1);
    }
}

/// The acceptor component: decides what happens after each outcome of the
/// accept/shutdown race, without performing any I/O itself.
pub struct Acceptor {
    phase: AcceptorPhase,
    accepted: Ghost<nat>,
    failed: Ghost<nat>,
}

impl View for Acceptor {
    type V = AcceptorView;

    closed spec fn view(&self) -> AcceptorView {
        AcceptorView { phase: self.phase, accepted: self.accepted@, failed: self.failed@ }
    }
}

impl Acceptor {
    /// A fresh acceptor, ready to take connections.
    pub fn new() -> (a: Acceptor)
        ensures
            a@ == accept_init(),
    {
        Acceptor { phase: AcceptorPhase::Accepting, accepted: Ghost(0), failed: Ghost(0) }
    }

    /// True while the acceptor still takes connections.
    pub fn is_accepting(&self) -> (b: bool)
        ensures
            b == (self@.phase is Accepting),
    {
        self.phase == AcceptorPhase::Accepting
    }

    /// Feed one event in; the state moves to `accept_step` and the returned
    /// action is exactly `accept_action`. Total: once stopped, every event
    /// leaves the acceptor stopped and unchanged.
    pub fn on_event(&mut self, e: AcceptEvent) -> (act: AcceptAction)
        ensures
            final(self)@ == accept_step(old(self)@, e),
            act == accept_action(old(self)@, e),
    {
        if self.phase == AcceptorPhase::Stopped {
            return AcceptAction::StopAccepting;
        }
        match e {
            AcceptEvent::Connected => {
                self.accepted = Ghost(self.accepted@ + 1);
                AcceptAction::SpawnHandler
            }
            AcceptEvent::AcceptFailed => {
                self.failed = Ghost(self.failed@ + 1);
                AcceptAction::ContinueAccepting
            }
            AcceptEvent::ShutdownSignal => {
                self.phase = AcceptorPhase::Stopped;
                AcceptAction::StopAccepting
            }
        }
    }
}

} // verus!
