//! The per-connection echo protocol handler.
//!
//! A [`Handler`] owns the echo logic for exactly one connection. The driver
//! owns the socket: it reads, reports what the read returned as a
//! [`ReadOutcome`], performs the [`ConnAction`] the handler chooses (echo
//! the bytes back, wait for more data, or finish), and reports how a write
//! went as a [`WriteOutcome`].
//!
//! The handler's abstract state, a [`ConnView`], carries the full history of
//! the connection: every byte read so far and every byte echoed so far.
//! Well-formedness ([`ConnView::wf`]) ties the two together: whenever the
//! handler is between echoes — and in particular when the peer closes
//! cleanly — the bytes echoed, in order, are exactly the bytes received.

use vstd::prelude::*;

verus! {

/// Where one connection stands in its lifecycle.
#[derive(Clone, Copy, Debug, PartialEq, Eq, Structural)]
pub enum ConnPhase {
    /// Waiting for the next read to complete.
    Reading,
    /// A non-empty read finished; its bytes are being written back.
    Writing,
    /// The peer closed its write side: terminal, not an error.
    ClosedClean,
    /// A read or a write failed: terminal.
    ClosedError,
}

/// Why a finished handler stopped.
#[derive(Clone, Copy, Debug, PartialEq, Eq, Structural)]
pub enum ConnClose {
    /// The peer performed an orderly close (a zero-byte read).
    Clean,
    /// A read on the connection failed.
    ReadFailed,
    /// A write on the connection failed.
    WriteFailed,
}

/// What one read on the connection returned. An empty `Data` is how the
/// transport reports that the peer closed its write side.
#[derive(Debug)]
pub enum ReadOutcome {
    /// The read completed with these bytes (empty on an orderly close).
    Data(Vec<u8>),
    /// The read failed.
    Failed,
}

/// How writing the echoed bytes back went.
#[derive(Clone, Copy, Debug)]
pub enum WriteOutcome {
    /// All bytes were written and flushed.
    Done,
    /// The write failed.
    Failed,
}

/// What the driver must do next with its connection.
#[derive(Debug)]
pub enum ConnAction {
    /// Write exactly these bytes back to the peer, in this order, then
    /// report the outcome with [`Handler::on_write`].
    Echo(Vec<u8>),
    /// Read again and report the outcome with [`Handler::on_read`].
    AwaitData,
    /// Terminal: perform no further read or write on this connection.
    Finish(ConnClose),
}

/// One event in the life of a connection, as the specification sees it.
pub enum ConnEvent {
    /// A read returned these bytes (empty on an orderly close).
    ReadData(Seq<u8>),
    /// A read failed.
    ReadFailed,
    /// The echoed bytes were fully written.
    WriteDone,
    /// A write failed.
    WriteFailed,
}

impl View for ReadOutcome {
    type V = ConnEvent;

    open spec fn view(&self) -> ConnEvent {
        match self {
            ReadOutcome::Data(d) => ConnEvent::ReadData(d@),
            ReadOutcome::Failed => ConnEvent::ReadFailed,
        }
    }
}

impl View for WriteOutcome {
    type V = ConnEvent;

    open spec fn view(&self) -> ConnEvent {
        match self {
            WriteOutcome::Done => ConnEvent::WriteDone,
            WriteOutcome::Failed => ConnEvent::WriteFailed,
        }
    }
}

/// The action, as the specification sees it.
pub enum ConnActionView {
    Echo(Seq<u8>),
    AwaitData,
    Finish(ConnClose),
}

impl View for ConnAction {
    type V = ConnActionView;

    open spec fn view(&self) -> ConnActionView {
        match self {
            ConnAction::Echo(d) => ConnActionView::Echo(d@),
            ConnAction::AwaitData => ConnActionView::AwaitData,
            ConnAction::Finish(c) => ConnActionView::Finish(*c),
        }
    }
}

/// The abstract state of one connection: its phase, every byte received so
/// far, every byte echoed back so far, and the bytes accepted by the last
/// read but not yet confirmed written.
pub struct ConnView {
    pub phase: ConnPhase,
    pub received: Seq<u8>,
    pub echoed: Seq<u8>,
    pub pending: Seq<u8>,
}

impl ConnView {
    /// The state a handler starts in on a freshly accepted connection.
    pub open spec fn init() -> ConnView {
        ConnView {
            phase: ConnPhase::Reading,
            received: Seq::empty(),
            echoed: Seq::empty(),
            pending: Seq::empty(),
        }
    }

    /// Both terminal phases.
    pub open spec fn is_terminal(self) -> bool {
        self.phase is ClosedClean || self.phase is ClosedError
    }

    /// Well-formedness: the echoed bytes always account for the received
    /// bytes. While reading, and after a clean close, they are exactly the
    /// received bytes; while writing, the pending bytes are the remainder.
    pub open spec fn wf(self) -> bool {
        match self.phase {
            ConnPhase::Reading => self.echoed == self.received && self.pending.len() == 0,
            ConnPhase::Writing => self.echoed + self.pending == self.received
                && self.pending.len() > 0,
            ConnPhase::ClosedClean => self.echoed == self.received && self.pending.len() == 0,
            ConnPhase::ClosedError => true,
        }
    }
}

/// Whether an event can occur in a state: reads complete only while
/// `Reading`, writes only while `Writing`, and nothing at all once the
/// connection is closed.
pub open spec fn conn_enabled(s: ConnView, e: ConnEvent) -> bool {
    match e {
        ConnEvent::ReadData(_) => s.phase is Reading,
        ConnEvent::ReadFailed => s.phase is Reading,
        ConnEvent::WriteDone => s.phase is Writing,
        ConnEvent::WriteFailed => s.phase is Writing,
    }
}

/// The successor state after one event. A zero-byte read is an orderly
/// close; a non-empty read is appended to the received history and becomes
/// pending; a completed write moves the pending bytes into the echoed
/// history; any failure is terminal.
pub open spec fn conn_step(s: ConnView, e: ConnEvent) -> ConnView {
    match e {
        ConnEvent::ReadData(d) => {
            if d.len() == 0 {
                ConnView { phase: ConnPhase::ClosedClean, ..s }
            } else {
                ConnView {
                    phase: ConnPhase::Writing,
                    received: s.received + d,
                    pending: d,
                    ..s
                }
            }
        }
        ConnEvent::ReadFailed => ConnView { phase: ConnPhase::ClosedError, ..s },
        ConnEvent::WriteDone => ConnView {
            phase: ConnPhase::Reading,
            echoed: s.echoed + s.pending,
            pending: Seq::empty(),
            ..s
        },
        ConnEvent::WriteFailed => ConnView { phase: ConnPhase::ClosedError, ..s },
    }
}

/// The action the driver is told to perform for one event.
pub open spec fn conn_action(s: ConnView, e: ConnEvent) -> ConnActionView {
    match e {
        ConnEvent::ReadData(d) => {
            if d.len() == 0 {
                ConnActionView::Finish(ConnClose::Clean)
            } else {
                ConnActionView::Echo(d)
            }
        }
        ConnEvent::ReadFailed => ConnActionView::Finish(ConnClose::ReadFailed),
        ConnEvent::WriteDone => ConnActionView::AwaitData,
        ConnEvent::WriteFailed => ConnActionView::Finish(ConnClose::WriteFailed),
    }
}

/// Whether a whole sequence of events can occur, in order, from a state.
pub open spec fn conn_trace_enabled(s: ConnView, evs: Seq<ConnEvent>) -> bool
    decreases evs.len(),
{
    evs.len() == 0 || (conn_enabled(s, evs[0]) && conn_trace_enabled(
        conn_step(s, evs[0]),
        evs.skip(1),
    ))
}

/// The state after a whole sequence of events.
pub open spec fn conn_run(s: ConnView, evs: Seq<ConnEvent>) -> ConnView
    decreases evs.len(),
{
    if evs.len() == 0 {
        s
    } else {
        conn_run(conn_step(s, evs[0]), evs.skip(1))
    }
}

/// One enabled step preserves well-formedness.
pub proof fn lemma_conn_step_wf(s: ConnView, e: ConnEvent)
    requires
        s.wf(),
        conn_enabled(s, e),
    ensures
        conn_step(s, e).wf(),
{
}

/// Every enabled trace preserves well-formedness.
pub proof fn lemma_conn_run_wf(s: ConnView, evs: Seq<ConnEvent>)
    requires
        s.wf(),
        conn_trace_enabled(s, evs),
    ensures
        conn_run(s, evs).wf(),
    decreases evs.len(),
{
    if evs.len() > 0 {
        lemma_conn_step_wf(s, evs[0]);
        lemma_conn_run_wf(conn_step(s, evs[0]), evs.skip(1));
    }
}

/// Echo correctness: over any sequence of events a connection can go
/// through from accept time, whenever the handler awaits the next read —
/// and in particular once the peer closes cleanly — the bytes echoed back,
/// concatenated in order, are exactly the bytes received: no loss, no
/// duplication, no reordering. (After a read or write failure the last
/// chunk may be unflushed; the failing connection promises nothing more.)
pub proof fn lemma_echo_correctness(evs: Seq<ConnEvent>)
    requires
        conn_trace_enabled(ConnView::init(), evs),
        conn_run(ConnView::init(), evs).phase is Reading || conn_run(
            ConnView::init(),
            evs,
        ).phase is ClosedClean,
    ensures
        conn_run(ConnView::init(), evs).echoed == conn_run(ConnView::init(), evs).received,
{
    lemma_conn_run_wf(ConnView::init(), evs);
}

/// Clean-close terminality: once a connection is closed — cleanly or by a
/// failure — no further event is enabled on it: the handler issues no
/// further reads or writes.
pub proof fn lemma_closed_is_terminal(s: ConnView, e: ConnEvent)
    requires
        s.is_terminal(),
    ensures
        !conn_enabled(s, e),
{
}

/// Terminality over traces: from a closed connection, only the empty trace
/// is possible at all.
pub proof fn lemma_no_events_after_close(s: ConnView, evs: Seq<ConnEvent>)
    requires
        s.is_terminal(),
        conn_trace_enabled(s, evs),
    ensures
        evs.len() == 0,
{
    if evs.len() > 0 {
        lemma_closed_is_terminal(s, evs[0]);
    }
}

/// The echo protocol handler for one connection. It performs no I/O: the
/// driver reports read and write outcomes and carries out the actions.
pub struct Handler {
    phase: ConnPhase,
    received: Ghost<Seq<u8>>,
    echoed: Ghost<Seq<u8>>,
    pending: Ghost<Seq<u8>>,
}

impl View for Handler {
    type V = ConnView;

    closed spec fn view(&self) -> ConnView {
        ConnView {
            phase: self.phase,
            received: self.received@,
            echoed: self.echoed@,
            pending: self.pending@,
        }
    }
}

impl Handler {
    /// A fresh handler for a newly accepted connection.
    pub fn new() -> (h: Handler)
        ensures
            h@ == ConnView::init(),
    {
        Handler {
            phase: ConnPhase::Reading,
            received: Ghost(Seq::empty()),
            echoed: Ghost(Seq::empty()),
            pending: Ghost(Seq::empty()),
        }
    }

    /// True while the handler expects the outcome of a read.
    pub fn is_reading(&self) -> (b: bool)
        ensures
            b == (self@.phase is Reading),
    {
        self.phase == ConnPhase::Reading
    }

    /// True while the handler expects the outcome of a write.
    pub fn is_writing(&self) -> (b: bool)
        ensures
            b == (self@.phase is Writing),
    {
        self.phase == ConnPhase::Writing
    }

    /// True once the peer closed cleanly.
    pub fn is_closed_clean(&self) -> (b: bool)
        ensures
            b == (self@.phase is ClosedClean),
    {
        self.phase == ConnPhase::ClosedClean
    }

    /// True once a read or write failure ended the connection.
    pub fn is_closed_error(&self) -> (b: bool)
        ensures
            b == (self@.phase is ClosedError),
    {
        self.phase == ConnPhase::ClosedError
    }

    /// Report the outcome of a read. The state moves to `conn_step` and the
    /// returned action is exactly `conn_action`: a failure finishes the
    /// handler, an empty read finishes it cleanly, and a non-empty read
    /// hands back exactly the bytes just received, to be echoed before the
    /// next read.
    pub fn on_read(&mut self, r: ReadOutcome) -> (a: ConnAction)
        requires
            old(self)@.wf(),
            old(self)@.phase is Reading,
        ensures
            final(self)@ == conn_step(old(self)@, r@),
            a@ == conn_action(old(self)@, r@),
            final(self)@.wf(),
    {
        match r {
            ReadOutcome::Data(d) => {
                if d.len() == 0 {
                    self.phase = ConnPhase::ClosedClean;
                    ConnAction::Finish(ConnClose::Clean)
                } else {
                    self.phase = ConnPhase::Writing;
                    self.received = Ghost(self.received@ + d@);
                    self.pending = Ghost(d@);
                    ConnAction::Echo(d)
                }
            }
            ReadOutcome::Failed => {
                self.phase = ConnPhase::ClosedError;
                ConnAction::Finish(ConnClose::ReadFailed)
            }
        }
    }

    /// Report the outcome of writing the echoed bytes back. On success the
    /// pending bytes join the echoed history — which then again equals the
    /// received history — and the handler waits for more data; on failure
    /// the handler finishes.
    pub fn on_write(&mut self, w: WriteOutcome) -> (a: ConnAction)
        requires
            old(self)@.wf(),
            old(self)@.phase is Writing,
        ensures
            final(self)@ == conn_step(old(self)@, w@),
            a@ == conn_action(old(self)@, w@),
            final(self)@.wf(),
            w is Done ==> final(self)@.echoed == final(self)@.received,
    {
        match w {
            WriteOutcome::Done => {
                self.echoed = Ghost(self.echoed@ + self.pending@);
                self.pending = Ghost(Seq::empty());
                self.phase = ConnPhase::Reading;
                ConnAction::AwaitData
            }
            WriteOutcome::Failed => {
                self.phase = ConnPhase::ClosedError;
                ConnAction::Finish(ConnClose::WriteFailed)
            }
        }
    }
}

} // verus!
