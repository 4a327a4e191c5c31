//! A terminal session's control state: liveness, the single kill handle,
//! the terminal geometry and the output pump, with the decisions of every
//! path that ends the session.

use vstd::prelude::*;

use crate::pump::{pump_step, OutputPump, PumpInput, PumpStep, PumpView, ReadResult};

verus! {

/// Rows of a terminal whose size is not given.
pub const DEFAULT_ROWS: u16 = 24;

/// Columns of a terminal whose size is not given.
pub const DEFAULT_COLS: u16 = 80;

/// Milliseconds a graceful stop waits before it kills.
pub const GRACE_MILLIS: u64 = 200;

/// A terminal's geometry.
#[derive(Clone, Copy, PartialEq, Eq, Structural, Debug)]
pub struct TerminalSize {
    pub rows: u16,
    pub cols: u16,
}

/// The size asked for, or 24 rows by 80 columns.
pub fn size_or_default(size: Option<TerminalSize>) -> (r: TerminalSize)
    ensures
        r == match size {
            Some(s) => s,
            None => TerminalSize { rows: DEFAULT_ROWS, cols: DEFAULT_COLS },
        },
{
    match size {
        Some(s) => s,
        None => TerminalSize { rows: DEFAULT_ROWS, cols: DEFAULT_COLS },
    }
}

/// The session's state as values.
pub struct SessionView {
    pub running: bool,
    pub killer_held: bool,
    pub size: TerminalSize,
    pub pump: PumpView,
}

/// The control side of one terminal session. The kill handle is held until
/// a kill is issued through `take_kill`, so that no path kills twice.
pub struct PtyControl {
    running: bool,
    killer_held: bool,
    size: TerminalSize,
    pump: OutputPump,
}

impl View for PtyControl {
    type V = SessionView;

    closed spec fn view(&self) -> SessionView {
        SessionView {
            running: self.running,
            killer_held: self.killer_held,
            size: self.size,
            pump: self.pump@,
        }
    }
}

/// The effect of an immediate kill: the next state and whether a kill
/// signal is issued.
pub open spec fn kill_now_spec(s: SessionView) -> (SessionView, bool) {
    (SessionView { running: false, killer_held: false, ..s }, s.killer_held)
}

/// The effect of a graceful stop.
pub open spec fn stop_spec(s: SessionView) -> SessionView {
    SessionView { running: false, ..s }
}

/// The effect of the check made when the grace window has passed, given
/// whether the process has exited by then.
pub open spec fn after_grace_spec(s: SessionView, exited: bool) -> (SessionView, bool) {
    if exited {
        (s, false)
    } else {
        kill_now_spec(s)
    }
}

/// The effect of a resize.
pub open spec fn resize_spec(s: SessionView, size: TerminalSize) -> SessionView {
    SessionView { size, ..s }
}

/// The effect of one pump input on the session, the pump's kill going
/// through the single kill handle.
pub open spec fn session_pump_spec(s: SessionView, input: PumpInput) -> (SessionView, (nat, bool, bool, bool)) {
    let (p, st) = pump_step(s.pump, input);
    let kill = st.2 && s.killer_held;
    (
        SessionView {
            pump: p,
            running: s.running && !st.3,
            killer_held: s.killer_held && !st.2,
            ..s
        },
        (st.0, st.1, kill, st.3),
    )
}

/// A second immediate kill issues no signal and changes nothing.
pub proof fn lemma_kill_now_idempotent(s: SessionView)
    ensures
        kill_now_spec(kill_now_spec(s).0) == (kill_now_spec(s).0, false),
{
}

/// After a graceful stop, a process that exits within the grace window is
/// never killed; one that has not exited is killed, unless a kill was
/// already issued.
pub proof fn lemma_graceful_stop(s: SessionView, exited: bool)
    ensures
        exited ==> !after_grace_spec(stop_spec(s), exited).1,
        !exited ==> after_grace_spec(stop_spec(s), exited).1 == s.killer_held,
        !stop_spec(s).running,
{
}

/// A resize changes the geometry alone: liveness, the kill handle and the
/// output forwarded so far stay as they were.
pub proof fn lemma_resize_keeps_output(s: SessionView, size: TerminalSize)
    ensures
        resize_spec(s, size).pump == s.pump,
        resize_spec(s, size).running == s.running,
        resize_spec(s, size).killer_held == s.killer_held,
        resize_spec(s, size).size == size,
{
}

/// One operation on a session, from the caller or from its pump.
pub enum SessionOp {
    Stop,
    KillNow,
    AfterGrace { exited: bool },
    Resize { size: TerminalSize },
    Pump { input: PumpInput },
}

/// The effect of one operation: the next state and whether it issues a
/// kill.
pub open spec fn session_op_spec(s: SessionView, op: SessionOp) -> (SessionView, bool) {
    match op {
        SessionOp::Stop => (stop_spec(s), false),
        SessionOp::KillNow => kill_now_spec(s),
        SessionOp::AfterGrace { exited } => after_grace_spec(s, exited),
        SessionOp::Resize { size } => (resize_spec(s, size), false),
        SessionOp::Pump { input } => {
            let (next, st) = session_pump_spec(s, input);
            (next, st.2)
        },
    }
}

/// The kills issued over a run of operations.
pub open spec fn kills_issued(s: SessionView, ops: Seq<SessionOp>) -> nat
    decreases ops.len(),
{
    if ops.len() == 0 {
        0
    } else {
        let (next, kill) = session_op_spec(s, ops[0]);
        (if kill { 1nat } else { 0nat }) + kills_issued(next, ops.drop_first())
    }
}

/// Whatever the order of stops, immediate kills, grace checks, resizes and
/// pump steps, a session issues at most one kill, and none once its kill
/// handle is gone.
pub proof fn lemma_single_kill(s: SessionView, ops: Seq<SessionOp>)
    ensures
        kills_issued(s, ops) <= if s.killer_held { 1nat } else { 0nat },
    decreases ops.len(),
{
    if ops.len() > 0 {
        let (next, kill) = session_op_spec(s, ops[0]);
        lemma_single_kill(next, ops.drop_first());
    }
}

impl PtyControl {
    pub closed spec fn wf(&self) -> bool {
        self.pump.wf()
    }

    /// A live session of the given size, or the default one, whose pump
    /// forwards at most `ceiling` bytes.
    pub fn new(size: Option<TerminalSize>, ceiling: usize) -> (r: Self)
        ensures
            r.wf(),
            r@.running,
            r@.killer_held,
            r@.size == match size {
                Some(s) => s,
                None => TerminalSize { rows: DEFAULT_ROWS, cols: DEFAULT_COLS },
            },
            r@.pump == (PumpView { emitted: 0, ceiling: ceiling as nat, done: false }),
    {
        PtyControl {
            running: true,
            killer_held: true,
            size: size_or_default(size),
            pump: OutputPump::new(ceiling),
        }
    }

    pub fn is_running(&self) -> (r: bool)
        ensures
            r == self@.running,
    {
        self.running
    }

    pub fn size(&self) -> (r: TerminalSize)
        ensures
            r == self@.size,
    {
        self.size
    }

    pub fn emitted(&self) -> (r: usize)
        ensures
            r == self@.pump.emitted,
    {
        self.pump.emitted()
    }

    /// Takes the kill handle: true when a kill is to be issued now, which
    /// happens at most once over the session's life.
    fn take_kill(&mut self) -> (kill: bool)
        ensures
            kill == old(self)@.killer_held,
            final(self)@ == (SessionView { killer_held: false, ..old(self)@ }),
            final(self).wf() == old(self).wf(),
    {
        let kill = self.killer_held;
        self.killer_held = false;
        kill
    }

    /// Records a new geometry; the result is the size to hand to the
    /// terminal.
    pub fn resize(&mut self, rows: u16, cols: u16) -> (r: TerminalSize)
        requires
            old(self).wf(),
        ensures
            final(self).wf(),
            r == (TerminalSize { rows, cols }),
            final(self)@ == resize_spec(old(self)@, r),
    {
        let size = TerminalSize { rows, cols };
        self.size = size;
        size
    }

    /// Starts a graceful stop: no output is forwarded from now on; the
    /// caller checks back through `after_grace` once the grace window has
    /// passed.
    pub fn stop(&mut self)
        requires
            old(self).wf(),
        ensures
            final(self).wf(),
            final(self)@ == stop_spec(old(self)@),
    {
        self.running = false;
    }

    /// The check at the end of the grace window: true when a kill is to be
    /// issued now.
    pub fn after_grace(&mut self, exited: bool) -> (kill: bool)
        requires
            old(self).wf(),
        ensures
            final(self).wf(),
            (final(self)@, kill) == after_grace_spec(old(self)@, exited),
    {
        if exited {
            false
        } else {
            self.kill_now()
        }
    }

    /// Immediate teardown: no output is forwarded from now on, and the
    /// result tells whether a kill is to be issued now; a second call
    /// issues none.
    pub fn kill_now(&mut self) -> (kill: bool)
        requires
            old(self).wf(),
        ensures
            final(self).wf(),
            (final(self)@, kill) == kill_now_spec(old(self)@),
    {
        self.running = false;
        self.take_kill()
    }

    /// The pump's check before reading.
    pub fn pump_poll(&mut self) -> (r: PumpStep)
        requires
            old(self).wf(),
        ensures
            final(self).wf(),
            (final(self)@, r.view()) == session_pump_spec(old(self)@, PumpInput::Poll { live: old(self)@.running }),
    {
        let input = PumpInput::Poll { live: self.running };
        self.pump_input(&input)
    }

    /// The pump's handling of one read.
    pub fn pump_read(&mut self, result: ReadResult) -> (r: PumpStep)
        requires
            old(self).wf(),
        ensures
            final(self).wf(),
            (final(self)@, r.view()) == session_pump_spec(
                old(self)@,
                PumpInput::Read { live: old(self)@.running, result },
            ),
    {
        let input = PumpInput::Read { live: self.running, result };
        self.pump_input(&input)
    }

    fn pump_input(&mut self, input: &PumpInput) -> (r: PumpStep)
        requires
            old(self).wf(),
        ensures
            final(self).wf(),
            (final(self)@, r.view()) == session_pump_spec(old(self)@, *input),
    {
        let step = self.pump.step(input);
        let kill = if step.kill {
            self.take_kill()
        } else {
            false
        };
        if step.exited {
            self.running = false;
        }
        PumpStep { emit: step.emit, notice: step.notice, kill, exited: step.exited }
    }
}

} // verus!
