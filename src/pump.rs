//! The output pump: which bytes of each read reach the consumer, under a
//! ceiling on the bytes forwarded over a session's life.

use vstd::prelude::*;

verus! {

/// Ceiling on the bytes a session forwards.
pub const MAX_OUTPUT_BYTES: usize = 1_000_000;

/// Size of the buffer each read fills.
pub const READ_CHUNK: usize = 4096;

/// The chunk forwarded once when the ceiling cuts the output.
pub const TRUNCATION_NOTICE: &'static str = "[output truncated]\n";

/// What one read of the terminal returned.
#[derive(Clone, Copy, Debug, PartialEq, Eq)]
pub enum ReadResult {
    /// This many bytes; zero means end of file.
    Data(usize),
    Eof,
    Failed,
}

/// One input of the pump: a check before reading, or the result of a read,
/// each with whether the session was live when it was taken.
pub enum PumpInput {
    Poll { live: bool },
    Read { live: bool, result: ReadResult },
}

/// What the pump does after one input.
#[derive(Clone, Copy, Debug, PartialEq, Eq)]
pub struct PumpStep {
    /// Bytes of the buffer, from its start, to forward.
    pub emit: usize,
    /// Whether the truncation notice is forwarded.
    pub notice: bool,
    /// Whether the process is to be killed.
    pub kill: bool,
    /// Whether the pump ends, the exit notification being sent.
    pub exited: bool,
}

/// The pump's state as values.
pub struct PumpView {
    pub emitted: nat,
    pub ceiling: nat,
    pub done: bool,
}

/// The bytes forwarded so far, against the ceiling; once done the pump
/// forwards nothing more.
pub struct OutputPump {
    emitted: usize,
    ceiling: usize,
    done: bool,
}

impl View for OutputPump {
    type V = PumpView;

    closed spec fn view(&self) -> PumpView {
        PumpView { emitted: self.emitted as nat, ceiling: self.ceiling as nat, done: self.done }
    }
}

pub open spec fn step_view(emit: nat, notice: bool, exited: bool) -> (nat, bool, bool, bool) {
    (emit, notice, notice, exited)
}

impl PumpStep {
    pub open spec fn view(self) -> (nat, bool, bool, bool) {
        (self.emit as nat, self.notice, self.kill, self.exited)
    }
}

pub open spec fn pump_wf(s: PumpView) -> bool {
    s.emitted <= s.ceiling
}

/// The pump ends: `notice` tells whether it ends by truncation.
pub open spec fn finish(s: PumpView, emitted: nat, notice: bool) -> (PumpView, (nat, bool, bool, bool)) {
    (PumpView { emitted, done: true, ..s }, step_view((emitted - s.emitted) as nat, notice, true))
}

/// The effect of one input on the pump: its next state and its step.
pub open spec fn pump_step(s: PumpView, input: PumpInput) -> (PumpView, (nat, bool, bool, bool)) {
    if s.done {
        (s, step_view(0, false, false))
    } else {
        match input {
            PumpInput::Poll { live } => if !live {
                finish(s, s.emitted, false)
            } else if s.emitted >= s.ceiling {
                finish(s, s.emitted, true)
            } else {
                (s, step_view(0, false, false))
            },
            PumpInput::Read { live, result } => match result {
                ReadResult::Data(n) => if n == 0 || !live {
                    finish(s, s.emitted, false)
                } else if s.emitted + n > s.ceiling {
                    finish(s, s.ceiling, true)
                } else {
                    (PumpView { emitted: (s.emitted + n) as nat, ..s }, step_view(n as nat, false, false))
                },
                _ => finish(s, s.emitted, false),
            },
        }
    }
}

/// Totals over a run of inputs: bytes forwarded, notices, exits.
pub open spec fn pump_run(s: PumpView, inputs: Seq<PumpInput>) -> (nat, nat, nat)
    decreases inputs.len(),
{
    if inputs.len() == 0 {
        (0, 0, 0)
    } else {
        let (next, st) = pump_step(s, inputs[0]);
        let rest = pump_run(next, inputs.drop_first());
        (
            st.0 + rest.0,
            (if st.1 { 1nat } else { 0nat }) + rest.1,
            (if st.3 { 1nat } else { 0nat }) + rest.2,
        )
    }
}

/// Bytes offered by live reads over a run of inputs.
pub open spec fn offered(inputs: Seq<PumpInput>) -> nat
    decreases inputs.len(),
{
    if inputs.len() == 0 {
        0
    } else {
        (match inputs[0] {
            PumpInput::Read { live: true, result: ReadResult::Data(n) } => n as nat,
            _ => 0nat,
        }) + offered(inputs.drop_first())
    }
}

/// An input taken while the session is live, and which, if a read,
/// returned data.
pub open spec fn live_data(input: PumpInput) -> bool {
    match input {
        PumpInput::Poll { live } => live,
        PumpInput::Read { live, result } => live && (result matches ReadResult::Data(n) && n > 0),
    }
}

/// A run in which the session stays live and every read returns data.
pub open spec fn all_live_data(inputs: Seq<PumpInput>) -> bool {
    forall|i: int| 0 <= i < inputs.len() ==> live_data(#[trigger] inputs[i])
}

/// Over any run, the pump forwards no more than the room left under the
/// ceiling, sends the truncation notice and the exit each at most once,
/// and after it is done forwards and sends nothing.
pub proof fn lemma_pump_bounded(s: PumpView, inputs: Seq<PumpInput>)
    requires
        pump_wf(s),
    ensures
        pump_run(s, inputs).0 <= s.ceiling - s.emitted,
        pump_run(s, inputs).1 <= pump_run(s, inputs).2,
        pump_run(s, inputs).2 <= if s.done { 0nat } else { 1nat },
        s.done ==> pump_run(s, inputs) == (0nat, 0nat, 0nat),
    decreases inputs.len(),
{
    if inputs.len() > 0 {
        let (next, st) = pump_step(s, inputs[0]);
        lemma_pump_bounded(next, inputs.drop_first());
    }
}

/// When a live session's process offers more bytes than the room left under
/// the ceiling, the pump sends exactly one truncation notice and exactly one
/// exit.
pub proof fn lemma_pump_truncates_overflow(s: PumpView, inputs: Seq<PumpInput>)
    requires
        pump_wf(s),
        !s.done,
        all_live_data(inputs),
        offered(inputs) > s.ceiling - s.emitted,
    ensures
        pump_run(s, inputs).1 == 1,
        pump_run(s, inputs).2 == 1,
    decreases inputs.len(),
{
    let (next, st) = pump_step(s, inputs[0]);
    assert(all_live_data(inputs.drop_first())) by {
        assert forall|i: int| 0 <= i < inputs.drop_first().len() implies live_data(
            #[trigger] inputs.drop_first()[i],
        ) by {
            assert(inputs.drop_first()[i] == inputs[i + 1]);
        }
    }
    assert(live_data(inputs[0]));
    if next.done {
        lemma_pump_bounded(next, inputs.drop_first());
    } else {
        lemma_pump_truncates_overflow(next, inputs.drop_first());
    }
}

/// The input for a live read that filled `n` bytes of the buffer.
pub open spec fn live_read(n: nat) -> PumpInput {
    PumpInput::Read { live: true, result: ReadResult::Data(n as usize) }
}

/// The bytes forwarded, in order, over live reads whose buffers held
/// `chunks`.
pub open spec fn forwarded(s: PumpView, chunks: Seq<Seq<u8>>) -> Seq<u8>
    decreases chunks.len(),
{
    if chunks.len() == 0 {
        Seq::empty()
    } else {
        let (next, st) = pump_step(s, live_read(chunks[0].len()));
        chunks[0].take(st.0 as int) + forwarded(next, chunks.drop_first())
    }
}

/// Every read of a run filled between one byte and a whole buffer.
pub open spec fn chunks_readable(chunks: Seq<Seq<u8>>) -> bool {
    forall|i: int| 0 <= i < chunks.len() ==> 0 < #[trigger] chunks[i].len() <= READ_CHUNK
}

proof fn lemma_forwarded_done(s: PumpView, chunks: Seq<Seq<u8>>)
    requires
        s.done,
    ensures
        forwarded(s, chunks) == Seq::<u8>::empty(),
    decreases chunks.len(),
{
    if chunks.len() > 0 {
        lemma_forwarded_done(s, chunks.drop_first());
        assert(chunks[0].take(0) =~= Seq::<u8>::empty());
    }
}

/// The pump keeps the order of what it reads: the bytes forwarded are the
/// start of the bytes read, in the order read, and all of them when they
/// fit under the ceiling.
pub proof fn lemma_order_kept(s: PumpView, chunks: Seq<Seq<u8>>)
    requires
        pump_wf(s),
        chunks_readable(chunks),
    ensures
        forwarded(s, chunks).is_prefix_of(chunks.flatten()),
        !s.done && chunks.flatten().len() <= s.ceiling - s.emitted ==> forwarded(s, chunks)
            == chunks.flatten(),
    decreases chunks.len(),
{
    if chunks.len() > 0 {
        let c = chunks[0];
        let tail = chunks.drop_first();
        assert(chunks_readable(tail)) by {
            assert forall|i: int| 0 <= i < tail.len() implies 0 < #[trigger] tail[i].len() <= READ_CHUNK by {
                assert(tail[i] == chunks[i + 1]);
            }
        }
        assert(0 < c.len() <= READ_CHUNK);
        let (next, st) = pump_step(s, live_read(c.len()));
        lemma_order_kept(next, tail);
        assert(chunks.flatten() == c + tail.flatten());
        if next.done {
            lemma_forwarded_done(next, tail);
            assert(forwarded(s, chunks) =~= c.take(st.0 as int));
        } else {
            assert(st.0 == c.len());
            assert(c.take(st.0 as int) =~= c);
        }
        assert(forwarded(s, chunks) == c.take(st.0 as int) + forwarded(next, tail));
        assert(forwarded(s, chunks).is_prefix_of(chunks.flatten()));
    } else {
        assert(chunks.flatten() =~= Seq::<u8>::empty());
    }
}

impl OutputPump {
    pub closed spec fn wf(&self) -> bool {
        pump_wf(self@)
    }

    /// A pump that has forwarded nothing, under `ceiling`.
    pub fn new(ceiling: usize) -> (r: Self)
        ensures
            r@ == (PumpView { emitted: 0, ceiling: ceiling as nat, done: false }),
            r.wf(),
    {
        OutputPump { emitted: 0, ceiling, done: false }
    }

    pub fn emitted(&self) -> (r: usize)
        ensures
            r == self@.emitted,
    {
        self.emitted
    }

    pub fn is_done(&self) -> (r: bool)
        ensures
            r == self@.done,
    {
        self.done
    }

    fn finish(&mut self, emitted: usize, notice: bool) -> (r: PumpStep)
        requires
            old(self).wf(),
            !old(self)@.done,
            old(self)@.emitted <= emitted <= old(self)@.ceiling,
        ensures
            final(self).wf(),
            (final(self)@, r.view()) == finish(old(self)@, emitted as nat, notice),
    {
        let emit = emitted - self.emitted;
        self.emitted = emitted;
        self.done = true;
        PumpStep { emit, notice, kill: notice, exited: true }
    }

    /// Decides what one input leads to.
    pub fn step(&mut self, input: &PumpInput) -> (r: PumpStep)
        requires
            old(self).wf(),
        ensures
            final(self).wf(),
            (final(self)@, r.view()) == pump_step(old(self)@, *input),
    {
        let idle = PumpStep { emit: 0, notice: false, kill: false, exited: false };
        if self.done {
            return idle;
        }
        match input {
            PumpInput::Poll { live } => {
                if !*live {
                    self.finish(self.emitted, false)
                } else if self.emitted >= self.ceiling {
                    self.finish(self.emitted, true)
                } else {
                    idle
                }
            },
            PumpInput::Read { live, result } => match result {
                ReadResult::Data(n) => {
                    if *n == 0 || !*live {
                        self.finish(self.emitted, false)
                    } else if *n > self.ceiling - self.emitted {
                        self.finish(self.ceiling, true)
                    } else {
                        self.emitted = self.emitted + *n;
                        PumpStep { emit: *n, notice: false, kill: false, exited: false }
                    }
                },
                _ => self.finish(self.emitted, false),
            },
        }
    }
}

} // verus!
