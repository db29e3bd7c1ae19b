//! The connection handler: the task that drains one accepted connection.
//!
//! A handler reads into a fixed-size buffer until the peer closes or a read
//! fails. Bytes carry no framing: each chunk is decoded permissively as text
//! and forwarded for inspection. Nothing is ever sent back.

use vstd::prelude::*;
use vstd::utf8::{decode_utf8, valid_utf8};

verus! {

/// Size in bytes of the buffer that a handler reads into.
pub const READ_BUFFER_SIZE: usize = 1024;

/// What one read on the connection gave.
#[derive(Clone, Copy, Debug, PartialEq, Eq, Structural)]
pub enum ReadOutcome {
    /// The read put this many bytes at the start of the buffer. Zero means
    /// that the peer has closed the connection.
    Filled(usize),
    /// The read failed.
    Failed,
}

/// Where a handler stands.
#[derive(Clone, Copy, Debug, PartialEq, Eq, Structural)]
pub enum HandlerPhase {
    /// The connection is being drained.
    Open,
    /// The peer closed the connection; the task ended normally.
    Finished,
    /// A read failed; the task ended after reporting it.
    Failed,
}

/// What the caller does after a read.
#[derive(Debug, PartialEq, Eq)]
pub enum HandlerAction {
    /// Emit this text for inspection, then read again.
    Forward(String),
    /// End the task normally. Nothing is reported.
    Finish,
    /// Report the read failure, then end the task. Nobody else is told.
    ReportFailure,
    /// The handler had ended before: do nothing.
    Stopped,
}

/// A read as the handler sees it: the bytes that arrived, or a failure.
pub ghost enum ReadEvent {
    Bytes(Seq<u8>),
    Failure,
}

/// What a step of the handler gives out, before any decoding.
pub ghost enum Emission {
    /// The chunk is forwarded.
    Forward(Seq<u8>),
    /// The task ends normally.
    Finish,
    /// The read failure is reported and the task ends.
    ReportFailure,
    /// Nothing: the handler had ended before.
    Nothing,
}

/// The event that a read outcome stands for, given the buffer that was read
/// into.
pub open spec fn read_event(buffer: Seq<u8>, outcome: ReadOutcome) -> ReadEvent {
    match outcome {
        ReadOutcome::Filled(n) => ReadEvent::Bytes(buffer.take(n as int)),
        ReadOutcome::Failed => ReadEvent::Failure,
    }
}

/// One step of a handler: the next phase and what is given out.
///
/// An open handler forwards every non-empty chunk and stays open, ends
/// normally on an empty one, and ends with a report on a failure. A handler
/// that has ended stays as it is.
pub open spec fn handler_step(phase: HandlerPhase, event: ReadEvent) -> (HandlerPhase, Emission) {
    match phase {
        HandlerPhase::Open => match event {
            ReadEvent::Bytes(chunk) => if chunk.len() == 0 {
                (HandlerPhase::Finished, Emission::Finish)
            } else {
                (HandlerPhase::Open, Emission::Forward(chunk))
            },
            ReadEvent::Failure => (HandlerPhase::Failed, Emission::ReportFailure),
        },
        _ => (phase, Emission::Nothing),
    }
}

/// The text that `String::from_utf8_lossy` makes of `bytes`.
pub uninterp spec fn lossy_text(bytes: Seq<u8>) -> Seq<char>;

/// Whether `action` carries out `emission`: the same instruction, with a
/// forwarded chunk shown as its permissive decoding.
pub open spec fn carries_out(action: HandlerAction, emission: Emission) -> bool {
    match emission {
        Emission::Forward(chunk) => {
            &&& action matches HandlerAction::Forward(text)
            &&& text@ == lossy_text(chunk)
            &&& valid_utf8(chunk) ==> text@ == decode_utf8(chunk)
        },
        Emission::Finish => action is Finish,
        Emission::ReportFailure => action is ReportFailure,
        Emission::Nothing => action is Stopped,
    }
}

/// Decodes bytes as text with `String::from_utf8_lossy`.
///
/// Taken on trust from the standard library's documentation: the call
/// succeeds on every byte sequence, its result depends on the bytes alone,
/// and bytes that are valid UTF-8 come back as the text that they encode.
/// How invalid sequences are replaced is not stated here.
#[verifier::external_body]
fn decode_lossy(bytes: &[u8]) -> (text: String)
    ensures
        text@ == lossy_text(bytes@),
        valid_utf8(bytes@) ==> text@ == decode_utf8(bytes@),
{
    String::from_utf8_lossy(bytes).into_owned()
}

/// The state of the task that owns one accepted connection.
#[derive(Debug)]
pub struct ConnectionHandler {
    phase: HandlerPhase,
}

impl View for ConnectionHandler {
    type V = HandlerPhase;

    closed spec fn view(&self) -> HandlerPhase {
        self.phase
    }
}

impl ConnectionHandler {
    /// A handler for a connection that was just accepted.
    pub fn new() -> (handler: Self)
        ensures
            handler@ == HandlerPhase::Open,
    {
        ConnectionHandler { phase: HandlerPhase::Open }
    }

    /// Where the handler stands.
    pub fn phase(&self) -> (phase: HandlerPhase)
        ensures
            phase == self@,
    {
        self.phase
    }

    /// Whether the handler still reads.
    pub fn is_open(&self) -> (open: bool)
        ensures
            open == (self@ == HandlerPhase::Open),
    {
        match self.phase {
            HandlerPhase::Open => true,
            _ => false,
        }
    }

    /// Takes the outcome of one read into `buffer` and says what to do.
    ///
    /// A count of zero ends the task normally; a positive count forwards the
    /// first `n` bytes, decoded permissively, whatever they hold, and the
    /// handler stays open; a failure is reported and ends the task.
    pub fn on_read(&mut self, buffer: &[u8], outcome: ReadOutcome) -> (action: HandlerAction)
        requires
            outcome matches ReadOutcome::Filled(n) ==> n <= buffer@.len(),
        ensures
            final(self)@ == handler_step(old(self)@, read_event(buffer@, outcome)).0,
            carries_out(action, handler_step(old(self)@, read_event(buffer@, outcome)).1),
    {
        match self.phase {
            HandlerPhase::Open => match outcome {
                ReadOutcome::Filled(n) => {
                    if n == 0 {
                        self.phase = HandlerPhase::Finished;
                        HandlerAction::Finish
                    } else {
                        let chunk = vstd::slice::slice_subrange(buffer, 0, n);
                        assert(chunk@ == buffer@.take(n as int));
                        HandlerAction::Forward(decode_lossy(chunk))
                    }
                },
                ReadOutcome::Failed => {
                    self.phase = HandlerPhase::Failed;
                    HandlerAction::ReportFailure
                },
            },
            _ => HandlerAction::Stopped,
        }
    }
}

/// What a handler gives out, event by event, while it takes `events` one
/// after another, starting in `phase`.
pub open spec fn handler_trace(phase: HandlerPhase, events: Seq<ReadEvent>) -> Seq<Emission>
    decreases events.len(),
{
    if events.len() == 0 {
        Seq::empty()
    } else {
        let step = handler_step(phase, events[0]);
        seq![step.1] + handler_trace(step.0, events.drop_first())
    }
}

/// Where a handler stands after it took `events`, starting in `phase`.
pub open spec fn handler_phase_after(phase: HandlerPhase, events: Seq<ReadEvent>) -> HandlerPhase
    decreases events.len(),
{
    if events.len() == 0 {
        phase
    } else {
        handler_phase_after(handler_step(phase, events[0]).0, events.drop_first())
    }
}

/// The chunks forwarded in a trace, in the order in which they were forwarded.
pub open spec fn forwarded_chunks(trace: Seq<Emission>) -> Seq<Seq<u8>>
    decreases trace.len(),
{
    if trace.len() == 0 {
        Seq::empty()
    } else {
        let rest = forwarded_chunks(trace.drop_first());
        match trace[0] {
            Emission::Forward(chunk) => seq![chunk] + rest,
            _ => rest,
        }
    }
}

/// The reads of a connection on which `chunks` arrive one after another and
/// the peer then closes.
pub open spec fn stream_events(chunks: Seq<Seq<u8>>) -> Seq<ReadEvent> {
    Seq::new(
        chunks.len() + 1,
        |i: int|
            if i < chunks.len() {
                ReadEvent::Bytes(chunks[i])
            } else {
                ReadEvent::Bytes(Seq::empty())
            },
    )
}

/// A trace has one entry for each event.
pub proof fn lemma_trace_len(phase: HandlerPhase, events: Seq<ReadEvent>)
    ensures
        handler_trace(phase, events).len() == events.len(),
    decreases events.len(),
{
    if events.len() > 0 {
        lemma_trace_len(handler_step(phase, events[0]).0, events.drop_first());
    }
}

/// A whole stream is forwarded chunk by chunk, in the order of arrival and
/// whatever the chunks hold, and the closure that follows ends the handler
/// normally: the trace is one `Forward` per chunk and then `Finish`, so no
/// failure is reported.
pub proof fn law_stream_is_forwarded_in_order(chunks: Seq<Seq<u8>>)
    requires
        forall|i: int| 0 <= i < chunks.len() ==> (#[trigger] chunks[i]).len() > 0,
    ensures
        handler_trace(HandlerPhase::Open, stream_events(chunks)) =~= Seq::new(
            chunks.len() + 1,
            |i: int|
                if i < chunks.len() {
                    Emission::Forward(chunks[i])
                } else {
                    Emission::Finish
                },
        ),
        forwarded_chunks(handler_trace(HandlerPhase::Open, stream_events(chunks))) =~= chunks,
        handler_phase_after(HandlerPhase::Open, stream_events(chunks)) == HandlerPhase::Finished,
    decreases chunks.len(),
{
    let events = stream_events(chunks);
    let trace = handler_trace(HandlerPhase::Open, events);
    lemma_trace_len(HandlerPhase::Open, events);
    if chunks.len() == 0 {
        assert(events.drop_first() =~= Seq::<ReadEvent>::empty());
        assert(trace.drop_first() =~= Seq::<Emission>::empty());
        assert(trace[0] == Emission::Finish);
        assert(forwarded_chunks(trace.drop_first()) =~= Seq::<Seq<u8>>::empty());
        assert(handler_phase_after(HandlerPhase::Finished, events.drop_first())
            == HandlerPhase::Finished);
    } else {
        let rest = chunks.drop_first();
        law_stream_is_forwarded_in_order(rest);
        assert(events.drop_first() =~= stream_events(rest));
        assert(events[0] == ReadEvent::Bytes(chunks[0]));
        let tail = handler_trace(HandlerPhase::Open, stream_events(rest));
        assert(trace =~= seq![Emission::Forward(chunks[0])] + tail);
        assert(trace.drop_first() =~= tail);
        assert(forwarded_chunks(trace) =~= seq![chunks[0]] + forwarded_chunks(tail));
        assert(seq![chunks[0]] + rest =~= chunks);
        assert(handler_phase_after(HandlerPhase::Open, events) == handler_phase_after(
            HandlerPhase::Open,
            events.drop_first(),
        ));
    }
}

/// A handler that has ended gives out nothing more, whatever arrives.
pub proof fn law_ended_handler_is_silent(phase: HandlerPhase, events: Seq<ReadEvent>)
    requires
        phase != HandlerPhase::Open,
    ensures
        handler_phase_after(phase, events) == phase,
        forall|i: int|
            0 <= i < events.len() ==> (#[trigger] handler_trace(phase, events)[i])
                == Emission::Nothing,
        forwarded_chunks(handler_trace(phase, events)) =~= Seq::<Seq<u8>>::empty(),
    decreases events.len(),
{
    lemma_trace_len(phase, events);
    if events.len() > 0 {
        let trace = handler_trace(phase, events);
        let tail = handler_trace(phase, events.drop_first());
        law_ended_handler_is_silent(phase, events.drop_first());
        lemma_trace_len(phase, events.drop_first());
        assert(trace =~= seq![Emission::Nothing] + tail);
        assert(trace.drop_first() =~= tail);
        assert forall|i: int| 0 <= i < events.len() implies (#[trigger] trace[i])
            == Emission::Nothing by {
            if i > 0 {
                assert(trace[i] == tail[i - 1]);
            }
        }
    }
}

/// A zero-length read on an open handler is a closure and no error:
/// whatever the buffer holds, the handler ends in `Finished`, and the action
/// that carries the step out is `Finish`, which reports nothing.
pub proof fn law_zero_length_read_ends_normally(buffer: Seq<u8>, action: HandlerAction)
    requires
        carries_out(
            action,
            handler_step(HandlerPhase::Open, read_event(buffer, ReadOutcome::Filled(0))).1,
        ),
    ensures
        handler_step(HandlerPhase::Open, read_event(buffer, ReadOutcome::Filled(0))) == (
            HandlerPhase::Finished,
            Emission::Finish,
        ),
        action is Finish,
{
    assert(buffer.take(0).len() == 0);
}

/// Decoding is permissive: an open handler forwards every non-empty chunk,
/// valid text or not, and stays open. The action that carries the step out
/// is a `Forward` of the chunk's permissive decoding, which is its exact
/// decoding where the chunk is valid UTF-8.
pub proof fn law_any_chunk_is_forwarded(buffer: Seq<u8>, count: usize, action: HandlerAction)
    requires
        0 < count <= buffer.len(),
        carries_out(
            action,
            handler_step(HandlerPhase::Open, read_event(buffer, ReadOutcome::Filled(count))).1,
        ),
    ensures
        handler_step(HandlerPhase::Open, read_event(buffer, ReadOutcome::Filled(count))) == (
            HandlerPhase::Open,
            Emission::Forward(buffer.take(count as int)),
        ),
        action matches HandlerAction::Forward(text) && text@ == lossy_text(
            buffer.take(count as int),
        ),
        valid_utf8(buffer.take(count as int)) ==> action->Forward_0@ == decode_utf8(
            buffer.take(count as int),
        ),
{
    assert(buffer.take(count as int).len() == count);
}

} // verus!
