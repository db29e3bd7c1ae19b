//! The connector role: one outbound connection, and a loop that prompts the
//! operator, reads a line and writes the line's bytes to the connection.

use crate::exit::StartupFailure;
use crate::shutdown::{ShutdownReceiver, ShutdownWatch, WatchPhase, WatchState};
use vstd::prelude::*;
use vstd::string::*;
use vstd::utf8::encode_utf8;

verus! {

/// How the platform answered the connect.
#[derive(Clone, Copy, Debug, PartialEq, Eq, Structural)]
pub enum ConnectOutcome {
    /// The connection stands.
    Connected,
    /// The path does not lead to a live listener.
    Refused,
}

/// What the session's caller is busy with.
#[derive(Clone, Copy, Debug, PartialEq, Eq, Structural)]
pub enum SessionPhase {
    /// The prompt is being written and flushed.
    Prompting,
    /// A line of operator input is being read.
    Reading,
    /// The line's bytes are being written to the connection.
    Writing,
    /// An operation failed; the task has been given up.
    Aborted,
}

/// What the session learns from the operator's streams and the connection.
#[derive(Debug, PartialEq, Eq)]
pub enum SessionEvent {
    /// The prompt was written and flushed.
    PromptShown,
    /// The prompt could not be written or flushed.
    PromptFailed,
    /// A line of input arrived. It is held as it was read, with its
    /// terminator where the input had one.
    Line(String),
    /// The input is exhausted.
    EndOfInput,
    /// Reading the input failed.
    InputFailed,
    /// The bytes were handed to the connection.
    Written,
    /// Writing to the connection failed.
    WriteFailed,
}

/// What the session's caller does next.
#[derive(Debug, PartialEq, Eq)]
pub enum SessionAction {
    /// Write the prompt and flush it.
    Prompt,
    /// Read one line of operator input.
    ReadLine,
    /// Write these bytes to the connection.
    Write(Vec<u8>),
    /// Give the task up: the failure is not recoverable, and nothing is
    /// retried.
    Abort,
    /// The event does not fit the phase: do nothing.
    Ignore,
}

/// A session event as contracts see it.
pub ghost enum SessionEventView {
    PromptShown,
    PromptFailed,
    Line(Seq<char>),
    EndOfInput,
    InputFailed,
    Written,
    WriteFailed,
}

/// A session action as contracts see it.
pub ghost enum SessionActionView {
    Prompt,
    ReadLine,
    Write(Seq<u8>),
    Abort,
    Ignore,
}

impl View for SessionEvent {
    type V = SessionEventView;

    open spec fn view(&self) -> SessionEventView {
        match self {
            SessionEvent::PromptShown => SessionEventView::PromptShown,
            SessionEvent::PromptFailed => SessionEventView::PromptFailed,
            SessionEvent::Line(line) => SessionEventView::Line(line@),
            SessionEvent::EndOfInput => SessionEventView::EndOfInput,
            SessionEvent::InputFailed => SessionEventView::InputFailed,
            SessionEvent::Written => SessionEventView::Written,
            SessionEvent::WriteFailed => SessionEventView::WriteFailed,
        }
    }
}

impl View for SessionAction {
    type V = SessionActionView;

    open spec fn view(&self) -> SessionActionView {
        match self {
            SessionAction::Prompt => SessionActionView::Prompt,
            SessionAction::ReadLine => SessionActionView::ReadLine,
            SessionAction::Write(bytes) => SessionActionView::Write(bytes@),
            SessionAction::Abort => SessionActionView::Abort,
            SessionAction::Ignore => SessionActionView::Ignore,
        }
    }
}

/// One step of the session.
///
/// After the prompt a line is read. A line is written to the connection as
/// its bytes, nothing added and nothing taken away, and the session prompts
/// again when they are written. Exhausted input is no end: the session
/// prompts again. Any failure gives the task up.
pub open spec fn session_step(phase: SessionPhase, event: SessionEventView) -> (
    SessionPhase,
    SessionActionView,
) {
    match (phase, event) {
        (SessionPhase::Prompting, SessionEventView::PromptShown) => (
            SessionPhase::Reading,
            SessionActionView::ReadLine,
        ),
        (SessionPhase::Prompting, SessionEventView::PromptFailed) => (
            SessionPhase::Aborted,
            SessionActionView::Abort,
        ),
        (SessionPhase::Reading, SessionEventView::Line(line)) => (
            SessionPhase::Writing,
            SessionActionView::Write(encode_utf8(line)),
        ),
        (SessionPhase::Reading, SessionEventView::EndOfInput) => (
            SessionPhase::Prompting,
            SessionActionView::Prompt,
        ),
        (SessionPhase::Reading, SessionEventView::InputFailed) => (
            SessionPhase::Aborted,
            SessionActionView::Abort,
        ),
        (SessionPhase::Writing, SessionEventView::Written) => (
            SessionPhase::Prompting,
            SessionActionView::Prompt,
        ),
        (SessionPhase::Writing, SessionEventView::WriteFailed) => (
            SessionPhase::Aborted,
            SessionActionView::Abort,
        ),
        _ => (phase, SessionActionView::Ignore),
    }
}

/// What becomes of a connector when its connect ends as `outcome`: the state
/// of its watch, which owns no artifact, or the failure.
pub open spec fn connector_after_connect(outcome: ConnectOutcome) -> Result<
    WatchState,
    StartupFailure,
> {
    match outcome {
        ConnectOutcome::Connected => Ok(
            WatchState { phase: WatchPhase::Waiting, artifact: None },
        ),
        ConnectOutcome::Refused => Err(StartupFailure::ConnectRefused),
    }
}

/// A connector that has not connected yet.
#[derive(Debug)]
pub struct Connector {
    path: String,
    receiver: ShutdownReceiver,
}

/// The state of the prompt, read and write loop.
#[derive(Debug)]
pub struct Session {
    phase: SessionPhase,
}

/// A connector whose connection stands: the session for the role's own
/// task, and the watch for its watching task.
#[derive(Debug)]
pub struct Connected {
    pub session: Session,
    pub watch: ShutdownWatch,
}

impl View for Connector {
    type V = Seq<char>;

    /// The rendezvous path.
    closed spec fn view(&self) -> Seq<char> {
        self.path@
    }
}

impl View for Session {
    type V = SessionPhase;

    closed spec fn view(&self) -> SessionPhase {
        self.phase
    }
}

/// The prompt that is shown before each line is read.
pub fn prompt() -> (text: &'static str)
    ensures
        text@ == "Text: "@,
{
    "Text: "
}

impl Connector {
    /// A connector for `path`, with the receiving end of an armed
    /// coordinator.
    pub fn new(path: String, receiver: ShutdownReceiver) -> (connector: Self)
        ensures
            connector@ == path@,
    {
        Connector { path, receiver }
    }

    /// The rendezvous path to connect to.
    pub fn path(&self) -> (path: &String)
        ensures
            path@ == self@,
    {
        &self.path
    }

    /// Takes the platform's answer to the one connect attempt.
    ///
    /// On a connection the session starts, with the prompt to be shown
    /// first, and the watch owns no artifact. A refusal is fatal: there is no
    /// retry and no backoff.
    pub fn on_connect(self, outcome: ConnectOutcome) -> (started: Result<Connected, StartupFailure>)
        ensures
            match connector_after_connect(outcome) {
                Ok(watch) => {
                    &&& started matches Ok(connected)
                    &&& connected.watch@ == watch
                    &&& connected.session@ == SessionPhase::Prompting
                },
                Err(failure) => started matches Err(f) && f == failure,
            },
    {
        match outcome {
            ConnectOutcome::Connected => Ok(
                Connected {
                    session: Session { phase: SessionPhase::Prompting },
                    watch: ShutdownWatch::plain(self.receiver),
                },
            ),
            ConnectOutcome::Refused => Err(StartupFailure::ConnectRefused),
        }
    }
}

impl Session {
    /// What the caller is busy with.
    pub fn phase(&self) -> (phase: SessionPhase)
        ensures
            phase == self@,
    {
        self.phase
    }

    /// Takes an event and says what to do next.
    pub fn step(&mut self, event: SessionEvent) -> (action: SessionAction)
        ensures
            (final(self)@, action@) == session_step(old(self)@, event@),
    {
        match self.phase {
            SessionPhase::Prompting => match event {
                SessionEvent::PromptShown => {
                    self.phase = SessionPhase::Reading;
                    SessionAction::ReadLine
                },
                SessionEvent::PromptFailed => {
                    self.phase = SessionPhase::Aborted;
                    SessionAction::Abort
                },
                _ => SessionAction::Ignore,
            },
            SessionPhase::Reading => match event {
                SessionEvent::Line(line) => {
                    self.phase = SessionPhase::Writing;
                    SessionAction::Write(line.as_str().as_bytes_vec())
                },
                SessionEvent::EndOfInput => {
                    self.phase = SessionPhase::Prompting;
                    SessionAction::Prompt
                },
                SessionEvent::InputFailed => {
                    self.phase = SessionPhase::Aborted;
                    SessionAction::Abort
                },
                _ => SessionAction::Ignore,
            },
            SessionPhase::Writing => match event {
                SessionEvent::Written => {
                    self.phase = SessionPhase::Prompting;
                    SessionAction::Prompt
                },
                SessionEvent::WriteFailed => {
                    self.phase = SessionPhase::Aborted;
                    SessionAction::Abort
                },
                _ => SessionAction::Ignore,
            },
            SessionPhase::Aborted => SessionAction::Ignore,
        }
    }
}

/// What the session asks for, event by event, while it takes `events` one
/// after another, starting in `phase`.
pub open spec fn session_trace(phase: SessionPhase, events: Seq<SessionEventView>) -> Seq<
    SessionActionView,
>
    decreases events.len(),
{
    if events.len() == 0 {
        Seq::empty()
    } else {
        let step = session_step(phase, events[0]);
        seq![step.1] + session_trace(step.0, events.drop_first())
    }
}

/// What the caller is busy with after the session took `events`, starting in
/// `phase`.
pub open spec fn session_phase_after(phase: SessionPhase, events: Seq<SessionEventView>) -> SessionPhase
    decreases events.len(),
{
    if events.len() == 0 {
        phase
    } else {
        session_phase_after(session_step(phase, events[0]).0, events.drop_first())
    }
}

/// The byte sequences that a trace asks to write, in their order.
pub open spec fn written(trace: Seq<SessionActionView>) -> Seq<Seq<u8>>
    decreases trace.len(),
{
    if trace.len() == 0 {
        Seq::empty()
    } else {
        let rest = written(trace.drop_first());
        match trace[0] {
            SessionActionView::Write(bytes) => seq![bytes] + rest,
            _ => rest,
        }
    }
}

/// The events of a session in which every operation succeeds and the
/// operator types `lines` one after another: for each line the prompt is
/// shown, the line arrives, and its bytes are written.
pub open spec fn conversation(lines: Seq<Seq<char>>) -> Seq<SessionEventView>
    decreases lines.len(),
{
    if lines.len() == 0 {
        Seq::empty()
    } else {
        seq![
            SessionEventView::PromptShown,
            SessionEventView::Line(lines[0]),
            SessionEventView::Written,
        ] + conversation(lines.drop_first())
    }
}

/// A trace of the session has one entry for each event.
pub proof fn lemma_session_trace_len(phase: SessionPhase, events: Seq<SessionEventView>)
    ensures
        session_trace(phase, events).len() == events.len(),
    decreases events.len(),
{
    if events.len() > 0 {
        lemma_session_trace_len(session_step(phase, events[0]).0, events.drop_first());
    }
}

/// Lines are streamed in order: while every operation succeeds, the session
/// asks to write, for each line that the operator types and in the order of
/// typing, exactly the bytes of that line, and it is prompting again when
/// the last one is written.
pub proof fn law_lines_are_written_in_order(lines: Seq<Seq<char>>)
    ensures
        written(session_trace(SessionPhase::Prompting, conversation(lines))) =~= Seq::new(
            lines.len(),
            |i: int| encode_utf8(lines[i]),
        ),
        session_phase_after(SessionPhase::Prompting, conversation(lines))
            == SessionPhase::Prompting,
    decreases lines.len(),
{
    if lines.len() > 0 {
        let rest = conversation(lines.drop_first());
        law_lines_are_written_in_order(lines.drop_first());
        let first = conversation(lines);
        let second = seq![SessionEventView::Line(lines[0]), SessionEventView::Written] + rest;
        let third = seq![SessionEventView::Written] + rest;
        assert(first[0] == SessionEventView::PromptShown);
        assert(first.drop_first() =~= second);
        assert(second[0] == SessionEventView::Line(lines[0]));
        assert(second.drop_first() =~= third);
        assert(third[0] == SessionEventView::Written);
        assert(third.drop_first() =~= rest);

        let bytes = encode_utf8(lines[0]);
        let tail = session_trace(SessionPhase::Prompting, rest);
        let from_third = seq![SessionActionView::Prompt] + tail;
        let from_second = seq![SessionActionView::Write(bytes)] + from_third;
        let from_first = seq![SessionActionView::ReadLine] + from_second;
        assert(session_trace(SessionPhase::Writing, third) =~= from_third);
        assert(session_trace(SessionPhase::Reading, second) =~= from_second);
        assert(session_trace(SessionPhase::Prompting, first) =~= from_first);
        assert(from_third.drop_first() =~= tail);
        assert(from_second.drop_first() =~= from_third);
        assert(from_first.drop_first() =~= from_second);
        assert(written(from_third) =~= written(tail));
        assert(written(from_second) =~= seq![bytes] + written(tail));
        assert(written(from_first) =~= seq![bytes] + written(tail));

        assert(session_phase_after(SessionPhase::Writing, third) == session_phase_after(
            SessionPhase::Prompting,
            rest,
        ));
        assert(session_phase_after(SessionPhase::Reading, second) == session_phase_after(
            SessionPhase::Writing,
            third,
        ));
        assert(session_phase_after(SessionPhase::Prompting, first) == session_phase_after(
            SessionPhase::Reading,
            second,
        ));
    }
}

/// Nothing is retried: a session that was given up stays so, and asks for
/// nothing more, whatever it is told.
pub proof fn law_aborted_session_is_final(events: Seq<SessionEventView>)
    ensures
        session_phase_after(SessionPhase::Aborted, events) == SessionPhase::Aborted,
        forall|i: int|
            0 <= i < events.len() ==> (#[trigger] session_trace(SessionPhase::Aborted, events)[i])
                == SessionActionView::Ignore,
    decreases events.len(),
{
    lemma_session_trace_len(SessionPhase::Aborted, events);
    if events.len() > 0 {
        let trace = session_trace(SessionPhase::Aborted, events);
        let tail = session_trace(SessionPhase::Aborted, events.drop_first());
        law_aborted_session_is_final(events.drop_first());
        lemma_session_trace_len(SessionPhase::Aborted, events.drop_first());
        assert(trace =~= seq![SessionActionView::Ignore] + tail);
        assert forall|i: int| 0 <= i < events.len() implies (#[trigger] trace[i])
            == SessionActionView::Ignore by {
            if i > 0 {
                assert(trace[i] == tail[i - 1]);
            }
        }
    }
}

} // verus!
