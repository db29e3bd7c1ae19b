//! The listener role: it binds the rendezvous path, accepts connections
//! without bound, and gives each accepted connection a handler of its own.

use crate::exit::StartupFailure;
use crate::handler::{
    forwarded_chunks, handler_phase_after, handler_step, handler_trace,
    law_stream_is_forwarded_in_order, stream_events, Emission, HandlerPhase, ReadEvent,
};
use crate::shutdown::{ShutdownReceiver, ShutdownWatch, WatchPhase, WatchState};
use vstd::prelude::*;

verus! {

/// How the platform answered the bind.
#[derive(Clone, Copy, Debug, PartialEq, Eq, Structural)]
pub enum BindOutcome {
    /// The path is bound: the rendezvous artifact exists and is the
    /// listener's.
    Bound,
    /// The path is in use or unwritable.
    Refused,
}

/// How the platform answered one wait for a connection.
#[derive(Clone, Copy, Debug, PartialEq, Eq, Structural)]
pub enum AcceptOutcome {
    /// A connection arrived.
    Accepted,
    /// The accept primitive failed.
    Failed,
}

/// Whether the accept loop runs.
#[derive(Clone, Copy, Debug, PartialEq, Eq, Structural)]
pub enum AcceptPhase {
    /// The listener is open and waits for connections.
    Open,
    /// The accept primitive failed; the loop has ended.
    Closed,
}

/// What the accept loop does next.
#[derive(Clone, Copy, Debug, PartialEq, Eq, Structural)]
pub enum AcceptAction {
    /// Spawn a task that owns the connection and a new handler, then wait
    /// for the next connection at once.
    SpawnHandler,
    /// Report the failure and leave the loop. Shutdown stays with the
    /// coordinator: nothing is cleaned up here.
    ReportFailureAndStop,
    /// The loop had ended before: do nothing.
    Stopped,
}

/// One turn of the accept loop.
pub open spec fn accept_step(phase: AcceptPhase, outcome: AcceptOutcome) -> (
    AcceptPhase,
    AcceptAction,
) {
    match (phase, outcome) {
        (AcceptPhase::Open, AcceptOutcome::Accepted) => (
            AcceptPhase::Open,
            AcceptAction::SpawnHandler,
        ),
        (AcceptPhase::Open, AcceptOutcome::Failed) => (
            AcceptPhase::Closed,
            AcceptAction::ReportFailureAndStop,
        ),
        (AcceptPhase::Closed, _) => (AcceptPhase::Closed, AcceptAction::Stopped),
    }
}

/// What becomes of a listener for `path` when its bind ends as `outcome`: the
/// state of the watch that now owns the artifact, or the failure. A listener
/// whose bind was refused owns nothing.
pub open spec fn listener_after_bind(path: Seq<char>, outcome: BindOutcome) -> Result<
    WatchState,
    StartupFailure,
> {
    match outcome {
        BindOutcome::Bound => Ok(
            WatchState { phase: WatchPhase::Waiting, artifact: Some(path) },
        ),
        BindOutcome::Refused => Err(StartupFailure::BindRefused),
    }
}

/// A listener that has not bound its path yet.
#[derive(Debug)]
pub struct Listener {
    path: String,
    receiver: ShutdownReceiver,
}

/// The state of the accept loop.
#[derive(Debug)]
pub struct AcceptLoop {
    phase: AcceptPhase,
}

/// A listener that owns its rendezvous artifact: the accept loop for the
/// role's own task, and the watch for its watching task.
#[derive(Debug)]
pub struct Listening {
    pub accept: AcceptLoop,
    pub watch: ShutdownWatch,
}

impl View for Listener {
    type V = Seq<char>;

    /// The rendezvous path.
    closed spec fn view(&self) -> Seq<char> {
        self.path@
    }
}

impl View for AcceptLoop {
    type V = AcceptPhase;

    closed spec fn view(&self) -> AcceptPhase {
        self.phase
    }
}

impl Listener {
    /// A listener for `path`, with the receiving end of an armed coordinator.
    pub fn new(path: String, receiver: ShutdownReceiver) -> (listener: Self)
        ensures
            listener@ == path@,
    {
        Listener { path, receiver }
    }

    /// The rendezvous path to bind.
    pub fn path(&self) -> (path: &String)
        ensures
            path@ == self@,
    {
        &self.path
    }

    /// Takes the platform's answer to the bind.
    ///
    /// A bound listener starts its accept loop and a watch that owns the
    /// artifact at its path. A refused bind is fatal: there is no retry, and
    /// the listener is left with nothing that could touch the path.
    pub fn on_bind(self, outcome: BindOutcome) -> (started: Result<Listening, StartupFailure>)
        ensures
            match listener_after_bind(self@, outcome) {
                Ok(watch) => {
                    &&& started matches Ok(listening)
                    &&& listening.watch@ == watch
                    &&& listening.accept@ == AcceptPhase::Open
                },
                Err(failure) => started matches Err(f) && f == failure,
            },
    {
        match outcome {
            BindOutcome::Bound => Ok(
                Listening {
                    accept: AcceptLoop { phase: AcceptPhase::Open },
                    watch: ShutdownWatch::owning(self.receiver, self.path),
                },
            ),
            BindOutcome::Refused => Err(StartupFailure::BindRefused),
        }
    }
}

impl AcceptLoop {
    /// Whether the loop runs.
    pub fn phase(&self) -> (phase: AcceptPhase)
        ensures
            phase == self@,
    {
        self.phase
    }

    /// Takes the outcome of one wait for a connection and says what to do.
    pub fn on_accept(&mut self, outcome: AcceptOutcome) -> (action: AcceptAction)
        ensures
            (final(self)@, action) == accept_step(old(self)@, outcome),
    {
        match self.phase {
            AcceptPhase::Open => match outcome {
                AcceptOutcome::Accepted => AcceptAction::SpawnHandler,
                AcceptOutcome::Failed => {
                    self.phase = AcceptPhase::Closed;
                    AcceptAction::ReportFailureAndStop
                },
            },
            AcceptPhase::Closed => AcceptAction::Stopped,
        }
    }
}

/// Something that happens to a listening role.
pub ghost enum ServiceEvent {
    /// One wait for a connection ended.
    Accept(AcceptOutcome),
    /// One read ended on the connection of the peer with this number.
    Read(nat, ReadEvent),
}

/// A listening role as a whole: the accept loop, the handlers of the
/// connections accepted so far, and what the handlers gave out.
pub ghost struct Service {
    /// Whether the accept loop runs.
    pub accept: AcceptPhase,
    /// The handlers in the order of acceptance. A peer's number is the
    /// position of its handler.
    pub handlers: Seq<HandlerPhase>,
    /// The chunks forwarded for inspection, each with its peer's number, in
    /// the order in which they were forwarded.
    pub output: Seq<(nat, Seq<u8>)>,
    /// The peers for which a read failure was reported, in that order.
    pub reports: Seq<nat>,
}

/// A listening role to which `peers` peers are connected and nothing has
/// arrived yet.
pub open spec fn connected(peers: nat) -> Service {
    Service {
        accept: AcceptPhase::Open,
        handlers: Seq::new(peers, |i: int| HandlerPhase::Open),
        output: Seq::empty(),
        reports: Seq::empty(),
    }
}

/// One step of a listening role. An accepted connection gets a new open
/// handler behind the others. A read goes to the handler of its peer and to
/// no other; a read for a peer that was never accepted changes nothing.
pub open spec fn service_step(service: Service, event: ServiceEvent) -> Service {
    match event {
        ServiceEvent::Accept(outcome) => {
            let step = accept_step(service.accept, outcome);
            Service {
                accept: step.0,
                handlers: if step.1 == AcceptAction::SpawnHandler {
                    service.handlers.push(HandlerPhase::Open)
                } else {
                    service.handlers
                },
                ..service
            }
        },
        ServiceEvent::Read(peer, read) => if peer < service.handlers.len() {
            let step = handler_step(service.handlers[peer as int], read);
            Service {
                handlers: service.handlers.update(peer as int, step.0),
                output: match step.1 {
                    Emission::Forward(chunk) => service.output.push((peer, chunk)),
                    _ => service.output,
                },
                reports: if step.1 is ReportFailure {
                    service.reports.push(peer)
                } else {
                    service.reports
                },
                ..service
            }
        } else {
            service
        },
    }
}

/// The listening role after it took `events` one after another.
pub open spec fn service_run(service: Service, events: Seq<ServiceEvent>) -> Service
    decreases events.len(),
{
    if events.len() == 0 {
        service
    } else {
        service_run(service_step(service, events[0]), events.drop_first())
    }
}

/// The reads among `events` that belong to `peer`, in their order.
pub open spec fn reads_of(events: Seq<ServiceEvent>, peer: nat) -> Seq<ReadEvent>
    decreases events.len(),
{
    if events.len() == 0 {
        Seq::empty()
    } else {
        let rest = reads_of(events.drop_first(), peer);
        match events[0] {
            ServiceEvent::Read(p, read) => if p == peer {
                seq![read] + rest
            } else {
                rest
            },
            _ => rest,
        }
    }
}

/// The chunks of `peer` in the output, in their order.
pub open spec fn chunks_of(output: Seq<(nat, Seq<u8>)>, peer: nat) -> Seq<Seq<u8>>
    decreases output.len(),
{
    if output.len() == 0 {
        Seq::empty()
    } else {
        let before = chunks_of(output.drop_last(), peer);
        if output.last().0 == peer {
            before.push(output.last().1)
        } else {
            before
        }
    }
}

/// Peers are independent: however the events of a listening role interleave,
/// the handler of a connected peer ends where it would have ended on that
/// peer's reads alone, and the output holds for that peer exactly the chunks
/// that its handler forwards on those reads, in their order.
pub proof fn law_peers_are_independent(service: Service, events: Seq<ServiceEvent>, peer: nat)
    requires
        peer < service.handlers.len(),
    ensures
        peer < service_run(service, events).handlers.len(),
        service_run(service, events).handlers[peer as int] == handler_phase_after(
            service.handlers[peer as int],
            reads_of(events, peer),
        ),
        chunks_of(service_run(service, events).output, peer) =~= chunks_of(service.output, peer)
            + forwarded_chunks(
            handler_trace(service.handlers[peer as int], reads_of(events, peer)),
        ),
    decreases events.len(),
{
    let phase = service.handlers[peer as int];
    let reads = reads_of(events, peer);
    if events.len() == 0 {
        assert(forwarded_chunks(handler_trace(phase, reads)) =~= Seq::<Seq<u8>>::empty());
    } else {
        let next = service_step(service, events[0]);
        let rest = events.drop_first();
        law_peers_are_independent(next, rest, peer);
        let rest_reads = reads_of(rest, peer);
        let rest_chunks = forwarded_chunks(handler_trace(next.handlers[peer as int], rest_reads));
        match events[0] {
            ServiceEvent::Read(p, read) => {
                if p == peer {
                    let step = handler_step(phase, read);
                    assert(reads =~= seq![read] + rest_reads);
                    assert(reads[0] == read);
                    assert(reads.drop_first() =~= rest_reads);
                    let trace = handler_trace(phase, reads);
                    let tail = handler_trace(step.0, rest_reads);
                    assert(trace =~= seq![step.1] + tail);
                    assert(trace[0] == step.1);
                    assert(trace.drop_first() =~= tail);
                    match step.1 {
                        Emission::Forward(chunk) => {
                            assert(next.output.drop_last() =~= service.output);
                            assert(forwarded_chunks(trace) =~= seq![chunk] + rest_chunks);
                        },
                        _ => {
                            assert(forwarded_chunks(trace) =~= rest_chunks);
                        },
                    }
                } else if p < service.handlers.len() {
                    let step = handler_step(service.handlers[p as int], read);
                    if step.1 is Forward {
                        assert(next.output.drop_last() =~= service.output);
                    }
                }
            },
            ServiceEvent::Accept(outcome) => {},
        }
    }
}

/// What `law_every_stream_is_observed` says, for one peer.
proof fn lemma_stream_of_peer_is_observed(
    streams: Seq<Seq<Seq<u8>>>,
    events: Seq<ServiceEvent>,
    peer: nat,
)
    requires
        peer < streams.len(),
        forall|i: int|
            0 <= i < streams[peer as int].len() ==> (#[trigger] streams[peer as int][i]).len()
                > 0,
        reads_of(events, peer) == stream_events(streams[peer as int]),
    ensures
        chunks_of(service_run(connected(streams.len()), events).output, peer)
            =~= streams[peer as int],
        service_run(connected(streams.len()), events).handlers[peer as int]
            == HandlerPhase::Finished,
{
    let start = connected(streams.len());
    law_peers_are_independent(start, events, peer);
    law_stream_is_forwarded_in_order(streams[peer as int]);
    assert(chunks_of(start.output, peer) =~= Seq::<Seq<u8>>::empty());
}

/// Every stream is observed: when any number of peers are connected and the
/// reads of each peer are the chunks of its stream and then its closure,
/// then however those reads interleave, the output holds for each peer
/// exactly the chunks of its stream, in their order, and each handler has
/// ended normally. Nothing is said of the order across peers.
pub proof fn law_every_stream_is_observed(streams: Seq<Seq<Seq<u8>>>, events: Seq<ServiceEvent>)
    requires
        forall|p: int, i: int|
            0 <= p < streams.len() && 0 <= i < streams[p].len() ==> (#[trigger] streams[p][i]).len()
                > 0,
        forall|p: int|
            0 <= p < streams.len() ==> #[trigger] reads_of(events, p as nat) == stream_events(
                streams[p],
            ),
    ensures
        forall|p: int|
            0 <= p < streams.len() ==> {
                &&& #[trigger] chunks_of(
                    service_run(connected(streams.len()), events).output,
                    p as nat,
                ) =~= streams[p]
                &&& service_run(connected(streams.len()), events).handlers[p]
                    == HandlerPhase::Finished
            },
{
    assert forall|p: int| 0 <= p < streams.len() implies {
        &&& #[trigger] chunks_of(service_run(connected(streams.len()), events).output, p as nat)
            =~= streams[p]
        &&& service_run(connected(streams.len()), events).handlers[p] == HandlerPhase::Finished
    } by {
        assert(reads_of(events, p as nat) == stream_events(streams[p]));
        lemma_stream_of_peer_is_observed(streams, events, p as nat);
    }
}

/// A read is local to its handler: whatever a read on one peer's connection
/// gives, a failure too, the accept loop and the handlers of all other peers
/// stay as they were, and nothing is added to the output or the reports on
/// behalf of another peer.
pub proof fn law_reads_are_local(service: Service, peer: nat, read: ReadEvent, other: nat)
    requires
        other != peer,
        other < service.handlers.len(),
    ensures
        service_step(service, ServiceEvent::Read(peer, read)).accept == service.accept,
        service_step(service, ServiceEvent::Read(peer, read)).handlers.len()
            == service.handlers.len(),
        service_step(service, ServiceEvent::Read(peer, read)).handlers[other as int]
            == service.handlers[other as int],
        chunks_of(service_step(service, ServiceEvent::Read(peer, read)).output, other)
            == chunks_of(service.output, other),
{
    let next = service_step(service, ServiceEvent::Read(peer, read));
    if peer < service.handlers.len() {
        if handler_step(service.handlers[peer as int], read).1 is Forward {
            assert(next.output.drop_last() =~= service.output);
        }
    }
}

/// A zero-length read is a closure and no error: the handler that sees it
/// ends normally, nothing is forwarded and no failure is reported, and the
/// accept loop and all other handlers stay as they were.
pub proof fn law_closure_is_local(service: Service, peer: nat)
    requires
        peer < service.handlers.len(),
        service.handlers[peer as int] == HandlerPhase::Open,
    ensures
        service_step(service, ServiceEvent::Read(peer, ReadEvent::Bytes(Seq::empty())))
            == (Service {
            handlers: service.handlers.update(peer as int, HandlerPhase::Finished),
            ..service
        }),
{
}

} // verus!
