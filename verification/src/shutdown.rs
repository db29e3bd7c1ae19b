//! The shutdown coordinator: one path from "an interrupt was received" to the
//! role's cleanup and the end of the process.
//!
//! Arming gives two halves. The `Supervisor` belongs to the detached task that
//! waits for the platform's interrupt and sends one notification. The
//! `ShutdownReceiver` goes to the role, which turns it into the
//! `ShutdownWatch` of its own watching task. A role cannot be made without a
//! receiver, so the coordinator is armed before any connection work starts.

use vstd::prelude::*;

verus! {

/// Number of slots of the notification channel: the signal is one-shot.
pub const SIGNAL_SLOTS: usize = 1;

/// Where the supervising task stands.
#[derive(Clone, Copy, Debug, PartialEq, Eq, Structural)]
pub enum SupervisorPhase {
    /// Waiting for the interrupt.
    Armed,
    /// The interrupt came; the notification is being sent.
    Notifying,
    /// Nothing is left to do.
    Spent,
}

/// What the supervising task learns from the platform and the channel.
#[derive(Clone, Copy, Debug, PartialEq, Eq, Structural)]
pub enum SupervisorEvent {
    /// The interrupt was delivered.
    InterruptDelivered,
    /// Listening for the interrupt failed.
    ListenFailed,
    /// The notification was sent.
    NotificationSent,
    /// The notification could not be sent: the receiving end is gone.
    ReceiverGone,
}

/// What the supervising task does next.
#[derive(Clone, Copy, Debug, PartialEq, Eq, Structural)]
pub enum SupervisorAction {
    /// Send one notification on the channel.
    Notify,
    /// Report that listening for the interrupt failed, and end the task. No
    /// notification will ever be sent.
    ReportListenFailure,
    /// Report that the notification could not be sent, and end the task.
    /// This is not fatal.
    ReportSendFailure,
    /// End the task: the notification is on its way.
    Rest,
    /// The event does not fit the phase: do nothing.
    Ignore,
}

/// One step of the supervising task.
pub open spec fn supervisor_step(phase: SupervisorPhase, event: SupervisorEvent) -> (
    SupervisorPhase,
    SupervisorAction,
) {
    match (phase, event) {
        (SupervisorPhase::Armed, SupervisorEvent::InterruptDelivered) => (
            SupervisorPhase::Notifying,
            SupervisorAction::Notify,
        ),
        (SupervisorPhase::Armed, SupervisorEvent::ListenFailed) => (
            SupervisorPhase::Spent,
            SupervisorAction::ReportListenFailure,
        ),
        (SupervisorPhase::Notifying, SupervisorEvent::NotificationSent) => (
            SupervisorPhase::Spent,
            SupervisorAction::Rest,
        ),
        (SupervisorPhase::Notifying, SupervisorEvent::ReceiverGone) => (
            SupervisorPhase::Spent,
            SupervisorAction::ReportSendFailure,
        ),
        _ => (phase, SupervisorAction::Ignore),
    }
}

/// The state of the detached task that turns the interrupt into the
/// notification.
#[derive(Debug)]
pub struct Supervisor {
    phase: SupervisorPhase,
}

impl View for Supervisor {
    type V = SupervisorPhase;

    closed spec fn view(&self) -> SupervisorPhase {
        self.phase
    }
}

/// The receiving end of the notification, for exactly one watching task.
#[derive(Debug)]
pub struct ShutdownReceiver {
    seal: (),
}

/// Arms the coordinator: the supervisor waits for the interrupt, and the
/// receiver is ready to be handed to a role.
pub fn arm() -> (halves: (Supervisor, ShutdownReceiver))
    ensures
        halves.0@ == SupervisorPhase::Armed,
{
    (Supervisor { phase: SupervisorPhase::Armed }, ShutdownReceiver { seal: () })
}

impl Supervisor {
    /// Where the supervising task stands.
    pub fn phase(&self) -> (phase: SupervisorPhase)
        ensures
            phase == self@,
    {
        self.phase
    }

    /// Takes an event and says what the supervising task does next.
    pub fn step(&mut self, event: SupervisorEvent) -> (action: SupervisorAction)
        ensures
            (final(self)@, action) == supervisor_step(old(self)@, event),
    {
        match self.phase {
            SupervisorPhase::Armed => match event {
                SupervisorEvent::InterruptDelivered => {
                    self.phase = SupervisorPhase::Notifying;
                    SupervisorAction::Notify
                },
                SupervisorEvent::ListenFailed => {
                    self.phase = SupervisorPhase::Spent;
                    SupervisorAction::ReportListenFailure
                },
                _ => SupervisorAction::Ignore,
            },
            SupervisorPhase::Notifying => match event {
                SupervisorEvent::NotificationSent => {
                    self.phase = SupervisorPhase::Spent;
                    SupervisorAction::Rest
                },
                SupervisorEvent::ReceiverGone => {
                    self.phase = SupervisorPhase::Spent;
                    SupervisorAction::ReportSendFailure
                },
                _ => SupervisorAction::Ignore,
            },
            SupervisorPhase::Spent => SupervisorAction::Ignore,
        }
    }
}

/// Where the watching task stands.
#[derive(Clone, Copy, Debug, PartialEq, Eq, Structural)]
pub enum WatchPhase {
    /// Waiting for the notification.
    Waiting,
    /// The notification came; the rendezvous artifact is being removed.
    Removing,
    /// The process has been told to terminate.
    Exiting,
    /// The channel closed without a notification.
    Orphaned,
}

/// What the watching task learns from the channel and the platform.
#[derive(Clone, Copy, Debug, PartialEq, Eq, Structural)]
pub enum WatchEvent {
    /// The notification arrived.
    Notified,
    /// The channel closed and no notification had arrived.
    ChannelClosed,
    /// The rendezvous artifact was removed.
    Removed,
    /// The rendezvous artifact could not be removed.
    RemovalFailed,
}

/// What the watching task does next.
#[derive(Clone, Copy, Debug, PartialEq, Eq, Structural)]
pub enum WatchAction {
    /// Remove the rendezvous artifact at the watch's path, then hand in how
    /// that went.
    RemoveArtifact,
    /// Terminate the process as interrupted.
    Exit,
    /// Say that the role shuts down, then terminate the process as
    /// interrupted.
    AnnounceAndExit,
    /// Report loudly that the artifact is still there, then terminate the
    /// process as interrupted.
    ReportRemovalFailureAndExit,
    /// Report an internal invariant violation: the sending half went away
    /// without signalling. The process is not terminated.
    ReportLostSignal,
    /// The event does not fit the phase: do nothing.
    Ignore,
}

/// The watching task as contracts see it.
pub ghost struct WatchState {
    /// Where the task stands.
    pub phase: WatchPhase,
    /// The path of the artifact that the role owns, if it owns one.
    pub artifact: Option<Seq<char>>,
}

/// One step of the watching task. The artifact's path never changes.
///
/// The notification starts the role's cleanup: a role that owns an artifact
/// removes it and terminates when that is done, however it went; a role that
/// owns none terminates at once. A channel that closes while the task waits
/// is reported and terminates nothing.
pub open spec fn watch_step(state: WatchState, event: WatchEvent) -> (WatchState, WatchAction) {
    match (state.phase, event) {
        (WatchPhase::Waiting, WatchEvent::Notified) => if state.artifact is Some {
            (WatchState { phase: WatchPhase::Removing, ..state }, WatchAction::RemoveArtifact)
        } else {
            (WatchState { phase: WatchPhase::Exiting, ..state }, WatchAction::AnnounceAndExit)
        },
        (WatchPhase::Waiting, WatchEvent::ChannelClosed) => (
            WatchState { phase: WatchPhase::Orphaned, ..state },
            WatchAction::ReportLostSignal,
        ),
        (WatchPhase::Removing, WatchEvent::Removed) => (
            WatchState { phase: WatchPhase::Exiting, ..state },
            WatchAction::Exit,
        ),
        (WatchPhase::Removing, WatchEvent::RemovalFailed) => (
            WatchState { phase: WatchPhase::Exiting, ..state },
            WatchAction::ReportRemovalFailureAndExit,
        ),
        _ => (state, WatchAction::Ignore),
    }
}

/// Whether an action terminates the process.
pub open spec fn terminates(action: WatchAction) -> bool {
    action == WatchAction::Exit || action == WatchAction::AnnounceAndExit || action
        == WatchAction::ReportRemovalFailureAndExit
}

/// The state of the role's watching task: it waits for the notification, runs
/// the role's cleanup and ends the process.
#[derive(Debug)]
pub struct ShutdownWatch {
    phase: WatchPhase,
    artifact: Option<String>,
}

impl View for ShutdownWatch {
    type V = WatchState;

    closed spec fn view(&self) -> WatchState {
        WatchState {
            phase: self.phase,
            artifact: match self.artifact {
                Some(path) => Some(path@),
                None => None,
            },
        }
    }
}

impl ShutdownWatch {
    /// The watch of a role that owns the rendezvous artifact at `artifact`.
    pub fn owning(_receiver: ShutdownReceiver, artifact: String) -> (watch: Self)
        ensures
            watch@ == (WatchState { phase: WatchPhase::Waiting, artifact: Some(artifact@) }),
    {
        ShutdownWatch { phase: WatchPhase::Waiting, artifact: Some(artifact) }
    }

    /// The watch of a role that owns no artifact.
    pub fn plain(_receiver: ShutdownReceiver) -> (watch: Self)
        ensures
            watch@ == (WatchState { phase: WatchPhase::Waiting, artifact: None }),
    {
        ShutdownWatch { phase: WatchPhase::Waiting, artifact: None }
    }

    /// Where the watching task stands.
    pub fn phase(&self) -> (phase: WatchPhase)
        ensures
            phase == self@.phase,
    {
        self.phase
    }

    /// The path of the artifact that the role owns, if it owns one.
    pub fn artifact(&self) -> (path: Option<&String>)
        ensures
            path is Some <==> self@.artifact is Some,
            path matches Some(p) ==> self@.artifact == Some(p@),
    {
        self.artifact.as_ref()
    }

    /// Takes an event and says what the watching task does next.
    pub fn step(&mut self, event: WatchEvent) -> (action: WatchAction)
        ensures
            (final(self)@, action) == watch_step(old(self)@, event),
    {
        match self.phase {
            WatchPhase::Waiting => match event {
                WatchEvent::Notified => {
                    if self.artifact.is_some() {
                        self.phase = WatchPhase::Removing;
                        WatchAction::RemoveArtifact
                    } else {
                        self.phase = WatchPhase::Exiting;
                        WatchAction::AnnounceAndExit
                    }
                },
                WatchEvent::ChannelClosed => {
                    self.phase = WatchPhase::Orphaned;
                    WatchAction::ReportLostSignal
                },
                _ => WatchAction::Ignore,
            },
            WatchPhase::Removing => match event {
                WatchEvent::Removed => {
                    self.phase = WatchPhase::Exiting;
                    WatchAction::Exit
                },
                WatchEvent::RemovalFailed => {
                    self.phase = WatchPhase::Exiting;
                    WatchAction::ReportRemovalFailureAndExit
                },
                _ => WatchAction::Ignore,
            },
            _ => WatchAction::Ignore,
        }
    }
}

/// How often `action` occurs in `trace`.
pub open spec fn occurrences<A>(trace: Seq<A>, action: A) -> nat
    decreases trace.len(),
{
    if trace.len() == 0 {
        0
    } else {
        let here: nat = if trace[0] == action {
            1
        } else {
            0
        };
        here + occurrences(trace.drop_first(), action)
    }
}

/// What the supervising task does, event by event, while it takes `events`
/// one after another, starting in `phase`.
pub open spec fn supervisor_trace(phase: SupervisorPhase, events: Seq<SupervisorEvent>) -> Seq<
    SupervisorAction,
>
    decreases events.len(),
{
    if events.len() == 0 {
        Seq::empty()
    } else {
        let step = supervisor_step(phase, events[0]);
        seq![step.1] + supervisor_trace(step.0, events.drop_first())
    }
}

/// What the watching task does, event by event, while it takes `events` one
/// after another, starting in `state`.
pub open spec fn watch_trace(state: WatchState, events: Seq<WatchEvent>) -> Seq<WatchAction>
    decreases events.len(),
{
    if events.len() == 0 {
        Seq::empty()
    } else {
        let step = watch_step(state, events[0]);
        seq![step.1] + watch_trace(step.0, events.drop_first())
    }
}

/// The watching task's state after it took `events`, starting in `state`.
pub open spec fn watch_state_after(state: WatchState, events: Seq<WatchEvent>) -> WatchState
    decreases events.len(),
{
    if events.len() == 0 {
        state
    } else {
        watch_state_after(watch_step(state, events[0]).0, events.drop_first())
    }
}

/// How many actions of `trace` terminate the process.
pub open spec fn terminations(trace: Seq<WatchAction>) -> nat
    decreases trace.len(),
{
    if trace.len() == 0 {
        0
    } else {
        let here: nat = if terminates(trace[0]) {
            1
        } else {
            0
        };
        here + terminations(trace.drop_first())
    }
}

/// A trace of the watching task has one entry for each event.
pub proof fn lemma_watch_trace_len(state: WatchState, events: Seq<WatchEvent>)
    ensures
        watch_trace(state, events).len() == events.len(),
    decreases events.len(),
{
    if events.len() > 0 {
        lemma_watch_trace_len(watch_step(state, events[0]).0, events.drop_first());
    }
}

/// The signal is one-shot: whatever the supervising task is told, and in
/// whatever order, it sends at most one notification, and none unless it is
/// still armed. An armed task whose first event is the interrupt sends
/// exactly one.
pub proof fn law_at_most_one_notification(phase: SupervisorPhase, events: Seq<SupervisorEvent>)
    ensures
        occurrences(supervisor_trace(phase, events), SupervisorAction::Notify) <= 1,
        phase != SupervisorPhase::Armed ==> occurrences(
            supervisor_trace(phase, events),
            SupervisorAction::Notify,
        ) == 0,
        phase == SupervisorPhase::Armed && events.len() > 0 && events[0]
            == SupervisorEvent::InterruptDelivered ==> occurrences(
            supervisor_trace(phase, events),
            SupervisorAction::Notify,
        ) == 1,
    decreases events.len(),
{
    if events.len() > 0 {
        let step = supervisor_step(phase, events[0]);
        let tail = supervisor_trace(step.0, events.drop_first());
        law_at_most_one_notification(step.0, events.drop_first());
        let trace = supervisor_trace(phase, events);
        assert(trace[0] == step.1);
        assert(trace.drop_first() =~= tail);
    }
}

/// The artifact is removed at most once: whatever the watching task is told,
/// and in whatever order, it asks for the removal at most once, and never
/// unless it is still waiting and owns an artifact. The path that it owns
/// never changes.
pub proof fn law_artifact_is_removed_at_most_once(state: WatchState, events: Seq<WatchEvent>)
    ensures
        occurrences(watch_trace(state, events), WatchAction::RemoveArtifact) <= 1,
        state.phase != WatchPhase::Waiting || state.artifact is None ==> occurrences(
            watch_trace(state, events),
            WatchAction::RemoveArtifact,
        ) == 0,
        watch_state_after(state, events).artifact == state.artifact,
    decreases events.len(),
{
    if events.len() > 0 {
        let step = watch_step(state, events[0]);
        let tail = watch_trace(step.0, events.drop_first());
        law_artifact_is_removed_at_most_once(step.0, events.drop_first());
        let trace = watch_trace(state, events);
        assert(trace[0] == step.1);
        assert(trace.drop_first() =~= tail);
    }
}

/// Once fired, the process is committed to terminating: the watching task
/// tells the process to terminate at most once, and after that it does
/// nothing more. A task that is orphaned never terminates the process.
pub proof fn law_process_is_terminated_at_most_once(state: WatchState, events: Seq<WatchEvent>)
    ensures
        terminations(watch_trace(state, events)) <= 1,
        state.phase == WatchPhase::Exiting || state.phase == WatchPhase::Orphaned ==> {
            &&& watch_state_after(state, events) == state
            &&& forall|i: int|
                0 <= i < events.len() ==> (#[trigger] watch_trace(state, events)[i])
                    == WatchAction::Ignore
            &&& terminations(watch_trace(state, events)) == 0
        },
    decreases events.len(),
{
    if events.len() > 0 {
        let step = watch_step(state, events[0]);
        let tail = watch_trace(step.0, events.drop_first());
        law_process_is_terminated_at_most_once(step.0, events.drop_first());
        let trace = watch_trace(state, events);
        lemma_watch_trace_len(state, events);
        lemma_watch_trace_len(step.0, events.drop_first());
        assert(trace[0] == step.1);
        assert(trace.drop_first() =~= tail);
        if step.0.phase == WatchPhase::Removing {
            lemma_removal_ends_in_termination(step.0, events.drop_first());
        }
        if state.phase == WatchPhase::Exiting || state.phase == WatchPhase::Orphaned {
            assert forall|i: int| 0 <= i < events.len() implies (#[trigger] trace[i])
                == WatchAction::Ignore by {
                if i > 0 {
                    assert(trace[i] == tail[i - 1]);
                }
            }
        }
    }
}

/// While the artifact is being removed, at most one termination can follow.
proof fn lemma_removal_ends_in_termination(state: WatchState, events: Seq<WatchEvent>)
    requires
        state.phase == WatchPhase::Removing,
    ensures
        terminations(watch_trace(state, events)) <= 1,
    decreases events.len(),
{
    if events.len() > 0 {
        let step = watch_step(state, events[0]);
        let tail = watch_trace(step.0, events.drop_first());
        let trace = watch_trace(state, events);
        assert(trace[0] == step.1);
        assert(trace.drop_first() =~= tail);
        if step.0.phase == WatchPhase::Removing {
            lemma_removal_ends_in_termination(step.0, events.drop_first());
        } else {
            law_process_is_terminated_at_most_once(step.0, events.drop_first());
        }
    }
}

} // verus!
