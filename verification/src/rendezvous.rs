//! The rendezvous artifact: the name on the filesystem by which a listener
//! is found.
//!
//! The library never touches the filesystem. What it decides is when the
//! artifact is to be made and when it is to be removed. To say what those
//! decisions achieve, this module models the platform's side as the set of
//! paths at which an artifact exists: a bind makes the artifact and is
//! refused where one exists already, and a successful removal takes it away.

use crate::exit::{status_of, Ending, StartupFailure};
use crate::listener::{listener_after_bind, BindOutcome};
use crate::shutdown::{
    law_process_is_terminated_at_most_once, lemma_watch_trace_len, watch_state_after, watch_step,
    watch_trace, WatchAction, WatchEvent, WatchPhase, WatchState,
};
use vstd::prelude::*;

verus! {

/// Whether the platform may answer `outcome` to a bind of `path` while
/// artifacts exist at the paths in `taken`. A path that is taken is always
/// refused. A free path may be bound, or refused for another reason.
pub open spec fn bind_may_answer(
    taken: Set<Seq<char>>,
    path: Seq<char>,
    outcome: BindOutcome,
) -> bool {
    taken.contains(path) ==> outcome == BindOutcome::Refused
}

/// The artifacts that exist after a bind of `path` ended as `outcome`: a
/// successful bind makes the artifact, a refused one changes nothing.
pub open spec fn artifacts_after_bind(
    taken: Set<Seq<char>>,
    path: Seq<char>,
    outcome: BindOutcome,
) -> Set<Seq<char>> {
    if outcome == BindOutcome::Bound {
        taken.insert(path)
    } else {
        taken
    }
}

/// The artifacts that exist after the watching task took `events`, starting
/// in `state` with the artifacts in `taken`: a removal that the task asked
/// for and that succeeded has taken the task's artifact away, and nothing
/// else has changed.
pub open spec fn artifacts_after_watch(
    taken: Set<Seq<char>>,
    state: WatchState,
    events: Seq<WatchEvent>,
) -> Set<Seq<char>>
    decreases events.len(),
{
    if events.len() == 0 {
        taken
    } else {
        let left = if state.phase == WatchPhase::Removing && events[0] == WatchEvent::Removed
            && state.artifact is Some {
            taken.remove(state.artifact->0)
        } else {
            taken
        };
        artifacts_after_watch(left, watch_step(state, events[0]).0, events.drop_first())
    }
}

/// The watching task makes no artifact: whatever it is told, what exists
/// afterwards existed before.
pub proof fn lemma_watch_makes_no_artifact(
    taken: Set<Seq<char>>,
    state: WatchState,
    events: Seq<WatchEvent>,
)
    ensures
        artifacts_after_watch(taken, state, events).subset_of(taken),
    decreases events.len(),
{
    if events.len() > 0 {
        let left = if state.phase == WatchPhase::Removing && events[0] == WatchEvent::Removed
            && state.artifact is Some {
            taken.remove(state.artifact->0)
        } else {
            taken
        };
        lemma_watch_makes_no_artifact(left, watch_step(state, events[0]).0, events.drop_first());
    }
}

/// Bind exclusivity: while a live listener's artifact exists at a path, the
/// platform refuses a second bind of that path, the refusal is a fatal
/// startup failure with status one, the refused listener gets no watch and
/// so nothing with which it could remove the artifact, and the artifact of
/// the first listener is still there.
pub proof fn law_bind_exclusivity(taken: Set<Seq<char>>, path: Seq<char>, outcome: BindOutcome)
    requires
        taken.contains(path),
        bind_may_answer(taken, path, outcome),
    ensures
        outcome == BindOutcome::Refused,
        listener_after_bind(path, outcome) == Err::<WatchState, StartupFailure>(
            StartupFailure::BindRefused,
        ),
        status_of(Ending::StartupFailed(StartupFailure::BindRefused)) == 1,
        artifacts_after_bind(taken, path, outcome) == taken,
{
}

/// A clean exit leaves no artifact: whatever the watching task of a bound
/// listener is told, and in whatever order, if it ever gives out `Exit`, the
/// artifact at the listener's path exists no more.
pub proof fn law_clean_exit_leaves_no_artifact(
    taken: Set<Seq<char>>,
    state: WatchState,
    events: Seq<WatchEvent>,
    path: Seq<char>,
)
    requires
        state.artifact == Some(path),
        watch_trace(state, events).contains(WatchAction::Exit),
    ensures
        !artifacts_after_watch(taken, state, events).contains(path),
    decreases events.len(),
{
    let trace = watch_trace(state, events);
    let at = choose|i: int| 0 <= i < trace.len() && trace[i] == WatchAction::Exit;
    lemma_watch_trace_len(state, events);
    assert(events.len() > 0);
    let step = watch_step(state, events[0]);
    let rest = events.drop_first();
    let tail = watch_trace(step.0, rest);
    lemma_watch_trace_len(step.0, rest);
    assert(trace[0] == step.1);
    assert(trace.drop_first() =~= tail);
    if step.1 == WatchAction::Exit {
        lemma_watch_makes_no_artifact(taken.remove(path), step.0, rest);
    } else {
        assert(at > 0);
        assert(tail[at - 1] == WatchAction::Exit);
        if step.0.phase == WatchPhase::Exiting || step.0.phase == WatchPhase::Orphaned {
            law_process_is_terminated_at_most_once(step.0, rest);
            assert(tail[at - 1] == WatchAction::Ignore);
        } else {
            law_clean_exit_leaves_no_artifact(taken, step.0, rest, path);
        }
    }
}

/// Clean shutdown removes the artifact: when the watching task of a bound
/// listener is notified, it asks for the removal of the artifact at the
/// listener's path; when the removal succeeds, it terminates the process with
/// status one. The artifact then exists no more, so the platform may bind the
/// same path for a fresh listener, which then owns the artifact anew.
pub proof fn law_clean_shutdown_frees_the_path(taken: Set<Seq<char>>, path: Seq<char>)
    ensures
        listener_after_bind(path, BindOutcome::Bound) == Ok::<WatchState, StartupFailure>(
            WatchState { phase: WatchPhase::Waiting, artifact: Some(path) },
        ),
        watch_trace(
            WatchState { phase: WatchPhase::Waiting, artifact: Some(path) },
            seq![WatchEvent::Notified, WatchEvent::Removed],
        ) =~= seq![WatchAction::RemoveArtifact, WatchAction::Exit],
        watch_state_after(
            WatchState { phase: WatchPhase::Waiting, artifact: Some(path) },
            seq![WatchEvent::Notified, WatchEvent::Removed],
        ) == (WatchState { phase: WatchPhase::Exiting, artifact: Some(path) }),
        status_of(Ending::Interrupted) == 1,
        !artifacts_after_watch(
            artifacts_after_bind(taken, path, BindOutcome::Bound),
            WatchState { phase: WatchPhase::Waiting, artifact: Some(path) },
            seq![WatchEvent::Notified, WatchEvent::Removed],
        ).contains(path),
        bind_may_answer(
            artifacts_after_watch(
                artifacts_after_bind(taken, path, BindOutcome::Bound),
                WatchState { phase: WatchPhase::Waiting, artifact: Some(path) },
                seq![WatchEvent::Notified, WatchEvent::Removed],
            ),
            path,
            BindOutcome::Bound,
        ),
{
    let waiting = WatchState { phase: WatchPhase::Waiting, artifact: Some(path) };
    let removing = WatchState { phase: WatchPhase::Removing, artifact: Some(path) };
    let exiting = WatchState { phase: WatchPhase::Exiting, artifact: Some(path) };
    let events = seq![WatchEvent::Notified, WatchEvent::Removed];
    let rest = seq![WatchEvent::Removed];
    let none = Seq::<WatchEvent>::empty();
    assert(events.drop_first() =~= rest);
    assert(rest.drop_first() =~= none);
    assert(watch_step(waiting, events[0]) == (removing, WatchAction::RemoveArtifact));
    assert(watch_step(removing, rest[0]) == (exiting, WatchAction::Exit));
    assert(watch_trace(exiting, none) =~= Seq::<WatchAction>::empty());
    assert(watch_trace(removing, rest) =~= seq![WatchAction::Exit]);
    assert(watch_state_after(exiting, none) == exiting);
    assert(watch_state_after(removing, rest) == exiting);
    let trace = watch_trace(waiting, events);
    assert(trace =~= seq![WatchAction::RemoveArtifact, WatchAction::Exit]);
    assert(trace[1] == WatchAction::Exit);
    law_clean_exit_leaves_no_artifact(
        artifacts_after_bind(taken, path, BindOutcome::Bound),
        waiting,
        events,
        path,
    );
}

} // verus!
