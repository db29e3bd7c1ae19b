use local_ipc::exit::{exit_status, Ending, StartupFailure};
use local_ipc::shutdown::{
    arm, ShutdownWatch, SupervisorAction, SupervisorEvent, SupervisorPhase, WatchAction,
    WatchEvent, WatchPhase, SIGNAL_SLOTS,
};

#[test]
fn signal_has_one_slot() {
    assert_eq!(SIGNAL_SLOTS, 1);
}

#[test]
fn status_is_zero_only_when_the_accept_loop_ended() {
    assert_eq!(exit_status(Ending::AcceptLoopEnded), 0);
    assert_eq!(exit_status(Ending::Interrupted), 1);
    assert_eq!(exit_status(Ending::StartupFailed(StartupFailure::MissingArguments)), 1);
    assert_eq!(exit_status(Ending::StartupFailed(StartupFailure::UnknownMode)), 1);
    assert_eq!(exit_status(Ending::StartupFailed(StartupFailure::BindRefused)), 1);
    assert_eq!(exit_status(Ending::StartupFailed(StartupFailure::ConnectRefused)), 1);
}

#[test]
fn armed_supervisor_waits_for_the_interrupt() {
    let (supervisor, _receiver) = arm();
    assert_eq!(supervisor.phase(), SupervisorPhase::Armed);
}

#[test]
fn interrupt_sends_one_notification() {
    let (mut supervisor, _receiver) = arm();
    assert_eq!(supervisor.step(SupervisorEvent::InterruptDelivered), SupervisorAction::Notify);
    assert_eq!(supervisor.phase(), SupervisorPhase::Notifying);
    assert_eq!(supervisor.step(SupervisorEvent::NotificationSent), SupervisorAction::Rest);
    assert_eq!(supervisor.phase(), SupervisorPhase::Spent);
}

#[test]
fn second_interrupt_sends_nothing() {
    let (mut supervisor, _receiver) = arm();
    let events = [
        SupervisorEvent::InterruptDelivered,
        SupervisorEvent::InterruptDelivered,
        SupervisorEvent::NotificationSent,
        SupervisorEvent::InterruptDelivered,
        SupervisorEvent::ListenFailed,
    ];
    let mut notifications = 0;
    for event in events {
        if supervisor.step(event) == SupervisorAction::Notify {
            notifications += 1;
        }
    }
    assert_eq!(notifications, 1);
    assert_eq!(supervisor.phase(), SupervisorPhase::Spent);
}

#[test]
fn failed_send_is_reported_and_not_fatal() {
    let (mut supervisor, _receiver) = arm();
    supervisor.step(SupervisorEvent::InterruptDelivered);
    assert_eq!(supervisor.step(SupervisorEvent::ReceiverGone), SupervisorAction::ReportSendFailure);
    assert_eq!(supervisor.phase(), SupervisorPhase::Spent);
}

#[test]
fn failed_listen_is_reported_and_nothing_is_sent() {
    let (mut supervisor, _receiver) = arm();
    assert_eq!(
        supervisor.step(SupervisorEvent::ListenFailed),
        SupervisorAction::ReportListenFailure
    );
    assert_eq!(supervisor.step(SupervisorEvent::InterruptDelivered), SupervisorAction::Ignore);
    assert_eq!(supervisor.phase(), SupervisorPhase::Spent);
}

#[test]
fn supervisor_ignores_what_does_not_fit() {
    let (mut supervisor, _receiver) = arm();
    assert_eq!(supervisor.step(SupervisorEvent::NotificationSent), SupervisorAction::Ignore);
    assert_eq!(supervisor.step(SupervisorEvent::ReceiverGone), SupervisorAction::Ignore);
    assert_eq!(supervisor.phase(), SupervisorPhase::Armed);
}

#[test]
fn owning_watch_removes_its_artifact_then_exits() {
    let (_supervisor, receiver) = arm();
    let mut watch = ShutdownWatch::owning(receiver, String::from("/run/demo.sock"));
    assert_eq!(watch.phase(), WatchPhase::Waiting);
    assert_eq!(watch.artifact(), Some(&String::from("/run/demo.sock")));
    assert_eq!(watch.step(WatchEvent::Notified), WatchAction::RemoveArtifact);
    assert_eq!(watch.phase(), WatchPhase::Removing);
    assert_eq!(watch.artifact(), Some(&String::from("/run/demo.sock")));
    assert_eq!(watch.step(WatchEvent::Removed), WatchAction::Exit);
    assert_eq!(watch.phase(), WatchPhase::Exiting);
}

#[test]
fn failed_removal_is_reported_and_still_exits() {
    let (_supervisor, receiver) = arm();
    let mut watch = ShutdownWatch::owning(receiver, String::from("/run/demo.sock"));
    watch.step(WatchEvent::Notified);
    assert_eq!(watch.step(WatchEvent::RemovalFailed), WatchAction::ReportRemovalFailureAndExit);
    assert_eq!(watch.phase(), WatchPhase::Exiting);
}

#[test]
fn plain_watch_announces_and_exits() {
    let (_supervisor, receiver) = arm();
    let mut watch = ShutdownWatch::plain(receiver);
    assert_eq!(watch.artifact(), None);
    assert_eq!(watch.step(WatchEvent::Notified), WatchAction::AnnounceAndExit);
    assert_eq!(watch.phase(), WatchPhase::Exiting);
}

#[test]
fn closed_channel_is_an_invariant_violation_and_no_exit() {
    let (_supervisor, receiver) = arm();
    let mut watch = ShutdownWatch::owning(receiver, String::from("/run/demo.sock"));
    assert_eq!(watch.step(WatchEvent::ChannelClosed), WatchAction::ReportLostSignal);
    assert_eq!(watch.phase(), WatchPhase::Orphaned);
    assert_eq!(watch.step(WatchEvent::Notified), WatchAction::Ignore);
    assert_eq!(watch.step(WatchEvent::Removed), WatchAction::Ignore);
    assert_eq!(watch.phase(), WatchPhase::Orphaned);

    let (_supervisor, receiver) = arm();
    let mut plain = ShutdownWatch::plain(receiver);
    assert_eq!(plain.step(WatchEvent::ChannelClosed), WatchAction::ReportLostSignal);
    assert_eq!(plain.phase(), WatchPhase::Orphaned);
}

#[test]
fn artifact_is_removed_once_whatever_arrives() {
    let (_supervisor, receiver) = arm();
    let mut watch = ShutdownWatch::owning(receiver, String::from("/run/demo.sock"));
    let events = [
        WatchEvent::Removed,
        WatchEvent::Notified,
        WatchEvent::Notified,
        WatchEvent::ChannelClosed,
        WatchEvent::Removed,
        WatchEvent::Notified,
        WatchEvent::Removed,
        WatchEvent::RemovalFailed,
    ];
    let mut removals = 0;
    let mut exits = 0;
    for event in events {
        match watch.step(event) {
            WatchAction::RemoveArtifact => removals += 1,
            WatchAction::Exit
            | WatchAction::AnnounceAndExit
            | WatchAction::ReportRemovalFailureAndExit => exits += 1,
            _ => {}
        }
    }
    assert_eq!(removals, 1);
    assert_eq!(exits, 1);
    assert_eq!(watch.phase(), WatchPhase::Exiting);
}

#[test]
fn watch_ignores_removal_answers_before_the_notification() {
    let (_supervisor, receiver) = arm();
    let mut watch = ShutdownWatch::owning(receiver, String::from("/run/demo.sock"));
    assert_eq!(watch.step(WatchEvent::Removed), WatchAction::Ignore);
    assert_eq!(watch.step(WatchEvent::RemovalFailed), WatchAction::Ignore);
    assert_eq!(watch.phase(), WatchPhase::Waiting);
}
