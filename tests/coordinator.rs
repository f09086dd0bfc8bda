use vermuda::coordinator::{
    resolve_trigger, CooperativeOutcome, CoordinatorAction, Disposition, RaceWinner,
    ShutdownCoordinator, ShutdownTrigger, GRACEFUL_EXIT_CODE, USER_FORCED_EXIT_CODE,
};

#[test]
fn race_winners_map_to_triggers() {
    assert_eq!(resolve_trigger(RaceWinner::AppExitRequested), ShutdownTrigger::AppExit);
    assert_eq!(resolve_trigger(RaceWinner::ShutdownNoticeReceived), ShutdownTrigger::GuestStop);
    assert_eq!(
        resolve_trigger(RaceWinner::ShutdownNoticeFailed),
        ShutdownTrigger::SignalStreamClosed
    );
    assert_eq!(resolve_trigger(RaceWinner::InterruptReceived), ShutdownTrigger::CtrlC);
    assert_eq!(
        resolve_trigger(RaceWinner::InterruptStreamEnded),
        ShutdownTrigger::SignalStreamClosed
    );
}

#[test]
fn guest_stop_needs_no_stop_call_and_exits_gracefully() {
    let trigger = resolve_trigger(RaceWinner::ShutdownNoticeReceived);
    assert_eq!(trigger, ShutdownTrigger::GuestStop);
    let c = ShutdownCoordinator::new(trigger);
    assert_eq!(c.next_action(), CoordinatorAction::Finish);
    assert_eq!(c.exit_code(), GRACEFUL_EXIT_CODE);
    assert_eq!(c.exit_code(), 0);
    assert_eq!(c.disposition(), Disposition::InitiateTermination);
}

#[test]
fn second_interrupt_escalates_to_forced_stop_with_user_forced_code() {
    for ok in [true, false] {
        let mut c = ShutdownCoordinator::new(ShutdownTrigger::CtrlC);
        assert_eq!(c.next_action(), CoordinatorAction::RequestShutdown);
        assert_eq!(
            c.on_cooperative(CooperativeOutcome::SecondInterrupt),
            CoordinatorAction::ForceStop
        );
        assert_eq!(c.on_force_stop(ok), CoordinatorAction::Finish);
        assert_eq!(c.exit_code(), USER_FORCED_EXIT_CODE);
        assert_eq!(c.exit_code(), 130);
        assert_eq!(c.disposition(), Disposition::ExitUserForced);
    }
}

#[test]
fn closed_signal_stream_also_asks_cooperatively() {
    let mut c = ShutdownCoordinator::new(ShutdownTrigger::SignalStreamClosed);
    assert_eq!(c.next_action(), CoordinatorAction::RequestShutdown);
    assert_eq!(c.on_cooperative(CooperativeOutcome::Succeeded), CoordinatorAction::Finish);
    assert_eq!(c.exit_code(), 0);
    assert_eq!(c.disposition(), Disposition::InitiateTermination);
}

#[test]
fn failed_cooperative_shutdown_falls_back_to_force() {
    let mut c = ShutdownCoordinator::new(ShutdownTrigger::CtrlC);
    assert_eq!(c.on_cooperative(CooperativeOutcome::Failed), CoordinatorAction::ForceStop);
    assert_eq!(c.on_force_stop(false), CoordinatorAction::Finish);
    assert_eq!(c.exit_code(), 0);
    assert_eq!(c.disposition(), Disposition::InitiateTermination);
}

#[test]
fn interrupt_stream_end_during_wait_falls_back_to_force() {
    let mut c = ShutdownCoordinator::new(ShutdownTrigger::CtrlC);
    assert_eq!(
        c.on_cooperative(CooperativeOutcome::InterruptStreamEnded),
        CoordinatorAction::ForceStop
    );
    assert_eq!(c.on_force_stop(true), CoordinatorAction::Finish);
    assert_eq!(c.exit_code(), 0);
}

#[test]
fn app_exit_stops_by_force_and_replies() {
    let mut c = ShutdownCoordinator::new(ShutdownTrigger::AppExit);
    assert_eq!(c.trigger(), ShutdownTrigger::AppExit);
    assert_eq!(c.next_action(), CoordinatorAction::ForceStop);
    assert_eq!(c.on_force_stop(true), CoordinatorAction::Finish);
    assert_eq!(c.disposition(), Disposition::ReplyToTerminateRequest);
    assert_eq!(c.exit_code(), 0);
}

#[test]
fn app_exit_retries_a_failed_forced_stop_once() {
    let mut c = ShutdownCoordinator::new(ShutdownTrigger::AppExit);
    assert_eq!(c.on_force_stop(false), CoordinatorAction::ForceStop);
    assert_eq!(c.on_force_stop(false), CoordinatorAction::Finish);
    assert_eq!(c.disposition(), Disposition::ReplyToTerminateRequest);
}

#[test]
fn outcomes_out_of_phase_are_ignored() {
    let mut c = ShutdownCoordinator::new(ShutdownTrigger::AppExit);
    assert_eq!(
        c.on_cooperative(CooperativeOutcome::SecondInterrupt),
        CoordinatorAction::ForceStop
    );
    assert_eq!(c.on_force_stop(true), CoordinatorAction::Finish);
    assert_eq!(c.on_force_stop(false), CoordinatorAction::Finish);
    assert_eq!(c.exit_code(), 0);

    let mut g = ShutdownCoordinator::new(ShutdownTrigger::GuestStop);
    assert_eq!(g.on_force_stop(false), CoordinatorAction::Finish);
    assert_eq!(g.exit_code(), 0);
}
