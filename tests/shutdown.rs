use stacks_network::{
    Delivery, InterruptCascade, SessionPhase, ShutdownAction, ShutdownCoordinator,
    TerminationResponse, TerminationTrigger, GRACE_PERIOD_SECS,
};

fn drive(outcomes: &[Delivery]) -> Vec<Option<ShutdownAction>> {
    let mut c = InterruptCascade::new();
    outcomes.iter().map(|d| c.next_action(*d)).collect()
}

#[test]
fn cascade_order_with_every_target_present() {
    let steps = drive(&[Delivery::Delivered; 6]);
    assert_eq!(
        steps,
        vec![
            Some(ShutdownAction::TerminateCluster),
            Some(ShutdownAction::TerminateObserver),
            Some(ShutdownAction::PauseMining),
            Some(ShutdownAction::Grace(3)),
            Some(ShutdownAction::EmitTerminate),
            None,
        ]
    );
    assert_eq!(GRACE_PERIOD_SECS, 3);
}

#[test]
fn cascade_goes_on_when_targets_are_gone() {
    let all_gone = drive(&[Delivery::Undelivered; 6]);
    let mixed = drive(&[
        Delivery::Delivered,
        Delivery::Undelivered,
        Delivery::Delivered,
        Delivery::Undelivered,
        Delivery::Undelivered,
        Delivery::Delivered,
    ]);
    let present = drive(&[Delivery::Delivered; 6]);
    assert_eq!(all_gone, present);
    assert_eq!(mixed, present);
    assert_eq!(all_gone[4], Some(ShutdownAction::EmitTerminate));
}

#[test]
fn interrupt_runs_cascade_in_headless_mode() {
    let mut s = ShutdownCoordinator::new(true);
    assert_eq!(s.trigger(TerminationTrigger::Interrupt), TerminationResponse::RunCascade);
    assert_eq!(s.phase, SessionPhase::Terminating);
}

#[test]
fn interrupt_is_not_handled_with_dashboard() {
    let mut s = ShutdownCoordinator::new(false);
    assert_eq!(s.trigger(TerminationTrigger::Interrupt), TerminationResponse::Ignore);
    assert_eq!(s.phase, SessionPhase::Running);
}

#[test]
fn fatal_error_propagates_without_cascade() {
    let mut s = ShutdownCoordinator::new(true);
    assert_eq!(s.trigger(TerminationTrigger::FatalError), TerminationResponse::PropagateError);
    assert_eq!(s.phase, SessionPhase::Terminating);
    assert_eq!(s.trigger(TerminationTrigger::Interrupt), TerminationResponse::Ignore);
}

#[test]
fn terminate_after_termination_is_harmless() {
    let mut s = ShutdownCoordinator::new(true);
    assert_eq!(s.trigger(TerminationTrigger::TerminateEvent), TerminationResponse::StopListening);
    s.workers_joined();
    assert_eq!(s.phase, SessionPhase::Terminated);
    let before = s;
    for t in [
        TerminationTrigger::TerminateEvent,
        TerminationTrigger::TerminateEvent,
        TerminationTrigger::Interrupt,
        TerminationTrigger::FatalError,
    ] {
        assert_eq!(s.trigger(t), TerminationResponse::Ignore);
        assert_eq!(s, before);
    }
}

#[test]
fn only_a_terminate_event_leaves_the_coordinator_to_stop() {
    assert!(TerminationResponse::StopListening.stops_coordinator());
    assert!(!TerminationResponse::PropagateError.stops_coordinator());
    assert!(!TerminationResponse::RunCascade.stops_coordinator());
    assert!(!TerminationResponse::Ignore.stops_coordinator());
}
