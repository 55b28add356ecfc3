//! The start sequence, driven event by event.

use ntske_core::errors::SetupError;
use ntske_core::server::{StartAction, StartEvent, StartMachine, StartPhase};

fn two_addrs() -> Vec<String> {
    vec!["127.0.0.1:4460".to_string(), "127.0.0.1:4461".to_string()]
}

#[test]
fn scenario_zero_addresses_completes_immediately() {
    let mut m = StartMachine::new(Vec::new(), false);
    assert_eq!(m.current_phase(), StartPhase::RotationPending);
    assert_eq!(m.next_action(), StartAction::StartRotation);
    m.apply(StartEvent::RotationStarted);
    // No listener to wait for: the join returns at once.
    assert_eq!(m.current_phase(), StartPhase::Stopped);
    assert_eq!(m.next_action(), StartAction::Finished);
    assert_eq!(m.spawned_count(), 0);
    assert_eq!(m.outstanding_tokens(), 0);
}

#[test]
fn scenario_two_addresses_spawn_and_join() {
    let mut m = StartMachine::new(two_addrs(), false);
    m.apply(StartEvent::RotationStarted);
    assert_eq!(m.current_phase(), StartPhase::AddressPending);
    assert_eq!(
        m.next_action(),
        StartAction::SetupListener("127.0.0.1:4460".to_string())
    );
    m.apply(StartEvent::ListenerReady);
    assert_eq!(
        m.next_action(),
        StartAction::SetupListener("127.0.0.1:4461".to_string())
    );
    m.apply(StartEvent::ListenerReady);
    // Exactly two workers, one per address, and the machine blocks.
    assert_eq!(m.spawned_count(), 2);
    assert_eq!(m.outstanding_tokens(), 2);
    assert_eq!(m.current_phase(), StartPhase::Waiting);
    assert_eq!(m.next_action(), StartAction::WaitForListeners);
    // The wait returns exactly once, after both workers exited.
    m.apply(StartEvent::ListenerExited);
    assert_eq!(m.current_phase(), StartPhase::Waiting);
    m.apply(StartEvent::ListenerExited);
    assert_eq!(m.current_phase(), StartPhase::Stopped);
    assert_eq!(m.outstanding_tokens(), 0);
    assert_eq!(m.exited_count(), 2);
}

#[test]
fn scenario_bind_failure_aborts_before_later_addresses() {
    let mut m = StartMachine::new(two_addrs(), false);
    m.apply(StartEvent::RotationStarted);
    m.apply(StartEvent::ListenerReady);
    assert_eq!(m.spawned_count(), 1);
    // The second address is already in use: the whole startup aborts and no
    // worker is spawned for it.
    m.apply(StartEvent::ListenerSetupFailed(SetupError::Bind));
    assert_eq!(m.current_phase(), StartPhase::Aborted);
    assert_eq!(m.next_action(), StartAction::AbortProcess(SetupError::Bind));
    assert_eq!(m.spawned_count(), 1);
}

#[test]
fn first_address_failure_spawns_nothing() {
    let mut m = StartMachine::new(two_addrs(), false);
    m.apply(StartEvent::RotationStarted);
    m.apply(StartEvent::ListenerSetupFailed(SetupError::AddressResolution));
    assert_eq!(m.current_phase(), StartPhase::Aborted);
    assert_eq!(
        m.next_action(),
        StartAction::AbortProcess(SetupError::AddressResolution)
    );
    assert_eq!(m.spawned_count(), 0);
    assert_eq!(m.outstanding_tokens(), 0);
}

#[test]
fn telemetry_worker_is_spawned_between_rotation_and_listeners() {
    let mut m = StartMachine::new(two_addrs(), true);
    m.apply(StartEvent::RotationStarted);
    assert_eq!(m.current_phase(), StartPhase::TelemetryPending);
    assert_eq!(m.next_action(), StartAction::SpawnTelemetry);
    m.apply(StartEvent::TelemetrySpawned);
    assert_eq!(m.current_phase(), StartPhase::AddressPending);
}

#[test]
fn telemetry_failure_is_isolated() {
    let mut m = StartMachine::new(two_addrs(), true);
    m.apply(StartEvent::RotationStarted);
    m.apply(StartEvent::TelemetrySpawned);
    m.apply(StartEvent::ListenerReady);
    m.apply(StartEvent::ListenerReady);
    assert_eq!(m.current_phase(), StartPhase::Waiting);
    // The telemetry worker dies; nothing the rest of the sequence can
    // observe moves.
    m.apply(StartEvent::TelemetryFailed);
    assert!(m.telemetry_has_failed());
    assert_eq!(m.current_phase(), StartPhase::Waiting);
    assert_eq!(m.spawned_count(), 2);
    assert_eq!(m.exited_count(), 0);
    assert_eq!(m.outstanding_tokens(), 2);
    // The listeners still run and join as if nothing had happened.
    m.apply(StartEvent::ListenerExited);
    m.apply(StartEvent::ListenerExited);
    assert_eq!(m.current_phase(), StartPhase::Stopped);
}

#[test]
fn can_apply_matches_the_phase() {
    let mut m = StartMachine::new(two_addrs(), false);
    assert!(m.can_apply(&StartEvent::RotationStarted));
    assert!(!m.can_apply(&StartEvent::ListenerReady));
    assert!(!m.can_apply(&StartEvent::TelemetryFailed));
    m.apply(StartEvent::RotationStarted);
    assert!(!m.can_apply(&StartEvent::RotationStarted));
    assert!(m.can_apply(&StartEvent::ListenerReady));
    assert!(m.can_apply(&StartEvent::ListenerSetupFailed(SetupError::Bind)));
}
