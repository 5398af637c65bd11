use sidecar_host::registry::{ServiceHandle, SidecarState};
use sidecar_host::relay::RelayState;
use sidecar_host::supervisor::{launch_plan, supervise, LaunchPlan, SpawnReport, Supervision, DEFAULT_PORT};

#[test]
fn launch_plan_names_the_sidecar_and_its_port() {
    assert_eq!(DEFAULT_PORT, 8000);
    assert_eq!(
        launch_plan(DEFAULT_PORT),
        LaunchPlan {
            program: "python-sidecar".to_string(),
            args: vec!["port".to_string(), "8000".to_string()],
        }
    );
    assert_eq!(launch_plan(0).args, vec!["port", "0"]);
    assert_eq!(launch_plan(u16::MAX).args, vec!["port", "65535"]);
}

#[test]
fn started_process_goes_into_the_registry() {
    let mut slot = SidecarState::new();
    let outcome =
        supervise(SpawnReport::Started { handle: ServiceHandle { pid: 10, control: 'k' } }, Some(&mut slot));
    assert_eq!(outcome, Ok(Supervision { pid: 10, stored: true, relay: RelayState::Relaying }));
    assert_eq!(slot.child, Some(ServiceHandle { pid: 10, control: 'k' }));
}

#[test]
fn second_started_process_overwrites_the_slot() {
    let mut slot = SidecarState::new();
    let _ = supervise(SpawnReport::Started { handle: ServiceHandle { pid: 10, control: () } }, Some(&mut slot));
    let _ = supervise(SpawnReport::Started { handle: ServiceHandle { pid: 11, control: () } }, Some(&mut slot));
    assert_eq!(slot.child, Some(ServiceHandle { pid: 11, control: () }));
}

#[test]
fn started_process_without_the_registry_runs_on_unregistered() {
    let outcome =
        supervise(SpawnReport::Started { handle: ServiceHandle { pid: 10, control: () } }, None);
    assert_eq!(outcome, Ok(Supervision { pid: 10, stored: false, relay: RelayState::Relaying }));
}

#[test]
fn rejected_command_gives_a_descriptive_error_and_changes_nothing() {
    let mut slot = SidecarState::new();
    slot.store(ServiceHandle { pid: 1, control: () });
    let outcome =
        supervise(SpawnReport::CommandRejected { detail: "sidecar not configured".to_string() }, Some(&mut slot));
    assert_eq!(outcome, Err("Failed to create sidecar command: sidecar not configured".to_string()));
    assert_eq!(slot.pid(), Some(1));
    let outcome = supervise::<()>(SpawnReport::CommandRejected { detail: String::new() }, None);
    assert_eq!(outcome, Err("Failed to create sidecar command: ".to_string()));
}

#[test]
fn failed_spawn_gives_a_descriptive_error_and_changes_nothing() {
    let mut slot: SidecarState<()> = SidecarState::new();
    let outcome =
        supervise(SpawnReport::SpawnFailed { detail: "No such file or directory (os error 2)".to_string() }, Some(&mut slot));
    assert_eq!(
        outcome,
        Err("Failed to spawn sidecar: No such file or directory (os error 2)".to_string())
    );
    assert!(!slot.is_occupied());
}

#[test]
fn only_a_started_process_needs_the_registry() {
    assert!(SpawnReport::Started { handle: ServiceHandle { pid: 1, control: () } }.needs_registry());
    assert!(!SpawnReport::<()>::CommandRejected { detail: String::new() }.needs_registry());
    assert!(!SpawnReport::<()>::SpawnFailed { detail: String::new() }.needs_registry());
}
