use sidecar_host::event::RawEvent;
use sidecar_host::registry::{ServiceHandle, SidecarState};
use sidecar_host::relay::{relay_step, RelayState};
use sidecar_host::shutdown::{
    handle_close_request, tree_kill_command, KillCommand, KillStrategy, ShutdownAction,
    CREATE_NO_WINDOW,
};

fn occupied(pid: u32) -> SidecarState<&'static str> {
    let mut slot = SidecarState::new();
    slot.store(ServiceHandle { pid, control: "child" });
    slot
}

#[test]
fn close_request_runs_the_tree_kill_utility_on_the_process() {
    let mut slot = occupied(31337);
    let action = handle_close_request(Some(&mut slot), KillStrategy::TreeKill);
    assert_eq!(
        action,
        ShutdownAction::TreeKill {
            handle: ServiceHandle { pid: 31337, control: "child" },
            command: KillCommand {
                program: "taskkill".to_string(),
                args: vec![
                    "/PID".to_string(),
                    "31337".to_string(),
                    "/F".to_string(),
                    "/T".to_string(),
                ],
                creation_flags: 0x0800_0000,
            },
        }
    );
    assert!(!slot.is_occupied());
}

#[test]
fn close_request_signals_the_handle_where_that_is_reliable() {
    let mut slot = occupied(12);
    let action = handle_close_request(Some(&mut slot), KillStrategy::Signal);
    assert_eq!(action, ShutdownAction::Signal { handle: ServiceHandle { pid: 12, control: "child" } });
    assert!(!slot.is_occupied());
}

#[test]
fn second_close_request_finds_the_slot_empty_and_terminates_nothing() {
    for strategy in [KillStrategy::Signal, KillStrategy::TreeKill] {
        let mut slot = occupied(12);
        let first = handle_close_request(Some(&mut slot), strategy);
        assert_ne!(first, ShutdownAction::Nothing);
        let second = handle_close_request(Some(&mut slot), strategy);
        assert_eq!(second, ShutdownAction::Nothing);
        assert!(!slot.is_occupied());
    }
}

#[test]
fn close_request_on_an_empty_slot_is_a_no_op() {
    let mut slot: SidecarState<()> = SidecarState::new();
    assert_eq!(handle_close_request(Some(&mut slot), KillStrategy::Signal), ShutdownAction::Nothing);
    assert_eq!(handle_close_request(Some(&mut slot), KillStrategy::TreeKill), ShutdownAction::Nothing);
    assert_eq!(slot, SidecarState::new());
}

#[test]
fn close_request_without_the_registry_does_nothing() {
    assert_eq!(handle_close_request::<()>(None, KillStrategy::TreeKill), ShutdownAction::Nothing);
    assert_eq!(handle_close_request::<()>(None, KillStrategy::Signal), ShutdownAction::Nothing);
}

#[test]
fn close_request_after_termination_terminates_nothing() {
    let mut slot = occupied(12);
    let (state, _) = relay_step(
        RelayState::Relaying,
        Some(RawEvent::Terminated { code: Some(0), signal: None }),
        Some(&mut slot),
    );
    assert_eq!(state, RelayState::Stopped);
    assert_eq!(handle_close_request(Some(&mut slot), KillStrategy::Signal), ShutdownAction::Nothing);
}

#[test]
fn termination_and_close_request_end_alike_in_either_order() {
    let mut shutdown_first = occupied(12);
    let _ = handle_close_request(Some(&mut shutdown_first), KillStrategy::Signal);
    let _ = relay_step(
        RelayState::Relaying,
        Some(RawEvent::Terminated { code: None, signal: None }),
        Some(&mut shutdown_first),
    );
    let mut termination_first = occupied(12);
    let _ = relay_step(
        RelayState::Relaying,
        Some(RawEvent::Terminated { code: None, signal: None }),
        Some(&mut termination_first),
    );
    let _ = handle_close_request(Some(&mut termination_first), KillStrategy::Signal);
    assert_eq!(shutdown_first, termination_first);
    assert!(!shutdown_first.is_occupied());
}

#[test]
fn tree_kill_command_names_the_process_and_forces_the_whole_tree() {
    let command = tree_kill_command(4);
    assert_eq!(command.program, "taskkill");
    assert_eq!(command.args, vec!["/PID", "4", "/F", "/T"]);
    assert_eq!(command.creation_flags, CREATE_NO_WINDOW);
    assert_eq!(CREATE_NO_WINDOW, 134217728);
    assert_eq!(tree_kill_command(u32::MAX).args[1], "4294967295");
    assert_eq!(tree_kill_command(0).args[1], "0");
}
