use sidecar_host::registry::{ServiceHandle, SidecarState};

#[test]
fn new_slot_is_empty() {
    let slot: SidecarState<()> = SidecarState::new();
    assert!(!slot.is_occupied());
    assert_eq!(slot.pid(), None);
    assert_eq!(slot, SidecarState::default());
}

#[test]
fn store_then_take_hands_the_handle_out_once() {
    let mut slot = SidecarState::new();
    slot.store(ServiceHandle { pid: 4242, control: "kill switch" });
    assert!(slot.is_occupied());
    assert_eq!(slot.pid(), Some(4242));
    assert_eq!(slot.take(), Some(ServiceHandle { pid: 4242, control: "kill switch" }));
    assert!(!slot.is_occupied());
    assert_eq!(slot.take(), None);
}

#[test]
fn second_store_overwrites_the_first() {
    let mut slot = SidecarState::new();
    slot.store(ServiceHandle { pid: 1, control: () });
    slot.store(ServiceHandle { pid: 2, control: () });
    assert_eq!(slot.child, Some(ServiceHandle { pid: 2, control: () }));
    assert_eq!(slot.take(), Some(ServiceHandle { pid: 2, control: () }));
    assert_eq!(slot.take(), None);
}

#[test]
fn clearing_twice_is_clearing_once() {
    let mut once = SidecarState::new();
    once.store(ServiceHandle { pid: 9, control: () });
    once.clear();
    let mut twice = SidecarState::new();
    twice.store(ServiceHandle { pid: 9, control: () });
    twice.clear();
    twice.clear();
    assert_eq!(once, twice);
    assert!(!twice.is_occupied());
}

#[test]
fn clearing_an_empty_slot_leaves_it_empty() {
    let mut slot: SidecarState<()> = SidecarState::new();
    slot.clear();
    assert_eq!(slot, SidecarState::new());
}
