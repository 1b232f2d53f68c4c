use std::cell::Cell;
use std::rc::Rc;
use std::sync::Mutex;

use backend_supervisor::supervisor::{HostEvent, SlotState, SupervisedSlot};

/// Stands for a running process: counts the termination requests it gets.
struct FakeProcess {
    id: u32,
    kills: Rc<Cell<u32>>,
}

impl FakeProcess {
    fn kill(&mut self) -> Result<(), String> {
        self.kills.set(self.kills.get() + 1);
        if self.kills.get() > 1 {
            Err("already terminated".to_string())
        } else {
            Ok(())
        }
    }
}

fn fake(id: u32, kills: &Rc<Cell<u32>>) -> FakeProcess {
    FakeProcess { id, kills: Rc::clone(kills) }
}

/// The shutdown hook as a host runs it: drain, then terminate what came out
/// and let a failure pass.
fn shut_down(slot: &mut SupervisedSlot<FakeProcess>) -> bool {
    match slot.on_shutdown_requested() {
        Some(mut process) => {
            let _ = process.kill();
            true
        }
        None => false,
    }
}

#[test]
fn new_slot_is_empty() {
    let slot: SupervisedSlot<u32> = SupervisedSlot::new();
    assert_eq!(slot.state(), SlotState::Empty);
}

#[test]
fn successful_startup_populates_the_slot() {
    let mut slot: SupervisedSlot<u32> = SupervisedSlot::new();
    let outcome: Result<(), String> = slot.on_startup(Ok(41));
    assert_eq!(outcome, Ok(()));
    assert_eq!(slot.state(), SlotState::Populated);
    assert_eq!(slot.on_shutdown_requested(), Some(41));
}

#[test]
fn failed_launch_fails_startup_and_leaves_the_slot_empty() {
    let mut slot: SupervisedSlot<u32> = SupervisedSlot::new();
    let outcome = slot.on_startup(Err("no such file or directory".to_string()));
    assert_eq!(outcome, Err("no such file or directory".to_string()));
    assert_eq!(slot.state(), SlotState::Empty);
    assert_eq!(slot.on_shutdown_requested(), None);
}

#[test]
fn failed_launch_leaves_a_held_handle_in_place() {
    let mut slot: SupervisedSlot<u32> = SupervisedSlot::new();
    assert_eq!(slot.on_startup::<String>(Ok(7)), Ok(()));
    assert_eq!(slot.on_startup(Err("busy".to_string())), Err("busy".to_string()));
    assert_eq!(slot.state(), SlotState::Populated);
    assert_eq!(slot.on_shutdown_requested(), Some(7));
}

#[test]
fn later_successful_startup_replaces_the_held_handle() {
    let mut slot: SupervisedSlot<u32> = SupervisedSlot::new();
    assert_eq!(slot.on_startup::<String>(Ok(1)), Ok(()));
    assert_eq!(slot.on_startup::<String>(Ok(2)), Ok(()));
    assert_eq!(slot.on_shutdown_requested(), Some(2));
    assert_eq!(slot.state(), SlotState::Empty);
}

#[test]
fn shutdown_empties_a_populated_slot() {
    let mut slot: SupervisedSlot<u32> = SupervisedSlot::new();
    assert_eq!(slot.on_startup::<String>(Ok(5)), Ok(()));
    assert_eq!(slot.on_shutdown_requested(), Some(5));
    assert_eq!(slot.state(), SlotState::Empty);
}

#[test]
fn shutdown_of_an_empty_slot_hands_out_nothing() {
    let mut slot: SupervisedSlot<u32> = SupervisedSlot::new();
    assert_eq!(slot.on_shutdown_requested(), None);
    assert_eq!(slot.state(), SlotState::Empty);
}

#[test]
fn second_shutdown_terminates_nothing() {
    let kills = Rc::new(Cell::new(0));
    let mut slot = SupervisedSlot::new();
    assert!(slot.on_startup::<String>(Ok(fake(1, &kills))).is_ok());
    assert!(shut_down(&mut slot));
    assert_eq!(kills.get(), 1);
    assert!(!shut_down(&mut slot));
    assert_eq!(kills.get(), 1);
    assert_eq!(slot.state(), SlotState::Empty);
}

#[test]
fn started_backend_is_terminated_exactly_once() {
    let kills = Rc::new(Cell::new(0));
    let mut slot = SupervisedSlot::new();
    assert!(slot.on_startup::<String>(Ok(fake(9, &kills))).is_ok());
    assert_eq!(slot.state(), SlotState::Populated);
    assert_eq!(kills.get(), 0);

    let drained = slot.on_run_event(HostEvent::ExitRequested);
    assert_eq!(slot.state(), SlotState::Empty);
    let mut process = drained.expect("the started backend is handed out");
    assert_eq!(process.id, 9);
    assert_eq!(process.kill(), Ok(()));
    assert_eq!(kills.get(), 1);

    assert!(slot.on_run_event(HostEvent::ExitRequested).is_none());
    assert_eq!(kills.get(), 1);
}

#[test]
fn termination_failure_does_not_reach_the_slot() {
    let kills = Rc::new(Cell::new(1));
    let mut slot = SupervisedSlot::new();
    assert!(slot.on_startup::<String>(Ok(fake(3, &kills))).is_ok());
    let mut process = slot.on_shutdown_requested().expect("a handle was held");
    assert!(process.kill().is_err());
    assert_eq!(slot.state(), SlotState::Empty);
    assert!(slot.on_shutdown_requested().is_none());
}

#[test]
fn other_events_leave_the_slot_alone() {
    let mut slot: SupervisedSlot<u32> = SupervisedSlot::new();
    assert_eq!(slot.on_run_event(HostEvent::Other), None);
    assert_eq!(slot.state(), SlotState::Empty);
    assert_eq!(slot.on_startup::<String>(Ok(12)), Ok(()));
    assert_eq!(slot.on_run_event(HostEvent::Other), None);
    assert_eq!(slot.state(), SlotState::Populated);
    assert_eq!(slot.on_run_event(HostEvent::ExitRequested), Some(12));
    assert_eq!(slot.on_run_event(HostEvent::Other), None);
    assert_eq!(slot.state(), SlotState::Empty);
}

#[test]
fn handle_leaves_the_lock_before_it_is_terminated() {
    let kills = Rc::new(Cell::new(0));
    let state = Mutex::new(SupervisedSlot::new());
    {
        let mut slot = state.lock().unwrap();
        assert!(slot.on_startup::<String>(Ok(fake(4, &kills))).is_ok());
    }
    let taken = {
        let mut slot = state.lock().unwrap();
        slot.on_shutdown_requested()
    };
    assert!(state.try_lock().is_ok());
    assert_eq!(state.lock().unwrap().state(), SlotState::Empty);
    if let Some(mut process) = taken {
        let _ = process.kill();
    }
    assert_eq!(kills.get(), 1);
}
