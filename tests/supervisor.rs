use std::cell::Cell;

use mission_control::supervisor::{Supervisor, SupervisorState};
use mission_control::BridgeError;

/// A stand-in for a child process that counts the termination attempts made
/// on it.
struct FakeChild<'a> {
    id: u32,
    kills: &'a Cell<u32>,
}

impl FakeChild<'_> {
    fn kill(self, succeed: bool) -> Result<(), String> {
        self.kills.set(self.kills.get() + 1);
        if succeed {
            Ok(())
        } else {
            Err("no such process".to_string())
        }
    }
}

/// Runs a whole start as the application does: spawn only when told to.
fn start<'a>(
    sup: &mut Supervisor<FakeChild<'a>>,
    spawns: &Cell<u32>,
    spawn: impl FnOnce() -> Result<FakeChild<'a>, String>,
) -> Result<(), BridgeError> {
    sup.begin_start()?;
    spawns.set(spawns.get() + 1);
    sup.finish_start(spawn())
}

/// Runs a whole stop as the application does.
fn stop(sup: &mut Supervisor<FakeChild<'_>>, succeed: bool) -> Result<(), BridgeError> {
    match sup.stop() {
        Some(child) => Supervisor::<FakeChild>::finish_stop(child.kill(succeed)),
        None => Ok(()),
    }
}

#[test]
fn new_supervisor_is_stopped() {
    let sup: Supervisor<FakeChild> = Supervisor::new();
    assert!(!sup.is_running());
    assert_eq!(sup.state(), SupervisorState::Stopped);
}

#[test]
fn repeated_starts_spawn_once() {
    let kills = Cell::new(0);
    let spawns = Cell::new(0);
    let mut sup = Supervisor::new();
    assert_eq!(start(&mut sup, &spawns, || Ok(FakeChild { id: 1, kills: &kills })), Ok(()));
    for id in 2..6 {
        assert_eq!(
            start(&mut sup, &spawns, || Ok(FakeChild { id, kills: &kills })),
            Err(BridgeError::AlreadyRunning)
        );
    }
    assert_eq!(spawns.get(), 1);
    assert_eq!(sup.state(), SupervisorState::Running);
    let held = sup.stop().expect("a handle is held");
    assert_eq!(held.id, 1);
}

#[test]
fn failed_spawn_leaves_stopped() {
    let spawns = Cell::new(0);
    let mut sup: Supervisor<FakeChild> = Supervisor::new();
    assert_eq!(
        start(&mut sup, &spawns, || Err("not found".to_string())),
        Err(BridgeError::SpawnFailed("not found".to_string()))
    );
    assert!(!sup.is_running());
    let kills = Cell::new(0);
    assert_eq!(start(&mut sup, &spawns, || Ok(FakeChild { id: 3, kills: &kills })), Ok(()));
    assert_eq!(spawns.get(), 2);
    assert!(sup.is_running());
}

#[test]
fn repeated_stops_terminate_once() {
    let kills = Cell::new(0);
    let spawns = Cell::new(0);
    let mut sup = Supervisor::new();
    start(&mut sup, &spawns, || Ok(FakeChild { id: 1, kills: &kills })).unwrap();
    assert_eq!(stop(&mut sup, true), Ok(()));
    for _ in 0..4 {
        assert_eq!(stop(&mut sup, false), Ok(()));
    }
    assert_eq!(kills.get(), 1);
    assert!(!sup.is_running());
}

#[test]
fn stop_on_stopped_is_a_no_op() {
    let mut sup: Supervisor<FakeChild> = Supervisor::new();
    assert!(sup.stop().is_none());
    assert!(sup.stop().is_none());
    assert_eq!(sup.state(), SupervisorState::Stopped);
}

#[test]
fn failed_termination_still_empties_the_store() {
    let kills = Cell::new(0);
    let spawns = Cell::new(0);
    let mut sup = Supervisor::new();
    start(&mut sup, &spawns, || Ok(FakeChild { id: 1, kills: &kills })).unwrap();
    assert_eq!(
        stop(&mut sup, false),
        Err(BridgeError::TerminationFailed("no such process".to_string()))
    );
    assert!(!sup.is_running());
    assert_eq!(start(&mut sup, &spawns, || Ok(FakeChild { id: 2, kills: &kills })), Ok(()));
    assert_eq!(spawns.get(), 2);
}

#[test]
fn finish_stop_reports() {
    assert_eq!(Supervisor::<u32>::finish_stop(Ok(())), Ok(()));
    assert_eq!(
        Supervisor::<u32>::finish_stop(Err("denied".to_string())),
        Err(BridgeError::TerminationFailed("denied".to_string()))
    );
}
