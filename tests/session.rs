use sqlife::session::{initial_connection, SessionAction, SessionEvent, SessionPhase};

#[test]
fn switch_from_active_closes_joins_then_spawns() {
    let p = SessionPhase::Active(0);
    let (p, a) = p.step(SessionEvent::SwitchTo(1));
    assert_eq!(a, SessionAction::SendClose);
    assert_eq!(p.active(), None);
    let (p, a) = p.step(SessionEvent::CloseSent);
    assert_eq!(a, SessionAction::JoinWorker);
    let (p, a) = p.step(SessionEvent::WorkerJoined);
    assert_eq!(a, SessionAction::SpawnWorker(1));
    let (p, a) = p.step(SessionEvent::WorkerSpawned);
    assert_eq!(a, SessionAction::Nothing);
    assert_eq!(p, SessionPhase::Active(1));
    assert_eq!(p.active(), Some(1));
}

#[test]
fn no_spawn_before_old_worker_is_joined() {
    let (p, _) = SessionPhase::Active(0).step(SessionEvent::SwitchTo(1));
    let (p, a) = p.step(SessionEvent::CloseFailed);
    assert_eq!(a, SessionAction::JoinWorker);
    for ev in [SessionEvent::SwitchTo(2), SessionEvent::WorkerSpawned, SessionEvent::CloseSent] {
        let (q, a) = p.step(ev);
        assert_eq!(a, SessionAction::Nothing);
        assert_eq!(q, p);
    }
    let (_, a) = p.step(SessionEvent::WorkerJoined);
    assert_eq!(a, SessionAction::SpawnWorker(1));
}

#[test]
fn first_connection_spawns_at_once() {
    let (p, a) = SessionPhase::Idle.step(SessionEvent::SwitchTo(3));
    assert_eq!(a, SessionAction::SpawnWorker(3));
    assert_eq!(p, SessionPhase::Spawning(3));
}

#[test]
fn unrelated_events_change_nothing() {
    for p in [SessionPhase::Idle, SessionPhase::Active(0), SessionPhase::Spawning(1)] {
        let (q, a) = p.step(SessionEvent::WorkerJoined);
        assert_eq!(a, SessionAction::Nothing);
        assert_eq!(q, p);
    }
}

#[test]
fn start_opens_requested_or_first_connection() {
    assert_eq!(initial_connection(Some(2), 3), Some(2));
    assert_eq!(initial_connection(Some(3), 3), None);
    assert_eq!(initial_connection(None, 3), Some(0));
    assert_eq!(initial_connection(None, 0), None);
}
