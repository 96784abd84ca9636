use serviceos_runtime::session_service::{DrainAction, DrainEvent, InputDrain, MAX_INPUT_EVENTS_PER_TURN};

#[test]
fn routing_drain_stops_after_budget() {
    let mut drain = InputDrain::new(true, false);
    for _ in 0..MAX_INPUT_EVENTS_PER_TURN - 1 {
        assert_eq!(drain.step(DrainEvent::Received), DrainAction::Route);
    }
    assert_eq!(drain.step(DrainEvent::Received), DrainAction::RouteLast);
    assert_eq!(drain.remaining, 0);
    assert!(drain.processed);
}

#[test]
fn isolated_drain_drops_without_budget_cut() {
    let mut drain = InputDrain::new(false, false);
    for _ in 0..MAX_INPUT_EVENTS_PER_TURN + 3 {
        assert_eq!(drain.step(DrainEvent::Received), DrainAction::Drop);
    }
    assert_eq!(drain.remaining, 0);
    assert_eq!(drain.step(DrainEvent::Empty), DrainAction::Finish);
}

#[test]
fn drain_waits_once_when_allowed() {
    let mut drain = InputDrain::new(true, true);
    assert_eq!(drain.step(DrainEvent::Empty), DrainAction::Wait);
    assert!(drain.waited);
    assert!(!drain.processed);
    assert_eq!(drain.step(DrainEvent::Received), DrainAction::Route);
    assert_eq!(drain.step(DrainEvent::Empty), DrainAction::Finish);
    let mut idle = InputDrain::new(true, true);
    assert_eq!(idle.step(DrainEvent::Empty), DrainAction::Wait);
    assert_eq!(idle.step(DrainEvent::NoWakeup), DrainAction::Finish);
    assert!(!idle.processed);
}
