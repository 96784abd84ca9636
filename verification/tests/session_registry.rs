use serviceos_runtime::session_registry::{
    FocusError, HandoffStage, InputDecision, RegisterError, SessionKind, SessionRegistry,
    SwitchError, BOOTSTRAP_SESSION_ID, MAX_SESSIONS, NO_SEAT, PRIMARY_SEAT,
};

const NO_SEAT_WORD: u32 = NO_SEAT;

#[test]
fn boot_matches_legacy_single_session() {
    let registry = SessionRegistry::boot();
    assert_eq!(
        registry.current(),
        Some((BOOTSTRAP_SESSION_ID, Some(PRIMARY_SEAT)))
    );
    assert_eq!(
        registry.seat_owner(PRIMARY_SEAT),
        Some(BOOTSTRAP_SESSION_ID)
    );
    let mut ids = [0u32; MAX_SESSIONS];
    assert_eq!(registry.list_ids(&mut ids), 1);
    assert_eq!(ids[0], BOOTSTRAP_SESSION_ID);
    assert_eq!(
        registry.classify_input(),
        InputDecision::RouteToDesktop(BOOTSTRAP_SESSION_ID)
    );
}

#[test]
fn register_allocates_ids_and_enforces_unique_ids_and_seats() {
    let mut registry = SessionRegistry::boot();
    let second = registry
        .register(0, NO_SEAT_WORD, SessionKind::Operator)
        .expect("auto id");
    assert_eq!(second, 2);
    assert_eq!(
        registry.register(2, NO_SEAT_WORD, SessionKind::Operator),
        Err(RegisterError::IdInUse)
    );
    assert_eq!(
        registry.register(3, PRIMARY_SEAT, SessionKind::Graphical),
        Err(RegisterError::SeatInUse)
    );
    let third = registry
        .register(7, NO_SEAT_WORD, SessionKind::Graphical)
        .expect("explicit id");
    assert_eq!(third, 7);
    let fourth = registry
        .register(9, NO_SEAT_WORD, SessionKind::Operator)
        .expect("last free slot");
    assert_eq!(fourth, 9);
    assert_eq!(
        registry.register(11, NO_SEAT_WORD, SessionKind::Operator),
        Err(RegisterError::CapacityExceeded)
    );
}

#[test]
fn handoff_follows_stage_order_and_transfers_seat() {
    let mut registry = SessionRegistry::boot();
    registry
        .register(0, NO_SEAT_WORD, SessionKind::Operator)
        .unwrap();

    // Mid-handoff: routes detached but activation pending.
    let mut record = registry.begin_switch(2).expect("begin");
    assert!(registry.handoff_pending());
    assert_eq!(registry.handoff_window(), (1, 2));
    assert!(!record.stage_done(HandoffStage::Activation));
    assert!(!registry.isolation_allows(1));
    assert!(!registry.isolation_allows(2));

    record = registry.complete_switch(record);

    for stage in [
        HandoffStage::InputDetach,
        HandoffStage::FocusTeardown,
        HandoffStage::SeatTransfer,
        HandoffStage::Activation,
    ] {
        assert!(record.stage_done(stage), "stage {stage:?} missing");
    }
    assert!(!registry.handoff_pending());
    assert_eq!(registry.current_id(), 2);
    assert_eq!(registry.current(), Some((2, Some(PRIMARY_SEAT))));
    assert_eq!(
        registry.status(1).map(|s| (s.seat, s.active)),
        Some((None, false))
    );
    assert_eq!(registry.classify_input(), InputDecision::RouteToDesktop(2));
}

#[test]
fn handoff_tears_down_outgoing_focus() {
    let mut registry = SessionRegistry::boot();
    registry
        .register(0, NO_SEAT_WORD, SessionKind::Operator)
        .unwrap();
    registry.focus_request(1, 41).expect("focus own surface");
    assert_eq!(registry.status(1).map(|s| s.focused_surface), Some(41));

    registry
        .switch_active(2)
        .expect("switch to operator session");

    let snapshot = registry.status(1).expect("session 1 snapshot");
    assert_eq!(snapshot.focused_surface, 0);
    assert_eq!(snapshot.member_count, 1);
}

#[test]
fn switch_errors_are_distinct() {
    let mut registry = SessionRegistry::boot();
    assert_eq!(registry.switch_active(9), Err(SwitchError::UnknownTarget));
    assert_eq!(registry.switch_active(1), Err(SwitchError::AlreadyActive));
}

#[test]
fn handoff_round_trip_restores_original_session() {
    let mut registry = SessionRegistry::boot();
    registry
        .register(0, NO_SEAT_WORD, SessionKind::Operator)
        .unwrap();

    let out = registry.switch_active(2).expect("outbound");
    assert_eq!(out.from, 1);
    assert_eq!(out.to, 2);
    let back = registry.switch_active(1).expect("return");
    assert_eq!(back.transferred_seat, Some(PRIMARY_SEAT));

    assert_eq!(registry.current(), Some((1, Some(PRIMARY_SEAT))));
    assert_eq!(registry.status(2).map(|s| s.seat), Some(None));
}

#[test]
fn isolation_focus_matrix() {
    let mut registry = SessionRegistry::boot();
    registry
        .register(0, NO_SEAT_WORD, SessionKind::Operator)
        .unwrap();

    // Active session may focus its own surface; membership recorded.
    assert_eq!(registry.focus_request(1, 10), Ok(10));
    assert_eq!(registry.surface_owner(10), Some(1));

    // Unknown session.
    assert_eq!(
        registry.focus_request(42, 10),
        Err(FocusError::UnknownSession)
    );

    // Inactive session denied even on unowned surface.
    assert_eq!(
        registry.focus_request(2, 20),
        Err(FocusError::InactiveSession)
    );

    // Foreign surface owned by another session is denied while active...
    registry.switch_active(2).expect("activate session 2");
    assert_eq!(registry.surface_owner(10), Some(1));
    assert_eq!(
        registry.focus_request(2, 10),
        Err(FocusError::ForeignSurface)
    );

    // ...and the now-inactive owner cannot re-focus it either.
    assert_eq!(
        registry.focus_request(1, 10),
        Err(FocusError::InactiveSession)
    );

    // New active session can build its own membership.
    assert_eq!(registry.focus_request(2, 20), Ok(20));
    assert_eq!(registry.surface_owner(20), Some(2));
    assert_eq!(registry.status(2).map(|s| s.focused_surface), Some(20));
}

#[test]
fn isolation_input_matrix() {
    let registry = SessionRegistry::empty();
    assert_eq!(registry.classify_input(), InputDecision::DropNoSession);
    assert!(!registry.isolation_allows(1));

    let mut registry = SessionRegistry::boot();
    registry
        .register(0, NO_SEAT_WORD, SessionKind::Operator)
        .unwrap();

    // Active route.
    assert_eq!(registry.classify_input(), InputDecision::RouteToDesktop(1));
    assert!(registry.isolation_allows(1));
    assert!(!registry.isolation_allows(2));

    // Mid-handoff: nobody receives input.
    let record = registry.begin_switch(2).unwrap();
    assert_eq!(registry.classify_input(), InputDecision::DropHandoff);
    assert!(!registry.isolation_allows(1));
    assert!(!registry.isolation_allows(2));

    // Post-activation: only the incoming session routes.
    registry.complete_switch(record);
    assert_eq!(registry.classify_input(), InputDecision::RouteToDesktop(2));
    assert!(!registry.isolation_allows(1));
    assert!(registry.isolation_allows(2));
}

#[test]
fn zero_surface_focus_clears_without_membership() {
    let mut registry = SessionRegistry::boot();
    registry.focus_request(1, 30).unwrap();
    assert_eq!(registry.focus_request(1, 0), Ok(0));
    let snapshot = registry.status(1).unwrap();
    assert_eq!(snapshot.focused_surface, 0);
    assert_eq!(snapshot.member_count, 1);
    assert_eq!(snapshot.surface_count_hint, 1);
}

#[test]
fn register_fills_slots_and_reports_ids_in_slot_order() {
    let mut registry = SessionRegistry::empty();
    assert_eq!(registry.register(0, NO_SEAT_WORD, SessionKind::Operator), Ok(1));
    assert_eq!(registry.register(5, 3, SessionKind::Graphical), Ok(5));
    assert_eq!(registry.register(0, NO_SEAT_WORD, SessionKind::Operator), Ok(2));
    let mut ids = [0u32; 2];
    assert_eq!(registry.list_ids(&mut ids), 2);
    assert_eq!(ids, [1, 5]);
    assert_eq!(registry.seat_owner(3), Some(5));
    assert_eq!(registry.seat_owner(4), None);
    assert_eq!(registry.current(), None);
}

#[test]
fn complete_switch_without_handoff_returns_record_unchanged() {
    let mut registry = SessionRegistry::boot();
    registry.register(0, NO_SEAT_WORD, SessionKind::Operator).unwrap();
    let record = registry.begin_switch(2).unwrap();
    let done = registry.complete_switch(record);
    let again = registry.complete_switch(record);
    assert_eq!(again, record);
    assert_eq!(done.to, 2);
    assert_eq!(registry.current_id(), 2);
    assert_eq!(registry.begin_switch(2), Err(SwitchError::AlreadyActive));
}
