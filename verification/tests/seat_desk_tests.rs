use backbone_events::desk::{desk_check_event_at, desk_check_registration, desk_lookup_key};
use backbone_events::error::EventError;
use backbone_events::rows::{EventRow, RegisterCommand, RegistrationRow, SaleLink};
use backbone_events::seat::{
    born_state, capacity_gate, register_arms, register_event_gate, register_slot_step, slot_belonging, ticket_gate,
    transition_plan, LockedEvent, SeatAvailability, SeatCounts, SlotStep, mint_barcode,
};

fn event(id: u128, kanban: &str, date_end: i64) -> EventRow {
    EventRow {
        id,
        name: "Conf".to_string(),
        event_type_id: None,
        stage_id: 1,
        kanban_state: kanban.to_string(),
        date_begin: 0,
        date_end,
        date_tz: "UTC".to_string(),
        is_multi_slots: false,
        event_slot_count: 1,
        seats_limited: false,
        seats_max: 0,
        company_id: None,
        badge_format: "a6".to_string(),
        is_published: true,
        date_publish: None,
    }
}

fn registration(event_id: u128, state: &str, active: bool) -> RegistrationRow {
    RegistrationRow {
        id: 9,
        event_id,
        event_slot_id: None,
        event_ticket_id: None,
        name: "Ada".to_string(),
        email: "ada@example.com".to_string(),
        phone: None,
        company_name: None,
        partner_id: None,
        state: state.to_string(),
        date_closed: None,
        sale_order_id: None,
        sale_order_state: None,
        sale_status: None,
        active,
        barcode: "12345".to_string(),
        company_id: None,
    }
}

fn command(slot: Option<u128>, skip: bool) -> RegisterCommand {
    RegisterCommand {
        event_id: 5,
        event_slot_id: slot,
        event_ticket_id: None,
        name: "Ada".to_string(),
        email: "ada@example.com".to_string(),
        phone: None,
        company_name: None,
        partner_id: None,
        actor: None,
        lead_rule_skip: skip,
    }
}

fn locked(kanban: &str, multi: bool) -> LockedEvent {
    LockedEvent { id: 5, is_multi_slots: multi, seats_limited: true, seats_max: 2, kanban_state: kanban.to_string(), company_id: None }
}

#[test]
fn seats_available() {
    assert_eq!(SeatCounts { limited: true, capacity: 10, taken: 3 }.available(), 7);
    assert_eq!(SeatCounts { limited: true, capacity: 10, taken: 12 }.available(), 0);
    assert_eq!(SeatCounts { limited: false, capacity: 10, taken: 3 }.available(), i64::MAX);
    assert_eq!(SeatCounts { limited: true, capacity: 0, taken: 3 }.available(), i64::MAX);
    assert_eq!(SeatCounts { limited: false, capacity: i64::MIN, taken: i64::MAX }.available(), i64::MAX);
    assert_eq!(SeatCounts { limited: true, capacity: 0, taken: i64::MIN }.available(), i64::MAX);
}

#[test]
fn seat_availability_reports_only_a_positive_limited_cap() {
    let a = SeatAvailability::from_counts(5, Some(6), SeatCounts { limited: true, capacity: 4, taken: 1 });
    assert_eq!(a.available, Some(3));
    assert_eq!(a.event_slot_id, Some(6));
    let a = SeatAvailability::from_counts(5, None, SeatCounts { limited: false, capacity: 4, taken: 1 });
    assert_eq!(a.available, None);
}

#[test]
fn event_gate() {
    assert_eq!(register_event_gate(None).unwrap_err(), EventError::EventNotFound);
    assert_eq!(
        register_event_gate(Some(locked("cancel", false))).unwrap_err(),
        EventError::Validation("event is cancelled \u{2014} registrations refused".to_string())
    );
    assert_eq!(register_event_gate(Some(locked("normal", false))).unwrap().id, 5);
}

#[test]
fn slot_step() {
    assert_eq!(register_slot_step(&locked("normal", true), &command(None, false)), Err(EventError::EventSlotRequired { event_id: 5 }));
    assert_eq!(register_slot_step(&locked("normal", true), &command(Some(3), false)), Ok(SlotStep::LockSlot(3)));
    assert_eq!(register_slot_step(&locked("normal", false), &command(Some(3), false)), Ok(SlotStep::Proceed(Some(3))));
    assert_eq!(slot_belonging(3, true), Ok(3));
    assert_eq!(slot_belonging(3, false), Err(EventError::EventSlotNotOfEvent { event_slot_id: 3 }));
}

#[test]
fn ticket_window() {
    assert_eq!(ticket_gate(7, None, 0), Err(EventError::EventTicketNotOfEvent { event_ticket_id: 7 }));
    assert_eq!(ticket_gate(7, Some((Some(10), Some(20))), 5), Err(EventError::EventSaleWindowClosed { event_ticket_id: 7 }));
    assert_eq!(ticket_gate(7, Some((Some(10), Some(20))), 21), Err(EventError::EventSaleWindowClosed { event_ticket_id: 7 }));
    assert_eq!(ticket_gate(7, Some((Some(10), Some(20))), 20), Ok(()));
    assert_eq!(ticket_gate(7, Some((None, None)), -5), Ok(()));
}

#[test]
fn capacity_never_oversells() {
    assert_eq!(capacity_gate(true, 2, 1, 5), Ok(()));
    assert_eq!(capacity_gate(true, 2, 2, 5), Err(EventError::EventSeatsExhausted { event_id: 5 }));
    assert_eq!(capacity_gate(true, 0, 100, 5), Ok(()));
    assert_eq!(capacity_gate(false, 2, 100, 5), Ok(()));
}

#[test]
fn birth_state_and_arms() {
    assert_eq!(born_state(None), "open");
    let link = SaleLink { sale_order_id: 1, sale_order_state: "sale".to_string(), sale_status: "to_pay".to_string(), initial_state: "draft".to_string() };
    assert_eq!(born_state(Some(&link)), "draft");
    let arms = register_arms("open", &command(None, false));
    assert!(arms.arm_after_sub && arms.arm_lead_queue);
    let arms = register_arms("draft", &command(None, true));
    assert!(!arms.arm_after_sub && !arms.arm_lead_queue);
}

#[test]
fn transition_plans() {
    let p = transition_plan("draft", "open", true);
    assert!(p.takes_seat && p.arm_after_sub && p.audit);
    assert_eq!(p.lead_axis_done, Some(false));
    let p = transition_plan("open", "open", true);
    assert!(!p.takes_seat && !p.arm_after_sub && !p.audit);
    assert_eq!(p.lead_axis_done, None);
    let p = transition_plan("open", "done", true);
    assert!(!p.takes_seat && !p.arm_after_sub);
    assert_eq!(p.lead_axis_done, Some(true));
    let p = transition_plan("cancel", "done", true);
    assert!(p.takes_seat && !p.arm_after_sub);
    let p = transition_plan("draft", "open", false);
    assert!(!p.takes_seat && !p.arm_after_sub && p.audit);
    let p = transition_plan("open", "cancel", true);
    assert!(!p.takes_seat && p.audit);
    assert_eq!(p.lead_axis_done, None);
}

#[test]
fn barcodes_are_decimal() {
    let b = mint_barcode();
    assert!(!b.is_empty() && b.len() <= 20);
    assert!(b.chars().all(|c| c.is_ascii_digit()));
}

#[test]
fn desk_branch_order() {
    assert_eq!(desk_lookup_key("  12345 \n"), "12345");
    assert_eq!(desk_check_registration(None).unwrap_err(), EventError::DeskInvalidTicket);
    assert_eq!(desk_check_registration(Some(registration(5, "open", false))).unwrap_err(), EventError::DeskInvalidTicket);
    assert_eq!(desk_check_registration(Some(registration(5, "cancel", true))).unwrap_err(), EventError::DeskCanceledRegistration);
    assert_eq!(desk_check_registration(Some(registration(5, "draft", true))).unwrap_err(), EventError::DeskUnconfirmedRegistration);
    assert!(desk_check_registration(Some(registration(5, "done", true))).is_ok());
    let open = desk_check_registration(Some(registration(5, "open", true))).unwrap();
    assert_eq!(desk_check_event_at(&open, &event(5, "normal", 100), 5, 50), Ok(()));
    assert_eq!(desk_check_event_at(&open, &event(5, "done", 100), 5, 50), Err(EventError::DeskNotOngoingEvent));
    assert_eq!(desk_check_event_at(&open, &event(5, "normal", 100), 5, 100), Err(EventError::DeskNotOngoingEvent));
    assert_eq!(desk_check_event_at(&open, &event(6, "normal", 100), 6, 50), Err(EventError::DeskNeedManualConfirmation));
    let done = registration(5, "done", true);
    assert_eq!(desk_check_event_at(&done, &event(5, "normal", 100), 5, 50), Err(EventError::DeskAlreadyRegistered));
}
