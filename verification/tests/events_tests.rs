use backbone_events::booth::{
    booking_line_gate, booking_withdraw_outcome, booth_confirm_precheck, booth_create_refusal, booth_delete_gate,
    exclusivity_refusal,
};
use backbone_events::error::EventError;
use backbone_events::events::{
    audit_subject_type, cascade_kind_gate, list_limit, publication_gate, publish_fence, registration_patch_fence,
    slot_window, validate_create, CreateEventInput,
};
use backbone_events::rows::EventRow;
use backbone_events::sale_seam::{
    grand_total_is_zero, claim_key, confirm_action, confirmed_commands, sale_link, ConfirmAction, OrderConfirmed, RegistrationSpec, SeamOutcome,
};

fn create_input(begin: i64, end: i64, multi: bool, slots: i32) -> CreateEventInput {
    CreateEventInput {
        name: "Conf".to_string(),
        event_type_id: None,
        date_begin: begin,
        date_end: end,
        date_tz: None,
        is_multi_slots: multi,
        event_slot_count: slots,
        seats_limited: false,
        seats_max: 0,
        company_id: None,
        organizer_id: None,
        user_id: None,
        address_id: None,
        event_url: None,
        badge_format: None,
    }
}

fn row(published: bool, kanban: &str) -> EventRow {
    EventRow {
        id: 1,
        name: "Conf".to_string(),
        event_type_id: None,
        stage_id: 1,
        kanban_state: kanban.to_string(),
        date_begin: 0,
        date_end: 1,
        date_tz: "UTC".to_string(),
        is_multi_slots: false,
        event_slot_count: 1,
        seats_limited: false,
        seats_max: 0,
        company_id: None,
        badge_format: "a6".to_string(),
        is_published: published,
        date_publish: None,
    }
}

fn keys(k: &[&str]) -> Vec<String> {
    k.iter().map(|s| s.to_string()).collect()
}

#[test]
fn create_validation() {
    assert_eq!(validate_create(&create_input(10, 5, false, 1)), Err(EventError::Validation("date_end precedes date_begin".to_string())));
    assert_eq!(
        validate_create(&create_input(1, 5, true, 0)),
        Err(EventError::Validation("multi-slot events declare at least one slot".to_string()))
    );
    assert_eq!(validate_create(&create_input(1, 1, true, 2)), Ok(()));
}

#[test]
fn publication_fence() {
    assert_eq!(publish_fence(&keys(&["name", "seats_max"])), Ok(()));
    assert_eq!(
        publish_fence(&keys(&["date_publish", "name", "is_published"])),
        Err(EventError::PublishRefused { fields: "is_published, date_publish".to_string() })
    );
}

#[test]
fn registration_patch_is_attendee_only() {
    assert_eq!(registration_patch_fence(&keys(&["name", "phone"])), Ok(()));
    assert_eq!(
        registration_patch_fence(&keys(&["barcode", "state"])),
        Err(EventError::Validation("patch refuses non-attendee fields: state, barcode".to_string()))
    );
}

#[test]
fn publication_gate_is_uniform() {
    assert_eq!(publication_gate(Err(EventError::EventNotFound)).unwrap_err(), EventError::EventNotPublished);
    assert_eq!(publication_gate(Ok(row(false, "normal"))).unwrap_err(), EventError::EventNotPublished);
    assert_eq!(publication_gate(Ok(row(true, "cancel"))).unwrap_err(), EventError::EventNotPublished);
    assert_eq!(publication_gate(Err(EventError::Database("x".to_string()))).unwrap_err(), EventError::Database("x".to_string()));
    assert_eq!(publication_gate(Ok(row(true, "normal"))).unwrap().id, 1);
}

#[test]
fn small_event_decisions() {
    assert_eq!(slot_window(3, 10, None), (3, 10, 10));
    assert_eq!(slot_window(3, 10, Some(20)), (3, 10, 20));
    assert_eq!(audit_subject_type("registration"), "event.registrations");
    assert_eq!(audit_subject_type("sale.order"), "sale.order");
    assert_eq!(cascade_kind_gate("  "), Err(EventError::Validation("template cascade requires a template_kind".to_string())));
    assert_eq!(cascade_kind_gate("mail"), Ok(()));
    assert_eq!(list_limit(None), 50);
    assert_eq!(list_limit(Some(0)), 1);
    assert_eq!(list_limit(Some(900)), 500);
    assert_eq!(list_limit(Some(42)), 42);
}

#[test]
fn seam_keys_and_links() {
    let order: u128 = 0x67e55044_10b1_426f_9247_bb680e5fe0c8;
    assert_eq!(claim_key("confirmed", Some("d-1"), order), "confirmed:d-1");
    assert_eq!(claim_key("paid", None, order), "paid:67e55044-10b1-426f-9247-bb680e5fe0c8");
    let free = sale_link(order, true);
    assert_eq!((free.sale_order_state.as_str(), free.sale_status.as_str(), free.initial_state.as_str()), ("sale", "free", "open"));
    let paid = sale_link(order, false);
    assert_eq!((paid.sale_status.as_str(), paid.initial_state.as_str()), ("to_pay", "draft"));
    assert_eq!(confirm_action(0, true), ConfirmAction::Mint);
    assert_eq!(confirm_action(2, true), ConfirmAction::HealFree);
    assert_eq!(confirm_action(2, false), ConfirmAction::HoldPaid);
    assert_eq!(SeamOutcome::redelivered(), SeamOutcome { already_applied: true, registrations_touched: 0, booths_latched_paid: 0 });
    assert_eq!(SeamOutcome::applied(3, 1).registrations_touched, 3);
}

#[test]
fn confirmed_order_commands() {
    let mut cmd = OrderConfirmed {
        delivery_id: None,
        order_id: 1,
        org_unit_id: None,
        customer_id: None,
        grand_total: "0.00".to_string(),
        currency: None,
        registrations: vec![],
    };
    assert_eq!(
        confirmed_commands(&cmd).unwrap_err(),
        EventError::Validation("SalesOrderConfirmed carries no attendee specs \u{2014} nothing to mint".to_string())
    );
    cmd.registrations.push(RegistrationSpec {
        event_id: 4,
        event_slot_id: Some(5),
        event_ticket_id: None,
        name: "Ada".to_string(),
        email: "ada@example.com".to_string(),
        phone: None,
        company_name: Some("ACME".to_string()),
        partner_id: Some(8),
    });
    let out = confirmed_commands(&cmd).unwrap();
    assert_eq!(out.len(), 1);
    assert_eq!(out[0].event_id, 4);
    assert_eq!(out[0].event_slot_id, Some(5));
    assert_eq!(out[0].company_name.as_deref(), Some("ACME"));
    assert_eq!(out[0].actor, None);
    assert!(!out[0].lead_rule_skip);
}

#[test]
fn booth_fences() {
    assert_eq!(booth_delete_gate(1, Some(2), 0), Err(EventError::BoothDeleteRefusedSaleLinked { booth_id: 1 }));
    assert_eq!(
        booth_delete_gate(1, None, 3),
        Err(EventError::Validation("booth delete refused \u{2014} 3 booking rows exist (release first)".to_string()))
    );
    assert_eq!(booth_delete_gate(1, None, 0), Ok(()));
    assert_eq!(booth_confirm_precheck(4, "available"), Ok(()));
    assert_eq!(booth_confirm_precheck(4, "unavailable"), Err(EventError::BoothAlreadyConfirmed { event_booth_id: 4 }));
    assert_eq!(booking_line_gate(Some(9), true), Err(EventError::BoothBookingLineCrossEvent { sale_order_line_id: 9 }));
    assert_eq!(booking_line_gate(Some(9), false), Ok(()));
    assert_eq!(booking_line_gate(None, true), Ok(()));
    assert_eq!(exclusivity_refusal(Some("23505"), 4), Some(EventError::BoothAlreadyConfirmed { event_booth_id: 4 }));
    assert_eq!(exclusivity_refusal(Some("40001"), 4), None);
    assert_eq!(
        booth_create_refusal(Some("23503")),
        Some(EventError::Validation("booth create refused \u{2014} event or category does not resolve".to_string()))
    );
    assert_eq!(booth_create_refusal(None), None);
    assert_eq!(booking_withdraw_outcome(3, true), Ok(()));
    assert_eq!(booking_withdraw_outcome(3, false), Err(EventError::BoothBookingNotFound { booking_id: 3 }));
}

#[test]
fn grand_total_reads_only_the_zero_magnitude() {
    for free in ["0", "0.00", " 0.0 ", "-0", "+0.", ".0", "0e5", "0.000E-3", "00"] {
        assert!(grand_total_is_zero(free), "{free}");
    }
    for paid in ["1", "0.01", "12.50", "1e-400", "-3", "", " ", ".", "abc", "0,00", "1..0", "0e", "e0", "NaN", "inf", "0x0", "+-0"] {
        assert!(!grand_total_is_zero(paid), "{paid}");
    }
}
