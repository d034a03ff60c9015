use backbone_events::capability::{PURPOSE_ICS, PURPOSE_TICKET_REPORT};
use backbone_events::rows::{EventRow, RegistrationRow};
use backbone_events::surface::{publication_state_of, registration_state_of, scope_claims, CapabilityScope};
use backbone_events::tickets::{ticket_of, ticket_report};

const EVENT: u128 = 0x67e55044_10b1_426f_9247_bb680e5fe0c8;

fn event() -> EventRow {
    EventRow {
        id: EVENT,
        name: "Conf".to_string(),
        event_type_id: None,
        stage_id: 1,
        kanban_state: "normal".to_string(),
        date_begin: 10,
        date_end: 20,
        date_tz: "Europe/Paris".to_string(),
        is_multi_slots: false,
        event_slot_count: 1,
        seats_limited: false,
        seats_max: 0,
        company_id: None,
        badge_format: "a6".to_string(),
        is_published: true,
        date_publish: Some(5),
    }
}

fn registration(id: u128, event_id: u128) -> RegistrationRow {
    RegistrationRow {
        id,
        event_id,
        event_slot_id: None,
        event_ticket_id: None,
        name: format!("n{id}"),
        email: "a@b.c".to_string(),
        phone: None,
        company_name: None,
        partner_id: None,
        state: "open".to_string(),
        date_closed: None,
        sale_order_id: Some(3),
        sale_order_state: Some("sale".to_string()),
        sale_status: Some("free".to_string()),
        active: true,
        barcode: format!("b{id}"),
        company_id: None,
    }
}

#[test]
fn ticket_view_of_a_registration() {
    let t = ticket_of(&event(), &registration(1, EVENT));
    assert_eq!(t.registration_id, 1);
    assert_eq!(t.event_id, EVENT);
    assert_eq!(t.event_name, "Conf");
    assert_eq!((t.event_date_begin, t.event_date_end), (10, 20));
    assert_eq!(t.event_date_tz, "Europe/Paris");
    assert_eq!(t.attendee_name, "n1");
    assert_eq!(t.state, "open");
    assert_eq!(t.barcode, "b1");
}

#[test]
fn report_keeps_only_pinned_rows_of_the_event() {
    let found = vec![Some(registration(1, EVENT)), None, Some(registration(2, 99)), Some(registration(3, EVENT))];
    let r = ticket_report(&event(), EVENT, found);
    assert_eq!(r.event_id, EVENT);
    assert_eq!(r.badge_format, "a6");
    assert_eq!(r.tickets.iter().map(|t| t.registration_id).collect::<Vec<_>>(), vec![1, 3]);
    assert!(ticket_report(&event(), EVENT, vec![]).tickets.is_empty());
}

#[test]
fn surface_reads() {
    let p = publication_state_of(EVENT, &event());
    assert!(p.is_published);
    assert_eq!(p.kanban_state, "normal");
    assert_eq!(p.date_publish, Some(5));
    let s = registration_state_of(&registration(4, EVENT));
    assert_eq!(s.registration_id, 4);
    assert_eq!(s.sale_status.as_deref(), Some("free"));
    assert!(s.active);
}

#[test]
fn scope_claims_per_scope() {
    let c = scope_claims(&CapabilityScope::Ics { event_id: EVENT, slot_id: None, ttl_secs: 100 }, 1_000);
    assert_eq!(c.purpose, PURPOSE_ICS);
    assert_eq!(c.exp, 1_100);
    assert_eq!(c.data, vec!["67e55044-10b1-426f-9247-bb680e5fe0c8".to_string()]);
    let c = scope_claims(&CapabilityScope::TicketReport { event_id: EVENT, registration_ids: vec![2, 1] }, 1_000);
    assert_eq!(c.purpose, PURPOSE_TICKET_REPORT);
    assert_eq!(c.exp, 0);
    assert_eq!(
        c.data,
        vec![
            "67e55044-10b1-426f-9247-bb680e5fe0c8".to_string(),
            "00000000-0000-0000-0000-000000000001".to_string(),
            "00000000-0000-0000-0000-000000000002".to_string(),
        ]
    );
}
