use backbone_events::error::EventError;
use backbone_events::ics::{build_ics, build_ics_at, ics_escape, ics_feed_at, ics_fold};
use backbone_events::intake::{
    caller_ip, intake_command, trusted_proxy_flag, FixedWindows, IntakePayload, IntakeService, IntakeThrottles,
    ICS_THROTTLE,
};
use backbone_events::rows::EventRow;

const EVENT: u128 = 0x67e55044_10b1_426f_9247_bb680e5fe0c8;
const SLOT: u128 = 0x00000000_0000_4000_8000_000000000001;

fn event(name: &str) -> EventRow {
    EventRow {
        id: EVENT,
        name: name.to_string(),
        event_type_id: None,
        stage_id: 1,
        kanban_state: "normal".to_string(),
        date_begin: 86_400_000_000,
        date_end: 90_000_000_000,
        date_tz: "UTC".to_string(),
        is_multi_slots: false,
        event_slot_count: 1,
        seats_limited: false,
        seats_max: 0,
        company_id: None,
        badge_format: "a6".to_string(),
        is_published: true,
        date_publish: None,
    }
}

#[test]
fn escapes_text_values() {
    assert_eq!(ics_escape("a,b;c\\d\ne"), "a\\,b\\;c\\\\d\\ne");
    assert_eq!(ics_escape("plain"), "plain");
}

#[test]
fn folds_long_lines() {
    let short = "a".repeat(75);
    assert_eq!(ics_fold(&short), short);
    let long = "a".repeat(80);
    assert_eq!(ics_fold(&long), format!("{}\r\n {}", "a".repeat(74), "a".repeat(6)));
    let longer = "b".repeat(160);
    assert_eq!(ics_fold(&longer), format!("{}\r\n {}\r\n {}", "b".repeat(74), "b".repeat(74), "b".repeat(12)));
    // 40 two-byte characters (80 octets) fold by octets, never inside a character.
    let wide = "é".repeat(40);
    assert_eq!(ics_fold(&wide), format!("{}\r\n {}", "é".repeat(37), "é".repeat(3)));
    let euro = "€".repeat(30);
    assert_eq!(ics_fold(&euro), format!("{}\r\n {}", "€".repeat(24), "€".repeat(6)));
    let mixed = format!("{}éé", "a".repeat(73));
    assert_eq!(ics_fold(&mixed), format!("{}\r\n éé", "a".repeat(73)));
    for line in [wide, euro, mixed, "ü".repeat(500)] {
        let folded = ics_fold(&line);
        assert_eq!(folded.replace("\r\n ", ""), line);
        assert!(folded.split("\r\n").all(|seg| seg.len() <= 75));
    }
}

#[test]
fn builds_the_calendar_body() {
    let body = build_ics_at(&event("Launch, day; one"), None, 0).unwrap();
    let expected = [
        "BEGIN:VCALENDAR",
        "VERSION:2.0",
        "PRODID:-//backbone-events//core//EN",
        "CALSCALE:GREGORIAN",
        "BEGIN:VEVENT",
        "UID:event-67e55044-10b1-426f-9247-bb680e5fe0c8@event.module",
        "DTSTAMP:19700101T000000Z",
        "DTSTART:19700102T000000Z",
        "DTEND:19700102T010000Z",
        "SUMMARY:Launch\\, day\\; one",
        "END:VEVENT",
        "END:VCALENDAR",
    ]
    .join("\r\n");
    assert_eq!(body, expected);
}

#[test]
fn slot_scoped_calendar_uses_slot_hours() {
    let feed = ics_feed_at(EVENT, &event("X"), Some((SLOT, 0, 3_600_000_000)), 0).unwrap();
    assert_eq!(feed.event_id, EVENT);
    assert_eq!(feed.slot_id, Some(SLOT));
    let uid = "UID:event-67e55044-10b1-426f-9247-bb680e5fe0c8-slot-00000000-0000-4000-8000-000000000001@event.module";
    assert_eq!(uid.len(), 101);
    assert!(feed.body.contains(&format!("\r\n{}\r\n {}\r\n", &uid[..74], &uid[74..])));
    assert!(feed.body.contains("\r\nDTSTART:19700101T000000Z\r\nDTEND:19700101T010000Z\r\n"));
    let now = build_ics(&event("X"), None).unwrap();
    assert!(now.starts_with("BEGIN:VCALENDAR\r\n"));
}

#[test]
fn fixed_window_throttle() {
    let mut w = FixedWindows::new();
    assert!(w.allow_at("k", 2, 60, 100));
    assert!(w.allow_at("k", 2, 60, 110));
    assert!(!w.allow_at("k", 2, 60, 159));
    assert!(w.allow_at("other", 2, 60, 159));
    assert!(w.allow_at("k", 2, 60, 160));
    assert!(!w.allow_at("z", 0, 60, 1));
    assert_eq!(ICS_THROTTLE, (30, 60));
}

#[test]
fn intake_gate_identity_then_ip() {
    let t = IntakeThrottles { per_identity_max: 1, per_identity_window_secs: 3600, per_ip_max: 2, per_ip_window_secs: 60 };
    let mut svc = IntakeService::new(t);
    assert_eq!(svc.gate_at("Ada@Example.com", "1.2.3.4", 10), Ok(()));
    assert_eq!(svc.gate_at("ada@example.com", "1.2.3.4", 11), Err(EventError::EventThrottled { retry_after_secs: 60 }));
    assert_eq!(svc.gate_at("bob@example.com", "1.2.3.4", 12), Ok(()));
    assert_eq!(svc.gate_at("cy@example.com", "1.2.3.4", 13), Err(EventError::EventThrottled { retry_after_secs: 60 }));
    let d = IntakeThrottles::default();
    assert_eq!((d.per_identity_max, d.per_identity_window_secs, d.per_ip_max, d.per_ip_window_secs), (5, 3600, 30, 3600));
}

#[test]
fn intake_command_carries_the_payload() {
    let payload = IntakePayload {
        name: "Ada".to_string(),
        email: "ada@example.com".to_string(),
        phone: Some("+1".to_string()),
        company_name: None,
        event_slot_id: Some(SLOT),
        event_ticket_id: None,
        answers: vec![],
    };
    let cmd = intake_command(EVENT, payload);
    assert_eq!(cmd.event_id, EVENT);
    assert_eq!(cmd.event_slot_id, Some(SLOT));
    assert_eq!(cmd.phone.as_deref(), Some("+1"));
    assert_eq!(cmd.partner_id, None);
    assert_eq!(cmd.actor, None);
    assert!(!cmd.lead_rule_skip);
}

#[test]
fn caller_address() {
    assert_eq!(caller_ip(Some("9.9.9.9, 8.8.8.8 "), Some("1.1.1.1"), true), "8.8.8.8");
    assert_eq!(caller_ip(Some("9.9.9.9, 8.8.8.8"), Some("1.1.1.1"), false), "1.1.1.1");
    assert_eq!(caller_ip(Some("9.9.9.9, "), Some("1.1.1.1"), true), "1.1.1.1");
    assert_eq!(caller_ip(None, None, true), "unknown");
    assert!(trusted_proxy_flag(" TRUE "));
    assert!(trusted_proxy_flag("1"));
    assert!(trusted_proxy_flag("On"));
    assert!(!trusted_proxy_flag("no"));
    assert!(!trusted_proxy_flag(""));
}

#[test]
fn same_second_hits_allow_exactly_the_budget() {
    let mut w = FixedWindows::new();
    let got: Vec<bool> = (0..6).map(|_| w.allow_at("k", 3, 60, 500)).collect();
    assert_eq!(got, vec![true, true, true, false, false, false]);
    let mut w = FixedWindows::new();
    assert!(!w.allow_at("k", 0, 1, 7));
}
