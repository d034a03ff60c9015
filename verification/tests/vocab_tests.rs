use backbone_events::error::{EventError, StateMachineError};
use backbone_events::vocab::{
    EventAuditEvent,    EventBadgeFormat, EventBoothState, EventIntervalUnit, EventLeadGrouping, EventLeadPredicateAxis, EventQuestionKind,
    EventRegistrationState, EventSaleStatus,
};

#[test]
fn enum_wire_names() {
    assert_eq!(EventBadgeFormat::A4FrenchFold.as_str(), "a4_french_fold");
    assert_eq!(EventBadgeFormat::FourPerSheet.as_str(), "four_per_sheet");
    assert_eq!(EventQuestionKind::CompanyName.as_str(), "company_name");
    assert_eq!(EventLeadPredicateAxis::QuestionAnswer.as_str(), "question_answer");
    assert_eq!(EventRegistrationState::Cancel.as_str(), "cancel");
}

#[test]
fn enum_from_str_lowercases_first() {
    assert_eq!(EventBoothState::from_str("AVAILABLE"), Ok(EventBoothState::Available));
    assert_eq!(EventIntervalUnit::from_str("Hours"), Ok(EventIntervalUnit::Hours));
    assert_eq!(EventSaleStatus::from_str("free"), Ok(EventSaleStatus::Free));
}

#[test]
fn enum_from_str_refuses_unknown_names() {
    assert_eq!(
        EventQuestionKind::from_str("Radio"),
        Err("Unknown EventQuestionKind variant: Radio".to_string())
    );
    assert_eq!(EventBadgeFormat::from_str(""), Err("Unknown EventBadgeFormat variant: ".to_string()));
}

#[test]
fn enum_from_name_is_exact() {
    assert_eq!(EventQuestionKind::from_name("simple_choice"), Some(EventQuestionKind::SimpleChoice));
    assert_eq!(EventQuestionKind::from_name("Simple_Choice"), None);
    assert_eq!(EventBadgeFormat::from_name("a6"), Some(EventBadgeFormat::A6));
}

#[test]
fn enum_names_round_trip() {
    for v in [EventRegistrationState::Draft, EventRegistrationState::Open, EventRegistrationState::Done, EventRegistrationState::Cancel] {
        assert_eq!(EventRegistrationState::from_str(v.as_str()), Ok(v));
        assert_eq!(EventRegistrationState::from_name(v.as_str()), Some(v));
    }
}

#[test]
fn enum_defaults() {
    assert_eq!(EventBadgeFormat::default(), EventBadgeFormat::A4FrenchFold);
    assert_eq!(EventQuestionKind::default(), EventQuestionKind::TextBox);
    assert_eq!(EventRegistrationState::default(), EventRegistrationState::Open);
    assert_eq!(EventBoothState::default(), EventBoothState::Available);
}

#[test]
fn error_codes_and_statuses() {
    assert_eq!(EventError::EventNotFound.code(), "event_not_found");
    assert_eq!(EventError::EventNotFound.status(), 404);
    assert_eq!(EventError::EventSeatsExhausted { event_id: 1 }.code(), "event_seats_exhausted");
    assert_eq!(EventError::EventSeatsExhausted { event_id: 1 }.status(), 422);
    assert_eq!(EventError::EventCapabilitySecretNotConfigured.status(), 503);
    assert_eq!(EventError::TemplateUnresolved.status(), 409);
    assert_eq!(EventError::EventThrottled { retry_after_secs: 60 }.status(), 429);
    assert_eq!(EventError::Validation("x".to_string()).status(), 422);
    assert_eq!(EventError::LeadRequestBusy { event_id: 7 }.code(), "lead_request_busy");
    assert_eq!(EventError::LeadRequestBusy { event_id: 7 }.status(), 409);
    assert_eq!(EventError::Internal("x".to_string()).status(), 500);
}

#[test]
fn error_messages() {
    assert_eq!(EventError::EventNotPublished.message(), "event not published");
    assert_eq!(EventError::PublishRefused { fields: "is_published".to_string() }.message(), "publish refused: is_published");
    assert_eq!(EventError::Validation("bad".to_string()).message(), "validation: bad");
}

#[test]
fn state_machine_error_messages() {
    assert_eq!(StateMachineError::InvalidState("x".to_string()).message(), "Invalid state: x");
    assert_eq!(
        StateMachineError::TransitionNotAllowed { transition: "confirm".to_string(), from: "done".to_string() }.message(),
        "Transition 'confirm' not allowed from state 'done'"
    );
    assert_eq!(StateMachineError::FinalStateReached("done".to_string()).message(), "Cannot transition from final state 'done'");
}

#[test]
fn lead_grouping_names() {
    assert_eq!(EventLeadGrouping::PerOrder.as_str(), "per_order");
    assert_eq!(EventLeadGrouping::PerEventDay.as_str(), "per_event_day");
    assert_eq!(EventLeadGrouping::from_str("PER_ORDER"), Ok(EventLeadGrouping::PerOrder));
    assert_eq!(EventLeadGrouping::from_name("per_event_day"), Some(EventLeadGrouping::PerEventDay));
    assert_eq!(
        EventLeadGrouping::from_str("weekly"),
        Err("Unknown EventLeadGrouping variant: weekly".to_string())
    );
}

#[test]
fn audit_event_names_parse_back_ignoring_case() {
    for v in [EventAuditEvent::EventCreated, EventAuditEvent::RegistrationRefused, EventAuditEvent::SchedulerRun] {
        assert_eq!(EventAuditEvent::from_str(v.as_str()), Ok(v));
        assert_eq!(EventAuditEvent::from_str(&v.as_str().to_uppercase()), Ok(v));
    }
    assert_eq!(EventAuditEvent::from_str("Event_Published"), Ok(EventAuditEvent::EventPublished));
    assert_eq!(
        EventAuditEvent::from_str("EventCreated"),
        Err("Unknown EventAuditEvent variant: EventCreated".to_string())
    );
}
