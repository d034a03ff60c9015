use backbone_events::entity::{AuditMetadata, PatchValue};
use backbone_events::model::booth::Booth;
use backbone_events::model::event::Event;
use backbone_events::model::lead_provenance::LeadProvenance;
use backbone_events::model::lead_rule::LeadRule;
use backbone_events::model::lead_rule_predicate::LeadRulePredicate;
use backbone_events::model::question::Question;
use backbone_events::model::registration::Registration;
use backbone_events::model::stage::{Stage, StageId};
use backbone_events::vocab::{EventBadgeFormat, EventBoothState, EventKanbanState, EventLeadBasis, EventLeadGrouping, EventLeadPredicateAxis, EventQuestionKind, EventRegistrationState, EventSaleStatus};

fn field(k: &str, v: PatchValue) -> (String, PatchValue) {
    (k.to_string(), v)
}

#[test]
fn stage_builder_defaults_and_required() {
    assert_eq!(Stage::builder().sequence(3).build().unwrap_err(), "name is required");
    let s = Stage::builder().name("New".to_string()).build().unwrap();
    assert_eq!((s.name.as_str(), s.sequence, s.fold, s.pipe_end), ("New", 1, false, false));
    assert_eq!(s.metadata, AuditMetadata::default());
    let s = Stage::builder().name("Done".to_string()).sequence(9).fold(true).pipe_end(true).build().unwrap();
    assert_eq!((s.sequence, s.fold, s.pipe_end), (9, true, true));
    assert_eq!(s.typed_id(), StageId(s.id));
    assert_eq!(StageId::new(4).into_inner(), 4);
    assert_eq!(Stage::entity_type(), "Stage");
}

#[test]
fn question_builder() {
    assert_eq!(Question::builder().build().unwrap_err(), "question is required");
    let q = Question::builder().question("Diet?".to_string()).once_per_order(true).build().unwrap();
    assert_eq!(q.question_kind, EventQuestionKind::TextBox);
    assert!(q.once_per_order && !q.is_default && !q.is_reusable);
    let q = Question::builder().question("Size".to_string()).question_kind(EventQuestionKind::SimpleChoice).build().unwrap();
    assert_eq!(q.question_kind, EventQuestionKind::SimpleChoice);
}

#[test]
fn stage_patch_applies_known_fields_of_the_right_shape() {
    let mut s = Stage::new("A".to_string(), 1, false, false);
    let id = s.id;
    s.apply_patch(vec![
        field("name", PatchValue::Text("B".to_string())),
        field("sequence", PatchValue::Int(7)),
        field("fold", PatchValue::Text("yes".to_string())),
        field("pipe_end", PatchValue::Bool(true)),
        field("id", PatchValue::Text("00000000-0000-0000-0000-000000000001".to_string())),
        field("colour", PatchValue::Text("red".to_string())),
    ]);
    assert_eq!((s.name.as_str(), s.sequence, s.fold, s.pipe_end), ("B", 7, false, true));
    assert_eq!(s.id, id);
    s.apply_patch(vec![field("sequence", PatchValue::Int(1 << 40)), field("name", PatchValue::Null)]);
    assert_eq!((s.name.as_str(), s.sequence), ("B", 7));
    s.apply_patch(vec![field("sequence", PatchValue::Int(2)), field("sequence", PatchValue::Int(3))]);
    assert_eq!(s.sequence, 3);
}

#[test]
fn event_builder_and_patch() {
    assert_eq!(Event::builder().name("E".to_string()).build().unwrap_err(), "stage_id is required");
    let e = Event::builder().name("E".to_string()).stage_id(1).date_begin(10).date_end(20).build().unwrap();
    assert_eq!(e.kanban_state, EventKanbanState::Normal);
    assert_eq!(e.date_tz, "");
    assert_eq!((e.event_slot_count, e.seats_max), (1, 0));
    assert_eq!(e.badge_format, EventBadgeFormat::A4FrenchFold);
    assert!(!e.is_published && e.date_publish.is_none());
    let mut e = e.with_event_url("https://x".to_string());
    assert_eq!(e.event_url.as_deref(), Some("https://x"));
    e.apply_patch(vec![
        field("date_begin", PatchValue::Text("1970-01-01T00:00:01Z".to_string())),
        field("date_publish", PatchValue::Text("1970-01-01T01:00:00+01:00".to_string())),
        field("badge_format", PatchValue::Text("four_per_sheet".to_string())),
        field("kanban_state", PatchValue::Text("Blocked".to_string())),
        field("event_url", PatchValue::Null),
        field("event_type_id", PatchValue::Text("67e55044-10b1-426f-9247-bb680e5fe0c8".to_string())),
    ]);
    assert_eq!(e.date_begin, 1_000_000);
    assert_eq!(e.date_publish, Some(0));
    assert_eq!(e.badge_format, EventBadgeFormat::FourPerSheet);
    assert_eq!(e.kanban_state, EventKanbanState::Normal);
    assert_eq!(e.event_url, None);
    assert_eq!(e.event_type_id, Some(0x67e55044_10b1_426f_9247_bb680e5fe0c8));
}

#[test]
fn booth_patch_never_touches_the_state() {
    let mut b = Booth::new(1, 2, "B1".to_string(), EventBoothState::Unavailable, false);
    b.apply_patch(vec![field("state", PatchValue::Text("available".to_string())), field("is_paid", PatchValue::Bool(true))]);
    assert_eq!(b.state, EventBoothState::Unavailable);
    assert!(b.is_paid);
    assert_eq!(Booth::builder().event_id(1).booth_category_id(2).build().unwrap_err(), "name is required");
    let b = Booth::builder().event_id(1).booth_category_id(2).name("x".to_string()).build().unwrap();
    assert_eq!(b.state, EventBoothState::Available);
}

#[test]
fn registration_entity() {
    let r = Registration::builder()
        .event_id(1)
        .name("Ada".to_string())
        .email("a@b.c".to_string())
        .barcode("42".to_string())
        .build()
        .unwrap();
    assert_eq!(r.state, EventRegistrationState::Open);
    assert!(r.active && r.is_active() && !r.is_deleted());
    let mut r = r.with_sale_status(EventSaleStatus::ToPay);
    r.apply_patch(vec![field("sale_status", PatchValue::Null), field("active", PatchValue::Bool(false))]);
    assert_eq!(r.sale_status, None);
    assert!(!r.active);
    r.apply_patch(vec![field("sale_status", PatchValue::Text("free".to_string()))]);
    assert_eq!(r.sale_status, Some(EventSaleStatus::Free));
}

#[test]
fn lead_rule_entity_defaults() {
    let r = LeadRule::builder().name("R".to_string()).build().unwrap();
    assert_eq!(r.basis, EventLeadBasis::Registration);
    assert!(r.active && !r.on_create && !r.on_confirm && !r.on_done);
    assert_eq!(r.event_id, None);
    assert_eq!(r.with_event_id(5).event_id, Some(5));
}

#[test]
fn lead_provenance_entity() {
    assert_eq!(LeadProvenance::builder().rule_id(1).event_id(2).group_key("k".to_string()).build().unwrap_err(), "grouping is required");
    let p = LeadProvenance::builder()
        .rule_id(1)
        .event_id(2)
        .group_key("order-9".to_string())
        .grouping(EventLeadGrouping::PerOrder)
        .build()
        .unwrap();
    assert_eq!((p.rule_id, p.event_id, p.lead_id), (1, 2, None));
    let mut p = p.with_lead_id(77);
    assert_eq!(p.lead_id, Some(77));
    p.apply_patch(vec![
        field("grouping", PatchValue::Text("per_event_day".to_string())),
        field("group_key", PatchValue::Text("2:2024-05-01".to_string())),
        field("lead_id", PatchValue::Null),
    ]);
    assert_eq!(p.grouping, EventLeadGrouping::PerEventDay);
    assert_eq!(p.group_key, "2:2024-05-01");
    assert_eq!(p.lead_id, None);
    assert_eq!(LeadProvenance::entity_type(), "LeadProvenance");
}

#[test]
fn lead_rule_predicate_keeps_its_values_as_given() {
    let ids = || PatchValue::List(vec![PatchValue::Text("67e55044-10b1-426f-9247-bb680e5fe0c8".to_string())]);
    assert_eq!(LeadRulePredicate::builder().rule_id(1).value_ids(ids()).build().unwrap_err(), "axis is required");
    let p = LeadRulePredicate::builder()
        .rule_id(1)
        .axis(EventLeadPredicateAxis::Event)
        .value_ids(ids())
        .build()
        .unwrap();
    assert_eq!(p.question_id, None);
    let mut p = p.with_question_id(9);
    assert_eq!(p.question_id, Some(9));
    p.apply_patch(vec![
        field("axis", PatchValue::Text("question_answer".to_string())),
        field("value_ids", PatchValue::Int(5)),
        field("question_id", PatchValue::Null),
        field("rule_id", PatchValue::Int(2)),
    ]);
    assert_eq!(p.axis, EventLeadPredicateAxis::QuestionAnswer);
    assert!(matches!(p.value_ids, PatchValue::Int(5)));
    assert_eq!((p.rule_id, p.question_id), (1, None));
    assert_eq!(LeadRulePredicate::entity_type(), "LeadRulePredicate");
}
