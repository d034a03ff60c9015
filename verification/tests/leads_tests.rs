use backbone_events::error::EventError;
use backbone_events::lead_groups::{candidates_of, lead_group, plan_groups};
use backbone_events::lead_sql::eligible_sql;
use backbone_events::leads::{
    after_batch, check_create_rule, check_from_answer, check_patch_rule, group_action, grouping_stats, grow_group,
    lease_refusal, relink_needed, validate_predicates, view_of, BatchVerdict, CreateRuleInput, FromAnswerInput,
    GroupAction, LeadCaps, LeadRegistrationView, LeadRunSummary, PatchRuleInput, PredicateSpec, RefusingLeadSink,
    RelinkInput, DEFAULT_LEAD_BATCH, DEFAULT_LEAD_CRON_LIMIT, GROUPING_PER_EVENT_DAY, GROUPING_PER_ORDER, LEASE_SECONDS,
    PREDICATE_AXES,
};
use backbone_events::rows::{EligibleRegistration, LeadPredicateRow};

const EVENT: u128 = 0x67e55044_10b1_426f_9247_bb680e5fe0c8;
const ORDER: u128 = 0x00000000_0000_4000_8000_0000000000aa;

const HEAD: &str = "SELECT r.id, r.name, r.email, r.phone, r.company_name, r.partner_id,\n                      r.sale_order_id, (r.metadata->>'created_at')::timestamptz AS created_at\n                 FROM event.registrations r\n                WHERE r.event_id = $1\n                  AND r.state IN ('open','done') AND r.active\n                  AND NOT EXISTS (\n                      SELECT 1 FROM event.lead_provenance_registrations j\n                        JOIN event.lead_provenances p ON p.id = j.provenance_id\n                       WHERE p.rule_id = $2 AND j.registration_id = r.id)";
const TAIL: &str = "\n                ORDER BY r.id\n                LIMIT $3";

fn spec(axis: &str, q: Option<u128>, values: Vec<u128>) -> PredicateSpec {
    PredicateSpec { axis: axis.to_string(), question_id: q, value_ids: values }
}

fn create(name: &str, basis: Option<&str>, on_done: Option<bool>, predicates: Vec<PredicateSpec>) -> CreateRuleInput {
    CreateRuleInput {
        name: name.to_string(),
        event_id: None,
        basis: basis.map(|b| b.to_string()),
        on_create: None,
        on_confirm: Some(false),
        on_done,
        predicates,
    }
}

fn reg(id: u128, order: Option<u128>, created_at: Option<i64>) -> EligibleRegistration {
    EligibleRegistration {
        id,
        name: Some(format!("r{id}")),
        email: None,
        phone: None,
        company_name: None,
        partner_id: None,
        sale_order_id: order,
        created_at,
    }
}

fn view(id: u128) -> LeadRegistrationView {
    LeadRegistrationView { id, name: None, email: None, phone: None, company_name: None, partner_id: None, sale_order_id: None }
}

fn pred(axis: &str, q: Option<u128>) -> LeadPredicateRow {
    LeadPredicateRow { id: 1, rule_id: 2, axis: axis.to_string(), question_id: q, value_ids: vec![3] }
}

#[test]
fn constants() {
    assert_eq!(PREDICATE_AXES, ["event", "event_type", "company", "question_answer"]);
    assert_eq!((DEFAULT_LEAD_BATCH, DEFAULT_LEAD_CRON_LIMIT, LEASE_SECONDS), (200, 1000, 900));
    assert_eq!((GROUPING_PER_ORDER, GROUPING_PER_EVENT_DAY), ("per_order", "per_event_day"));
}

#[test]
fn predicates_pass_through_unchanged() {
    let out = validate_predicates(&vec![spec("event", None, vec![1, 2]), spec("question_answer", Some(9), vec![3])]).unwrap();
    assert_eq!(out.len(), 2);
    assert_eq!(out[0].axis, "event");
    assert_eq!(out[0].value_ids, vec![1, 2]);
    assert_eq!(out[1].question_id, Some(9));
}

#[test]
fn predicate_axis_outside_vocabulary_is_refused() {
    assert_eq!(
        validate_predicates(&vec![spec("event", None, vec![1]), spec("tag", None, vec![1])]).unwrap_err(),
        EventError::Validation(
            "predicate axis 'tag' is outside the closed vocabulary [\"event\", \"event_type\", \"company\", \"question_answer\"]"
                .to_string()
        )
    );
}

#[test]
fn predicate_shapes_are_refused() {
    assert_eq!(
        validate_predicates(&vec![spec("company", None, vec![])]).unwrap_err(),
        EventError::Validation("predicate axis 'company' carries no values".to_string())
    );
    assert_eq!(
        validate_predicates(&vec![spec("question_answer", None, vec![1])]).unwrap_err(),
        EventError::Validation("the question_answer axis requires question_id (refused)".to_string())
    );
    assert_eq!(
        validate_predicates(&vec![spec("event_type", Some(4), vec![1])]).unwrap_err(),
        EventError::Validation("the event_type axis carries no question_id (refused)".to_string())
    );
}

#[test]
fn create_rule_gate_order() {
    let ok = vec![spec("event", None, vec![1])];
    assert_eq!(
        check_create_rule(&create("  ", None, Some(true), ok.clone())).unwrap_err(),
        EventError::Validation("rule name must not be empty".to_string())
    );
    assert_eq!(
        check_create_rule(&create("r", None, Some(true), vec![])).unwrap_err(),
        EventError::Validation("a rule carries at least one predicate — an unconstrained rule is refused".to_string())
    );
    assert_eq!(
        check_create_rule(&create("r", None, None, ok.clone())).unwrap_err(),
        EventError::Validation("at least one trigger (on_create / on_confirm / on_done) must be armed".to_string())
    );
    assert_eq!(
        check_create_rule(&create("r", Some("lead"), Some(true), ok.clone())).unwrap_err(),
        EventError::Validation("basis must be registration or attendee (got lead)".to_string())
    );
    let plan = check_create_rule(&create(" Rule ", None, Some(true), ok.clone())).unwrap();
    assert_eq!(plan.name, "Rule");
    assert_eq!(plan.basis, "registration");
    assert_eq!((plan.on_create, plan.on_confirm, plan.on_done), (false, false, true));
    assert_eq!(plan.predicates.len(), 1);
    let plan = check_create_rule(&create("r", Some("attendee"), Some(true), ok)).unwrap();
    assert_eq!(plan.basis, "attendee");
}

#[test]
fn patch_and_bridge_and_relink() {
    assert_eq!(check_patch_rule(&PatchRuleInput { name: None, event_id: None, active: Some(false) }), Ok(None));
    assert_eq!(
        check_patch_rule(&PatchRuleInput { name: Some(" x ".to_string()), event_id: None, active: None }),
        Ok(Some("x".to_string()))
    );
    assert_eq!(
        check_patch_rule(&PatchRuleInput { name: Some("\t".to_string()), event_id: None, active: None }),
        Err(EventError::Validation("rule name must not be empty".to_string()))
    );
    let input = FromAnswerInput {
        name: "Bridge".to_string(),
        event_id: Some(EVENT),
        on_create: Some(true),
        on_confirm: None,
        on_done: None,
        question_id: 7,
        answer_id: 8,
    };
    let plan = check_from_answer(&input).unwrap();
    assert_eq!(plan.basis, "registration");
    assert_eq!(plan.event_id, Some(EVENT));
    assert_eq!(plan.predicates.len(), 1);
    assert_eq!(plan.predicates[0].axis, "question_answer");
    assert_eq!(plan.predicates[0].question_id, Some(7));
    assert_eq!(plan.predicates[0].value_ids, vec![8]);
    let mut unarmed = input.clone();
    unarmed.on_create = Some(false);
    assert_eq!(
        check_from_answer(&unarmed).unwrap_err(),
        EventError::Validation("at least one trigger (on_create / on_confirm / on_done) must be armed".to_string())
    );
    assert!(!relink_needed(&RelinkInput { old_lead_id: 3, new_lead_id: 3 }));
    assert!(relink_needed(&RelinkInput { old_lead_id: 3, new_lead_id: 4 }));
}

#[test]
fn eligibility_sql_numbers_parameters() {
    assert_eq!(eligible_sql(&vec![]).unwrap(), format!("{HEAD}{TAIL}"));
    let sql = eligible_sql(&vec![pred("event", None)]).unwrap();
    assert_eq!(
        sql,
        format!("{HEAD} AND r.event_id IN (SELECT (v #>> '{{}}')::uuid FROM jsonb_array_elements($4::jsonb) v){TAIL}")
    );
    let sql = eligible_sql(&vec![pred("question_answer", Some(1)), pred("company", None), pred("event_type", None)]).unwrap();
    let qa = " AND EXISTS (SELECT 1 FROM event.registration_answers ra WHERE ra.registration_id = r.id AND ra.question_id = $5 AND ra.value_answer_id IN (SELECT (v #>> '{}')::uuid FROM jsonb_array_elements($4::jsonb) v))";
    let company = " AND r.org_unit_id IN (SELECT (v #>> '{}')::uuid FROM jsonb_array_elements($6::jsonb) v)";
    let etype = " AND EXISTS (SELECT 1 FROM event.events e JOIN event.types t ON t.id = e.event_type_id WHERE e.id = r.event_id AND t.id IN (SELECT (v #>> '{}')::uuid FROM jsonb_array_elements($7::jsonb) v))";
    assert_eq!(sql, format!("{HEAD}{qa}{company}{etype}{TAIL}"));
}

#[test]
fn eligibility_sql_refuses_stored_corruption() {
    assert_eq!(
        eligible_sql(&vec![pred("event", None), pred("tag", None)]).unwrap_err(),
        EventError::Internal("predicate axis outside the closed vocabulary: tag".to_string())
    );
}

#[test]
fn grouping_per_order_and_per_event_day() {
    let batch = vec![reg(10, Some(ORDER), None), reg(11, None, Some(0)), reg(12, Some(ORDER), Some(5)), reg(13, None, None)];
    let groups = plan_groups(EVENT, &batch);
    let shape: Vec<(String, String, Vec<usize>)> =
        groups.iter().map(|g| (g.grouping.clone(), g.group_key.clone(), g.members.clone())).collect();
    assert_eq!(
        shape,
        vec![
            ("per_event_day".to_string(), "67e55044-10b1-426f-9247-bb680e5fe0c8:1970-01-01".to_string(), vec![1]),
            ("per_event_day".to_string(), "67e55044-10b1-426f-9247-bb680e5fe0c8:unknown-day".to_string(), vec![3]),
            ("per_order".to_string(), "00000000-0000-4000-8000-0000000000aa".to_string(), vec![0, 2]),
        ]
    );
    assert!(plan_groups(EVENT, &vec![]).is_empty());
}

#[test]
fn grown_group_keeps_known_members_first() {
    let batch = vec![reg(10, Some(ORDER), None), reg(12, Some(ORDER), None), reg(14, Some(ORDER), None)];
    let cands = candidates_of(&batch, &vec![0, 1, 2]);
    assert_eq!(cands.iter().map(|c| c.id).collect::<Vec<_>>(), vec![10, 12, 14]);
    assert_eq!(cands[0].name.as_deref(), Some("r10"));
    let (views, fresh) = grow_group(vec![view(12)], cands);
    assert_eq!(views.iter().map(|v| v.id).collect::<Vec<_>>(), vec![12, 10, 14]);
    assert_eq!(fresh, vec![10, 14]);
    let (views, fresh) = grow_group(vec![view(10), view(12)], candidates_of(&batch, &vec![0, 1]));
    assert_eq!(views.len(), 2);
    assert!(fresh.is_empty());
    assert_eq!(group_action(Some(77), fresh.len()), GroupAction::Skip);
}

#[test]
fn group_actions_and_batches() {
    assert_eq!(group_action(None, 0), GroupAction::Create);
    assert_eq!(group_action(Some(5), 2), GroupAction::Update(5));
    assert_eq!(group_action(Some(5), 0), GroupAction::Skip);
    assert_eq!(after_batch(0, 200, Some("x".to_string())), BatchVerdict::Drained);
    assert_eq!(after_batch(3, 200, Some("no".to_string())), BatchVerdict::Park("no".to_string()));
    assert_eq!(after_batch(3, 200, None), BatchVerdict::Drained);
    assert_eq!(after_batch(200, 200, None), BatchVerdict::NextBatch);
}

#[test]
fn sink_group_and_view() {
    let r = reg(10, Some(ORDER), Some(3));
    let v = view_of(&r);
    assert_eq!((v.id, v.sale_order_id, v.name.as_deref()), (10, Some(ORDER), Some("r10")));
    let planned = &plan_groups(EVENT, &vec![r])[0];
    let g = lead_group(1, EVENT, planned, vec![v]);
    assert_eq!((g.rule_id, g.event_id), (1, EVENT));
    assert_eq!(g.grouping, "per_order");
    assert_eq!(g.registrations.len(), 1);
    let sink = RefusingLeadSink;
    let reason = "host installed no EventLeadSink adapter — lead generation parks".to_string();
    assert_eq!(sink.create_lead(&g), Err(reason.clone()));
    assert_eq!(sink.update_lead(9, &g), Err(reason));
}

#[test]
fn lease_refusals_and_stats() {
    assert_eq!(lease_refusal(EVENT, 1), EventError::LeadRequestBusy { event_id: EVENT });
    assert_eq!(lease_refusal(EVENT, 0), EventError::LeadRequestNotFound { event_id: EVENT });
    let stats = vec![("per_order".to_string(), 4, 3), ("per_event_day".to_string(), 2, 0)];
    assert_eq!(grouping_stats(&stats, "per_event_day"), (2, 0));
    assert_eq!(grouping_stats(&stats, "per_order"), (4, 3));
    assert_eq!(grouping_stats(&vec![], "per_order"), (0, 0));
}

#[test]
fn caps_and_summary() {
    let caps = LeadCaps::new();
    assert_eq!((caps.batch, caps.cron_limit), (200, 1000));
    let caps = caps.with_caps(0, -3);
    assert_eq!((caps.batch, caps.cron_limit), (1, 1));
    assert!(caps.claim_more(0));
    assert!(!caps.claim_more(1));
    let mut s = LeadRunSummary::default();
    s.count_claimed();
    s.count_rule();
    s.count_matched(3);
    s.count_created();
    s.count_grown();
    s.count_finished(true);
    s.count_finished(false);
    assert_eq!(
        s,
        LeadRunSummary {
            requests_claimed: 1,
            rules_evaluated: 1,
            registrations_matched: 3,
            groups_created: 1,
            groups_grown: 1,
            leads_created: 1,
            leads_updated: 1,
            requests_completed: 1,
            requests_parked: 1,
        }
    );
}
