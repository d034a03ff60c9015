//! Lead rules and the self-arming lead generation pass.
//!
//! The predicate vocabulary is closed: every predicate enters as a typed
//! input whose axis is one of four names; the `question_answer` axis
//! requires its question reference and no other axis carries one. A rule
//! needs a non-blank name, at least one predicate and at least one armed
//! trigger. The generation pass groups eligible registrations per sale
//! order (sale-linked) or per event and calendar day (walk-ins), grows each
//! group's lead through the host sink, and parks the request when the sink
//! refuses. The store reads and the sink calls run in the caller; every
//! decision between them is a function here.

use vstd::prelude::*;
use crate::error::EventError;
use crate::text::{chars_of, string_of, extend_str, extend_chars, same_text, trim_str, trim_spec};

verus! {

/// The closed predicate vocabulary (the whole list).
pub const PREDICATE_AXES: [&'static str; 4] = ["event", "event_type", "company", "question_answer"];

/// Whether an axis name is in the closed vocabulary.
pub open spec fn axis_known(axis: Seq<char>) -> bool {
    axis == "event"@ || axis == "event_type"@ || axis == "company"@ || axis == "question_answer"@
}

/// The vocabulary as a refusal lists it (the `Debug` rendering of the
/// constant).
pub open spec fn axes_listing() -> Seq<char> {
    "[\"event\", \"event_type\", \"company\", \"question_answer\"]"@
}

/// One typed predicate as it crosses the wire.
#[derive(Debug, Clone)]
pub struct PredicateSpec {
    /// One of: event | event_type | company | question_answer.
    pub axis: String,
    /// Required on question_answer; refused on every other axis.
    pub question_id: Option<u128>,
    /// The matched ids of the axis's own table.
    pub value_ids: Vec<u128>,
}

/// One validated predicate, as the store receives it.
#[derive(Debug, Clone)]
pub struct PredicateInput {
    pub axis: String,
    pub question_id: Option<u128>,
    pub value_ids: Vec<u128>,
}

/// The create-rule input.
#[derive(Debug, Clone)]
pub struct CreateRuleInput {
    pub name: String,
    pub event_id: Option<u128>,
    /// registration | attendee (absent: registration).
    pub basis: Option<String>,
    pub on_create: Option<bool>,
    pub on_confirm: Option<bool>,
    pub on_done: Option<bool>,
    pub predicates: Vec<PredicateSpec>,
}

/// The patch-rule input (name / scope / active; triggers and predicates
/// are immutable).
#[derive(Debug, Clone)]
pub struct PatchRuleInput {
    pub name: Option<String>,
    pub event_id: Option<u128>,
    pub active: Option<bool>,
}

/// The answer-to-rule bridge input.
#[derive(Debug, Clone)]
pub struct FromAnswerInput {
    pub name: String,
    pub event_id: Option<u128>,
    pub on_create: Option<bool>,
    pub on_confirm: Option<bool>,
    pub on_done: Option<bool>,
    pub question_id: u128,
    pub answer_id: u128,
}

/// The merge-relink input.
#[derive(Debug, Clone)]
pub struct RelinkInput {
    pub old_lead_id: u128,
    pub new_lead_id: u128,
}

/// What the store persists for a validated rule.
#[derive(Debug, Clone)]
pub struct RulePlan {
    /// The trimmed name.
    pub name: String,
    pub event_id: Option<u128>,
    pub basis: String,
    pub on_create: bool,
    pub on_confirm: bool,
    pub on_done: bool,
    pub predicates: Vec<PredicateInput>,
}

/// Why one predicate is refused, if it is: an axis outside the
/// vocabulary, an empty value list, a `question_answer` predicate without
/// its question, or a question on any other axis.
pub open spec fn axis_refusal(axis: Seq<char>, question_id: Option<u128>, n_values: nat) -> Option<Seq<char>> {
    if !axis_known(axis) {
        Some("predicate axis '"@ + axis + "' is outside the closed vocabulary "@ + axes_listing())
    } else if n_values == 0 {
        Some("predicate axis '"@ + axis + "' carries no values"@)
    } else if axis == "question_answer"@ {
        if question_id.is_none() {
            Some("the question_answer axis requires question_id (refused)"@)
        } else {
            None
        }
    } else if question_id.is_some() {
        Some("the "@ + axis + " axis carries no question_id (refused)"@)
    } else {
        None
    }
}

/// Why a predicate spec is refused, if it is.
pub open spec fn predicate_refusal(p: PredicateSpec) -> Option<Seq<char>> {
    axis_refusal(p.axis@, p.question_id, p.value_ids@.len())
}

/// The refusal of the first refused predicate at or after `i`, if any.
pub open spec fn first_refusal_from(specs: Seq<PredicateSpec>, i: int) -> Option<Seq<char>>
    decreases specs.len() - i,
{
    if i < 0 || i >= specs.len() {
        None
    } else {
        match predicate_refusal(specs[i]) {
            Some(m) => Some(m),
            None => first_refusal_from(specs, i + 1),
        }
    }
}

/// The refusal of the first refused predicate, if any.
pub open spec fn first_refusal(specs: Seq<PredicateSpec>) -> Option<Seq<char>> {
    first_refusal_from(specs, 0)
}

/// Whether validated inputs carry exactly the specs' axes, questions and
/// values, in order.
pub open spec fn inputs_match(out: Seq<PredicateInput>, specs: Seq<PredicateSpec>) -> bool {
    &&& out.len() == specs.len()
    &&& forall|i: int| 0 <= i < specs.len() ==> {
        &&& (#[trigger] out[i]).axis@ == specs[i].axis@
        &&& out[i].question_id == specs[i].question_id
        &&& out[i].value_ids@ == specs[i].value_ids@
    }
}

/// A copy of an id list.
pub fn copy_ids(v: &Vec<u128>) -> (r: Vec<u128>)
    ensures
        r@ == v@,
{
    let mut out: Vec<u128> = Vec::new();
    let mut i: usize = 0;
    while i < v.len()
        invariant
            i <= v.len(),
            out@ == v@.take(i as int),
        decreases v.len() - i,
    {
        out.push(v[i]);
        assert(v@.take(i as int).push(v@[i as int]) =~= v@.take(i + 1));
        i = i + 1;
    }
    assert(v@.take(v.len() as int) =~= v@);
    out
}

/// Why one predicate is refused, if it is.
pub fn refusal_of(p: &PredicateSpec) -> (r: Option<String>)
    ensures
        match predicate_refusal(*p) {
            Some(m) => r.is_some() && r->0@ == m,
            None => r.is_none(),
        },
{
    let axis = p.axis.as_str();
    let known = same_text(axis, "event") || same_text(axis, "event_type") || same_text(axis, "company")
        || same_text(axis, "question_answer");
    if !known {
        let mut m: Vec<char> = Vec::new();
        extend_str(&mut m, "predicate axis '");
        extend_str(&mut m, axis);
        extend_str(&mut m, "' is outside the closed vocabulary ");
        extend_str(&mut m, "[\"event\", \"event_type\", \"company\", \"question_answer\"]");
        return Some(string_of(&m));
    }
    if p.value_ids.len() == 0 {
        let mut m: Vec<char> = Vec::new();
        extend_str(&mut m, "predicate axis '");
        extend_str(&mut m, axis);
        extend_str(&mut m, "' carries no values");
        return Some(string_of(&m));
    }
    if same_text(axis, "question_answer") {
        if p.question_id.is_none() {
            return Some(string_of(&chars_of("the question_answer axis requires question_id (refused)")));
        }
        return None;
    }
    if p.question_id.is_some() {
        let mut m: Vec<char> = Vec::new();
        extend_str(&mut m, "the ");
        extend_str(&mut m, axis);
        extend_str(&mut m, " axis carries no question_id (refused)");
        return Some(string_of(&m));
    }
    None
}

/// The closed-vocabulary gate: axis membership, the axis/question shape and
/// non-empty value lists. The first refused predicate is the `Validation`
/// refusal; otherwise every predicate passes through unchanged.
pub fn validate_predicates(specs: &Vec<PredicateSpec>) -> (r: Result<Vec<PredicateInput>, EventError>)
    ensures
        match first_refusal(specs@) {
            Some(m) => r.is_err() && r->Err_0 is Validation && r->Err_0->Validation_0@ == m,
            None => r.is_ok() && inputs_match(r->Ok_0@, specs@),
        },
{
    let mut out: Vec<PredicateInput> = Vec::new();
    let mut i: usize = 0;
    while i < specs.len()
        invariant
            i <= specs.len(),
            first_refusal_from(specs@, 0) == first_refusal_from(specs@, i as int),
            out@.len() == i,
            forall|k: int| 0 <= k < i ==> {
                &&& (#[trigger] out@[k]).axis@ == specs@[k].axis@
                &&& out@[k].question_id == specs@[k].question_id
                &&& out@[k].value_ids@ == specs@[k].value_ids@
            },
        decreases specs.len() - i,
    {
        let p = &specs[i];
        match refusal_of(p) {
            Some(m) => {
                return Err(EventError::Validation(m));
            },
            None => {},
        }
        let axis = p.axis.clone();
        out.push(PredicateInput { axis, question_id: p.question_id, value_ids: copy_ids(&p.value_ids) });
        i = i + 1;
    }
    Ok(out)
}

/// The basis a create input names (absent: registration).
pub open spec fn basis_of(basis: Option<String>) -> Seq<char> {
    match basis {
        Some(b) => b@,
        None => "registration"@,
    }
}

/// Whether a trigger flag is armed (absent: not armed).
pub open spec fn armed(flag: Option<bool>) -> bool {
    flag == Some(true)
}

/// Why a create input is refused, if it is, in the order the checks run:
/// a blank name, no predicate, no armed trigger, a basis other than
/// registration or attendee, then the first refused predicate.
pub open spec fn create_rule_refusal(input: CreateRuleInput) -> Option<Seq<char>> {
    let basis = basis_of(input.basis);
    if trim_spec(input.name@).len() == 0 {
        Some("rule name must not be empty"@)
    } else if input.predicates@.len() == 0 {
        Some("a rule carries at least one predicate — an unconstrained rule is refused"@)
    } else if !(armed(input.on_create) || armed(input.on_confirm) || armed(input.on_done)) {
        Some("at least one trigger (on_create / on_confirm / on_done) must be armed"@)
    } else if !(basis == "registration"@ || basis == "attendee"@) {
        Some("basis must be registration or attendee (got "@ + basis + ")"@)
    } else {
        first_refusal(input.predicates@)
    }
}

/// Whether any of the three trigger flags is armed.
fn any_armed(on_create: Option<bool>, on_confirm: Option<bool>, on_done: Option<bool>) -> (r: (bool, bool, bool))
    ensures
        r.0 == armed(on_create),
        r.1 == armed(on_confirm),
        r.2 == armed(on_done),
{
    (on_create == Some(true), on_confirm == Some(true), on_done == Some(true))
}

/// The create-rule gate: the checks of `create_rule_refusal`, in order;
/// what passes is the plan the store persists (trimmed name, the basis,
/// the three flags, the validated predicates).
pub fn check_create_rule(input: &CreateRuleInput) -> (r: Result<RulePlan, EventError>)
    ensures
        match create_rule_refusal(*input) {
            Some(m) => r.is_err() && r->Err_0 is Validation && r->Err_0->Validation_0@ == m,
            None => r.is_ok() && {
                let plan = r->Ok_0;
                &&& plan.name@ == trim_spec(input.name@)
                &&& plan.event_id == input.event_id
                &&& plan.basis@ == basis_of(input.basis)
                &&& plan.on_create == armed(input.on_create)
                &&& plan.on_confirm == armed(input.on_confirm)
                &&& plan.on_done == armed(input.on_done)
                &&& inputs_match(plan.predicates@, input.predicates@)
            },
        },
{
    let name = trim_str(input.name.as_str());
    if name.len() == 0 {
        return Err(EventError::Validation(string_of(&chars_of("rule name must not be empty"))));
    }
    if input.predicates.len() == 0 {
        return Err(EventError::Validation(string_of(&chars_of(
            "a rule carries at least one predicate — an unconstrained rule is refused",
        ))));
    }
    let (on_create, on_confirm, on_done) = any_armed(input.on_create, input.on_confirm, input.on_done);
    if !(on_create || on_confirm || on_done) {
        return Err(EventError::Validation(string_of(&chars_of(
            "at least one trigger (on_create / on_confirm / on_done) must be armed",
        ))));
    }
    let basis: Vec<char> = match &input.basis {
        Some(b) => chars_of(b.as_str()),
        None => chars_of("registration"),
    };
    let basis_text = string_of(&basis);
    if !(same_text(basis_text.as_str(), "registration") || same_text(basis_text.as_str(), "attendee")) {
        let mut m: Vec<char> = Vec::new();
        extend_str(&mut m, "basis must be registration or attendee (got ");
        extend_chars(&mut m, &basis);
        extend_str(&mut m, ")");
        return Err(EventError::Validation(string_of(&m)));
    }
    let predicates = validate_predicates(&input.predicates);
    match predicates {
        Err(e) => Err(e),
        Ok(predicates) => Ok(RulePlan {
            name: string_of(&name),
            event_id: input.event_id,
            basis: basis_text,
            on_create,
            on_confirm,
            on_done,
            predicates,
        }),
    }
}

/// The patch-rule gate: a present name must not be blank; what passes is
/// the trimmed name, if any.
pub fn check_patch_rule(input: &PatchRuleInput) -> (r: Result<Option<String>, EventError>)
    ensures
        match input.name {
            Some(n) => if trim_spec(n@).len() == 0 {
                r.is_err() && r->Err_0 is Validation && r->Err_0->Validation_0@ == "rule name must not be empty"@
            } else {
                r.is_ok() && r->Ok_0.is_some() && r->Ok_0->0@ == trim_spec(n@)
            },
            None => r.is_ok() && r->Ok_0.is_none(),
        },
{
    match &input.name {
        Some(n) => {
            let t = trim_str(n.as_str());
            if t.len() == 0 {
                return Err(EventError::Validation(string_of(&chars_of("rule name must not be empty"))));
            }
            Ok(Some(string_of(&t)))
        },
        None => Ok(None),
    }
}

/// Why a bridge input is refused, if it is: a blank name, or no armed
/// trigger.
pub open spec fn from_answer_refusal(input: FromAnswerInput) -> Option<Seq<char>> {
    if trim_spec(input.name@).len() == 0 {
        Some("rule name must not be empty"@)
    } else if !(armed(input.on_create) || armed(input.on_confirm) || armed(input.on_done)) {
        Some("at least one trigger (on_create / on_confirm / on_done) must be armed"@)
    } else {
        None
    }
}

/// The answer-to-rule bridge: one rule on the registration basis whose
/// single predicate is (question_answer, the question, [the answer]).
pub fn check_from_answer(input: &FromAnswerInput) -> (r: Result<RulePlan, EventError>)
    ensures
        match from_answer_refusal(*input) {
            Some(m) => r.is_err() && r->Err_0 is Validation && r->Err_0->Validation_0@ == m,
            None => r.is_ok() && {
                let plan = r->Ok_0;
                &&& plan.name@ == trim_spec(input.name@)
                &&& plan.event_id == input.event_id
                &&& plan.basis@ == "registration"@
                &&& plan.on_create == armed(input.on_create)
                &&& plan.on_confirm == armed(input.on_confirm)
                &&& plan.on_done == armed(input.on_done)
                &&& plan.predicates@.len() == 1
                &&& plan.predicates@[0].axis@ == "question_answer"@
                &&& plan.predicates@[0].question_id == Some(input.question_id)
                &&& plan.predicates@[0].value_ids@ == seq![input.answer_id]
            },
        },
{
    let name = trim_str(input.name.as_str());
    if name.len() == 0 {
        return Err(EventError::Validation(string_of(&chars_of("rule name must not be empty"))));
    }
    let (on_create, on_confirm, on_done) = any_armed(input.on_create, input.on_confirm, input.on_done);
    if !(on_create || on_confirm || on_done) {
        return Err(EventError::Validation(string_of(&chars_of(
            "at least one trigger (on_create / on_confirm / on_done) must be armed",
        ))));
    }
    let mut values: Vec<u128> = Vec::new();
    values.push(input.answer_id);
    let mut predicates: Vec<PredicateInput> = Vec::new();
    predicates.push(PredicateInput {
        axis: string_of(&chars_of("question_answer")),
        question_id: Some(input.question_id),
        value_ids: values,
    });
    Ok(RulePlan {
        name: string_of(&name),
        event_id: input.event_id,
        basis: string_of(&chars_of("registration")),
        on_create,
        on_confirm,
        on_done,
        predicates,
    })
}

/// A predicate the vocabulary gate admits: a known axis, at least one value,
/// and a question exactly on the `question_answer` axis.
spec fn admitted(p: PredicateSpec) -> bool {
    let a = p.axis@;
    &&& (a == "event"@ || a == "event_type"@ || a == "company"@ || a == "question_answer"@)
    &&& p.value_ids@.len() > 0
    &&& (p.question_id is Some <==> a == "question_answer"@)
}

proof fn lemma_refusal_from_none(specs: Seq<PredicateSpec>, i: int)
    requires
        0 <= i <= specs.len(),
    ensures
        first_refusal_from(specs, i) is None <==> forall|j: int| i <= j < specs.len() ==> admitted(#[trigger] specs[j]),
    decreases specs.len() - i,
{
    if i < specs.len() {
        lemma_refusal_from_none(specs, i + 1);
        if !admitted(specs[i]) {
            assert(predicate_refusal(specs[i]) is Some);
        }
    }
}

/// The closed vocabulary gate admits a list of predicates exactly when each
/// of them names one of the four axes `event`, `event_type`, `company`,
/// `question_answer`, carries at least one value, and carries a question
/// if and only if its axis is `question_answer`; the refusal it gives is
/// the one of the first refused predicate.
pub proof fn lemma_predicates_admitted(specs: Seq<PredicateSpec>)
    ensures
        first_refusal(specs) is None <==> forall|i: int| 0 <= i < specs.len() ==> {
            let a = (#[trigger] specs[i]).axis@;
            &&& (a == "event"@ || a == "event_type"@ || a == "company"@ || a == "question_answer"@)
            &&& specs[i].value_ids@.len() > 0
            &&& (specs[i].question_id is Some <==> a == "question_answer"@)
        },
        forall|k: int| 0 <= k < specs.len() && predicate_refusal(#[trigger] specs[k]) is Some
            && (forall|j: int| 0 <= j < k ==> predicate_refusal(#[trigger] specs[j]) is None)
            ==> first_refusal(specs) == predicate_refusal(specs[k]),
{
    lemma_refusal_from_none(specs, 0);
    assert forall|k: int| 0 <= k < specs.len() && predicate_refusal(#[trigger] specs[k]) is Some
        && (forall|j: int| 0 <= j < k ==> predicate_refusal(#[trigger] specs[j]) is None)
        implies first_refusal(specs) == predicate_refusal(specs[k]) by {
        lemma_refusal_walk(specs, 0, k);
    }
}

proof fn lemma_refusal_walk(specs: Seq<PredicateSpec>, i: int, k: int)
    requires
        0 <= i <= k < specs.len(),
        predicate_refusal(specs[k]) is Some,
        forall|j: int| 0 <= j < k ==> predicate_refusal(#[trigger] specs[j]) is None,
    ensures
        first_refusal_from(specs, i) == predicate_refusal(specs[k]),
    decreases k - i,
{
    if i < k {
        assert(predicate_refusal(specs[i]) is None);
        lemma_refusal_walk(specs, i + 1, k);
    }
}

/// The bridge never builds a predicate the closed-vocabulary gate would
/// refuse: its one predicate passes `axis_refusal`.
pub proof fn lemma_bridge_predicate_in_vocabulary(input: FromAnswerInput, plan: RulePlan)
    requires
        plan.predicates@.len() == 1,
        plan.predicates@[0].axis@ == "question_answer"@,
        plan.predicates@[0].question_id == Some(input.question_id),
        plan.predicates@[0].value_ids@ == seq![input.answer_id],
    ensures
        axis_refusal(plan.predicates@[0].axis@, plan.predicates@[0].question_id,
            plan.predicates@[0].value_ids@.len()).is_none(),
{
}

/// Whether a relink moves anything: relinking a lead onto itself is a
/// no-op that reports zero rows.
pub fn relink_needed(input: &RelinkInput) -> (r: bool)
    ensures
        r == (input.old_lead_id != input.new_lead_id),
{
    input.old_lead_id != input.new_lead_id
}

// ---------------------------------------------------------------------------
// the generation pass

/// Registrations evaluated per rule per pass (default).
pub const DEFAULT_LEAD_BATCH: i64 = 200;

/// Queue rows claimed per pass (default).
pub const DEFAULT_LEAD_CRON_LIMIT: i64 = 1000;

/// The lease (seconds) a walker holds on a request row for its whole walk;
/// a stale lease expires after one missed tick.
pub const LEASE_SECONDS: i64 = 900;

/// The grouping grain of sale-linked registrations: one group per order.
pub const GROUPING_PER_ORDER: &'static str = "per_order";

/// The grouping grain of walk-ins: one group per event per calendar day.
pub const GROUPING_PER_EVENT_DAY: &'static str = "per_event_day";

/// The batch and cron caps of a pass.
#[derive(Debug, Clone, Copy, PartialEq, Eq, Structural)]
pub struct LeadCaps {
    pub batch: i64,
    pub cron_limit: i64,
}

impl LeadCaps {
    /// The default caps.
    pub fn new() -> (r: Self)
        ensures
            r.batch == DEFAULT_LEAD_BATCH,
            r.cron_limit == DEFAULT_LEAD_CRON_LIMIT,
    {
        LeadCaps { batch: DEFAULT_LEAD_BATCH, cron_limit: DEFAULT_LEAD_CRON_LIMIT }
    }

    /// Overrides the caps (each at least 1).
    pub fn with_caps(self, batch: i64, cron_limit: i64) -> (r: Self)
        ensures
            r.batch == if batch >= 1 { batch } else { 1 },
            r.cron_limit == if cron_limit >= 1 { cron_limit } else { 1 },
    {
        LeadCaps { batch: if batch >= 1 { batch } else { 1 }, cron_limit: if cron_limit >= 1 { cron_limit } else { 1 } }
    }

    /// Whether the pass claims another request: fewer than the cron limit
    /// were claimed so far.
    pub fn claim_more(&self, claimed: i64) -> (r: bool)
        ensures
            r == (claimed < self.cron_limit),
    {
        claimed < self.cron_limit
    }
}

/// One pass's summary.
#[derive(Debug, Clone, Copy, PartialEq, Eq, Structural)]
pub struct LeadRunSummary {
    pub requests_claimed: i64,
    pub rules_evaluated: i64,
    pub registrations_matched: i64,
    pub groups_created: i64,
    pub groups_grown: i64,
    pub leads_created: i64,
    pub leads_updated: i64,
    pub requests_completed: i64,
    pub requests_parked: i64,
}

impl LeadRunSummary {
    /// The zero summary.
    pub open spec fn zero() -> Self {
        LeadRunSummary {
            requests_claimed: 0,
            rules_evaluated: 0,
            registrations_matched: 0,
            groups_created: 0,
            groups_grown: 0,
            leads_created: 0,
            leads_updated: 0,
            requests_completed: 0,
            requests_parked: 0,
        }
    }

    /// All counters zero.
    pub fn new() -> (r: Self)
        ensures
            r == Self::zero(),
    {
        LeadRunSummary {
            requests_claimed: 0,
            rules_evaluated: 0,
            registrations_matched: 0,
            groups_created: 0,
            groups_grown: 0,
            leads_created: 0,
            leads_updated: 0,
            requests_completed: 0,
            requests_parked: 0,
        }
    }

    /// One more request claimed.
    pub fn count_claimed(&mut self)
        requires
            old(self).requests_claimed < i64::MAX,
        ensures
            *final(self) == (LeadRunSummary { requests_claimed: (old(self).requests_claimed + 1) as i64, ..*old(self) }),
    {
        self.requests_claimed = self.requests_claimed + 1;
    }

    /// One more rule evaluated.
    pub fn count_rule(&mut self)
        requires
            old(self).rules_evaluated < i64::MAX,
        ensures
            *final(self) == (LeadRunSummary { rules_evaluated: (old(self).rules_evaluated + 1) as i64, ..*old(self) }),
    {
        self.rules_evaluated = self.rules_evaluated + 1;
    }

    /// A fetched batch's registrations counted as matched.
    pub fn count_matched(&mut self, n: usize)
        requires
            n <= i64::MAX,
            old(self).registrations_matched + n <= i64::MAX,
        ensures
            *final(self) == (LeadRunSummary { registrations_matched: (old(self).registrations_matched + n) as i64, ..*old(self) }),
    {
        self.registrations_matched = self.registrations_matched + n as i64;
    }

    /// A new group whose lead the sink created: one group and one lead more.
    pub fn count_created(&mut self)
        requires
            old(self).groups_created < i64::MAX,
            old(self).leads_created < i64::MAX,
        ensures
            *final(self) == (LeadRunSummary {
                groups_created: (old(self).groups_created + 1) as i64,
                leads_created: (old(self).leads_created + 1) as i64,
                ..*old(self)
            }),
    {
        self.groups_created = self.groups_created + 1;
        self.leads_created = self.leads_created + 1;
    }

    /// An existing group grown through the sink's update: one grown group
    /// and one updated lead more.
    pub fn count_grown(&mut self)
        requires
            old(self).groups_grown < i64::MAX,
            old(self).leads_updated < i64::MAX,
        ensures
            *final(self) == (LeadRunSummary {
                groups_grown: (old(self).groups_grown + 1) as i64,
                leads_updated: (old(self).leads_updated + 1) as i64,
                ..*old(self)
            }),
    {
        self.groups_grown = self.groups_grown + 1;
        self.leads_updated = self.leads_updated + 1;
    }

    /// A finished walk: parked or completed.
    pub fn count_finished(&mut self, parked: bool)
        requires
            parked ==> old(self).requests_parked < i64::MAX,
            !parked ==> old(self).requests_completed < i64::MAX,
        ensures
            parked ==> *final(self) == (LeadRunSummary { requests_parked: (old(self).requests_parked + 1) as i64, ..*old(self) }),
            !parked ==> *final(self) == (LeadRunSummary { requests_completed: (old(self).requests_completed + 1) as i64, ..*old(self) }),
    {
        if parked {
            self.requests_parked = self.requests_parked + 1;
        } else {
            self.requests_completed = self.requests_completed + 1;
        }
    }
}

impl Default for LeadRunSummary {
    fn default() -> (r: Self)
        ensures
            r == Self::zero(),
    {
        LeadRunSummary::new()
    }
}

/// One registration as the sink sees it.
#[derive(Debug, Clone)]
pub struct LeadRegistrationView {
    pub id: u128,
    pub name: Option<String>,
    pub email: Option<String>,
    pub phone: Option<String>,
    pub company_name: Option<String>,
    pub partner_id: Option<u128>,
    pub sale_order_id: Option<u128>,
}

/// One generated group, with its full membership.
#[derive(Debug, Clone)]
pub struct LeadGroup {
    pub rule_id: u128,
    pub event_id: u128,
    pub group_key: String,
    pub grouping: String,
    pub registrations: Vec<LeadRegistrationView>,
}

/// The sink's refusal when the host installed no adapter.
pub open spec fn no_sink_reason() -> Seq<char> {
    "host installed no EventLeadSink adapter — lead generation parks"@
}

/// The refusing default sink: every call refuses, the request parks.
#[derive(Debug, Clone, Copy)]
pub struct RefusingLeadSink;

impl RefusingLeadSink {
    /// Refuses to create a lead.
    pub fn create_lead(&self, group: &LeadGroup) -> (r: Result<u128, String>)
        ensures
            r.is_err(),
            r->Err_0@ == no_sink_reason(),
    {
        Err(string_of(&chars_of("host installed no EventLeadSink adapter — lead generation parks")))
    }

    /// Refuses to update a lead.
    pub fn update_lead(&self, lead_id: u128, group: &LeadGroup) -> (r: Result<(), String>)
        ensures
            r.is_err(),
            r->Err_0@ == no_sink_reason(),
    {
        Err(string_of(&chars_of("host installed no EventLeadSink adapter — lead generation parks")))
    }
}

/// The sink's view of an eligible registration: the same id, contact,
/// company, partner and order.
pub fn view_of(m: &crate::rows::EligibleRegistration) -> (r: LeadRegistrationView)
    ensures
        r.id == m.id,
        r.name == m.name,
        r.email == m.email,
        r.phone == m.phone,
        r.company_name == m.company_name,
        r.partner_id == m.partner_id,
        r.sale_order_id == m.sale_order_id,
{
    LeadRegistrationView {
        id: m.id,
        name: m.name.clone(),
        email: m.email.clone(),
        phone: m.phone.clone(),
        company_name: m.company_name.clone(),
        partner_id: m.partner_id,
        sale_order_id: m.sale_order_id,
    }
}

/// The ids of a list of views.
pub open spec fn view_ids(v: Seq<LeadRegistrationView>) -> Seq<u128> {
    v.map_values(|x: LeadRegistrationView| x.id)
}

/// The candidates whose id is not among `known`, in order.
pub open spec fn fresh_views(known: Seq<u128>, cands: Seq<LeadRegistrationView>) -> Seq<LeadRegistrationView>
    decreases cands.len(),
{
    if cands.len() == 0 {
        Seq::empty()
    } else {
        let rest = fresh_views(known, cands.drop_last());
        if known.contains(cands.last().id) {
            rest
        } else {
            rest.push(cands.last())
        }
    }
}

/// The members a walk adds to a group are exactly the candidates whose id
/// the group does not hold yet, each kept once per occurrence and in walk
/// order.
pub proof fn lemma_fresh_views_filter(known: Seq<u128>, cands: Seq<LeadRegistrationView>)
    ensures
        fresh_views(known, cands) == cands.filter(|v: LeadRegistrationView| !known.contains(v.id)),
    decreases cands.len(),
{
    reveal(Seq::filter);
    if cands.len() > 0 {
        lemma_fresh_views_filter(known, cands.drop_last());
    }
}

/// Whether an id occurs in a list.
pub fn contains_id(v: &Vec<u128>, x: u128) -> (r: bool)
    ensures
        r == v@.contains(x),
{
    let mut i: usize = 0;
    while i < v.len()
        invariant
            i <= v.len(),
            forall|j: int| 0 <= j < i ==> v@[j] != x,
        decreases v.len() - i,
    {
        if v[i] == x {
            assert(v@[i as int] == x);
            return true;
        }
        i = i + 1;
    }
    false
}

/// A group's full membership for the sink: the members already recorded,
/// then this walk's members not among them (in walk order). Also returns
/// the ids of those new members, which the junction records once the sink
/// accepted.
pub fn grow_group(existing: Vec<LeadRegistrationView>, candidates: Vec<LeadRegistrationView>) -> (r: (Vec<LeadRegistrationView>, Vec<u128>))
    ensures
        r.0@ == existing@ + fresh_views(view_ids(existing@), candidates@),
        r.1@ == view_ids(fresh_views(view_ids(existing@), candidates@)),
{
    let ghost known_s = view_ids(existing@);
    let ghost cands0 = candidates@;
    let mut known: Vec<u128> = Vec::new();
    let mut k: usize = 0;
    while k < existing.len()
        invariant
            k <= existing.len(),
            known@ == view_ids(existing@.take(k as int)),
        decreases existing.len() - k,
    {
        known.push(existing[k].id);
        assert(view_ids(existing@.take(k + 1)) =~= view_ids(existing@.take(k as int)).push(existing@[k as int].id));
        k = k + 1;
    }
    assert(existing@.take(existing.len() as int) =~= existing@);
    let mut views = existing;
    let ghost base = views@;
    let mut new_ids: Vec<u128> = Vec::new();
    let mut cands = candidates;
    let ghost mut done: int = 0;
    while cands.len() > 0
        invariant
            0 <= done <= cands0.len(),
            cands@ == cands0.skip(done),
            known@ == known_s,
            views@ == base + fresh_views(known_s, cands0.take(done)),
            new_ids@ == view_ids(fresh_views(known_s, cands0.take(done))),
        decreases cands.len(),
    {
        let c = cands.remove(0);
        proof {
            assert(c == cands0[done]);
            assert(cands0.take(done + 1).drop_last() =~= cands0.take(done));
            assert(cands0.take(done + 1).last() == cands0[done]);
        }
        let fresh = !contains_id(&known, c.id);
        if fresh {
            new_ids.push(c.id);
            views.push(c);
            proof {
                assert(view_ids(fresh_views(known_s, cands0.take(done)).push(cands0[done])) =~=
                    view_ids(fresh_views(known_s, cands0.take(done))).push(cands0[done].id));
            }
        }
        proof {
            assert(cands@ =~= cands0.skip(done + 1));
            done = done + 1;
        }
    }
    proof {
        assert(cands0.take(done) =~= cands0);
    }
    (views, new_ids)
}

/// What a group needs from the sink.
#[derive(Debug, Clone, Copy, PartialEq, Eq, Structural)]
pub enum GroupAction {
    /// An existing group with no new member: the re-walk is a no-op.
    Skip,
    /// An existing group that grew: update its lead.
    Update(u128),
    /// A new group (or one whose create never completed): create its lead.
    Create,
}

/// The sink call a group needs: an existing lead is updated only when the
/// group grew; a group without a lead creates one.
pub fn group_action(existing_lead: Option<u128>, new_members: usize) -> (r: GroupAction)
    ensures
        r == match existing_lead {
            Some(lead) => if new_members == 0 { GroupAction::Skip } else { GroupAction::Update(lead) },
            None => GroupAction::Create,
        },
{
    match existing_lead {
        Some(lead) => if new_members == 0 { GroupAction::Skip } else { GroupAction::Update(lead) },
        None => GroupAction::Create,
    }
}

/// A re-walk of a group whose members were all recorded before adds nobody
/// and calls no sink: the pass is idempotent per (rule, registration).
pub proof fn lemma_rewalk_is_noop(known: Seq<u128>, cands: Seq<LeadRegistrationView>, lead: u128)
    requires
        forall|i: int| 0 <= i < cands.len() ==> known.contains(#[trigger] cands[i].id),
    ensures
        fresh_views(known, cands).len() == 0,
        (if fresh_views(known, cands).len() == 0 { GroupAction::Skip } else { GroupAction::Update(lead) })
            == GroupAction::Skip,
    decreases cands.len(),
{
    if cands.len() > 0 {
        let d = cands.drop_last();
        assert forall|i: int| 0 <= i < d.len() implies known.contains(#[trigger] d[i].id) by {
            assert(d[i] == cands[i]);
        }
        lemma_rewalk_is_noop(known, d, lead);
        assert(cands.last() == cands[cands.len() - 1]);
    }
}

/// What follows a fetched batch of a rule.
#[derive(Debug, Clone, PartialEq, Eq)]
pub enum BatchVerdict {
    /// The rule's domain drained: go to the next rule.
    Drained,
    /// A full batch: fetch the next one.
    NextBatch,
    /// A sink refused: park the request with the reason, stop the walk.
    Park(String),
}

/// The walk after one batch: an empty batch drains the rule; a sink
/// refusal parks; a batch short of the cap drains; a full one continues.
pub fn after_batch(fetched: usize, batch: i64, refusal: Option<String>) -> (r: BatchVerdict)
    ensures
        fetched == 0 ==> r == BatchVerdict::Drained,
        fetched > 0 && refusal.is_some() ==> r is Park && r->Park_0@ == refusal->0@,
        fetched > 0 && refusal.is_none() && (fetched as int) < batch ==> r == BatchVerdict::Drained,
        fetched > 0 && refusal.is_none() && (fetched as int) >= batch ==> r == BatchVerdict::NextBatch,
{
    if fetched == 0 {
        return BatchVerdict::Drained;
    }
    match refusal {
        Some(reason) => BatchVerdict::Park(reason),
        None => if (fetched as i128) < (batch as i128) { BatchVerdict::Drained } else { BatchVerdict::NextBatch },
    }
}

/// The officer verb's refusal when no lease was taken: a row that exists is
/// held by another walker (`LeadRequestBusy`); otherwise nothing ever armed
/// the event (`LeadRequestNotFound`).
pub fn lease_refusal(event_id: u128, rows: i64) -> (r: EventError)
    ensures
        rows > 0 ==> r == (EventError::LeadRequestBusy { event_id }),
        rows <= 0 ==> r == (EventError::LeadRequestNotFound { event_id }),
{
    if rows > 0 {
        EventError::LeadRequestBusy { event_id }
    } else {
        EventError::LeadRequestNotFound { event_id }
    }
}

/// The (groups, with_lead) counters of the first stats row of a grouping
/// at or after `i`, or zeros.
pub open spec fn stats_from(stats: Seq<(String, i64, i64)>, grouping: Seq<char>, i: int) -> (i64, i64)
    decreases stats.len() - i,
{
    if i < 0 || i >= stats.len() {
        (0, 0)
    } else if stats[i].0@ == grouping {
        (stats[i].1, stats[i].2)
    } else {
        stats_from(stats, grouping, i + 1)
    }
}

/// The read model's counters of one grouping grain: the first stats row of
/// that grouping, or zeros when the rule has no such group.
pub fn grouping_stats(stats: &Vec<(String, i64, i64)>, grouping: &str) -> (r: (i64, i64))
    ensures
        r == stats_from(stats@, grouping@, 0),
{
    let mut i: usize = 0;
    while i < stats.len()
        invariant
            i <= stats.len(),
            stats_from(stats@, grouping@, 0) == stats_from(stats@, grouping@, i as int),
        decreases stats.len() - i,
    {
        let row = &stats[i];
        if same_text(row.0.as_str(), grouping) {
            return (row.1, row.2);
        }
        i = i + 1;
    }
    (0, 0)
}

} // verus!
