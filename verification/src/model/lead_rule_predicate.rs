//! One typed predicate of a lead rule: its axis, its question (on the question_answer axis) and its values.

use vstd::prelude::*;
use crate::entity::{AuditMetadata, PatchValue, json_of, opt_uuid_of, uuid_of, value_opt_uuid, value_uuid};
use crate::ids::fresh_uuid;
use crate::text::{chars_of, string_of, same_text};
use crate::vocab::{EventLeadPredicateAxis};

verus! {

/// The typed identifier of a rule predicate.
#[derive(Debug, Clone, Copy, PartialEq, Eq, Structural)]
pub struct LeadRulePredicateId(pub u128);

impl LeadRulePredicateId {
    /// Wraps an identifier.
    pub fn new(id: u128) -> (r: Self)
        ensures
            r.0 == id,
    {
        LeadRulePredicateId(id)
    }

    /// A fresh random identifier (nothing is claimed of its value).
    pub fn generate() -> (r: Self) {
        LeadRulePredicateId(fresh_uuid())
    }

    /// The wrapped identifier.
    pub fn into_inner(self) -> (r: u128)
        ensures
            r == self.0,
    {
        self.0
    }
}

/// One typed predicate of a lead rule. Its values are kept as the JSON
/// value they were given.
#[derive(Debug)]
pub struct LeadRulePredicate {
    pub id: u128,
    pub rule_id: u128,
    pub axis: EventLeadPredicateAxis,
    pub question_id: Option<u128>,
    pub value_ids: PatchValue,
    pub metadata: AuditMetadata,
}

/// One field of a partial update applied to a rule predicate: `rule_id`, `axis`, `question_id`, `value_ids` take a value of their own type; any other key, or a value of the wrong shape, changes nothing.
pub open spec fn lead_rule_predicate_field(x: LeadRulePredicate, key: Seq<char>, v: PatchValue) -> LeadRulePredicate {
    if key == "rule_id"@ {
        match uuid_of(v) {
            Some(y) => LeadRulePredicate { rule_id: y, ..x },
            None => x,
        }
    } else if key == "axis"@ {
        match match v { PatchValue::Text(s) => EventLeadPredicateAxis::parse_name(s@), _ => None } {
            Some(y) => LeadRulePredicate { axis: y, ..x },
            None => x,
        }
    } else if key == "question_id"@ {
        match opt_uuid_of(v) {
            Some(y) => LeadRulePredicate { question_id: y, ..x },
            None => x,
        }
    } else if key == "value_ids"@ {
        match json_of(v) {
            Some(y) => LeadRulePredicate { value_ids: y, ..x },
            None => x,
        }
    } else {
        x
    }
}

/// A partial update applied field by field, in order.
pub open spec fn lead_rule_predicate_patched(x: LeadRulePredicate, fields: Seq<(String, PatchValue)>) -> LeadRulePredicate
    decreases fields.len(),
{
    if fields.len() == 0 {
        x
    } else {
        lead_rule_predicate_field(lead_rule_predicate_patched(x, fields.drop_last()), fields.last().0@, fields.last().1)
    }
}

/// A partial update never touches the identifier or the audit metadata.
pub proof fn lemma_patch_keeps_identity(x: LeadRulePredicate, fields: Seq<(String, PatchValue)>)
    ensures
        lead_rule_predicate_patched(x, fields).id == x.id,
        lead_rule_predicate_patched(x, fields).metadata == x.metadata,
    decreases fields.len(),
{
    if fields.len() > 0 {
        lemma_patch_keeps_identity(x, fields.drop_last());
    }
}

impl LeadRulePredicate {
    /// A builder with nothing set.
    pub fn builder() -> (r: LeadRulePredicateBuilder)
        ensures
            r.rule_id_value() is None,
            r.axis_value() is None,
            r.question_id_value() is None,
            r.value_ids_value() is None,
    {
        LeadRulePredicateBuilder::default()
    }

    /// A rule predicate with the given fields, the others unset, a fresh identifier and empty audit metadata.
    pub fn new(rule_id: u128, axis: EventLeadPredicateAxis, value_ids: PatchValue) -> (r: Self)
        ensures
            r.rule_id == rule_id,
            r.axis == axis,
            r.question_id is None,
            r.value_ids == value_ids,
            r.metadata == AuditMetadata::empty(),
    {
        LeadRulePredicate {
            id: fresh_uuid(),
            rule_id,
            axis,
            question_id: None,
            value_ids,
            metadata: AuditMetadata::new(),
        }
    }

    /// The identifier.
    pub fn id(&self) -> (r: u128)
        ensures
            r == self.id,
    {
        self.id
    }

    /// The typed identifier.
    pub fn typed_id(&self) -> (r: LeadRulePredicateId)
        ensures
            r.0 == self.id,
    {
        LeadRulePredicateId(self.id)
    }

    /// When the predicate was created.
    pub fn created_at(&self) -> (r: Option<i64>)
        ensures
            r == self.metadata.created_at,
    {
        self.metadata.created_at
    }

    /// When the predicate was last updated.
    pub fn updated_at(&self) -> (r: Option<i64>)
        ensures
            r == self.metadata.updated_at,
    {
        self.metadata.updated_at
    }

    /// Whether the predicate is soft-deleted.
    pub fn is_deleted(&self) -> (r: bool)
        ensures
            r == self.metadata.deleted_at.is_some(),
    {
        self.metadata.deleted_at.is_some()
    }

    /// Whether the predicate is not soft-deleted.
    pub fn is_active(&self) -> (r: bool)
        ensures
            r == self.metadata.deleted_at.is_none(),
    {
        self.metadata.deleted_at.is_none()
    }

    /// When the predicate was deleted.
    pub fn deleted_at(&self) -> (r: Option<i64>)
        ensures
            r == self.metadata.deleted_at,
    {
        self.metadata.deleted_at
    }

    /// Who created the predicate.
    pub fn created_by(&self) -> (r: Option<u128>)
        ensures
            r == self.metadata.created_by,
    {
        self.metadata.created_by
    }

    /// Who last updated the predicate.
    pub fn updated_by(&self) -> (r: Option<u128>)
        ensures
            r == self.metadata.updated_by,
    {
        self.metadata.updated_by
    }

    /// Who deleted the predicate.
    pub fn deleted_by(&self) -> (r: Option<u128>)
        ensures
            r == self.metadata.deleted_by,
    {
        self.metadata.deleted_by
    }

    /// Sets `question_id` (chainable).
    pub fn with_question_id(self, value: u128) -> (r: Self)
        ensures
            r == (LeadRulePredicate { question_id: Some(value), ..self }),
    {
        LeadRulePredicate { question_id: Some(value), ..self }
    }

    /// The entity's type name.
    pub fn entity_type() -> (r: &'static str)
        ensures
            r@ == "LeadRulePredicate"@,
    {
        "LeadRulePredicate"
    }

    /// Applies one field of a partial update (the value is taken: `value_ids`
    /// keeps it as given).
    pub fn apply_field(&mut self, key: &str, value: PatchValue)
        ensures
            *final(self) == lead_rule_predicate_field(*old(self), key@, value),
    {
        if same_text(key, "rule_id") {
            match value_uuid(&value) {
                Some(y) => self.rule_id = y,
                None => {},
            }
        } else if same_text(key, "axis") {
            match match &value { PatchValue::Text(s) => EventLeadPredicateAxis::from_name(s.as_str()), _ => None } {
                Some(y) => self.axis = y,
                None => {},
            }
        } else if same_text(key, "question_id") {
            match value_opt_uuid(&value) {
                Some(y) => self.question_id = y,
                None => {},
            }
        } else if same_text(key, "value_ids") {
            self.value_ids = value;
        }
    }

    /// Applies a partial update field by field, in order (unknown keys and
    /// values of the wrong shape are ignored).
    pub fn apply_patch(&mut self, fields: Vec<(String, PatchValue)>)
        ensures
            *final(self) == lead_rule_predicate_patched(*old(self), fields@),
    {
        let ghost all = fields@;
        let mut rest = fields;
        let ghost mut i: int = 0;
        while rest.len() > 0
            invariant
                0 <= i <= all.len(),
                rest@ == all.skip(i),
                *self == lead_rule_predicate_patched(*old(self), all.take(i)),
            decreases rest.len(),
        {
            let (k, v) = rest.remove(0);
            proof {
                assert(all.skip(i)[0] == all[i]);
                assert(all.take(i + 1).drop_last() =~= all.take(i));
                assert(all.take(i + 1).last() == all[i]);
                assert(all.skip(i).remove(0) =~= all.skip(i + 1));
            }
            self.apply_field(k.as_str(), v);
            proof {
                i = i + 1;
            }
        }
        assert(all.take(i) =~= all);
    }
}

/// The builder of a rule predicate: `rule_id`, `axis`, `value_ids` required; only the question is optional.
#[derive(Debug)]
pub struct LeadRulePredicateBuilder {
    rule_id: Option<u128>,
    axis: Option<EventLeadPredicateAxis>,
    question_id: Option<u128>,
    value_ids: Option<PatchValue>,
}

impl Default for LeadRulePredicateBuilder {
    fn default() -> (r: Self)
        ensures
            r.rule_id_value() is None,
            r.axis_value() is None,
            r.question_id_value() is None,
            r.value_ids_value() is None,
    {
        LeadRulePredicateBuilder { rule_id: None, axis: None, question_id: None, value_ids: None }
    }
}

impl LeadRulePredicateBuilder {
    /// The `rule_id` set so far.
    pub closed spec fn rule_id_value(self) -> Option<u128> {
        self.rule_id
    }

    /// The `axis` set so far.
    pub closed spec fn axis_value(self) -> Option<EventLeadPredicateAxis> {
        self.axis
    }

    /// The `question_id` set so far.
    pub closed spec fn question_id_value(self) -> Option<u128> {
        self.question_id
    }

    /// The `value_ids` set so far.
    pub closed spec fn value_ids_value(self) -> Option<PatchValue> {
        self.value_ids
    }

    /// Sets `rule_id`.
    pub fn rule_id(self, value: u128) -> (r: Self)
        ensures
            r.rule_id_value() == Some(value),
            r.axis_value() == self.axis_value(),
            r.question_id_value() == self.question_id_value(),
            r.value_ids_value() == self.value_ids_value(),
    {
        LeadRulePredicateBuilder { rule_id: Some(value), ..self }
    }

    /// Sets `axis`.
    pub fn axis(self, value: EventLeadPredicateAxis) -> (r: Self)
        ensures
            r.rule_id_value() == self.rule_id_value(),
            r.axis_value() == Some(value),
            r.question_id_value() == self.question_id_value(),
            r.value_ids_value() == self.value_ids_value(),
    {
        LeadRulePredicateBuilder { axis: Some(value), ..self }
    }

    /// Sets `question_id`.
    pub fn question_id(self, value: u128) -> (r: Self)
        ensures
            r.rule_id_value() == self.rule_id_value(),
            r.axis_value() == self.axis_value(),
            r.question_id_value() == Some(value),
            r.value_ids_value() == self.value_ids_value(),
    {
        LeadRulePredicateBuilder { question_id: Some(value), ..self }
    }

    /// Sets `value_ids`.
    pub fn value_ids(self, value: PatchValue) -> (r: Self)
        ensures
            r.rule_id_value() == self.rule_id_value(),
            r.axis_value() == self.axis_value(),
            r.question_id_value() == self.question_id_value(),
            r.value_ids_value() == Some(value),
    {
        LeadRulePredicateBuilder { value_ids: Some(value), ..self }
    }

    /// Builds the predicate: refused with `<field> is required` for the first
    /// required field not set; otherwise the set values, the defaults, a
    /// fresh identifier and empty audit metadata.
    pub fn build(self) -> (r: Result<LeadRulePredicate, String>)
        ensures
            self.rule_id_value() is None ==> r.is_err() && r->Err_0@ == "rule_id is required"@,
            self.rule_id_value() is Some && self.axis_value() is None ==> r.is_err() && r->Err_0@ == "axis is required"@,
            self.rule_id_value() is Some && self.axis_value() is Some && self.value_ids_value() is None ==> r.is_err() && r->Err_0@ == "value_ids is required"@,
            self.rule_id_value() is Some && self.axis_value() is Some && self.value_ids_value() is Some ==> r.is_ok() && {
                let x = r->Ok_0;
                &&& x.rule_id == self.rule_id_value()->0
                &&& x.axis == self.axis_value()->0
                &&& x.question_id == self.question_id_value()
                &&& x.value_ids == self.value_ids_value()->0
                &&& x.metadata == AuditMetadata::empty()
            },
    {
        let rule_id = match self.rule_id {
            Some(y) => y,
            None => return Err(string_of(&chars_of("rule_id is required"))),
        };
        let axis = match self.axis {
            Some(y) => y,
            None => return Err(string_of(&chars_of("axis is required"))),
        };
        let value_ids = match self.value_ids {
            Some(y) => y,
            None => return Err(string_of(&chars_of("value_ids is required"))),
        };
        Ok(LeadRulePredicate {
            id: fresh_uuid(),
            rule_id,
            axis,
            question_id: self.question_id,
            value_ids,
            metadata: AuditMetadata::new(),
        })
    }
}

} // verus!
