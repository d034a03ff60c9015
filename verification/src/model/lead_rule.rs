//! A lead generation rule.

use vstd::prelude::*;
use crate::entity::{AuditMetadata, PatchValue, bool_of, opt_uuid_of, text_of, value_bool, value_opt_uuid, value_text};
use crate::ids::fresh_uuid;
use crate::text::{chars_of, string_of, same_text};
use crate::vocab::{EventLeadBasis};

verus! {

/// The typed identifier of a lead rule.
#[derive(Debug, Clone, Copy, PartialEq, Eq, Structural)]
pub struct LeadRuleId(pub u128);

impl LeadRuleId {
    /// Wraps an identifier.
    pub fn new(id: u128) -> (r: Self)
        ensures
            r.0 == id,
    {
        LeadRuleId(id)
    }

    /// A fresh random identifier (nothing is claimed of its value).
    pub fn generate() -> (r: Self) {
        LeadRuleId(fresh_uuid())
    }

    /// The wrapped identifier.
    pub fn into_inner(self) -> (r: u128)
        ensures
            r == self.0,
    {
        self.0
    }
}

/// A lead generation rule.
#[derive(Debug, Clone)]
pub struct LeadRule {
    pub id: u128,
    pub name: String,
    pub event_id: Option<u128>,
    pub basis: EventLeadBasis,
    pub on_create: bool,
    pub on_confirm: bool,
    pub on_done: bool,
    pub active: bool,
    pub metadata: AuditMetadata,
}

/// One field of a partial update applied to a lead rule: `name`, `event_id`, `basis`, `on_create`, `on_confirm`, `on_done`, `active` take a value of their own type; any other key, or a value of the wrong shape, changes nothing.
pub open spec fn lead_rule_field(x: LeadRule, key: Seq<char>, v: PatchValue) -> LeadRule {
    if key == "name"@ {
        match text_of(v) {
            Some(y) => LeadRule { name: y, ..x },
            None => x,
        }
    } else if key == "event_id"@ {
        match opt_uuid_of(v) {
            Some(y) => LeadRule { event_id: y, ..x },
            None => x,
        }
    } else if key == "basis"@ {
        match match v { PatchValue::Text(s) => EventLeadBasis::parse_name(s@), _ => None } {
            Some(y) => LeadRule { basis: y, ..x },
            None => x,
        }
    } else if key == "on_create"@ {
        match bool_of(v) {
            Some(y) => LeadRule { on_create: y, ..x },
            None => x,
        }
    } else if key == "on_confirm"@ {
        match bool_of(v) {
            Some(y) => LeadRule { on_confirm: y, ..x },
            None => x,
        }
    } else if key == "on_done"@ {
        match bool_of(v) {
            Some(y) => LeadRule { on_done: y, ..x },
            None => x,
        }
    } else if key == "active"@ {
        match bool_of(v) {
            Some(y) => LeadRule { active: y, ..x },
            None => x,
        }
    } else {
        x
    }
}

/// A partial update applied field by field, in order.
pub open spec fn lead_rule_patched(x: LeadRule, fields: Seq<(String, PatchValue)>) -> LeadRule
    decreases fields.len(),
{
    if fields.len() == 0 {
        x
    } else {
        lead_rule_field(lead_rule_patched(x, fields.drop_last()), fields.last().0@, fields.last().1)
    }
}

/// A partial update never touches the identifier or the audit metadata.
pub proof fn lemma_patch_keeps_identity(x: LeadRule, fields: Seq<(String, PatchValue)>)
    ensures
        lead_rule_patched(x, fields).id == x.id,
        lead_rule_patched(x, fields).metadata == x.metadata,
    decreases fields.len(),
{
    if fields.len() > 0 {
        lemma_patch_keeps_identity(x, fields.drop_last());
    }
}

impl LeadRule {
    /// A builder with nothing set.
    pub fn builder() -> (r: LeadRuleBuilder)
        ensures
            r.name_value() is None,
            r.event_id_value() is None,
            r.basis_value() is None,
            r.on_create_value() is None,
            r.on_confirm_value() is None,
            r.on_done_value() is None,
            r.active_value() is None,
    {
        LeadRuleBuilder::default()
    }

    /// A lead rule with the given fields, the others unset, a fresh identifier and empty audit metadata.
    pub fn new(name: String, basis: EventLeadBasis, on_create: bool, on_confirm: bool, on_done: bool, active: bool) -> (r: Self)
        ensures
            r.name == name,
            r.event_id is None,
            r.basis == basis,
            r.on_create == on_create,
            r.on_confirm == on_confirm,
            r.on_done == on_done,
            r.active == active,
            r.metadata == AuditMetadata::empty(),
    {
        LeadRule {
            id: fresh_uuid(),
            name,
            event_id: None,
            basis,
            on_create,
            on_confirm,
            on_done,
            active,
            metadata: AuditMetadata::new(),
        }
    }

    /// The identifier.
    pub fn id(&self) -> (r: u128)
        ensures
            r == self.id,
    {
        self.id
    }

    /// The typed identifier.
    pub fn typed_id(&self) -> (r: LeadRuleId)
        ensures
            r.0 == self.id,
    {
        LeadRuleId(self.id)
    }

    /// When the rule was created.
    pub fn created_at(&self) -> (r: Option<i64>)
        ensures
            r == self.metadata.created_at,
    {
        self.metadata.created_at
    }

    /// When the rule was last updated.
    pub fn updated_at(&self) -> (r: Option<i64>)
        ensures
            r == self.metadata.updated_at,
    {
        self.metadata.updated_at
    }

    /// Whether the rule is soft-deleted.
    pub fn is_deleted(&self) -> (r: bool)
        ensures
            r == self.metadata.deleted_at.is_some(),
    {
        self.metadata.deleted_at.is_some()
    }

    /// Whether the rule is not soft-deleted.
    pub fn is_active(&self) -> (r: bool)
        ensures
            r == self.metadata.deleted_at.is_none(),
    {
        self.metadata.deleted_at.is_none()
    }

    /// When the rule was deleted.
    pub fn deleted_at(&self) -> (r: Option<i64>)
        ensures
            r == self.metadata.deleted_at,
    {
        self.metadata.deleted_at
    }

    /// Who created the rule.
    pub fn created_by(&self) -> (r: Option<u128>)
        ensures
            r == self.metadata.created_by,
    {
        self.metadata.created_by
    }

    /// Who last updated the rule.
    pub fn updated_by(&self) -> (r: Option<u128>)
        ensures
            r == self.metadata.updated_by,
    {
        self.metadata.updated_by
    }

    /// Who deleted the rule.
    pub fn deleted_by(&self) -> (r: Option<u128>)
        ensures
            r == self.metadata.deleted_by,
    {
        self.metadata.deleted_by
    }

    /// Sets `event_id` (chainable).
    pub fn with_event_id(self, value: u128) -> (r: Self)
        ensures
            r == (LeadRule { event_id: Some(value), ..self }),
    {
        LeadRule { event_id: Some(value), ..self }
    }

    /// The entity's type name.
    pub fn entity_type() -> (r: &'static str)
        ensures
            r@ == "LeadRule"@,
    {
        "LeadRule"
    }

    /// Applies one field of a partial update.
    pub fn apply_field(&mut self, key: &str, value: &PatchValue)
        ensures
            *final(self) == lead_rule_field(*old(self), key@, *value),
    {
        if same_text(key, "name") {
            match value_text(value) {
                Some(y) => self.name = y,
                None => {},
            }
        } else if same_text(key, "event_id") {
            match value_opt_uuid(value) {
                Some(y) => self.event_id = y,
                None => {},
            }
        } else if same_text(key, "basis") {
            match match value { PatchValue::Text(s) => EventLeadBasis::from_name(s.as_str()), _ => None } {
                Some(y) => self.basis = y,
                None => {},
            }
        } else if same_text(key, "on_create") {
            match value_bool(value) {
                Some(y) => self.on_create = y,
                None => {},
            }
        } else if same_text(key, "on_confirm") {
            match value_bool(value) {
                Some(y) => self.on_confirm = y,
                None => {},
            }
        } else if same_text(key, "on_done") {
            match value_bool(value) {
                Some(y) => self.on_done = y,
                None => {},
            }
        } else if same_text(key, "active") {
            match value_bool(value) {
                Some(y) => self.active = y,
                None => {},
            }
        }
    }

    /// Applies a partial update field by field, in order (unknown keys and
    /// values of the wrong shape are ignored).
    pub fn apply_patch(&mut self, fields: Vec<(String, PatchValue)>)
        ensures
            *final(self) == lead_rule_patched(*old(self), fields@),
    {
        let mut i: usize = 0;
        while i < fields.len()
            invariant
                i <= fields.len(),
                *self == lead_rule_patched(*old(self), fields@.take(i as int)),
            decreases fields.len() - i,
        {
            let (k, v) = &fields[i];
            self.apply_field(k.as_str(), v);
            proof {
                assert(fields@.take(i + 1).drop_last() =~= fields@.take(i as int));
                assert(fields@.take(i + 1).last() == fields@[i as int]);
            }
            i = i + 1;
        }
        assert(fields@.take(fields.len() as int) =~= fields@);
    }
}

/// The builder of a lead rule: `name` required; the basis defaults to registration, the triggers to false, `active` to true.
#[derive(Debug, Clone)]
pub struct LeadRuleBuilder {
    name: Option<String>,
    event_id: Option<u128>,
    basis: Option<EventLeadBasis>,
    on_create: Option<bool>,
    on_confirm: Option<bool>,
    on_done: Option<bool>,
    active: Option<bool>,
}

impl Default for LeadRuleBuilder {
    fn default() -> (r: Self)
        ensures
            r.name_value() is None,
            r.event_id_value() is None,
            r.basis_value() is None,
            r.on_create_value() is None,
            r.on_confirm_value() is None,
            r.on_done_value() is None,
            r.active_value() is None,
    {
        LeadRuleBuilder { name: None, event_id: None, basis: None, on_create: None, on_confirm: None, on_done: None, active: None }
    }
}

impl LeadRuleBuilder {
    /// The `name` set so far.
    pub closed spec fn name_value(self) -> Option<String> {
        self.name
    }

    /// The `event_id` set so far.
    pub closed spec fn event_id_value(self) -> Option<u128> {
        self.event_id
    }

    /// The `basis` set so far.
    pub closed spec fn basis_value(self) -> Option<EventLeadBasis> {
        self.basis
    }

    /// The `on_create` set so far.
    pub closed spec fn on_create_value(self) -> Option<bool> {
        self.on_create
    }

    /// The `on_confirm` set so far.
    pub closed spec fn on_confirm_value(self) -> Option<bool> {
        self.on_confirm
    }

    /// The `on_done` set so far.
    pub closed spec fn on_done_value(self) -> Option<bool> {
        self.on_done
    }

    /// The `active` set so far.
    pub closed spec fn active_value(self) -> Option<bool> {
        self.active
    }

    /// Sets `name`.
    pub fn name(self, value: String) -> (r: Self)
        ensures
            r.name_value() == Some(value),
            r.event_id_value() == self.event_id_value(),
            r.basis_value() == self.basis_value(),
            r.on_create_value() == self.on_create_value(),
            r.on_confirm_value() == self.on_confirm_value(),
            r.on_done_value() == self.on_done_value(),
            r.active_value() == self.active_value(),
    {
        LeadRuleBuilder { name: Some(value), ..self }
    }

    /// Sets `event_id`.
    pub fn event_id(self, value: u128) -> (r: Self)
        ensures
            r.name_value() == self.name_value(),
            r.event_id_value() == Some(value),
            r.basis_value() == self.basis_value(),
            r.on_create_value() == self.on_create_value(),
            r.on_confirm_value() == self.on_confirm_value(),
            r.on_done_value() == self.on_done_value(),
            r.active_value() == self.active_value(),
    {
        LeadRuleBuilder { event_id: Some(value), ..self }
    }

    /// Sets `basis`.
    pub fn basis(self, value: EventLeadBasis) -> (r: Self)
        ensures
            r.name_value() == self.name_value(),
            r.event_id_value() == self.event_id_value(),
            r.basis_value() == Some(value),
            r.on_create_value() == self.on_create_value(),
            r.on_confirm_value() == self.on_confirm_value(),
            r.on_done_value() == self.on_done_value(),
            r.active_value() == self.active_value(),
    {
        LeadRuleBuilder { basis: Some(value), ..self }
    }

    /// Sets `on_create`.
    pub fn on_create(self, value: bool) -> (r: Self)
        ensures
            r.name_value() == self.name_value(),
            r.event_id_value() == self.event_id_value(),
            r.basis_value() == self.basis_value(),
            r.on_create_value() == Some(value),
            r.on_confirm_value() == self.on_confirm_value(),
            r.on_done_value() == self.on_done_value(),
            r.active_value() == self.active_value(),
    {
        LeadRuleBuilder { on_create: Some(value), ..self }
    }

    /// Sets `on_confirm`.
    pub fn on_confirm(self, value: bool) -> (r: Self)
        ensures
            r.name_value() == self.name_value(),
            r.event_id_value() == self.event_id_value(),
            r.basis_value() == self.basis_value(),
            r.on_create_value() == self.on_create_value(),
            r.on_confirm_value() == Some(value),
            r.on_done_value() == self.on_done_value(),
            r.active_value() == self.active_value(),
    {
        LeadRuleBuilder { on_confirm: Some(value), ..self }
    }

    /// Sets `on_done`.
    pub fn on_done(self, value: bool) -> (r: Self)
        ensures
            r.name_value() == self.name_value(),
            r.event_id_value() == self.event_id_value(),
            r.basis_value() == self.basis_value(),
            r.on_create_value() == self.on_create_value(),
            r.on_confirm_value() == self.on_confirm_value(),
            r.on_done_value() == Some(value),
            r.active_value() == self.active_value(),
    {
        LeadRuleBuilder { on_done: Some(value), ..self }
    }

    /// Sets `active`.
    pub fn active(self, value: bool) -> (r: Self)
        ensures
            r.name_value() == self.name_value(),
            r.event_id_value() == self.event_id_value(),
            r.basis_value() == self.basis_value(),
            r.on_create_value() == self.on_create_value(),
            r.on_confirm_value() == self.on_confirm_value(),
            r.on_done_value() == self.on_done_value(),
            r.active_value() == Some(value),
    {
        LeadRuleBuilder { active: Some(value), ..self }
    }

    /// Builds the rule: refused with `<field> is required` for the first
    /// required field not set; otherwise the set values, the defaults, a
    /// fresh identifier and empty audit metadata.
    pub fn build(self) -> (r: Result<LeadRule, String>)
        ensures
            self.name_value() is None ==> r.is_err() && r->Err_0@ == "name is required"@,
            self.name_value() is Some ==> r.is_ok() && {
                let x = r->Ok_0;
                &&& x.name == self.name_value()->0
                &&& x.event_id == self.event_id_value()
                &&& x.basis == match self.basis_value() { Some(y) => y, None => EventLeadBasis::Registration }
                &&& x.on_create == match self.on_create_value() { Some(y) => y, None => false }
                &&& x.on_confirm == match self.on_confirm_value() { Some(y) => y, None => false }
                &&& x.on_done == match self.on_done_value() { Some(y) => y, None => false }
                &&& x.active == match self.active_value() { Some(y) => y, None => true }
                &&& x.metadata == AuditMetadata::empty()
            },
    {
        let name = match self.name {
            Some(y) => y,
            None => return Err(string_of(&chars_of("name is required"))),
        };
        Ok(LeadRule {
            id: fresh_uuid(),
            name,
            event_id: self.event_id,
            basis: match self.basis { Some(y) => y, None => EventLeadBasis::Registration },
            on_create: match self.on_create { Some(y) => y, None => false },
            on_confirm: match self.on_confirm { Some(y) => y, None => false },
            on_done: match self.on_done { Some(y) => y, None => false },
            active: match self.active { Some(y) => y, None => true },
            metadata: AuditMetadata::new(),
        })
    }
}

} // verus!
