//! The record of one generated lead group: its rule, event, grain, key and lead.

use vstd::prelude::*;
use crate::entity::{AuditMetadata, PatchValue, opt_uuid_of, text_of, uuid_of, value_opt_uuid, value_text, value_uuid};
use crate::ids::fresh_uuid;
use crate::text::{chars_of, string_of, same_text};
use crate::vocab::{EventLeadGrouping};

verus! {

/// The typed identifier of a lead provenance.
#[derive(Debug, Clone, Copy, PartialEq, Eq, Structural)]
pub struct LeadProvenanceId(pub u128);

impl LeadProvenanceId {
    /// Wraps an identifier.
    pub fn new(id: u128) -> (r: Self)
        ensures
            r.0 == id,
    {
        LeadProvenanceId(id)
    }

    /// A fresh random identifier (nothing is claimed of its value).
    pub fn generate() -> (r: Self) {
        LeadProvenanceId(fresh_uuid())
    }

    /// The wrapped identifier.
    pub fn into_inner(self) -> (r: u128)
        ensures
            r == self.0,
    {
        self.0
    }
}

/// The record of one generated lead group.
#[derive(Debug, Clone)]
pub struct LeadProvenance {
    pub id: u128,
    pub rule_id: u128,
    pub event_id: u128,
    pub lead_id: Option<u128>,
    pub group_key: String,
    pub grouping: EventLeadGrouping,
    pub metadata: AuditMetadata,
}

/// One field of a partial update applied to a lead provenance: `rule_id`, `event_id`, `lead_id`, `group_key`, `grouping` take a value of their own type; any other key, or a value of the wrong shape, changes nothing.
pub open spec fn lead_provenance_field(x: LeadProvenance, key: Seq<char>, v: PatchValue) -> LeadProvenance {
    if key == "rule_id"@ {
        match uuid_of(v) {
            Some(y) => LeadProvenance { rule_id: y, ..x },
            None => x,
        }
    } else if key == "event_id"@ {
        match uuid_of(v) {
            Some(y) => LeadProvenance { event_id: y, ..x },
            None => x,
        }
    } else if key == "lead_id"@ {
        match opt_uuid_of(v) {
            Some(y) => LeadProvenance { lead_id: y, ..x },
            None => x,
        }
    } else if key == "group_key"@ {
        match text_of(v) {
            Some(y) => LeadProvenance { group_key: y, ..x },
            None => x,
        }
    } else if key == "grouping"@ {
        match match v { PatchValue::Text(s) => EventLeadGrouping::parse_name(s@), _ => None } {
            Some(y) => LeadProvenance { grouping: y, ..x },
            None => x,
        }
    } else {
        x
    }
}

/// A partial update applied field by field, in order.
pub open spec fn lead_provenance_patched(x: LeadProvenance, fields: Seq<(String, PatchValue)>) -> LeadProvenance
    decreases fields.len(),
{
    if fields.len() == 0 {
        x
    } else {
        lead_provenance_field(lead_provenance_patched(x, fields.drop_last()), fields.last().0@, fields.last().1)
    }
}

/// A partial update never touches the identifier or the audit metadata.
pub proof fn lemma_patch_keeps_identity(x: LeadProvenance, fields: Seq<(String, PatchValue)>)
    ensures
        lead_provenance_patched(x, fields).id == x.id,
        lead_provenance_patched(x, fields).metadata == x.metadata,
    decreases fields.len(),
{
    if fields.len() > 0 {
        lemma_patch_keeps_identity(x, fields.drop_last());
    }
}

impl LeadProvenance {
    /// A builder with nothing set.
    pub fn builder() -> (r: LeadProvenanceBuilder)
        ensures
            r.rule_id_value() is None,
            r.event_id_value() is None,
            r.lead_id_value() is None,
            r.group_key_value() is None,
            r.grouping_value() is None,
    {
        LeadProvenanceBuilder::default()
    }

    /// A lead provenance with the given fields, the others unset, a fresh identifier and empty audit metadata.
    pub fn new(rule_id: u128, event_id: u128, group_key: String, grouping: EventLeadGrouping) -> (r: Self)
        ensures
            r.rule_id == rule_id,
            r.event_id == event_id,
            r.lead_id is None,
            r.group_key == group_key,
            r.grouping == grouping,
            r.metadata == AuditMetadata::empty(),
    {
        LeadProvenance {
            id: fresh_uuid(),
            rule_id,
            event_id,
            lead_id: None,
            group_key,
            grouping,
            metadata: AuditMetadata::new(),
        }
    }

    /// The identifier.
    pub fn id(&self) -> (r: u128)
        ensures
            r == self.id,
    {
        self.id
    }

    /// The typed identifier.
    pub fn typed_id(&self) -> (r: LeadProvenanceId)
        ensures
            r.0 == self.id,
    {
        LeadProvenanceId(self.id)
    }

    /// When the provenance was created.
    pub fn created_at(&self) -> (r: Option<i64>)
        ensures
            r == self.metadata.created_at,
    {
        self.metadata.created_at
    }

    /// When the provenance was last updated.
    pub fn updated_at(&self) -> (r: Option<i64>)
        ensures
            r == self.metadata.updated_at,
    {
        self.metadata.updated_at
    }

    /// Whether the provenance is soft-deleted.
    pub fn is_deleted(&self) -> (r: bool)
        ensures
            r == self.metadata.deleted_at.is_some(),
    {
        self.metadata.deleted_at.is_some()
    }

    /// Whether the provenance is not soft-deleted.
    pub fn is_active(&self) -> (r: bool)
        ensures
            r == self.metadata.deleted_at.is_none(),
    {
        self.metadata.deleted_at.is_none()
    }

    /// When the provenance was deleted.
    pub fn deleted_at(&self) -> (r: Option<i64>)
        ensures
            r == self.metadata.deleted_at,
    {
        self.metadata.deleted_at
    }

    /// Who created the provenance.
    pub fn created_by(&self) -> (r: Option<u128>)
        ensures
            r == self.metadata.created_by,
    {
        self.metadata.created_by
    }

    /// Who last updated the provenance.
    pub fn updated_by(&self) -> (r: Option<u128>)
        ensures
            r == self.metadata.updated_by,
    {
        self.metadata.updated_by
    }

    /// Who deleted the provenance.
    pub fn deleted_by(&self) -> (r: Option<u128>)
        ensures
            r == self.metadata.deleted_by,
    {
        self.metadata.deleted_by
    }

    /// Sets `lead_id` (chainable).
    pub fn with_lead_id(self, value: u128) -> (r: Self)
        ensures
            r == (LeadProvenance { lead_id: Some(value), ..self }),
    {
        LeadProvenance { lead_id: Some(value), ..self }
    }

    /// The entity's type name.
    pub fn entity_type() -> (r: &'static str)
        ensures
            r@ == "LeadProvenance"@,
    {
        "LeadProvenance"
    }

    /// Applies one field of a partial update.
    pub fn apply_field(&mut self, key: &str, value: &PatchValue)
        ensures
            *final(self) == lead_provenance_field(*old(self), key@, *value),
    {
        if same_text(key, "rule_id") {
            match value_uuid(value) {
                Some(y) => self.rule_id = y,
                None => {},
            }
        } else if same_text(key, "event_id") {
            match value_uuid(value) {
                Some(y) => self.event_id = y,
                None => {},
            }
        } else if same_text(key, "lead_id") {
            match value_opt_uuid(value) {
                Some(y) => self.lead_id = y,
                None => {},
            }
        } else if same_text(key, "group_key") {
            match value_text(value) {
                Some(y) => self.group_key = y,
                None => {},
            }
        } else if same_text(key, "grouping") {
            match match value { PatchValue::Text(s) => EventLeadGrouping::from_name(s.as_str()), _ => None } {
                Some(y) => self.grouping = y,
                None => {},
            }
        }
    }

    /// Applies a partial update field by field, in order (unknown keys and
    /// values of the wrong shape are ignored).
    pub fn apply_patch(&mut self, fields: Vec<(String, PatchValue)>)
        ensures
            *final(self) == lead_provenance_patched(*old(self), fields@),
    {
        let mut i: usize = 0;
        while i < fields.len()
            invariant
                i <= fields.len(),
                *self == lead_provenance_patched(*old(self), fields@.take(i as int)),
            decreases fields.len() - i,
        {
            let (k, v) = &fields[i];
            self.apply_field(k.as_str(), v);
            proof {
                assert(fields@.take(i + 1).drop_last() =~= fields@.take(i as int));
                assert(fields@.take(i + 1).last() == fields@[i as int]);
            }
            i = i + 1;
        }
        assert(fields@.take(fields.len() as int) =~= fields@);
    }
}

/// The builder of a lead provenance: `rule_id`, `event_id`, `group_key`, `grouping` required; only the lead is optional.
#[derive(Debug, Clone)]
pub struct LeadProvenanceBuilder {
    rule_id: Option<u128>,
    event_id: Option<u128>,
    lead_id: Option<u128>,
    group_key: Option<String>,
    grouping: Option<EventLeadGrouping>,
}

impl Default for LeadProvenanceBuilder {
    fn default() -> (r: Self)
        ensures
            r.rule_id_value() is None,
            r.event_id_value() is None,
            r.lead_id_value() is None,
            r.group_key_value() is None,
            r.grouping_value() is None,
    {
        LeadProvenanceBuilder { rule_id: None, event_id: None, lead_id: None, group_key: None, grouping: None }
    }
}

impl LeadProvenanceBuilder {
    /// The `rule_id` set so far.
    pub closed spec fn rule_id_value(self) -> Option<u128> {
        self.rule_id
    }

    /// The `event_id` set so far.
    pub closed spec fn event_id_value(self) -> Option<u128> {
        self.event_id
    }

    /// The `lead_id` set so far.
    pub closed spec fn lead_id_value(self) -> Option<u128> {
        self.lead_id
    }

    /// The `group_key` set so far.
    pub closed spec fn group_key_value(self) -> Option<String> {
        self.group_key
    }

    /// The `grouping` set so far.
    pub closed spec fn grouping_value(self) -> Option<EventLeadGrouping> {
        self.grouping
    }

    /// Sets `rule_id`.
    pub fn rule_id(self, value: u128) -> (r: Self)
        ensures
            r.rule_id_value() == Some(value),
            r.event_id_value() == self.event_id_value(),
            r.lead_id_value() == self.lead_id_value(),
            r.group_key_value() == self.group_key_value(),
            r.grouping_value() == self.grouping_value(),
    {
        LeadProvenanceBuilder { rule_id: Some(value), ..self }
    }

    /// Sets `event_id`.
    pub fn event_id(self, value: u128) -> (r: Self)
        ensures
            r.rule_id_value() == self.rule_id_value(),
            r.event_id_value() == Some(value),
            r.lead_id_value() == self.lead_id_value(),
            r.group_key_value() == self.group_key_value(),
            r.grouping_value() == self.grouping_value(),
    {
        LeadProvenanceBuilder { event_id: Some(value), ..self }
    }

    /// Sets `lead_id`.
    pub fn lead_id(self, value: u128) -> (r: Self)
        ensures
            r.rule_id_value() == self.rule_id_value(),
            r.event_id_value() == self.event_id_value(),
            r.lead_id_value() == Some(value),
            r.group_key_value() == self.group_key_value(),
            r.grouping_value() == self.grouping_value(),
    {
        LeadProvenanceBuilder { lead_id: Some(value), ..self }
    }

    /// Sets `group_key`.
    pub fn group_key(self, value: String) -> (r: Self)
        ensures
            r.rule_id_value() == self.rule_id_value(),
            r.event_id_value() == self.event_id_value(),
            r.lead_id_value() == self.lead_id_value(),
            r.group_key_value() == Some(value),
            r.grouping_value() == self.grouping_value(),
    {
        LeadProvenanceBuilder { group_key: Some(value), ..self }
    }

    /// Sets `grouping`.
    pub fn grouping(self, value: EventLeadGrouping) -> (r: Self)
        ensures
            r.rule_id_value() == self.rule_id_value(),
            r.event_id_value() == self.event_id_value(),
            r.lead_id_value() == self.lead_id_value(),
            r.group_key_value() == self.group_key_value(),
            r.grouping_value() == Some(value),
    {
        LeadProvenanceBuilder { grouping: Some(value), ..self }
    }

    /// Builds the provenance: refused with `<field> is required` for the first
    /// required field not set; otherwise the set values, the defaults, a
    /// fresh identifier and empty audit metadata.
    pub fn build(self) -> (r: Result<LeadProvenance, String>)
        ensures
            self.rule_id_value() is None ==> r.is_err() && r->Err_0@ == "rule_id is required"@,
            self.rule_id_value() is Some && self.event_id_value() is None ==> r.is_err() && r->Err_0@ == "event_id is required"@,
            self.rule_id_value() is Some && self.event_id_value() is Some && self.group_key_value() is None ==> r.is_err() && r->Err_0@ == "group_key is required"@,
            self.rule_id_value() is Some && self.event_id_value() is Some && self.group_key_value() is Some && self.grouping_value() is None ==> r.is_err() && r->Err_0@ == "grouping is required"@,
            self.rule_id_value() is Some && self.event_id_value() is Some && self.group_key_value() is Some && self.grouping_value() is Some ==> r.is_ok() && {
                let x = r->Ok_0;
                &&& x.rule_id == self.rule_id_value()->0
                &&& x.event_id == self.event_id_value()->0
                &&& x.lead_id == self.lead_id_value()
                &&& x.group_key == self.group_key_value()->0
                &&& x.grouping == self.grouping_value()->0
                &&& x.metadata == AuditMetadata::empty()
            },
    {
        let rule_id = match self.rule_id {
            Some(y) => y,
            None => return Err(string_of(&chars_of("rule_id is required"))),
        };
        let event_id = match self.event_id {
            Some(y) => y,
            None => return Err(string_of(&chars_of("event_id is required"))),
        };
        let group_key = match self.group_key {
            Some(y) => y,
            None => return Err(string_of(&chars_of("group_key is required"))),
        };
        let grouping = match self.grouping {
            Some(y) => y,
            None => return Err(string_of(&chars_of("grouping is required"))),
        };
        Ok(LeadProvenance {
            id: fresh_uuid(),
            rule_id,
            event_id,
            lead_id: self.lead_id,
            group_key,
            grouping,
            metadata: AuditMetadata::new(),
        })
    }
}

} // verus!
