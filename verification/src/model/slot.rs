//! A time slot of a multi-slot event.

use vstd::prelude::*;
use crate::entity::{AuditMetadata, PatchValue, instant_of, opt_instant_of, text_of, uuid_of, value_instant, value_opt_instant, value_text, value_uuid};
use crate::ids::fresh_uuid;
use crate::text::{chars_of, string_of, same_text};

verus! {

/// The typed identifier of a slot.
#[derive(Debug, Clone, Copy, PartialEq, Eq, Structural)]
pub struct SlotId(pub u128);

impl SlotId {
    /// Wraps an identifier.
    pub fn new(id: u128) -> (r: Self)
        ensures
            r.0 == id,
    {
        SlotId(id)
    }

    /// A fresh random identifier (nothing is claimed of its value).
    pub fn generate() -> (r: Self) {
        SlotId(fresh_uuid())
    }

    /// The wrapped identifier.
    pub fn into_inner(self) -> (r: u128)
        ensures
            r == self.0,
    {
        self.0
    }
}

/// A time slot of a multi-slot event.
#[derive(Debug, Clone)]
pub struct Slot {
    pub id: u128,
    pub event_id: u128,
    pub name: String,
    pub date_begin: i64,
    pub date_end: Option<i64>,
    pub metadata: AuditMetadata,
}

/// One field of a partial update applied to a slot: `event_id`, `name`, `date_begin`, `date_end` take a value of their own type; any other key, or a value of the wrong shape, changes nothing.
pub open spec fn slot_field(x: Slot, key: Seq<char>, v: PatchValue) -> Slot {
    if key == "event_id"@ {
        match uuid_of(v) {
            Some(y) => Slot { event_id: y, ..x },
            None => x,
        }
    } else if key == "name"@ {
        match text_of(v) {
            Some(y) => Slot { name: y, ..x },
            None => x,
        }
    } else if key == "date_begin"@ {
        match instant_of(v) {
            Some(y) => Slot { date_begin: y, ..x },
            None => x,
        }
    } else if key == "date_end"@ {
        match opt_instant_of(v) {
            Some(y) => Slot { date_end: y, ..x },
            None => x,
        }
    } else {
        x
    }
}

/// A partial update applied field by field, in order.
pub open spec fn slot_patched(x: Slot, fields: Seq<(String, PatchValue)>) -> Slot
    decreases fields.len(),
{
    if fields.len() == 0 {
        x
    } else {
        slot_field(slot_patched(x, fields.drop_last()), fields.last().0@, fields.last().1)
    }
}

/// A partial update never touches the identifier or the audit metadata.
pub proof fn lemma_patch_keeps_identity(x: Slot, fields: Seq<(String, PatchValue)>)
    ensures
        slot_patched(x, fields).id == x.id,
        slot_patched(x, fields).metadata == x.metadata,
    decreases fields.len(),
{
    if fields.len() > 0 {
        lemma_patch_keeps_identity(x, fields.drop_last());
    }
}

impl Slot {
    /// A builder with nothing set.
    pub fn builder() -> (r: SlotBuilder)
        ensures
            r.event_id_value() is None,
            r.name_value() is None,
            r.date_begin_value() is None,
            r.date_end_value() is None,
    {
        SlotBuilder::default()
    }

    /// A slot with the given fields, the others unset, a fresh identifier and empty audit metadata.
    pub fn new(event_id: u128, name: String, date_begin: i64) -> (r: Self)
        ensures
            r.event_id == event_id,
            r.name == name,
            r.date_begin == date_begin,
            r.date_end is None,
            r.metadata == AuditMetadata::empty(),
    {
        Slot {
            id: fresh_uuid(),
            event_id,
            name,
            date_begin,
            date_end: None,
            metadata: AuditMetadata::new(),
        }
    }

    /// The identifier.
    pub fn id(&self) -> (r: u128)
        ensures
            r == self.id,
    {
        self.id
    }

    /// The typed identifier.
    pub fn typed_id(&self) -> (r: SlotId)
        ensures
            r.0 == self.id,
    {
        SlotId(self.id)
    }

    /// When the slot was created.
    pub fn created_at(&self) -> (r: Option<i64>)
        ensures
            r == self.metadata.created_at,
    {
        self.metadata.created_at
    }

    /// When the slot was last updated.
    pub fn updated_at(&self) -> (r: Option<i64>)
        ensures
            r == self.metadata.updated_at,
    {
        self.metadata.updated_at
    }

    /// Whether the slot is soft-deleted.
    pub fn is_deleted(&self) -> (r: bool)
        ensures
            r == self.metadata.deleted_at.is_some(),
    {
        self.metadata.deleted_at.is_some()
    }

    /// Whether the slot is not soft-deleted.
    pub fn is_active(&self) -> (r: bool)
        ensures
            r == self.metadata.deleted_at.is_none(),
    {
        self.metadata.deleted_at.is_none()
    }

    /// When the slot was deleted.
    pub fn deleted_at(&self) -> (r: Option<i64>)
        ensures
            r == self.metadata.deleted_at,
    {
        self.metadata.deleted_at
    }

    /// Who created the slot.
    pub fn created_by(&self) -> (r: Option<u128>)
        ensures
            r == self.metadata.created_by,
    {
        self.metadata.created_by
    }

    /// Who last updated the slot.
    pub fn updated_by(&self) -> (r: Option<u128>)
        ensures
            r == self.metadata.updated_by,
    {
        self.metadata.updated_by
    }

    /// Who deleted the slot.
    pub fn deleted_by(&self) -> (r: Option<u128>)
        ensures
            r == self.metadata.deleted_by,
    {
        self.metadata.deleted_by
    }

    /// Sets `date_end` (chainable).
    pub fn with_date_end(self, value: i64) -> (r: Self)
        ensures
            r == (Slot { date_end: Some(value), ..self }),
    {
        Slot { date_end: Some(value), ..self }
    }

    /// The entity's type name.
    pub fn entity_type() -> (r: &'static str)
        ensures
            r@ == "Slot"@,
    {
        "Slot"
    }

    /// Applies one field of a partial update.
    pub fn apply_field(&mut self, key: &str, value: &PatchValue)
        ensures
            *final(self) == slot_field(*old(self), key@, *value),
    {
        if same_text(key, "event_id") {
            match value_uuid(value) {
                Some(y) => self.event_id = y,
                None => {},
            }
        } else if same_text(key, "name") {
            match value_text(value) {
                Some(y) => self.name = y,
                None => {},
            }
        } else if same_text(key, "date_begin") {
            match value_instant(value) {
                Some(y) => self.date_begin = y,
                None => {},
            }
        } else if same_text(key, "date_end") {
            match value_opt_instant(value) {
                Some(y) => self.date_end = y,
                None => {},
            }
        }
    }

    /// Applies a partial update field by field, in order (unknown keys and
    /// values of the wrong shape are ignored).
    pub fn apply_patch(&mut self, fields: Vec<(String, PatchValue)>)
        ensures
            *final(self) == slot_patched(*old(self), fields@),
    {
        let mut i: usize = 0;
        while i < fields.len()
            invariant
                i <= fields.len(),
                *self == slot_patched(*old(self), fields@.take(i as int)),
            decreases fields.len() - i,
        {
            let (k, v) = &fields[i];
            self.apply_field(k.as_str(), v);
            proof {
                assert(fields@.take(i + 1).drop_last() =~= fields@.take(i as int));
                assert(fields@.take(i + 1).last() == fields@[i as int]);
            }
            i = i + 1;
        }
        assert(fields@.take(fields.len() as int) =~= fields@);
    }
}

/// The builder of a slot: `event_id`, `name`, `date_begin` required; the end is optional.
#[derive(Debug, Clone)]
pub struct SlotBuilder {
    event_id: Option<u128>,
    name: Option<String>,
    date_begin: Option<i64>,
    date_end: Option<i64>,
}

impl Default for SlotBuilder {
    fn default() -> (r: Self)
        ensures
            r.event_id_value() is None,
            r.name_value() is None,
            r.date_begin_value() is None,
            r.date_end_value() is None,
    {
        SlotBuilder { event_id: None, name: None, date_begin: None, date_end: None }
    }
}

impl SlotBuilder {
    /// The `event_id` set so far.
    pub closed spec fn event_id_value(self) -> Option<u128> {
        self.event_id
    }

    /// The `name` set so far.
    pub closed spec fn name_value(self) -> Option<String> {
        self.name
    }

    /// The `date_begin` set so far.
    pub closed spec fn date_begin_value(self) -> Option<i64> {
        self.date_begin
    }

    /// The `date_end` set so far.
    pub closed spec fn date_end_value(self) -> Option<i64> {
        self.date_end
    }

    /// Sets `event_id`.
    pub fn event_id(self, value: u128) -> (r: Self)
        ensures
            r.event_id_value() == Some(value),
            r.name_value() == self.name_value(),
            r.date_begin_value() == self.date_begin_value(),
            r.date_end_value() == self.date_end_value(),
    {
        SlotBuilder { event_id: Some(value), ..self }
    }

    /// Sets `name`.
    pub fn name(self, value: String) -> (r: Self)
        ensures
            r.event_id_value() == self.event_id_value(),
            r.name_value() == Some(value),
            r.date_begin_value() == self.date_begin_value(),
            r.date_end_value() == self.date_end_value(),
    {
        SlotBuilder { name: Some(value), ..self }
    }

    /// Sets `date_begin`.
    pub fn date_begin(self, value: i64) -> (r: Self)
        ensures
            r.event_id_value() == self.event_id_value(),
            r.name_value() == self.name_value(),
            r.date_begin_value() == Some(value),
            r.date_end_value() == self.date_end_value(),
    {
        SlotBuilder { date_begin: Some(value), ..self }
    }

    /// Sets `date_end`.
    pub fn date_end(self, value: i64) -> (r: Self)
        ensures
            r.event_id_value() == self.event_id_value(),
            r.name_value() == self.name_value(),
            r.date_begin_value() == self.date_begin_value(),
            r.date_end_value() == Some(value),
    {
        SlotBuilder { date_end: Some(value), ..self }
    }

    /// Builds the slot: refused with `<field> is required` for the first
    /// required field not set; otherwise the set values, the defaults, a
    /// fresh identifier and empty audit metadata.
    pub fn build(self) -> (r: Result<Slot, String>)
        ensures
            self.event_id_value() is None ==> r.is_err() && r->Err_0@ == "event_id is required"@,
            self.event_id_value() is Some && self.name_value() is None ==> r.is_err() && r->Err_0@ == "name is required"@,
            self.event_id_value() is Some && self.name_value() is Some && self.date_begin_value() is None ==> r.is_err() && r->Err_0@ == "date_begin is required"@,
            self.event_id_value() is Some && self.name_value() is Some && self.date_begin_value() is Some ==> r.is_ok() && {
                let x = r->Ok_0;
                &&& x.event_id == self.event_id_value()->0
                &&& x.name == self.name_value()->0
                &&& x.date_begin == self.date_begin_value()->0
                &&& x.date_end == self.date_end_value()
                &&& x.metadata == AuditMetadata::empty()
            },
    {
        let event_id = match self.event_id {
            Some(y) => y,
            None => return Err(string_of(&chars_of("event_id is required"))),
        };
        let name = match self.name {
            Some(y) => y,
            None => return Err(string_of(&chars_of("name is required"))),
        };
        let date_begin = match self.date_begin {
            Some(y) => y,
            None => return Err(string_of(&chars_of("date_begin is required"))),
        };
        Ok(Slot {
            id: fresh_uuid(),
            event_id,
            name,
            date_begin,
            date_end: self.date_end,
            metadata: AuditMetadata::new(),
        })
    }
}

} // verus!
