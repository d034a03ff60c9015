//! One scheduler receipt of a slot.

use vstd::prelude::*;
use crate::entity::{AuditMetadata, PatchValue, bool_of, opt_instant_of, opt_uuid_of, uuid_of, value_bool, value_opt_instant, value_opt_uuid, value_uuid};
use crate::ids::fresh_uuid;
use crate::text::{chars_of, string_of, same_text};

verus! {

/// The typed identifier of a slot receipt.
#[derive(Debug, Clone, Copy, PartialEq, Eq, Structural)]
pub struct MailSlotId(pub u128);

impl MailSlotId {
    /// Wraps an identifier.
    pub fn new(id: u128) -> (r: Self)
        ensures
            r.0 == id,
    {
        MailSlotId(id)
    }

    /// A fresh random identifier (nothing is claimed of its value).
    pub fn generate() -> (r: Self) {
        MailSlotId(fresh_uuid())
    }

    /// The wrapped identifier.
    pub fn into_inner(self) -> (r: u128)
        ensures
            r == self.0,
    {
        self.0
    }
}

/// One scheduler receipt of a slot.
#[derive(Debug, Clone)]
pub struct MailSlot {
    pub id: u128,
    pub scheduler_id: u128,
    pub slot_id: u128,
    pub scheduled_date: Option<i64>,
    pub mail_done: bool,
    pub last_registration_id: Option<u128>,
    pub metadata: AuditMetadata,
}

/// One field of a partial update applied to a slot receipt: `scheduler_id`, `slot_id`, `scheduled_date`, `mail_done`, `last_registration_id` take a value of their own type; any other key, or a value of the wrong shape, changes nothing.
pub open spec fn mail_slot_field(x: MailSlot, key: Seq<char>, v: PatchValue) -> MailSlot {
    if key == "scheduler_id"@ {
        match uuid_of(v) {
            Some(y) => MailSlot { scheduler_id: y, ..x },
            None => x,
        }
    } else if key == "slot_id"@ {
        match uuid_of(v) {
            Some(y) => MailSlot { slot_id: y, ..x },
            None => x,
        }
    } else if key == "scheduled_date"@ {
        match opt_instant_of(v) {
            Some(y) => MailSlot { scheduled_date: y, ..x },
            None => x,
        }
    } else if key == "mail_done"@ {
        match bool_of(v) {
            Some(y) => MailSlot { mail_done: y, ..x },
            None => x,
        }
    } else if key == "last_registration_id"@ {
        match opt_uuid_of(v) {
            Some(y) => MailSlot { last_registration_id: y, ..x },
            None => x,
        }
    } else {
        x
    }
}

/// A partial update applied field by field, in order.
pub open spec fn mail_slot_patched(x: MailSlot, fields: Seq<(String, PatchValue)>) -> MailSlot
    decreases fields.len(),
{
    if fields.len() == 0 {
        x
    } else {
        mail_slot_field(mail_slot_patched(x, fields.drop_last()), fields.last().0@, fields.last().1)
    }
}

/// A partial update never touches the identifier or the audit metadata.
pub proof fn lemma_patch_keeps_identity(x: MailSlot, fields: Seq<(String, PatchValue)>)
    ensures
        mail_slot_patched(x, fields).id == x.id,
        mail_slot_patched(x, fields).metadata == x.metadata,
    decreases fields.len(),
{
    if fields.len() > 0 {
        lemma_patch_keeps_identity(x, fields.drop_last());
    }
}

impl MailSlot {
    /// A builder with nothing set.
    pub fn builder() -> (r: MailSlotBuilder)
        ensures
            r.scheduler_id_value() is None,
            r.slot_id_value() is None,
            r.scheduled_date_value() is None,
            r.mail_done_value() is None,
            r.last_registration_id_value() is None,
    {
        MailSlotBuilder::default()
    }

    /// A slot receipt with the given fields, the others unset, a fresh identifier and empty audit metadata.
    pub fn new(scheduler_id: u128, slot_id: u128, mail_done: bool) -> (r: Self)
        ensures
            r.scheduler_id == scheduler_id,
            r.slot_id == slot_id,
            r.scheduled_date is None,
            r.mail_done == mail_done,
            r.last_registration_id is None,
            r.metadata == AuditMetadata::empty(),
    {
        MailSlot {
            id: fresh_uuid(),
            scheduler_id,
            slot_id,
            scheduled_date: None,
            mail_done,
            last_registration_id: None,
            metadata: AuditMetadata::new(),
        }
    }

    /// The identifier.
    pub fn id(&self) -> (r: u128)
        ensures
            r == self.id,
    {
        self.id
    }

    /// The typed identifier.
    pub fn typed_id(&self) -> (r: MailSlotId)
        ensures
            r.0 == self.id,
    {
        MailSlotId(self.id)
    }

    /// When the receipt was created.
    pub fn created_at(&self) -> (r: Option<i64>)
        ensures
            r == self.metadata.created_at,
    {
        self.metadata.created_at
    }

    /// When the receipt was last updated.
    pub fn updated_at(&self) -> (r: Option<i64>)
        ensures
            r == self.metadata.updated_at,
    {
        self.metadata.updated_at
    }

    /// Whether the receipt is soft-deleted.
    pub fn is_deleted(&self) -> (r: bool)
        ensures
            r == self.metadata.deleted_at.is_some(),
    {
        self.metadata.deleted_at.is_some()
    }

    /// Whether the receipt is not soft-deleted.
    pub fn is_active(&self) -> (r: bool)
        ensures
            r == self.metadata.deleted_at.is_none(),
    {
        self.metadata.deleted_at.is_none()
    }

    /// When the receipt was deleted.
    pub fn deleted_at(&self) -> (r: Option<i64>)
        ensures
            r == self.metadata.deleted_at,
    {
        self.metadata.deleted_at
    }

    /// Who created the receipt.
    pub fn created_by(&self) -> (r: Option<u128>)
        ensures
            r == self.metadata.created_by,
    {
        self.metadata.created_by
    }

    /// Who last updated the receipt.
    pub fn updated_by(&self) -> (r: Option<u128>)
        ensures
            r == self.metadata.updated_by,
    {
        self.metadata.updated_by
    }

    /// Who deleted the receipt.
    pub fn deleted_by(&self) -> (r: Option<u128>)
        ensures
            r == self.metadata.deleted_by,
    {
        self.metadata.deleted_by
    }

    /// Sets `scheduled_date` (chainable).
    pub fn with_scheduled_date(self, value: i64) -> (r: Self)
        ensures
            r == (MailSlot { scheduled_date: Some(value), ..self }),
    {
        MailSlot { scheduled_date: Some(value), ..self }
    }

    /// Sets `last_registration_id` (chainable).
    pub fn with_last_registration_id(self, value: u128) -> (r: Self)
        ensures
            r == (MailSlot { last_registration_id: Some(value), ..self }),
    {
        MailSlot { last_registration_id: Some(value), ..self }
    }

    /// The entity's type name.
    pub fn entity_type() -> (r: &'static str)
        ensures
            r@ == "MailSlot"@,
    {
        "MailSlot"
    }

    /// Applies one field of a partial update.
    pub fn apply_field(&mut self, key: &str, value: &PatchValue)
        ensures
            *final(self) == mail_slot_field(*old(self), key@, *value),
    {
        if same_text(key, "scheduler_id") {
            match value_uuid(value) {
                Some(y) => self.scheduler_id = y,
                None => {},
            }
        } else if same_text(key, "slot_id") {
            match value_uuid(value) {
                Some(y) => self.slot_id = y,
                None => {},
            }
        } else if same_text(key, "scheduled_date") {
            match value_opt_instant(value) {
                Some(y) => self.scheduled_date = y,
                None => {},
            }
        } else if same_text(key, "mail_done") {
            match value_bool(value) {
                Some(y) => self.mail_done = y,
                None => {},
            }
        } else if same_text(key, "last_registration_id") {
            match value_opt_uuid(value) {
                Some(y) => self.last_registration_id = y,
                None => {},
            }
        }
    }

    /// Applies a partial update field by field, in order (unknown keys and
    /// values of the wrong shape are ignored).
    pub fn apply_patch(&mut self, fields: Vec<(String, PatchValue)>)
        ensures
            *final(self) == mail_slot_patched(*old(self), fields@),
    {
        let mut i: usize = 0;
        while i < fields.len()
            invariant
                i <= fields.len(),
                *self == mail_slot_patched(*old(self), fields@.take(i as int)),
            decreases fields.len() - i,
        {
            let (k, v) = &fields[i];
            self.apply_field(k.as_str(), v);
            proof {
                assert(fields@.take(i + 1).drop_last() =~= fields@.take(i as int));
                assert(fields@.take(i + 1).last() == fields@[i as int]);
            }
            i = i + 1;
        }
        assert(fields@.take(fields.len() as int) =~= fields@);
    }
}

/// The builder of a slot receipt: `scheduler_id`, `slot_id` required; `mail_done` defaults to false.
#[derive(Debug, Clone)]
pub struct MailSlotBuilder {
    scheduler_id: Option<u128>,
    slot_id: Option<u128>,
    scheduled_date: Option<i64>,
    mail_done: Option<bool>,
    last_registration_id: Option<u128>,
}

impl Default for MailSlotBuilder {
    fn default() -> (r: Self)
        ensures
            r.scheduler_id_value() is None,
            r.slot_id_value() is None,
            r.scheduled_date_value() is None,
            r.mail_done_value() is None,
            r.last_registration_id_value() is None,
    {
        MailSlotBuilder { scheduler_id: None, slot_id: None, scheduled_date: None, mail_done: None, last_registration_id: None }
    }
}

impl MailSlotBuilder {
    /// The `scheduler_id` set so far.
    pub closed spec fn scheduler_id_value(self) -> Option<u128> {
        self.scheduler_id
    }

    /// The `slot_id` set so far.
    pub closed spec fn slot_id_value(self) -> Option<u128> {
        self.slot_id
    }

    /// The `scheduled_date` set so far.
    pub closed spec fn scheduled_date_value(self) -> Option<i64> {
        self.scheduled_date
    }

    /// The `mail_done` set so far.
    pub closed spec fn mail_done_value(self) -> Option<bool> {
        self.mail_done
    }

    /// The `last_registration_id` set so far.
    pub closed spec fn last_registration_id_value(self) -> Option<u128> {
        self.last_registration_id
    }

    /// Sets `scheduler_id`.
    pub fn scheduler_id(self, value: u128) -> (r: Self)
        ensures
            r.scheduler_id_value() == Some(value),
            r.slot_id_value() == self.slot_id_value(),
            r.scheduled_date_value() == self.scheduled_date_value(),
            r.mail_done_value() == self.mail_done_value(),
            r.last_registration_id_value() == self.last_registration_id_value(),
    {
        MailSlotBuilder { scheduler_id: Some(value), ..self }
    }

    /// Sets `slot_id`.
    pub fn slot_id(self, value: u128) -> (r: Self)
        ensures
            r.scheduler_id_value() == self.scheduler_id_value(),
            r.slot_id_value() == Some(value),
            r.scheduled_date_value() == self.scheduled_date_value(),
            r.mail_done_value() == self.mail_done_value(),
            r.last_registration_id_value() == self.last_registration_id_value(),
    {
        MailSlotBuilder { slot_id: Some(value), ..self }
    }

    /// Sets `scheduled_date`.
    pub fn scheduled_date(self, value: i64) -> (r: Self)
        ensures
            r.scheduler_id_value() == self.scheduler_id_value(),
            r.slot_id_value() == self.slot_id_value(),
            r.scheduled_date_value() == Some(value),
            r.mail_done_value() == self.mail_done_value(),
            r.last_registration_id_value() == self.last_registration_id_value(),
    {
        MailSlotBuilder { scheduled_date: Some(value), ..self }
    }

    /// Sets `mail_done`.
    pub fn mail_done(self, value: bool) -> (r: Self)
        ensures
            r.scheduler_id_value() == self.scheduler_id_value(),
            r.slot_id_value() == self.slot_id_value(),
            r.scheduled_date_value() == self.scheduled_date_value(),
            r.mail_done_value() == Some(value),
            r.last_registration_id_value() == self.last_registration_id_value(),
    {
        MailSlotBuilder { mail_done: Some(value), ..self }
    }

    /// Sets `last_registration_id`.
    pub fn last_registration_id(self, value: u128) -> (r: Self)
        ensures
            r.scheduler_id_value() == self.scheduler_id_value(),
            r.slot_id_value() == self.slot_id_value(),
            r.scheduled_date_value() == self.scheduled_date_value(),
            r.mail_done_value() == self.mail_done_value(),
            r.last_registration_id_value() == Some(value),
    {
        MailSlotBuilder { last_registration_id: Some(value), ..self }
    }

    /// Builds the receipt: refused with `<field> is required` for the first
    /// required field not set; otherwise the set values, the defaults, a
    /// fresh identifier and empty audit metadata.
    pub fn build(self) -> (r: Result<MailSlot, String>)
        ensures
            self.scheduler_id_value() is None ==> r.is_err() && r->Err_0@ == "scheduler_id is required"@,
            self.scheduler_id_value() is Some && self.slot_id_value() is None ==> r.is_err() && r->Err_0@ == "slot_id is required"@,
            self.scheduler_id_value() is Some && self.slot_id_value() is Some ==> r.is_ok() && {
                let x = r->Ok_0;
                &&& x.scheduler_id == self.scheduler_id_value()->0
                &&& x.slot_id == self.slot_id_value()->0
                &&& x.scheduled_date == self.scheduled_date_value()
                &&& x.mail_done == match self.mail_done_value() { Some(y) => y, None => false }
                &&& x.last_registration_id == self.last_registration_id_value()
                &&& x.metadata == AuditMetadata::empty()
            },
    {
        let scheduler_id = match self.scheduler_id {
            Some(y) => y,
            None => return Err(string_of(&chars_of("scheduler_id is required"))),
        };
        let slot_id = match self.slot_id {
            Some(y) => y,
            None => return Err(string_of(&chars_of("slot_id is required"))),
        };
        Ok(MailSlot {
            id: fresh_uuid(),
            scheduler_id,
            slot_id,
            scheduled_date: self.scheduled_date,
            mail_done: match self.mail_done { Some(y) => y, None => false },
            last_registration_id: self.last_registration_id,
            metadata: AuditMetadata::new(),
        })
    }
}

} // verus!
