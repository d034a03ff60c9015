//! One scheduler receipt of a registration.

use vstd::prelude::*;
use crate::entity::{AuditMetadata, PatchValue, bool_of, opt_instant_of, opt_text_of, uuid_of, value_bool, value_opt_instant, value_opt_text, value_uuid};
use crate::ids::fresh_uuid;
use crate::text::{chars_of, string_of, same_text};

verus! {

/// The typed identifier of a mail receipt.
#[derive(Debug, Clone, Copy, PartialEq, Eq, Structural)]
pub struct MailRegistrationId(pub u128);

impl MailRegistrationId {
    /// Wraps an identifier.
    pub fn new(id: u128) -> (r: Self)
        ensures
            r.0 == id,
    {
        MailRegistrationId(id)
    }

    /// A fresh random identifier (nothing is claimed of its value).
    pub fn generate() -> (r: Self) {
        MailRegistrationId(fresh_uuid())
    }

    /// The wrapped identifier.
    pub fn into_inner(self) -> (r: u128)
        ensures
            r == self.0,
    {
        self.0
    }
}

/// One scheduler receipt of a registration.
#[derive(Debug, Clone)]
pub struct MailRegistration {
    pub id: u128,
    pub scheduler_id: u128,
    pub registration_id: u128,
    pub scheduled_date: Option<i64>,
    pub mail_sent: bool,
    pub outcome: Option<String>,
    pub metadata: AuditMetadata,
}

/// One field of a partial update applied to a mail receipt: `scheduler_id`, `registration_id`, `scheduled_date`, `mail_sent`, `outcome` take a value of their own type; any other key, or a value of the wrong shape, changes nothing.
pub open spec fn mail_registration_field(x: MailRegistration, key: Seq<char>, v: PatchValue) -> MailRegistration {
    if key == "scheduler_id"@ {
        match uuid_of(v) {
            Some(y) => MailRegistration { scheduler_id: y, ..x },
            None => x,
        }
    } else if key == "registration_id"@ {
        match uuid_of(v) {
            Some(y) => MailRegistration { registration_id: y, ..x },
            None => x,
        }
    } else if key == "scheduled_date"@ {
        match opt_instant_of(v) {
            Some(y) => MailRegistration { scheduled_date: y, ..x },
            None => x,
        }
    } else if key == "mail_sent"@ {
        match bool_of(v) {
            Some(y) => MailRegistration { mail_sent: y, ..x },
            None => x,
        }
    } else if key == "outcome"@ {
        match opt_text_of(v) {
            Some(y) => MailRegistration { outcome: y, ..x },
            None => x,
        }
    } else {
        x
    }
}

/// A partial update applied field by field, in order.
pub open spec fn mail_registration_patched(x: MailRegistration, fields: Seq<(String, PatchValue)>) -> MailRegistration
    decreases fields.len(),
{
    if fields.len() == 0 {
        x
    } else {
        mail_registration_field(mail_registration_patched(x, fields.drop_last()), fields.last().0@, fields.last().1)
    }
}

/// A partial update never touches the identifier or the audit metadata.
pub proof fn lemma_patch_keeps_identity(x: MailRegistration, fields: Seq<(String, PatchValue)>)
    ensures
        mail_registration_patched(x, fields).id == x.id,
        mail_registration_patched(x, fields).metadata == x.metadata,
    decreases fields.len(),
{
    if fields.len() > 0 {
        lemma_patch_keeps_identity(x, fields.drop_last());
    }
}

impl MailRegistration {
    /// A builder with nothing set.
    pub fn builder() -> (r: MailRegistrationBuilder)
        ensures
            r.scheduler_id_value() is None,
            r.registration_id_value() is None,
            r.scheduled_date_value() is None,
            r.mail_sent_value() is None,
            r.outcome_value() is None,
    {
        MailRegistrationBuilder::default()
    }

    /// A mail receipt with the given fields, the others unset, a fresh identifier and empty audit metadata.
    pub fn new(scheduler_id: u128, registration_id: u128, mail_sent: bool) -> (r: Self)
        ensures
            r.scheduler_id == scheduler_id,
            r.registration_id == registration_id,
            r.scheduled_date is None,
            r.mail_sent == mail_sent,
            r.outcome is None,
            r.metadata == AuditMetadata::empty(),
    {
        MailRegistration {
            id: fresh_uuid(),
            scheduler_id,
            registration_id,
            scheduled_date: None,
            mail_sent,
            outcome: None,
            metadata: AuditMetadata::new(),
        }
    }

    /// The identifier.
    pub fn id(&self) -> (r: u128)
        ensures
            r == self.id,
    {
        self.id
    }

    /// The typed identifier.
    pub fn typed_id(&self) -> (r: MailRegistrationId)
        ensures
            r.0 == self.id,
    {
        MailRegistrationId(self.id)
    }

    /// When the receipt was created.
    pub fn created_at(&self) -> (r: Option<i64>)
        ensures
            r == self.metadata.created_at,
    {
        self.metadata.created_at
    }

    /// When the receipt was last updated.
    pub fn updated_at(&self) -> (r: Option<i64>)
        ensures
            r == self.metadata.updated_at,
    {
        self.metadata.updated_at
    }

    /// Whether the receipt is soft-deleted.
    pub fn is_deleted(&self) -> (r: bool)
        ensures
            r == self.metadata.deleted_at.is_some(),
    {
        self.metadata.deleted_at.is_some()
    }

    /// Whether the receipt is not soft-deleted.
    pub fn is_active(&self) -> (r: bool)
        ensures
            r == self.metadata.deleted_at.is_none(),
    {
        self.metadata.deleted_at.is_none()
    }

    /// When the receipt was deleted.
    pub fn deleted_at(&self) -> (r: Option<i64>)
        ensures
            r == self.metadata.deleted_at,
    {
        self.metadata.deleted_at
    }

    /// Who created the receipt.
    pub fn created_by(&self) -> (r: Option<u128>)
        ensures
            r == self.metadata.created_by,
    {
        self.metadata.created_by
    }

    /// Who last updated the receipt.
    pub fn updated_by(&self) -> (r: Option<u128>)
        ensures
            r == self.metadata.updated_by,
    {
        self.metadata.updated_by
    }

    /// Who deleted the receipt.
    pub fn deleted_by(&self) -> (r: Option<u128>)
        ensures
            r == self.metadata.deleted_by,
    {
        self.metadata.deleted_by
    }

    /// Sets `scheduled_date` (chainable).
    pub fn with_scheduled_date(self, value: i64) -> (r: Self)
        ensures
            r == (MailRegistration { scheduled_date: Some(value), ..self }),
    {
        MailRegistration { scheduled_date: Some(value), ..self }
    }

    /// Sets `outcome` (chainable).
    pub fn with_outcome(self, value: String) -> (r: Self)
        ensures
            r == (MailRegistration { outcome: Some(value), ..self }),
    {
        MailRegistration { outcome: Some(value), ..self }
    }

    /// The entity's type name.
    pub fn entity_type() -> (r: &'static str)
        ensures
            r@ == "MailRegistration"@,
    {
        "MailRegistration"
    }

    /// Applies one field of a partial update.
    pub fn apply_field(&mut self, key: &str, value: &PatchValue)
        ensures
            *final(self) == mail_registration_field(*old(self), key@, *value),
    {
        if same_text(key, "scheduler_id") {
            match value_uuid(value) {
                Some(y) => self.scheduler_id = y,
                None => {},
            }
        } else if same_text(key, "registration_id") {
            match value_uuid(value) {
                Some(y) => self.registration_id = y,
                None => {},
            }
        } else if same_text(key, "scheduled_date") {
            match value_opt_instant(value) {
                Some(y) => self.scheduled_date = y,
                None => {},
            }
        } else if same_text(key, "mail_sent") {
            match value_bool(value) {
                Some(y) => self.mail_sent = y,
                None => {},
            }
        } else if same_text(key, "outcome") {
            match value_opt_text(value) {
                Some(y) => self.outcome = y,
                None => {},
            }
        }
    }

    /// Applies a partial update field by field, in order (unknown keys and
    /// values of the wrong shape are ignored).
    pub fn apply_patch(&mut self, fields: Vec<(String, PatchValue)>)
        ensures
            *final(self) == mail_registration_patched(*old(self), fields@),
    {
        let mut i: usize = 0;
        while i < fields.len()
            invariant
                i <= fields.len(),
                *self == mail_registration_patched(*old(self), fields@.take(i as int)),
            decreases fields.len() - i,
        {
            let (k, v) = &fields[i];
            self.apply_field(k.as_str(), v);
            proof {
                assert(fields@.take(i + 1).drop_last() =~= fields@.take(i as int));
                assert(fields@.take(i + 1).last() == fields@[i as int]);
            }
            i = i + 1;
        }
        assert(fields@.take(fields.len() as int) =~= fields@);
    }
}

/// The builder of a mail receipt: `scheduler_id`, `registration_id` required; `mail_sent` defaults to false.
#[derive(Debug, Clone)]
pub struct MailRegistrationBuilder {
    scheduler_id: Option<u128>,
    registration_id: Option<u128>,
    scheduled_date: Option<i64>,
    mail_sent: Option<bool>,
    outcome: Option<String>,
}

impl Default for MailRegistrationBuilder {
    fn default() -> (r: Self)
        ensures
            r.scheduler_id_value() is None,
            r.registration_id_value() is None,
            r.scheduled_date_value() is None,
            r.mail_sent_value() is None,
            r.outcome_value() is None,
    {
        MailRegistrationBuilder { scheduler_id: None, registration_id: None, scheduled_date: None, mail_sent: None, outcome: None }
    }
}

impl MailRegistrationBuilder {
    /// The `scheduler_id` set so far.
    pub closed spec fn scheduler_id_value(self) -> Option<u128> {
        self.scheduler_id
    }

    /// The `registration_id` set so far.
    pub closed spec fn registration_id_value(self) -> Option<u128> {
        self.registration_id
    }

    /// The `scheduled_date` set so far.
    pub closed spec fn scheduled_date_value(self) -> Option<i64> {
        self.scheduled_date
    }

    /// The `mail_sent` set so far.
    pub closed spec fn mail_sent_value(self) -> Option<bool> {
        self.mail_sent
    }

    /// The `outcome` set so far.
    pub closed spec fn outcome_value(self) -> Option<String> {
        self.outcome
    }

    /// Sets `scheduler_id`.
    pub fn scheduler_id(self, value: u128) -> (r: Self)
        ensures
            r.scheduler_id_value() == Some(value),
            r.registration_id_value() == self.registration_id_value(),
            r.scheduled_date_value() == self.scheduled_date_value(),
            r.mail_sent_value() == self.mail_sent_value(),
            r.outcome_value() == self.outcome_value(),
    {
        MailRegistrationBuilder { scheduler_id: Some(value), ..self }
    }

    /// Sets `registration_id`.
    pub fn registration_id(self, value: u128) -> (r: Self)
        ensures
            r.scheduler_id_value() == self.scheduler_id_value(),
            r.registration_id_value() == Some(value),
            r.scheduled_date_value() == self.scheduled_date_value(),
            r.mail_sent_value() == self.mail_sent_value(),
            r.outcome_value() == self.outcome_value(),
    {
        MailRegistrationBuilder { registration_id: Some(value), ..self }
    }

    /// Sets `scheduled_date`.
    pub fn scheduled_date(self, value: i64) -> (r: Self)
        ensures
            r.scheduler_id_value() == self.scheduler_id_value(),
            r.registration_id_value() == self.registration_id_value(),
            r.scheduled_date_value() == Some(value),
            r.mail_sent_value() == self.mail_sent_value(),
            r.outcome_value() == self.outcome_value(),
    {
        MailRegistrationBuilder { scheduled_date: Some(value), ..self }
    }

    /// Sets `mail_sent`.
    pub fn mail_sent(self, value: bool) -> (r: Self)
        ensures
            r.scheduler_id_value() == self.scheduler_id_value(),
            r.registration_id_value() == self.registration_id_value(),
            r.scheduled_date_value() == self.scheduled_date_value(),
            r.mail_sent_value() == Some(value),
            r.outcome_value() == self.outcome_value(),
    {
        MailRegistrationBuilder { mail_sent: Some(value), ..self }
    }

    /// Sets `outcome`.
    pub fn outcome(self, value: String) -> (r: Self)
        ensures
            r.scheduler_id_value() == self.scheduler_id_value(),
            r.registration_id_value() == self.registration_id_value(),
            r.scheduled_date_value() == self.scheduled_date_value(),
            r.mail_sent_value() == self.mail_sent_value(),
            r.outcome_value() == Some(value),
    {
        MailRegistrationBuilder { outcome: Some(value), ..self }
    }

    /// Builds the receipt: refused with `<field> is required` for the first
    /// required field not set; otherwise the set values, the defaults, a
    /// fresh identifier and empty audit metadata.
    pub fn build(self) -> (r: Result<MailRegistration, String>)
        ensures
            self.scheduler_id_value() is None ==> r.is_err() && r->Err_0@ == "scheduler_id is required"@,
            self.scheduler_id_value() is Some && self.registration_id_value() is None ==> r.is_err() && r->Err_0@ == "registration_id is required"@,
            self.scheduler_id_value() is Some && self.registration_id_value() is Some ==> r.is_ok() && {
                let x = r->Ok_0;
                &&& x.scheduler_id == self.scheduler_id_value()->0
                &&& x.registration_id == self.registration_id_value()->0
                &&& x.scheduled_date == self.scheduled_date_value()
                &&& x.mail_sent == match self.mail_sent_value() { Some(y) => y, None => false }
                &&& x.outcome == self.outcome_value()
                &&& x.metadata == AuditMetadata::empty()
            },
    {
        let scheduler_id = match self.scheduler_id {
            Some(y) => y,
            None => return Err(string_of(&chars_of("scheduler_id is required"))),
        };
        let registration_id = match self.registration_id {
            Some(y) => y,
            None => return Err(string_of(&chars_of("registration_id is required"))),
        };
        Ok(MailRegistration {
            id: fresh_uuid(),
            scheduler_id,
            registration_id,
            scheduled_date: self.scheduled_date,
            mail_sent: match self.mail_sent { Some(y) => y, None => false },
            outcome: self.outcome,
            metadata: AuditMetadata::new(),
        })
    }
}

} // verus!
