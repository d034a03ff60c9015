//! The link of a question to an event or an event type.

use vstd::prelude::*;
use crate::entity::{AuditMetadata, PatchValue, i32_of, opt_uuid_of, uuid_of, value_i32, value_opt_uuid, value_uuid};
use crate::ids::fresh_uuid;
use crate::text::{chars_of, string_of, same_text};

verus! {

/// The typed identifier of a question link.
#[derive(Debug, Clone, Copy, PartialEq, Eq, Structural)]
pub struct RegistrationQuestionId(pub u128);

impl RegistrationQuestionId {
    /// Wraps an identifier.
    pub fn new(id: u128) -> (r: Self)
        ensures
            r.0 == id,
    {
        RegistrationQuestionId(id)
    }

    /// A fresh random identifier (nothing is claimed of its value).
    pub fn generate() -> (r: Self) {
        RegistrationQuestionId(fresh_uuid())
    }

    /// The wrapped identifier.
    pub fn into_inner(self) -> (r: u128)
        ensures
            r == self.0,
    {
        self.0
    }
}

/// The link of a question to an event or an event type.
#[derive(Debug, Clone)]
pub struct RegistrationQuestion {
    pub id: u128,
    pub event_id: Option<u128>,
    pub event_type_id: Option<u128>,
    pub question_id: u128,
    pub sequence: i32,
    pub metadata: AuditMetadata,
}

/// One field of a partial update applied to a question link: `event_id`, `event_type_id`, `question_id`, `sequence` take a value of their own type; any other key, or a value of the wrong shape, changes nothing.
pub open spec fn registration_question_field(x: RegistrationQuestion, key: Seq<char>, v: PatchValue) -> RegistrationQuestion {
    if key == "event_id"@ {
        match opt_uuid_of(v) {
            Some(y) => RegistrationQuestion { event_id: y, ..x },
            None => x,
        }
    } else if key == "event_type_id"@ {
        match opt_uuid_of(v) {
            Some(y) => RegistrationQuestion { event_type_id: y, ..x },
            None => x,
        }
    } else if key == "question_id"@ {
        match uuid_of(v) {
            Some(y) => RegistrationQuestion { question_id: y, ..x },
            None => x,
        }
    } else if key == "sequence"@ {
        match i32_of(v) {
            Some(y) => RegistrationQuestion { sequence: y, ..x },
            None => x,
        }
    } else {
        x
    }
}

/// A partial update applied field by field, in order.
pub open spec fn registration_question_patched(x: RegistrationQuestion, fields: Seq<(String, PatchValue)>) -> RegistrationQuestion
    decreases fields.len(),
{
    if fields.len() == 0 {
        x
    } else {
        registration_question_field(registration_question_patched(x, fields.drop_last()), fields.last().0@, fields.last().1)
    }
}

/// A partial update never touches the identifier or the audit metadata.
pub proof fn lemma_patch_keeps_identity(x: RegistrationQuestion, fields: Seq<(String, PatchValue)>)
    ensures
        registration_question_patched(x, fields).id == x.id,
        registration_question_patched(x, fields).metadata == x.metadata,
    decreases fields.len(),
{
    if fields.len() > 0 {
        lemma_patch_keeps_identity(x, fields.drop_last());
    }
}

impl RegistrationQuestion {
    /// A builder with nothing set.
    pub fn builder() -> (r: RegistrationQuestionBuilder)
        ensures
            r.event_id_value() is None,
            r.event_type_id_value() is None,
            r.question_id_value() is None,
            r.sequence_value() is None,
    {
        RegistrationQuestionBuilder::default()
    }

    /// A question link with the given fields, the others unset, a fresh identifier and empty audit metadata.
    pub fn new(question_id: u128, sequence: i32) -> (r: Self)
        ensures
            r.event_id is None,
            r.event_type_id is None,
            r.question_id == question_id,
            r.sequence == sequence,
            r.metadata == AuditMetadata::empty(),
    {
        RegistrationQuestion {
            id: fresh_uuid(),
            event_id: None,
            event_type_id: None,
            question_id,
            sequence,
            metadata: AuditMetadata::new(),
        }
    }

    /// The identifier.
    pub fn id(&self) -> (r: u128)
        ensures
            r == self.id,
    {
        self.id
    }

    /// The typed identifier.
    pub fn typed_id(&self) -> (r: RegistrationQuestionId)
        ensures
            r.0 == self.id,
    {
        RegistrationQuestionId(self.id)
    }

    /// When the link was created.
    pub fn created_at(&self) -> (r: Option<i64>)
        ensures
            r == self.metadata.created_at,
    {
        self.metadata.created_at
    }

    /// When the link was last updated.
    pub fn updated_at(&self) -> (r: Option<i64>)
        ensures
            r == self.metadata.updated_at,
    {
        self.metadata.updated_at
    }

    /// Whether the link is soft-deleted.
    pub fn is_deleted(&self) -> (r: bool)
        ensures
            r == self.metadata.deleted_at.is_some(),
    {
        self.metadata.deleted_at.is_some()
    }

    /// Whether the link is not soft-deleted.
    pub fn is_active(&self) -> (r: bool)
        ensures
            r == self.metadata.deleted_at.is_none(),
    {
        self.metadata.deleted_at.is_none()
    }

    /// When the link was deleted.
    pub fn deleted_at(&self) -> (r: Option<i64>)
        ensures
            r == self.metadata.deleted_at,
    {
        self.metadata.deleted_at
    }

    /// Who created the link.
    pub fn created_by(&self) -> (r: Option<u128>)
        ensures
            r == self.metadata.created_by,
    {
        self.metadata.created_by
    }

    /// Who last updated the link.
    pub fn updated_by(&self) -> (r: Option<u128>)
        ensures
            r == self.metadata.updated_by,
    {
        self.metadata.updated_by
    }

    /// Who deleted the link.
    pub fn deleted_by(&self) -> (r: Option<u128>)
        ensures
            r == self.metadata.deleted_by,
    {
        self.metadata.deleted_by
    }

    /// Sets `event_id` (chainable).
    pub fn with_event_id(self, value: u128) -> (r: Self)
        ensures
            r == (RegistrationQuestion { event_id: Some(value), ..self }),
    {
        RegistrationQuestion { event_id: Some(value), ..self }
    }

    /// Sets `event_type_id` (chainable).
    pub fn with_event_type_id(self, value: u128) -> (r: Self)
        ensures
            r == (RegistrationQuestion { event_type_id: Some(value), ..self }),
    {
        RegistrationQuestion { event_type_id: Some(value), ..self }
    }

    /// The entity's type name.
    pub fn entity_type() -> (r: &'static str)
        ensures
            r@ == "RegistrationQuestion"@,
    {
        "RegistrationQuestion"
    }

    /// Applies one field of a partial update.
    pub fn apply_field(&mut self, key: &str, value: &PatchValue)
        ensures
            *final(self) == registration_question_field(*old(self), key@, *value),
    {
        if same_text(key, "event_id") {
            match value_opt_uuid(value) {
                Some(y) => self.event_id = y,
                None => {},
            }
        } else if same_text(key, "event_type_id") {
            match value_opt_uuid(value) {
                Some(y) => self.event_type_id = y,
                None => {},
            }
        } else if same_text(key, "question_id") {
            match value_uuid(value) {
                Some(y) => self.question_id = y,
                None => {},
            }
        } else if same_text(key, "sequence") {
            match value_i32(value) {
                Some(y) => self.sequence = y,
                None => {},
            }
        }
    }

    /// Applies a partial update field by field, in order (unknown keys and
    /// values of the wrong shape are ignored).
    pub fn apply_patch(&mut self, fields: Vec<(String, PatchValue)>)
        ensures
            *final(self) == registration_question_patched(*old(self), fields@),
    {
        let mut i: usize = 0;
        while i < fields.len()
            invariant
                i <= fields.len(),
                *self == registration_question_patched(*old(self), fields@.take(i as int)),
            decreases fields.len() - i,
        {
            let (k, v) = &fields[i];
            self.apply_field(k.as_str(), v);
            proof {
                assert(fields@.take(i + 1).drop_last() =~= fields@.take(i as int));
                assert(fields@.take(i + 1).last() == fields@[i as int]);
            }
            i = i + 1;
        }
        assert(fields@.take(fields.len() as int) =~= fields@);
    }
}

/// The builder of a question link: `question_id` required; the sequence defaults to 1.
#[derive(Debug, Clone)]
pub struct RegistrationQuestionBuilder {
    event_id: Option<u128>,
    event_type_id: Option<u128>,
    question_id: Option<u128>,
    sequence: Option<i32>,
}

impl Default for RegistrationQuestionBuilder {
    fn default() -> (r: Self)
        ensures
            r.event_id_value() is None,
            r.event_type_id_value() is None,
            r.question_id_value() is None,
            r.sequence_value() is None,
    {
        RegistrationQuestionBuilder { event_id: None, event_type_id: None, question_id: None, sequence: None }
    }
}

impl RegistrationQuestionBuilder {
    /// The `event_id` set so far.
    pub closed spec fn event_id_value(self) -> Option<u128> {
        self.event_id
    }

    /// The `event_type_id` set so far.
    pub closed spec fn event_type_id_value(self) -> Option<u128> {
        self.event_type_id
    }

    /// The `question_id` set so far.
    pub closed spec fn question_id_value(self) -> Option<u128> {
        self.question_id
    }

    /// The `sequence` set so far.
    pub closed spec fn sequence_value(self) -> Option<i32> {
        self.sequence
    }

    /// Sets `event_id`.
    pub fn event_id(self, value: u128) -> (r: Self)
        ensures
            r.event_id_value() == Some(value),
            r.event_type_id_value() == self.event_type_id_value(),
            r.question_id_value() == self.question_id_value(),
            r.sequence_value() == self.sequence_value(),
    {
        RegistrationQuestionBuilder { event_id: Some(value), ..self }
    }

    /// Sets `event_type_id`.
    pub fn event_type_id(self, value: u128) -> (r: Self)
        ensures
            r.event_id_value() == self.event_id_value(),
            r.event_type_id_value() == Some(value),
            r.question_id_value() == self.question_id_value(),
            r.sequence_value() == self.sequence_value(),
    {
        RegistrationQuestionBuilder { event_type_id: Some(value), ..self }
    }

    /// Sets `question_id`.
    pub fn question_id(self, value: u128) -> (r: Self)
        ensures
            r.event_id_value() == self.event_id_value(),
            r.event_type_id_value() == self.event_type_id_value(),
            r.question_id_value() == Some(value),
            r.sequence_value() == self.sequence_value(),
    {
        RegistrationQuestionBuilder { question_id: Some(value), ..self }
    }

    /// Sets `sequence`.
    pub fn sequence(self, value: i32) -> (r: Self)
        ensures
            r.event_id_value() == self.event_id_value(),
            r.event_type_id_value() == self.event_type_id_value(),
            r.question_id_value() == self.question_id_value(),
            r.sequence_value() == Some(value),
    {
        RegistrationQuestionBuilder { sequence: Some(value), ..self }
    }

    /// Builds the link: refused with `<field> is required` for the first
    /// required field not set; otherwise the set values, the defaults, a
    /// fresh identifier and empty audit metadata.
    pub fn build(self) -> (r: Result<RegistrationQuestion, String>)
        ensures
            self.question_id_value() is None ==> r.is_err() && r->Err_0@ == "question_id is required"@,
            self.question_id_value() is Some ==> r.is_ok() && {
                let x = r->Ok_0;
                &&& x.event_id == self.event_id_value()
                &&& x.event_type_id == self.event_type_id_value()
                &&& x.question_id == self.question_id_value()->0
                &&& x.sequence == match self.sequence_value() { Some(y) => y, None => 1i32 }
                &&& x.metadata == AuditMetadata::empty()
            },
    {
        let question_id = match self.question_id {
            Some(y) => y,
            None => return Err(string_of(&chars_of("question_id is required"))),
        };
        Ok(RegistrationQuestion {
            id: fresh_uuid(),
            event_id: self.event_id,
            event_type_id: self.event_type_id,
            question_id,
            sequence: match self.sequence { Some(y) => y, None => 1i32 },
            metadata: AuditMetadata::new(),
        })
    }
}

} // verus!
