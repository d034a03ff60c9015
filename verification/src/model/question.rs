//! A registration question.

use vstd::prelude::*;
use crate::entity::{AuditMetadata, PatchValue, bool_of, text_of, value_bool, value_text};
use crate::ids::fresh_uuid;
use crate::text::{chars_of, string_of, same_text};
use crate::vocab::{EventQuestionKind};

verus! {

/// The typed identifier of a question.
#[derive(Debug, Clone, Copy, PartialEq, Eq, Structural)]
pub struct QuestionId(pub u128);

impl QuestionId {
    /// Wraps an identifier.
    pub fn new(id: u128) -> (r: Self)
        ensures
            r.0 == id,
    {
        QuestionId(id)
    }

    /// A fresh random identifier (nothing is claimed of its value).
    pub fn generate() -> (r: Self) {
        QuestionId(fresh_uuid())
    }

    /// The wrapped identifier.
    pub fn into_inner(self) -> (r: u128)
        ensures
            r == self.0,
    {
        self.0
    }
}

/// A registration question.
#[derive(Debug, Clone)]
pub struct Question {
    pub id: u128,
    pub question: String,
    pub question_kind: EventQuestionKind,
    pub is_default: bool,
    pub is_reusable: bool,
    pub once_per_order: bool,
    pub metadata: AuditMetadata,
}

/// One field of a partial update applied to a question: `question`, `question_kind`, `is_default`, `is_reusable`, `once_per_order` take a value of their own type; any other key, or a value of the wrong shape, changes nothing.
pub open spec fn question_field(x: Question, key: Seq<char>, v: PatchValue) -> Question {
    if key == "question"@ {
        match text_of(v) {
            Some(y) => Question { question: y, ..x },
            None => x,
        }
    } else if key == "question_kind"@ {
        match match v { PatchValue::Text(s) => EventQuestionKind::parse_name(s@), _ => None } {
            Some(y) => Question { question_kind: y, ..x },
            None => x,
        }
    } else if key == "is_default"@ {
        match bool_of(v) {
            Some(y) => Question { is_default: y, ..x },
            None => x,
        }
    } else if key == "is_reusable"@ {
        match bool_of(v) {
            Some(y) => Question { is_reusable: y, ..x },
            None => x,
        }
    } else if key == "once_per_order"@ {
        match bool_of(v) {
            Some(y) => Question { once_per_order: y, ..x },
            None => x,
        }
    } else {
        x
    }
}

/// A partial update applied field by field, in order.
pub open spec fn question_patched(x: Question, fields: Seq<(String, PatchValue)>) -> Question
    decreases fields.len(),
{
    if fields.len() == 0 {
        x
    } else {
        question_field(question_patched(x, fields.drop_last()), fields.last().0@, fields.last().1)
    }
}

/// A partial update never touches the identifier or the audit metadata.
pub proof fn lemma_patch_keeps_identity(x: Question, fields: Seq<(String, PatchValue)>)
    ensures
        question_patched(x, fields).id == x.id,
        question_patched(x, fields).metadata == x.metadata,
    decreases fields.len(),
{
    if fields.len() > 0 {
        lemma_patch_keeps_identity(x, fields.drop_last());
    }
}

impl Question {
    /// A builder with nothing set.
    pub fn builder() -> (r: QuestionBuilder)
        ensures
            r.question_value() is None,
            r.question_kind_value() is None,
            r.is_default_value() is None,
            r.is_reusable_value() is None,
            r.once_per_order_value() is None,
    {
        QuestionBuilder::default()
    }

    /// A question with the given fields, the others unset, a fresh identifier and empty audit metadata.
    pub fn new(question: String, question_kind: EventQuestionKind, is_default: bool, is_reusable: bool, once_per_order: bool) -> (r: Self)
        ensures
            r.question == question,
            r.question_kind == question_kind,
            r.is_default == is_default,
            r.is_reusable == is_reusable,
            r.once_per_order == once_per_order,
            r.metadata == AuditMetadata::empty(),
    {
        Question {
            id: fresh_uuid(),
            question,
            question_kind,
            is_default,
            is_reusable,
            once_per_order,
            metadata: AuditMetadata::new(),
        }
    }

    /// The identifier.
    pub fn id(&self) -> (r: u128)
        ensures
            r == self.id,
    {
        self.id
    }

    /// The typed identifier.
    pub fn typed_id(&self) -> (r: QuestionId)
        ensures
            r.0 == self.id,
    {
        QuestionId(self.id)
    }

    /// When the question was created.
    pub fn created_at(&self) -> (r: Option<i64>)
        ensures
            r == self.metadata.created_at,
    {
        self.metadata.created_at
    }

    /// When the question was last updated.
    pub fn updated_at(&self) -> (r: Option<i64>)
        ensures
            r == self.metadata.updated_at,
    {
        self.metadata.updated_at
    }

    /// Whether the question is soft-deleted.
    pub fn is_deleted(&self) -> (r: bool)
        ensures
            r == self.metadata.deleted_at.is_some(),
    {
        self.metadata.deleted_at.is_some()
    }

    /// Whether the question is not soft-deleted.
    pub fn is_active(&self) -> (r: bool)
        ensures
            r == self.metadata.deleted_at.is_none(),
    {
        self.metadata.deleted_at.is_none()
    }

    /// When the question was deleted.
    pub fn deleted_at(&self) -> (r: Option<i64>)
        ensures
            r == self.metadata.deleted_at,
    {
        self.metadata.deleted_at
    }

    /// Who created the question.
    pub fn created_by(&self) -> (r: Option<u128>)
        ensures
            r == self.metadata.created_by,
    {
        self.metadata.created_by
    }

    /// Who last updated the question.
    pub fn updated_by(&self) -> (r: Option<u128>)
        ensures
            r == self.metadata.updated_by,
    {
        self.metadata.updated_by
    }

    /// Who deleted the question.
    pub fn deleted_by(&self) -> (r: Option<u128>)
        ensures
            r == self.metadata.deleted_by,
    {
        self.metadata.deleted_by
    }

    /// The entity's type name.
    pub fn entity_type() -> (r: &'static str)
        ensures
            r@ == "Question"@,
    {
        "Question"
    }

    /// Applies one field of a partial update.
    pub fn apply_field(&mut self, key: &str, value: &PatchValue)
        ensures
            *final(self) == question_field(*old(self), key@, *value),
    {
        if same_text(key, "question") {
            match value_text(value) {
                Some(y) => self.question = y,
                None => {},
            }
        } else if same_text(key, "question_kind") {
            match match value { PatchValue::Text(s) => EventQuestionKind::from_name(s.as_str()), _ => None } {
                Some(y) => self.question_kind = y,
                None => {},
            }
        } else if same_text(key, "is_default") {
            match value_bool(value) {
                Some(y) => self.is_default = y,
                None => {},
            }
        } else if same_text(key, "is_reusable") {
            match value_bool(value) {
                Some(y) => self.is_reusable = y,
                None => {},
            }
        } else if same_text(key, "once_per_order") {
            match value_bool(value) {
                Some(y) => self.once_per_order = y,
                None => {},
            }
        }
    }

    /// Applies a partial update field by field, in order (unknown keys and
    /// values of the wrong shape are ignored).
    pub fn apply_patch(&mut self, fields: Vec<(String, PatchValue)>)
        ensures
            *final(self) == question_patched(*old(self), fields@),
    {
        let mut i: usize = 0;
        while i < fields.len()
            invariant
                i <= fields.len(),
                *self == question_patched(*old(self), fields@.take(i as int)),
            decreases fields.len() - i,
        {
            let (k, v) = &fields[i];
            self.apply_field(k.as_str(), v);
            proof {
                assert(fields@.take(i + 1).drop_last() =~= fields@.take(i as int));
                assert(fields@.take(i + 1).last() == fields@[i as int]);
            }
            i = i + 1;
        }
        assert(fields@.take(fields.len() as int) =~= fields@);
    }
}

/// The builder of a question: `question` required; the kind defaults to a text box, the flags to false.
#[derive(Debug, Clone)]
pub struct QuestionBuilder {
    question: Option<String>,
    question_kind: Option<EventQuestionKind>,
    is_default: Option<bool>,
    is_reusable: Option<bool>,
    once_per_order: Option<bool>,
}

impl Default for QuestionBuilder {
    fn default() -> (r: Self)
        ensures
            r.question_value() is None,
            r.question_kind_value() is None,
            r.is_default_value() is None,
            r.is_reusable_value() is None,
            r.once_per_order_value() is None,
    {
        QuestionBuilder { question: None, question_kind: None, is_default: None, is_reusable: None, once_per_order: None }
    }
}

impl QuestionBuilder {
    /// The `question` set so far.
    pub closed spec fn question_value(self) -> Option<String> {
        self.question
    }

    /// The `question_kind` set so far.
    pub closed spec fn question_kind_value(self) -> Option<EventQuestionKind> {
        self.question_kind
    }

    /// The `is_default` set so far.
    pub closed spec fn is_default_value(self) -> Option<bool> {
        self.is_default
    }

    /// The `is_reusable` set so far.
    pub closed spec fn is_reusable_value(self) -> Option<bool> {
        self.is_reusable
    }

    /// The `once_per_order` set so far.
    pub closed spec fn once_per_order_value(self) -> Option<bool> {
        self.once_per_order
    }

    /// Sets `question`.
    pub fn question(self, value: String) -> (r: Self)
        ensures
            r.question_value() == Some(value),
            r.question_kind_value() == self.question_kind_value(),
            r.is_default_value() == self.is_default_value(),
            r.is_reusable_value() == self.is_reusable_value(),
            r.once_per_order_value() == self.once_per_order_value(),
    {
        QuestionBuilder { question: Some(value), ..self }
    }

    /// Sets `question_kind`.
    pub fn question_kind(self, value: EventQuestionKind) -> (r: Self)
        ensures
            r.question_value() == self.question_value(),
            r.question_kind_value() == Some(value),
            r.is_default_value() == self.is_default_value(),
            r.is_reusable_value() == self.is_reusable_value(),
            r.once_per_order_value() == self.once_per_order_value(),
    {
        QuestionBuilder { question_kind: Some(value), ..self }
    }

    /// Sets `is_default`.
    pub fn is_default(self, value: bool) -> (r: Self)
        ensures
            r.question_value() == self.question_value(),
            r.question_kind_value() == self.question_kind_value(),
            r.is_default_value() == Some(value),
            r.is_reusable_value() == self.is_reusable_value(),
            r.once_per_order_value() == self.once_per_order_value(),
    {
        QuestionBuilder { is_default: Some(value), ..self }
    }

    /// Sets `is_reusable`.
    pub fn is_reusable(self, value: bool) -> (r: Self)
        ensures
            r.question_value() == self.question_value(),
            r.question_kind_value() == self.question_kind_value(),
            r.is_default_value() == self.is_default_value(),
            r.is_reusable_value() == Some(value),
            r.once_per_order_value() == self.once_per_order_value(),
    {
        QuestionBuilder { is_reusable: Some(value), ..self }
    }

    /// Sets `once_per_order`.
    pub fn once_per_order(self, value: bool) -> (r: Self)
        ensures
            r.question_value() == self.question_value(),
            r.question_kind_value() == self.question_kind_value(),
            r.is_default_value() == self.is_default_value(),
            r.is_reusable_value() == self.is_reusable_value(),
            r.once_per_order_value() == Some(value),
    {
        QuestionBuilder { once_per_order: Some(value), ..self }
    }

    /// Builds the question: refused with `<field> is required` for the first
    /// required field not set; otherwise the set values, the defaults, a
    /// fresh identifier and empty audit metadata.
    pub fn build(self) -> (r: Result<Question, String>)
        ensures
            self.question_value() is None ==> r.is_err() && r->Err_0@ == "question is required"@,
            self.question_value() is Some ==> r.is_ok() && {
                let x = r->Ok_0;
                &&& x.question == self.question_value()->0
                &&& x.question_kind == match self.question_kind_value() { Some(y) => y, None => EventQuestionKind::TextBox }
                &&& x.is_default == match self.is_default_value() { Some(y) => y, None => false }
                &&& x.is_reusable == match self.is_reusable_value() { Some(y) => y, None => false }
                &&& x.once_per_order == match self.once_per_order_value() { Some(y) => y, None => false }
                &&& x.metadata == AuditMetadata::empty()
            },
    {
        let question = match self.question {
            Some(y) => y,
            None => return Err(string_of(&chars_of("question is required"))),
        };
        Ok(Question {
            id: fresh_uuid(),
            question,
            question_kind: match self.question_kind { Some(y) => y, None => EventQuestionKind::TextBox },
            is_default: match self.is_default { Some(y) => y, None => false },
            is_reusable: match self.is_reusable { Some(y) => y, None => false },
            once_per_order: match self.once_per_order { Some(y) => y, None => false },
            metadata: AuditMetadata::new(),
        })
    }
}

} // verus!
