//! The kanban stage of an event.

use vstd::prelude::*;
use crate::entity::{AuditMetadata, PatchValue, bool_of, i32_of, text_of, value_bool, value_i32, value_text};
use crate::ids::fresh_uuid;
use crate::text::{chars_of, string_of, same_text};

verus! {

/// The typed identifier of a stage.
#[derive(Debug, Clone, Copy, PartialEq, Eq, Structural)]
pub struct StageId(pub u128);

impl StageId {
    /// Wraps an identifier.
    pub fn new(id: u128) -> (r: Self)
        ensures
            r.0 == id,
    {
        StageId(id)
    }

    /// A fresh random identifier (nothing is claimed of its value).
    pub fn generate() -> (r: Self) {
        StageId(fresh_uuid())
    }

    /// The wrapped identifier.
    pub fn into_inner(self) -> (r: u128)
        ensures
            r == self.0,
    {
        self.0
    }
}

/// A kanban stage.
#[derive(Debug, Clone)]
pub struct Stage {
    pub id: u128,
    pub name: String,
    pub sequence: i32,
    pub fold: bool,
    pub pipe_end: bool,
    pub metadata: AuditMetadata,
}

/// One field of a partial update applied to a stage: `name`, `sequence`, `fold`, `pipe_end` take a value of their own type; any other key, or a value of the wrong shape, changes nothing.
pub open spec fn stage_field(x: Stage, key: Seq<char>, v: PatchValue) -> Stage {
    if key == "name"@ {
        match text_of(v) {
            Some(y) => Stage { name: y, ..x },
            None => x,
        }
    } else if key == "sequence"@ {
        match i32_of(v) {
            Some(y) => Stage { sequence: y, ..x },
            None => x,
        }
    } else if key == "fold"@ {
        match bool_of(v) {
            Some(y) => Stage { fold: y, ..x },
            None => x,
        }
    } else if key == "pipe_end"@ {
        match bool_of(v) {
            Some(y) => Stage { pipe_end: y, ..x },
            None => x,
        }
    } else {
        x
    }
}

/// A partial update applied field by field, in order.
pub open spec fn stage_patched(x: Stage, fields: Seq<(String, PatchValue)>) -> Stage
    decreases fields.len(),
{
    if fields.len() == 0 {
        x
    } else {
        stage_field(stage_patched(x, fields.drop_last()), fields.last().0@, fields.last().1)
    }
}

/// A partial update never touches the identifier or the audit metadata.
pub proof fn lemma_patch_keeps_identity(x: Stage, fields: Seq<(String, PatchValue)>)
    ensures
        stage_patched(x, fields).id == x.id,
        stage_patched(x, fields).metadata == x.metadata,
    decreases fields.len(),
{
    if fields.len() > 0 {
        lemma_patch_keeps_identity(x, fields.drop_last());
    }
}

impl Stage {
    /// A builder with nothing set.
    pub fn builder() -> (r: StageBuilder)
        ensures
            r.name_value() is None,
            r.sequence_value() is None,
            r.fold_value() is None,
            r.pipe_end_value() is None,
    {
        StageBuilder::default()
    }

    /// A stage with the given fields, the others unset, a fresh identifier and empty audit metadata.
    pub fn new(name: String, sequence: i32, fold: bool, pipe_end: bool) -> (r: Self)
        ensures
            r.name == name,
            r.sequence == sequence,
            r.fold == fold,
            r.pipe_end == pipe_end,
            r.metadata == AuditMetadata::empty(),
    {
        Stage {
            id: fresh_uuid(),
            name,
            sequence,
            fold,
            pipe_end,
            metadata: AuditMetadata::new(),
        }
    }

    /// The identifier.
    pub fn id(&self) -> (r: u128)
        ensures
            r == self.id,
    {
        self.id
    }

    /// The typed identifier.
    pub fn typed_id(&self) -> (r: StageId)
        ensures
            r.0 == self.id,
    {
        StageId(self.id)
    }

    /// When the stage was created.
    pub fn created_at(&self) -> (r: Option<i64>)
        ensures
            r == self.metadata.created_at,
    {
        self.metadata.created_at
    }

    /// When the stage was last updated.
    pub fn updated_at(&self) -> (r: Option<i64>)
        ensures
            r == self.metadata.updated_at,
    {
        self.metadata.updated_at
    }

    /// Whether the stage is soft-deleted.
    pub fn is_deleted(&self) -> (r: bool)
        ensures
            r == self.metadata.deleted_at.is_some(),
    {
        self.metadata.deleted_at.is_some()
    }

    /// Whether the stage is not soft-deleted.
    pub fn is_active(&self) -> (r: bool)
        ensures
            r == self.metadata.deleted_at.is_none(),
    {
        self.metadata.deleted_at.is_none()
    }

    /// When the stage was deleted.
    pub fn deleted_at(&self) -> (r: Option<i64>)
        ensures
            r == self.metadata.deleted_at,
    {
        self.metadata.deleted_at
    }

    /// Who created the stage.
    pub fn created_by(&self) -> (r: Option<u128>)
        ensures
            r == self.metadata.created_by,
    {
        self.metadata.created_by
    }

    /// Who last updated the stage.
    pub fn updated_by(&self) -> (r: Option<u128>)
        ensures
            r == self.metadata.updated_by,
    {
        self.metadata.updated_by
    }

    /// Who deleted the stage.
    pub fn deleted_by(&self) -> (r: Option<u128>)
        ensures
            r == self.metadata.deleted_by,
    {
        self.metadata.deleted_by
    }

    /// The entity's type name.
    pub fn entity_type() -> (r: &'static str)
        ensures
            r@ == "Stage"@,
    {
        "Stage"
    }

    /// Applies one field of a partial update.
    pub fn apply_field(&mut self, key: &str, value: &PatchValue)
        ensures
            *final(self) == stage_field(*old(self), key@, *value),
    {
        if same_text(key, "name") {
            match value_text(value) {
                Some(y) => self.name = y,
                None => {},
            }
        } else if same_text(key, "sequence") {
            match value_i32(value) {
                Some(y) => self.sequence = y,
                None => {},
            }
        } else if same_text(key, "fold") {
            match value_bool(value) {
                Some(y) => self.fold = y,
                None => {},
            }
        } else if same_text(key, "pipe_end") {
            match value_bool(value) {
                Some(y) => self.pipe_end = y,
                None => {},
            }
        }
    }

    /// Applies a partial update field by field, in order (unknown keys and
    /// values of the wrong shape are ignored).
    pub fn apply_patch(&mut self, fields: Vec<(String, PatchValue)>)
        ensures
            *final(self) == stage_patched(*old(self), fields@),
    {
        let mut i: usize = 0;
        while i < fields.len()
            invariant
                i <= fields.len(),
                *self == stage_patched(*old(self), fields@.take(i as int)),
            decreases fields.len() - i,
        {
            let (k, v) = &fields[i];
            self.apply_field(k.as_str(), v);
            proof {
                assert(fields@.take(i + 1).drop_last() =~= fields@.take(i as int));
                assert(fields@.take(i + 1).last() == fields@[i as int]);
            }
            i = i + 1;
        }
        assert(fields@.take(fields.len() as int) =~= fields@);
    }
}

/// The builder of a stage: `name` required; `sequence` defaults to 1, `fold` and `pipe_end` to false.
#[derive(Debug, Clone)]
pub struct StageBuilder {
    name: Option<String>,
    sequence: Option<i32>,
    fold: Option<bool>,
    pipe_end: Option<bool>,
}

impl Default for StageBuilder {
    fn default() -> (r: Self)
        ensures
            r.name_value() is None,
            r.sequence_value() is None,
            r.fold_value() is None,
            r.pipe_end_value() is None,
    {
        StageBuilder { name: None, sequence: None, fold: None, pipe_end: None }
    }
}

impl StageBuilder {
    /// The `name` set so far.
    pub closed spec fn name_value(self) -> Option<String> {
        self.name
    }

    /// The `sequence` set so far.
    pub closed spec fn sequence_value(self) -> Option<i32> {
        self.sequence
    }

    /// The `fold` set so far.
    pub closed spec fn fold_value(self) -> Option<bool> {
        self.fold
    }

    /// The `pipe_end` set so far.
    pub closed spec fn pipe_end_value(self) -> Option<bool> {
        self.pipe_end
    }

    /// Sets `name`.
    pub fn name(self, value: String) -> (r: Self)
        ensures
            r.name_value() == Some(value),
            r.sequence_value() == self.sequence_value(),
            r.fold_value() == self.fold_value(),
            r.pipe_end_value() == self.pipe_end_value(),
    {
        StageBuilder { name: Some(value), ..self }
    }

    /// Sets `sequence`.
    pub fn sequence(self, value: i32) -> (r: Self)
        ensures
            r.name_value() == self.name_value(),
            r.sequence_value() == Some(value),
            r.fold_value() == self.fold_value(),
            r.pipe_end_value() == self.pipe_end_value(),
    {
        StageBuilder { sequence: Some(value), ..self }
    }

    /// Sets `fold`.
    pub fn fold(self, value: bool) -> (r: Self)
        ensures
            r.name_value() == self.name_value(),
            r.sequence_value() == self.sequence_value(),
            r.fold_value() == Some(value),
            r.pipe_end_value() == self.pipe_end_value(),
    {
        StageBuilder { fold: Some(value), ..self }
    }

    /// Sets `pipe_end`.
    pub fn pipe_end(self, value: bool) -> (r: Self)
        ensures
            r.name_value() == self.name_value(),
            r.sequence_value() == self.sequence_value(),
            r.fold_value() == self.fold_value(),
            r.pipe_end_value() == Some(value),
    {
        StageBuilder { pipe_end: Some(value), ..self }
    }

    /// Builds the stage: refused with `<field> is required` for the first
    /// required field not set; otherwise the set values, the defaults, a
    /// fresh identifier and empty audit metadata.
    pub fn build(self) -> (r: Result<Stage, String>)
        ensures
            self.name_value() is None ==> r.is_err() && r->Err_0@ == "name is required"@,
            self.name_value() is Some ==> r.is_ok() && {
                let x = r->Ok_0;
                &&& x.name == self.name_value()->0
                &&& x.sequence == match self.sequence_value() { Some(y) => y, None => 1i32 }
                &&& x.fold == match self.fold_value() { Some(y) => y, None => false }
                &&& x.pipe_end == match self.pipe_end_value() { Some(y) => y, None => false }
                &&& x.metadata == AuditMetadata::empty()
            },
    {
        let name = match self.name {
            Some(y) => y,
            None => return Err(string_of(&chars_of("name is required"))),
        };
        Ok(Stage {
            id: fresh_uuid(),
            name,
            sequence: match self.sequence { Some(y) => y, None => 1i32 },
            fold: match self.fold { Some(y) => y, None => false },
            pipe_end: match self.pipe_end { Some(y) => y, None => false },
            metadata: AuditMetadata::new(),
        })
    }
}

} // verus!
