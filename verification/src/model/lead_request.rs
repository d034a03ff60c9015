//! The lead generation queue row of an event.

use vstd::prelude::*;
use crate::entity::{AuditMetadata, PatchValue, bool_of, opt_instant_of, opt_text_of, uuid_of, value_bool, value_opt_instant, value_opt_text, value_uuid};
use crate::ids::fresh_uuid;
use crate::text::{chars_of, string_of, same_text};

verus! {

/// The typed identifier of a lead request.
#[derive(Debug, Clone, Copy, PartialEq, Eq, Structural)]
pub struct LeadRequestId(pub u128);

impl LeadRequestId {
    /// Wraps an identifier.
    pub fn new(id: u128) -> (r: Self)
        ensures
            r.0 == id,
    {
        LeadRequestId(id)
    }

    /// A fresh random identifier (nothing is claimed of its value).
    pub fn generate() -> (r: Self) {
        LeadRequestId(fresh_uuid())
    }

    /// The wrapped identifier.
    pub fn into_inner(self) -> (r: u128)
        ensures
            r == self.0,
    {
        self.0
    }
}

/// The lead generation queue row of an event.
#[derive(Debug, Clone)]
pub struct LeadRequest {
    pub id: u128,
    pub event_id: u128,
    pub done: bool,
    pub error_detail: Option<String>,
    pub claimed_at: Option<i64>,
    pub metadata: AuditMetadata,
}

/// One field of a partial update applied to a lead request: `event_id`, `done`, `error_detail`, `claimed_at` take a value of their own type; any other key, or a value of the wrong shape, changes nothing.
pub open spec fn lead_request_field(x: LeadRequest, key: Seq<char>, v: PatchValue) -> LeadRequest {
    if key == "event_id"@ {
        match uuid_of(v) {
            Some(y) => LeadRequest { event_id: y, ..x },
            None => x,
        }
    } else if key == "done"@ {
        match bool_of(v) {
            Some(y) => LeadRequest { done: y, ..x },
            None => x,
        }
    } else if key == "error_detail"@ {
        match opt_text_of(v) {
            Some(y) => LeadRequest { error_detail: y, ..x },
            None => x,
        }
    } else if key == "claimed_at"@ {
        match opt_instant_of(v) {
            Some(y) => LeadRequest { claimed_at: y, ..x },
            None => x,
        }
    } else {
        x
    }
}

/// A partial update applied field by field, in order.
pub open spec fn lead_request_patched(x: LeadRequest, fields: Seq<(String, PatchValue)>) -> LeadRequest
    decreases fields.len(),
{
    if fields.len() == 0 {
        x
    } else {
        lead_request_field(lead_request_patched(x, fields.drop_last()), fields.last().0@, fields.last().1)
    }
}

/// A partial update never touches the identifier or the audit metadata.
pub proof fn lemma_patch_keeps_identity(x: LeadRequest, fields: Seq<(String, PatchValue)>)
    ensures
        lead_request_patched(x, fields).id == x.id,
        lead_request_patched(x, fields).metadata == x.metadata,
    decreases fields.len(),
{
    if fields.len() > 0 {
        lemma_patch_keeps_identity(x, fields.drop_last());
    }
}

impl LeadRequest {
    /// A builder with nothing set.
    pub fn builder() -> (r: LeadRequestBuilder)
        ensures
            r.event_id_value() is None,
            r.done_value() is None,
            r.error_detail_value() is None,
            r.claimed_at_value() is None,
    {
        LeadRequestBuilder::default()
    }

    /// A lead request with the given fields, the others unset, a fresh identifier and empty audit metadata.
    pub fn new(event_id: u128, done: bool) -> (r: Self)
        ensures
            r.event_id == event_id,
            r.done == done,
            r.error_detail is None,
            r.claimed_at is None,
            r.metadata == AuditMetadata::empty(),
    {
        LeadRequest {
            id: fresh_uuid(),
            event_id,
            done,
            error_detail: None,
            claimed_at: None,
            metadata: AuditMetadata::new(),
        }
    }

    /// The identifier.
    pub fn id(&self) -> (r: u128)
        ensures
            r == self.id,
    {
        self.id
    }

    /// The typed identifier.
    pub fn typed_id(&self) -> (r: LeadRequestId)
        ensures
            r.0 == self.id,
    {
        LeadRequestId(self.id)
    }

    /// When the request was created.
    pub fn created_at(&self) -> (r: Option<i64>)
        ensures
            r == self.metadata.created_at,
    {
        self.metadata.created_at
    }

    /// When the request was last updated.
    pub fn updated_at(&self) -> (r: Option<i64>)
        ensures
            r == self.metadata.updated_at,
    {
        self.metadata.updated_at
    }

    /// Whether the request is soft-deleted.
    pub fn is_deleted(&self) -> (r: bool)
        ensures
            r == self.metadata.deleted_at.is_some(),
    {
        self.metadata.deleted_at.is_some()
    }

    /// Whether the request is not soft-deleted.
    pub fn is_active(&self) -> (r: bool)
        ensures
            r == self.metadata.deleted_at.is_none(),
    {
        self.metadata.deleted_at.is_none()
    }

    /// When the request was deleted.
    pub fn deleted_at(&self) -> (r: Option<i64>)
        ensures
            r == self.metadata.deleted_at,
    {
        self.metadata.deleted_at
    }

    /// Who created the request.
    pub fn created_by(&self) -> (r: Option<u128>)
        ensures
            r == self.metadata.created_by,
    {
        self.metadata.created_by
    }

    /// Who last updated the request.
    pub fn updated_by(&self) -> (r: Option<u128>)
        ensures
            r == self.metadata.updated_by,
    {
        self.metadata.updated_by
    }

    /// Who deleted the request.
    pub fn deleted_by(&self) -> (r: Option<u128>)
        ensures
            r == self.metadata.deleted_by,
    {
        self.metadata.deleted_by
    }

    /// Sets `error_detail` (chainable).
    pub fn with_error_detail(self, value: String) -> (r: Self)
        ensures
            r == (LeadRequest { error_detail: Some(value), ..self }),
    {
        LeadRequest { error_detail: Some(value), ..self }
    }

    /// Sets `claimed_at` (chainable).
    pub fn with_claimed_at(self, value: i64) -> (r: Self)
        ensures
            r == (LeadRequest { claimed_at: Some(value), ..self }),
    {
        LeadRequest { claimed_at: Some(value), ..self }
    }

    /// The entity's type name.
    pub fn entity_type() -> (r: &'static str)
        ensures
            r@ == "LeadRequest"@,
    {
        "LeadRequest"
    }

    /// Applies one field of a partial update.
    pub fn apply_field(&mut self, key: &str, value: &PatchValue)
        ensures
            *final(self) == lead_request_field(*old(self), key@, *value),
    {
        if same_text(key, "event_id") {
            match value_uuid(value) {
                Some(y) => self.event_id = y,
                None => {},
            }
        } else if same_text(key, "done") {
            match value_bool(value) {
                Some(y) => self.done = y,
                None => {},
            }
        } else if same_text(key, "error_detail") {
            match value_opt_text(value) {
                Some(y) => self.error_detail = y,
                None => {},
            }
        } else if same_text(key, "claimed_at") {
            match value_opt_instant(value) {
                Some(y) => self.claimed_at = y,
                None => {},
            }
        }
    }

    /// Applies a partial update field by field, in order (unknown keys and
    /// values of the wrong shape are ignored).
    pub fn apply_patch(&mut self, fields: Vec<(String, PatchValue)>)
        ensures
            *final(self) == lead_request_patched(*old(self), fields@),
    {
        let mut i: usize = 0;
        while i < fields.len()
            invariant
                i <= fields.len(),
                *self == lead_request_patched(*old(self), fields@.take(i as int)),
            decreases fields.len() - i,
        {
            let (k, v) = &fields[i];
            self.apply_field(k.as_str(), v);
            proof {
                assert(fields@.take(i + 1).drop_last() =~= fields@.take(i as int));
                assert(fields@.take(i + 1).last() == fields@[i as int]);
            }
            i = i + 1;
        }
        assert(fields@.take(fields.len() as int) =~= fields@);
    }
}

/// The builder of a lead request: `event_id` required; `done` defaults to false.
#[derive(Debug, Clone)]
pub struct LeadRequestBuilder {
    event_id: Option<u128>,
    done: Option<bool>,
    error_detail: Option<String>,
    claimed_at: Option<i64>,
}

impl Default for LeadRequestBuilder {
    fn default() -> (r: Self)
        ensures
            r.event_id_value() is None,
            r.done_value() is None,
            r.error_detail_value() is None,
            r.claimed_at_value() is None,
    {
        LeadRequestBuilder { event_id: None, done: None, error_detail: None, claimed_at: None }
    }
}

impl LeadRequestBuilder {
    /// The `event_id` set so far.
    pub closed spec fn event_id_value(self) -> Option<u128> {
        self.event_id
    }

    /// The `done` set so far.
    pub closed spec fn done_value(self) -> Option<bool> {
        self.done
    }

    /// The `error_detail` set so far.
    pub closed spec fn error_detail_value(self) -> Option<String> {
        self.error_detail
    }

    /// The `claimed_at` set so far.
    pub closed spec fn claimed_at_value(self) -> Option<i64> {
        self.claimed_at
    }

    /// Sets `event_id`.
    pub fn event_id(self, value: u128) -> (r: Self)
        ensures
            r.event_id_value() == Some(value),
            r.done_value() == self.done_value(),
            r.error_detail_value() == self.error_detail_value(),
            r.claimed_at_value() == self.claimed_at_value(),
    {
        LeadRequestBuilder { event_id: Some(value), ..self }
    }

    /// Sets `done`.
    pub fn done(self, value: bool) -> (r: Self)
        ensures
            r.event_id_value() == self.event_id_value(),
            r.done_value() == Some(value),
            r.error_detail_value() == self.error_detail_value(),
            r.claimed_at_value() == self.claimed_at_value(),
    {
        LeadRequestBuilder { done: Some(value), ..self }
    }

    /// Sets `error_detail`.
    pub fn error_detail(self, value: String) -> (r: Self)
        ensures
            r.event_id_value() == self.event_id_value(),
            r.done_value() == self.done_value(),
            r.error_detail_value() == Some(value),
            r.claimed_at_value() == self.claimed_at_value(),
    {
        LeadRequestBuilder { error_detail: Some(value), ..self }
    }

    /// Sets `claimed_at`.
    pub fn claimed_at(self, value: i64) -> (r: Self)
        ensures
            r.event_id_value() == self.event_id_value(),
            r.done_value() == self.done_value(),
            r.error_detail_value() == self.error_detail_value(),
            r.claimed_at_value() == Some(value),
    {
        LeadRequestBuilder { claimed_at: Some(value), ..self }
    }

    /// Builds the request: refused with `<field> is required` for the first
    /// required field not set; otherwise the set values, the defaults, a
    /// fresh identifier and empty audit metadata.
    pub fn build(self) -> (r: Result<LeadRequest, String>)
        ensures
            self.event_id_value() is None ==> r.is_err() && r->Err_0@ == "event_id is required"@,
            self.event_id_value() is Some ==> r.is_ok() && {
                let x = r->Ok_0;
                &&& x.event_id == self.event_id_value()->0
                &&& x.done == match self.done_value() { Some(y) => y, None => false }
                &&& x.error_detail == self.error_detail_value()
                &&& x.claimed_at == self.claimed_at_value()
                &&& x.metadata == AuditMetadata::empty()
            },
    {
        let event_id = match self.event_id {
            Some(y) => y,
            None => return Err(string_of(&chars_of("event_id is required"))),
        };
        Ok(LeadRequest {
            id: fresh_uuid(),
            event_id,
            done: match self.done { Some(y) => y, None => false },
            error_detail: self.error_detail,
            claimed_at: self.claimed_at,
            metadata: AuditMetadata::new(),
        })
    }
}

} // verus!
