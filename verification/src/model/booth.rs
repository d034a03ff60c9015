//! A booth of an event.

use vstd::prelude::*;
use crate::entity::{AuditMetadata, PatchValue, bool_of, opt_text_of, opt_uuid_of, text_of, uuid_of, value_bool, value_opt_text, value_opt_uuid, value_text, value_uuid};
use crate::ids::fresh_uuid;
use crate::text::{chars_of, string_of, same_text};
use crate::vocab::{EventBoothState};

verus! {

/// The typed identifier of a booth.
#[derive(Debug, Clone, Copy, PartialEq, Eq, Structural)]
pub struct BoothId(pub u128);

impl BoothId {
    /// Wraps an identifier.
    pub fn new(id: u128) -> (r: Self)
        ensures
            r.0 == id,
    {
        BoothId(id)
    }

    /// A fresh random identifier (nothing is claimed of its value).
    pub fn generate() -> (r: Self) {
        BoothId(fresh_uuid())
    }

    /// The wrapped identifier.
    pub fn into_inner(self) -> (r: u128)
        ensures
            r == self.0,
    {
        self.0
    }
}

/// A booth of an event.
#[derive(Debug, Clone)]
pub struct Booth {
    pub id: u128,
    pub event_id: u128,
    pub booth_category_id: u128,
    pub name: String,
    pub state: EventBoothState,
    pub partner_id: Option<u128>,
    pub contact_name: Option<String>,
    pub contact_email: Option<String>,
    pub contact_phone: Option<String>,
    pub sale_order_line_id: Option<u128>,
    pub is_paid: bool,
    pub metadata: AuditMetadata,
}

/// One field of a partial update applied to a booth: `event_id`, `booth_category_id`, `name`, `partner_id`, `contact_name`, `contact_email`, `contact_phone`, `sale_order_line_id`, `is_paid` take a value of their own type; any other key, or a value of the wrong shape, changes nothing.
pub open spec fn booth_field(x: Booth, key: Seq<char>, v: PatchValue) -> Booth {
    if key == "event_id"@ {
        match uuid_of(v) {
            Some(y) => Booth { event_id: y, ..x },
            None => x,
        }
    } else if key == "booth_category_id"@ {
        match uuid_of(v) {
            Some(y) => Booth { booth_category_id: y, ..x },
            None => x,
        }
    } else if key == "name"@ {
        match text_of(v) {
            Some(y) => Booth { name: y, ..x },
            None => x,
        }
    } else if key == "partner_id"@ {
        match opt_uuid_of(v) {
            Some(y) => Booth { partner_id: y, ..x },
            None => x,
        }
    } else if key == "contact_name"@ {
        match opt_text_of(v) {
            Some(y) => Booth { contact_name: y, ..x },
            None => x,
        }
    } else if key == "contact_email"@ {
        match opt_text_of(v) {
            Some(y) => Booth { contact_email: y, ..x },
            None => x,
        }
    } else if key == "contact_phone"@ {
        match opt_text_of(v) {
            Some(y) => Booth { contact_phone: y, ..x },
            None => x,
        }
    } else if key == "sale_order_line_id"@ {
        match opt_uuid_of(v) {
            Some(y) => Booth { sale_order_line_id: y, ..x },
            None => x,
        }
    } else if key == "is_paid"@ {
        match bool_of(v) {
            Some(y) => Booth { is_paid: y, ..x },
            None => x,
        }
    } else {
        x
    }
}

/// A partial update applied field by field, in order.
pub open spec fn booth_patched(x: Booth, fields: Seq<(String, PatchValue)>) -> Booth
    decreases fields.len(),
{
    if fields.len() == 0 {
        x
    } else {
        booth_field(booth_patched(x, fields.drop_last()), fields.last().0@, fields.last().1)
    }
}

/// A partial update never touches the identifier or the audit metadata (nor `state`, which no partial update names).
pub proof fn lemma_patch_keeps_identity(x: Booth, fields: Seq<(String, PatchValue)>)
    ensures
        booth_patched(x, fields).id == x.id,
        booth_patched(x, fields).metadata == x.metadata,
        booth_patched(x, fields).state == x.state,
    decreases fields.len(),
{
    if fields.len() > 0 {
        lemma_patch_keeps_identity(x, fields.drop_last());
    }
}

impl Booth {
    /// A builder with nothing set.
    pub fn builder() -> (r: BoothBuilder)
        ensures
            r.event_id_value() is None,
            r.booth_category_id_value() is None,
            r.name_value() is None,
            r.state_value() is None,
            r.partner_id_value() is None,
            r.contact_name_value() is None,
            r.contact_email_value() is None,
            r.contact_phone_value() is None,
            r.sale_order_line_id_value() is None,
            r.is_paid_value() is None,
    {
        BoothBuilder::default()
    }

    /// A booth with the given fields, the others unset, a fresh identifier and empty audit metadata.
    pub fn new(event_id: u128, booth_category_id: u128, name: String, state: EventBoothState, is_paid: bool) -> (r: Self)
        ensures
            r.event_id == event_id,
            r.booth_category_id == booth_category_id,
            r.name == name,
            r.state == state,
            r.partner_id is None,
            r.contact_name is None,
            r.contact_email is None,
            r.contact_phone is None,
            r.sale_order_line_id is None,
            r.is_paid == is_paid,
            r.metadata == AuditMetadata::empty(),
    {
        Booth {
            id: fresh_uuid(),
            event_id,
            booth_category_id,
            name,
            state,
            partner_id: None,
            contact_name: None,
            contact_email: None,
            contact_phone: None,
            sale_order_line_id: None,
            is_paid,
            metadata: AuditMetadata::new(),
        }
    }

    /// The identifier.
    pub fn id(&self) -> (r: u128)
        ensures
            r == self.id,
    {
        self.id
    }

    /// The typed identifier.
    pub fn typed_id(&self) -> (r: BoothId)
        ensures
            r.0 == self.id,
    {
        BoothId(self.id)
    }

    /// When the booth was created.
    pub fn created_at(&self) -> (r: Option<i64>)
        ensures
            r == self.metadata.created_at,
    {
        self.metadata.created_at
    }

    /// When the booth was last updated.
    pub fn updated_at(&self) -> (r: Option<i64>)
        ensures
            r == self.metadata.updated_at,
    {
        self.metadata.updated_at
    }

    /// Whether the booth is soft-deleted.
    pub fn is_deleted(&self) -> (r: bool)
        ensures
            r == self.metadata.deleted_at.is_some(),
    {
        self.metadata.deleted_at.is_some()
    }

    /// Whether the booth is not soft-deleted.
    pub fn is_active(&self) -> (r: bool)
        ensures
            r == self.metadata.deleted_at.is_none(),
    {
        self.metadata.deleted_at.is_none()
    }

    /// When the booth was deleted.
    pub fn deleted_at(&self) -> (r: Option<i64>)
        ensures
            r == self.metadata.deleted_at,
    {
        self.metadata.deleted_at
    }

    /// Who created the booth.
    pub fn created_by(&self) -> (r: Option<u128>)
        ensures
            r == self.metadata.created_by,
    {
        self.metadata.created_by
    }

    /// Who last updated the booth.
    pub fn updated_by(&self) -> (r: Option<u128>)
        ensures
            r == self.metadata.updated_by,
    {
        self.metadata.updated_by
    }

    /// Who deleted the booth.
    pub fn deleted_by(&self) -> (r: Option<u128>)
        ensures
            r == self.metadata.deleted_by,
    {
        self.metadata.deleted_by
    }

    /// Sets `partner_id` (chainable).
    pub fn with_partner_id(self, value: u128) -> (r: Self)
        ensures
            r == (Booth { partner_id: Some(value), ..self }),
    {
        Booth { partner_id: Some(value), ..self }
    }

    /// Sets `contact_name` (chainable).
    pub fn with_contact_name(self, value: String) -> (r: Self)
        ensures
            r == (Booth { contact_name: Some(value), ..self }),
    {
        Booth { contact_name: Some(value), ..self }
    }

    /// Sets `contact_email` (chainable).
    pub fn with_contact_email(self, value: String) -> (r: Self)
        ensures
            r == (Booth { contact_email: Some(value), ..self }),
    {
        Booth { contact_email: Some(value), ..self }
    }

    /// Sets `contact_phone` (chainable).
    pub fn with_contact_phone(self, value: String) -> (r: Self)
        ensures
            r == (Booth { contact_phone: Some(value), ..self }),
    {
        Booth { contact_phone: Some(value), ..self }
    }

    /// Sets `sale_order_line_id` (chainable).
    pub fn with_sale_order_line_id(self, value: u128) -> (r: Self)
        ensures
            r == (Booth { sale_order_line_id: Some(value), ..self }),
    {
        Booth { sale_order_line_id: Some(value), ..self }
    }

    /// The entity's type name.
    pub fn entity_type() -> (r: &'static str)
        ensures
            r@ == "Booth"@,
    {
        "Booth"
    }

    /// Applies one field of a partial update.
    pub fn apply_field(&mut self, key: &str, value: &PatchValue)
        ensures
            *final(self) == booth_field(*old(self), key@, *value),
    {
        if same_text(key, "event_id") {
            match value_uuid(value) {
                Some(y) => self.event_id = y,
                None => {},
            }
        } else if same_text(key, "booth_category_id") {
            match value_uuid(value) {
                Some(y) => self.booth_category_id = y,
                None => {},
            }
        } else if same_text(key, "name") {
            match value_text(value) {
                Some(y) => self.name = y,
                None => {},
            }
        } else if same_text(key, "partner_id") {
            match value_opt_uuid(value) {
                Some(y) => self.partner_id = y,
                None => {},
            }
        } else if same_text(key, "contact_name") {
            match value_opt_text(value) {
                Some(y) => self.contact_name = y,
                None => {},
            }
        } else if same_text(key, "contact_email") {
            match value_opt_text(value) {
                Some(y) => self.contact_email = y,
                None => {},
            }
        } else if same_text(key, "contact_phone") {
            match value_opt_text(value) {
                Some(y) => self.contact_phone = y,
                None => {},
            }
        } else if same_text(key, "sale_order_line_id") {
            match value_opt_uuid(value) {
                Some(y) => self.sale_order_line_id = y,
                None => {},
            }
        } else if same_text(key, "is_paid") {
            match value_bool(value) {
                Some(y) => self.is_paid = y,
                None => {},
            }
        }
    }

    /// Applies a partial update field by field, in order (unknown keys and
    /// values of the wrong shape are ignored).
    pub fn apply_patch(&mut self, fields: Vec<(String, PatchValue)>)
        ensures
            *final(self) == booth_patched(*old(self), fields@),
    {
        let mut i: usize = 0;
        while i < fields.len()
            invariant
                i <= fields.len(),
                *self == booth_patched(*old(self), fields@.take(i as int)),
            decreases fields.len() - i,
        {
            let (k, v) = &fields[i];
            self.apply_field(k.as_str(), v);
            proof {
                assert(fields@.take(i + 1).drop_last() =~= fields@.take(i as int));
                assert(fields@.take(i + 1).last() == fields@[i as int]);
            }
            i = i + 1;
        }
        assert(fields@.take(fields.len() as int) =~= fields@);
    }
}

/// The builder of a booth: `event_id`, `booth_category_id`, `name` required; the state defaults to available, `is_paid` to false.
#[derive(Debug, Clone)]
pub struct BoothBuilder {
    event_id: Option<u128>,
    booth_category_id: Option<u128>,
    name: Option<String>,
    state: Option<EventBoothState>,
    partner_id: Option<u128>,
    contact_name: Option<String>,
    contact_email: Option<String>,
    contact_phone: Option<String>,
    sale_order_line_id: Option<u128>,
    is_paid: Option<bool>,
}

impl Default for BoothBuilder {
    fn default() -> (r: Self)
        ensures
            r.event_id_value() is None,
            r.booth_category_id_value() is None,
            r.name_value() is None,
            r.state_value() is None,
            r.partner_id_value() is None,
            r.contact_name_value() is None,
            r.contact_email_value() is None,
            r.contact_phone_value() is None,
            r.sale_order_line_id_value() is None,
            r.is_paid_value() is None,
    {
        BoothBuilder { event_id: None, booth_category_id: None, name: None, state: None, partner_id: None, contact_name: None, contact_email: None, contact_phone: None, sale_order_line_id: None, is_paid: None }
    }
}

impl BoothBuilder {
    /// The `event_id` set so far.
    pub closed spec fn event_id_value(self) -> Option<u128> {
        self.event_id
    }

    /// The `booth_category_id` set so far.
    pub closed spec fn booth_category_id_value(self) -> Option<u128> {
        self.booth_category_id
    }

    /// The `name` set so far.
    pub closed spec fn name_value(self) -> Option<String> {
        self.name
    }

    /// The `state` set so far.
    pub closed spec fn state_value(self) -> Option<EventBoothState> {
        self.state
    }

    /// The `partner_id` set so far.
    pub closed spec fn partner_id_value(self) -> Option<u128> {
        self.partner_id
    }

    /// The `contact_name` set so far.
    pub closed spec fn contact_name_value(self) -> Option<String> {
        self.contact_name
    }

    /// The `contact_email` set so far.
    pub closed spec fn contact_email_value(self) -> Option<String> {
        self.contact_email
    }

    /// The `contact_phone` set so far.
    pub closed spec fn contact_phone_value(self) -> Option<String> {
        self.contact_phone
    }

    /// The `sale_order_line_id` set so far.
    pub closed spec fn sale_order_line_id_value(self) -> Option<u128> {
        self.sale_order_line_id
    }

    /// The `is_paid` set so far.
    pub closed spec fn is_paid_value(self) -> Option<bool> {
        self.is_paid
    }

    /// Sets `event_id`.
    pub fn event_id(self, value: u128) -> (r: Self)
        ensures
            r.event_id_value() == Some(value),
            r.booth_category_id_value() == self.booth_category_id_value(),
            r.name_value() == self.name_value(),
            r.state_value() == self.state_value(),
            r.partner_id_value() == self.partner_id_value(),
            r.contact_name_value() == self.contact_name_value(),
            r.contact_email_value() == self.contact_email_value(),
            r.contact_phone_value() == self.contact_phone_value(),
            r.sale_order_line_id_value() == self.sale_order_line_id_value(),
            r.is_paid_value() == self.is_paid_value(),
    {
        BoothBuilder { event_id: Some(value), ..self }
    }

    /// Sets `booth_category_id`.
    pub fn booth_category_id(self, value: u128) -> (r: Self)
        ensures
            r.event_id_value() == self.event_id_value(),
            r.booth_category_id_value() == Some(value),
            r.name_value() == self.name_value(),
            r.state_value() == self.state_value(),
            r.partner_id_value() == self.partner_id_value(),
            r.contact_name_value() == self.contact_name_value(),
            r.contact_email_value() == self.contact_email_value(),
            r.contact_phone_value() == self.contact_phone_value(),
            r.sale_order_line_id_value() == self.sale_order_line_id_value(),
            r.is_paid_value() == self.is_paid_value(),
    {
        BoothBuilder { booth_category_id: Some(value), ..self }
    }

    /// Sets `name`.
    pub fn name(self, value: String) -> (r: Self)
        ensures
            r.event_id_value() == self.event_id_value(),
            r.booth_category_id_value() == self.booth_category_id_value(),
            r.name_value() == Some(value),
            r.state_value() == self.state_value(),
            r.partner_id_value() == self.partner_id_value(),
            r.contact_name_value() == self.contact_name_value(),
            r.contact_email_value() == self.contact_email_value(),
            r.contact_phone_value() == self.contact_phone_value(),
            r.sale_order_line_id_value() == self.sale_order_line_id_value(),
            r.is_paid_value() == self.is_paid_value(),
    {
        BoothBuilder { name: Some(value), ..self }
    }

    /// Sets `state`.
    pub fn state(self, value: EventBoothState) -> (r: Self)
        ensures
            r.event_id_value() == self.event_id_value(),
            r.booth_category_id_value() == self.booth_category_id_value(),
            r.name_value() == self.name_value(),
            r.state_value() == Some(value),
            r.partner_id_value() == self.partner_id_value(),
            r.contact_name_value() == self.contact_name_value(),
            r.contact_email_value() == self.contact_email_value(),
            r.contact_phone_value() == self.contact_phone_value(),
            r.sale_order_line_id_value() == self.sale_order_line_id_value(),
            r.is_paid_value() == self.is_paid_value(),
    {
        BoothBuilder { state: Some(value), ..self }
    }

    /// Sets `partner_id`.
    pub fn partner_id(self, value: u128) -> (r: Self)
        ensures
            r.event_id_value() == self.event_id_value(),
            r.booth_category_id_value() == self.booth_category_id_value(),
            r.name_value() == self.name_value(),
            r.state_value() == self.state_value(),
            r.partner_id_value() == Some(value),
            r.contact_name_value() == self.contact_name_value(),
            r.contact_email_value() == self.contact_email_value(),
            r.contact_phone_value() == self.contact_phone_value(),
            r.sale_order_line_id_value() == self.sale_order_line_id_value(),
            r.is_paid_value() == self.is_paid_value(),
    {
        BoothBuilder { partner_id: Some(value), ..self }
    }

    /// Sets `contact_name`.
    pub fn contact_name(self, value: String) -> (r: Self)
        ensures
            r.event_id_value() == self.event_id_value(),
            r.booth_category_id_value() == self.booth_category_id_value(),
            r.name_value() == self.name_value(),
            r.state_value() == self.state_value(),
            r.partner_id_value() == self.partner_id_value(),
            r.contact_name_value() == Some(value),
            r.contact_email_value() == self.contact_email_value(),
            r.contact_phone_value() == self.contact_phone_value(),
            r.sale_order_line_id_value() == self.sale_order_line_id_value(),
            r.is_paid_value() == self.is_paid_value(),
    {
        BoothBuilder { contact_name: Some(value), ..self }
    }

    /// Sets `contact_email`.
    pub fn contact_email(self, value: String) -> (r: Self)
        ensures
            r.event_id_value() == self.event_id_value(),
            r.booth_category_id_value() == self.booth_category_id_value(),
            r.name_value() == self.name_value(),
            r.state_value() == self.state_value(),
            r.partner_id_value() == self.partner_id_value(),
            r.contact_name_value() == self.contact_name_value(),
            r.contact_email_value() == Some(value),
            r.contact_phone_value() == self.contact_phone_value(),
            r.sale_order_line_id_value() == self.sale_order_line_id_value(),
            r.is_paid_value() == self.is_paid_value(),
    {
        BoothBuilder { contact_email: Some(value), ..self }
    }

    /// Sets `contact_phone`.
    pub fn contact_phone(self, value: String) -> (r: Self)
        ensures
            r.event_id_value() == self.event_id_value(),
            r.booth_category_id_value() == self.booth_category_id_value(),
            r.name_value() == self.name_value(),
            r.state_value() == self.state_value(),
            r.partner_id_value() == self.partner_id_value(),
            r.contact_name_value() == self.contact_name_value(),
            r.contact_email_value() == self.contact_email_value(),
            r.contact_phone_value() == Some(value),
            r.sale_order_line_id_value() == self.sale_order_line_id_value(),
            r.is_paid_value() == self.is_paid_value(),
    {
        BoothBuilder { contact_phone: Some(value), ..self }
    }

    /// Sets `sale_order_line_id`.
    pub fn sale_order_line_id(self, value: u128) -> (r: Self)
        ensures
            r.event_id_value() == self.event_id_value(),
            r.booth_category_id_value() == self.booth_category_id_value(),
            r.name_value() == self.name_value(),
            r.state_value() == self.state_value(),
            r.partner_id_value() == self.partner_id_value(),
            r.contact_name_value() == self.contact_name_value(),
            r.contact_email_value() == self.contact_email_value(),
            r.contact_phone_value() == self.contact_phone_value(),
            r.sale_order_line_id_value() == Some(value),
            r.is_paid_value() == self.is_paid_value(),
    {
        BoothBuilder { sale_order_line_id: Some(value), ..self }
    }

    /// Sets `is_paid`.
    pub fn is_paid(self, value: bool) -> (r: Self)
        ensures
            r.event_id_value() == self.event_id_value(),
            r.booth_category_id_value() == self.booth_category_id_value(),
            r.name_value() == self.name_value(),
            r.state_value() == self.state_value(),
            r.partner_id_value() == self.partner_id_value(),
            r.contact_name_value() == self.contact_name_value(),
            r.contact_email_value() == self.contact_email_value(),
            r.contact_phone_value() == self.contact_phone_value(),
            r.sale_order_line_id_value() == self.sale_order_line_id_value(),
            r.is_paid_value() == Some(value),
    {
        BoothBuilder { is_paid: Some(value), ..self }
    }

    /// Builds the booth: refused with `<field> is required` for the first
    /// required field not set; otherwise the set values, the defaults, a
    /// fresh identifier and empty audit metadata.
    pub fn build(self) -> (r: Result<Booth, String>)
        ensures
            self.event_id_value() is None ==> r.is_err() && r->Err_0@ == "event_id is required"@,
            self.event_id_value() is Some && self.booth_category_id_value() is None ==> r.is_err() && r->Err_0@ == "booth_category_id is required"@,
            self.event_id_value() is Some && self.booth_category_id_value() is Some && self.name_value() is None ==> r.is_err() && r->Err_0@ == "name is required"@,
            self.event_id_value() is Some && self.booth_category_id_value() is Some && self.name_value() is Some ==> r.is_ok() && {
                let x = r->Ok_0;
                &&& x.event_id == self.event_id_value()->0
                &&& x.booth_category_id == self.booth_category_id_value()->0
                &&& x.name == self.name_value()->0
                &&& x.state == match self.state_value() { Some(y) => y, None => EventBoothState::Available }
                &&& x.partner_id == self.partner_id_value()
                &&& x.contact_name == self.contact_name_value()
                &&& x.contact_email == self.contact_email_value()
                &&& x.contact_phone == self.contact_phone_value()
                &&& x.sale_order_line_id == self.sale_order_line_id_value()
                &&& x.is_paid == match self.is_paid_value() { Some(y) => y, None => false }
                &&& x.metadata == AuditMetadata::empty()
            },
    {
        let event_id = match self.event_id {
            Some(y) => y,
            None => return Err(string_of(&chars_of("event_id is required"))),
        };
        let booth_category_id = match self.booth_category_id {
            Some(y) => y,
            None => return Err(string_of(&chars_of("booth_category_id is required"))),
        };
        let name = match self.name {
            Some(y) => y,
            None => return Err(string_of(&chars_of("name is required"))),
        };
        Ok(Booth {
            id: fresh_uuid(),
            event_id,
            booth_category_id,
            name,
            state: match self.state { Some(y) => y, None => EventBoothState::Available },
            partner_id: self.partner_id,
            contact_name: self.contact_name,
            contact_email: self.contact_email,
            contact_phone: self.contact_phone,
            sale_order_line_id: self.sale_order_line_id,
            is_paid: match self.is_paid { Some(y) => y, None => false },
            metadata: AuditMetadata::new(),
        })
    }
}

} // verus!
