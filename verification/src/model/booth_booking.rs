//! A booking of a booth.

use vstd::prelude::*;
use crate::entity::{AuditMetadata, PatchValue, opt_text_of, opt_uuid_of, uuid_of, value_opt_text, value_opt_uuid, value_uuid};
use crate::ids::fresh_uuid;
use crate::text::{chars_of, string_of, same_text};
use crate::vocab::{EventBoothBookingStatus};

verus! {

/// The typed identifier of a booth booking.
#[derive(Debug, Clone, Copy, PartialEq, Eq, Structural)]
pub struct BoothBookingId(pub u128);

impl BoothBookingId {
    /// Wraps an identifier.
    pub fn new(id: u128) -> (r: Self)
        ensures
            r.0 == id,
    {
        BoothBookingId(id)
    }

    /// A fresh random identifier (nothing is claimed of its value).
    pub fn generate() -> (r: Self) {
        BoothBookingId(fresh_uuid())
    }

    /// The wrapped identifier.
    pub fn into_inner(self) -> (r: u128)
        ensures
            r == self.0,
    {
        self.0
    }
}

/// A booking of a booth.
#[derive(Debug, Clone)]
pub struct BoothBooking {
    pub id: u128,
    pub event_booth_id: u128,
    pub sale_order_line_id: Option<u128>,
    pub status: EventBoothBookingStatus,
    pub partner_id: Option<u128>,
    pub contact_name: Option<String>,
    pub contact_email: Option<String>,
    pub contact_phone: Option<String>,
    pub metadata: AuditMetadata,
}

/// One field of a partial update applied to a booth booking: `event_booth_id`, `sale_order_line_id`, `status`, `partner_id`, `contact_name`, `contact_email`, `contact_phone` take a value of their own type; any other key, or a value of the wrong shape, changes nothing.
pub open spec fn booth_booking_field(x: BoothBooking, key: Seq<char>, v: PatchValue) -> BoothBooking {
    if key == "event_booth_id"@ {
        match uuid_of(v) {
            Some(y) => BoothBooking { event_booth_id: y, ..x },
            None => x,
        }
    } else if key == "sale_order_line_id"@ {
        match opt_uuid_of(v) {
            Some(y) => BoothBooking { sale_order_line_id: y, ..x },
            None => x,
        }
    } else if key == "status"@ {
        match match v { PatchValue::Text(s) => EventBoothBookingStatus::parse_name(s@), _ => None } {
            Some(y) => BoothBooking { status: y, ..x },
            None => x,
        }
    } else if key == "partner_id"@ {
        match opt_uuid_of(v) {
            Some(y) => BoothBooking { partner_id: y, ..x },
            None => x,
        }
    } else if key == "contact_name"@ {
        match opt_text_of(v) {
            Some(y) => BoothBooking { contact_name: y, ..x },
            None => x,
        }
    } else if key == "contact_email"@ {
        match opt_text_of(v) {
            Some(y) => BoothBooking { contact_email: y, ..x },
            None => x,
        }
    } else if key == "contact_phone"@ {
        match opt_text_of(v) {
            Some(y) => BoothBooking { contact_phone: y, ..x },
            None => x,
        }
    } else {
        x
    }
}

/// A partial update applied field by field, in order.
pub open spec fn booth_booking_patched(x: BoothBooking, fields: Seq<(String, PatchValue)>) -> BoothBooking
    decreases fields.len(),
{
    if fields.len() == 0 {
        x
    } else {
        booth_booking_field(booth_booking_patched(x, fields.drop_last()), fields.last().0@, fields.last().1)
    }
}

/// A partial update never touches the identifier or the audit metadata.
pub proof fn lemma_patch_keeps_identity(x: BoothBooking, fields: Seq<(String, PatchValue)>)
    ensures
        booth_booking_patched(x, fields).id == x.id,
        booth_booking_patched(x, fields).metadata == x.metadata,
    decreases fields.len(),
{
    if fields.len() > 0 {
        lemma_patch_keeps_identity(x, fields.drop_last());
    }
}

impl BoothBooking {
    /// A builder with nothing set.
    pub fn builder() -> (r: BoothBookingBuilder)
        ensures
            r.event_booth_id_value() is None,
            r.sale_order_line_id_value() is None,
            r.status_value() is None,
            r.partner_id_value() is None,
            r.contact_name_value() is None,
            r.contact_email_value() is None,
            r.contact_phone_value() is None,
    {
        BoothBookingBuilder::default()
    }

    /// A booth booking with the given fields, the others unset, a fresh identifier and empty audit metadata.
    pub fn new(event_booth_id: u128, status: EventBoothBookingStatus) -> (r: Self)
        ensures
            r.event_booth_id == event_booth_id,
            r.sale_order_line_id is None,
            r.status == status,
            r.partner_id is None,
            r.contact_name is None,
            r.contact_email is None,
            r.contact_phone is None,
            r.metadata == AuditMetadata::empty(),
    {
        BoothBooking {
            id: fresh_uuid(),
            event_booth_id,
            sale_order_line_id: None,
            status,
            partner_id: None,
            contact_name: None,
            contact_email: None,
            contact_phone: None,
            metadata: AuditMetadata::new(),
        }
    }

    /// The identifier.
    pub fn id(&self) -> (r: u128)
        ensures
            r == self.id,
    {
        self.id
    }

    /// The typed identifier.
    pub fn typed_id(&self) -> (r: BoothBookingId)
        ensures
            r.0 == self.id,
    {
        BoothBookingId(self.id)
    }

    /// When the booking was created.
    pub fn created_at(&self) -> (r: Option<i64>)
        ensures
            r == self.metadata.created_at,
    {
        self.metadata.created_at
    }

    /// When the booking was last updated.
    pub fn updated_at(&self) -> (r: Option<i64>)
        ensures
            r == self.metadata.updated_at,
    {
        self.metadata.updated_at
    }

    /// Whether the booking is soft-deleted.
    pub fn is_deleted(&self) -> (r: bool)
        ensures
            r == self.metadata.deleted_at.is_some(),
    {
        self.metadata.deleted_at.is_some()
    }

    /// Whether the booking is not soft-deleted.
    pub fn is_active(&self) -> (r: bool)
        ensures
            r == self.metadata.deleted_at.is_none(),
    {
        self.metadata.deleted_at.is_none()
    }

    /// When the booking was deleted.
    pub fn deleted_at(&self) -> (r: Option<i64>)
        ensures
            r == self.metadata.deleted_at,
    {
        self.metadata.deleted_at
    }

    /// Who created the booking.
    pub fn created_by(&self) -> (r: Option<u128>)
        ensures
            r == self.metadata.created_by,
    {
        self.metadata.created_by
    }

    /// Who last updated the booking.
    pub fn updated_by(&self) -> (r: Option<u128>)
        ensures
            r == self.metadata.updated_by,
    {
        self.metadata.updated_by
    }

    /// Who deleted the booking.
    pub fn deleted_by(&self) -> (r: Option<u128>)
        ensures
            r == self.metadata.deleted_by,
    {
        self.metadata.deleted_by
    }

    /// The current status.
    pub fn status(&self) -> (r: &EventBoothBookingStatus)
        ensures
            *r == self.status,
    {
        &self.status
    }

    /// Sets `sale_order_line_id` (chainable).
    pub fn with_sale_order_line_id(self, value: u128) -> (r: Self)
        ensures
            r == (BoothBooking { sale_order_line_id: Some(value), ..self }),
    {
        BoothBooking { sale_order_line_id: Some(value), ..self }
    }

    /// Sets `partner_id` (chainable).
    pub fn with_partner_id(self, value: u128) -> (r: Self)
        ensures
            r == (BoothBooking { partner_id: Some(value), ..self }),
    {
        BoothBooking { partner_id: Some(value), ..self }
    }

    /// Sets `contact_name` (chainable).
    pub fn with_contact_name(self, value: String) -> (r: Self)
        ensures
            r == (BoothBooking { contact_name: Some(value), ..self }),
    {
        BoothBooking { contact_name: Some(value), ..self }
    }

    /// Sets `contact_email` (chainable).
    pub fn with_contact_email(self, value: String) -> (r: Self)
        ensures
            r == (BoothBooking { contact_email: Some(value), ..self }),
    {
        BoothBooking { contact_email: Some(value), ..self }
    }

    /// Sets `contact_phone` (chainable).
    pub fn with_contact_phone(self, value: String) -> (r: Self)
        ensures
            r == (BoothBooking { contact_phone: Some(value), ..self }),
    {
        BoothBooking { contact_phone: Some(value), ..self }
    }

    /// The entity's type name.
    pub fn entity_type() -> (r: &'static str)
        ensures
            r@ == "BoothBooking"@,
    {
        "BoothBooking"
    }

    /// Applies one field of a partial update.
    pub fn apply_field(&mut self, key: &str, value: &PatchValue)
        ensures
            *final(self) == booth_booking_field(*old(self), key@, *value),
    {
        if same_text(key, "event_booth_id") {
            match value_uuid(value) {
                Some(y) => self.event_booth_id = y,
                None => {},
            }
        } else if same_text(key, "sale_order_line_id") {
            match value_opt_uuid(value) {
                Some(y) => self.sale_order_line_id = y,
                None => {},
            }
        } else if same_text(key, "status") {
            match match value { PatchValue::Text(s) => EventBoothBookingStatus::from_name(s.as_str()), _ => None } {
                Some(y) => self.status = y,
                None => {},
            }
        } else if same_text(key, "partner_id") {
            match value_opt_uuid(value) {
                Some(y) => self.partner_id = y,
                None => {},
            }
        } else if same_text(key, "contact_name") {
            match value_opt_text(value) {
                Some(y) => self.contact_name = y,
                None => {},
            }
        } else if same_text(key, "contact_email") {
            match value_opt_text(value) {
                Some(y) => self.contact_email = y,
                None => {},
            }
        } else if same_text(key, "contact_phone") {
            match value_opt_text(value) {
                Some(y) => self.contact_phone = y,
                None => {},
            }
        }
    }

    /// Applies a partial update field by field, in order (unknown keys and
    /// values of the wrong shape are ignored).
    pub fn apply_patch(&mut self, fields: Vec<(String, PatchValue)>)
        ensures
            *final(self) == booth_booking_patched(*old(self), fields@),
    {
        let mut i: usize = 0;
        while i < fields.len()
            invariant
                i <= fields.len(),
                *self == booth_booking_patched(*old(self), fields@.take(i as int)),
            decreases fields.len() - i,
        {
            let (k, v) = &fields[i];
            self.apply_field(k.as_str(), v);
            proof {
                assert(fields@.take(i + 1).drop_last() =~= fields@.take(i as int));
                assert(fields@.take(i + 1).last() == fields@[i as int]);
            }
            i = i + 1;
        }
        assert(fields@.take(fields.len() as int) =~= fields@);
    }
}

/// The builder of a booth booking: `event_booth_id` required; the status defaults to pending.
#[derive(Debug, Clone)]
pub struct BoothBookingBuilder {
    event_booth_id: Option<u128>,
    sale_order_line_id: Option<u128>,
    status: Option<EventBoothBookingStatus>,
    partner_id: Option<u128>,
    contact_name: Option<String>,
    contact_email: Option<String>,
    contact_phone: Option<String>,
}

impl Default for BoothBookingBuilder {
    fn default() -> (r: Self)
        ensures
            r.event_booth_id_value() is None,
            r.sale_order_line_id_value() is None,
            r.status_value() is None,
            r.partner_id_value() is None,
            r.contact_name_value() is None,
            r.contact_email_value() is None,
            r.contact_phone_value() is None,
    {
        BoothBookingBuilder { event_booth_id: None, sale_order_line_id: None, status: None, partner_id: None, contact_name: None, contact_email: None, contact_phone: None }
    }
}

impl BoothBookingBuilder {
    /// The `event_booth_id` set so far.
    pub closed spec fn event_booth_id_value(self) -> Option<u128> {
        self.event_booth_id
    }

    /// The `sale_order_line_id` set so far.
    pub closed spec fn sale_order_line_id_value(self) -> Option<u128> {
        self.sale_order_line_id
    }

    /// The `status` set so far.
    pub closed spec fn status_value(self) -> Option<EventBoothBookingStatus> {
        self.status
    }

    /// The `partner_id` set so far.
    pub closed spec fn partner_id_value(self) -> Option<u128> {
        self.partner_id
    }

    /// The `contact_name` set so far.
    pub closed spec fn contact_name_value(self) -> Option<String> {
        self.contact_name
    }

    /// The `contact_email` set so far.
    pub closed spec fn contact_email_value(self) -> Option<String> {
        self.contact_email
    }

    /// The `contact_phone` set so far.
    pub closed spec fn contact_phone_value(self) -> Option<String> {
        self.contact_phone
    }

    /// Sets `event_booth_id`.
    pub fn event_booth_id(self, value: u128) -> (r: Self)
        ensures
            r.event_booth_id_value() == Some(value),
            r.sale_order_line_id_value() == self.sale_order_line_id_value(),
            r.status_value() == self.status_value(),
            r.partner_id_value() == self.partner_id_value(),
            r.contact_name_value() == self.contact_name_value(),
            r.contact_email_value() == self.contact_email_value(),
            r.contact_phone_value() == self.contact_phone_value(),
    {
        BoothBookingBuilder { event_booth_id: Some(value), ..self }
    }

    /// Sets `sale_order_line_id`.
    pub fn sale_order_line_id(self, value: u128) -> (r: Self)
        ensures
            r.event_booth_id_value() == self.event_booth_id_value(),
            r.sale_order_line_id_value() == Some(value),
            r.status_value() == self.status_value(),
            r.partner_id_value() == self.partner_id_value(),
            r.contact_name_value() == self.contact_name_value(),
            r.contact_email_value() == self.contact_email_value(),
            r.contact_phone_value() == self.contact_phone_value(),
    {
        BoothBookingBuilder { sale_order_line_id: Some(value), ..self }
    }

    /// Sets `status`.
    pub fn status(self, value: EventBoothBookingStatus) -> (r: Self)
        ensures
            r.event_booth_id_value() == self.event_booth_id_value(),
            r.sale_order_line_id_value() == self.sale_order_line_id_value(),
            r.status_value() == Some(value),
            r.partner_id_value() == self.partner_id_value(),
            r.contact_name_value() == self.contact_name_value(),
            r.contact_email_value() == self.contact_email_value(),
            r.contact_phone_value() == self.contact_phone_value(),
    {
        BoothBookingBuilder { status: Some(value), ..self }
    }

    /// Sets `partner_id`.
    pub fn partner_id(self, value: u128) -> (r: Self)
        ensures
            r.event_booth_id_value() == self.event_booth_id_value(),
            r.sale_order_line_id_value() == self.sale_order_line_id_value(),
            r.status_value() == self.status_value(),
            r.partner_id_value() == Some(value),
            r.contact_name_value() == self.contact_name_value(),
            r.contact_email_value() == self.contact_email_value(),
            r.contact_phone_value() == self.contact_phone_value(),
    {
        BoothBookingBuilder { partner_id: Some(value), ..self }
    }

    /// Sets `contact_name`.
    pub fn contact_name(self, value: String) -> (r: Self)
        ensures
            r.event_booth_id_value() == self.event_booth_id_value(),
            r.sale_order_line_id_value() == self.sale_order_line_id_value(),
            r.status_value() == self.status_value(),
            r.partner_id_value() == self.partner_id_value(),
            r.contact_name_value() == Some(value),
            r.contact_email_value() == self.contact_email_value(),
            r.contact_phone_value() == self.contact_phone_value(),
    {
        BoothBookingBuilder { contact_name: Some(value), ..self }
    }

    /// Sets `contact_email`.
    pub fn contact_email(self, value: String) -> (r: Self)
        ensures
            r.event_booth_id_value() == self.event_booth_id_value(),
            r.sale_order_line_id_value() == self.sale_order_line_id_value(),
            r.status_value() == self.status_value(),
            r.partner_id_value() == self.partner_id_value(),
            r.contact_name_value() == self.contact_name_value(),
            r.contact_email_value() == Some(value),
            r.contact_phone_value() == self.contact_phone_value(),
    {
        BoothBookingBuilder { contact_email: Some(value), ..self }
    }

    /// Sets `contact_phone`.
    pub fn contact_phone(self, value: String) -> (r: Self)
        ensures
            r.event_booth_id_value() == self.event_booth_id_value(),
            r.sale_order_line_id_value() == self.sale_order_line_id_value(),
            r.status_value() == self.status_value(),
            r.partner_id_value() == self.partner_id_value(),
            r.contact_name_value() == self.contact_name_value(),
            r.contact_email_value() == self.contact_email_value(),
            r.contact_phone_value() == Some(value),
    {
        BoothBookingBuilder { contact_phone: Some(value), ..self }
    }

    /// Builds the booking: refused with `<field> is required` for the first
    /// required field not set; otherwise the set values, the defaults, a
    /// fresh identifier and empty audit metadata.
    pub fn build(self) -> (r: Result<BoothBooking, String>)
        ensures
            self.event_booth_id_value() is None ==> r.is_err() && r->Err_0@ == "event_booth_id is required"@,
            self.event_booth_id_value() is Some ==> r.is_ok() && {
                let x = r->Ok_0;
                &&& x.event_booth_id == self.event_booth_id_value()->0
                &&& x.sale_order_line_id == self.sale_order_line_id_value()
                &&& x.status == match self.status_value() { Some(y) => y, None => EventBoothBookingStatus::Pending }
                &&& x.partner_id == self.partner_id_value()
                &&& x.contact_name == self.contact_name_value()
                &&& x.contact_email == self.contact_email_value()
                &&& x.contact_phone == self.contact_phone_value()
                &&& x.metadata == AuditMetadata::empty()
            },
    {
        let event_booth_id = match self.event_booth_id {
            Some(y) => y,
            None => return Err(string_of(&chars_of("event_booth_id is required"))),
        };
        Ok(BoothBooking {
            id: fresh_uuid(),
            event_booth_id,
            sale_order_line_id: self.sale_order_line_id,
            status: match self.status { Some(y) => y, None => EventBoothBookingStatus::Pending },
            partner_id: self.partner_id,
            contact_name: self.contact_name,
            contact_email: self.contact_email,
            contact_phone: self.contact_phone,
            metadata: AuditMetadata::new(),
        })
    }
}

} // verus!
