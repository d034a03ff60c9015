//! A registration to an event.

use vstd::prelude::*;
use crate::entity::{AuditMetadata, PatchValue, bool_of, opt_instant_of, opt_text_of, opt_uuid_of, text_of, uuid_of, value_bool, value_opt_instant, value_opt_text, value_opt_uuid, value_text, value_uuid};
use crate::ids::fresh_uuid;
use crate::text::{chars_of, string_of, same_text};
use crate::vocab::{EventRegistrationState, EventSaleOrderState, EventSaleStatus};

verus! {

/// The typed identifier of a registration.
#[derive(Debug, Clone, Copy, PartialEq, Eq, Structural)]
pub struct RegistrationId(pub u128);

impl RegistrationId {
    /// Wraps an identifier.
    pub fn new(id: u128) -> (r: Self)
        ensures
            r.0 == id,
    {
        RegistrationId(id)
    }

    /// A fresh random identifier (nothing is claimed of its value).
    pub fn generate() -> (r: Self) {
        RegistrationId(fresh_uuid())
    }

    /// The wrapped identifier.
    pub fn into_inner(self) -> (r: u128)
        ensures
            r == self.0,
    {
        self.0
    }
}

/// A registration to an event.
#[derive(Debug, Clone)]
pub struct Registration {
    pub id: u128,
    pub event_id: u128,
    pub event_slot_id: Option<u128>,
    pub event_ticket_id: Option<u128>,
    pub name: String,
    pub email: String,
    pub phone: Option<String>,
    pub company_name: Option<String>,
    pub partner_id: Option<u128>,
    pub state: EventRegistrationState,
    pub date_closed: Option<i64>,
    pub sale_order_id: Option<u128>,
    pub sale_order_state: Option<EventSaleOrderState>,
    pub sale_status: Option<EventSaleStatus>,
    pub active: bool,
    pub barcode: String,
    pub metadata: AuditMetadata,
}

/// One field of a partial update applied to a registration: `event_id`, `event_slot_id`, `event_ticket_id`, `name`, `email`, `phone`, `company_name`, `partner_id`, `date_closed`, `sale_order_id`, `sale_order_state`, `sale_status`, `active`, `barcode` take a value of their own type; any other key, or a value of the wrong shape, changes nothing.
pub open spec fn registration_field(x: Registration, key: Seq<char>, v: PatchValue) -> Registration {
    if key == "event_id"@ {
        match uuid_of(v) {
            Some(y) => Registration { event_id: y, ..x },
            None => x,
        }
    } else if key == "event_slot_id"@ {
        match opt_uuid_of(v) {
            Some(y) => Registration { event_slot_id: y, ..x },
            None => x,
        }
    } else if key == "event_ticket_id"@ {
        match opt_uuid_of(v) {
            Some(y) => Registration { event_ticket_id: y, ..x },
            None => x,
        }
    } else if key == "name"@ {
        match text_of(v) {
            Some(y) => Registration { name: y, ..x },
            None => x,
        }
    } else if key == "email"@ {
        match text_of(v) {
            Some(y) => Registration { email: y, ..x },
            None => x,
        }
    } else if key == "phone"@ {
        match opt_text_of(v) {
            Some(y) => Registration { phone: y, ..x },
            None => x,
        }
    } else if key == "company_name"@ {
        match opt_text_of(v) {
            Some(y) => Registration { company_name: y, ..x },
            None => x,
        }
    } else if key == "partner_id"@ {
        match opt_uuid_of(v) {
            Some(y) => Registration { partner_id: y, ..x },
            None => x,
        }
    } else if key == "date_closed"@ {
        match opt_instant_of(v) {
            Some(y) => Registration { date_closed: y, ..x },
            None => x,
        }
    } else if key == "sale_order_id"@ {
        match opt_uuid_of(v) {
            Some(y) => Registration { sale_order_id: y, ..x },
            None => x,
        }
    } else if key == "sale_order_state"@ {
        match match v { PatchValue::Null => Some(None), PatchValue::Text(s) => match EventSaleOrderState::parse_name(s@) { Some(e) => Some(Some(e)), None => None }, _ => None } {
            Some(y) => Registration { sale_order_state: y, ..x },
            None => x,
        }
    } else if key == "sale_status"@ {
        match match v { PatchValue::Null => Some(None), PatchValue::Text(s) => match EventSaleStatus::parse_name(s@) { Some(e) => Some(Some(e)), None => None }, _ => None } {
            Some(y) => Registration { sale_status: y, ..x },
            None => x,
        }
    } else if key == "active"@ {
        match bool_of(v) {
            Some(y) => Registration { active: y, ..x },
            None => x,
        }
    } else if key == "barcode"@ {
        match text_of(v) {
            Some(y) => Registration { barcode: y, ..x },
            None => x,
        }
    } else {
        x
    }
}

/// A partial update applied field by field, in order.
pub open spec fn registration_patched(x: Registration, fields: Seq<(String, PatchValue)>) -> Registration
    decreases fields.len(),
{
    if fields.len() == 0 {
        x
    } else {
        registration_field(registration_patched(x, fields.drop_last()), fields.last().0@, fields.last().1)
    }
}

/// A partial update never touches the identifier or the audit metadata (nor `state`, which no partial update names).
pub proof fn lemma_patch_keeps_identity(x: Registration, fields: Seq<(String, PatchValue)>)
    ensures
        registration_patched(x, fields).id == x.id,
        registration_patched(x, fields).metadata == x.metadata,
        registration_patched(x, fields).state == x.state,
    decreases fields.len(),
{
    if fields.len() > 0 {
        lemma_patch_keeps_identity(x, fields.drop_last());
    }
}

impl Registration {
    /// A builder with nothing set.
    pub fn builder() -> (r: RegistrationBuilder)
        ensures
            r.event_id_value() is None,
            r.event_slot_id_value() is None,
            r.event_ticket_id_value() is None,
            r.name_value() is None,
            r.email_value() is None,
            r.phone_value() is None,
            r.company_name_value() is None,
            r.partner_id_value() is None,
            r.state_value() is None,
            r.date_closed_value() is None,
            r.sale_order_id_value() is None,
            r.sale_order_state_value() is None,
            r.sale_status_value() is None,
            r.active_value() is None,
            r.barcode_value() is None,
    {
        RegistrationBuilder::default()
    }

    /// A registration with the given fields, the others unset, a fresh identifier and empty audit metadata.
    pub fn new(event_id: u128, name: String, email: String, state: EventRegistrationState, active: bool, barcode: String) -> (r: Self)
        ensures
            r.event_id == event_id,
            r.event_slot_id is None,
            r.event_ticket_id is None,
            r.name == name,
            r.email == email,
            r.phone is None,
            r.company_name is None,
            r.partner_id is None,
            r.state == state,
            r.date_closed is None,
            r.sale_order_id is None,
            r.sale_order_state is None,
            r.sale_status is None,
            r.active == active,
            r.barcode == barcode,
            r.metadata == AuditMetadata::empty(),
    {
        Registration {
            id: fresh_uuid(),
            event_id,
            event_slot_id: None,
            event_ticket_id: None,
            name,
            email,
            phone: None,
            company_name: None,
            partner_id: None,
            state,
            date_closed: None,
            sale_order_id: None,
            sale_order_state: None,
            sale_status: None,
            active,
            barcode,
            metadata: AuditMetadata::new(),
        }
    }

    /// The identifier.
    pub fn id(&self) -> (r: u128)
        ensures
            r == self.id,
    {
        self.id
    }

    /// The typed identifier.
    pub fn typed_id(&self) -> (r: RegistrationId)
        ensures
            r.0 == self.id,
    {
        RegistrationId(self.id)
    }

    /// When the registration was created.
    pub fn created_at(&self) -> (r: Option<i64>)
        ensures
            r == self.metadata.created_at,
    {
        self.metadata.created_at
    }

    /// When the registration was last updated.
    pub fn updated_at(&self) -> (r: Option<i64>)
        ensures
            r == self.metadata.updated_at,
    {
        self.metadata.updated_at
    }

    /// Whether the registration is soft-deleted.
    pub fn is_deleted(&self) -> (r: bool)
        ensures
            r == self.metadata.deleted_at.is_some(),
    {
        self.metadata.deleted_at.is_some()
    }

    /// Whether the registration is not soft-deleted.
    pub fn is_active(&self) -> (r: bool)
        ensures
            r == self.metadata.deleted_at.is_none(),
    {
        self.metadata.deleted_at.is_none()
    }

    /// When the registration was deleted.
    pub fn deleted_at(&self) -> (r: Option<i64>)
        ensures
            r == self.metadata.deleted_at,
    {
        self.metadata.deleted_at
    }

    /// Who created the registration.
    pub fn created_by(&self) -> (r: Option<u128>)
        ensures
            r == self.metadata.created_by,
    {
        self.metadata.created_by
    }

    /// Who last updated the registration.
    pub fn updated_by(&self) -> (r: Option<u128>)
        ensures
            r == self.metadata.updated_by,
    {
        self.metadata.updated_by
    }

    /// Who deleted the registration.
    pub fn deleted_by(&self) -> (r: Option<u128>)
        ensures
            r == self.metadata.deleted_by,
    {
        self.metadata.deleted_by
    }

    /// Sets `event_slot_id` (chainable).
    pub fn with_event_slot_id(self, value: u128) -> (r: Self)
        ensures
            r == (Registration { event_slot_id: Some(value), ..self }),
    {
        Registration { event_slot_id: Some(value), ..self }
    }

    /// Sets `event_ticket_id` (chainable).
    pub fn with_event_ticket_id(self, value: u128) -> (r: Self)
        ensures
            r == (Registration { event_ticket_id: Some(value), ..self }),
    {
        Registration { event_ticket_id: Some(value), ..self }
    }

    /// Sets `phone` (chainable).
    pub fn with_phone(self, value: String) -> (r: Self)
        ensures
            r == (Registration { phone: Some(value), ..self }),
    {
        Registration { phone: Some(value), ..self }
    }

    /// Sets `company_name` (chainable).
    pub fn with_company_name(self, value: String) -> (r: Self)
        ensures
            r == (Registration { company_name: Some(value), ..self }),
    {
        Registration { company_name: Some(value), ..self }
    }

    /// Sets `partner_id` (chainable).
    pub fn with_partner_id(self, value: u128) -> (r: Self)
        ensures
            r == (Registration { partner_id: Some(value), ..self }),
    {
        Registration { partner_id: Some(value), ..self }
    }

    /// Sets `date_closed` (chainable).
    pub fn with_date_closed(self, value: i64) -> (r: Self)
        ensures
            r == (Registration { date_closed: Some(value), ..self }),
    {
        Registration { date_closed: Some(value), ..self }
    }

    /// Sets `sale_order_id` (chainable).
    pub fn with_sale_order_id(self, value: u128) -> (r: Self)
        ensures
            r == (Registration { sale_order_id: Some(value), ..self }),
    {
        Registration { sale_order_id: Some(value), ..self }
    }

    /// Sets `sale_order_state` (chainable).
    pub fn with_sale_order_state(self, value: EventSaleOrderState) -> (r: Self)
        ensures
            r == (Registration { sale_order_state: Some(value), ..self }),
    {
        Registration { sale_order_state: Some(value), ..self }
    }

    /// Sets `sale_status` (chainable).
    pub fn with_sale_status(self, value: EventSaleStatus) -> (r: Self)
        ensures
            r == (Registration { sale_status: Some(value), ..self }),
    {
        Registration { sale_status: Some(value), ..self }
    }

    /// The entity's type name.
    pub fn entity_type() -> (r: &'static str)
        ensures
            r@ == "Registration"@,
    {
        "Registration"
    }

    /// Applies one field of a partial update.
    pub fn apply_field(&mut self, key: &str, value: &PatchValue)
        ensures
            *final(self) == registration_field(*old(self), key@, *value),
    {
        if same_text(key, "event_id") {
            match value_uuid(value) {
                Some(y) => self.event_id = y,
                None => {},
            }
        } else if same_text(key, "event_slot_id") {
            match value_opt_uuid(value) {
                Some(y) => self.event_slot_id = y,
                None => {},
            }
        } else if same_text(key, "event_ticket_id") {
            match value_opt_uuid(value) {
                Some(y) => self.event_ticket_id = y,
                None => {},
            }
        } else if same_text(key, "name") {
            match value_text(value) {
                Some(y) => self.name = y,
                None => {},
            }
        } else if same_text(key, "email") {
            match value_text(value) {
                Some(y) => self.email = y,
                None => {},
            }
        } else if same_text(key, "phone") {
            match value_opt_text(value) {
                Some(y) => self.phone = y,
                None => {},
            }
        } else if same_text(key, "company_name") {
            match value_opt_text(value) {
                Some(y) => self.company_name = y,
                None => {},
            }
        } else if same_text(key, "partner_id") {
            match value_opt_uuid(value) {
                Some(y) => self.partner_id = y,
                None => {},
            }
        } else if same_text(key, "date_closed") {
            match value_opt_instant(value) {
                Some(y) => self.date_closed = y,
                None => {},
            }
        } else if same_text(key, "sale_order_id") {
            match value_opt_uuid(value) {
                Some(y) => self.sale_order_id = y,
                None => {},
            }
        } else if same_text(key, "sale_order_state") {
            match match value { PatchValue::Null => Some(None), PatchValue::Text(s) => match EventSaleOrderState::from_name(s.as_str()) { Some(e) => Some(Some(e)), None => None }, _ => None } {
                Some(y) => self.sale_order_state = y,
                None => {},
            }
        } else if same_text(key, "sale_status") {
            match match value { PatchValue::Null => Some(None), PatchValue::Text(s) => match EventSaleStatus::from_name(s.as_str()) { Some(e) => Some(Some(e)), None => None }, _ => None } {
                Some(y) => self.sale_status = y,
                None => {},
            }
        } else if same_text(key, "active") {
            match value_bool(value) {
                Some(y) => self.active = y,
                None => {},
            }
        } else if same_text(key, "barcode") {
            match value_text(value) {
                Some(y) => self.barcode = y,
                None => {},
            }
        }
    }

    /// Applies a partial update field by field, in order (unknown keys and
    /// values of the wrong shape are ignored).
    pub fn apply_patch(&mut self, fields: Vec<(String, PatchValue)>)
        ensures
            *final(self) == registration_patched(*old(self), fields@),
    {
        let mut i: usize = 0;
        while i < fields.len()
            invariant
                i <= fields.len(),
                *self == registration_patched(*old(self), fields@.take(i as int)),
            decreases fields.len() - i,
        {
            let (k, v) = &fields[i];
            self.apply_field(k.as_str(), v);
            proof {
                assert(fields@.take(i + 1).drop_last() =~= fields@.take(i as int));
                assert(fields@.take(i + 1).last() == fields@[i as int]);
            }
            i = i + 1;
        }
        assert(fields@.take(fields.len() as int) =~= fields@);
    }
}

/// The builder of a registration: `event_id`, `name`, `email`, `barcode` required; the state defaults to open, `active` to true.
#[derive(Debug, Clone)]
pub struct RegistrationBuilder {
    event_id: Option<u128>,
    event_slot_id: Option<u128>,
    event_ticket_id: Option<u128>,
    name: Option<String>,
    email: Option<String>,
    phone: Option<String>,
    company_name: Option<String>,
    partner_id: Option<u128>,
    state: Option<EventRegistrationState>,
    date_closed: Option<i64>,
    sale_order_id: Option<u128>,
    sale_order_state: Option<EventSaleOrderState>,
    sale_status: Option<EventSaleStatus>,
    active: Option<bool>,
    barcode: Option<String>,
}

impl Default for RegistrationBuilder {
    fn default() -> (r: Self)
        ensures
            r.event_id_value() is None,
            r.event_slot_id_value() is None,
            r.event_ticket_id_value() is None,
            r.name_value() is None,
            r.email_value() is None,
            r.phone_value() is None,
            r.company_name_value() is None,
            r.partner_id_value() is None,
            r.state_value() is None,
            r.date_closed_value() is None,
            r.sale_order_id_value() is None,
            r.sale_order_state_value() is None,
            r.sale_status_value() is None,
            r.active_value() is None,
            r.barcode_value() is None,
    {
        RegistrationBuilder { event_id: None, event_slot_id: None, event_ticket_id: None, name: None, email: None, phone: None, company_name: None, partner_id: None, state: None, date_closed: None, sale_order_id: None, sale_order_state: None, sale_status: None, active: None, barcode: None }
    }
}

impl RegistrationBuilder {
    /// The `event_id` set so far.
    pub closed spec fn event_id_value(self) -> Option<u128> {
        self.event_id
    }

    /// The `event_slot_id` set so far.
    pub closed spec fn event_slot_id_value(self) -> Option<u128> {
        self.event_slot_id
    }

    /// The `event_ticket_id` set so far.
    pub closed spec fn event_ticket_id_value(self) -> Option<u128> {
        self.event_ticket_id
    }

    /// The `name` set so far.
    pub closed spec fn name_value(self) -> Option<String> {
        self.name
    }

    /// The `email` set so far.
    pub closed spec fn email_value(self) -> Option<String> {
        self.email
    }

    /// The `phone` set so far.
    pub closed spec fn phone_value(self) -> Option<String> {
        self.phone
    }

    /// The `company_name` set so far.
    pub closed spec fn company_name_value(self) -> Option<String> {
        self.company_name
    }

    /// The `partner_id` set so far.
    pub closed spec fn partner_id_value(self) -> Option<u128> {
        self.partner_id
    }

    /// The `state` set so far.
    pub closed spec fn state_value(self) -> Option<EventRegistrationState> {
        self.state
    }

    /// The `date_closed` set so far.
    pub closed spec fn date_closed_value(self) -> Option<i64> {
        self.date_closed
    }

    /// The `sale_order_id` set so far.
    pub closed spec fn sale_order_id_value(self) -> Option<u128> {
        self.sale_order_id
    }

    /// The `sale_order_state` set so far.
    pub closed spec fn sale_order_state_value(self) -> Option<EventSaleOrderState> {
        self.sale_order_state
    }

    /// The `sale_status` set so far.
    pub closed spec fn sale_status_value(self) -> Option<EventSaleStatus> {
        self.sale_status
    }

    /// The `active` set so far.
    pub closed spec fn active_value(self) -> Option<bool> {
        self.active
    }

    /// The `barcode` set so far.
    pub closed spec fn barcode_value(self) -> Option<String> {
        self.barcode
    }

    /// Sets `event_id`.
    pub fn event_id(self, value: u128) -> (r: Self)
        ensures
            r.event_id_value() == Some(value),
            r.event_slot_id_value() == self.event_slot_id_value(),
            r.event_ticket_id_value() == self.event_ticket_id_value(),
            r.name_value() == self.name_value(),
            r.email_value() == self.email_value(),
            r.phone_value() == self.phone_value(),
            r.company_name_value() == self.company_name_value(),
            r.partner_id_value() == self.partner_id_value(),
            r.state_value() == self.state_value(),
            r.date_closed_value() == self.date_closed_value(),
            r.sale_order_id_value() == self.sale_order_id_value(),
            r.sale_order_state_value() == self.sale_order_state_value(),
            r.sale_status_value() == self.sale_status_value(),
            r.active_value() == self.active_value(),
            r.barcode_value() == self.barcode_value(),
    {
        RegistrationBuilder { event_id: Some(value), ..self }
    }

    /// Sets `event_slot_id`.
    pub fn event_slot_id(self, value: u128) -> (r: Self)
        ensures
            r.event_id_value() == self.event_id_value(),
            r.event_slot_id_value() == Some(value),
            r.event_ticket_id_value() == self.event_ticket_id_value(),
            r.name_value() == self.name_value(),
            r.email_value() == self.email_value(),
            r.phone_value() == self.phone_value(),
            r.company_name_value() == self.company_name_value(),
            r.partner_id_value() == self.partner_id_value(),
            r.state_value() == self.state_value(),
            r.date_closed_value() == self.date_closed_value(),
            r.sale_order_id_value() == self.sale_order_id_value(),
            r.sale_order_state_value() == self.sale_order_state_value(),
            r.sale_status_value() == self.sale_status_value(),
            r.active_value() == self.active_value(),
            r.barcode_value() == self.barcode_value(),
    {
        RegistrationBuilder { event_slot_id: Some(value), ..self }
    }

    /// Sets `event_ticket_id`.
    pub fn event_ticket_id(self, value: u128) -> (r: Self)
        ensures
            r.event_id_value() == self.event_id_value(),
            r.event_slot_id_value() == self.event_slot_id_value(),
            r.event_ticket_id_value() == Some(value),
            r.name_value() == self.name_value(),
            r.email_value() == self.email_value(),
            r.phone_value() == self.phone_value(),
            r.company_name_value() == self.company_name_value(),
            r.partner_id_value() == self.partner_id_value(),
            r.state_value() == self.state_value(),
            r.date_closed_value() == self.date_closed_value(),
            r.sale_order_id_value() == self.sale_order_id_value(),
            r.sale_order_state_value() == self.sale_order_state_value(),
            r.sale_status_value() == self.sale_status_value(),
            r.active_value() == self.active_value(),
            r.barcode_value() == self.barcode_value(),
    {
        RegistrationBuilder { event_ticket_id: Some(value), ..self }
    }

    /// Sets `name`.
    pub fn name(self, value: String) -> (r: Self)
        ensures
            r.event_id_value() == self.event_id_value(),
            r.event_slot_id_value() == self.event_slot_id_value(),
            r.event_ticket_id_value() == self.event_ticket_id_value(),
            r.name_value() == Some(value),
            r.email_value() == self.email_value(),
            r.phone_value() == self.phone_value(),
            r.company_name_value() == self.company_name_value(),
            r.partner_id_value() == self.partner_id_value(),
            r.state_value() == self.state_value(),
            r.date_closed_value() == self.date_closed_value(),
            r.sale_order_id_value() == self.sale_order_id_value(),
            r.sale_order_state_value() == self.sale_order_state_value(),
            r.sale_status_value() == self.sale_status_value(),
            r.active_value() == self.active_value(),
            r.barcode_value() == self.barcode_value(),
    {
        RegistrationBuilder { name: Some(value), ..self }
    }

    /// Sets `email`.
    pub fn email(self, value: String) -> (r: Self)
        ensures
            r.event_id_value() == self.event_id_value(),
            r.event_slot_id_value() == self.event_slot_id_value(),
            r.event_ticket_id_value() == self.event_ticket_id_value(),
            r.name_value() == self.name_value(),
            r.email_value() == Some(value),
            r.phone_value() == self.phone_value(),
            r.company_name_value() == self.company_name_value(),
            r.partner_id_value() == self.partner_id_value(),
            r.state_value() == self.state_value(),
            r.date_closed_value() == self.date_closed_value(),
            r.sale_order_id_value() == self.sale_order_id_value(),
            r.sale_order_state_value() == self.sale_order_state_value(),
            r.sale_status_value() == self.sale_status_value(),
            r.active_value() == self.active_value(),
            r.barcode_value() == self.barcode_value(),
    {
        RegistrationBuilder { email: Some(value), ..self }
    }

    /// Sets `phone`.
    pub fn phone(self, value: String) -> (r: Self)
        ensures
            r.event_id_value() == self.event_id_value(),
            r.event_slot_id_value() == self.event_slot_id_value(),
            r.event_ticket_id_value() == self.event_ticket_id_value(),
            r.name_value() == self.name_value(),
            r.email_value() == self.email_value(),
            r.phone_value() == Some(value),
            r.company_name_value() == self.company_name_value(),
            r.partner_id_value() == self.partner_id_value(),
            r.state_value() == self.state_value(),
            r.date_closed_value() == self.date_closed_value(),
            r.sale_order_id_value() == self.sale_order_id_value(),
            r.sale_order_state_value() == self.sale_order_state_value(),
            r.sale_status_value() == self.sale_status_value(),
            r.active_value() == self.active_value(),
            r.barcode_value() == self.barcode_value(),
    {
        RegistrationBuilder { phone: Some(value), ..self }
    }

    /// Sets `company_name`.
    pub fn company_name(self, value: String) -> (r: Self)
        ensures
            r.event_id_value() == self.event_id_value(),
            r.event_slot_id_value() == self.event_slot_id_value(),
            r.event_ticket_id_value() == self.event_ticket_id_value(),
            r.name_value() == self.name_value(),
            r.email_value() == self.email_value(),
            r.phone_value() == self.phone_value(),
            r.company_name_value() == Some(value),
            r.partner_id_value() == self.partner_id_value(),
            r.state_value() == self.state_value(),
            r.date_closed_value() == self.date_closed_value(),
            r.sale_order_id_value() == self.sale_order_id_value(),
            r.sale_order_state_value() == self.sale_order_state_value(),
            r.sale_status_value() == self.sale_status_value(),
            r.active_value() == self.active_value(),
            r.barcode_value() == self.barcode_value(),
    {
        RegistrationBuilder { company_name: Some(value), ..self }
    }

    /// Sets `partner_id`.
    pub fn partner_id(self, value: u128) -> (r: Self)
        ensures
            r.event_id_value() == self.event_id_value(),
            r.event_slot_id_value() == self.event_slot_id_value(),
            r.event_ticket_id_value() == self.event_ticket_id_value(),
            r.name_value() == self.name_value(),
            r.email_value() == self.email_value(),
            r.phone_value() == self.phone_value(),
            r.company_name_value() == self.company_name_value(),
            r.partner_id_value() == Some(value),
            r.state_value() == self.state_value(),
            r.date_closed_value() == self.date_closed_value(),
            r.sale_order_id_value() == self.sale_order_id_value(),
            r.sale_order_state_value() == self.sale_order_state_value(),
            r.sale_status_value() == self.sale_status_value(),
            r.active_value() == self.active_value(),
            r.barcode_value() == self.barcode_value(),
    {
        RegistrationBuilder { partner_id: Some(value), ..self }
    }

    /// Sets `state`.
    pub fn state(self, value: EventRegistrationState) -> (r: Self)
        ensures
            r.event_id_value() == self.event_id_value(),
            r.event_slot_id_value() == self.event_slot_id_value(),
            r.event_ticket_id_value() == self.event_ticket_id_value(),
            r.name_value() == self.name_value(),
            r.email_value() == self.email_value(),
            r.phone_value() == self.phone_value(),
            r.company_name_value() == self.company_name_value(),
            r.partner_id_value() == self.partner_id_value(),
            r.state_value() == Some(value),
            r.date_closed_value() == self.date_closed_value(),
            r.sale_order_id_value() == self.sale_order_id_value(),
            r.sale_order_state_value() == self.sale_order_state_value(),
            r.sale_status_value() == self.sale_status_value(),
            r.active_value() == self.active_value(),
            r.barcode_value() == self.barcode_value(),
    {
        RegistrationBuilder { state: Some(value), ..self }
    }

    /// Sets `date_closed`.
    pub fn date_closed(self, value: i64) -> (r: Self)
        ensures
            r.event_id_value() == self.event_id_value(),
            r.event_slot_id_value() == self.event_slot_id_value(),
            r.event_ticket_id_value() == self.event_ticket_id_value(),
            r.name_value() == self.name_value(),
            r.email_value() == self.email_value(),
            r.phone_value() == self.phone_value(),
            r.company_name_value() == self.company_name_value(),
            r.partner_id_value() == self.partner_id_value(),
            r.state_value() == self.state_value(),
            r.date_closed_value() == Some(value),
            r.sale_order_id_value() == self.sale_order_id_value(),
            r.sale_order_state_value() == self.sale_order_state_value(),
            r.sale_status_value() == self.sale_status_value(),
            r.active_value() == self.active_value(),
            r.barcode_value() == self.barcode_value(),
    {
        RegistrationBuilder { date_closed: Some(value), ..self }
    }

    /// Sets `sale_order_id`.
    pub fn sale_order_id(self, value: u128) -> (r: Self)
        ensures
            r.event_id_value() == self.event_id_value(),
            r.event_slot_id_value() == self.event_slot_id_value(),
            r.event_ticket_id_value() == self.event_ticket_id_value(),
            r.name_value() == self.name_value(),
            r.email_value() == self.email_value(),
            r.phone_value() == self.phone_value(),
            r.company_name_value() == self.company_name_value(),
            r.partner_id_value() == self.partner_id_value(),
            r.state_value() == self.state_value(),
            r.date_closed_value() == self.date_closed_value(),
            r.sale_order_id_value() == Some(value),
            r.sale_order_state_value() == self.sale_order_state_value(),
            r.sale_status_value() == self.sale_status_value(),
            r.active_value() == self.active_value(),
            r.barcode_value() == self.barcode_value(),
    {
        RegistrationBuilder { sale_order_id: Some(value), ..self }
    }

    /// Sets `sale_order_state`.
    pub fn sale_order_state(self, value: EventSaleOrderState) -> (r: Self)
        ensures
            r.event_id_value() == self.event_id_value(),
            r.event_slot_id_value() == self.event_slot_id_value(),
            r.event_ticket_id_value() == self.event_ticket_id_value(),
            r.name_value() == self.name_value(),
            r.email_value() == self.email_value(),
            r.phone_value() == self.phone_value(),
            r.company_name_value() == self.company_name_value(),
            r.partner_id_value() == self.partner_id_value(),
            r.state_value() == self.state_value(),
            r.date_closed_value() == self.date_closed_value(),
            r.sale_order_id_value() == self.sale_order_id_value(),
            r.sale_order_state_value() == Some(value),
            r.sale_status_value() == self.sale_status_value(),
            r.active_value() == self.active_value(),
            r.barcode_value() == self.barcode_value(),
    {
        RegistrationBuilder { sale_order_state: Some(value), ..self }
    }

    /// Sets `sale_status`.
    pub fn sale_status(self, value: EventSaleStatus) -> (r: Self)
        ensures
            r.event_id_value() == self.event_id_value(),
            r.event_slot_id_value() == self.event_slot_id_value(),
            r.event_ticket_id_value() == self.event_ticket_id_value(),
            r.name_value() == self.name_value(),
            r.email_value() == self.email_value(),
            r.phone_value() == self.phone_value(),
            r.company_name_value() == self.company_name_value(),
            r.partner_id_value() == self.partner_id_value(),
            r.state_value() == self.state_value(),
            r.date_closed_value() == self.date_closed_value(),
            r.sale_order_id_value() == self.sale_order_id_value(),
            r.sale_order_state_value() == self.sale_order_state_value(),
            r.sale_status_value() == Some(value),
            r.active_value() == self.active_value(),
            r.barcode_value() == self.barcode_value(),
    {
        RegistrationBuilder { sale_status: Some(value), ..self }
    }

    /// Sets `active`.
    pub fn active(self, value: bool) -> (r: Self)
        ensures
            r.event_id_value() == self.event_id_value(),
            r.event_slot_id_value() == self.event_slot_id_value(),
            r.event_ticket_id_value() == self.event_ticket_id_value(),
            r.name_value() == self.name_value(),
            r.email_value() == self.email_value(),
            r.phone_value() == self.phone_value(),
            r.company_name_value() == self.company_name_value(),
            r.partner_id_value() == self.partner_id_value(),
            r.state_value() == self.state_value(),
            r.date_closed_value() == self.date_closed_value(),
            r.sale_order_id_value() == self.sale_order_id_value(),
            r.sale_order_state_value() == self.sale_order_state_value(),
            r.sale_status_value() == self.sale_status_value(),
            r.active_value() == Some(value),
            r.barcode_value() == self.barcode_value(),
    {
        RegistrationBuilder { active: Some(value), ..self }
    }

    /// Sets `barcode`.
    pub fn barcode(self, value: String) -> (r: Self)
        ensures
            r.event_id_value() == self.event_id_value(),
            r.event_slot_id_value() == self.event_slot_id_value(),
            r.event_ticket_id_value() == self.event_ticket_id_value(),
            r.name_value() == self.name_value(),
            r.email_value() == self.email_value(),
            r.phone_value() == self.phone_value(),
            r.company_name_value() == self.company_name_value(),
            r.partner_id_value() == self.partner_id_value(),
            r.state_value() == self.state_value(),
            r.date_closed_value() == self.date_closed_value(),
            r.sale_order_id_value() == self.sale_order_id_value(),
            r.sale_order_state_value() == self.sale_order_state_value(),
            r.sale_status_value() == self.sale_status_value(),
            r.active_value() == self.active_value(),
            r.barcode_value() == Some(value),
    {
        RegistrationBuilder { barcode: Some(value), ..self }
    }

    /// Builds the registration: refused with `<field> is required` for the first
    /// required field not set; otherwise the set values, the defaults, a
    /// fresh identifier and empty audit metadata.
    pub fn build(self) -> (r: Result<Registration, String>)
        ensures
            self.event_id_value() is None ==> r.is_err() && r->Err_0@ == "event_id is required"@,
            self.event_id_value() is Some && self.name_value() is None ==> r.is_err() && r->Err_0@ == "name is required"@,
            self.event_id_value() is Some && self.name_value() is Some && self.email_value() is None ==> r.is_err() && r->Err_0@ == "email is required"@,
            self.event_id_value() is Some && self.name_value() is Some && self.email_value() is Some && self.barcode_value() is None ==> r.is_err() && r->Err_0@ == "barcode is required"@,
            self.event_id_value() is Some && self.name_value() is Some && self.email_value() is Some && self.barcode_value() is Some ==> r.is_ok() && {
                let x = r->Ok_0;
                &&& x.event_id == self.event_id_value()->0
                &&& x.event_slot_id == self.event_slot_id_value()
                &&& x.event_ticket_id == self.event_ticket_id_value()
                &&& x.name == self.name_value()->0
                &&& x.email == self.email_value()->0
                &&& x.phone == self.phone_value()
                &&& x.company_name == self.company_name_value()
                &&& x.partner_id == self.partner_id_value()
                &&& x.state == match self.state_value() { Some(y) => y, None => EventRegistrationState::Open }
                &&& x.date_closed == self.date_closed_value()
                &&& x.sale_order_id == self.sale_order_id_value()
                &&& x.sale_order_state == self.sale_order_state_value()
                &&& x.sale_status == self.sale_status_value()
                &&& x.active == match self.active_value() { Some(y) => y, None => true }
                &&& x.barcode == self.barcode_value()->0
                &&& x.metadata == AuditMetadata::empty()
            },
    {
        let event_id = match self.event_id {
            Some(y) => y,
            None => return Err(string_of(&chars_of("event_id is required"))),
        };
        let name = match self.name {
            Some(y) => y,
            None => return Err(string_of(&chars_of("name is required"))),
        };
        let email = match self.email {
            Some(y) => y,
            None => return Err(string_of(&chars_of("email is required"))),
        };
        let barcode = match self.barcode {
            Some(y) => y,
            None => return Err(string_of(&chars_of("barcode is required"))),
        };
        Ok(Registration {
            id: fresh_uuid(),
            event_id,
            event_slot_id: self.event_slot_id,
            event_ticket_id: self.event_ticket_id,
            name,
            email,
            phone: self.phone,
            company_name: self.company_name,
            partner_id: self.partner_id,
            state: match self.state { Some(y) => y, None => EventRegistrationState::Open },
            date_closed: self.date_closed,
            sale_order_id: self.sale_order_id,
            sale_order_state: self.sale_order_state,
            sale_status: self.sale_status,
            active: match self.active { Some(y) => y, None => true },
            barcode,
            metadata: AuditMetadata::new(),
        })
    }
}

} // verus!
