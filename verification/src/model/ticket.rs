//! A ticket type of an event.

use vstd::prelude::*;
use crate::entity::{AuditMetadata, PatchValue, i32_of, opt_instant_of, opt_uuid_of, text_of, uuid_of, value_i32, value_opt_instant, value_opt_uuid, value_text, value_uuid};
use crate::ids::fresh_uuid;
use crate::text::{chars_of, string_of, same_text};

verus! {

/// The typed identifier of a ticket.
#[derive(Debug, Clone, Copy, PartialEq, Eq, Structural)]
pub struct TicketId(pub u128);

impl TicketId {
    /// Wraps an identifier.
    pub fn new(id: u128) -> (r: Self)
        ensures
            r.0 == id,
    {
        TicketId(id)
    }

    /// A fresh random identifier (nothing is claimed of its value).
    pub fn generate() -> (r: Self) {
        TicketId(fresh_uuid())
    }

    /// The wrapped identifier.
    pub fn into_inner(self) -> (r: u128)
        ensures
            r == self.0,
    {
        self.0
    }
}

/// A ticket type of an event.
#[derive(Debug, Clone)]
pub struct Ticket {
    pub id: u128,
    pub event_id: u128,
    pub name: String,
    pub seats_max: i32,
    pub seats_max_per_order: i32,
    pub start_sale_datetime: Option<i64>,
    pub end_sale_datetime: Option<i64>,
    pub product_id: Option<u128>,
    pub metadata: AuditMetadata,
}

/// One field of a partial update applied to a ticket: `event_id`, `name`, `seats_max`, `seats_max_per_order`, `start_sale_datetime`, `end_sale_datetime`, `product_id` take a value of their own type; any other key, or a value of the wrong shape, changes nothing.
pub open spec fn ticket_field(x: Ticket, key: Seq<char>, v: PatchValue) -> Ticket {
    if key == "event_id"@ {
        match uuid_of(v) {
            Some(y) => Ticket { event_id: y, ..x },
            None => x,
        }
    } else if key == "name"@ {
        match text_of(v) {
            Some(y) => Ticket { name: y, ..x },
            None => x,
        }
    } else if key == "seats_max"@ {
        match i32_of(v) {
            Some(y) => Ticket { seats_max: y, ..x },
            None => x,
        }
    } else if key == "seats_max_per_order"@ {
        match i32_of(v) {
            Some(y) => Ticket { seats_max_per_order: y, ..x },
            None => x,
        }
    } else if key == "start_sale_datetime"@ {
        match opt_instant_of(v) {
            Some(y) => Ticket { start_sale_datetime: y, ..x },
            None => x,
        }
    } else if key == "end_sale_datetime"@ {
        match opt_instant_of(v) {
            Some(y) => Ticket { end_sale_datetime: y, ..x },
            None => x,
        }
    } else if key == "product_id"@ {
        match opt_uuid_of(v) {
            Some(y) => Ticket { product_id: y, ..x },
            None => x,
        }
    } else {
        x
    }
}

/// A partial update applied field by field, in order.
pub open spec fn ticket_patched(x: Ticket, fields: Seq<(String, PatchValue)>) -> Ticket
    decreases fields.len(),
{
    if fields.len() == 0 {
        x
    } else {
        ticket_field(ticket_patched(x, fields.drop_last()), fields.last().0@, fields.last().1)
    }
}

/// A partial update never touches the identifier or the audit metadata.
pub proof fn lemma_patch_keeps_identity(x: Ticket, fields: Seq<(String, PatchValue)>)
    ensures
        ticket_patched(x, fields).id == x.id,
        ticket_patched(x, fields).metadata == x.metadata,
    decreases fields.len(),
{
    if fields.len() > 0 {
        lemma_patch_keeps_identity(x, fields.drop_last());
    }
}

impl Ticket {
    /// A builder with nothing set.
    pub fn builder() -> (r: TicketBuilder)
        ensures
            r.event_id_value() is None,
            r.name_value() is None,
            r.seats_max_value() is None,
            r.seats_max_per_order_value() is None,
            r.start_sale_datetime_value() is None,
            r.end_sale_datetime_value() is None,
            r.product_id_value() is None,
    {
        TicketBuilder::default()
    }

    /// A ticket with the given fields, the others unset, a fresh identifier and empty audit metadata.
    pub fn new(event_id: u128, name: String, seats_max: i32, seats_max_per_order: i32) -> (r: Self)
        ensures
            r.event_id == event_id,
            r.name == name,
            r.seats_max == seats_max,
            r.seats_max_per_order == seats_max_per_order,
            r.start_sale_datetime is None,
            r.end_sale_datetime is None,
            r.product_id is None,
            r.metadata == AuditMetadata::empty(),
    {
        Ticket {
            id: fresh_uuid(),
            event_id,
            name,
            seats_max,
            seats_max_per_order,
            start_sale_datetime: None,
            end_sale_datetime: None,
            product_id: None,
            metadata: AuditMetadata::new(),
        }
    }

    /// The identifier.
    pub fn id(&self) -> (r: u128)
        ensures
            r == self.id,
    {
        self.id
    }

    /// The typed identifier.
    pub fn typed_id(&self) -> (r: TicketId)
        ensures
            r.0 == self.id,
    {
        TicketId(self.id)
    }

    /// When the ticket was created.
    pub fn created_at(&self) -> (r: Option<i64>)
        ensures
            r == self.metadata.created_at,
    {
        self.metadata.created_at
    }

    /// When the ticket was last updated.
    pub fn updated_at(&self) -> (r: Option<i64>)
        ensures
            r == self.metadata.updated_at,
    {
        self.metadata.updated_at
    }

    /// Whether the ticket is soft-deleted.
    pub fn is_deleted(&self) -> (r: bool)
        ensures
            r == self.metadata.deleted_at.is_some(),
    {
        self.metadata.deleted_at.is_some()
    }

    /// Whether the ticket is not soft-deleted.
    pub fn is_active(&self) -> (r: bool)
        ensures
            r == self.metadata.deleted_at.is_none(),
    {
        self.metadata.deleted_at.is_none()
    }

    /// When the ticket was deleted.
    pub fn deleted_at(&self) -> (r: Option<i64>)
        ensures
            r == self.metadata.deleted_at,
    {
        self.metadata.deleted_at
    }

    /// Who created the ticket.
    pub fn created_by(&self) -> (r: Option<u128>)
        ensures
            r == self.metadata.created_by,
    {
        self.metadata.created_by
    }

    /// Who last updated the ticket.
    pub fn updated_by(&self) -> (r: Option<u128>)
        ensures
            r == self.metadata.updated_by,
    {
        self.metadata.updated_by
    }

    /// Who deleted the ticket.
    pub fn deleted_by(&self) -> (r: Option<u128>)
        ensures
            r == self.metadata.deleted_by,
    {
        self.metadata.deleted_by
    }

    /// Sets `start_sale_datetime` (chainable).
    pub fn with_start_sale_datetime(self, value: i64) -> (r: Self)
        ensures
            r == (Ticket { start_sale_datetime: Some(value), ..self }),
    {
        Ticket { start_sale_datetime: Some(value), ..self }
    }

    /// Sets `end_sale_datetime` (chainable).
    pub fn with_end_sale_datetime(self, value: i64) -> (r: Self)
        ensures
            r == (Ticket { end_sale_datetime: Some(value), ..self }),
    {
        Ticket { end_sale_datetime: Some(value), ..self }
    }

    /// Sets `product_id` (chainable).
    pub fn with_product_id(self, value: u128) -> (r: Self)
        ensures
            r == (Ticket { product_id: Some(value), ..self }),
    {
        Ticket { product_id: Some(value), ..self }
    }

    /// The entity's type name.
    pub fn entity_type() -> (r: &'static str)
        ensures
            r@ == "Ticket"@,
    {
        "Ticket"
    }

    /// Applies one field of a partial update.
    pub fn apply_field(&mut self, key: &str, value: &PatchValue)
        ensures
            *final(self) == ticket_field(*old(self), key@, *value),
    {
        if same_text(key, "event_id") {
            match value_uuid(value) {
                Some(y) => self.event_id = y,
                None => {},
            }
        } else if same_text(key, "name") {
            match value_text(value) {
                Some(y) => self.name = y,
                None => {},
            }
        } else if same_text(key, "seats_max") {
            match value_i32(value) {
                Some(y) => self.seats_max = y,
                None => {},
            }
        } else if same_text(key, "seats_max_per_order") {
            match value_i32(value) {
                Some(y) => self.seats_max_per_order = y,
                None => {},
            }
        } else if same_text(key, "start_sale_datetime") {
            match value_opt_instant(value) {
                Some(y) => self.start_sale_datetime = y,
                None => {},
            }
        } else if same_text(key, "end_sale_datetime") {
            match value_opt_instant(value) {
                Some(y) => self.end_sale_datetime = y,
                None => {},
            }
        } else if same_text(key, "product_id") {
            match value_opt_uuid(value) {
                Some(y) => self.product_id = y,
                None => {},
            }
        }
    }

    /// Applies a partial update field by field, in order (unknown keys and
    /// values of the wrong shape are ignored).
    pub fn apply_patch(&mut self, fields: Vec<(String, PatchValue)>)
        ensures
            *final(self) == ticket_patched(*old(self), fields@),
    {
        let mut i: usize = 0;
        while i < fields.len()
            invariant
                i <= fields.len(),
                *self == ticket_patched(*old(self), fields@.take(i as int)),
            decreases fields.len() - i,
        {
            let (k, v) = &fields[i];
            self.apply_field(k.as_str(), v);
            proof {
                assert(fields@.take(i + 1).drop_last() =~= fields@.take(i as int));
                assert(fields@.take(i + 1).last() == fields@[i as int]);
            }
            i = i + 1;
        }
        assert(fields@.take(fields.len() as int) =~= fields@);
    }
}

/// The builder of a ticket: `event_id`, `name` required; the seat caps default to 0.
#[derive(Debug, Clone)]
pub struct TicketBuilder {
    event_id: Option<u128>,
    name: Option<String>,
    seats_max: Option<i32>,
    seats_max_per_order: Option<i32>,
    start_sale_datetime: Option<i64>,
    end_sale_datetime: Option<i64>,
    product_id: Option<u128>,
}

impl Default for TicketBuilder {
    fn default() -> (r: Self)
        ensures
            r.event_id_value() is None,
            r.name_value() is None,
            r.seats_max_value() is None,
            r.seats_max_per_order_value() is None,
            r.start_sale_datetime_value() is None,
            r.end_sale_datetime_value() is None,
            r.product_id_value() is None,
    {
        TicketBuilder { event_id: None, name: None, seats_max: None, seats_max_per_order: None, start_sale_datetime: None, end_sale_datetime: None, product_id: None }
    }
}

impl TicketBuilder {
    /// The `event_id` set so far.
    pub closed spec fn event_id_value(self) -> Option<u128> {
        self.event_id
    }

    /// The `name` set so far.
    pub closed spec fn name_value(self) -> Option<String> {
        self.name
    }

    /// The `seats_max` set so far.
    pub closed spec fn seats_max_value(self) -> Option<i32> {
        self.seats_max
    }

    /// The `seats_max_per_order` set so far.
    pub closed spec fn seats_max_per_order_value(self) -> Option<i32> {
        self.seats_max_per_order
    }

    /// The `start_sale_datetime` set so far.
    pub closed spec fn start_sale_datetime_value(self) -> Option<i64> {
        self.start_sale_datetime
    }

    /// The `end_sale_datetime` set so far.
    pub closed spec fn end_sale_datetime_value(self) -> Option<i64> {
        self.end_sale_datetime
    }

    /// The `product_id` set so far.
    pub closed spec fn product_id_value(self) -> Option<u128> {
        self.product_id
    }

    /// Sets `event_id`.
    pub fn event_id(self, value: u128) -> (r: Self)
        ensures
            r.event_id_value() == Some(value),
            r.name_value() == self.name_value(),
            r.seats_max_value() == self.seats_max_value(),
            r.seats_max_per_order_value() == self.seats_max_per_order_value(),
            r.start_sale_datetime_value() == self.start_sale_datetime_value(),
            r.end_sale_datetime_value() == self.end_sale_datetime_value(),
            r.product_id_value() == self.product_id_value(),
    {
        TicketBuilder { event_id: Some(value), ..self }
    }

    /// Sets `name`.
    pub fn name(self, value: String) -> (r: Self)
        ensures
            r.event_id_value() == self.event_id_value(),
            r.name_value() == Some(value),
            r.seats_max_value() == self.seats_max_value(),
            r.seats_max_per_order_value() == self.seats_max_per_order_value(),
            r.start_sale_datetime_value() == self.start_sale_datetime_value(),
            r.end_sale_datetime_value() == self.end_sale_datetime_value(),
            r.product_id_value() == self.product_id_value(),
    {
        TicketBuilder { name: Some(value), ..self }
    }

    /// Sets `seats_max`.
    pub fn seats_max(self, value: i32) -> (r: Self)
        ensures
            r.event_id_value() == self.event_id_value(),
            r.name_value() == self.name_value(),
            r.seats_max_value() == Some(value),
            r.seats_max_per_order_value() == self.seats_max_per_order_value(),
            r.start_sale_datetime_value() == self.start_sale_datetime_value(),
            r.end_sale_datetime_value() == self.end_sale_datetime_value(),
            r.product_id_value() == self.product_id_value(),
    {
        TicketBuilder { seats_max: Some(value), ..self }
    }

    /// Sets `seats_max_per_order`.
    pub fn seats_max_per_order(self, value: i32) -> (r: Self)
        ensures
            r.event_id_value() == self.event_id_value(),
            r.name_value() == self.name_value(),
            r.seats_max_value() == self.seats_max_value(),
            r.seats_max_per_order_value() == Some(value),
            r.start_sale_datetime_value() == self.start_sale_datetime_value(),
            r.end_sale_datetime_value() == self.end_sale_datetime_value(),
            r.product_id_value() == self.product_id_value(),
    {
        TicketBuilder { seats_max_per_order: Some(value), ..self }
    }

    /// Sets `start_sale_datetime`.
    pub fn start_sale_datetime(self, value: i64) -> (r: Self)
        ensures
            r.event_id_value() == self.event_id_value(),
            r.name_value() == self.name_value(),
            r.seats_max_value() == self.seats_max_value(),
            r.seats_max_per_order_value() == self.seats_max_per_order_value(),
            r.start_sale_datetime_value() == Some(value),
            r.end_sale_datetime_value() == self.end_sale_datetime_value(),
            r.product_id_value() == self.product_id_value(),
    {
        TicketBuilder { start_sale_datetime: Some(value), ..self }
    }

    /// Sets `end_sale_datetime`.
    pub fn end_sale_datetime(self, value: i64) -> (r: Self)
        ensures
            r.event_id_value() == self.event_id_value(),
            r.name_value() == self.name_value(),
            r.seats_max_value() == self.seats_max_value(),
            r.seats_max_per_order_value() == self.seats_max_per_order_value(),
            r.start_sale_datetime_value() == self.start_sale_datetime_value(),
            r.end_sale_datetime_value() == Some(value),
            r.product_id_value() == self.product_id_value(),
    {
        TicketBuilder { end_sale_datetime: Some(value), ..self }
    }

    /// Sets `product_id`.
    pub fn product_id(self, value: u128) -> (r: Self)
        ensures
            r.event_id_value() == self.event_id_value(),
            r.name_value() == self.name_value(),
            r.seats_max_value() == self.seats_max_value(),
            r.seats_max_per_order_value() == self.seats_max_per_order_value(),
            r.start_sale_datetime_value() == self.start_sale_datetime_value(),
            r.end_sale_datetime_value() == self.end_sale_datetime_value(),
            r.product_id_value() == Some(value),
    {
        TicketBuilder { product_id: Some(value), ..self }
    }

    /// Builds the ticket: refused with `<field> is required` for the first
    /// required field not set; otherwise the set values, the defaults, a
    /// fresh identifier and empty audit metadata.
    pub fn build(self) -> (r: Result<Ticket, String>)
        ensures
            self.event_id_value() is None ==> r.is_err() && r->Err_0@ == "event_id is required"@,
            self.event_id_value() is Some && self.name_value() is None ==> r.is_err() && r->Err_0@ == "name is required"@,
            self.event_id_value() is Some && self.name_value() is Some ==> r.is_ok() && {
                let x = r->Ok_0;
                &&& x.event_id == self.event_id_value()->0
                &&& x.name == self.name_value()->0
                &&& x.seats_max == match self.seats_max_value() { Some(y) => y, None => 0i32 }
                &&& x.seats_max_per_order == match self.seats_max_per_order_value() { Some(y) => y, None => 0i32 }
                &&& x.start_sale_datetime == self.start_sale_datetime_value()
                &&& x.end_sale_datetime == self.end_sale_datetime_value()
                &&& x.product_id == self.product_id_value()
                &&& x.metadata == AuditMetadata::empty()
            },
    {
        let event_id = match self.event_id {
            Some(y) => y,
            None => return Err(string_of(&chars_of("event_id is required"))),
        };
        let name = match self.name {
            Some(y) => y,
            None => return Err(string_of(&chars_of("name is required"))),
        };
        Ok(Ticket {
            id: fresh_uuid(),
            event_id,
            name,
            seats_max: match self.seats_max { Some(y) => y, None => 0i32 },
            seats_max_per_order: match self.seats_max_per_order { Some(y) => y, None => 0i32 },
            start_sale_datetime: self.start_sale_datetime,
            end_sale_datetime: self.end_sale_datetime,
            product_id: self.product_id,
            metadata: AuditMetadata::new(),
        })
    }
}

} // verus!
