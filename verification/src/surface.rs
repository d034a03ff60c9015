//! The exported surface's read shapes and the capability mint scope.

use vstd::prelude::*;
use crate::capability::{CapabilityClaims, ics_capability_claims, ticket_report_capability_claims, texts_view, id_texts,
    PURPOSE_ICS, PURPOSE_TICKET_REPORT};
use crate::ids::uuid_text_spec;
use crate::text::texts_sorted;
use crate::rows::{EventRow, RegistrationRow};

verus! {

/// The publication-state read (the capability surface's gate).
#[derive(Debug, Clone)]
pub struct PublicationState {
    pub event_id: u128,
    pub is_published: bool,
    pub kanban_state: String,
    pub date_publish: Option<i64>,
}

/// The registration's pair read: the hand-set state and the sale-composed
/// axis in one shape.
#[derive(Debug, Clone)]
pub struct RegistrationStateView {
    pub registration_id: u128,
    pub state: String,
    pub sale_order_id: Option<u128>,
    pub sale_order_state: Option<String>,
    pub sale_status: Option<String>,
    pub active: bool,
}

/// The capability mint scope: one event, optionally slot-scoped.
#[derive(Debug, Clone)]
pub enum CapabilityScope {
    /// The calendar feed, expiring `ttl_secs` after the mint.
    Ics { event_id: u128, slot_id: Option<u128>, ttl_secs: i64 },
    /// The attendee ticket report (never expiring; pins the registrations).
    TicketReport { event_id: u128, registration_ids: Vec<u128> },
}

/// The publication state of an event row, as read for `event_id`.
pub fn publication_state_of(event_id: u128, row: &EventRow) -> (r: PublicationState)
    ensures
        r.event_id == event_id,
        r.is_published == row.is_published,
        r.kanban_state == row.kanban_state,
        r.date_publish == row.date_publish,
{
    PublicationState {
        event_id,
        is_published: row.is_published,
        kanban_state: row.kanban_state.clone(),
        date_publish: row.date_publish,
    }
}

/// The pair read of a registration row.
pub fn registration_state_of(row: &RegistrationRow) -> (r: RegistrationStateView)
    ensures
        r.registration_id == row.id,
        r.state == row.state,
        r.sale_order_id == row.sale_order_id,
        r.sale_order_state == row.sale_order_state,
        r.sale_status == row.sale_status,
        r.active == row.active,
{
    RegistrationStateView {
        registration_id: row.id,
        state: row.state.clone(),
        sale_order_id: row.sale_order_id,
        sale_order_state: row.sale_order_state.clone(),
        sale_status: row.sale_status.clone(),
        active: row.active,
    }
}

/// The claims a scope mints at `now_secs`: the calendar claims of the event
/// (and slot) expiring after the TTL, or the ticket-report claims of the
/// event and its registrations.
pub fn scope_claims(scope: &CapabilityScope, now_secs: i64) -> (r: CapabilityClaims)
    requires
        scope matches CapabilityScope::Ics { ttl_secs, .. } ==> i64::MIN <= now_secs + *ttl_secs <= i64::MAX,
    ensures
        match scope {
            CapabilityScope::Ics { event_id, slot_id, ttl_secs } => {
                &&& r.purpose@ == PURPOSE_ICS@
                &&& r.exp == now_secs + *ttl_secs
                &&& texts_view(r.data@) == match slot_id {
                    Some(slot) => seq![uuid_text_spec(*event_id), uuid_text_spec(*slot)],
                    None => seq![uuid_text_spec(*event_id)],
                }
            },
            CapabilityScope::TicketReport { event_id, registration_ids } => {
                &&& r.purpose@ == PURPOSE_TICKET_REPORT@
                &&& r.exp == 0
                &&& r.data@.len() == registration_ids@.len() + 1
                &&& texts_view(r.data@)[0] == uuid_text_spec(*event_id)
                &&& texts_sorted(texts_view(r.data@).drop_first())
                &&& texts_view(r.data@).drop_first().to_multiset() == id_texts(registration_ids@).to_multiset()
            },
        },
{
    match scope {
        CapabilityScope::Ics { event_id, slot_id, ttl_secs } => ics_capability_claims(*event_id, *slot_id, now_secs, *ttl_secs),
        CapabilityScope::TicketReport { event_id, registration_ids } => ticket_report_capability_claims(
            *event_id,
            registration_ids.as_slice(),
        ),
    }
}

} // verus!
