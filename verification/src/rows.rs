//! The row shapes the verbs read and return, with identifiers as `u128` and
//! instants as microseconds since the Unix epoch.

use vstd::prelude::*;

verus! {

/// One event row.
#[derive(Debug, Clone)]
pub struct EventRow {
    pub id: u128,
    pub name: String,
    pub event_type_id: Option<u128>,
    pub stage_id: u128,
    pub kanban_state: String,
    pub date_begin: i64,
    pub date_end: i64,
    pub date_tz: String,
    pub is_multi_slots: bool,
    pub event_slot_count: i32,
    pub seats_limited: bool,
    pub seats_max: i32,
    pub company_id: Option<u128>,
    pub badge_format: String,
    pub is_published: bool,
    pub date_publish: Option<i64>,
}

/// One registration row.
#[derive(Debug, Clone)]
pub struct RegistrationRow {
    pub id: u128,
    pub event_id: u128,
    pub event_slot_id: Option<u128>,
    pub event_ticket_id: Option<u128>,
    pub name: String,
    pub email: String,
    pub phone: Option<String>,
    pub company_name: Option<String>,
    pub partner_id: Option<u128>,
    pub state: String,
    pub date_closed: Option<i64>,
    pub sale_order_id: Option<u128>,
    pub sale_order_state: Option<String>,
    pub sale_status: Option<String>,
    pub active: bool,
    pub barcode: String,
    pub company_id: Option<u128>,
}

/// The command of the one register verb.
#[derive(Debug, Clone)]
pub struct RegisterCommand {
    pub event_id: u128,
    pub event_slot_id: Option<u128>,
    pub event_ticket_id: Option<u128>,
    pub name: String,
    pub email: String,
    pub phone: Option<String>,
    pub company_name: Option<String>,
    pub partner_id: Option<u128>,
    pub actor: Option<u128>,
    /// The bulk-import exemption: skip arming the lead queue.
    pub lead_rule_skip: bool,
}

/// The sale linkage a minted registration is born with.
#[derive(Debug, Clone)]
pub struct SaleLink {
    pub sale_order_id: u128,
    pub sale_order_state: String,
    pub sale_status: String,
    pub initial_state: String,
}

/// One booth row.
#[derive(Debug, Clone)]
pub struct BoothRow {
    pub id: u128,
    pub event_id: u128,
    pub booth_category_id: u128,
    pub name: String,
    pub state: String,
    pub partner_id: Option<u128>,
    pub contact_name: Option<String>,
    pub contact_email: Option<String>,
    pub contact_phone: Option<String>,
    pub sale_order_line_id: Option<u128>,
    pub is_paid: bool,
}

/// One booth booking row.
#[derive(Debug, Clone)]
pub struct BoothBookingRow {
    pub id: u128,
    pub event_booth_id: u128,
    pub sale_order_line_id: Option<u128>,
    pub status: String,
    pub partner_id: Option<u128>,
    pub contact_name: Option<String>,
    pub contact_email: Option<String>,
    pub contact_phone: Option<String>,
}

/// One scheduler row.
#[derive(Debug, Clone)]
pub struct SchedulerRow {
    pub id: u128,
    pub event_id: u128,
    pub interval_nbr: i32,
    pub interval_unit: String,
    pub interval_kind: String,
    pub notification_channel: String,
    pub template_ref: Option<u128>,
    pub template_kind: Option<String>,
    pub mail_done: bool,
    pub last_registration_id: Option<u128>,
}

/// One due receipt of a scheduler.
#[derive(Debug, Clone)]
pub struct DueReceipt {
    pub receipt_id: u128,
    pub registration_id: u128,
    pub attendee_name: String,
    pub attendee_email: String,
    pub attendee_phone: Option<String>,
    pub barcode: String,
    pub scheduled_date: Option<i64>,
}

/// One lead rule row.
#[derive(Debug, Clone)]
pub struct LeadRuleRow {
    pub id: u128,
    pub name: String,
    pub event_id: Option<u128>,
    pub basis: String,
    pub on_create: bool,
    pub on_confirm: bool,
    pub on_done: bool,
    pub active: bool,
}

/// One typed lead predicate row.
#[derive(Debug, Clone)]
pub struct LeadPredicateRow {
    pub id: u128,
    pub rule_id: u128,
    pub axis: String,
    pub question_id: Option<u128>,
    pub value_ids: Vec<u128>,
}

/// One lead queue row.
#[derive(Debug, Clone)]
pub struct LeadRequestRow {
    pub id: u128,
    pub event_id: u128,
    pub done: bool,
    pub error_detail: Option<String>,
    pub claimed_at: Option<i64>,
}

/// One eligible registration as the lead engine sees it.
#[derive(Debug, Clone)]
pub struct EligibleRegistration {
    pub id: u128,
    pub name: Option<String>,
    pub email: Option<String>,
    pub phone: Option<String>,
    pub company_name: Option<String>,
    pub partner_id: Option<u128>,
    pub sale_order_id: Option<u128>,
    pub created_at: Option<i64>,
}

} // verus!
