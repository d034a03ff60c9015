//! The seat engine: the one counting domain (`state IN ('open','done') AND
//! active`), the register verb's decisions, the state-transition arm rule
//! and the availability read.
//!
//! The register transaction alternates store reads and decisions; the reads
//! run in the caller (lock the event row, lock the slot row, read the ticket
//! window, count the domain, insert, arm) and each decision is a function
//! here, called in that order.

use vstd::prelude::*;
use crate::error::EventError;
use crate::ids::random_u64;
use crate::rows::{RegisterCommand, SaleLink};
use crate::text::{decimal_text, decimal_spec, string_of, same_text, chars_of};

verus! {

/// The seat-count read.
#[derive(Debug, Clone, Copy)]
pub struct SeatCounts {
    pub limited: bool,
    /// 0 = unlimited when `limited` is false.
    pub capacity: i64,
    pub taken: i64,
}

impl SeatCounts {
    /// Seats left: unlimited (`i64::MAX`) when not limited or the cap is 0,
    /// else the cap minus the taken seats, never below 0.
    pub open spec fn available_spec(self) -> i64 {
        if !self.limited || self.capacity == 0 {
            i64::MAX
        } else if self.capacity - self.taken >= 0 {
            (self.capacity - self.taken) as i64
        } else {
            0
        }
    }

    /// Seats left, as a rule: an event that is not limited, or whose cap is
    /// 0, has `i64::MAX` seats left; a limited one with a cap has what the
    /// cap leaves over the taken seats, and none once they reach the cap.
    pub proof fn lemma_available_rule(self)
        ensures
            !self.limited || self.capacity == 0 ==> self.available_spec() == i64::MAX,
            self.limited && self.capacity != 0 && self.taken <= self.capacity && self.capacity - self.taken <= i64::MAX
                ==> self.available_spec() == self.capacity - self.taken,
            self.limited && self.capacity != 0 && self.taken >= self.capacity ==> self.available_spec() == 0,
    {
    }

    /// Seats left.
    pub fn available(&self) -> (r: i64)
        requires
            self.limited && self.capacity != 0 ==> i64::MIN <= self.capacity - self.taken <= i64::MAX,
        ensures
            r == self.available_spec(),
    {
        if !self.limited || self.capacity == 0 {
            i64::MAX
        } else {
            let d = self.capacity - self.taken;
            if d >= 0 { d } else { 0 }
        }
    }
}

/// The seat availability read (the exported surface's shape).
#[derive(Debug, Clone)]
pub struct SeatAvailability {
    pub event_id: u128,
    pub event_slot_id: Option<u128>,
    pub limited: bool,
    /// 0 = unlimited when `limited` is false.
    pub capacity: i64,
    pub taken: i64,
    pub available: Option<i64>,
}

impl SeatAvailability {
    /// Shapes a count: `available` is reported only for a limited event with
    /// a positive cap.
    pub fn from_counts(event_id: u128, slot_id: Option<u128>, c: SeatCounts) -> (r: Self)
        requires
            c.limited && c.capacity > 0 ==> i64::MIN <= c.capacity - c.taken <= i64::MAX,
        ensures
            r.event_id == event_id,
            r.event_slot_id == slot_id,
            r.limited == c.limited,
            r.capacity == c.capacity,
            r.taken == c.taken,
            r.available == if c.limited && c.capacity > 0 { Some(c.available_spec()) } else { None },
    {
        let available = if c.limited && c.capacity > 0 { Some(c.available()) } else { None };
        SeatAvailability { event_id, event_slot_id: slot_id, limited: c.limited, capacity: c.capacity, taken: c.taken, available }
    }
}

/// The locked event row the register head reads first.
#[derive(Debug, Clone)]
pub struct LockedEvent {
    pub id: u128,
    pub is_multi_slots: bool,
    pub seats_limited: bool,
    pub seats_max: i32,
    pub kanban_state: String,
    pub company_id: Option<u128>,
}

/// The event gate: a missing row is `EventNotFound`, a cancelled event
/// refuses registrations.
pub fn register_event_gate(event: Option<LockedEvent>) -> (r: Result<LockedEvent, EventError>)
    ensures
        match event {
            None => r == Err::<LockedEvent, EventError>(EventError::EventNotFound),
            Some(e) => if e.kanban_state@ == "cancel"@ {
                r.is_err() && r->Err_0 == EventError::Validation(r->Err_0->Validation_0)
                    && r->Err_0->Validation_0@ == "event is cancelled \u{2014} registrations refused"@
            } else {
                r == Ok::<LockedEvent, EventError>(e)
            },
        },
{
    match event {
        None => Err(EventError::EventNotFound),
        Some(e) => {
            if same_text(e.kanban_state.as_str(), "cancel") {
                return Err(EventError::Validation(string_of(&chars_of("event is cancelled \u{2014} registrations refused"))));
            }
            Ok(e)
        },
    }
}

/// What the slot step asks of the caller.
#[derive(Debug, Clone, Copy, PartialEq, Eq, Structural)]
pub enum SlotStep {
    /// Lock the slot row under the event (the belonging check), then
    /// continue with it.
    LockSlot(u128),
    /// No slot lock: continue with the command's slot, if any.
    Proceed(Option<u128>),
}

/// The slot step: a multi-slot event requires a slot (then locked and
/// belonging-checked); otherwise the command's slot is carried as is.
pub fn register_slot_step(event: &LockedEvent, cmd: &RegisterCommand) -> (r: Result<SlotStep, EventError>)
    ensures
        event.is_multi_slots ==> r == match cmd.event_slot_id {
            None => Err(EventError::EventSlotRequired { event_id: cmd.event_id }),
            Some(s) => Ok::<SlotStep, EventError>(SlotStep::LockSlot(s)),
        },
        !event.is_multi_slots ==> r == Ok::<SlotStep, EventError>(SlotStep::Proceed(cmd.event_slot_id)),
{
    if event.is_multi_slots {
        match cmd.event_slot_id {
            None => Err(EventError::EventSlotRequired { event_id: cmd.event_id }),
            Some(s) => Ok(SlotStep::LockSlot(s)),
        }
    } else {
        Ok(SlotStep::Proceed(cmd.event_slot_id))
    }
}

/// The slot belonging outcome: no row under the event is the typed refusal.
pub fn slot_belonging(slot: u128, belongs: bool) -> (r: Result<u128, EventError>)
    ensures
        r == if belongs { Ok::<u128, EventError>(slot) } else { Err(EventError::EventSlotNotOfEvent { event_slot_id: slot }) },
{
    if belongs { Ok(slot) } else { Err(EventError::EventSlotNotOfEvent { event_slot_id: slot }) }
}

/// The read-time lazy sale window: shut before its start or after its end.
pub open spec fn window_shut_spec(start: Option<i64>, end: Option<i64>, now: i64) -> bool {
    (match start { Some(s) => now < s, None => false }) || (match end { Some(e) => now > e, None => false })
}

/// The ticket gate: the ticket must belong to the event (`window` is `None`
/// when no row matched), and its sale window must be open at `now`.
pub fn ticket_gate(ticket: u128, window: Option<(Option<i64>, Option<i64>)>, now: i64) -> (r: Result<(), EventError>)
    ensures
        r == match window {
            None => Err(EventError::EventTicketNotOfEvent { event_ticket_id: ticket }),
            Some((s, e)) => if window_shut_spec(s, e, now) {
                Err(EventError::EventSaleWindowClosed { event_ticket_id: ticket })
            } else {
                Ok::<(), EventError>(())
            },
        },
{
    match window {
        None => Err(EventError::EventTicketNotOfEvent { event_ticket_id: ticket }),
        Some((s, e)) => {
            let before = match s { Some(s) => now < s, None => false };
            let after = match e { Some(e) => now > e, None => false };
            if before || after {
                Err(EventError::EventSaleWindowClosed { event_ticket_id: ticket })
            } else {
                Ok(())
            }
        },
    }
}

/// Whether a count is at the cap (a limited event with a positive cap).
pub open spec fn at_capacity(seats_limited: bool, seats_max: i32, taken: i64) -> bool {
    seats_limited && seats_max > 0 && taken >= seats_max as i64
}

/// The capacity gate: refuse typed at capacity.
pub fn capacity_gate(seats_limited: bool, seats_max: i32, taken: i64, event_id: u128) -> (r: Result<(), EventError>)
    ensures
        r == if at_capacity(seats_limited, seats_max, taken) {
            Err(EventError::EventSeatsExhausted { event_id })
        } else {
            Ok::<(), EventError>(())
        },
{
    if seats_limited && seats_max > 0 && taken >= seats_max as i64 {
        Err(EventError::EventSeatsExhausted { event_id })
    } else {
        Ok(())
    }
}

/// The state a registration is born in: the sale link's birth state, else
/// `open`.
pub fn born_state(link: Option<&SaleLink>) -> (r: String)
    ensures
        r@ == match link { Some(l) => l.initial_state@, None => "open"@ },
{
    match link {
        Some(l) => l.initial_state.clone(),
        None => string_of(&chars_of("open")),
    }
}

/// What the register verb writes after the insert: the after_sub arm (only
/// for a row born open) and the lead-queue arm (unless the bulk-import
/// exemption is set).
#[derive(Debug, Clone, Copy, PartialEq, Eq, Structural)]
pub struct RegisterArms {
    pub arm_after_sub: bool,
    pub arm_lead_queue: bool,
}

/// The arms of a registration born in a state.
pub fn register_arms(born: &str, cmd: &RegisterCommand) -> (r: RegisterArms)
    ensures
        r.arm_after_sub == (born@ == "open"@),
        r.arm_lead_queue == !cmd.lead_rule_skip,
{
    RegisterArms { arm_after_sub: same_text(born, "open"), arm_lead_queue: !cmd.lead_rule_skip }
}

/// Whether a state is in the holding domain.
pub open spec fn holds_seat(state: Seq<char>) -> bool {
    state == "open"@ || state == "done"@
}

/// Whether a state is outside the holding domain and can re-enter it.
pub open spec fn releasable(state: Seq<char>) -> bool {
    state == "draft"@ || state == "cancel"@
}

/// The decisions of a state transition, given (before, after, active).
#[derive(Debug, Clone, Copy, PartialEq, Eq, Structural)]
pub struct TransitionPlan {
    /// The transition takes a seat: run the lock-first count-then-proceed head.
    pub takes_seat: bool,
    /// Arm (and re-open) the after_sub schedulers.
    pub arm_after_sub: bool,
    /// Arm the lead queue on this axis, if any (`true` = on_done, `false` =
    /// on_confirm).
    pub lead_axis_done: Option<bool>,
    /// Record the state change in the audit trail.
    pub audit: bool,
}

/// The plan of a transition (the arm rule, stated once).
pub open spec fn transition_plan_spec(before: Seq<char>, after: Seq<char>, active: bool) -> TransitionPlan {
    TransitionPlan {
        takes_seat: active && holds_seat(after) && releasable(before),
        arm_after_sub: active && after == "open"@ && releasable(before),
        lead_axis_done: if active && holds_seat(after) && before != after { Some(after == "done"@) } else { None },
        audit: before != after,
    }
}

/// Plans a transition's follow-up writes.
pub fn transition_plan(before: &str, after: &str, active: bool) -> (r: TransitionPlan)
    ensures
        r == transition_plan_spec(before@, after@, active),
{
    let after_open = same_text(after, "open");
    let after_done = same_text(after, "done");
    let before_rel = same_text(before, "draft") || same_text(before, "cancel");
    let changed = !same_text(before, after);
    TransitionPlan {
        takes_seat: active && (after_open || after_done) && before_rel,
        arm_after_sub: active && after_open && before_rel,
        lead_axis_done: if active && (after_open || after_done) && changed { Some(after_done) } else { None },
        audit: changed,
    }
}

/// Re-confirming an open row never re-arms the after_sub schedulers, and
/// closing an open row (open -> done) never re-arms them either.
pub proof fn lemma_arm_rule_never_rearms(active: bool)
    ensures
        !transition_plan_spec("open"@, "open"@, active).arm_after_sub,
        !transition_plan_spec("open"@, "done"@, active).arm_after_sub,
        !transition_plan_spec("open"@, "done"@, active).takes_seat,
{
    reveal_strlit("open");
    reveal_strlit("done");
    reveal_strlit("draft");
    reveal_strlit("cancel");
    assert("open"@[0] != "draft"@[0]);
    assert("open"@[0] != "cancel"@[0]);
}

/// Entering `open` from `draft` or `cancel` on an active row arms the
/// after_sub schedulers and takes a seat.
pub proof fn lemma_confirm_arms(before: Seq<char>)
    requires
        releasable(before),
    ensures
        transition_plan_spec(before, "open"@, true).arm_after_sub,
        transition_plan_spec(before, "open"@, true).takes_seat,
{
}

/// No oversell: a registration or seat-taking transition admitted by the
/// capacity gate leaves the count within the cap.
pub proof fn lemma_no_oversell(seats_limited: bool, seats_max: i32, taken: i64)
    requires
        !at_capacity(seats_limited, seats_max, taken),
        seats_limited,
        seats_max > 0,
    ensures
        taken + 1 <= seats_max,
{
}

/// The capacity rule: an unlimited event, or one whose cap is not positive,
/// never refuses for capacity; a limited event with a positive cap refuses
/// exactly when the taken seats reach the cap, and once full stays full as
/// seats are taken.
pub proof fn lemma_capacity_rule(seats_limited: bool, seats_max: i32, taken: i64, more: i64)
    ensures
        !seats_limited ==> !at_capacity(seats_limited, seats_max, taken),
        seats_max <= 0 ==> !at_capacity(seats_limited, seats_max, taken),
        seats_limited && seats_max > 0 ==> (at_capacity(seats_limited, seats_max, taken) == (taken >= seats_max)),
        at_capacity(seats_limited, seats_max, taken) && taken <= more ==> at_capacity(seats_limited, seats_max, more),
{
}

/// The sale window: a ticket sells from its start through its end,
/// inclusive; before the start or after the end it does not; a missing
/// bound does not close that side.
pub proof fn lemma_sale_window(start: Option<i64>, end: Option<i64>, now: i64)
    ensures
        (start matches Some(st) ==> st <= now) && (end matches Some(e) ==> now <= e) ==> !window_shut_spec(start, end, now),
        start matches Some(st) ==> (now < st ==> window_shut_spec(start, end, now)),
        end matches Some(e) ==> (now > e ==> window_shut_spec(start, end, now)),
{
}

/// The transition plan: a transition into `draft` or `cancel`, or on an
/// archived (inactive) row, never takes a seat, arms the schedulers or arms
/// the lead queue; a transition that changes nothing is not audited and
/// arms nothing; a changed state is always audited.
pub proof fn lemma_transition_plan_rules(before: Seq<char>, after: Seq<char>, active: bool)
    ensures
        (after == "draft"@ || after == "cancel"@ || !active) ==> ({
            let p = transition_plan_spec(before, after, active);
            !p.takes_seat && !p.arm_after_sub && p.lead_axis_done is None
        }),
        before == after ==> ({
            let p = transition_plan_spec(before, after, active);
            !p.audit && !p.takes_seat && !p.arm_after_sub && p.lead_axis_done is None
        }),
        before != after ==> transition_plan_spec(before, after, active).audit,
{
    reveal_strlit("open");
    reveal_strlit("done");
    reveal_strlit("draft");
    reveal_strlit("cancel");
    assert("open"@[0] != "draft"@[0]);
    assert("open"@[0] != "cancel"@[0]);
    assert("done"@[1] != "draft"@[1]);
    assert("done"@[0] != "cancel"@[0]);
}

/// The barcode text of a 64-bit value (its decimal).
pub open spec fn barcode_spec(v: u64) -> Seq<char> {
    decimal_spec(v as nat)
}

/// Mints a registration barcode: the decimal of eight random bytes read
/// little-endian. Whatever the bytes, the barcode is the decimal of some
/// 64-bit value.
pub fn mint_barcode() -> (r: String)
    ensures
        exists|v: u64| r@ == #[trigger] barcode_spec(v),
{
    let v = random_u64();
    let d = decimal_text(v as u128);
    let r = string_of(&d);
    assert(r@ == barcode_spec(v));
    r
}

} // verus!
