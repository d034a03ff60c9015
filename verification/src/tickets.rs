//! The attendee ticket report: the rows a ticket-report capability pins,
//! restricted to the pinned event.

use vstd::prelude::*;
use crate::rows::{EventRow, RegistrationRow};

verus! {

/// One attendee's ticket row.
#[derive(Debug, Clone)]
pub struct TicketView {
    pub registration_id: u128,
    pub event_id: u128,
    pub event_name: String,
    pub event_date_begin: i64,
    pub event_date_end: i64,
    pub event_date_tz: String,
    pub attendee_name: String,
    pub state: String,
    pub barcode: String,
}

/// The whole feed: the event header and the pinned rows.
#[derive(Debug, Clone)]
pub struct TicketReport {
    pub event_id: u128,
    pub event_name: String,
    pub event_date_begin: i64,
    pub event_date_end: i64,
    pub event_date_tz: String,
    pub badge_format: String,
    pub tickets: Vec<TicketView>,
}

/// The ticket of a registration of an event.
pub open spec fn ticket_spec(event: EventRow, row: RegistrationRow) -> TicketView {
    TicketView {
        registration_id: row.id,
        event_id: event.id,
        event_name: event.name,
        event_date_begin: event.date_begin,
        event_date_end: event.date_end,
        event_date_tz: event.date_tz,
        attendee_name: row.name,
        state: row.state,
        barcode: row.barcode,
    }
}

/// The ticket of a registration of an event.
pub fn ticket_of(event: &EventRow, row: &RegistrationRow) -> (r: TicketView)
    ensures
        r == ticket_spec(*event, *row),
{
    TicketView {
        registration_id: row.id,
        event_id: event.id,
        event_name: event.name.clone(),
        event_date_begin: event.date_begin,
        event_date_end: event.date_end,
        event_date_tz: event.date_tz.clone(),
        attendee_name: row.name.clone(),
        state: row.state.clone(),
        barcode: row.barcode.clone(),
    }
}

/// The tickets of the looked-up pinned rows, in pin order: a pinned id that
/// did not resolve, or resolved to a registration of another event, is
/// silently absent.
pub open spec fn tickets_spec(event: EventRow, event_id: u128, found: Seq<Option<RegistrationRow>>) -> Seq<TicketView>
    decreases found.len(),
{
    if found.len() == 0 {
        Seq::empty()
    } else {
        let rest = tickets_spec(event, event_id, found.drop_last());
        match found.last() {
            Some(row) => if row.event_id == event_id {
                rest.push(ticket_spec(event, row))
            } else {
                rest
            },
            None => rest,
        }
    }
}

/// The report of a published event over the lookups of the token's pinned
/// registrations (`found[k]` is the lookup of the `k`-th pinned id).
pub fn ticket_report(event: &EventRow, event_id: u128, found: Vec<Option<RegistrationRow>>) -> (r: TicketReport)
    ensures
        r.event_id == event.id,
        r.event_name == event.name,
        r.event_date_begin == event.date_begin,
        r.event_date_end == event.date_end,
        r.event_date_tz == event.date_tz,
        r.badge_format == event.badge_format,
        r.tickets@ == tickets_spec(*event, event_id, found@),
{
    let mut tickets: Vec<TicketView> = Vec::new();
    let mut k: usize = 0;
    while k < found.len()
        invariant
            k <= found.len(),
            tickets@ == tickets_spec(*event, event_id, found@.take(k as int)),
        decreases found.len() - k,
    {
        proof {
            assert(found@.take(k + 1).drop_last() =~= found@.take(k as int));
            assert(found@.take(k + 1).last() == found@[k as int]);
        }
        match &found[k] {
            Some(row) => {
                if row.event_id == event_id {
                    tickets.push(ticket_of(event, row));
                }
            },
            None => {},
        }
        k = k + 1;
    }
    assert(found@.take(found.len() as int) =~= found@);
    TicketReport {
        event_id: event.id,
        event_name: event.name.clone(),
        event_date_begin: event.date_begin,
        event_date_end: event.date_end,
        event_date_tz: event.date_tz.clone(),
        badge_format: event.badge_format.clone(),
        tickets,
    }
}

/// The token's word is the only grant: every ticket of a report is one of
/// the looked-up pinned registrations, of the pinned event.
pub proof fn lemma_report_only_pinned(event: EventRow, event_id: u128, found: Seq<Option<RegistrationRow>>, t: int)
    requires
        0 <= t < tickets_spec(event, event_id, found).len(),
    ensures
        exists|k: int|
            0 <= k < found.len() && (#[trigger] found[k]) is Some && found[k]->0.event_id == event_id
                && tickets_spec(event, event_id, found)[t] == ticket_spec(event, found[k]->0),
    decreases found.len(),
{
    let rest = tickets_spec(event, event_id, found.drop_last());
    let n = found.len() - 1;
    if t < rest.len() {
        lemma_report_only_pinned(event, event_id, found.drop_last(), t);
        let k = choose|k: int|
            0 <= k < found.drop_last().len() && (#[trigger] found.drop_last()[k]) is Some
                && found.drop_last()[k]->0.event_id == event_id && rest[t] == ticket_spec(event, found.drop_last()[k]->0);
        assert(found[k] == found.drop_last()[k]);
    } else {
        assert(found[n] == found.last());
    }
}

/// The report is built pin by pin: the tickets of two runs of lookups,
/// one after the other, are the tickets of the first followed by those of
/// the second; a lookup that resolved to a registration of the pinned event
/// gives exactly one ticket of that registration, whatever its state, with
/// the event's header; any other lookup gives none.
pub proof fn lemma_report_per_pin(event: EventRow, event_id: u128, a: Seq<Option<RegistrationRow>>, b: Seq<Option<RegistrationRow>>, x: Option<RegistrationRow>)
    ensures
        tickets_spec(event, event_id, a + b) == tickets_spec(event, event_id, a) + tickets_spec(event, event_id, b),
        x is Some && x->0.event_id == event_id ==> {
            let row = x->0;
            let t = tickets_spec(event, event_id, seq![x]);
            &&& t.len() == 1
            &&& t[0].registration_id == row.id
            &&& t[0].state == row.state
            &&& t[0].attendee_name == row.name
            &&& t[0].barcode == row.barcode
            &&& t[0].event_id == event.id
            &&& t[0].event_name == event.name
            &&& t[0].event_date_begin == event.date_begin
            &&& t[0].event_date_end == event.date_end
            &&& t[0].event_date_tz == event.date_tz
        },
        !(x is Some && x->0.event_id == event_id) ==> tickets_spec(event, event_id, seq![x]).len() == 0,
    decreases b.len(),
{
    assert(seq![x].drop_last() =~= Seq::<Option<RegistrationRow>>::empty());
    assert(seq![x].last() == x);
    assert(tickets_spec(event, event_id, Seq::<Option<RegistrationRow>>::empty()).len() == 0);
    if b.len() == 0 {
        assert(a + b =~= a);
        assert(tickets_spec(event, event_id, a) + tickets_spec(event, event_id, b) =~= tickets_spec(event, event_id, a));
    } else {
        lemma_report_per_pin(event, event_id, a, b.drop_last(), x);
        assert((a + b).drop_last() =~= a + b.drop_last());
        assert((a + b).last() == b.last());
        assert(tickets_spec(event, event_id, a + b) =~= tickets_spec(event, event_id, a) + tickets_spec(event, event_id, b));
    }
}

/// Completeness, in pin order: every looked-up registration of the pinned
/// event, whatever its state, has its ticket in the report, and the tickets
/// of two such pins come in pin order.
pub proof fn lemma_report_complete(event: EventRow, event_id: u128, found: Seq<Option<RegistrationRow>>, k: int)
    requires
        0 <= k < found.len(),
        found[k] is Some,
        found[k]->0.event_id == event_id,
    ensures
        ({
            let t = tickets_spec(event, event_id, found.take(k)).len() as int;
            &&& t < tickets_spec(event, event_id, found).len()
            &&& tickets_spec(event, event_id, found)[t] == ticket_spec(event, found[k]->0)
        }),
{
    let pre = found.take(k);
    let mid = seq![found[k]];
    let post = found.skip(k + 1);
    assert(found =~= pre + (mid + post));
    lemma_report_per_pin(event, event_id, pre, mid + post, found[k]);
    lemma_report_per_pin(event, event_id, mid, post, found[k]);
    assert(mid.drop_last() =~= Seq::<Option<RegistrationRow>>::empty());
    assert(tickets_spec(event, event_id, mid) == seq![ticket_spec(event, found[k]->0)]);
}

} // verus!
