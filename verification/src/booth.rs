//! The booth verbs' decisions: the delete fence, the confirm pre-check, the
//! one-event-per-line booking guard, and the mapping of the store's
//! constraint violations onto typed refusals.

use vstd::prelude::*;
use crate::error::EventError;
use crate::text::{lemma_present_hits, chars_of, string_of, extend_str, extend_chars, same_text, signed_decimal_text, signed_decimal_spec,
    join_texts, join_spec, present_texts, present_spec};

verus! {

/// The delete fence: a sale-linked booth is never deleted, nor one with
/// booking rows (release first).
pub fn booth_delete_gate(booth_id: u128, sale_order_line_id: Option<u128>, bookings: i64) -> (r: Result<(), EventError>)
    ensures
        sale_order_line_id.is_some() ==> r == Err::<(), EventError>(EventError::BoothDeleteRefusedSaleLinked { booth_id }),
        sale_order_line_id.is_none() && bookings > 0 ==> r.is_err() && r->Err_0 is Validation
            && r->Err_0->Validation_0@ == "booth delete refused \u{2014} "@ + signed_decimal_spec(bookings as int)
                + " booking rows exist (release first)"@,
        sale_order_line_id.is_none() && bookings <= 0 ==> r.is_ok(),
{
    if sale_order_line_id.is_some() {
        return Err(EventError::BoothDeleteRefusedSaleLinked { booth_id });
    }
    if bookings > 0 {
        let mut msg: Vec<char> = Vec::new();
        extend_str(&mut msg, "booth delete refused \u{2014} ");
        let n = signed_decimal_text(bookings);
        extend_chars(&mut msg, &n);
        extend_str(&mut msg, " booking rows exist (release first)");
        return Err(EventError::Validation(string_of(&msg)));
    }
    Ok(())
}

/// The confirm pre-check (the nice error; the store's unique index is the
/// wall): the booth must be available.
pub fn booth_confirm_precheck(event_booth_id: u128, booth_state: &str) -> (r: Result<(), EventError>)
    ensures
        r == if booth_state@ == "available"@ { Ok::<(), EventError>(()) } else {
            Err(EventError::BoothAlreadyConfirmed { event_booth_id })
        },
{
    if same_text(booth_state, "available") {
        Ok(())
    } else {
        Err(EventError::BoothAlreadyConfirmed { event_booth_id })
    }
}

/// One order line books booths of one event: a booking of the line under
/// another event refuses.
pub fn booking_line_gate(sale_order_line_id: Option<u128>, cross_event: bool) -> (r: Result<(), EventError>)
    ensures
        r == match sale_order_line_id {
            Some(line) => if cross_event {
                Err(EventError::BoothBookingLineCrossEvent { sale_order_line_id: line })
            } else {
                Ok::<(), EventError>(())
            },
            None => Ok(()),
        },
{
    match sale_order_line_id {
        Some(line) => if cross_event {
            Err(EventError::BoothBookingLineCrossEvent { sale_order_line_id: line })
        } else {
            Ok(())
        },
        None => Ok(()),
    }
}

/// The store's unique-violation code on the exclusivity index becomes the
/// loud typed loser; any other failure stays a store failure (`None`).
pub fn exclusivity_refusal(db_code: Option<&str>, event_booth_id: u128) -> (r: Option<EventError>)
    ensures
        r == match db_code {
            Some(c) => if c@ == "23505"@ { Some(EventError::BoothAlreadyConfirmed { event_booth_id }) } else { None },
            None => None,
        },
{
    match db_code {
        Some(c) => if same_text(c, "23505") { Some(EventError::BoothAlreadyConfirmed { event_booth_id }) } else { None },
        None => None,
    }
}

/// A foreign-key violation on booth create (event or category missing) is
/// the typed shape refusal; any other failure stays a store failure.
pub fn booth_create_refusal(db_code: Option<&str>) -> (r: Option<EventError>)
    ensures
        match db_code {
            Some(c) => if c@ == "23503"@ {
                r.is_some() && r->0 is Validation
                    && r->0->Validation_0@ == "booth create refused \u{2014} event or category does not resolve"@
            } else {
                r.is_none()
            },
            None => r.is_none(),
        },
{
    match db_code {
        Some(c) => if same_text(c, "23503") {
            Some(EventError::Validation(string_of(&chars_of("booth create refused \u{2014} event or category does not resolve"))))
        } else {
            None
        },
        None => None,
    }
}

/// Withdrawing a booking: no pending row deleted (missing or confirmed) is
/// the same refusal.
pub fn booking_withdraw_outcome(booking_id: u128, deleted: bool) -> (r: Result<(), EventError>)
    ensures
        r == if deleted { Ok::<(), EventError>(()) } else { Err(EventError::BoothBookingNotFound { booking_id }) },
{
    if deleted { Ok(()) } else { Err(EventError::BoothBookingNotFound { booking_id }) }
}

/// The booth fields a patch may never write (the state axis, the sale link,
/// the paid latch and the identity).
pub open spec fn booth_refused_spec() -> Seq<Seq<char>> {
    seq!["state"@, "sale_order_line_id"@, "is_paid"@, "event_id"@, "id"@]
}

/// A booth patch is refused exactly when it names one of the non-writable
/// fields, and the refusal lists exactly those it named.
pub proof fn lemma_booth_fence_keys(keys: Seq<Seq<char>>, t: Seq<char>)
    ensures
        (present_spec(booth_refused_spec(), keys).len() > 0) == (keys.contains("state"@) || keys.contains("sale_order_line_id"@) || keys.contains("is_paid"@) || keys.contains("event_id"@) || keys.contains("id"@)),
        present_spec(booth_refused_spec(), keys).contains(t) == (booth_refused_spec().contains(t) && keys.contains(t)),
{
    let list = booth_refused_spec();
    lemma_present_hits(list, keys, t);
    assert(list[0] == "state"@);
    assert(list[1] == "sale_order_line_id"@);
    assert(list[2] == "is_paid"@);
    assert(list[3] == "event_id"@);
    assert(list[4] == "id"@);
    if keys.contains("state"@) || keys.contains("sale_order_line_id"@) || keys.contains("is_paid"@) || keys.contains("event_id"@) || keys.contains("id"@) {
        assert(!(forall|i: int| 0 <= i < list.len() ==> !keys.contains(#[trigger] list[i])));
    } else {
        assert forall|i: int| 0 <= i < list.len() implies !keys.contains(#[trigger] list[i]) by {
            assert(0 <= i < 5);
        }
    }
}

/// The booth patch fence: naming a refused field is a `Validation` refusal
/// listing the hits (in fence order, comma separated).
pub fn booth_patch_fence(keys: &Vec<String>) -> (r: Result<(), EventError>)
    ensures
        ({
            let hits = present_spec(booth_refused_spec(), keys@.map_values(|s: String| s@));
            &&& hits.len() == 0 ==> r.is_ok()
            &&& hits.len() > 0 ==> r.is_err() && r->Err_0 is Validation
                && r->Err_0->Validation_0@ == "booth patch refuses non-writable fields: "@ + join_spec(hits, ", "@)
        }),
{
    let mut fence: Vec<&str> = Vec::new();
    fence.push("state");
    fence.push("sale_order_line_id");
    fence.push("is_paid");
    fence.push("event_id");
    fence.push("id");
    assert(fence@.map_values(|s: &str| s@) =~= booth_refused_spec());
    let hits = present_texts(&fence, keys);
    if hits.len() == 0 {
        return Ok(());
    }
    let joined = join_texts(&hits, ", ");
    let mut msg: Vec<char> = Vec::new();
    extend_str(&mut msg, "booth patch refuses non-writable fields: ");
    extend_chars(&mut msg, &joined);
    Err(EventError::Validation(string_of(&msg)))
}

/// The paid-latch request needs a non-empty list of order lines.
pub fn line_ids_gate(line_ids: Option<Vec<u128>>) -> (r: Result<Vec<u128>, EventError>)
    ensures
        match line_ids {
            Some(ids) => if ids@.len() > 0 {
                r.is_ok() && r->Ok_0@ == ids@
            } else {
                r.is_err() && r->Err_0 is Validation
                    && r->Err_0->Validation_0@ == "line_ids must be a non-empty array of uuids"@
            },
            None => r.is_err() && r->Err_0 is Validation
                && r->Err_0->Validation_0@ == "line_ids must be a non-empty array of uuids"@,
        },
{
    match line_ids {
        Some(ids) => {
            if ids.len() > 0 {
                return Ok(ids);
            }
            Err(EventError::Validation(string_of(&chars_of("line_ids must be a non-empty array of uuids"))))
        },
        None => Err(EventError::Validation(string_of(&chars_of("line_ids must be a non-empty array of uuids")))),
    }
}

} // verus!
