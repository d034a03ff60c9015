//! The registration desk: one scan, the frozen branch order, at most one
//! write.
//!
//! 1. unknown barcode or inactive row  -> `DeskInvalidTicket`
//! 2. cancelled registration           -> `DeskCanceledRegistration`
//! 3. draft registration               -> `DeskUnconfirmedRegistration`
//! 4. the event is not ongoing         -> `DeskNotOngoingEvent`
//! 5. ticket of another event          -> `DeskNeedManualConfirmation`
//! 6. already done                     -> `DeskAlreadyRegistered`
//! 7. open                             -> the one write: `done`
//!
//! The caller reads the registration by the trimmed barcode, calls
//! `desk_check_registration`, reads the event, calls `desk_check_event`,
//! and on success runs the `done` transition.

use vstd::prelude::*;
use crate::error::EventError;
use crate::ids::now_micros;
use crate::rows::{EventRow, RegistrationRow};
use crate::text::{same_text, trim_str, trim_spec, string_of};

verus! {

/// The exact-match lookup key of a scanned barcode (surrounding white space
/// dropped).
pub fn desk_lookup_key(barcode: &str) -> (r: String)
    ensures
        r@ == trim_spec(barcode@),
{
    string_of(&trim_str(barcode))
}

/// Branches 1 to 3: the scanned registration.
pub open spec fn desk_registration_spec(reg: Option<RegistrationRow>) -> Result<RegistrationRow, EventError> {
    match reg {
        None => Err(EventError::DeskInvalidTicket),
        Some(r) => if !r.active {
            Err(EventError::DeskInvalidTicket)
        } else if r.state@ == "cancel"@ {
            Err(EventError::DeskCanceledRegistration)
        } else if r.state@ == "draft"@ {
            Err(EventError::DeskUnconfirmedRegistration)
        } else {
            Ok(r)
        },
    }
}

/// Branches 1 to 3 of the desk scan.
pub fn desk_check_registration(reg: Option<RegistrationRow>) -> (r: Result<RegistrationRow, EventError>)
    ensures
        r == desk_registration_spec(reg),
{
    match reg {
        None => Err(EventError::DeskInvalidTicket),
        Some(row) => {
            if !row.active {
                return Err(EventError::DeskInvalidTicket);
            }
            if same_text(row.state.as_str(), "cancel") {
                return Err(EventError::DeskCanceledRegistration);
            }
            if same_text(row.state.as_str(), "draft") {
                return Err(EventError::DeskUnconfirmedRegistration);
            }
            Ok(row)
        },
    }
}

/// Branches 4 to 6: the scanned event at `now`.
pub open spec fn desk_event_spec(reg: RegistrationRow, event: EventRow, event_id: u128, now: i64) -> Result<(), EventError> {
    if event.kanban_state@ == "done"@ || event.kanban_state@ == "cancel"@ || event.date_end <= now {
        Err(EventError::DeskNotOngoingEvent)
    } else if reg.event_id != event_id {
        Err(EventError::DeskNeedManualConfirmation)
    } else if reg.state@ == "done"@ {
        Err(EventError::DeskAlreadyRegistered)
    } else {
        Ok(())
    }
}

/// Branches 4 to 6 of the desk scan, at a given instant.
pub fn desk_check_event_at(reg: &RegistrationRow, event: &EventRow, event_id: u128, now: i64) -> (r: Result<(), EventError>)
    ensures
        r == desk_event_spec(*reg, *event, event_id, now),
{
    if same_text(event.kanban_state.as_str(), "done") || same_text(event.kanban_state.as_str(), "cancel")
        || event.date_end <= now {
        return Err(EventError::DeskNotOngoingEvent);
    }
    if reg.event_id != event_id {
        return Err(EventError::DeskNeedManualConfirmation);
    }
    if same_text(reg.state.as_str(), "done") {
        return Err(EventError::DeskAlreadyRegistered);
    }
    Ok(())
}

/// Branches 4 to 6 of the desk scan, now.
pub fn desk_check_event(reg: &RegistrationRow, event: &EventRow, event_id: u128) -> (r: Result<(), EventError>)
    ensures
        exists|now: i64| r == #[trigger] desk_event_spec(*reg, *event, event_id, now),
{
    let now = now_micros();
    desk_check_event_at(reg, event, event_id, now)
}

/// The event check refuses a scan on an event that is not ongoing: a
/// cancelled or done event, or one whose end has passed, is
/// `DeskNotOngoingEvent` whatever the registration and the instant; on an
/// ongoing event a ticket of another event needs a manual confirmation
/// (whatever its state), a done ticket of the event is already registered,
/// and the scan passes exactly for a not-yet-done registration of that
/// event.
pub proof fn lemma_desk_event_not_ongoing(reg: RegistrationRow, event: EventRow, event_id: u128, now: i64)
    ensures
        event.kanban_state@ == "cancel"@ ==> desk_event_spec(reg, event, event_id, now) == Err::<(), EventError>(EventError::DeskNotOngoingEvent),
        event.kanban_state@ == "done"@ ==> desk_event_spec(reg, event, event_id, now) == Err::<(), EventError>(EventError::DeskNotOngoingEvent),
        event.date_end <= now ==> desk_event_spec(reg, event, event_id, now) == Err::<(), EventError>(EventError::DeskNotOngoingEvent),
        desk_event_spec(reg, event, event_id, now).is_ok() <==> (event.kanban_state@ != "cancel"@ && event.kanban_state@ != "done"@
            && now < event.date_end && reg.event_id == event_id && reg.state@ != "done"@),
        event.kanban_state@ != "cancel"@ && event.kanban_state@ != "done"@ && now < event.date_end && reg.event_id != event_id
            ==> desk_event_spec(reg, event, event_id, now) == Err::<(), EventError>(EventError::DeskNeedManualConfirmation),
        event.kanban_state@ != "cancel"@ && event.kanban_state@ != "done"@ && now < event.date_end && reg.event_id == event_id
            && reg.state@ == "done"@ ==> desk_event_spec(reg, event, event_id, now) == Err::<(), EventError>(EventError::DeskAlreadyRegistered),
{
}

/// The registration check: a missing or inactive registration is an
/// invalid ticket, a cancelled one and a draft one are refused, and only an
/// active registration in another state passes, unchanged.
pub proof fn lemma_desk_registration_branches(reg: Option<RegistrationRow>)
    ensures
        reg is None ==> desk_registration_spec(reg) == Err::<RegistrationRow, EventError>(EventError::DeskInvalidTicket),
        reg matches Some(r) ==> (!r.active ==> desk_registration_spec(reg) == Err::<RegistrationRow, EventError>(EventError::DeskInvalidTicket)),
        reg matches Some(r) ==> (r.active && r.state@ == "cancel"@ ==> desk_registration_spec(reg) == Err::<RegistrationRow, EventError>(EventError::DeskCanceledRegistration)),
        reg matches Some(r) ==> (r.active && r.state@ == "draft"@ ==> desk_registration_spec(reg) == Err::<RegistrationRow, EventError>(EventError::DeskUnconfirmedRegistration)),
        reg matches Some(r) ==> (r.active && r.state@ != "cancel"@ && r.state@ != "draft"@ ==> desk_registration_spec(reg) == Ok::<RegistrationRow, EventError>(r)),
{
    reveal_strlit("draft");
    reveal_strlit("cancel");
    assert("draft"@ != "cancel"@) by {
        assert("draft"@[0] != "cancel"@[0]);
    }
}

/// A scan that passes both checks names an active, open registration of the
/// scanned event: the one write only ever moves `open` to `done`.
pub proof fn lemma_desk_writes_only_open(reg: Option<RegistrationRow>, event: EventRow, event_id: u128, now: i64)
    requires
        desk_registration_spec(reg).is_ok(),
        desk_event_spec(desk_registration_spec(reg)->Ok_0, event, event_id, now).is_ok(),
    ensures
        ({
            let r = desk_registration_spec(reg)->Ok_0;
            &&& r.active
            &&& r.event_id == event_id
            &&& r.state@ != "cancel"@ && r.state@ != "draft"@ && r.state@ != "done"@
        }),
{
}

/// A desk scan needs a barcode that is not blank.
pub fn desk_barcode_gate(barcode: &str) -> (r: Result<(), EventError>)
    ensures
        trim_spec(barcode@).len() == 0 ==> r.is_err() && r->Err_0 is Validation
            && r->Err_0->Validation_0@ == "barcode is required"@,
        trim_spec(barcode@).len() > 0 ==> r.is_ok(),
{
    if trim_str(barcode).len() == 0 {
        return Err(EventError::Validation(string_of(&crate::text::chars_of("barcode is required"))));
    }
    Ok(())
}

} // verus!
