//! The event verbs' decisions: create validation, the publication fence on
//! patches, the attendee-only registration patch, the capability
//! publication gate, slot windows, and the audit subject naming.

use vstd::prelude::*;
use crate::error::EventError;
use crate::rows::EventRow;
use crate::text::{lemma_present_hits, chars_of, string_of, extend_str, extend_chars, same_text, join_texts, join_spec, present_texts,
    present_spec, rows_view, contains_char, trim_str, trim_spec};

verus! {

/// The create input (every field explicit).
#[derive(Debug, Clone)]
pub struct CreateEventInput {
    pub name: String,
    pub event_type_id: Option<u128>,
    pub date_begin: i64,
    pub date_end: i64,
    pub date_tz: Option<String>,
    pub is_multi_slots: bool,
    pub event_slot_count: i32,
    pub seats_limited: bool,
    pub seats_max: i32,
    pub company_id: Option<u128>,
    pub organizer_id: Option<u128>,
    pub user_id: Option<u128>,
    pub address_id: Option<u128>,
    pub event_url: Option<String>,
    pub badge_format: Option<String>,
}

/// The patch input: every arm optional, the publication pair absent.
#[derive(Debug, Clone)]
pub struct PatchEventInput {
    pub name: Option<String>,
    pub event_type_id: Option<u128>,
    pub stage_id: Option<u128>,
    pub date_begin: Option<i64>,
    pub date_end: Option<i64>,
    pub date_tz: Option<String>,
    pub is_multi_slots: Option<bool>,
    pub event_slot_count: Option<i32>,
    pub seats_limited: Option<bool>,
    pub seats_max: Option<i32>,
    pub company_id: Option<u128>,
    pub organizer_id: Option<u128>,
    pub user_id: Option<u128>,
    pub address_id: Option<u128>,
    pub event_url: Option<String>,
    pub badge_format: Option<String>,
}

/// The create validation: the window must not end before it begins, and a
/// multi-slot event declares at least one slot.
pub fn validate_create(input: &CreateEventInput) -> (r: Result<(), EventError>)
    ensures
        input.date_end < input.date_begin ==> r.is_err() && r->Err_0 is Validation
            && r->Err_0->Validation_0@ == "date_end precedes date_begin"@,
        !(input.date_end < input.date_begin) && input.is_multi_slots && input.event_slot_count < 1 ==> r.is_err()
            && r->Err_0 is Validation && r->Err_0->Validation_0@ == "multi-slot events declare at least one slot"@,
        !(input.date_end < input.date_begin) && !(input.is_multi_slots && input.event_slot_count < 1) ==> r.is_ok(),
{
    if input.date_end < input.date_begin {
        return Err(EventError::Validation(string_of(&chars_of("date_end precedes date_begin"))));
    }
    if input.is_multi_slots && input.event_slot_count < 1 {
        return Err(EventError::Validation(string_of(&chars_of("multi-slot events declare at least one slot"))));
    }
    Ok(())
}

/// The publication fence pair: fields a generic patch may never write
/// (publish and unpublish are the only writers).
pub const PUBLISH_FENCED_FIELDS: [&'static str; 2] = ["is_published", "date_publish"];

/// The publication fence pair, as texts.
pub open spec fn publish_fenced_spec() -> Seq<Seq<char>> {
    seq!["is_published"@, "date_publish"@]
}

/// The registration fields a patch may never write (the state axis, the
/// sale mirrors, the archive axis and the identity).
pub open spec fn registration_refused_spec() -> Seq<Seq<char>> {
    seq!["state"@, "sale_order_id"@, "sale_order_state"@, "sale_status"@, "active"@, "barcode"@, "event_id"@, "id"@]
}

/// A patch is refused by the publication fence exactly when it names
/// `is_published` or `date_publish`, and the refusal lists exactly the
/// fenced fields it named.
pub proof fn lemma_publish_fence_keys(keys: Seq<Seq<char>>, t: Seq<char>)
    ensures
        (present_spec(publish_fenced_spec(), keys).len() > 0) == (keys.contains("is_published"@) || keys.contains("date_publish"@)),
        present_spec(publish_fenced_spec(), keys).contains(t) == (publish_fenced_spec().contains(t) && keys.contains(t)),
{
    let list = publish_fenced_spec();
    lemma_present_hits(list, keys, t);
    assert(list[0] == "is_published"@);
    assert(list[1] == "date_publish"@);
    if keys.contains("is_published"@) || keys.contains("date_publish"@) {
        assert(!(forall|i: int| 0 <= i < list.len() ==> !keys.contains(#[trigger] list[i])));
    } else {
        assert forall|i: int| 0 <= i < list.len() implies !keys.contains(#[trigger] list[i]) by {
            assert(0 <= i < 2);
        }
    }
}

/// A registration patch is refused exactly when it names one of the
/// non-attendee fields, and the refusal lists exactly those it named.
pub proof fn lemma_registration_fence_keys(keys: Seq<Seq<char>>, t: Seq<char>)
    ensures
        (present_spec(registration_refused_spec(), keys).len() > 0) == (keys.contains("state"@) || keys.contains("sale_order_id"@) || keys.contains("sale_order_state"@) || keys.contains("sale_status"@) || keys.contains("active"@) || keys.contains("barcode"@) || keys.contains("event_id"@) || keys.contains("id"@)),
        present_spec(registration_refused_spec(), keys).contains(t) == (registration_refused_spec().contains(t) && keys.contains(t)),
{
    let list = registration_refused_spec();
    lemma_present_hits(list, keys, t);
    assert(list[0] == "state"@);
    assert(list[1] == "sale_order_id"@);
    assert(list[2] == "sale_order_state"@);
    assert(list[3] == "sale_status"@);
    assert(list[4] == "active"@);
    assert(list[5] == "barcode"@);
    assert(list[6] == "event_id"@);
    assert(list[7] == "id"@);
    if keys.contains("state"@) || keys.contains("sale_order_id"@) || keys.contains("sale_order_state"@) || keys.contains("sale_status"@) || keys.contains("active"@) || keys.contains("barcode"@) || keys.contains("event_id"@) || keys.contains("id"@) {
        assert(!(forall|i: int| 0 <= i < list.len() ==> !keys.contains(#[trigger] list[i])));
    } else {
        assert forall|i: int| 0 <= i < list.len() implies !keys.contains(#[trigger] list[i]) by {
            assert(0 <= i < 8);
        }
    }
}

/// The publication fence on a patch body's keys: naming a fenced field is
/// `PublishRefused` listing the hits (in fence order, comma separated).
pub fn publish_fence(keys: &Vec<String>) -> (r: Result<(), EventError>)
    ensures
        ({
            let hits = present_spec(publish_fenced_spec(), keys@.map_values(|s: String| s@));
            &&& hits.len() == 0 ==> r.is_ok()
            &&& hits.len() > 0 ==> r.is_err() && r->Err_0 is PublishRefused
                && r->Err_0->fields@ == join_spec(hits, ", "@)
        }),
{
    let mut fence: Vec<&str> = Vec::new();
    fence.push("is_published");
    fence.push("date_publish");
    assert(fence@.map_values(|s: &str| s@) =~= publish_fenced_spec());
    let hits = present_texts(&fence, keys);
    if hits.len() == 0 {
        return Ok(());
    }
    let joined = join_texts(&hits, ", ");
    Err(EventError::PublishRefused { fields: string_of(&joined) })
}

/// The attendee-only registration patch: naming a refused field is a
/// `Validation` refusal listing the hits.
pub fn registration_patch_fence(keys: &Vec<String>) -> (r: Result<(), EventError>)
    ensures
        ({
            let hits = present_spec(registration_refused_spec(), keys@.map_values(|s: String| s@));
            &&& hits.len() == 0 ==> r.is_ok()
            &&& hits.len() > 0 ==> r.is_err() && r->Err_0 is Validation
                && r->Err_0->Validation_0@ == "patch refuses non-attendee fields: "@ + join_spec(hits, ", "@)
        }),
{
    let mut fence: Vec<&str> = Vec::new();
    fence.push("state");
    fence.push("sale_order_id");
    fence.push("sale_order_state");
    fence.push("sale_status");
    fence.push("active");
    fence.push("barcode");
    fence.push("event_id");
    fence.push("id");
    assert(fence@.map_values(|s: &str| s@) =~= registration_refused_spec());
    let hits = present_texts(&fence, keys);
    if hits.len() == 0 {
        return Ok(());
    }
    let joined = join_texts(&hits, ", ");
    let mut msg: Vec<char> = Vec::new();
    extend_str(&mut msg, "patch refuses non-attendee fields: ");
    extend_chars(&mut msg, &joined);
    Err(EventError::Validation(string_of(&msg)))
}

/// The capability surface's publication gate over an event read: only a
/// published, non-cancelled row resolves; missing, unpublished and
/// cancelled are all the uniform `EventNotPublished`; other failures pass
/// through.
pub open spec fn publication_gate_spec(found: Result<EventRow, EventError>) -> Result<EventRow, EventError> {
    match found {
        Err(EventError::EventNotFound) => Err(EventError::EventNotPublished),
        Err(other) => Err(other),
        Ok(row) => if !row.is_published || row.kanban_state@ == "cancel"@ {
            Err(EventError::EventNotPublished)
        } else {
            Ok(row)
        },
    }
}

/// The capability surface serves only published, live events, with one
/// uniform answer for everything else: a missing event, an unpublished one
/// and a cancelled one are all `EventNotPublished`; a published event that
/// is not cancelled comes back as it was read; any other store failure
/// passes through unchanged.
pub proof fn lemma_publication_gate_uniform(found: Result<EventRow, EventError>)
    ensures
        found == Err::<EventRow, EventError>(EventError::EventNotFound)
            ==> publication_gate_spec(found) == Err::<EventRow, EventError>(EventError::EventNotPublished),
        found matches Ok(row) ==> (publication_gate_spec(found) == if row.is_published && row.kanban_state@ != "cancel"@ {
            Ok::<EventRow, EventError>(row)
        } else {
            Err(EventError::EventNotPublished)
        }),
        found matches Err(e) && e != EventError::EventNotFound ==> publication_gate_spec(found) == found,
{
}

/// Applies the publication gate.
pub fn publication_gate(found: Result<EventRow, EventError>) -> (r: Result<EventRow, EventError>)
    ensures
        r == publication_gate_spec(found),
{
    match found {
        Err(EventError::EventNotFound) => Err(EventError::EventNotPublished),
        Err(other) => Err(other),
        Ok(row) => {
            if !row.is_published || same_text(row.kanban_state.as_str(), "cancel") {
                Err(EventError::EventNotPublished)
            } else {
                Ok(row)
            }
        },
    }
}

/// A slot's hours: a missing end is the begin.
pub fn slot_window(slot_id: u128, begin: i64, end: Option<i64>) -> (r: (u128, i64, i64))
    ensures
        r == (slot_id, begin, match end { Some(e) => e, None => begin }),
{
    (slot_id, begin, match end { Some(e) => e, None => begin })
}

/// The audit subject type: a schema-qualified name is kept, a bare one
/// becomes `event.<name>s`.
pub open spec fn audit_subject_spec(subject_type: Seq<char>) -> Seq<char> {
    if subject_type.contains('.') {
        subject_type
    } else {
        "event."@ + subject_type + "s"@
    }
}

/// Normalises an audit subject type.
pub fn audit_subject_type(subject_type: &str) -> (r: String)
    ensures
        r@ == audit_subject_spec(subject_type@),
{
    let c = chars_of(subject_type);
    if contains_char(&c, '.') {
        return string_of(&c);
    }
    let mut out: Vec<char> = Vec::new();
    extend_str(&mut out, "event.");
    extend_chars(&mut out, &c);
    extend_str(&mut out, "s");
    string_of(&out)
}

/// The template cascade needs a template kind (white space alone is none).
pub fn cascade_kind_gate(template_kind: &str) -> (r: Result<(), EventError>)
    ensures
        trim_spec(template_kind@).len() == 0 ==> r.is_err() && r->Err_0 is Validation
            && r->Err_0->Validation_0@ == "template cascade requires a template_kind"@,
        trim_spec(template_kind@).len() > 0 ==> r.is_ok(),
{
    let t = trim_str(template_kind);
    if t.len() == 0 {
        return Err(EventError::Validation(string_of(&chars_of("template cascade requires a template_kind"))));
    }
    Ok(())
}

/// The officer list limit: 50 by default, clamped to 1..=500.
pub fn list_limit(limit: Option<i64>) -> (r: i64)
    ensures
        r == match limit {
            None => 50,
            Some(l) => if l < 1 { 1 } else if l > 500 { 500 } else { l },
        },
{
    match limit {
        None => 50,
        Some(l) => if l < 1 { 1 } else if l > 500 { 500 } else { l },
    }
}

/// A required text field of a request body: absent or empty is the
/// `Validation` refusal `<key> is required`.
pub fn required_text(value: Option<String>, key: &str) -> (r: Result<String, EventError>)
    ensures
        match value {
            Some(v) => if v@.len() > 0 {
                r == Ok::<String, EventError>(v)
            } else {
                r.is_err() && r->Err_0 is Validation && r->Err_0->Validation_0@ == key@ + " is required"@
            },
            None => r.is_err() && r->Err_0 is Validation && r->Err_0->Validation_0@ == key@ + " is required"@,
        },
{
    match value {
        Some(v) => {
            if chars_of(v.as_str()).len() > 0 {
                return Ok(v);
            }
        },
        None => {},
    }
    let mut msg: Vec<char> = Vec::new();
    extend_str(&mut msg, key);
    extend_str(&mut msg, " is required");
    Err(EventError::Validation(string_of(&msg)))
}

/// A required identifier of a request body: absent (or not an id) is the
/// `Validation` refusal `<key> is required`.
pub fn required_id(value: Option<u128>, key: &str) -> (r: Result<u128, EventError>)
    ensures
        match value {
            Some(v) => r == Ok::<u128, EventError>(v),
            None => r.is_err() && r->Err_0 is Validation && r->Err_0->Validation_0@ == key@ + " is required"@,
        },
{
    match value {
        Some(v) => Ok(v),
        None => {
            let mut msg: Vec<char> = Vec::new();
            extend_str(&mut msg, key);
            extend_str(&mut msg, " is required");
            Err(EventError::Validation(string_of(&msg)))
        },
    }
}

} // verus!
