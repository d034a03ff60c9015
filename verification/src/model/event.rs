//! An event.

use vstd::prelude::*;
use crate::entity::{AuditMetadata, PatchValue, bool_of, i32_of, instant_of, opt_instant_of, opt_text_of, opt_uuid_of, text_of, uuid_of, value_bool, value_i32, value_instant, value_opt_instant, value_opt_text, value_opt_uuid, value_text, value_uuid};
use crate::ids::fresh_uuid;
use crate::text::{chars_of, string_of, same_text};
use crate::vocab::{EventBadgeFormat, EventKanbanState};

verus! {

/// The typed identifier of an event.
#[derive(Debug, Clone, Copy, PartialEq, Eq, Structural)]
pub struct EventId(pub u128);

impl EventId {
    /// Wraps an identifier.
    pub fn new(id: u128) -> (r: Self)
        ensures
            r.0 == id,
    {
        EventId(id)
    }

    /// A fresh random identifier (nothing is claimed of its value).
    pub fn generate() -> (r: Self) {
        EventId(fresh_uuid())
    }

    /// The wrapped identifier.
    pub fn into_inner(self) -> (r: u128)
        ensures
            r == self.0,
    {
        self.0
    }
}

/// An event.
#[derive(Debug, Clone)]
pub struct Event {
    pub id: u128,
    pub name: String,
    pub event_type_id: Option<u128>,
    pub stage_id: u128,
    pub kanban_state: EventKanbanState,
    pub date_begin: i64,
    pub date_end: i64,
    pub date_tz: String,
    pub is_multi_slots: bool,
    pub event_slot_count: i32,
    pub seats_limited: bool,
    pub seats_max: i32,
    pub address_id: Option<u128>,
    pub organizer_id: Option<u128>,
    pub user_id: Option<u128>,
    pub event_url: Option<String>,
    pub badge_format: EventBadgeFormat,
    pub is_published: bool,
    pub date_publish: Option<i64>,
    pub metadata: AuditMetadata,
}

/// One field of a partial update applied to an event: `name`, `event_type_id`, `stage_id`, `kanban_state`, `date_begin`, `date_end`, `date_tz`, `is_multi_slots`, `event_slot_count`, `seats_limited`, `seats_max`, `address_id`, `organizer_id`, `user_id`, `event_url`, `badge_format`, `is_published`, `date_publish` take a value of their own type; any other key, or a value of the wrong shape, changes nothing.
pub open spec fn event_field(x: Event, key: Seq<char>, v: PatchValue) -> Event {
    if key == "name"@ {
        match text_of(v) {
            Some(y) => Event { name: y, ..x },
            None => x,
        }
    } else if key == "event_type_id"@ {
        match opt_uuid_of(v) {
            Some(y) => Event { event_type_id: y, ..x },
            None => x,
        }
    } else if key == "stage_id"@ {
        match uuid_of(v) {
            Some(y) => Event { stage_id: y, ..x },
            None => x,
        }
    } else if key == "kanban_state"@ {
        match match v { PatchValue::Text(s) => EventKanbanState::parse_name(s@), _ => None } {
            Some(y) => Event { kanban_state: y, ..x },
            None => x,
        }
    } else if key == "date_begin"@ {
        match instant_of(v) {
            Some(y) => Event { date_begin: y, ..x },
            None => x,
        }
    } else if key == "date_end"@ {
        match instant_of(v) {
            Some(y) => Event { date_end: y, ..x },
            None => x,
        }
    } else if key == "date_tz"@ {
        match text_of(v) {
            Some(y) => Event { date_tz: y, ..x },
            None => x,
        }
    } else if key == "is_multi_slots"@ {
        match bool_of(v) {
            Some(y) => Event { is_multi_slots: y, ..x },
            None => x,
        }
    } else if key == "event_slot_count"@ {
        match i32_of(v) {
            Some(y) => Event { event_slot_count: y, ..x },
            None => x,
        }
    } else if key == "seats_limited"@ {
        match bool_of(v) {
            Some(y) => Event { seats_limited: y, ..x },
            None => x,
        }
    } else if key == "seats_max"@ {
        match i32_of(v) {
            Some(y) => Event { seats_max: y, ..x },
            None => x,
        }
    } else if key == "address_id"@ {
        match opt_uuid_of(v) {
            Some(y) => Event { address_id: y, ..x },
            None => x,
        }
    } else if key == "organizer_id"@ {
        match opt_uuid_of(v) {
            Some(y) => Event { organizer_id: y, ..x },
            None => x,
        }
    } else if key == "user_id"@ {
        match opt_uuid_of(v) {
            Some(y) => Event { user_id: y, ..x },
            None => x,
        }
    } else if key == "event_url"@ {
        match opt_text_of(v) {
            Some(y) => Event { event_url: y, ..x },
            None => x,
        }
    } else if key == "badge_format"@ {
        match match v { PatchValue::Text(s) => EventBadgeFormat::parse_name(s@), _ => None } {
            Some(y) => Event { badge_format: y, ..x },
            None => x,
        }
    } else if key == "is_published"@ {
        match bool_of(v) {
            Some(y) => Event { is_published: y, ..x },
            None => x,
        }
    } else if key == "date_publish"@ {
        match opt_instant_of(v) {
            Some(y) => Event { date_publish: y, ..x },
            None => x,
        }
    } else {
        x
    }
}

/// A partial update applied field by field, in order.
pub open spec fn event_patched(x: Event, fields: Seq<(String, PatchValue)>) -> Event
    decreases fields.len(),
{
    if fields.len() == 0 {
        x
    } else {
        event_field(event_patched(x, fields.drop_last()), fields.last().0@, fields.last().1)
    }
}

/// A partial update never touches the identifier or the audit metadata.
pub proof fn lemma_patch_keeps_identity(x: Event, fields: Seq<(String, PatchValue)>)
    ensures
        event_patched(x, fields).id == x.id,
        event_patched(x, fields).metadata == x.metadata,
    decreases fields.len(),
{
    if fields.len() > 0 {
        lemma_patch_keeps_identity(x, fields.drop_last());
    }
}

impl Event {
    /// A builder with nothing set.
    pub fn builder() -> (r: EventBuilder)
        ensures
            r.name_value() is None,
            r.event_type_id_value() is None,
            r.stage_id_value() is None,
            r.kanban_state_value() is None,
            r.date_begin_value() is None,
            r.date_end_value() is None,
            r.date_tz_value() is None,
            r.is_multi_slots_value() is None,
            r.event_slot_count_value() is None,
            r.seats_limited_value() is None,
            r.seats_max_value() is None,
            r.address_id_value() is None,
            r.organizer_id_value() is None,
            r.user_id_value() is None,
            r.event_url_value() is None,
            r.badge_format_value() is None,
            r.is_published_value() is None,
            r.date_publish_value() is None,
    {
        EventBuilder::default()
    }

    /// An event with the given fields, the others unset, a fresh identifier and empty audit metadata.
    pub fn new(name: String, stage_id: u128, kanban_state: EventKanbanState, date_begin: i64, date_end: i64, date_tz: String, is_multi_slots: bool, event_slot_count: i32, seats_limited: bool, seats_max: i32, badge_format: EventBadgeFormat, is_published: bool) -> (r: Self)
        ensures
            r.name == name,
            r.event_type_id is None,
            r.stage_id == stage_id,
            r.kanban_state == kanban_state,
            r.date_begin == date_begin,
            r.date_end == date_end,
            r.date_tz == date_tz,
            r.is_multi_slots == is_multi_slots,
            r.event_slot_count == event_slot_count,
            r.seats_limited == seats_limited,
            r.seats_max == seats_max,
            r.address_id is None,
            r.organizer_id is None,
            r.user_id is None,
            r.event_url is None,
            r.badge_format == badge_format,
            r.is_published == is_published,
            r.date_publish is None,
            r.metadata == AuditMetadata::empty(),
    {
        Event {
            id: fresh_uuid(),
            name,
            event_type_id: None,
            stage_id,
            kanban_state,
            date_begin,
            date_end,
            date_tz,
            is_multi_slots,
            event_slot_count,
            seats_limited,
            seats_max,
            address_id: None,
            organizer_id: None,
            user_id: None,
            event_url: None,
            badge_format,
            is_published,
            date_publish: None,
            metadata: AuditMetadata::new(),
        }
    }

    /// The identifier.
    pub fn id(&self) -> (r: u128)
        ensures
            r == self.id,
    {
        self.id
    }

    /// The typed identifier.
    pub fn typed_id(&self) -> (r: EventId)
        ensures
            r.0 == self.id,
    {
        EventId(self.id)
    }

    /// When the event was created.
    pub fn created_at(&self) -> (r: Option<i64>)
        ensures
            r == self.metadata.created_at,
    {
        self.metadata.created_at
    }

    /// When the event was last updated.
    pub fn updated_at(&self) -> (r: Option<i64>)
        ensures
            r == self.metadata.updated_at,
    {
        self.metadata.updated_at
    }

    /// Whether the event is soft-deleted.
    pub fn is_deleted(&self) -> (r: bool)
        ensures
            r == self.metadata.deleted_at.is_some(),
    {
        self.metadata.deleted_at.is_some()
    }

    /// Whether the event is not soft-deleted.
    pub fn is_active(&self) -> (r: bool)
        ensures
            r == self.metadata.deleted_at.is_none(),
    {
        self.metadata.deleted_at.is_none()
    }

    /// When the event was deleted.
    pub fn deleted_at(&self) -> (r: Option<i64>)
        ensures
            r == self.metadata.deleted_at,
    {
        self.metadata.deleted_at
    }

    /// Who created the event.
    pub fn created_by(&self) -> (r: Option<u128>)
        ensures
            r == self.metadata.created_by,
    {
        self.metadata.created_by
    }

    /// Who last updated the event.
    pub fn updated_by(&self) -> (r: Option<u128>)
        ensures
            r == self.metadata.updated_by,
    {
        self.metadata.updated_by
    }

    /// Who deleted the event.
    pub fn deleted_by(&self) -> (r: Option<u128>)
        ensures
            r == self.metadata.deleted_by,
    {
        self.metadata.deleted_by
    }

    /// Sets `event_type_id` (chainable).
    pub fn with_event_type_id(self, value: u128) -> (r: Self)
        ensures
            r == (Event { event_type_id: Some(value), ..self }),
    {
        Event { event_type_id: Some(value), ..self }
    }

    /// Sets `address_id` (chainable).
    pub fn with_address_id(self, value: u128) -> (r: Self)
        ensures
            r == (Event { address_id: Some(value), ..self }),
    {
        Event { address_id: Some(value), ..self }
    }

    /// Sets `organizer_id` (chainable).
    pub fn with_organizer_id(self, value: u128) -> (r: Self)
        ensures
            r == (Event { organizer_id: Some(value), ..self }),
    {
        Event { organizer_id: Some(value), ..self }
    }

    /// Sets `user_id` (chainable).
    pub fn with_user_id(self, value: u128) -> (r: Self)
        ensures
            r == (Event { user_id: Some(value), ..self }),
    {
        Event { user_id: Some(value), ..self }
    }

    /// Sets `event_url` (chainable).
    pub fn with_event_url(self, value: String) -> (r: Self)
        ensures
            r == (Event { event_url: Some(value), ..self }),
    {
        Event { event_url: Some(value), ..self }
    }

    /// Sets `date_publish` (chainable).
    pub fn with_date_publish(self, value: i64) -> (r: Self)
        ensures
            r == (Event { date_publish: Some(value), ..self }),
    {
        Event { date_publish: Some(value), ..self }
    }

    /// The entity's type name.
    pub fn entity_type() -> (r: &'static str)
        ensures
            r@ == "Event"@,
    {
        "Event"
    }

    /// Applies one field of a partial update.
    pub fn apply_field(&mut self, key: &str, value: &PatchValue)
        ensures
            *final(self) == event_field(*old(self), key@, *value),
    {
        if same_text(key, "name") {
            match value_text(value) {
                Some(y) => self.name = y,
                None => {},
            }
        } else if same_text(key, "event_type_id") {
            match value_opt_uuid(value) {
                Some(y) => self.event_type_id = y,
                None => {},
            }
        } else if same_text(key, "stage_id") {
            match value_uuid(value) {
                Some(y) => self.stage_id = y,
                None => {},
            }
        } else if same_text(key, "kanban_state") {
            match match value { PatchValue::Text(s) => EventKanbanState::from_name(s.as_str()), _ => None } {
                Some(y) => self.kanban_state = y,
                None => {},
            }
        } else if same_text(key, "date_begin") {
            match value_instant(value) {
                Some(y) => self.date_begin = y,
                None => {},
            }
        } else if same_text(key, "date_end") {
            match value_instant(value) {
                Some(y) => self.date_end = y,
                None => {},
            }
        } else if same_text(key, "date_tz") {
            match value_text(value) {
                Some(y) => self.date_tz = y,
                None => {},
            }
        } else if same_text(key, "is_multi_slots") {
            match value_bool(value) {
                Some(y) => self.is_multi_slots = y,
                None => {},
            }
        } else if same_text(key, "event_slot_count") {
            match value_i32(value) {
                Some(y) => self.event_slot_count = y,
                None => {},
            }
        } else if same_text(key, "seats_limited") {
            match value_bool(value) {
                Some(y) => self.seats_limited = y,
                None => {},
            }
        } else if same_text(key, "seats_max") {
            match value_i32(value) {
                Some(y) => self.seats_max = y,
                None => {},
            }
        } else if same_text(key, "address_id") {
            match value_opt_uuid(value) {
                Some(y) => self.address_id = y,
                None => {},
            }
        } else if same_text(key, "organizer_id") {
            match value_opt_uuid(value) {
                Some(y) => self.organizer_id = y,
                None => {},
            }
        } else if same_text(key, "user_id") {
            match value_opt_uuid(value) {
                Some(y) => self.user_id = y,
                None => {},
            }
        } else if same_text(key, "event_url") {
            match value_opt_text(value) {
                Some(y) => self.event_url = y,
                None => {},
            }
        } else if same_text(key, "badge_format") {
            match match value { PatchValue::Text(s) => EventBadgeFormat::from_name(s.as_str()), _ => None } {
                Some(y) => self.badge_format = y,
                None => {},
            }
        } else if same_text(key, "is_published") {
            match value_bool(value) {
                Some(y) => self.is_published = y,
                None => {},
            }
        } else if same_text(key, "date_publish") {
            match value_opt_instant(value) {
                Some(y) => self.date_publish = y,
                None => {},
            }
        }
    }

    /// Applies a partial update field by field, in order (unknown keys and
    /// values of the wrong shape are ignored).
    pub fn apply_patch(&mut self, fields: Vec<(String, PatchValue)>)
        ensures
            *final(self) == event_patched(*old(self), fields@),
    {
        let mut i: usize = 0;
        while i < fields.len()
            invariant
                i <= fields.len(),
                *self == event_patched(*old(self), fields@.take(i as int)),
            decreases fields.len() - i,
        {
            let (k, v) = &fields[i];
            self.apply_field(k.as_str(), v);
            proof {
                assert(fields@.take(i + 1).drop_last() =~= fields@.take(i as int));
                assert(fields@.take(i + 1).last() == fields@[i as int]);
            }
            i = i + 1;
        }
        assert(fields@.take(fields.len() as int) =~= fields@);
    }
}

/// The builder of an event: `name`, `stage_id`, `date_begin`, `date_end` required; the kanban state defaults to normal, the time zone to empty, the slot count to 1, the seat cap to 0, the badge format to A4 french fold, the flags to false.
#[derive(Debug, Clone)]
pub struct EventBuilder {
    name: Option<String>,
    event_type_id: Option<u128>,
    stage_id: Option<u128>,
    kanban_state: Option<EventKanbanState>,
    date_begin: Option<i64>,
    date_end: Option<i64>,
    date_tz: Option<String>,
    is_multi_slots: Option<bool>,
    event_slot_count: Option<i32>,
    seats_limited: Option<bool>,
    seats_max: Option<i32>,
    address_id: Option<u128>,
    organizer_id: Option<u128>,
    user_id: Option<u128>,
    event_url: Option<String>,
    badge_format: Option<EventBadgeFormat>,
    is_published: Option<bool>,
    date_publish: Option<i64>,
}

impl Default for EventBuilder {
    fn default() -> (r: Self)
        ensures
            r.name_value() is None,
            r.event_type_id_value() is None,
            r.stage_id_value() is None,
            r.kanban_state_value() is None,
            r.date_begin_value() is None,
            r.date_end_value() is None,
            r.date_tz_value() is None,
            r.is_multi_slots_value() is None,
            r.event_slot_count_value() is None,
            r.seats_limited_value() is None,
            r.seats_max_value() is None,
            r.address_id_value() is None,
            r.organizer_id_value() is None,
            r.user_id_value() is None,
            r.event_url_value() is None,
            r.badge_format_value() is None,
            r.is_published_value() is None,
            r.date_publish_value() is None,
    {
        EventBuilder { name: None, event_type_id: None, stage_id: None, kanban_state: None, date_begin: None, date_end: None, date_tz: None, is_multi_slots: None, event_slot_count: None, seats_limited: None, seats_max: None, address_id: None, organizer_id: None, user_id: None, event_url: None, badge_format: None, is_published: None, date_publish: None }
    }
}

impl EventBuilder {
    /// The `name` set so far.
    pub closed spec fn name_value(self) -> Option<String> {
        self.name
    }

    /// The `event_type_id` set so far.
    pub closed spec fn event_type_id_value(self) -> Option<u128> {
        self.event_type_id
    }

    /// The `stage_id` set so far.
    pub closed spec fn stage_id_value(self) -> Option<u128> {
        self.stage_id
    }

    /// The `kanban_state` set so far.
    pub closed spec fn kanban_state_value(self) -> Option<EventKanbanState> {
        self.kanban_state
    }

    /// The `date_begin` set so far.
    pub closed spec fn date_begin_value(self) -> Option<i64> {
        self.date_begin
    }

    /// The `date_end` set so far.
    pub closed spec fn date_end_value(self) -> Option<i64> {
        self.date_end
    }

    /// The `date_tz` set so far.
    pub closed spec fn date_tz_value(self) -> Option<String> {
        self.date_tz
    }

    /// The `is_multi_slots` set so far.
    pub closed spec fn is_multi_slots_value(self) -> Option<bool> {
        self.is_multi_slots
    }

    /// The `event_slot_count` set so far.
    pub closed spec fn event_slot_count_value(self) -> Option<i32> {
        self.event_slot_count
    }

    /// The `seats_limited` set so far.
    pub closed spec fn seats_limited_value(self) -> Option<bool> {
        self.seats_limited
    }

    /// The `seats_max` set so far.
    pub closed spec fn seats_max_value(self) -> Option<i32> {
        self.seats_max
    }

    /// The `address_id` set so far.
    pub closed spec fn address_id_value(self) -> Option<u128> {
        self.address_id
    }

    /// The `organizer_id` set so far.
    pub closed spec fn organizer_id_value(self) -> Option<u128> {
        self.organizer_id
    }

    /// The `user_id` set so far.
    pub closed spec fn user_id_value(self) -> Option<u128> {
        self.user_id
    }

    /// The `event_url` set so far.
    pub closed spec fn event_url_value(self) -> Option<String> {
        self.event_url
    }

    /// The `badge_format` set so far.
    pub closed spec fn badge_format_value(self) -> Option<EventBadgeFormat> {
        self.badge_format
    }

    /// The `is_published` set so far.
    pub closed spec fn is_published_value(self) -> Option<bool> {
        self.is_published
    }

    /// The `date_publish` set so far.
    pub closed spec fn date_publish_value(self) -> Option<i64> {
        self.date_publish
    }

    /// Sets `name`.
    pub fn name(self, value: String) -> (r: Self)
        ensures
            r.name_value() == Some(value),
            r.event_type_id_value() == self.event_type_id_value(),
            r.stage_id_value() == self.stage_id_value(),
            r.kanban_state_value() == self.kanban_state_value(),
            r.date_begin_value() == self.date_begin_value(),
            r.date_end_value() == self.date_end_value(),
            r.date_tz_value() == self.date_tz_value(),
            r.is_multi_slots_value() == self.is_multi_slots_value(),
            r.event_slot_count_value() == self.event_slot_count_value(),
            r.seats_limited_value() == self.seats_limited_value(),
            r.seats_max_value() == self.seats_max_value(),
            r.address_id_value() == self.address_id_value(),
            r.organizer_id_value() == self.organizer_id_value(),
            r.user_id_value() == self.user_id_value(),
            r.event_url_value() == self.event_url_value(),
            r.badge_format_value() == self.badge_format_value(),
            r.is_published_value() == self.is_published_value(),
            r.date_publish_value() == self.date_publish_value(),
    {
        EventBuilder { name: Some(value), ..self }
    }

    /// Sets `event_type_id`.
    pub fn event_type_id(self, value: u128) -> (r: Self)
        ensures
            r.name_value() == self.name_value(),
            r.event_type_id_value() == Some(value),
            r.stage_id_value() == self.stage_id_value(),
            r.kanban_state_value() == self.kanban_state_value(),
            r.date_begin_value() == self.date_begin_value(),
            r.date_end_value() == self.date_end_value(),
            r.date_tz_value() == self.date_tz_value(),
            r.is_multi_slots_value() == self.is_multi_slots_value(),
            r.event_slot_count_value() == self.event_slot_count_value(),
            r.seats_limited_value() == self.seats_limited_value(),
            r.seats_max_value() == self.seats_max_value(),
            r.address_id_value() == self.address_id_value(),
            r.organizer_id_value() == self.organizer_id_value(),
            r.user_id_value() == self.user_id_value(),
            r.event_url_value() == self.event_url_value(),
            r.badge_format_value() == self.badge_format_value(),
            r.is_published_value() == self.is_published_value(),
            r.date_publish_value() == self.date_publish_value(),
    {
        EventBuilder { event_type_id: Some(value), ..self }
    }

    /// Sets `stage_id`.
    pub fn stage_id(self, value: u128) -> (r: Self)
        ensures
            r.name_value() == self.name_value(),
            r.event_type_id_value() == self.event_type_id_value(),
            r.stage_id_value() == Some(value),
            r.kanban_state_value() == self.kanban_state_value(),
            r.date_begin_value() == self.date_begin_value(),
            r.date_end_value() == self.date_end_value(),
            r.date_tz_value() == self.date_tz_value(),
            r.is_multi_slots_value() == self.is_multi_slots_value(),
            r.event_slot_count_value() == self.event_slot_count_value(),
            r.seats_limited_value() == self.seats_limited_value(),
            r.seats_max_value() == self.seats_max_value(),
            r.address_id_value() == self.address_id_value(),
            r.organizer_id_value() == self.organizer_id_value(),
            r.user_id_value() == self.user_id_value(),
            r.event_url_value() == self.event_url_value(),
            r.badge_format_value() == self.badge_format_value(),
            r.is_published_value() == self.is_published_value(),
            r.date_publish_value() == self.date_publish_value(),
    {
        EventBuilder { stage_id: Some(value), ..self }
    }

    /// Sets `kanban_state`.
    pub fn kanban_state(self, value: EventKanbanState) -> (r: Self)
        ensures
            r.name_value() == self.name_value(),
            r.event_type_id_value() == self.event_type_id_value(),
            r.stage_id_value() == self.stage_id_value(),
            r.kanban_state_value() == Some(value),
            r.date_begin_value() == self.date_begin_value(),
            r.date_end_value() == self.date_end_value(),
            r.date_tz_value() == self.date_tz_value(),
            r.is_multi_slots_value() == self.is_multi_slots_value(),
            r.event_slot_count_value() == self.event_slot_count_value(),
            r.seats_limited_value() == self.seats_limited_value(),
            r.seats_max_value() == self.seats_max_value(),
            r.address_id_value() == self.address_id_value(),
            r.organizer_id_value() == self.organizer_id_value(),
            r.user_id_value() == self.user_id_value(),
            r.event_url_value() == self.event_url_value(),
            r.badge_format_value() == self.badge_format_value(),
            r.is_published_value() == self.is_published_value(),
            r.date_publish_value() == self.date_publish_value(),
    {
        EventBuilder { kanban_state: Some(value), ..self }
    }

    /// Sets `date_begin`.
    pub fn date_begin(self, value: i64) -> (r: Self)
        ensures
            r.name_value() == self.name_value(),
            r.event_type_id_value() == self.event_type_id_value(),
            r.stage_id_value() == self.stage_id_value(),
            r.kanban_state_value() == self.kanban_state_value(),
            r.date_begin_value() == Some(value),
            r.date_end_value() == self.date_end_value(),
            r.date_tz_value() == self.date_tz_value(),
            r.is_multi_slots_value() == self.is_multi_slots_value(),
            r.event_slot_count_value() == self.event_slot_count_value(),
            r.seats_limited_value() == self.seats_limited_value(),
            r.seats_max_value() == self.seats_max_value(),
            r.address_id_value() == self.address_id_value(),
            r.organizer_id_value() == self.organizer_id_value(),
            r.user_id_value() == self.user_id_value(),
            r.event_url_value() == self.event_url_value(),
            r.badge_format_value() == self.badge_format_value(),
            r.is_published_value() == self.is_published_value(),
            r.date_publish_value() == self.date_publish_value(),
    {
        EventBuilder { date_begin: Some(value), ..self }
    }

    /// Sets `date_end`.
    pub fn date_end(self, value: i64) -> (r: Self)
        ensures
            r.name_value() == self.name_value(),
            r.event_type_id_value() == self.event_type_id_value(),
            r.stage_id_value() == self.stage_id_value(),
            r.kanban_state_value() == self.kanban_state_value(),
            r.date_begin_value() == self.date_begin_value(),
            r.date_end_value() == Some(value),
            r.date_tz_value() == self.date_tz_value(),
            r.is_multi_slots_value() == self.is_multi_slots_value(),
            r.event_slot_count_value() == self.event_slot_count_value(),
            r.seats_limited_value() == self.seats_limited_value(),
            r.seats_max_value() == self.seats_max_value(),
            r.address_id_value() == self.address_id_value(),
            r.organizer_id_value() == self.organizer_id_value(),
            r.user_id_value() == self.user_id_value(),
            r.event_url_value() == self.event_url_value(),
            r.badge_format_value() == self.badge_format_value(),
            r.is_published_value() == self.is_published_value(),
            r.date_publish_value() == self.date_publish_value(),
    {
        EventBuilder { date_end: Some(value), ..self }
    }

    /// Sets `date_tz`.
    pub fn date_tz(self, value: String) -> (r: Self)
        ensures
            r.name_value() == self.name_value(),
            r.event_type_id_value() == self.event_type_id_value(),
            r.stage_id_value() == self.stage_id_value(),
            r.kanban_state_value() == self.kanban_state_value(),
            r.date_begin_value() == self.date_begin_value(),
            r.date_end_value() == self.date_end_value(),
            r.date_tz_value() == Some(value),
            r.is_multi_slots_value() == self.is_multi_slots_value(),
            r.event_slot_count_value() == self.event_slot_count_value(),
            r.seats_limited_value() == self.seats_limited_value(),
            r.seats_max_value() == self.seats_max_value(),
            r.address_id_value() == self.address_id_value(),
            r.organizer_id_value() == self.organizer_id_value(),
            r.user_id_value() == self.user_id_value(),
            r.event_url_value() == self.event_url_value(),
            r.badge_format_value() == self.badge_format_value(),
            r.is_published_value() == self.is_published_value(),
            r.date_publish_value() == self.date_publish_value(),
    {
        EventBuilder { date_tz: Some(value), ..self }
    }

    /// Sets `is_multi_slots`.
    pub fn is_multi_slots(self, value: bool) -> (r: Self)
        ensures
            r.name_value() == self.name_value(),
            r.event_type_id_value() == self.event_type_id_value(),
            r.stage_id_value() == self.stage_id_value(),
            r.kanban_state_value() == self.kanban_state_value(),
            r.date_begin_value() == self.date_begin_value(),
            r.date_end_value() == self.date_end_value(),
            r.date_tz_value() == self.date_tz_value(),
            r.is_multi_slots_value() == Some(value),
            r.event_slot_count_value() == self.event_slot_count_value(),
            r.seats_limited_value() == self.seats_limited_value(),
            r.seats_max_value() == self.seats_max_value(),
            r.address_id_value() == self.address_id_value(),
            r.organizer_id_value() == self.organizer_id_value(),
            r.user_id_value() == self.user_id_value(),
            r.event_url_value() == self.event_url_value(),
            r.badge_format_value() == self.badge_format_value(),
            r.is_published_value() == self.is_published_value(),
            r.date_publish_value() == self.date_publish_value(),
    {
        EventBuilder { is_multi_slots: Some(value), ..self }
    }

    /// Sets `event_slot_count`.
    pub fn event_slot_count(self, value: i32) -> (r: Self)
        ensures
            r.name_value() == self.name_value(),
            r.event_type_id_value() == self.event_type_id_value(),
            r.stage_id_value() == self.stage_id_value(),
            r.kanban_state_value() == self.kanban_state_value(),
            r.date_begin_value() == self.date_begin_value(),
            r.date_end_value() == self.date_end_value(),
            r.date_tz_value() == self.date_tz_value(),
            r.is_multi_slots_value() == self.is_multi_slots_value(),
            r.event_slot_count_value() == Some(value),
            r.seats_limited_value() == self.seats_limited_value(),
            r.seats_max_value() == self.seats_max_value(),
            r.address_id_value() == self.address_id_value(),
            r.organizer_id_value() == self.organizer_id_value(),
            r.user_id_value() == self.user_id_value(),
            r.event_url_value() == self.event_url_value(),
            r.badge_format_value() == self.badge_format_value(),
            r.is_published_value() == self.is_published_value(),
            r.date_publish_value() == self.date_publish_value(),
    {
        EventBuilder { event_slot_count: Some(value), ..self }
    }

    /// Sets `seats_limited`.
    pub fn seats_limited(self, value: bool) -> (r: Self)
        ensures
            r.name_value() == self.name_value(),
            r.event_type_id_value() == self.event_type_id_value(),
            r.stage_id_value() == self.stage_id_value(),
            r.kanban_state_value() == self.kanban_state_value(),
            r.date_begin_value() == self.date_begin_value(),
            r.date_end_value() == self.date_end_value(),
            r.date_tz_value() == self.date_tz_value(),
            r.is_multi_slots_value() == self.is_multi_slots_value(),
            r.event_slot_count_value() == self.event_slot_count_value(),
            r.seats_limited_value() == Some(value),
            r.seats_max_value() == self.seats_max_value(),
            r.address_id_value() == self.address_id_value(),
            r.organizer_id_value() == self.organizer_id_value(),
            r.user_id_value() == self.user_id_value(),
            r.event_url_value() == self.event_url_value(),
            r.badge_format_value() == self.badge_format_value(),
            r.is_published_value() == self.is_published_value(),
            r.date_publish_value() == self.date_publish_value(),
    {
        EventBuilder { seats_limited: Some(value), ..self }
    }

    /// Sets `seats_max`.
    pub fn seats_max(self, value: i32) -> (r: Self)
        ensures
            r.name_value() == self.name_value(),
            r.event_type_id_value() == self.event_type_id_value(),
            r.stage_id_value() == self.stage_id_value(),
            r.kanban_state_value() == self.kanban_state_value(),
            r.date_begin_value() == self.date_begin_value(),
            r.date_end_value() == self.date_end_value(),
            r.date_tz_value() == self.date_tz_value(),
            r.is_multi_slots_value() == self.is_multi_slots_value(),
            r.event_slot_count_value() == self.event_slot_count_value(),
            r.seats_limited_value() == self.seats_limited_value(),
            r.seats_max_value() == Some(value),
            r.address_id_value() == self.address_id_value(),
            r.organizer_id_value() == self.organizer_id_value(),
            r.user_id_value() == self.user_id_value(),
            r.event_url_value() == self.event_url_value(),
            r.badge_format_value() == self.badge_format_value(),
            r.is_published_value() == self.is_published_value(),
            r.date_publish_value() == self.date_publish_value(),
    {
        EventBuilder { seats_max: Some(value), ..self }
    }

    /// Sets `address_id`.
    pub fn address_id(self, value: u128) -> (r: Self)
        ensures
            r.name_value() == self.name_value(),
            r.event_type_id_value() == self.event_type_id_value(),
            r.stage_id_value() == self.stage_id_value(),
            r.kanban_state_value() == self.kanban_state_value(),
            r.date_begin_value() == self.date_begin_value(),
            r.date_end_value() == self.date_end_value(),
            r.date_tz_value() == self.date_tz_value(),
            r.is_multi_slots_value() == self.is_multi_slots_value(),
            r.event_slot_count_value() == self.event_slot_count_value(),
            r.seats_limited_value() == self.seats_limited_value(),
            r.seats_max_value() == self.seats_max_value(),
            r.address_id_value() == Some(value),
            r.organizer_id_value() == self.organizer_id_value(),
            r.user_id_value() == self.user_id_value(),
            r.event_url_value() == self.event_url_value(),
            r.badge_format_value() == self.badge_format_value(),
            r.is_published_value() == self.is_published_value(),
            r.date_publish_value() == self.date_publish_value(),
    {
        EventBuilder { address_id: Some(value), ..self }
    }

    /// Sets `organizer_id`.
    pub fn organizer_id(self, value: u128) -> (r: Self)
        ensures
            r.name_value() == self.name_value(),
            r.event_type_id_value() == self.event_type_id_value(),
            r.stage_id_value() == self.stage_id_value(),
            r.kanban_state_value() == self.kanban_state_value(),
            r.date_begin_value() == self.date_begin_value(),
            r.date_end_value() == self.date_end_value(),
            r.date_tz_value() == self.date_tz_value(),
            r.is_multi_slots_value() == self.is_multi_slots_value(),
            r.event_slot_count_value() == self.event_slot_count_value(),
            r.seats_limited_value() == self.seats_limited_value(),
            r.seats_max_value() == self.seats_max_value(),
            r.address_id_value() == self.address_id_value(),
            r.organizer_id_value() == Some(value),
            r.user_id_value() == self.user_id_value(),
            r.event_url_value() == self.event_url_value(),
            r.badge_format_value() == self.badge_format_value(),
            r.is_published_value() == self.is_published_value(),
            r.date_publish_value() == self.date_publish_value(),
    {
        EventBuilder { organizer_id: Some(value), ..self }
    }

    /// Sets `user_id`.
    pub fn user_id(self, value: u128) -> (r: Self)
        ensures
            r.name_value() == self.name_value(),
            r.event_type_id_value() == self.event_type_id_value(),
            r.stage_id_value() == self.stage_id_value(),
            r.kanban_state_value() == self.kanban_state_value(),
            r.date_begin_value() == self.date_begin_value(),
            r.date_end_value() == self.date_end_value(),
            r.date_tz_value() == self.date_tz_value(),
            r.is_multi_slots_value() == self.is_multi_slots_value(),
            r.event_slot_count_value() == self.event_slot_count_value(),
            r.seats_limited_value() == self.seats_limited_value(),
            r.seats_max_value() == self.seats_max_value(),
            r.address_id_value() == self.address_id_value(),
            r.organizer_id_value() == self.organizer_id_value(),
            r.user_id_value() == Some(value),
            r.event_url_value() == self.event_url_value(),
            r.badge_format_value() == self.badge_format_value(),
            r.is_published_value() == self.is_published_value(),
            r.date_publish_value() == self.date_publish_value(),
    {
        EventBuilder { user_id: Some(value), ..self }
    }

    /// Sets `event_url`.
    pub fn event_url(self, value: String) -> (r: Self)
        ensures
            r.name_value() == self.name_value(),
            r.event_type_id_value() == self.event_type_id_value(),
            r.stage_id_value() == self.stage_id_value(),
            r.kanban_state_value() == self.kanban_state_value(),
            r.date_begin_value() == self.date_begin_value(),
            r.date_end_value() == self.date_end_value(),
            r.date_tz_value() == self.date_tz_value(),
            r.is_multi_slots_value() == self.is_multi_slots_value(),
            r.event_slot_count_value() == self.event_slot_count_value(),
            r.seats_limited_value() == self.seats_limited_value(),
            r.seats_max_value() == self.seats_max_value(),
            r.address_id_value() == self.address_id_value(),
            r.organizer_id_value() == self.organizer_id_value(),
            r.user_id_value() == self.user_id_value(),
            r.event_url_value() == Some(value),
            r.badge_format_value() == self.badge_format_value(),
            r.is_published_value() == self.is_published_value(),
            r.date_publish_value() == self.date_publish_value(),
    {
        EventBuilder { event_url: Some(value), ..self }
    }

    /// Sets `badge_format`.
    pub fn badge_format(self, value: EventBadgeFormat) -> (r: Self)
        ensures
            r.name_value() == self.name_value(),
            r.event_type_id_value() == self.event_type_id_value(),
            r.stage_id_value() == self.stage_id_value(),
            r.kanban_state_value() == self.kanban_state_value(),
            r.date_begin_value() == self.date_begin_value(),
            r.date_end_value() == self.date_end_value(),
            r.date_tz_value() == self.date_tz_value(),
            r.is_multi_slots_value() == self.is_multi_slots_value(),
            r.event_slot_count_value() == self.event_slot_count_value(),
            r.seats_limited_value() == self.seats_limited_value(),
            r.seats_max_value() == self.seats_max_value(),
            r.address_id_value() == self.address_id_value(),
            r.organizer_id_value() == self.organizer_id_value(),
            r.user_id_value() == self.user_id_value(),
            r.event_url_value() == self.event_url_value(),
            r.badge_format_value() == Some(value),
            r.is_published_value() == self.is_published_value(),
            r.date_publish_value() == self.date_publish_value(),
    {
        EventBuilder { badge_format: Some(value), ..self }
    }

    /// Sets `is_published`.
    pub fn is_published(self, value: bool) -> (r: Self)
        ensures
            r.name_value() == self.name_value(),
            r.event_type_id_value() == self.event_type_id_value(),
            r.stage_id_value() == self.stage_id_value(),
            r.kanban_state_value() == self.kanban_state_value(),
            r.date_begin_value() == self.date_begin_value(),
            r.date_end_value() == self.date_end_value(),
            r.date_tz_value() == self.date_tz_value(),
            r.is_multi_slots_value() == self.is_multi_slots_value(),
            r.event_slot_count_value() == self.event_slot_count_value(),
            r.seats_limited_value() == self.seats_limited_value(),
            r.seats_max_value() == self.seats_max_value(),
            r.address_id_value() == self.address_id_value(),
            r.organizer_id_value() == self.organizer_id_value(),
            r.user_id_value() == self.user_id_value(),
            r.event_url_value() == self.event_url_value(),
            r.badge_format_value() == self.badge_format_value(),
            r.is_published_value() == Some(value),
            r.date_publish_value() == self.date_publish_value(),
    {
        EventBuilder { is_published: Some(value), ..self }
    }

    /// Sets `date_publish`.
    pub fn date_publish(self, value: i64) -> (r: Self)
        ensures
            r.name_value() == self.name_value(),
            r.event_type_id_value() == self.event_type_id_value(),
            r.stage_id_value() == self.stage_id_value(),
            r.kanban_state_value() == self.kanban_state_value(),
            r.date_begin_value() == self.date_begin_value(),
            r.date_end_value() == self.date_end_value(),
            r.date_tz_value() == self.date_tz_value(),
            r.is_multi_slots_value() == self.is_multi_slots_value(),
            r.event_slot_count_value() == self.event_slot_count_value(),
            r.seats_limited_value() == self.seats_limited_value(),
            r.seats_max_value() == self.seats_max_value(),
            r.address_id_value() == self.address_id_value(),
            r.organizer_id_value() == self.organizer_id_value(),
            r.user_id_value() == self.user_id_value(),
            r.event_url_value() == self.event_url_value(),
            r.badge_format_value() == self.badge_format_value(),
            r.is_published_value() == self.is_published_value(),
            r.date_publish_value() == Some(value),
    {
        EventBuilder { date_publish: Some(value), ..self }
    }

    /// Builds the event: refused with `<field> is required` for the first
    /// required field not set; otherwise the set values, the defaults, a
    /// fresh identifier and empty audit metadata.
    pub fn build(self) -> (r: Result<Event, String>)
        ensures
            self.name_value() is None ==> r.is_err() && r->Err_0@ == "name is required"@,
            self.name_value() is Some && self.stage_id_value() is None ==> r.is_err() && r->Err_0@ == "stage_id is required"@,
            self.name_value() is Some && self.stage_id_value() is Some && self.date_begin_value() is None ==> r.is_err() && r->Err_0@ == "date_begin is required"@,
            self.name_value() is Some && self.stage_id_value() is Some && self.date_begin_value() is Some && self.date_end_value() is None ==> r.is_err() && r->Err_0@ == "date_end is required"@,
            self.name_value() is Some && self.stage_id_value() is Some && self.date_begin_value() is Some && self.date_end_value() is Some ==> r.is_ok() && {
                let x = r->Ok_0;
                &&& x.name == self.name_value()->0
                &&& x.event_type_id == self.event_type_id_value()
                &&& x.stage_id == self.stage_id_value()->0
                &&& x.kanban_state == match self.kanban_state_value() { Some(y) => y, None => EventKanbanState::Normal }
                &&& x.date_begin == self.date_begin_value()->0
                &&& x.date_end == self.date_end_value()->0
                &&& x.date_tz@ == match self.date_tz_value() { Some(y) => y@, None => Seq::<char>::empty() }
                &&& x.is_multi_slots == match self.is_multi_slots_value() { Some(y) => y, None => false }
                &&& x.event_slot_count == match self.event_slot_count_value() { Some(y) => y, None => 1i32 }
                &&& x.seats_limited == match self.seats_limited_value() { Some(y) => y, None => false }
                &&& x.seats_max == match self.seats_max_value() { Some(y) => y, None => 0i32 }
                &&& x.address_id == self.address_id_value()
                &&& x.organizer_id == self.organizer_id_value()
                &&& x.user_id == self.user_id_value()
                &&& x.event_url == self.event_url_value()
                &&& x.badge_format == match self.badge_format_value() { Some(y) => y, None => EventBadgeFormat::A4FrenchFold }
                &&& x.is_published == match self.is_published_value() { Some(y) => y, None => false }
                &&& x.date_publish == self.date_publish_value()
                &&& x.metadata == AuditMetadata::empty()
            },
    {
        let name = match self.name {
            Some(y) => y,
            None => return Err(string_of(&chars_of("name is required"))),
        };
        let stage_id = match self.stage_id {
            Some(y) => y,
            None => return Err(string_of(&chars_of("stage_id is required"))),
        };
        let date_begin = match self.date_begin {
            Some(y) => y,
            None => return Err(string_of(&chars_of("date_begin is required"))),
        };
        let date_end = match self.date_end {
            Some(y) => y,
            None => return Err(string_of(&chars_of("date_end is required"))),
        };
        Ok(Event {
            id: fresh_uuid(),
            name,
            event_type_id: self.event_type_id,
            stage_id,
            kanban_state: match self.kanban_state { Some(y) => y, None => EventKanbanState::Normal },
            date_begin,
            date_end,
            date_tz: match self.date_tz { Some(y) => y, None => String::new() },
            is_multi_slots: match self.is_multi_slots { Some(y) => y, None => false },
            event_slot_count: match self.event_slot_count { Some(y) => y, None => 1i32 },
            seats_limited: match self.seats_limited { Some(y) => y, None => false },
            seats_max: match self.seats_max { Some(y) => y, None => 0i32 },
            address_id: self.address_id,
            organizer_id: self.organizer_id,
            user_id: self.user_id,
            event_url: self.event_url,
            badge_format: match self.badge_format { Some(y) => y, None => EventBadgeFormat::A4FrenchFold },
            is_published: match self.is_published { Some(y) => y, None => false },
            date_publish: self.date_publish,
            metadata: AuditMetadata::new(),
        })
    }
}

} // verus!
