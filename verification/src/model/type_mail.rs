//! A communication scheduler of an event type.

use vstd::prelude::*;
use crate::entity::{AuditMetadata, PatchValue, i32_of, opt_text_of, opt_uuid_of, uuid_of, value_i32, value_opt_text, value_opt_uuid, value_uuid};
use crate::ids::fresh_uuid;
use crate::text::{chars_of, string_of, same_text};
use crate::vocab::{EventIntervalKind, EventIntervalUnit, EventNotificationChannel};

verus! {

/// The typed identifier of a type scheduler.
#[derive(Debug, Clone, Copy, PartialEq, Eq, Structural)]
pub struct TypeMailId(pub u128);

impl TypeMailId {
    /// Wraps an identifier.
    pub fn new(id: u128) -> (r: Self)
        ensures
            r.0 == id,
    {
        TypeMailId(id)
    }

    /// A fresh random identifier (nothing is claimed of its value).
    pub fn generate() -> (r: Self) {
        TypeMailId(fresh_uuid())
    }

    /// The wrapped identifier.
    pub fn into_inner(self) -> (r: u128)
        ensures
            r == self.0,
    {
        self.0
    }
}

/// A communication scheduler of an event type.
#[derive(Debug, Clone)]
pub struct TypeMail {
    pub id: u128,
    pub event_type_id: u128,
    pub interval_nbr: i32,
    pub interval_unit: EventIntervalUnit,
    pub interval_kind: EventIntervalKind,
    pub notification_channel: EventNotificationChannel,
    pub template_ref: Option<u128>,
    pub template_kind: Option<String>,
    pub metadata: AuditMetadata,
}

/// One field of a partial update applied to a type scheduler: `event_type_id`, `interval_nbr`, `interval_unit`, `interval_kind`, `notification_channel`, `template_ref`, `template_kind` take a value of their own type; any other key, or a value of the wrong shape, changes nothing.
pub open spec fn type_mail_field(x: TypeMail, key: Seq<char>, v: PatchValue) -> TypeMail {
    if key == "event_type_id"@ {
        match uuid_of(v) {
            Some(y) => TypeMail { event_type_id: y, ..x },
            None => x,
        }
    } else if key == "interval_nbr"@ {
        match i32_of(v) {
            Some(y) => TypeMail { interval_nbr: y, ..x },
            None => x,
        }
    } else if key == "interval_unit"@ {
        match match v { PatchValue::Text(s) => EventIntervalUnit::parse_name(s@), _ => None } {
            Some(y) => TypeMail { interval_unit: y, ..x },
            None => x,
        }
    } else if key == "interval_kind"@ {
        match match v { PatchValue::Text(s) => EventIntervalKind::parse_name(s@), _ => None } {
            Some(y) => TypeMail { interval_kind: y, ..x },
            None => x,
        }
    } else if key == "notification_channel"@ {
        match match v { PatchValue::Text(s) => EventNotificationChannel::parse_name(s@), _ => None } {
            Some(y) => TypeMail { notification_channel: y, ..x },
            None => x,
        }
    } else if key == "template_ref"@ {
        match opt_uuid_of(v) {
            Some(y) => TypeMail { template_ref: y, ..x },
            None => x,
        }
    } else if key == "template_kind"@ {
        match opt_text_of(v) {
            Some(y) => TypeMail { template_kind: y, ..x },
            None => x,
        }
    } else {
        x
    }
}

/// A partial update applied field by field, in order.
pub open spec fn type_mail_patched(x: TypeMail, fields: Seq<(String, PatchValue)>) -> TypeMail
    decreases fields.len(),
{
    if fields.len() == 0 {
        x
    } else {
        type_mail_field(type_mail_patched(x, fields.drop_last()), fields.last().0@, fields.last().1)
    }
}

/// A partial update never touches the identifier or the audit metadata.
pub proof fn lemma_patch_keeps_identity(x: TypeMail, fields: Seq<(String, PatchValue)>)
    ensures
        type_mail_patched(x, fields).id == x.id,
        type_mail_patched(x, fields).metadata == x.metadata,
    decreases fields.len(),
{
    if fields.len() > 0 {
        lemma_patch_keeps_identity(x, fields.drop_last());
    }
}

impl TypeMail {
    /// A builder with nothing set.
    pub fn builder() -> (r: TypeMailBuilder)
        ensures
            r.event_type_id_value() is None,
            r.interval_nbr_value() is None,
            r.interval_unit_value() is None,
            r.interval_kind_value() is None,
            r.notification_channel_value() is None,
            r.template_ref_value() is None,
            r.template_kind_value() is None,
    {
        TypeMailBuilder::default()
    }

    /// A type scheduler with the given fields, the others unset, a fresh identifier and empty audit metadata.
    pub fn new(event_type_id: u128, interval_nbr: i32, interval_unit: EventIntervalUnit, interval_kind: EventIntervalKind, notification_channel: EventNotificationChannel) -> (r: Self)
        ensures
            r.event_type_id == event_type_id,
            r.interval_nbr == interval_nbr,
            r.interval_unit == interval_unit,
            r.interval_kind == interval_kind,
            r.notification_channel == notification_channel,
            r.template_ref is None,
            r.template_kind is None,
            r.metadata == AuditMetadata::empty(),
    {
        TypeMail {
            id: fresh_uuid(),
            event_type_id,
            interval_nbr,
            interval_unit,
            interval_kind,
            notification_channel,
            template_ref: None,
            template_kind: None,
            metadata: AuditMetadata::new(),
        }
    }

    /// The identifier.
    pub fn id(&self) -> (r: u128)
        ensures
            r == self.id,
    {
        self.id
    }

    /// The typed identifier.
    pub fn typed_id(&self) -> (r: TypeMailId)
        ensures
            r.0 == self.id,
    {
        TypeMailId(self.id)
    }

    /// When the scheduler was created.
    pub fn created_at(&self) -> (r: Option<i64>)
        ensures
            r == self.metadata.created_at,
    {
        self.metadata.created_at
    }

    /// When the scheduler was last updated.
    pub fn updated_at(&self) -> (r: Option<i64>)
        ensures
            r == self.metadata.updated_at,
    {
        self.metadata.updated_at
    }

    /// Whether the scheduler is soft-deleted.
    pub fn is_deleted(&self) -> (r: bool)
        ensures
            r == self.metadata.deleted_at.is_some(),
    {
        self.metadata.deleted_at.is_some()
    }

    /// Whether the scheduler is not soft-deleted.
    pub fn is_active(&self) -> (r: bool)
        ensures
            r == self.metadata.deleted_at.is_none(),
    {
        self.metadata.deleted_at.is_none()
    }

    /// When the scheduler was deleted.
    pub fn deleted_at(&self) -> (r: Option<i64>)
        ensures
            r == self.metadata.deleted_at,
    {
        self.metadata.deleted_at
    }

    /// Who created the scheduler.
    pub fn created_by(&self) -> (r: Option<u128>)
        ensures
            r == self.metadata.created_by,
    {
        self.metadata.created_by
    }

    /// Who last updated the scheduler.
    pub fn updated_by(&self) -> (r: Option<u128>)
        ensures
            r == self.metadata.updated_by,
    {
        self.metadata.updated_by
    }

    /// Who deleted the scheduler.
    pub fn deleted_by(&self) -> (r: Option<u128>)
        ensures
            r == self.metadata.deleted_by,
    {
        self.metadata.deleted_by
    }

    /// Sets `template_ref` (chainable).
    pub fn with_template_ref(self, value: u128) -> (r: Self)
        ensures
            r == (TypeMail { template_ref: Some(value), ..self }),
    {
        TypeMail { template_ref: Some(value), ..self }
    }

    /// Sets `template_kind` (chainable).
    pub fn with_template_kind(self, value: String) -> (r: Self)
        ensures
            r == (TypeMail { template_kind: Some(value), ..self }),
    {
        TypeMail { template_kind: Some(value), ..self }
    }

    /// The entity's type name.
    pub fn entity_type() -> (r: &'static str)
        ensures
            r@ == "TypeMail"@,
    {
        "TypeMail"
    }

    /// Applies one field of a partial update.
    pub fn apply_field(&mut self, key: &str, value: &PatchValue)
        ensures
            *final(self) == type_mail_field(*old(self), key@, *value),
    {
        if same_text(key, "event_type_id") {
            match value_uuid(value) {
                Some(y) => self.event_type_id = y,
                None => {},
            }
        } else if same_text(key, "interval_nbr") {
            match value_i32(value) {
                Some(y) => self.interval_nbr = y,
                None => {},
            }
        } else if same_text(key, "interval_unit") {
            match match value { PatchValue::Text(s) => EventIntervalUnit::from_name(s.as_str()), _ => None } {
                Some(y) => self.interval_unit = y,
                None => {},
            }
        } else if same_text(key, "interval_kind") {
            match match value { PatchValue::Text(s) => EventIntervalKind::from_name(s.as_str()), _ => None } {
                Some(y) => self.interval_kind = y,
                None => {},
            }
        } else if same_text(key, "notification_channel") {
            match match value { PatchValue::Text(s) => EventNotificationChannel::from_name(s.as_str()), _ => None } {
                Some(y) => self.notification_channel = y,
                None => {},
            }
        } else if same_text(key, "template_ref") {
            match value_opt_uuid(value) {
                Some(y) => self.template_ref = y,
                None => {},
            }
        } else if same_text(key, "template_kind") {
            match value_opt_text(value) {
                Some(y) => self.template_kind = y,
                None => {},
            }
        }
    }

    /// Applies a partial update field by field, in order (unknown keys and
    /// values of the wrong shape are ignored).
    pub fn apply_patch(&mut self, fields: Vec<(String, PatchValue)>)
        ensures
            *final(self) == type_mail_patched(*old(self), fields@),
    {
        let mut i: usize = 0;
        while i < fields.len()
            invariant
                i <= fields.len(),
                *self == type_mail_patched(*old(self), fields@.take(i as int)),
            decreases fields.len() - i,
        {
            let (k, v) = &fields[i];
            self.apply_field(k.as_str(), v);
            proof {
                assert(fields@.take(i + 1).drop_last() =~= fields@.take(i as int));
                assert(fields@.take(i + 1).last() == fields@[i as int]);
            }
            i = i + 1;
        }
        assert(fields@.take(fields.len() as int) =~= fields@);
    }
}

/// The builder of a type scheduler: `event_type_id` required; the interval defaults to 1, now, after subscription, by mail.
#[derive(Debug, Clone)]
pub struct TypeMailBuilder {
    event_type_id: Option<u128>,
    interval_nbr: Option<i32>,
    interval_unit: Option<EventIntervalUnit>,
    interval_kind: Option<EventIntervalKind>,
    notification_channel: Option<EventNotificationChannel>,
    template_ref: Option<u128>,
    template_kind: Option<String>,
}

impl Default for TypeMailBuilder {
    fn default() -> (r: Self)
        ensures
            r.event_type_id_value() is None,
            r.interval_nbr_value() is None,
            r.interval_unit_value() is None,
            r.interval_kind_value() is None,
            r.notification_channel_value() is None,
            r.template_ref_value() is None,
            r.template_kind_value() is None,
    {
        TypeMailBuilder { event_type_id: None, interval_nbr: None, interval_unit: None, interval_kind: None, notification_channel: None, template_ref: None, template_kind: None }
    }
}

impl TypeMailBuilder {
    /// The `event_type_id` set so far.
    pub closed spec fn event_type_id_value(self) -> Option<u128> {
        self.event_type_id
    }

    /// The `interval_nbr` set so far.
    pub closed spec fn interval_nbr_value(self) -> Option<i32> {
        self.interval_nbr
    }

    /// The `interval_unit` set so far.
    pub closed spec fn interval_unit_value(self) -> Option<EventIntervalUnit> {
        self.interval_unit
    }

    /// The `interval_kind` set so far.
    pub closed spec fn interval_kind_value(self) -> Option<EventIntervalKind> {
        self.interval_kind
    }

    /// The `notification_channel` set so far.
    pub closed spec fn notification_channel_value(self) -> Option<EventNotificationChannel> {
        self.notification_channel
    }

    /// The `template_ref` set so far.
    pub closed spec fn template_ref_value(self) -> Option<u128> {
        self.template_ref
    }

    /// The `template_kind` set so far.
    pub closed spec fn template_kind_value(self) -> Option<String> {
        self.template_kind
    }

    /// Sets `event_type_id`.
    pub fn event_type_id(self, value: u128) -> (r: Self)
        ensures
            r.event_type_id_value() == Some(value),
            r.interval_nbr_value() == self.interval_nbr_value(),
            r.interval_unit_value() == self.interval_unit_value(),
            r.interval_kind_value() == self.interval_kind_value(),
            r.notification_channel_value() == self.notification_channel_value(),
            r.template_ref_value() == self.template_ref_value(),
            r.template_kind_value() == self.template_kind_value(),
    {
        TypeMailBuilder { event_type_id: Some(value), ..self }
    }

    /// Sets `interval_nbr`.
    pub fn interval_nbr(self, value: i32) -> (r: Self)
        ensures
            r.event_type_id_value() == self.event_type_id_value(),
            r.interval_nbr_value() == Some(value),
            r.interval_unit_value() == self.interval_unit_value(),
            r.interval_kind_value() == self.interval_kind_value(),
            r.notification_channel_value() == self.notification_channel_value(),
            r.template_ref_value() == self.template_ref_value(),
            r.template_kind_value() == self.template_kind_value(),
    {
        TypeMailBuilder { interval_nbr: Some(value), ..self }
    }

    /// Sets `interval_unit`.
    pub fn interval_unit(self, value: EventIntervalUnit) -> (r: Self)
        ensures
            r.event_type_id_value() == self.event_type_id_value(),
            r.interval_nbr_value() == self.interval_nbr_value(),
            r.interval_unit_value() == Some(value),
            r.interval_kind_value() == self.interval_kind_value(),
            r.notification_channel_value() == self.notification_channel_value(),
            r.template_ref_value() == self.template_ref_value(),
            r.template_kind_value() == self.template_kind_value(),
    {
        TypeMailBuilder { interval_unit: Some(value), ..self }
    }

    /// Sets `interval_kind`.
    pub fn interval_kind(self, value: EventIntervalKind) -> (r: Self)
        ensures
            r.event_type_id_value() == self.event_type_id_value(),
            r.interval_nbr_value() == self.interval_nbr_value(),
            r.interval_unit_value() == self.interval_unit_value(),
            r.interval_kind_value() == Some(value),
            r.notification_channel_value() == self.notification_channel_value(),
            r.template_ref_value() == self.template_ref_value(),
            r.template_kind_value() == self.template_kind_value(),
    {
        TypeMailBuilder { interval_kind: Some(value), ..self }
    }

    /// Sets `notification_channel`.
    pub fn notification_channel(self, value: EventNotificationChannel) -> (r: Self)
        ensures
            r.event_type_id_value() == self.event_type_id_value(),
            r.interval_nbr_value() == self.interval_nbr_value(),
            r.interval_unit_value() == self.interval_unit_value(),
            r.interval_kind_value() == self.interval_kind_value(),
            r.notification_channel_value() == Some(value),
            r.template_ref_value() == self.template_ref_value(),
            r.template_kind_value() == self.template_kind_value(),
    {
        TypeMailBuilder { notification_channel: Some(value), ..self }
    }

    /// Sets `template_ref`.
    pub fn template_ref(self, value: u128) -> (r: Self)
        ensures
            r.event_type_id_value() == self.event_type_id_value(),
            r.interval_nbr_value() == self.interval_nbr_value(),
            r.interval_unit_value() == self.interval_unit_value(),
            r.interval_kind_value() == self.interval_kind_value(),
            r.notification_channel_value() == self.notification_channel_value(),
            r.template_ref_value() == Some(value),
            r.template_kind_value() == self.template_kind_value(),
    {
        TypeMailBuilder { template_ref: Some(value), ..self }
    }

    /// Sets `template_kind`.
    pub fn template_kind(self, value: String) -> (r: Self)
        ensures
            r.event_type_id_value() == self.event_type_id_value(),
            r.interval_nbr_value() == self.interval_nbr_value(),
            r.interval_unit_value() == self.interval_unit_value(),
            r.interval_kind_value() == self.interval_kind_value(),
            r.notification_channel_value() == self.notification_channel_value(),
            r.template_ref_value() == self.template_ref_value(),
            r.template_kind_value() == Some(value),
    {
        TypeMailBuilder { template_kind: Some(value), ..self }
    }

    /// Builds the scheduler: refused with `<field> is required` for the first
    /// required field not set; otherwise the set values, the defaults, a
    /// fresh identifier and empty audit metadata.
    pub fn build(self) -> (r: Result<TypeMail, String>)
        ensures
            self.event_type_id_value() is None ==> r.is_err() && r->Err_0@ == "event_type_id is required"@,
            self.event_type_id_value() is Some ==> r.is_ok() && {
                let x = r->Ok_0;
                &&& x.event_type_id == self.event_type_id_value()->0
                &&& x.interval_nbr == match self.interval_nbr_value() { Some(y) => y, None => 1i32 }
                &&& x.interval_unit == match self.interval_unit_value() { Some(y) => y, None => EventIntervalUnit::Now }
                &&& x.interval_kind == match self.interval_kind_value() { Some(y) => y, None => EventIntervalKind::AfterSub }
                &&& x.notification_channel == match self.notification_channel_value() { Some(y) => y, None => EventNotificationChannel::Mail }
                &&& x.template_ref == self.template_ref_value()
                &&& x.template_kind == self.template_kind_value()
                &&& x.metadata == AuditMetadata::empty()
            },
    {
        let event_type_id = match self.event_type_id {
            Some(y) => y,
            None => return Err(string_of(&chars_of("event_type_id is required"))),
        };
        Ok(TypeMail {
            id: fresh_uuid(),
            event_type_id,
            interval_nbr: match self.interval_nbr { Some(y) => y, None => 1i32 },
            interval_unit: match self.interval_unit { Some(y) => y, None => EventIntervalUnit::Now },
            interval_kind: match self.interval_kind { Some(y) => y, None => EventIntervalKind::AfterSub },
            notification_channel: match self.notification_channel { Some(y) => y, None => EventNotificationChannel::Mail },
            template_ref: self.template_ref,
            template_kind: self.template_kind,
            metadata: AuditMetadata::new(),
        })
    }
}

} // verus!
