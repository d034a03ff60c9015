use vstd::prelude::*;
use crate::text::{same_text, to_lowercase, extend_str, string_of, unicode_lowercase, all_ascii, ascii_lower_seq,
    ascii_upper_seq, lower_word, lemma_lower_word_case};

verus! {

/// The audited-fact vocabulary.
#[derive(Debug, Clone, Copy, PartialEq, Eq, Hash, Structural)]
pub enum EventAuditEvent {
    EventCreated,
    EventUpdated,
    EventPublished,
    EventUnpublished,
    PublishRefused,
    EventMarkDone,
    RegistrationCreated,
    RegistrationRefused,
    RegistrationStateChanged,
    RegistrationArchived,
    SchedulerCreated,
    SchedulerRun,
    SchedulerFailed,
    ReceiptDroppedWindowClosed,
    CapabilityRefused,
    RegistrationUpdated,
    SaleSeamConfirmed,
    SaleSeamCancelled,
    SaleSeamPaid,
    BoothCreated,
    BoothUpdated,
    BoothDeleted,
    BoothConfirmed,
    BoothReleased,
    BoothBookingCreated,
    BoothBookingDeleted,
    LeadRuleCreated,
    LeadRuleUpdated,
    LeadRelinked,
    TemplateCascade,
}

impl EventAuditEvent {
    /// The snake_case wire name of the variant.
    pub open spec fn name_spec(self) -> Seq<char> {
        match self {
            EventAuditEvent::EventCreated => "event_created"@,
            EventAuditEvent::EventUpdated => "event_updated"@,
            EventAuditEvent::EventPublished => "event_published"@,
            EventAuditEvent::EventUnpublished => "event_unpublished"@,
            EventAuditEvent::PublishRefused => "publish_refused"@,
            EventAuditEvent::EventMarkDone => "event_mark_done"@,
            EventAuditEvent::RegistrationCreated => "registration_created"@,
            EventAuditEvent::RegistrationRefused => "registration_refused"@,
            EventAuditEvent::RegistrationStateChanged => "registration_state_changed"@,
            EventAuditEvent::RegistrationArchived => "registration_archived"@,
            EventAuditEvent::SchedulerCreated => "scheduler_created"@,
            EventAuditEvent::SchedulerRun => "scheduler_run"@,
            EventAuditEvent::SchedulerFailed => "scheduler_failed"@,
            EventAuditEvent::ReceiptDroppedWindowClosed => "receipt_dropped_window_closed"@,
            EventAuditEvent::CapabilityRefused => "capability_refused"@,
            EventAuditEvent::RegistrationUpdated => "registration_updated"@,
            EventAuditEvent::SaleSeamConfirmed => "sale_seam_confirmed"@,
            EventAuditEvent::SaleSeamCancelled => "sale_seam_cancelled"@,
            EventAuditEvent::SaleSeamPaid => "sale_seam_paid"@,
            EventAuditEvent::BoothCreated => "booth_created"@,
            EventAuditEvent::BoothUpdated => "booth_updated"@,
            EventAuditEvent::BoothDeleted => "booth_deleted"@,
            EventAuditEvent::BoothConfirmed => "booth_confirmed"@,
            EventAuditEvent::BoothReleased => "booth_released"@,
            EventAuditEvent::BoothBookingCreated => "booth_booking_created"@,
            EventAuditEvent::BoothBookingDeleted => "booth_booking_deleted"@,
            EventAuditEvent::LeadRuleCreated => "lead_rule_created"@,
            EventAuditEvent::LeadRuleUpdated => "lead_rule_updated"@,
            EventAuditEvent::LeadRelinked => "lead_relinked"@,
            EventAuditEvent::TemplateCascade => "template_cascade"@,
        }
    }

    /// The variant a (lowercased) wire name denotes, if any.
    pub open spec fn parse_name(t: Seq<char>) -> Option<Self> {
        if t == "event_created"@ {
            Some(EventAuditEvent::EventCreated)
        } else if t == "event_updated"@ {
            Some(EventAuditEvent::EventUpdated)
        } else if t == "event_published"@ {
            Some(EventAuditEvent::EventPublished)
        } else if t == "event_unpublished"@ {
            Some(EventAuditEvent::EventUnpublished)
        } else if t == "publish_refused"@ {
            Some(EventAuditEvent::PublishRefused)
        } else if t == "event_mark_done"@ {
            Some(EventAuditEvent::EventMarkDone)
        } else if t == "registration_created"@ {
            Some(EventAuditEvent::RegistrationCreated)
        } else if t == "registration_refused"@ {
            Some(EventAuditEvent::RegistrationRefused)
        } else if t == "registration_state_changed"@ {
            Some(EventAuditEvent::RegistrationStateChanged)
        } else if t == "registration_archived"@ {
            Some(EventAuditEvent::RegistrationArchived)
        } else if t == "scheduler_created"@ {
            Some(EventAuditEvent::SchedulerCreated)
        } else if t == "scheduler_run"@ {
            Some(EventAuditEvent::SchedulerRun)
        } else if t == "scheduler_failed"@ {
            Some(EventAuditEvent::SchedulerFailed)
        } else if t == "receipt_dropped_window_closed"@ {
            Some(EventAuditEvent::ReceiptDroppedWindowClosed)
        } else if t == "capability_refused"@ {
            Some(EventAuditEvent::CapabilityRefused)
        } else if t == "registration_updated"@ {
            Some(EventAuditEvent::RegistrationUpdated)
        } else if t == "sale_seam_confirmed"@ {
            Some(EventAuditEvent::SaleSeamConfirmed)
        } else if t == "sale_seam_cancelled"@ {
            Some(EventAuditEvent::SaleSeamCancelled)
        } else if t == "sale_seam_paid"@ {
            Some(EventAuditEvent::SaleSeamPaid)
        } else if t == "booth_created"@ {
            Some(EventAuditEvent::BoothCreated)
        } else if t == "booth_updated"@ {
            Some(EventAuditEvent::BoothUpdated)
        } else if t == "booth_deleted"@ {
            Some(EventAuditEvent::BoothDeleted)
        } else if t == "booth_confirmed"@ {
            Some(EventAuditEvent::BoothConfirmed)
        } else if t == "booth_released"@ {
            Some(EventAuditEvent::BoothReleased)
        } else if t == "booth_booking_created"@ {
            Some(EventAuditEvent::BoothBookingCreated)
        } else if t == "booth_booking_deleted"@ {
            Some(EventAuditEvent::BoothBookingDeleted)
        } else if t == "lead_rule_created"@ {
            Some(EventAuditEvent::LeadRuleCreated)
        } else if t == "lead_rule_updated"@ {
            Some(EventAuditEvent::LeadRuleUpdated)
        } else if t == "lead_relinked"@ {
            Some(EventAuditEvent::LeadRelinked)
        } else if t == "template_cascade"@ {
            Some(EventAuditEvent::TemplateCascade)
        } else {
            None
        }
    }

    /// The text `from_str` refuses an unknown name with.
    pub open spec fn unknown_message(s: Seq<char>) -> Seq<char> {
        "Unknown EventAuditEvent variant: "@ + s
    }

    /// The wire name (what `Display` writes).
    pub fn as_str(&self) -> (r: &'static str)
        ensures
            r@ == self.name_spec(),
    {
        match self {
            EventAuditEvent::EventCreated => "event_created",
            EventAuditEvent::EventUpdated => "event_updated",
            EventAuditEvent::EventPublished => "event_published",
            EventAuditEvent::EventUnpublished => "event_unpublished",
            EventAuditEvent::PublishRefused => "publish_refused",
            EventAuditEvent::EventMarkDone => "event_mark_done",
            EventAuditEvent::RegistrationCreated => "registration_created",
            EventAuditEvent::RegistrationRefused => "registration_refused",
            EventAuditEvent::RegistrationStateChanged => "registration_state_changed",
            EventAuditEvent::RegistrationArchived => "registration_archived",
            EventAuditEvent::SchedulerCreated => "scheduler_created",
            EventAuditEvent::SchedulerRun => "scheduler_run",
            EventAuditEvent::SchedulerFailed => "scheduler_failed",
            EventAuditEvent::ReceiptDroppedWindowClosed => "receipt_dropped_window_closed",
            EventAuditEvent::CapabilityRefused => "capability_refused",
            EventAuditEvent::RegistrationUpdated => "registration_updated",
            EventAuditEvent::SaleSeamConfirmed => "sale_seam_confirmed",
            EventAuditEvent::SaleSeamCancelled => "sale_seam_cancelled",
            EventAuditEvent::SaleSeamPaid => "sale_seam_paid",
            EventAuditEvent::BoothCreated => "booth_created",
            EventAuditEvent::BoothUpdated => "booth_updated",
            EventAuditEvent::BoothDeleted => "booth_deleted",
            EventAuditEvent::BoothConfirmed => "booth_confirmed",
            EventAuditEvent::BoothReleased => "booth_released",
            EventAuditEvent::BoothBookingCreated => "booth_booking_created",
            EventAuditEvent::BoothBookingDeleted => "booth_booking_deleted",
            EventAuditEvent::LeadRuleCreated => "lead_rule_created",
            EventAuditEvent::LeadRuleUpdated => "lead_rule_updated",
            EventAuditEvent::LeadRelinked => "lead_relinked",
            EventAuditEvent::TemplateCascade => "template_cascade",
        }
    }

    /// The variant whose wire name is exactly `s` (the serialized form), if any.
    pub fn from_name(s: &str) -> (r: Option<Self>)
        ensures
            r == Self::parse_name(s@),
    {
        if same_text(s, "event_created") {
            return Some(EventAuditEvent::EventCreated);
        }
        if same_text(s, "event_updated") {
            return Some(EventAuditEvent::EventUpdated);
        }
        if same_text(s, "event_published") {
            return Some(EventAuditEvent::EventPublished);
        }
        if same_text(s, "event_unpublished") {
            return Some(EventAuditEvent::EventUnpublished);
        }
        if same_text(s, "publish_refused") {
            return Some(EventAuditEvent::PublishRefused);
        }
        if same_text(s, "event_mark_done") {
            return Some(EventAuditEvent::EventMarkDone);
        }
        if same_text(s, "registration_created") {
            return Some(EventAuditEvent::RegistrationCreated);
        }
        if same_text(s, "registration_refused") {
            return Some(EventAuditEvent::RegistrationRefused);
        }
        if same_text(s, "registration_state_changed") {
            return Some(EventAuditEvent::RegistrationStateChanged);
        }
        if same_text(s, "registration_archived") {
            return Some(EventAuditEvent::RegistrationArchived);
        }
        if same_text(s, "scheduler_created") {
            return Some(EventAuditEvent::SchedulerCreated);
        }
        if same_text(s, "scheduler_run") {
            return Some(EventAuditEvent::SchedulerRun);
        }
        if same_text(s, "scheduler_failed") {
            return Some(EventAuditEvent::SchedulerFailed);
        }
        if same_text(s, "receipt_dropped_window_closed") {
            return Some(EventAuditEvent::ReceiptDroppedWindowClosed);
        }
        if same_text(s, "capability_refused") {
            return Some(EventAuditEvent::CapabilityRefused);
        }
        if same_text(s, "registration_updated") {
            return Some(EventAuditEvent::RegistrationUpdated);
        }
        if same_text(s, "sale_seam_confirmed") {
            return Some(EventAuditEvent::SaleSeamConfirmed);
        }
        if same_text(s, "sale_seam_cancelled") {
            return Some(EventAuditEvent::SaleSeamCancelled);
        }
        if same_text(s, "sale_seam_paid") {
            return Some(EventAuditEvent::SaleSeamPaid);
        }
        if same_text(s, "booth_created") {
            return Some(EventAuditEvent::BoothCreated);
        }
        if same_text(s, "booth_updated") {
            return Some(EventAuditEvent::BoothUpdated);
        }
        if same_text(s, "booth_deleted") {
            return Some(EventAuditEvent::BoothDeleted);
        }
        if same_text(s, "booth_confirmed") {
            return Some(EventAuditEvent::BoothConfirmed);
        }
        if same_text(s, "booth_released") {
            return Some(EventAuditEvent::BoothReleased);
        }
        if same_text(s, "booth_booking_created") {
            return Some(EventAuditEvent::BoothBookingCreated);
        }
        if same_text(s, "booth_booking_deleted") {
            return Some(EventAuditEvent::BoothBookingDeleted);
        }
        if same_text(s, "lead_rule_created") {
            return Some(EventAuditEvent::LeadRuleCreated);
        }
        if same_text(s, "lead_rule_updated") {
            return Some(EventAuditEvent::LeadRuleUpdated);
        }
        if same_text(s, "lead_relinked") {
            return Some(EventAuditEvent::LeadRelinked);
        }
        if same_text(s, "template_cascade") {
            return Some(EventAuditEvent::TemplateCascade);
        }
        None
    }

    /// Parses a wire name, case-insensitively (the input is lowercased first).
    pub fn from_str(s: &str) -> (r: Result<Self, String>)
        ensures
            match Self::parse_name(unicode_lowercase(s@)) {
                Some(v) => r == Ok::<Self, String>(v),
                None => r.is_err() && r->Err_0@ == Self::unknown_message(s@),
            },
            all_ascii(s@) ==> match Self::parse_name(ascii_lower_seq(s@)) {
                Some(v) => r == Ok::<Self, String>(v),
                None => r.is_err(),
            },
    {
        let lowered = to_lowercase(s);
        let l = lowered.as_str();
        if same_text(l, "event_created") {
            return Ok(EventAuditEvent::EventCreated);
        }
        if same_text(l, "event_updated") {
            return Ok(EventAuditEvent::EventUpdated);
        }
        if same_text(l, "event_published") {
            return Ok(EventAuditEvent::EventPublished);
        }
        if same_text(l, "event_unpublished") {
            return Ok(EventAuditEvent::EventUnpublished);
        }
        if same_text(l, "publish_refused") {
            return Ok(EventAuditEvent::PublishRefused);
        }
        if same_text(l, "event_mark_done") {
            return Ok(EventAuditEvent::EventMarkDone);
        }
        if same_text(l, "registration_created") {
            return Ok(EventAuditEvent::RegistrationCreated);
        }
        if same_text(l, "registration_refused") {
            return Ok(EventAuditEvent::RegistrationRefused);
        }
        if same_text(l, "registration_state_changed") {
            return Ok(EventAuditEvent::RegistrationStateChanged);
        }
        if same_text(l, "registration_archived") {
            return Ok(EventAuditEvent::RegistrationArchived);
        }
        if same_text(l, "scheduler_created") {
            return Ok(EventAuditEvent::SchedulerCreated);
        }
        if same_text(l, "scheduler_run") {
            return Ok(EventAuditEvent::SchedulerRun);
        }
        if same_text(l, "scheduler_failed") {
            return Ok(EventAuditEvent::SchedulerFailed);
        }
        if same_text(l, "receipt_dropped_window_closed") {
            return Ok(EventAuditEvent::ReceiptDroppedWindowClosed);
        }
        if same_text(l, "capability_refused") {
            return Ok(EventAuditEvent::CapabilityRefused);
        }
        if same_text(l, "registration_updated") {
            return Ok(EventAuditEvent::RegistrationUpdated);
        }
        if same_text(l, "sale_seam_confirmed") {
            return Ok(EventAuditEvent::SaleSeamConfirmed);
        }
        if same_text(l, "sale_seam_cancelled") {
            return Ok(EventAuditEvent::SaleSeamCancelled);
        }
        if same_text(l, "sale_seam_paid") {
            return Ok(EventAuditEvent::SaleSeamPaid);
        }
        if same_text(l, "booth_created") {
            return Ok(EventAuditEvent::BoothCreated);
        }
        if same_text(l, "booth_updated") {
            return Ok(EventAuditEvent::BoothUpdated);
        }
        if same_text(l, "booth_deleted") {
            return Ok(EventAuditEvent::BoothDeleted);
        }
        if same_text(l, "booth_confirmed") {
            return Ok(EventAuditEvent::BoothConfirmed);
        }
        if same_text(l, "booth_released") {
            return Ok(EventAuditEvent::BoothReleased);
        }
        if same_text(l, "booth_booking_created") {
            return Ok(EventAuditEvent::BoothBookingCreated);
        }
        if same_text(l, "booth_booking_deleted") {
            return Ok(EventAuditEvent::BoothBookingDeleted);
        }
        if same_text(l, "lead_rule_created") {
            return Ok(EventAuditEvent::LeadRuleCreated);
        }
        if same_text(l, "lead_rule_updated") {
            return Ok(EventAuditEvent::LeadRuleUpdated);
        }
        if same_text(l, "lead_relinked") {
            return Ok(EventAuditEvent::LeadRelinked);
        }
        if same_text(l, "template_cascade") {
            return Ok(EventAuditEvent::TemplateCascade);
        }
        let mut msg: Vec<char> = Vec::new();
        extend_str(&mut msg, "Unknown EventAuditEvent variant: ");
        extend_str(&mut msg, s);
        Err(string_of(&msg))
    }

    /// Parsing ignores ASCII case: the wire name and its ASCII upper-case
    /// form are all-ASCII texts whose ASCII lowercase parses back to the
    /// variant, so `from_str` gives the variant for both.
    pub proof fn lemma_from_str_ignores_case(self)
        ensures
            all_ascii(self.name_spec()),
            Self::parse_name(ascii_lower_seq(self.name_spec())) == Some(self),
            all_ascii(ascii_upper_seq(self.name_spec())),
            Self::parse_name(ascii_lower_seq(ascii_upper_seq(self.name_spec()))) == Some(self),
    {
        self.lemma_name_round_trip();
        assert(lower_word(self.name_spec())) by {
            match self {
                EventAuditEvent::EventCreated => {
                    reveal_strlit("event_created");
                },
                EventAuditEvent::EventUpdated => {
                    reveal_strlit("event_updated");
                },
                EventAuditEvent::EventPublished => {
                    reveal_strlit("event_published");
                },
                EventAuditEvent::EventUnpublished => {
                    reveal_strlit("event_unpublished");
                },
                EventAuditEvent::PublishRefused => {
                    reveal_strlit("publish_refused");
                },
                EventAuditEvent::EventMarkDone => {
                    reveal_strlit("event_mark_done");
                },
                EventAuditEvent::RegistrationCreated => {
                    reveal_strlit("registration_created");
                },
                EventAuditEvent::RegistrationRefused => {
                    reveal_strlit("registration_refused");
                },
                EventAuditEvent::RegistrationStateChanged => {
                    reveal_strlit("registration_state_changed");
                },
                EventAuditEvent::RegistrationArchived => {
                    reveal_strlit("registration_archived");
                },
                EventAuditEvent::SchedulerCreated => {
                    reveal_strlit("scheduler_created");
                },
                EventAuditEvent::SchedulerRun => {
                    reveal_strlit("scheduler_run");
                },
                EventAuditEvent::SchedulerFailed => {
                    reveal_strlit("scheduler_failed");
                },
                EventAuditEvent::ReceiptDroppedWindowClosed => {
                    reveal_strlit("receipt_dropped_window_closed");
                },
                EventAuditEvent::CapabilityRefused => {
                    reveal_strlit("capability_refused");
                },
                EventAuditEvent::RegistrationUpdated => {
                    reveal_strlit("registration_updated");
                },
                EventAuditEvent::SaleSeamConfirmed => {
                    reveal_strlit("sale_seam_confirmed");
                },
                EventAuditEvent::SaleSeamCancelled => {
                    reveal_strlit("sale_seam_cancelled");
                },
                EventAuditEvent::SaleSeamPaid => {
                    reveal_strlit("sale_seam_paid");
                },
                EventAuditEvent::BoothCreated => {
                    reveal_strlit("booth_created");
                },
                EventAuditEvent::BoothUpdated => {
                    reveal_strlit("booth_updated");
                },
                EventAuditEvent::BoothDeleted => {
                    reveal_strlit("booth_deleted");
                },
                EventAuditEvent::BoothConfirmed => {
                    reveal_strlit("booth_confirmed");
                },
                EventAuditEvent::BoothReleased => {
                    reveal_strlit("booth_released");
                },
                EventAuditEvent::BoothBookingCreated => {
                    reveal_strlit("booth_booking_created");
                },
                EventAuditEvent::BoothBookingDeleted => {
                    reveal_strlit("booth_booking_deleted");
                },
                EventAuditEvent::LeadRuleCreated => {
                    reveal_strlit("lead_rule_created");
                },
                EventAuditEvent::LeadRuleUpdated => {
                    reveal_strlit("lead_rule_updated");
                },
                EventAuditEvent::LeadRelinked => {
                    reveal_strlit("lead_relinked");
                },
                EventAuditEvent::TemplateCascade => {
                    reveal_strlit("template_cascade");
                },
            }
        }
        lemma_lower_word_case(self.name_spec());
    }

    /// Parsing a variant's own wire name gives the variant back.
    pub proof fn lemma_name_round_trip(self)
        ensures
            Self::parse_name(self.name_spec()) == Some(self),
    {
        match self {
            EventAuditEvent::EventCreated => {
                reveal_strlit("event_created");
            },
            EventAuditEvent::EventUpdated => {
                reveal_strlit("event_updated");
                reveal_strlit("event_created");
                assert("event_updated"@[6] != "event_created"@[6]);
            },
            EventAuditEvent::EventPublished => {
                reveal_strlit("event_published");
                reveal_strlit("event_created");
                assert("event_published"@.len() != "event_created"@.len());
                reveal_strlit("event_updated");
                assert("event_published"@.len() != "event_updated"@.len());
            },
            EventAuditEvent::EventUnpublished => {
                reveal_strlit("event_unpublished");
                reveal_strlit("event_created");
                assert("event_unpublished"@.len() != "event_created"@.len());
                reveal_strlit("event_updated");
                assert("event_unpublished"@.len() != "event_updated"@.len());
                reveal_strlit("event_published");
                assert("event_unpublished"@.len() != "event_published"@.len());
            },
            EventAuditEvent::PublishRefused => {
                reveal_strlit("publish_refused");
                reveal_strlit("event_created");
                assert("publish_refused"@.len() != "event_created"@.len());
                reveal_strlit("event_updated");
                assert("publish_refused"@.len() != "event_updated"@.len());
                reveal_strlit("event_published");
                assert("publish_refused"@[0] != "event_published"@[0]);
                reveal_strlit("event_unpublished");
                assert("publish_refused"@.len() != "event_unpublished"@.len());
            },
            EventAuditEvent::EventMarkDone => {
                reveal_strlit("event_mark_done");
                reveal_strlit("event_created");
                assert("event_mark_done"@.len() != "event_created"@.len());
                reveal_strlit("event_updated");
                assert("event_mark_done"@.len() != "event_updated"@.len());
                reveal_strlit("event_published");
                assert("event_mark_done"@[6] != "event_published"@[6]);
                reveal_strlit("event_unpublished");
                assert("event_mark_done"@.len() != "event_unpublished"@.len());
                reveal_strlit("publish_refused");
                assert("event_mark_done"@[0] != "publish_refused"@[0]);
            },
            EventAuditEvent::RegistrationCreated => {
                reveal_strlit("registration_created");
                reveal_strlit("event_created");
                assert("registration_created"@.len() != "event_created"@.len());
                reveal_strlit("event_updated");
                assert("registration_created"@.len() != "event_updated"@.len());
                reveal_strlit("event_published");
                assert("registration_created"@.len() != "event_published"@.len());
                reveal_strlit("event_unpublished");
                assert("registration_created"@.len() != "event_unpublished"@.len());
                reveal_strlit("publish_refused");
                assert("registration_created"@.len() != "publish_refused"@.len());
                reveal_strlit("event_mark_done");
                assert("registration_created"@.len() != "event_mark_done"@.len());
            },
            EventAuditEvent::RegistrationRefused => {
                reveal_strlit("registration_refused");
                reveal_strlit("event_created");
                assert("registration_refused"@.len() != "event_created"@.len());
                reveal_strlit("event_updated");
                assert("registration_refused"@.len() != "event_updated"@.len());
                reveal_strlit("event_published");
                assert("registration_refused"@.len() != "event_published"@.len());
                reveal_strlit("event_unpublished");
                assert("registration_refused"@.len() != "event_unpublished"@.len());
                reveal_strlit("publish_refused");
                assert("registration_refused"@.len() != "publish_refused"@.len());
                reveal_strlit("event_mark_done");
                assert("registration_refused"@.len() != "event_mark_done"@.len());
                reveal_strlit("registration_created");
                assert("registration_refused"@[13] != "registration_created"@[13]);
            },
            EventAuditEvent::RegistrationStateChanged => {
                reveal_strlit("registration_state_changed");
                reveal_strlit("event_created");
                assert("registration_state_changed"@.len() != "event_created"@.len());
                reveal_strlit("event_updated");
                assert("registration_state_changed"@.len() != "event_updated"@.len());
                reveal_strlit("event_published");
                assert("registration_state_changed"@.len() != "event_published"@.len());
                reveal_strlit("event_unpublished");
                assert("registration_state_changed"@.len() != "event_unpublished"@.len());
                reveal_strlit("publish_refused");
                assert("registration_state_changed"@.len() != "publish_refused"@.len());
                reveal_strlit("event_mark_done");
                assert("registration_state_changed"@.len() != "event_mark_done"@.len());
                reveal_strlit("registration_created");
                assert("registration_state_changed"@.len() != "registration_created"@.len());
                reveal_strlit("registration_refused");
                assert("registration_state_changed"@.len() != "registration_refused"@.len());
            },
            EventAuditEvent::RegistrationArchived => {
                reveal_strlit("registration_archived");
                reveal_strlit("event_created");
                assert("registration_archived"@.len() != "event_created"@.len());
                reveal_strlit("event_updated");
                assert("registration_archived"@.len() != "event_updated"@.len());
                reveal_strlit("event_published");
                assert("registration_archived"@.len() != "event_published"@.len());
                reveal_strlit("event_unpublished");
                assert("registration_archived"@.len() != "event_unpublished"@.len());
                reveal_strlit("publish_refused");
                assert("registration_archived"@.len() != "publish_refused"@.len());
                reveal_strlit("event_mark_done");
                assert("registration_archived"@.len() != "event_mark_done"@.len());
                reveal_strlit("registration_created");
                assert("registration_archived"@.len() != "registration_created"@.len());
                reveal_strlit("registration_refused");
                assert("registration_archived"@.len() != "registration_refused"@.len());
                reveal_strlit("registration_state_changed");
                assert("registration_archived"@.len() != "registration_state_changed"@.len());
            },
            EventAuditEvent::SchedulerCreated => {
                reveal_strlit("scheduler_created");
                reveal_strlit("event_created");
                assert("scheduler_created"@.len() != "event_created"@.len());
                reveal_strlit("event_updated");
                assert("scheduler_created"@.len() != "event_updated"@.len());
                reveal_strlit("event_published");
                assert("scheduler_created"@.len() != "event_published"@.len());
                reveal_strlit("event_unpublished");
                assert("scheduler_created"@[0] != "event_unpublished"@[0]);
                reveal_strlit("publish_refused");
                assert("scheduler_created"@.len() != "publish_refused"@.len());
                reveal_strlit("event_mark_done");
                assert("scheduler_created"@.len() != "event_mark_done"@.len());
                reveal_strlit("registration_created");
                assert("scheduler_created"@.len() != "registration_created"@.len());
                reveal_strlit("registration_refused");
                assert("scheduler_created"@.len() != "registration_refused"@.len());
                reveal_strlit("registration_state_changed");
                assert("scheduler_created"@.len() != "registration_state_changed"@.len());
                reveal_strlit("registration_archived");
                assert("scheduler_created"@.len() != "registration_archived"@.len());
            },
            EventAuditEvent::SchedulerRun => {
                reveal_strlit("scheduler_run");
                reveal_strlit("event_created");
                assert("scheduler_run"@[0] != "event_created"@[0]);
                reveal_strlit("event_updated");
                assert("scheduler_run"@[0] != "event_updated"@[0]);
                reveal_strlit("event_published");
                assert("scheduler_run"@.len() != "event_published"@.len());
                reveal_strlit("event_unpublished");
                assert("scheduler_run"@.len() != "event_unpublished"@.len());
                reveal_strlit("publish_refused");
                assert("scheduler_run"@.len() != "publish_refused"@.len());
                reveal_strlit("event_mark_done");
                assert("scheduler_run"@.len() != "event_mark_done"@.len());
                reveal_strlit("registration_created");
                assert("scheduler_run"@.len() != "registration_created"@.len());
                reveal_strlit("registration_refused");
                assert("scheduler_run"@.len() != "registration_refused"@.len());
                reveal_strlit("registration_state_changed");
                assert("scheduler_run"@.len() != "registration_state_changed"@.len());
                reveal_strlit("registration_archived");
                assert("scheduler_run"@.len() != "registration_archived"@.len());
                reveal_strlit("scheduler_created");
                assert("scheduler_run"@.len() != "scheduler_created"@.len());
            },
            EventAuditEvent::SchedulerFailed => {
                reveal_strlit("scheduler_failed");
                reveal_strlit("event_created");
                assert("scheduler_failed"@.len() != "event_created"@.len());
                reveal_strlit("event_updated");
                assert("scheduler_failed"@.len() != "event_updated"@.len());
                reveal_strlit("event_published");
                assert("scheduler_failed"@.len() != "event_published"@.len());
                reveal_strlit("event_unpublished");
                assert("scheduler_failed"@.len() != "event_unpublished"@.len());
                reveal_strlit("publish_refused");
                assert("scheduler_failed"@.len() != "publish_refused"@.len());
                reveal_strlit("event_mark_done");
                assert("scheduler_failed"@.len() != "event_mark_done"@.len());
                reveal_strlit("registration_created");
                assert("scheduler_failed"@.len() != "registration_created"@.len());
                reveal_strlit("registration_refused");
                assert("scheduler_failed"@.len() != "registration_refused"@.len());
                reveal_strlit("registration_state_changed");
                assert("scheduler_failed"@.len() != "registration_state_changed"@.len());
                reveal_strlit("registration_archived");
                assert("scheduler_failed"@.len() != "registration_archived"@.len());
                reveal_strlit("scheduler_created");
                assert("scheduler_failed"@.len() != "scheduler_created"@.len());
                reveal_strlit("scheduler_run");
                assert("scheduler_failed"@.len() != "scheduler_run"@.len());
            },
            EventAuditEvent::ReceiptDroppedWindowClosed => {
                reveal_strlit("receipt_dropped_window_closed");
                reveal_strlit("event_created");
                assert("receipt_dropped_window_closed"@.len() != "event_created"@.len());
                reveal_strlit("event_updated");
                assert("receipt_dropped_window_closed"@.len() != "event_updated"@.len());
                reveal_strlit("event_published");
                assert("receipt_dropped_window_closed"@.len() != "event_published"@.len());
                reveal_strlit("event_unpublished");
                assert("receipt_dropped_window_closed"@.len() != "event_unpublished"@.len());
                reveal_strlit("publish_refused");
                assert("receipt_dropped_window_closed"@.len() != "publish_refused"@.len());
                reveal_strlit("event_mark_done");
                assert("receipt_dropped_window_closed"@.len() != "event_mark_done"@.len());
                reveal_strlit("registration_created");
                assert("receipt_dropped_window_closed"@.len() != "registration_created"@.len());
                reveal_strlit("registration_refused");
                assert("receipt_dropped_window_closed"@.len() != "registration_refused"@.len());
                reveal_strlit("registration_state_changed");
                assert("receipt_dropped_window_closed"@.len() != "registration_state_changed"@.len());
                reveal_strlit("registration_archived");
                assert("receipt_dropped_window_closed"@.len() != "registration_archived"@.len());
                reveal_strlit("scheduler_created");
                assert("receipt_dropped_window_closed"@.len() != "scheduler_created"@.len());
                reveal_strlit("scheduler_run");
                assert("receipt_dropped_window_closed"@.len() != "scheduler_run"@.len());
                reveal_strlit("scheduler_failed");
                assert("receipt_dropped_window_closed"@.len() != "scheduler_failed"@.len());
            },
            EventAuditEvent::CapabilityRefused => {
                reveal_strlit("capability_refused");
                reveal_strlit("event_created");
                assert("capability_refused"@.len() != "event_created"@.len());
                reveal_strlit("event_updated");
                assert("capability_refused"@.len() != "event_updated"@.len());
                reveal_strlit("event_published");
                assert("capability_refused"@.len() != "event_published"@.len());
                reveal_strlit("event_unpublished");
                assert("capability_refused"@.len() != "event_unpublished"@.len());
                reveal_strlit("publish_refused");
                assert("capability_refused"@.len() != "publish_refused"@.len());
                reveal_strlit("event_mark_done");
                assert("capability_refused"@.len() != "event_mark_done"@.len());
                reveal_strlit("registration_created");
                assert("capability_refused"@.len() != "registration_created"@.len());
                reveal_strlit("registration_refused");
                assert("capability_refused"@.len() != "registration_refused"@.len());
                reveal_strlit("registration_state_changed");
                assert("capability_refused"@.len() != "registration_state_changed"@.len());
                reveal_strlit("registration_archived");
                assert("capability_refused"@.len() != "registration_archived"@.len());
                reveal_strlit("scheduler_created");
                assert("capability_refused"@.len() != "scheduler_created"@.len());
                reveal_strlit("scheduler_run");
                assert("capability_refused"@.len() != "scheduler_run"@.len());
                reveal_strlit("scheduler_failed");
                assert("capability_refused"@.len() != "scheduler_failed"@.len());
                reveal_strlit("receipt_dropped_window_closed");
                assert("capability_refused"@.len() != "receipt_dropped_window_closed"@.len());
            },
            EventAuditEvent::RegistrationUpdated => {
                reveal_strlit("registration_updated");
                reveal_strlit("event_created");
                assert("registration_updated"@.len() != "event_created"@.len());
                reveal_strlit("event_updated");
                assert("registration_updated"@.len() != "event_updated"@.len());
                reveal_strlit("event_published");
                assert("registration_updated"@.len() != "event_published"@.len());
                reveal_strlit("event_unpublished");
                assert("registration_updated"@.len() != "event_unpublished"@.len());
                reveal_strlit("publish_refused");
                assert("registration_updated"@.len() != "publish_refused"@.len());
                reveal_strlit("event_mark_done");
                assert("registration_updated"@.len() != "event_mark_done"@.len());
                reveal_strlit("registration_created");
                assert("registration_updated"@[13] != "registration_created"@[13]);
                reveal_strlit("registration_refused");
                assert("registration_updated"@[13] != "registration_refused"@[13]);
                reveal_strlit("registration_state_changed");
                assert("registration_updated"@.len() != "registration_state_changed"@.len());
                reveal_strlit("registration_archived");
                assert("registration_updated"@.len() != "registration_archived"@.len());
                reveal_strlit("scheduler_created");
                assert("registration_updated"@.len() != "scheduler_created"@.len());
                reveal_strlit("scheduler_run");
                assert("registration_updated"@.len() != "scheduler_run"@.len());
                reveal_strlit("scheduler_failed");
                assert("registration_updated"@.len() != "scheduler_failed"@.len());
                reveal_strlit("receipt_dropped_window_closed");
                assert("registration_updated"@.len() != "receipt_dropped_window_closed"@.len());
                reveal_strlit("capability_refused");
                assert("registration_updated"@.len() != "capability_refused"@.len());
            },
            EventAuditEvent::SaleSeamConfirmed => {
                reveal_strlit("sale_seam_confirmed");
                reveal_strlit("event_created");
                assert("sale_seam_confirmed"@.len() != "event_created"@.len());
                reveal_strlit("event_updated");
                assert("sale_seam_confirmed"@.len() != "event_updated"@.len());
                reveal_strlit("event_published");
                assert("sale_seam_confirmed"@.len() != "event_published"@.len());
                reveal_strlit("event_unpublished");
                assert("sale_seam_confirmed"@.len() != "event_unpublished"@.len());
                reveal_strlit("publish_refused");
                assert("sale_seam_confirmed"@.len() != "publish_refused"@.len());
                reveal_strlit("event_mark_done");
                assert("sale_seam_confirmed"@.len() != "event_mark_done"@.len());
                reveal_strlit("registration_created");
                assert("sale_seam_confirmed"@.len() != "registration_created"@.len());
                reveal_strlit("registration_refused");
                assert("sale_seam_confirmed"@.len() != "registration_refused"@.len());
                reveal_strlit("registration_state_changed");
                assert("sale_seam_confirmed"@.len() != "registration_state_changed"@.len());
                reveal_strlit("registration_archived");
                assert("sale_seam_confirmed"@.len() != "registration_archived"@.len());
                reveal_strlit("scheduler_created");
                assert("sale_seam_confirmed"@.len() != "scheduler_created"@.len());
                reveal_strlit("scheduler_run");
                assert("sale_seam_confirmed"@.len() != "scheduler_run"@.len());
                reveal_strlit("scheduler_failed");
                assert("sale_seam_confirmed"@.len() != "scheduler_failed"@.len());
                reveal_strlit("receipt_dropped_window_closed");
                assert("sale_seam_confirmed"@.len() != "receipt_dropped_window_closed"@.len());
                reveal_strlit("capability_refused");
                assert("sale_seam_confirmed"@.len() != "capability_refused"@.len());
                reveal_strlit("registration_updated");
                assert("sale_seam_confirmed"@.len() != "registration_updated"@.len());
            },
            EventAuditEvent::SaleSeamCancelled => {
                reveal_strlit("sale_seam_cancelled");
                reveal_strlit("event_created");
                assert("sale_seam_cancelled"@.len() != "event_created"@.len());
                reveal_strlit("event_updated");
                assert("sale_seam_cancelled"@.len() != "event_updated"@.len());
                reveal_strlit("event_published");
                assert("sale_seam_cancelled"@.len() != "event_published"@.len());
                reveal_strlit("event_unpublished");
                assert("sale_seam_cancelled"@.len() != "event_unpublished"@.len());
                reveal_strlit("publish_refused");
                assert("sale_seam_cancelled"@.len() != "publish_refused"@.len());
                reveal_strlit("event_mark_done");
                assert("sale_seam_cancelled"@.len() != "event_mark_done"@.len());
                reveal_strlit("registration_created");
                assert("sale_seam_cancelled"@.len() != "registration_created"@.len());
                reveal_strlit("registration_refused");
                assert("sale_seam_cancelled"@.len() != "registration_refused"@.len());
                reveal_strlit("registration_state_changed");
                assert("sale_seam_cancelled"@.len() != "registration_state_changed"@.len());
                reveal_strlit("registration_archived");
                assert("sale_seam_cancelled"@.len() != "registration_archived"@.len());
                reveal_strlit("scheduler_created");
                assert("sale_seam_cancelled"@.len() != "scheduler_created"@.len());
                reveal_strlit("scheduler_run");
                assert("sale_seam_cancelled"@.len() != "scheduler_run"@.len());
                reveal_strlit("scheduler_failed");
                assert("sale_seam_cancelled"@.len() != "scheduler_failed"@.len());
                reveal_strlit("receipt_dropped_window_closed");
                assert("sale_seam_cancelled"@.len() != "receipt_dropped_window_closed"@.len());
                reveal_strlit("capability_refused");
                assert("sale_seam_cancelled"@.len() != "capability_refused"@.len());
                reveal_strlit("registration_updated");
                assert("sale_seam_cancelled"@.len() != "registration_updated"@.len());
                reveal_strlit("sale_seam_confirmed");
                assert("sale_seam_cancelled"@[11] != "sale_seam_confirmed"@[11]);
            },
            EventAuditEvent::SaleSeamPaid => {
                reveal_strlit("sale_seam_paid");
                reveal_strlit("event_created");
                assert("sale_seam_paid"@.len() != "event_created"@.len());
                reveal_strlit("event_updated");
                assert("sale_seam_paid"@.len() != "event_updated"@.len());
                reveal_strlit("event_published");
                assert("sale_seam_paid"@.len() != "event_published"@.len());
                reveal_strlit("event_unpublished");
                assert("sale_seam_paid"@.len() != "event_unpublished"@.len());
                reveal_strlit("publish_refused");
                assert("sale_seam_paid"@.len() != "publish_refused"@.len());
                reveal_strlit("event_mark_done");
                assert("sale_seam_paid"@.len() != "event_mark_done"@.len());
                reveal_strlit("registration_created");
                assert("sale_seam_paid"@.len() != "registration_created"@.len());
                reveal_strlit("registration_refused");
                assert("sale_seam_paid"@.len() != "registration_refused"@.len());
                reveal_strlit("registration_state_changed");
                assert("sale_seam_paid"@.len() != "registration_state_changed"@.len());
                reveal_strlit("registration_archived");
                assert("sale_seam_paid"@.len() != "registration_archived"@.len());
                reveal_strlit("scheduler_created");
                assert("sale_seam_paid"@.len() != "scheduler_created"@.len());
                reveal_strlit("scheduler_run");
                assert("sale_seam_paid"@.len() != "scheduler_run"@.len());
                reveal_strlit("scheduler_failed");
                assert("sale_seam_paid"@.len() != "scheduler_failed"@.len());
                reveal_strlit("receipt_dropped_window_closed");
                assert("sale_seam_paid"@.len() != "receipt_dropped_window_closed"@.len());
                reveal_strlit("capability_refused");
                assert("sale_seam_paid"@.len() != "capability_refused"@.len());
                reveal_strlit("registration_updated");
                assert("sale_seam_paid"@.len() != "registration_updated"@.len());
                reveal_strlit("sale_seam_confirmed");
                assert("sale_seam_paid"@.len() != "sale_seam_confirmed"@.len());
                reveal_strlit("sale_seam_cancelled");
                assert("sale_seam_paid"@.len() != "sale_seam_cancelled"@.len());
            },
            EventAuditEvent::BoothCreated => {
                reveal_strlit("booth_created");
                reveal_strlit("event_created");
                assert("booth_created"@[0] != "event_created"@[0]);
                reveal_strlit("event_updated");
                assert("booth_created"@[0] != "event_updated"@[0]);
                reveal_strlit("event_published");
                assert("booth_created"@.len() != "event_published"@.len());
                reveal_strlit("event_unpublished");
                assert("booth_created"@.len() != "event_unpublished"@.len());
                reveal_strlit("publish_refused");
                assert("booth_created"@.len() != "publish_refused"@.len());
                reveal_strlit("event_mark_done");
                assert("booth_created"@.len() != "event_mark_done"@.len());
                reveal_strlit("registration_created");
                assert("booth_created"@.len() != "registration_created"@.len());
                reveal_strlit("registration_refused");
                assert("booth_created"@.len() != "registration_refused"@.len());
                reveal_strlit("registration_state_changed");
                assert("booth_created"@.len() != "registration_state_changed"@.len());
                reveal_strlit("registration_archived");
                assert("booth_created"@.len() != "registration_archived"@.len());
                reveal_strlit("scheduler_created");
                assert("booth_created"@.len() != "scheduler_created"@.len());
                reveal_strlit("scheduler_run");
                assert("booth_created"@[0] != "scheduler_run"@[0]);
                reveal_strlit("scheduler_failed");
                assert("booth_created"@.len() != "scheduler_failed"@.len());
                reveal_strlit("receipt_dropped_window_closed");
                assert("booth_created"@.len() != "receipt_dropped_window_closed"@.len());
                reveal_strlit("capability_refused");
                assert("booth_created"@.len() != "capability_refused"@.len());
                reveal_strlit("registration_updated");
                assert("booth_created"@.len() != "registration_updated"@.len());
                reveal_strlit("sale_seam_confirmed");
                assert("booth_created"@.len() != "sale_seam_confirmed"@.len());
                reveal_strlit("sale_seam_cancelled");
                assert("booth_created"@.len() != "sale_seam_cancelled"@.len());
                reveal_strlit("sale_seam_paid");
                assert("booth_created"@.len() != "sale_seam_paid"@.len());
            },
            EventAuditEvent::BoothUpdated => {
                reveal_strlit("booth_updated");
                reveal_strlit("event_created");
                assert("booth_updated"@[0] != "event_created"@[0]);
                reveal_strlit("event_updated");
                assert("booth_updated"@[0] != "event_updated"@[0]);
                reveal_strlit("event_published");
                assert("booth_updated"@.len() != "event_published"@.len());
                reveal_strlit("event_unpublished");
                assert("booth_updated"@.len() != "event_unpublished"@.len());
                reveal_strlit("publish_refused");
                assert("booth_updated"@.len() != "publish_refused"@.len());
                reveal_strlit("event_mark_done");
                assert("booth_updated"@.len() != "event_mark_done"@.len());
                reveal_strlit("registration_created");
                assert("booth_updated"@.len() != "registration_created"@.len());
                reveal_strlit("registration_refused");
                assert("booth_updated"@.len() != "registration_refused"@.len());
                reveal_strlit("registration_state_changed");
                assert("booth_updated"@.len() != "registration_state_changed"@.len());
                reveal_strlit("registration_archived");
                assert("booth_updated"@.len() != "registration_archived"@.len());
                reveal_strlit("scheduler_created");
                assert("booth_updated"@.len() != "scheduler_created"@.len());
                reveal_strlit("scheduler_run");
                assert("booth_updated"@[0] != "scheduler_run"@[0]);
                reveal_strlit("scheduler_failed");
                assert("booth_updated"@.len() != "scheduler_failed"@.len());
                reveal_strlit("receipt_dropped_window_closed");
                assert("booth_updated"@.len() != "receipt_dropped_window_closed"@.len());
                reveal_strlit("capability_refused");
                assert("booth_updated"@.len() != "capability_refused"@.len());
                reveal_strlit("registration_updated");
                assert("booth_updated"@.len() != "registration_updated"@.len());
                reveal_strlit("sale_seam_confirmed");
                assert("booth_updated"@.len() != "sale_seam_confirmed"@.len());
                reveal_strlit("sale_seam_cancelled");
                assert("booth_updated"@.len() != "sale_seam_cancelled"@.len());
                reveal_strlit("sale_seam_paid");
                assert("booth_updated"@.len() != "sale_seam_paid"@.len());
                reveal_strlit("booth_created");
                assert("booth_updated"@[6] != "booth_created"@[6]);
            },
            EventAuditEvent::BoothDeleted => {
                reveal_strlit("booth_deleted");
                reveal_strlit("event_created");
                assert("booth_deleted"@[0] != "event_created"@[0]);
                reveal_strlit("event_updated");
                assert("booth_deleted"@[0] != "event_updated"@[0]);
                reveal_strlit("event_published");
                assert("booth_deleted"@.len() != "event_published"@.len());
                reveal_strlit("event_unpublished");
                assert("booth_deleted"@.len() != "event_unpublished"@.len());
                reveal_strlit("publish_refused");
                assert("booth_deleted"@.len() != "publish_refused"@.len());
                reveal_strlit("event_mark_done");
                assert("booth_deleted"@.len() != "event_mark_done"@.len());
                reveal_strlit("registration_created");
                assert("booth_deleted"@.len() != "registration_created"@.len());
                reveal_strlit("registration_refused");
                assert("booth_deleted"@.len() != "registration_refused"@.len());
                reveal_strlit("registration_state_changed");
                assert("booth_deleted"@.len() != "registration_state_changed"@.len());
                reveal_strlit("registration_archived");
                assert("booth_deleted"@.len() != "registration_archived"@.len());
                reveal_strlit("scheduler_created");
                assert("booth_deleted"@.len() != "scheduler_created"@.len());
                reveal_strlit("scheduler_run");
                assert("booth_deleted"@[0] != "scheduler_run"@[0]);
                reveal_strlit("scheduler_failed");
                assert("booth_deleted"@.len() != "scheduler_failed"@.len());
                reveal_strlit("receipt_dropped_window_closed");
                assert("booth_deleted"@.len() != "receipt_dropped_window_closed"@.len());
                reveal_strlit("capability_refused");
                assert("booth_deleted"@.len() != "capability_refused"@.len());
                reveal_strlit("registration_updated");
                assert("booth_deleted"@.len() != "registration_updated"@.len());
                reveal_strlit("sale_seam_confirmed");
                assert("booth_deleted"@.len() != "sale_seam_confirmed"@.len());
                reveal_strlit("sale_seam_cancelled");
                assert("booth_deleted"@.len() != "sale_seam_cancelled"@.len());
                reveal_strlit("sale_seam_paid");
                assert("booth_deleted"@.len() != "sale_seam_paid"@.len());
                reveal_strlit("booth_created");
                assert("booth_deleted"@[6] != "booth_created"@[6]);
                reveal_strlit("booth_updated");
                assert("booth_deleted"@[6] != "booth_updated"@[6]);
            },
            EventAuditEvent::BoothConfirmed => {
                reveal_strlit("booth_confirmed");
                reveal_strlit("event_created");
                assert("booth_confirmed"@.len() != "event_created"@.len());
                reveal_strlit("event_updated");
                assert("booth_confirmed"@.len() != "event_updated"@.len());
                reveal_strlit("event_published");
                assert("booth_confirmed"@[0] != "event_published"@[0]);
                reveal_strlit("event_unpublished");
                assert("booth_confirmed"@.len() != "event_unpublished"@.len());
                reveal_strlit("publish_refused");
                assert("booth_confirmed"@[0] != "publish_refused"@[0]);
                reveal_strlit("event_mark_done");
                assert("booth_confirmed"@[0] != "event_mark_done"@[0]);
                reveal_strlit("registration_created");
                assert("booth_confirmed"@.len() != "registration_created"@.len());
                reveal_strlit("registration_refused");
                assert("booth_confirmed"@.len() != "registration_refused"@.len());
                reveal_strlit("registration_state_changed");
                assert("booth_confirmed"@.len() != "registration_state_changed"@.len());
                reveal_strlit("registration_archived");
                assert("booth_confirmed"@.len() != "registration_archived"@.len());
                reveal_strlit("scheduler_created");
                assert("booth_confirmed"@.len() != "scheduler_created"@.len());
                reveal_strlit("scheduler_run");
                assert("booth_confirmed"@.len() != "scheduler_run"@.len());
                reveal_strlit("scheduler_failed");
                assert("booth_confirmed"@.len() != "scheduler_failed"@.len());
                reveal_strlit("receipt_dropped_window_closed");
                assert("booth_confirmed"@.len() != "receipt_dropped_window_closed"@.len());
                reveal_strlit("capability_refused");
                assert("booth_confirmed"@.len() != "capability_refused"@.len());
                reveal_strlit("registration_updated");
                assert("booth_confirmed"@.len() != "registration_updated"@.len());
                reveal_strlit("sale_seam_confirmed");
                assert("booth_confirmed"@.len() != "sale_seam_confirmed"@.len());
                reveal_strlit("sale_seam_cancelled");
                assert("booth_confirmed"@.len() != "sale_seam_cancelled"@.len());
                reveal_strlit("sale_seam_paid");
                assert("booth_confirmed"@.len() != "sale_seam_paid"@.len());
                reveal_strlit("booth_created");
                assert("booth_confirmed"@.len() != "booth_created"@.len());
                reveal_strlit("booth_updated");
                assert("booth_confirmed"@.len() != "booth_updated"@.len());
                reveal_strlit("booth_deleted");
                assert("booth_confirmed"@.len() != "booth_deleted"@.len());
            },
            EventAuditEvent::BoothReleased => {
                reveal_strlit("booth_released");
                reveal_strlit("event_created");
                assert("booth_released"@.len() != "event_created"@.len());
                reveal_strlit("event_updated");
                assert("booth_released"@.len() != "event_updated"@.len());
                reveal_strlit("event_published");
                assert("booth_released"@.len() != "event_published"@.len());
                reveal_strlit("event_unpublished");
                assert("booth_released"@.len() != "event_unpublished"@.len());
                reveal_strlit("publish_refused");
                assert("booth_released"@.len() != "publish_refused"@.len());
                reveal_strlit("event_mark_done");
                assert("booth_released"@.len() != "event_mark_done"@.len());
                reveal_strlit("registration_created");
                assert("booth_released"@.len() != "registration_created"@.len());
                reveal_strlit("registration_refused");
                assert("booth_released"@.len() != "registration_refused"@.len());
                reveal_strlit("registration_state_changed");
                assert("booth_released"@.len() != "registration_state_changed"@.len());
                reveal_strlit("registration_archived");
                assert("booth_released"@.len() != "registration_archived"@.len());
                reveal_strlit("scheduler_created");
                assert("booth_released"@.len() != "scheduler_created"@.len());
                reveal_strlit("scheduler_run");
                assert("booth_released"@.len() != "scheduler_run"@.len());
                reveal_strlit("scheduler_failed");
                assert("booth_released"@.len() != "scheduler_failed"@.len());
                reveal_strlit("receipt_dropped_window_closed");
                assert("booth_released"@.len() != "receipt_dropped_window_closed"@.len());
                reveal_strlit("capability_refused");
                assert("booth_released"@.len() != "capability_refused"@.len());
                reveal_strlit("registration_updated");
                assert("booth_released"@.len() != "registration_updated"@.len());
                reveal_strlit("sale_seam_confirmed");
                assert("booth_released"@.len() != "sale_seam_confirmed"@.len());
                reveal_strlit("sale_seam_cancelled");
                assert("booth_released"@.len() != "sale_seam_cancelled"@.len());
                reveal_strlit("sale_seam_paid");
                assert("booth_released"@[0] != "sale_seam_paid"@[0]);
                reveal_strlit("booth_created");
                assert("booth_released"@.len() != "booth_created"@.len());
                reveal_strlit("booth_updated");
                assert("booth_released"@.len() != "booth_updated"@.len());
                reveal_strlit("booth_deleted");
                assert("booth_released"@.len() != "booth_deleted"@.len());
                reveal_strlit("booth_confirmed");
                assert("booth_released"@.len() != "booth_confirmed"@.len());
            },
            EventAuditEvent::BoothBookingCreated => {
                reveal_strlit("booth_booking_created");
                reveal_strlit("event_created");
                assert("booth_booking_created"@.len() != "event_created"@.len());
                reveal_strlit("event_updated");
                assert("booth_booking_created"@.len() != "event_updated"@.len());
                reveal_strlit("event_published");
                assert("booth_booking_created"@.len() != "event_published"@.len());
                reveal_strlit("event_unpublished");
                assert("booth_booking_created"@.len() != "event_unpublished"@.len());
                reveal_strlit("publish_refused");
                assert("booth_booking_created"@.len() != "publish_refused"@.len());
                reveal_strlit("event_mark_done");
                assert("booth_booking_created"@.len() != "event_mark_done"@.len());
                reveal_strlit("registration_created");
                assert("booth_booking_created"@.len() != "registration_created"@.len());
                reveal_strlit("registration_refused");
                assert("booth_booking_created"@.len() != "registration_refused"@.len());
                reveal_strlit("registration_state_changed");
                assert("booth_booking_created"@.len() != "registration_state_changed"@.len());
                reveal_strlit("registration_archived");
                assert("booth_booking_created"@[0] != "registration_archived"@[0]);
                reveal_strlit("scheduler_created");
                assert("booth_booking_created"@.len() != "scheduler_created"@.len());
                reveal_strlit("scheduler_run");
                assert("booth_booking_created"@.len() != "scheduler_run"@.len());
                reveal_strlit("scheduler_failed");
                assert("booth_booking_created"@.len() != "scheduler_failed"@.len());
                reveal_strlit("receipt_dropped_window_closed");
                assert("booth_booking_created"@.len() != "receipt_dropped_window_closed"@.len());
                reveal_strlit("capability_refused");
                assert("booth_booking_created"@.len() != "capability_refused"@.len());
                reveal_strlit("registration_updated");
                assert("booth_booking_created"@.len() != "registration_updated"@.len());
                reveal_strlit("sale_seam_confirmed");
                assert("booth_booking_created"@.len() != "sale_seam_confirmed"@.len());
                reveal_strlit("sale_seam_cancelled");
                assert("booth_booking_created"@.len() != "sale_seam_cancelled"@.len());
                reveal_strlit("sale_seam_paid");
                assert("booth_booking_created"@.len() != "sale_seam_paid"@.len());
                reveal_strlit("booth_created");
                assert("booth_booking_created"@.len() != "booth_created"@.len());
                reveal_strlit("booth_updated");
                assert("booth_booking_created"@.len() != "booth_updated"@.len());
                reveal_strlit("booth_deleted");
                assert("booth_booking_created"@.len() != "booth_deleted"@.len());
                reveal_strlit("booth_confirmed");
                assert("booth_booking_created"@.len() != "booth_confirmed"@.len());
                reveal_strlit("booth_released");
                assert("booth_booking_created"@.len() != "booth_released"@.len());
            },
            EventAuditEvent::BoothBookingDeleted => {
                reveal_strlit("booth_booking_deleted");
                reveal_strlit("event_created");
                assert("booth_booking_deleted"@.len() != "event_created"@.len());
                reveal_strlit("event_updated");
                assert("booth_booking_deleted"@.len() != "event_updated"@.len());
                reveal_strlit("event_published");
                assert("booth_booking_deleted"@.len() != "event_published"@.len());
                reveal_strlit("event_unpublished");
                assert("booth_booking_deleted"@.len() != "event_unpublished"@.len());
                reveal_strlit("publish_refused");
                assert("booth_booking_deleted"@.len() != "publish_refused"@.len());
                reveal_strlit("event_mark_done");
                assert("booth_booking_deleted"@.len() != "event_mark_done"@.len());
                reveal_strlit("registration_created");
                assert("booth_booking_deleted"@.len() != "registration_created"@.len());
                reveal_strlit("registration_refused");
                assert("booth_booking_deleted"@.len() != "registration_refused"@.len());
                reveal_strlit("registration_state_changed");
                assert("booth_booking_deleted"@.len() != "registration_state_changed"@.len());
                reveal_strlit("registration_archived");
                assert("booth_booking_deleted"@[0] != "registration_archived"@[0]);
                reveal_strlit("scheduler_created");
                assert("booth_booking_deleted"@.len() != "scheduler_created"@.len());
                reveal_strlit("scheduler_run");
                assert("booth_booking_deleted"@.len() != "scheduler_run"@.len());
                reveal_strlit("scheduler_failed");
                assert("booth_booking_deleted"@.len() != "scheduler_failed"@.len());
                reveal_strlit("receipt_dropped_window_closed");
                assert("booth_booking_deleted"@.len() != "receipt_dropped_window_closed"@.len());
                reveal_strlit("capability_refused");
                assert("booth_booking_deleted"@.len() != "capability_refused"@.len());
                reveal_strlit("registration_updated");
                assert("booth_booking_deleted"@.len() != "registration_updated"@.len());
                reveal_strlit("sale_seam_confirmed");
                assert("booth_booking_deleted"@.len() != "sale_seam_confirmed"@.len());
                reveal_strlit("sale_seam_cancelled");
                assert("booth_booking_deleted"@.len() != "sale_seam_cancelled"@.len());
                reveal_strlit("sale_seam_paid");
                assert("booth_booking_deleted"@.len() != "sale_seam_paid"@.len());
                reveal_strlit("booth_created");
                assert("booth_booking_deleted"@.len() != "booth_created"@.len());
                reveal_strlit("booth_updated");
                assert("booth_booking_deleted"@.len() != "booth_updated"@.len());
                reveal_strlit("booth_deleted");
                assert("booth_booking_deleted"@.len() != "booth_deleted"@.len());
                reveal_strlit("booth_confirmed");
                assert("booth_booking_deleted"@.len() != "booth_confirmed"@.len());
                reveal_strlit("booth_released");
                assert("booth_booking_deleted"@.len() != "booth_released"@.len());
                reveal_strlit("booth_booking_created");
                assert("booth_booking_deleted"@[14] != "booth_booking_created"@[14]);
            },
            EventAuditEvent::LeadRuleCreated => {
                reveal_strlit("lead_rule_created");
                reveal_strlit("event_created");
                assert("lead_rule_created"@.len() != "event_created"@.len());
                reveal_strlit("event_updated");
                assert("lead_rule_created"@.len() != "event_updated"@.len());
                reveal_strlit("event_published");
                assert("lead_rule_created"@.len() != "event_published"@.len());
                reveal_strlit("event_unpublished");
                assert("lead_rule_created"@[0] != "event_unpublished"@[0]);
                reveal_strlit("publish_refused");
                assert("lead_rule_created"@.len() != "publish_refused"@.len());
                reveal_strlit("event_mark_done");
                assert("lead_rule_created"@.len() != "event_mark_done"@.len());
                reveal_strlit("registration_created");
                assert("lead_rule_created"@.len() != "registration_created"@.len());
                reveal_strlit("registration_refused");
                assert("lead_rule_created"@.len() != "registration_refused"@.len());
                reveal_strlit("registration_state_changed");
                assert("lead_rule_created"@.len() != "registration_state_changed"@.len());
                reveal_strlit("registration_archived");
                assert("lead_rule_created"@.len() != "registration_archived"@.len());
                reveal_strlit("scheduler_created");
                assert("lead_rule_created"@[0] != "scheduler_created"@[0]);
                reveal_strlit("scheduler_run");
                assert("lead_rule_created"@.len() != "scheduler_run"@.len());
                reveal_strlit("scheduler_failed");
                assert("lead_rule_created"@.len() != "scheduler_failed"@.len());
                reveal_strlit("receipt_dropped_window_closed");
                assert("lead_rule_created"@.len() != "receipt_dropped_window_closed"@.len());
                reveal_strlit("capability_refused");
                assert("lead_rule_created"@.len() != "capability_refused"@.len());
                reveal_strlit("registration_updated");
                assert("lead_rule_created"@.len() != "registration_updated"@.len());
                reveal_strlit("sale_seam_confirmed");
                assert("lead_rule_created"@.len() != "sale_seam_confirmed"@.len());
                reveal_strlit("sale_seam_cancelled");
                assert("lead_rule_created"@.len() != "sale_seam_cancelled"@.len());
                reveal_strlit("sale_seam_paid");
                assert("lead_rule_created"@.len() != "sale_seam_paid"@.len());
                reveal_strlit("booth_created");
                assert("lead_rule_created"@.len() != "booth_created"@.len());
                reveal_strlit("booth_updated");
                assert("lead_rule_created"@.len() != "booth_updated"@.len());
                reveal_strlit("booth_deleted");
                assert("lead_rule_created"@.len() != "booth_deleted"@.len());
                reveal_strlit("booth_confirmed");
                assert("lead_rule_created"@.len() != "booth_confirmed"@.len());
                reveal_strlit("booth_released");
                assert("lead_rule_created"@.len() != "booth_released"@.len());
                reveal_strlit("booth_booking_created");
                assert("lead_rule_created"@.len() != "booth_booking_created"@.len());
                reveal_strlit("booth_booking_deleted");
                assert("lead_rule_created"@.len() != "booth_booking_deleted"@.len());
            },
            EventAuditEvent::LeadRuleUpdated => {
                reveal_strlit("lead_rule_updated");
                reveal_strlit("event_created");
                assert("lead_rule_updated"@.len() != "event_created"@.len());
                reveal_strlit("event_updated");
                assert("lead_rule_updated"@.len() != "event_updated"@.len());
                reveal_strlit("event_published");
                assert("lead_rule_updated"@.len() != "event_published"@.len());
                reveal_strlit("event_unpublished");
                assert("lead_rule_updated"@[0] != "event_unpublished"@[0]);
                reveal_strlit("publish_refused");
                assert("lead_rule_updated"@.len() != "publish_refused"@.len());
                reveal_strlit("event_mark_done");
                assert("lead_rule_updated"@.len() != "event_mark_done"@.len());
                reveal_strlit("registration_created");
                assert("lead_rule_updated"@.len() != "registration_created"@.len());
                reveal_strlit("registration_refused");
                assert("lead_rule_updated"@.len() != "registration_refused"@.len());
                reveal_strlit("registration_state_changed");
                assert("lead_rule_updated"@.len() != "registration_state_changed"@.len());
                reveal_strlit("registration_archived");
                assert("lead_rule_updated"@.len() != "registration_archived"@.len());
                reveal_strlit("scheduler_created");
                assert("lead_rule_updated"@[0] != "scheduler_created"@[0]);
                reveal_strlit("scheduler_run");
                assert("lead_rule_updated"@.len() != "scheduler_run"@.len());
                reveal_strlit("scheduler_failed");
                assert("lead_rule_updated"@.len() != "scheduler_failed"@.len());
                reveal_strlit("receipt_dropped_window_closed");
                assert("lead_rule_updated"@.len() != "receipt_dropped_window_closed"@.len());
                reveal_strlit("capability_refused");
                assert("lead_rule_updated"@.len() != "capability_refused"@.len());
                reveal_strlit("registration_updated");
                assert("lead_rule_updated"@.len() != "registration_updated"@.len());
                reveal_strlit("sale_seam_confirmed");
                assert("lead_rule_updated"@.len() != "sale_seam_confirmed"@.len());
                reveal_strlit("sale_seam_cancelled");
                assert("lead_rule_updated"@.len() != "sale_seam_cancelled"@.len());
                reveal_strlit("sale_seam_paid");
                assert("lead_rule_updated"@.len() != "sale_seam_paid"@.len());
                reveal_strlit("booth_created");
                assert("lead_rule_updated"@.len() != "booth_created"@.len());
                reveal_strlit("booth_updated");
                assert("lead_rule_updated"@.len() != "booth_updated"@.len());
                reveal_strlit("booth_deleted");
                assert("lead_rule_updated"@.len() != "booth_deleted"@.len());
                reveal_strlit("booth_confirmed");
                assert("lead_rule_updated"@.len() != "booth_confirmed"@.len());
                reveal_strlit("booth_released");
                assert("lead_rule_updated"@.len() != "booth_released"@.len());
                reveal_strlit("booth_booking_created");
                assert("lead_rule_updated"@.len() != "booth_booking_created"@.len());
                reveal_strlit("booth_booking_deleted");
                assert("lead_rule_updated"@.len() != "booth_booking_deleted"@.len());
                reveal_strlit("lead_rule_created");
                assert("lead_rule_updated"@[10] != "lead_rule_created"@[10]);
            },
            EventAuditEvent::LeadRelinked => {
                reveal_strlit("lead_relinked");
                reveal_strlit("event_created");
                assert("lead_relinked"@[0] != "event_created"@[0]);
                reveal_strlit("event_updated");
                assert("lead_relinked"@[0] != "event_updated"@[0]);
                reveal_strlit("event_published");
                assert("lead_relinked"@.len() != "event_published"@.len());
                reveal_strlit("event_unpublished");
                assert("lead_relinked"@.len() != "event_unpublished"@.len());
                reveal_strlit("publish_refused");
                assert("lead_relinked"@.len() != "publish_refused"@.len());
                reveal_strlit("event_mark_done");
                assert("lead_relinked"@.len() != "event_mark_done"@.len());
                reveal_strlit("registration_created");
                assert("lead_relinked"@.len() != "registration_created"@.len());
                reveal_strlit("registration_refused");
                assert("lead_relinked"@.len() != "registration_refused"@.len());
                reveal_strlit("registration_state_changed");
                assert("lead_relinked"@.len() != "registration_state_changed"@.len());
                reveal_strlit("registration_archived");
                assert("lead_relinked"@.len() != "registration_archived"@.len());
                reveal_strlit("scheduler_created");
                assert("lead_relinked"@.len() != "scheduler_created"@.len());
                reveal_strlit("scheduler_run");
                assert("lead_relinked"@[0] != "scheduler_run"@[0]);
                reveal_strlit("scheduler_failed");
                assert("lead_relinked"@.len() != "scheduler_failed"@.len());
                reveal_strlit("receipt_dropped_window_closed");
                assert("lead_relinked"@.len() != "receipt_dropped_window_closed"@.len());
                reveal_strlit("capability_refused");
                assert("lead_relinked"@.len() != "capability_refused"@.len());
                reveal_strlit("registration_updated");
                assert("lead_relinked"@.len() != "registration_updated"@.len());
                reveal_strlit("sale_seam_confirmed");
                assert("lead_relinked"@.len() != "sale_seam_confirmed"@.len());
                reveal_strlit("sale_seam_cancelled");
                assert("lead_relinked"@.len() != "sale_seam_cancelled"@.len());
                reveal_strlit("sale_seam_paid");
                assert("lead_relinked"@.len() != "sale_seam_paid"@.len());
                reveal_strlit("booth_created");
                assert("lead_relinked"@[0] != "booth_created"@[0]);
                reveal_strlit("booth_updated");
                assert("lead_relinked"@[0] != "booth_updated"@[0]);
                reveal_strlit("booth_deleted");
                assert("lead_relinked"@[0] != "booth_deleted"@[0]);
                reveal_strlit("booth_confirmed");
                assert("lead_relinked"@.len() != "booth_confirmed"@.len());
                reveal_strlit("booth_released");
                assert("lead_relinked"@.len() != "booth_released"@.len());
                reveal_strlit("booth_booking_created");
                assert("lead_relinked"@.len() != "booth_booking_created"@.len());
                reveal_strlit("booth_booking_deleted");
                assert("lead_relinked"@.len() != "booth_booking_deleted"@.len());
                reveal_strlit("lead_rule_created");
                assert("lead_relinked"@.len() != "lead_rule_created"@.len());
                reveal_strlit("lead_rule_updated");
                assert("lead_relinked"@.len() != "lead_rule_updated"@.len());
            },
            EventAuditEvent::TemplateCascade => {
                reveal_strlit("template_cascade");
                reveal_strlit("event_created");
                assert("template_cascade"@.len() != "event_created"@.len());
                reveal_strlit("event_updated");
                assert("template_cascade"@.len() != "event_updated"@.len());
                reveal_strlit("event_published");
                assert("template_cascade"@.len() != "event_published"@.len());
                reveal_strlit("event_unpublished");
                assert("template_cascade"@.len() != "event_unpublished"@.len());
                reveal_strlit("publish_refused");
                assert("template_cascade"@.len() != "publish_refused"@.len());
                reveal_strlit("event_mark_done");
                assert("template_cascade"@.len() != "event_mark_done"@.len());
                reveal_strlit("registration_created");
                assert("template_cascade"@.len() != "registration_created"@.len());
                reveal_strlit("registration_refused");
                assert("template_cascade"@.len() != "registration_refused"@.len());
                reveal_strlit("registration_state_changed");
                assert("template_cascade"@.len() != "registration_state_changed"@.len());
                reveal_strlit("registration_archived");
                assert("template_cascade"@.len() != "registration_archived"@.len());
                reveal_strlit("scheduler_created");
                assert("template_cascade"@.len() != "scheduler_created"@.len());
                reveal_strlit("scheduler_run");
                assert("template_cascade"@.len() != "scheduler_run"@.len());
                reveal_strlit("scheduler_failed");
                assert("template_cascade"@[0] != "scheduler_failed"@[0]);
                reveal_strlit("receipt_dropped_window_closed");
                assert("template_cascade"@.len() != "receipt_dropped_window_closed"@.len());
                reveal_strlit("capability_refused");
                assert("template_cascade"@.len() != "capability_refused"@.len());
                reveal_strlit("registration_updated");
                assert("template_cascade"@.len() != "registration_updated"@.len());
                reveal_strlit("sale_seam_confirmed");
                assert("template_cascade"@.len() != "sale_seam_confirmed"@.len());
                reveal_strlit("sale_seam_cancelled");
                assert("template_cascade"@.len() != "sale_seam_cancelled"@.len());
                reveal_strlit("sale_seam_paid");
                assert("template_cascade"@.len() != "sale_seam_paid"@.len());
                reveal_strlit("booth_created");
                assert("template_cascade"@.len() != "booth_created"@.len());
                reveal_strlit("booth_updated");
                assert("template_cascade"@.len() != "booth_updated"@.len());
                reveal_strlit("booth_deleted");
                assert("template_cascade"@.len() != "booth_deleted"@.len());
                reveal_strlit("booth_confirmed");
                assert("template_cascade"@.len() != "booth_confirmed"@.len());
                reveal_strlit("booth_released");
                assert("template_cascade"@.len() != "booth_released"@.len());
                reveal_strlit("booth_booking_created");
                assert("template_cascade"@.len() != "booth_booking_created"@.len());
                reveal_strlit("booth_booking_deleted");
                assert("template_cascade"@.len() != "booth_booking_deleted"@.len());
                reveal_strlit("lead_rule_created");
                assert("template_cascade"@.len() != "lead_rule_created"@.len());
                reveal_strlit("lead_rule_updated");
                assert("template_cascade"@.len() != "lead_rule_updated"@.len());
                reveal_strlit("lead_relinked");
                assert("template_cascade"@.len() != "lead_relinked"@.len());
            },
        }
    }
}

impl Default for EventAuditEvent {
    fn default() -> (r: Self)
        ensures
            r == EventAuditEvent::EventCreated,
    {
        EventAuditEvent::EventCreated
    }
}

/// The badge print format of an event.
#[derive(Debug, Clone, Copy, PartialEq, Eq, Hash, Structural)]
pub enum EventBadgeFormat {
    A4FrenchFold,
    A6,
    FourPerSheet,
}

impl EventBadgeFormat {
    /// The snake_case wire name of the variant.
    pub open spec fn name_spec(self) -> Seq<char> {
        match self {
            EventBadgeFormat::A4FrenchFold => "a4_french_fold"@,
            EventBadgeFormat::A6 => "a6"@,
            EventBadgeFormat::FourPerSheet => "four_per_sheet"@,
        }
    }

    /// The variant a (lowercased) wire name denotes, if any.
    pub open spec fn parse_name(t: Seq<char>) -> Option<Self> {
        if t == "a4_french_fold"@ {
            Some(EventBadgeFormat::A4FrenchFold)
        } else if t == "a6"@ {
            Some(EventBadgeFormat::A6)
        } else if t == "four_per_sheet"@ {
            Some(EventBadgeFormat::FourPerSheet)
        } else {
            None
        }
    }

    /// The text `from_str` refuses an unknown name with.
    pub open spec fn unknown_message(s: Seq<char>) -> Seq<char> {
        "Unknown EventBadgeFormat variant: "@ + s
    }

    /// The wire name (what `Display` writes).
    pub fn as_str(&self) -> (r: &'static str)
        ensures
            r@ == self.name_spec(),
    {
        match self {
            EventBadgeFormat::A4FrenchFold => "a4_french_fold",
            EventBadgeFormat::A6 => "a6",
            EventBadgeFormat::FourPerSheet => "four_per_sheet",
        }
    }

    /// The variant whose wire name is exactly `s` (the serialized form), if any.
    pub fn from_name(s: &str) -> (r: Option<Self>)
        ensures
            r == Self::parse_name(s@),
    {
        if same_text(s, "a4_french_fold") {
            return Some(EventBadgeFormat::A4FrenchFold);
        }
        if same_text(s, "a6") {
            return Some(EventBadgeFormat::A6);
        }
        if same_text(s, "four_per_sheet") {
            return Some(EventBadgeFormat::FourPerSheet);
        }
        None
    }

    /// Parses a wire name, case-insensitively (the input is lowercased first).
    pub fn from_str(s: &str) -> (r: Result<Self, String>)
        ensures
            match Self::parse_name(unicode_lowercase(s@)) {
                Some(v) => r == Ok::<Self, String>(v),
                None => r.is_err() && r->Err_0@ == Self::unknown_message(s@),
            },
            all_ascii(s@) ==> match Self::parse_name(ascii_lower_seq(s@)) {
                Some(v) => r == Ok::<Self, String>(v),
                None => r.is_err(),
            },
    {
        let lowered = to_lowercase(s);
        let l = lowered.as_str();
        if same_text(l, "a4_french_fold") {
            return Ok(EventBadgeFormat::A4FrenchFold);
        }
        if same_text(l, "a6") {
            return Ok(EventBadgeFormat::A6);
        }
        if same_text(l, "four_per_sheet") {
            return Ok(EventBadgeFormat::FourPerSheet);
        }
        let mut msg: Vec<char> = Vec::new();
        extend_str(&mut msg, "Unknown EventBadgeFormat variant: ");
        extend_str(&mut msg, s);
        Err(string_of(&msg))
    }

    /// Parsing ignores ASCII case: the wire name and its ASCII upper-case
    /// form are all-ASCII texts whose ASCII lowercase parses back to the
    /// variant, so `from_str` gives the variant for both.
    pub proof fn lemma_from_str_ignores_case(self)
        ensures
            all_ascii(self.name_spec()),
            Self::parse_name(ascii_lower_seq(self.name_spec())) == Some(self),
            all_ascii(ascii_upper_seq(self.name_spec())),
            Self::parse_name(ascii_lower_seq(ascii_upper_seq(self.name_spec()))) == Some(self),
    {
        self.lemma_name_round_trip();
        assert(lower_word(self.name_spec())) by {
            match self {
                EventBadgeFormat::A4FrenchFold => {
                    reveal_strlit("a4_french_fold");
                },
                EventBadgeFormat::A6 => {
                    reveal_strlit("a6");
                },
                EventBadgeFormat::FourPerSheet => {
                    reveal_strlit("four_per_sheet");
                },
            }
        }
        lemma_lower_word_case(self.name_spec());
    }

    /// Parsing a variant's own wire name gives the variant back.
    pub proof fn lemma_name_round_trip(self)
        ensures
            Self::parse_name(self.name_spec()) == Some(self),
    {
        match self {
            EventBadgeFormat::A4FrenchFold => {
                reveal_strlit("a4_french_fold");
            },
            EventBadgeFormat::A6 => {
                reveal_strlit("a6");
                reveal_strlit("a4_french_fold");
                assert("a6"@.len() != "a4_french_fold"@.len());
            },
            EventBadgeFormat::FourPerSheet => {
                reveal_strlit("four_per_sheet");
                reveal_strlit("a4_french_fold");
                assert("four_per_sheet"@[0] != "a4_french_fold"@[0]);
                reveal_strlit("a6");
                assert("four_per_sheet"@.len() != "a6"@.len());
            },
        }
    }
}

impl Default for EventBadgeFormat {
    fn default() -> (r: Self)
        ensures
            r == EventBadgeFormat::A4FrenchFold,
    {
        EventBadgeFormat::A4FrenchFold
    }
}

/// The lifecycle status of a booth booking.
#[derive(Debug, Clone, Copy, PartialEq, Eq, Hash, Structural)]
pub enum EventBoothBookingStatus {
    Pending,
    Confirmed,
}

impl EventBoothBookingStatus {
    /// The snake_case wire name of the variant.
    pub open spec fn name_spec(self) -> Seq<char> {
        match self {
            EventBoothBookingStatus::Pending => "pending"@,
            EventBoothBookingStatus::Confirmed => "confirmed"@,
        }
    }

    /// The variant a (lowercased) wire name denotes, if any.
    pub open spec fn parse_name(t: Seq<char>) -> Option<Self> {
        if t == "pending"@ {
            Some(EventBoothBookingStatus::Pending)
        } else if t == "confirmed"@ {
            Some(EventBoothBookingStatus::Confirmed)
        } else {
            None
        }
    }

    /// The text `from_str` refuses an unknown name with.
    pub open spec fn unknown_message(s: Seq<char>) -> Seq<char> {
        "Unknown EventBoothBookingStatus variant: "@ + s
    }

    /// The wire name (what `Display` writes).
    pub fn as_str(&self) -> (r: &'static str)
        ensures
            r@ == self.name_spec(),
    {
        match self {
            EventBoothBookingStatus::Pending => "pending",
            EventBoothBookingStatus::Confirmed => "confirmed",
        }
    }

    /// The variant whose wire name is exactly `s` (the serialized form), if any.
    pub fn from_name(s: &str) -> (r: Option<Self>)
        ensures
            r == Self::parse_name(s@),
    {
        if same_text(s, "pending") {
            return Some(EventBoothBookingStatus::Pending);
        }
        if same_text(s, "confirmed") {
            return Some(EventBoothBookingStatus::Confirmed);
        }
        None
    }

    /// Parses a wire name, case-insensitively (the input is lowercased first).
    pub fn from_str(s: &str) -> (r: Result<Self, String>)
        ensures
            match Self::parse_name(unicode_lowercase(s@)) {
                Some(v) => r == Ok::<Self, String>(v),
                None => r.is_err() && r->Err_0@ == Self::unknown_message(s@),
            },
            all_ascii(s@) ==> match Self::parse_name(ascii_lower_seq(s@)) {
                Some(v) => r == Ok::<Self, String>(v),
                None => r.is_err(),
            },
    {
        let lowered = to_lowercase(s);
        let l = lowered.as_str();
        if same_text(l, "pending") {
            return Ok(EventBoothBookingStatus::Pending);
        }
        if same_text(l, "confirmed") {
            return Ok(EventBoothBookingStatus::Confirmed);
        }
        let mut msg: Vec<char> = Vec::new();
        extend_str(&mut msg, "Unknown EventBoothBookingStatus variant: ");
        extend_str(&mut msg, s);
        Err(string_of(&msg))
    }

    /// Parsing ignores ASCII case: the wire name and its ASCII upper-case
    /// form are all-ASCII texts whose ASCII lowercase parses back to the
    /// variant, so `from_str` gives the variant for both.
    pub proof fn lemma_from_str_ignores_case(self)
        ensures
            all_ascii(self.name_spec()),
            Self::parse_name(ascii_lower_seq(self.name_spec())) == Some(self),
            all_ascii(ascii_upper_seq(self.name_spec())),
            Self::parse_name(ascii_lower_seq(ascii_upper_seq(self.name_spec()))) == Some(self),
    {
        self.lemma_name_round_trip();
        assert(lower_word(self.name_spec())) by {
            match self {
                EventBoothBookingStatus::Pending => {
                    reveal_strlit("pending");
                },
                EventBoothBookingStatus::Confirmed => {
                    reveal_strlit("confirmed");
                },
            }
        }
        lemma_lower_word_case(self.name_spec());
    }

    /// Parsing a variant's own wire name gives the variant back.
    pub proof fn lemma_name_round_trip(self)
        ensures
            Self::parse_name(self.name_spec()) == Some(self),
    {
        match self {
            EventBoothBookingStatus::Pending => {
                reveal_strlit("pending");
            },
            EventBoothBookingStatus::Confirmed => {
                reveal_strlit("confirmed");
                reveal_strlit("pending");
                assert("confirmed"@.len() != "pending"@.len());
            },
        }
    }
}

impl Default for EventBoothBookingStatus {
    fn default() -> (r: Self)
        ensures
            r == EventBoothBookingStatus::Pending,
    {
        EventBoothBookingStatus::Pending
    }
}

/// The availability state of a booth.
#[derive(Debug, Clone, Copy, PartialEq, Eq, Hash, Structural)]
pub enum EventBoothState {
    Available,
    Unavailable,
}

impl EventBoothState {
    /// The snake_case wire name of the variant.
    pub open spec fn name_spec(self) -> Seq<char> {
        match self {
            EventBoothState::Available => "available"@,
            EventBoothState::Unavailable => "unavailable"@,
        }
    }

    /// The variant a (lowercased) wire name denotes, if any.
    pub open spec fn parse_name(t: Seq<char>) -> Option<Self> {
        if t == "available"@ {
            Some(EventBoothState::Available)
        } else if t == "unavailable"@ {
            Some(EventBoothState::Unavailable)
        } else {
            None
        }
    }

    /// The text `from_str` refuses an unknown name with.
    pub open spec fn unknown_message(s: Seq<char>) -> Seq<char> {
        "Unknown EventBoothState variant: "@ + s
    }

    /// The wire name (what `Display` writes).
    pub fn as_str(&self) -> (r: &'static str)
        ensures
            r@ == self.name_spec(),
    {
        match self {
            EventBoothState::Available => "available",
            EventBoothState::Unavailable => "unavailable",
        }
    }

    /// The variant whose wire name is exactly `s` (the serialized form), if any.
    pub fn from_name(s: &str) -> (r: Option<Self>)
        ensures
            r == Self::parse_name(s@),
    {
        if same_text(s, "available") {
            return Some(EventBoothState::Available);
        }
        if same_text(s, "unavailable") {
            return Some(EventBoothState::Unavailable);
        }
        None
    }

    /// Parses a wire name, case-insensitively (the input is lowercased first).
    pub fn from_str(s: &str) -> (r: Result<Self, String>)
        ensures
            match Self::parse_name(unicode_lowercase(s@)) {
                Some(v) => r == Ok::<Self, String>(v),
                None => r.is_err() && r->Err_0@ == Self::unknown_message(s@),
            },
            all_ascii(s@) ==> match Self::parse_name(ascii_lower_seq(s@)) {
                Some(v) => r == Ok::<Self, String>(v),
                None => r.is_err(),
            },
    {
        let lowered = to_lowercase(s);
        let l = lowered.as_str();
        if same_text(l, "available") {
            return Ok(EventBoothState::Available);
        }
        if same_text(l, "unavailable") {
            return Ok(EventBoothState::Unavailable);
        }
        let mut msg: Vec<char> = Vec::new();
        extend_str(&mut msg, "Unknown EventBoothState variant: ");
        extend_str(&mut msg, s);
        Err(string_of(&msg))
    }

    /// Parsing ignores ASCII case: the wire name and its ASCII upper-case
    /// form are all-ASCII texts whose ASCII lowercase parses back to the
    /// variant, so `from_str` gives the variant for both.
    pub proof fn lemma_from_str_ignores_case(self)
        ensures
            all_ascii(self.name_spec()),
            Self::parse_name(ascii_lower_seq(self.name_spec())) == Some(self),
            all_ascii(ascii_upper_seq(self.name_spec())),
            Self::parse_name(ascii_lower_seq(ascii_upper_seq(self.name_spec()))) == Some(self),
    {
        self.lemma_name_round_trip();
        assert(lower_word(self.name_spec())) by {
            match self {
                EventBoothState::Available => {
                    reveal_strlit("available");
                },
                EventBoothState::Unavailable => {
                    reveal_strlit("unavailable");
                },
            }
        }
        lemma_lower_word_case(self.name_spec());
    }

    /// Parsing a variant's own wire name gives the variant back.
    pub proof fn lemma_name_round_trip(self)
        ensures
            Self::parse_name(self.name_spec()) == Some(self),
    {
        match self {
            EventBoothState::Available => {
                reveal_strlit("available");
            },
            EventBoothState::Unavailable => {
                reveal_strlit("unavailable");
                reveal_strlit("available");
                assert("unavailable"@.len() != "available"@.len());
            },
        }
    }
}

impl Default for EventBoothState {
    fn default() -> (r: Self)
        ensures
            r == EventBoothState::Available,
    {
        EventBoothState::Available
    }
}

/// When a scheduler fires, relative to the registration or the event.
#[derive(Debug, Clone, Copy, PartialEq, Eq, Hash, Structural)]
pub enum EventIntervalKind {
    AfterSub,
    BeforeEvent,
    AfterEventStart,
    AfterEvent,
    BeforeEventEnd,
}

impl EventIntervalKind {
    /// The snake_case wire name of the variant.
    pub open spec fn name_spec(self) -> Seq<char> {
        match self {
            EventIntervalKind::AfterSub => "after_sub"@,
            EventIntervalKind::BeforeEvent => "before_event"@,
            EventIntervalKind::AfterEventStart => "after_event_start"@,
            EventIntervalKind::AfterEvent => "after_event"@,
            EventIntervalKind::BeforeEventEnd => "before_event_end"@,
        }
    }

    /// The variant a (lowercased) wire name denotes, if any.
    pub open spec fn parse_name(t: Seq<char>) -> Option<Self> {
        if t == "after_sub"@ {
            Some(EventIntervalKind::AfterSub)
        } else if t == "before_event"@ {
            Some(EventIntervalKind::BeforeEvent)
        } else if t == "after_event_start"@ {
            Some(EventIntervalKind::AfterEventStart)
        } else if t == "after_event"@ {
            Some(EventIntervalKind::AfterEvent)
        } else if t == "before_event_end"@ {
            Some(EventIntervalKind::BeforeEventEnd)
        } else {
            None
        }
    }

    /// The text `from_str` refuses an unknown name with.
    pub open spec fn unknown_message(s: Seq<char>) -> Seq<char> {
        "Unknown EventIntervalKind variant: "@ + s
    }

    /// The wire name (what `Display` writes).
    pub fn as_str(&self) -> (r: &'static str)
        ensures
            r@ == self.name_spec(),
    {
        match self {
            EventIntervalKind::AfterSub => "after_sub",
            EventIntervalKind::BeforeEvent => "before_event",
            EventIntervalKind::AfterEventStart => "after_event_start",
            EventIntervalKind::AfterEvent => "after_event",
            EventIntervalKind::BeforeEventEnd => "before_event_end",
        }
    }

    /// The variant whose wire name is exactly `s` (the serialized form), if any.
    pub fn from_name(s: &str) -> (r: Option<Self>)
        ensures
            r == Self::parse_name(s@),
    {
        if same_text(s, "after_sub") {
            return Some(EventIntervalKind::AfterSub);
        }
        if same_text(s, "before_event") {
            return Some(EventIntervalKind::BeforeEvent);
        }
        if same_text(s, "after_event_start") {
            return Some(EventIntervalKind::AfterEventStart);
        }
        if same_text(s, "after_event") {
            return Some(EventIntervalKind::AfterEvent);
        }
        if same_text(s, "before_event_end") {
            return Some(EventIntervalKind::BeforeEventEnd);
        }
        None
    }

    /// Parses a wire name, case-insensitively (the input is lowercased first).
    pub fn from_str(s: &str) -> (r: Result<Self, String>)
        ensures
            match Self::parse_name(unicode_lowercase(s@)) {
                Some(v) => r == Ok::<Self, String>(v),
                None => r.is_err() && r->Err_0@ == Self::unknown_message(s@),
            },
            all_ascii(s@) ==> match Self::parse_name(ascii_lower_seq(s@)) {
                Some(v) => r == Ok::<Self, String>(v),
                None => r.is_err(),
            },
    {
        let lowered = to_lowercase(s);
        let l = lowered.as_str();
        if same_text(l, "after_sub") {
            return Ok(EventIntervalKind::AfterSub);
        }
        if same_text(l, "before_event") {
            return Ok(EventIntervalKind::BeforeEvent);
        }
        if same_text(l, "after_event_start") {
            return Ok(EventIntervalKind::AfterEventStart);
        }
        if same_text(l, "after_event") {
            return Ok(EventIntervalKind::AfterEvent);
        }
        if same_text(l, "before_event_end") {
            return Ok(EventIntervalKind::BeforeEventEnd);
        }
        let mut msg: Vec<char> = Vec::new();
        extend_str(&mut msg, "Unknown EventIntervalKind variant: ");
        extend_str(&mut msg, s);
        Err(string_of(&msg))
    }

    /// Parsing ignores ASCII case: the wire name and its ASCII upper-case
    /// form are all-ASCII texts whose ASCII lowercase parses back to the
    /// variant, so `from_str` gives the variant for both.
    pub proof fn lemma_from_str_ignores_case(self)
        ensures
            all_ascii(self.name_spec()),
            Self::parse_name(ascii_lower_seq(self.name_spec())) == Some(self),
            all_ascii(ascii_upper_seq(self.name_spec())),
            Self::parse_name(ascii_lower_seq(ascii_upper_seq(self.name_spec()))) == Some(self),
    {
        self.lemma_name_round_trip();
        assert(lower_word(self.name_spec())) by {
            match self {
                EventIntervalKind::AfterSub => {
                    reveal_strlit("after_sub");
                },
                EventIntervalKind::BeforeEvent => {
                    reveal_strlit("before_event");
                },
                EventIntervalKind::AfterEventStart => {
                    reveal_strlit("after_event_start");
                },
                EventIntervalKind::AfterEvent => {
                    reveal_strlit("after_event");
                },
                EventIntervalKind::BeforeEventEnd => {
                    reveal_strlit("before_event_end");
                },
            }
        }
        lemma_lower_word_case(self.name_spec());
    }

    /// Parsing a variant's own wire name gives the variant back.
    pub proof fn lemma_name_round_trip(self)
        ensures
            Self::parse_name(self.name_spec()) == Some(self),
    {
        match self {
            EventIntervalKind::AfterSub => {
                reveal_strlit("after_sub");
            },
            EventIntervalKind::BeforeEvent => {
                reveal_strlit("before_event");
                reveal_strlit("after_sub");
                assert("before_event"@.len() != "after_sub"@.len());
            },
            EventIntervalKind::AfterEventStart => {
                reveal_strlit("after_event_start");
                reveal_strlit("after_sub");
                assert("after_event_start"@.len() != "after_sub"@.len());
                reveal_strlit("before_event");
                assert("after_event_start"@.len() != "before_event"@.len());
            },
            EventIntervalKind::AfterEvent => {
                reveal_strlit("after_event");
                reveal_strlit("after_sub");
                assert("after_event"@.len() != "after_sub"@.len());
                reveal_strlit("before_event");
                assert("after_event"@.len() != "before_event"@.len());
                reveal_strlit("after_event_start");
                assert("after_event"@.len() != "after_event_start"@.len());
            },
            EventIntervalKind::BeforeEventEnd => {
                reveal_strlit("before_event_end");
                reveal_strlit("after_sub");
                assert("before_event_end"@.len() != "after_sub"@.len());
                reveal_strlit("before_event");
                assert("before_event_end"@.len() != "before_event"@.len());
                reveal_strlit("after_event_start");
                assert("before_event_end"@.len() != "after_event_start"@.len());
                reveal_strlit("after_event");
                assert("before_event_end"@.len() != "after_event"@.len());
            },
        }
    }
}

impl Default for EventIntervalKind {
    fn default() -> (r: Self)
        ensures
            r == EventIntervalKind::AfterSub,
    {
        EventIntervalKind::AfterSub
    }
}

/// The unit of a scheduler interval.
#[derive(Debug, Clone, Copy, PartialEq, Eq, Hash, Structural)]
pub enum EventIntervalUnit {
    Now,
    Hours,
    Days,
    Weeks,
    Months,
}

impl EventIntervalUnit {
    /// The snake_case wire name of the variant.
    pub open spec fn name_spec(self) -> Seq<char> {
        match self {
            EventIntervalUnit::Now => "now"@,
            EventIntervalUnit::Hours => "hours"@,
            EventIntervalUnit::Days => "days"@,
            EventIntervalUnit::Weeks => "weeks"@,
            EventIntervalUnit::Months => "months"@,
        }
    }

    /// The variant a (lowercased) wire name denotes, if any.
    pub open spec fn parse_name(t: Seq<char>) -> Option<Self> {
        if t == "now"@ {
            Some(EventIntervalUnit::Now)
        } else if t == "hours"@ {
            Some(EventIntervalUnit::Hours)
        } else if t == "days"@ {
            Some(EventIntervalUnit::Days)
        } else if t == "weeks"@ {
            Some(EventIntervalUnit::Weeks)
        } else if t == "months"@ {
            Some(EventIntervalUnit::Months)
        } else {
            None
        }
    }

    /// The text `from_str` refuses an unknown name with.
    pub open spec fn unknown_message(s: Seq<char>) -> Seq<char> {
        "Unknown EventIntervalUnit variant: "@ + s
    }

    /// The wire name (what `Display` writes).
    pub fn as_str(&self) -> (r: &'static str)
        ensures
            r@ == self.name_spec(),
    {
        match self {
            EventIntervalUnit::Now => "now",
            EventIntervalUnit::Hours => "hours",
            EventIntervalUnit::Days => "days",
            EventIntervalUnit::Weeks => "weeks",
            EventIntervalUnit::Months => "months",
        }
    }

    /// The variant whose wire name is exactly `s` (the serialized form), if any.
    pub fn from_name(s: &str) -> (r: Option<Self>)
        ensures
            r == Self::parse_name(s@),
    {
        if same_text(s, "now") {
            return Some(EventIntervalUnit::Now);
        }
        if same_text(s, "hours") {
            return Some(EventIntervalUnit::Hours);
        }
        if same_text(s, "days") {
            return Some(EventIntervalUnit::Days);
        }
        if same_text(s, "weeks") {
            return Some(EventIntervalUnit::Weeks);
        }
        if same_text(s, "months") {
            return Some(EventIntervalUnit::Months);
        }
        None
    }

    /// Parses a wire name, case-insensitively (the input is lowercased first).
    pub fn from_str(s: &str) -> (r: Result<Self, String>)
        ensures
            match Self::parse_name(unicode_lowercase(s@)) {
                Some(v) => r == Ok::<Self, String>(v),
                None => r.is_err() && r->Err_0@ == Self::unknown_message(s@),
            },
            all_ascii(s@) ==> match Self::parse_name(ascii_lower_seq(s@)) {
                Some(v) => r == Ok::<Self, String>(v),
                None => r.is_err(),
            },
    {
        let lowered = to_lowercase(s);
        let l = lowered.as_str();
        if same_text(l, "now") {
            return Ok(EventIntervalUnit::Now);
        }
        if same_text(l, "hours") {
            return Ok(EventIntervalUnit::Hours);
        }
        if same_text(l, "days") {
            return Ok(EventIntervalUnit::Days);
        }
        if same_text(l, "weeks") {
            return Ok(EventIntervalUnit::Weeks);
        }
        if same_text(l, "months") {
            return Ok(EventIntervalUnit::Months);
        }
        let mut msg: Vec<char> = Vec::new();
        extend_str(&mut msg, "Unknown EventIntervalUnit variant: ");
        extend_str(&mut msg, s);
        Err(string_of(&msg))
    }

    /// Parsing ignores ASCII case: the wire name and its ASCII upper-case
    /// form are all-ASCII texts whose ASCII lowercase parses back to the
    /// variant, so `from_str` gives the variant for both.
    pub proof fn lemma_from_str_ignores_case(self)
        ensures
            all_ascii(self.name_spec()),
            Self::parse_name(ascii_lower_seq(self.name_spec())) == Some(self),
            all_ascii(ascii_upper_seq(self.name_spec())),
            Self::parse_name(ascii_lower_seq(ascii_upper_seq(self.name_spec()))) == Some(self),
    {
        self.lemma_name_round_trip();
        assert(lower_word(self.name_spec())) by {
            match self {
                EventIntervalUnit::Now => {
                    reveal_strlit("now");
                },
                EventIntervalUnit::Hours => {
                    reveal_strlit("hours");
                },
                EventIntervalUnit::Days => {
                    reveal_strlit("days");
                },
                EventIntervalUnit::Weeks => {
                    reveal_strlit("weeks");
                },
                EventIntervalUnit::Months => {
                    reveal_strlit("months");
                },
            }
        }
        lemma_lower_word_case(self.name_spec());
    }

    /// Parsing a variant's own wire name gives the variant back.
    pub proof fn lemma_name_round_trip(self)
        ensures
            Self::parse_name(self.name_spec()) == Some(self),
    {
        match self {
            EventIntervalUnit::Now => {
                reveal_strlit("now");
            },
            EventIntervalUnit::Hours => {
                reveal_strlit("hours");
                reveal_strlit("now");
                assert("hours"@.len() != "now"@.len());
            },
            EventIntervalUnit::Days => {
                reveal_strlit("days");
                reveal_strlit("now");
                assert("days"@.len() != "now"@.len());
                reveal_strlit("hours");
                assert("days"@.len() != "hours"@.len());
            },
            EventIntervalUnit::Weeks => {
                reveal_strlit("weeks");
                reveal_strlit("now");
                assert("weeks"@.len() != "now"@.len());
                reveal_strlit("hours");
                assert("weeks"@[0] != "hours"@[0]);
                reveal_strlit("days");
                assert("weeks"@.len() != "days"@.len());
            },
            EventIntervalUnit::Months => {
                reveal_strlit("months");
                reveal_strlit("now");
                assert("months"@.len() != "now"@.len());
                reveal_strlit("hours");
                assert("months"@.len() != "hours"@.len());
                reveal_strlit("days");
                assert("months"@.len() != "days"@.len());
                reveal_strlit("weeks");
                assert("months"@.len() != "weeks"@.len());
            },
        }
    }
}

impl Default for EventIntervalUnit {
    fn default() -> (r: Self)
        ensures
            r == EventIntervalUnit::Now,
    {
        EventIntervalUnit::Now
    }
}

/// The kanban state of an event.
#[derive(Debug, Clone, Copy, PartialEq, Eq, Hash, Structural)]
pub enum EventKanbanState {
    Normal,
    Done,
    Blocked,
    Cancel,
}

impl EventKanbanState {
    /// The snake_case wire name of the variant.
    pub open spec fn name_spec(self) -> Seq<char> {
        match self {
            EventKanbanState::Normal => "normal"@,
            EventKanbanState::Done => "done"@,
            EventKanbanState::Blocked => "blocked"@,
            EventKanbanState::Cancel => "cancel"@,
        }
    }

    /// The variant a (lowercased) wire name denotes, if any.
    pub open spec fn parse_name(t: Seq<char>) -> Option<Self> {
        if t == "normal"@ {
            Some(EventKanbanState::Normal)
        } else if t == "done"@ {
            Some(EventKanbanState::Done)
        } else if t == "blocked"@ {
            Some(EventKanbanState::Blocked)
        } else if t == "cancel"@ {
            Some(EventKanbanState::Cancel)
        } else {
            None
        }
    }

    /// The text `from_str` refuses an unknown name with.
    pub open spec fn unknown_message(s: Seq<char>) -> Seq<char> {
        "Unknown EventKanbanState variant: "@ + s
    }

    /// The wire name (what `Display` writes).
    pub fn as_str(&self) -> (r: &'static str)
        ensures
            r@ == self.name_spec(),
    {
        match self {
            EventKanbanState::Normal => "normal",
            EventKanbanState::Done => "done",
            EventKanbanState::Blocked => "blocked",
            EventKanbanState::Cancel => "cancel",
        }
    }

    /// The variant whose wire name is exactly `s` (the serialized form), if any.
    pub fn from_name(s: &str) -> (r: Option<Self>)
        ensures
            r == Self::parse_name(s@),
    {
        if same_text(s, "normal") {
            return Some(EventKanbanState::Normal);
        }
        if same_text(s, "done") {
            return Some(EventKanbanState::Done);
        }
        if same_text(s, "blocked") {
            return Some(EventKanbanState::Blocked);
        }
        if same_text(s, "cancel") {
            return Some(EventKanbanState::Cancel);
        }
        None
    }

    /// Parses a wire name, case-insensitively (the input is lowercased first).
    pub fn from_str(s: &str) -> (r: Result<Self, String>)
        ensures
            match Self::parse_name(unicode_lowercase(s@)) {
                Some(v) => r == Ok::<Self, String>(v),
                None => r.is_err() && r->Err_0@ == Self::unknown_message(s@),
            },
            all_ascii(s@) ==> match Self::parse_name(ascii_lower_seq(s@)) {
                Some(v) => r == Ok::<Self, String>(v),
                None => r.is_err(),
            },
    {
        let lowered = to_lowercase(s);
        let l = lowered.as_str();
        if same_text(l, "normal") {
            return Ok(EventKanbanState::Normal);
        }
        if same_text(l, "done") {
            return Ok(EventKanbanState::Done);
        }
        if same_text(l, "blocked") {
            return Ok(EventKanbanState::Blocked);
        }
        if same_text(l, "cancel") {
            return Ok(EventKanbanState::Cancel);
        }
        let mut msg: Vec<char> = Vec::new();
        extend_str(&mut msg, "Unknown EventKanbanState variant: ");
        extend_str(&mut msg, s);
        Err(string_of(&msg))
    }

    /// Parsing ignores ASCII case: the wire name and its ASCII upper-case
    /// form are all-ASCII texts whose ASCII lowercase parses back to the
    /// variant, so `from_str` gives the variant for both.
    pub proof fn lemma_from_str_ignores_case(self)
        ensures
            all_ascii(self.name_spec()),
            Self::parse_name(ascii_lower_seq(self.name_spec())) == Some(self),
            all_ascii(ascii_upper_seq(self.name_spec())),
            Self::parse_name(ascii_lower_seq(ascii_upper_seq(self.name_spec()))) == Some(self),
    {
        self.lemma_name_round_trip();
        assert(lower_word(self.name_spec())) by {
            match self {
                EventKanbanState::Normal => {
                    reveal_strlit("normal");
                },
                EventKanbanState::Done => {
                    reveal_strlit("done");
                },
                EventKanbanState::Blocked => {
                    reveal_strlit("blocked");
                },
                EventKanbanState::Cancel => {
                    reveal_strlit("cancel");
                },
            }
        }
        lemma_lower_word_case(self.name_spec());
    }

    /// Parsing a variant's own wire name gives the variant back.
    pub proof fn lemma_name_round_trip(self)
        ensures
            Self::parse_name(self.name_spec()) == Some(self),
    {
        match self {
            EventKanbanState::Normal => {
                reveal_strlit("normal");
            },
            EventKanbanState::Done => {
                reveal_strlit("done");
                reveal_strlit("normal");
                assert("done"@.len() != "normal"@.len());
            },
            EventKanbanState::Blocked => {
                reveal_strlit("blocked");
                reveal_strlit("normal");
                assert("blocked"@.len() != "normal"@.len());
                reveal_strlit("done");
                assert("blocked"@.len() != "done"@.len());
            },
            EventKanbanState::Cancel => {
                reveal_strlit("cancel");
                reveal_strlit("normal");
                assert("cancel"@[0] != "normal"@[0]);
                reveal_strlit("done");
                assert("cancel"@.len() != "done"@.len());
                reveal_strlit("blocked");
                assert("cancel"@.len() != "blocked"@.len());
            },
        }
    }
}

impl Default for EventKanbanState {
    fn default() -> (r: Self)
        ensures
            r == EventKanbanState::Normal,
    {
        EventKanbanState::Normal
    }
}

/// What a lead rule generates leads from.
#[derive(Debug, Clone, Copy, PartialEq, Eq, Hash, Structural)]
pub enum EventLeadBasis {
    Registration,
    Attendee,
}

impl EventLeadBasis {
    /// The snake_case wire name of the variant.
    pub open spec fn name_spec(self) -> Seq<char> {
        match self {
            EventLeadBasis::Registration => "registration"@,
            EventLeadBasis::Attendee => "attendee"@,
        }
    }

    /// The variant a (lowercased) wire name denotes, if any.
    pub open spec fn parse_name(t: Seq<char>) -> Option<Self> {
        if t == "registration"@ {
            Some(EventLeadBasis::Registration)
        } else if t == "attendee"@ {
            Some(EventLeadBasis::Attendee)
        } else {
            None
        }
    }

    /// The text `from_str` refuses an unknown name with.
    pub open spec fn unknown_message(s: Seq<char>) -> Seq<char> {
        "Unknown EventLeadBasis variant: "@ + s
    }

    /// The wire name (what `Display` writes).
    pub fn as_str(&self) -> (r: &'static str)
        ensures
            r@ == self.name_spec(),
    {
        match self {
            EventLeadBasis::Registration => "registration",
            EventLeadBasis::Attendee => "attendee",
        }
    }

    /// The variant whose wire name is exactly `s` (the serialized form), if any.
    pub fn from_name(s: &str) -> (r: Option<Self>)
        ensures
            r == Self::parse_name(s@),
    {
        if same_text(s, "registration") {
            return Some(EventLeadBasis::Registration);
        }
        if same_text(s, "attendee") {
            return Some(EventLeadBasis::Attendee);
        }
        None
    }

    /// Parses a wire name, case-insensitively (the input is lowercased first).
    pub fn from_str(s: &str) -> (r: Result<Self, String>)
        ensures
            match Self::parse_name(unicode_lowercase(s@)) {
                Some(v) => r == Ok::<Self, String>(v),
                None => r.is_err() && r->Err_0@ == Self::unknown_message(s@),
            },
            all_ascii(s@) ==> match Self::parse_name(ascii_lower_seq(s@)) {
                Some(v) => r == Ok::<Self, String>(v),
                None => r.is_err(),
            },
    {
        let lowered = to_lowercase(s);
        let l = lowered.as_str();
        if same_text(l, "registration") {
            return Ok(EventLeadBasis::Registration);
        }
        if same_text(l, "attendee") {
            return Ok(EventLeadBasis::Attendee);
        }
        let mut msg: Vec<char> = Vec::new();
        extend_str(&mut msg, "Unknown EventLeadBasis variant: ");
        extend_str(&mut msg, s);
        Err(string_of(&msg))
    }

    /// Parsing ignores ASCII case: the wire name and its ASCII upper-case
    /// form are all-ASCII texts whose ASCII lowercase parses back to the
    /// variant, so `from_str` gives the variant for both.
    pub proof fn lemma_from_str_ignores_case(self)
        ensures
            all_ascii(self.name_spec()),
            Self::parse_name(ascii_lower_seq(self.name_spec())) == Some(self),
            all_ascii(ascii_upper_seq(self.name_spec())),
            Self::parse_name(ascii_lower_seq(ascii_upper_seq(self.name_spec()))) == Some(self),
    {
        self.lemma_name_round_trip();
        assert(lower_word(self.name_spec())) by {
            match self {
                EventLeadBasis::Registration => {
                    reveal_strlit("registration");
                },
                EventLeadBasis::Attendee => {
                    reveal_strlit("attendee");
                },
            }
        }
        lemma_lower_word_case(self.name_spec());
    }

    /// Parsing a variant's own wire name gives the variant back.
    pub proof fn lemma_name_round_trip(self)
        ensures
            Self::parse_name(self.name_spec()) == Some(self),
    {
        match self {
            EventLeadBasis::Registration => {
                reveal_strlit("registration");
            },
            EventLeadBasis::Attendee => {
                reveal_strlit("attendee");
                reveal_strlit("registration");
                assert("attendee"@.len() != "registration"@.len());
            },
        }
    }
}

impl Default for EventLeadBasis {
    fn default() -> (r: Self)
        ensures
            r == EventLeadBasis::Registration,
    {
        EventLeadBasis::Registration
    }
}

/// The grain a generated lead group is keyed by: one group per sale order,
/// or one per event and calendar day.
#[derive(Debug, Clone, Copy, PartialEq, Eq, Hash, Structural)]
pub enum EventLeadGrouping {
    PerOrder,
    PerEventDay,
}

impl EventLeadGrouping {
    /// The snake_case wire name of the variant.
    pub open spec fn name_spec(self) -> Seq<char> {
        match self {
            EventLeadGrouping::PerOrder => "per_order"@,
            EventLeadGrouping::PerEventDay => "per_event_day"@,
        }
    }

    /// The variant a (lowercased) wire name denotes, if any.
    pub open spec fn parse_name(t: Seq<char>) -> Option<Self> {
        if t == "per_order"@ {
            Some(EventLeadGrouping::PerOrder)
        } else if t == "per_event_day"@ {
            Some(EventLeadGrouping::PerEventDay)
        } else {
            None
        }
    }

    /// The text `from_str` refuses an unknown name with.
    pub open spec fn unknown_message(s: Seq<char>) -> Seq<char> {
        "Unknown EventLeadGrouping variant: "@ + s
    }

    /// The wire name (what `Display` writes).
    pub fn as_str(&self) -> (r: &'static str)
        ensures
            r@ == self.name_spec(),
    {
        match self {
            EventLeadGrouping::PerOrder => "per_order",
            EventLeadGrouping::PerEventDay => "per_event_day",
        }
    }

    /// The variant whose wire name is exactly `s` (the serialized form), if any.
    pub fn from_name(s: &str) -> (r: Option<Self>)
        ensures
            r == Self::parse_name(s@),
    {
        if same_text(s, "per_order") {
            return Some(EventLeadGrouping::PerOrder);
        }
        if same_text(s, "per_event_day") {
            return Some(EventLeadGrouping::PerEventDay);
        }
        None
    }

    /// Parses a wire name, case-insensitively (the input is lowercased first).
    pub fn from_str(s: &str) -> (r: Result<Self, String>)
        ensures
            match Self::parse_name(unicode_lowercase(s@)) {
                Some(v) => r == Ok::<Self, String>(v),
                None => r.is_err() && r->Err_0@ == Self::unknown_message(s@),
            },
            all_ascii(s@) ==> match Self::parse_name(ascii_lower_seq(s@)) {
                Some(v) => r == Ok::<Self, String>(v),
                None => r.is_err(),
            },
    {
        let lowered = to_lowercase(s);
        let l = lowered.as_str();
        if same_text(l, "per_order") {
            return Ok(EventLeadGrouping::PerOrder);
        }
        if same_text(l, "per_event_day") {
            return Ok(EventLeadGrouping::PerEventDay);
        }
        let mut msg: Vec<char> = Vec::new();
        extend_str(&mut msg, "Unknown EventLeadGrouping variant: ");
        extend_str(&mut msg, s);
        Err(string_of(&msg))
    }

    /// Parsing ignores ASCII case: the wire name and its ASCII upper-case
    /// form are all-ASCII texts whose ASCII lowercase parses back to the
    /// variant, so `from_str` gives the variant for both.
    pub proof fn lemma_from_str_ignores_case(self)
        ensures
            all_ascii(self.name_spec()),
            Self::parse_name(ascii_lower_seq(self.name_spec())) == Some(self),
            all_ascii(ascii_upper_seq(self.name_spec())),
            Self::parse_name(ascii_lower_seq(ascii_upper_seq(self.name_spec()))) == Some(self),
    {
        self.lemma_name_round_trip();
        assert(lower_word(self.name_spec())) by {
            match self {
                EventLeadGrouping::PerOrder => {
                    reveal_strlit("per_order");
                },
                EventLeadGrouping::PerEventDay => {
                    reveal_strlit("per_event_day");
                },
            }
        }
        lemma_lower_word_case(self.name_spec());
    }

    /// Parsing a variant's own wire name gives the variant back.
    pub proof fn lemma_name_round_trip(self)
        ensures
            Self::parse_name(self.name_spec()) == Some(self),
    {
        match self {
            EventLeadGrouping::PerOrder => {
                reveal_strlit("per_order");
            },
            EventLeadGrouping::PerEventDay => {
                reveal_strlit("per_event_day");
                reveal_strlit("per_order");
                assert("per_event_day"@.len() != "per_order"@.len());
            },
        }
    }
}

/// The closed vocabulary of lead rule predicate axes.
#[derive(Debug, Clone, Copy, PartialEq, Eq, Hash, Structural)]
pub enum EventLeadPredicateAxis {
    Event,
    EventType,
    Company,
    QuestionAnswer,
}

impl EventLeadPredicateAxis {
    /// The snake_case wire name of the variant.
    pub open spec fn name_spec(self) -> Seq<char> {
        match self {
            EventLeadPredicateAxis::Event => "event"@,
            EventLeadPredicateAxis::EventType => "event_type"@,
            EventLeadPredicateAxis::Company => "company"@,
            EventLeadPredicateAxis::QuestionAnswer => "question_answer"@,
        }
    }

    /// The variant a (lowercased) wire name denotes, if any.
    pub open spec fn parse_name(t: Seq<char>) -> Option<Self> {
        if t == "event"@ {
            Some(EventLeadPredicateAxis::Event)
        } else if t == "event_type"@ {
            Some(EventLeadPredicateAxis::EventType)
        } else if t == "company"@ {
            Some(EventLeadPredicateAxis::Company)
        } else if t == "question_answer"@ {
            Some(EventLeadPredicateAxis::QuestionAnswer)
        } else {
            None
        }
    }

    /// The text `from_str` refuses an unknown name with.
    pub open spec fn unknown_message(s: Seq<char>) -> Seq<char> {
        "Unknown EventLeadPredicateAxis variant: "@ + s
    }

    /// The wire name (what `Display` writes).
    pub fn as_str(&self) -> (r: &'static str)
        ensures
            r@ == self.name_spec(),
    {
        match self {
            EventLeadPredicateAxis::Event => "event",
            EventLeadPredicateAxis::EventType => "event_type",
            EventLeadPredicateAxis::Company => "company",
            EventLeadPredicateAxis::QuestionAnswer => "question_answer",
        }
    }

    /// The variant whose wire name is exactly `s` (the serialized form), if any.
    pub fn from_name(s: &str) -> (r: Option<Self>)
        ensures
            r == Self::parse_name(s@),
    {
        if same_text(s, "event") {
            return Some(EventLeadPredicateAxis::Event);
        }
        if same_text(s, "event_type") {
            return Some(EventLeadPredicateAxis::EventType);
        }
        if same_text(s, "company") {
            return Some(EventLeadPredicateAxis::Company);
        }
        if same_text(s, "question_answer") {
            return Some(EventLeadPredicateAxis::QuestionAnswer);
        }
        None
    }

    /// Parses a wire name, case-insensitively (the input is lowercased first).
    pub fn from_str(s: &str) -> (r: Result<Self, String>)
        ensures
            match Self::parse_name(unicode_lowercase(s@)) {
                Some(v) => r == Ok::<Self, String>(v),
                None => r.is_err() && r->Err_0@ == Self::unknown_message(s@),
            },
            all_ascii(s@) ==> match Self::parse_name(ascii_lower_seq(s@)) {
                Some(v) => r == Ok::<Self, String>(v),
                None => r.is_err(),
            },
    {
        let lowered = to_lowercase(s);
        let l = lowered.as_str();
        if same_text(l, "event") {
            return Ok(EventLeadPredicateAxis::Event);
        }
        if same_text(l, "event_type") {
            return Ok(EventLeadPredicateAxis::EventType);
        }
        if same_text(l, "company") {
            return Ok(EventLeadPredicateAxis::Company);
        }
        if same_text(l, "question_answer") {
            return Ok(EventLeadPredicateAxis::QuestionAnswer);
        }
        let mut msg: Vec<char> = Vec::new();
        extend_str(&mut msg, "Unknown EventLeadPredicateAxis variant: ");
        extend_str(&mut msg, s);
        Err(string_of(&msg))
    }

    /// Parsing ignores ASCII case: the wire name and its ASCII upper-case
    /// form are all-ASCII texts whose ASCII lowercase parses back to the
    /// variant, so `from_str` gives the variant for both.
    pub proof fn lemma_from_str_ignores_case(self)
        ensures
            all_ascii(self.name_spec()),
            Self::parse_name(ascii_lower_seq(self.name_spec())) == Some(self),
            all_ascii(ascii_upper_seq(self.name_spec())),
            Self::parse_name(ascii_lower_seq(ascii_upper_seq(self.name_spec()))) == Some(self),
    {
        self.lemma_name_round_trip();
        assert(lower_word(self.name_spec())) by {
            match self {
                EventLeadPredicateAxis::Event => {
                    reveal_strlit("event");
                },
                EventLeadPredicateAxis::EventType => {
                    reveal_strlit("event_type");
                },
                EventLeadPredicateAxis::Company => {
                    reveal_strlit("company");
                },
                EventLeadPredicateAxis::QuestionAnswer => {
                    reveal_strlit("question_answer");
                },
            }
        }
        lemma_lower_word_case(self.name_spec());
    }

    /// Parsing a variant's own wire name gives the variant back.
    pub proof fn lemma_name_round_trip(self)
        ensures
            Self::parse_name(self.name_spec()) == Some(self),
    {
        match self {
            EventLeadPredicateAxis::Event => {
                reveal_strlit("event");
            },
            EventLeadPredicateAxis::EventType => {
                reveal_strlit("event_type");
                reveal_strlit("event");
                assert("event_type"@.len() != "event"@.len());
            },
            EventLeadPredicateAxis::Company => {
                reveal_strlit("company");
                reveal_strlit("event");
                assert("company"@.len() != "event"@.len());
                reveal_strlit("event_type");
                assert("company"@.len() != "event_type"@.len());
            },
            EventLeadPredicateAxis::QuestionAnswer => {
                reveal_strlit("question_answer");
                reveal_strlit("event");
                assert("question_answer"@.len() != "event"@.len());
                reveal_strlit("event_type");
                assert("question_answer"@.len() != "event_type"@.len());
                reveal_strlit("company");
                assert("question_answer"@.len() != "company"@.len());
            },
        }
    }
}

impl Default for EventLeadPredicateAxis {
    fn default() -> (r: Self)
        ensures
            r == EventLeadPredicateAxis::Event,
    {
        EventLeadPredicateAxis::Event
    }
}

/// The typed failure kinds a scheduler row records.
#[derive(Debug, Clone, Copy, PartialEq, Eq, Hash, Structural)]
pub enum EventMailErrorKind {
    TemplateUnresolved,
    TemplateRendererNotComposed,
    RenderFailed,
    EnqueueRefused,
    RecipientInvalid,
}

impl EventMailErrorKind {
    /// The snake_case wire name of the variant.
    pub open spec fn name_spec(self) -> Seq<char> {
        match self {
            EventMailErrorKind::TemplateUnresolved => "template_unresolved"@,
            EventMailErrorKind::TemplateRendererNotComposed => "template_renderer_not_composed"@,
            EventMailErrorKind::RenderFailed => "render_failed"@,
            EventMailErrorKind::EnqueueRefused => "enqueue_refused"@,
            EventMailErrorKind::RecipientInvalid => "recipient_invalid"@,
        }
    }

    /// The variant a (lowercased) wire name denotes, if any.
    pub open spec fn parse_name(t: Seq<char>) -> Option<Self> {
        if t == "template_unresolved"@ {
            Some(EventMailErrorKind::TemplateUnresolved)
        } else if t == "template_renderer_not_composed"@ {
            Some(EventMailErrorKind::TemplateRendererNotComposed)
        } else if t == "render_failed"@ {
            Some(EventMailErrorKind::RenderFailed)
        } else if t == "enqueue_refused"@ {
            Some(EventMailErrorKind::EnqueueRefused)
        } else if t == "recipient_invalid"@ {
            Some(EventMailErrorKind::RecipientInvalid)
        } else {
            None
        }
    }

    /// The text `from_str` refuses an unknown name with.
    pub open spec fn unknown_message(s: Seq<char>) -> Seq<char> {
        "Unknown EventMailErrorKind variant: "@ + s
    }

    /// The wire name (what `Display` writes).
    pub fn as_str(&self) -> (r: &'static str)
        ensures
            r@ == self.name_spec(),
    {
        match self {
            EventMailErrorKind::TemplateUnresolved => "template_unresolved",
            EventMailErrorKind::TemplateRendererNotComposed => "template_renderer_not_composed",
            EventMailErrorKind::RenderFailed => "render_failed",
            EventMailErrorKind::EnqueueRefused => "enqueue_refused",
            EventMailErrorKind::RecipientInvalid => "recipient_invalid",
        }
    }

    /// The variant whose wire name is exactly `s` (the serialized form), if any.
    pub fn from_name(s: &str) -> (r: Option<Self>)
        ensures
            r == Self::parse_name(s@),
    {
        if same_text(s, "template_unresolved") {
            return Some(EventMailErrorKind::TemplateUnresolved);
        }
        if same_text(s, "template_renderer_not_composed") {
            return Some(EventMailErrorKind::TemplateRendererNotComposed);
        }
        if same_text(s, "render_failed") {
            return Some(EventMailErrorKind::RenderFailed);
        }
        if same_text(s, "enqueue_refused") {
            return Some(EventMailErrorKind::EnqueueRefused);
        }
        if same_text(s, "recipient_invalid") {
            return Some(EventMailErrorKind::RecipientInvalid);
        }
        None
    }

    /// Parses a wire name, case-insensitively (the input is lowercased first).
    pub fn from_str(s: &str) -> (r: Result<Self, String>)
        ensures
            match Self::parse_name(unicode_lowercase(s@)) {
                Some(v) => r == Ok::<Self, String>(v),
                None => r.is_err() && r->Err_0@ == Self::unknown_message(s@),
            },
            all_ascii(s@) ==> match Self::parse_name(ascii_lower_seq(s@)) {
                Some(v) => r == Ok::<Self, String>(v),
                None => r.is_err(),
            },
    {
        let lowered = to_lowercase(s);
        let l = lowered.as_str();
        if same_text(l, "template_unresolved") {
            return Ok(EventMailErrorKind::TemplateUnresolved);
        }
        if same_text(l, "template_renderer_not_composed") {
            return Ok(EventMailErrorKind::TemplateRendererNotComposed);
        }
        if same_text(l, "render_failed") {
            return Ok(EventMailErrorKind::RenderFailed);
        }
        if same_text(l, "enqueue_refused") {
            return Ok(EventMailErrorKind::EnqueueRefused);
        }
        if same_text(l, "recipient_invalid") {
            return Ok(EventMailErrorKind::RecipientInvalid);
        }
        let mut msg: Vec<char> = Vec::new();
        extend_str(&mut msg, "Unknown EventMailErrorKind variant: ");
        extend_str(&mut msg, s);
        Err(string_of(&msg))
    }

    /// Parsing ignores ASCII case: the wire name and its ASCII upper-case
    /// form are all-ASCII texts whose ASCII lowercase parses back to the
    /// variant, so `from_str` gives the variant for both.
    pub proof fn lemma_from_str_ignores_case(self)
        ensures
            all_ascii(self.name_spec()),
            Self::parse_name(ascii_lower_seq(self.name_spec())) == Some(self),
            all_ascii(ascii_upper_seq(self.name_spec())),
            Self::parse_name(ascii_lower_seq(ascii_upper_seq(self.name_spec()))) == Some(self),
    {
        self.lemma_name_round_trip();
        assert(lower_word(self.name_spec())) by {
            match self {
                EventMailErrorKind::TemplateUnresolved => {
                    reveal_strlit("template_unresolved");
                },
                EventMailErrorKind::TemplateRendererNotComposed => {
                    reveal_strlit("template_renderer_not_composed");
                },
                EventMailErrorKind::RenderFailed => {
                    reveal_strlit("render_failed");
                },
                EventMailErrorKind::EnqueueRefused => {
                    reveal_strlit("enqueue_refused");
                },
                EventMailErrorKind::RecipientInvalid => {
                    reveal_strlit("recipient_invalid");
                },
            }
        }
        lemma_lower_word_case(self.name_spec());
    }

    /// Parsing a variant's own wire name gives the variant back.
    pub proof fn lemma_name_round_trip(self)
        ensures
            Self::parse_name(self.name_spec()) == Some(self),
    {
        match self {
            EventMailErrorKind::TemplateUnresolved => {
                reveal_strlit("template_unresolved");
            },
            EventMailErrorKind::TemplateRendererNotComposed => {
                reveal_strlit("template_renderer_not_composed");
                reveal_strlit("template_unresolved");
                assert("template_renderer_not_composed"@.len() != "template_unresolved"@.len());
            },
            EventMailErrorKind::RenderFailed => {
                reveal_strlit("render_failed");
                reveal_strlit("template_unresolved");
                assert("render_failed"@.len() != "template_unresolved"@.len());
                reveal_strlit("template_renderer_not_composed");
                assert("render_failed"@.len() != "template_renderer_not_composed"@.len());
            },
            EventMailErrorKind::EnqueueRefused => {
                reveal_strlit("enqueue_refused");
                reveal_strlit("template_unresolved");
                assert("enqueue_refused"@.len() != "template_unresolved"@.len());
                reveal_strlit("template_renderer_not_composed");
                assert("enqueue_refused"@.len() != "template_renderer_not_composed"@.len());
                reveal_strlit("render_failed");
                assert("enqueue_refused"@.len() != "render_failed"@.len());
            },
            EventMailErrorKind::RecipientInvalid => {
                reveal_strlit("recipient_invalid");
                reveal_strlit("template_unresolved");
                assert("recipient_invalid"@.len() != "template_unresolved"@.len());
                reveal_strlit("template_renderer_not_composed");
                assert("recipient_invalid"@.len() != "template_renderer_not_composed"@.len());
                reveal_strlit("render_failed");
                assert("recipient_invalid"@.len() != "render_failed"@.len());
                reveal_strlit("enqueue_refused");
                assert("recipient_invalid"@.len() != "enqueue_refused"@.len());
            },
        }
    }
}

impl Default for EventMailErrorKind {
    fn default() -> (r: Self)
        ensures
            r == EventMailErrorKind::TemplateUnresolved,
    {
        EventMailErrorKind::TemplateUnresolved
    }
}

/// The channel a scheduler row delivers through.
#[derive(Debug, Clone, Copy, PartialEq, Eq, Hash, Structural)]
pub enum EventNotificationChannel {
    Mail,
    Sms,
}

impl EventNotificationChannel {
    /// The snake_case wire name of the variant.
    pub open spec fn name_spec(self) -> Seq<char> {
        match self {
            EventNotificationChannel::Mail => "mail"@,
            EventNotificationChannel::Sms => "sms"@,
        }
    }

    /// The variant a (lowercased) wire name denotes, if any.
    pub open spec fn parse_name(t: Seq<char>) -> Option<Self> {
        if t == "mail"@ {
            Some(EventNotificationChannel::Mail)
        } else if t == "sms"@ {
            Some(EventNotificationChannel::Sms)
        } else {
            None
        }
    }

    /// The text `from_str` refuses an unknown name with.
    pub open spec fn unknown_message(s: Seq<char>) -> Seq<char> {
        "Unknown EventNotificationChannel variant: "@ + s
    }

    /// The wire name (what `Display` writes).
    pub fn as_str(&self) -> (r: &'static str)
        ensures
            r@ == self.name_spec(),
    {
        match self {
            EventNotificationChannel::Mail => "mail",
            EventNotificationChannel::Sms => "sms",
        }
    }

    /// The variant whose wire name is exactly `s` (the serialized form), if any.
    pub fn from_name(s: &str) -> (r: Option<Self>)
        ensures
            r == Self::parse_name(s@),
    {
        if same_text(s, "mail") {
            return Some(EventNotificationChannel::Mail);
        }
        if same_text(s, "sms") {
            return Some(EventNotificationChannel::Sms);
        }
        None
    }

    /// Parses a wire name, case-insensitively (the input is lowercased first).
    pub fn from_str(s: &str) -> (r: Result<Self, String>)
        ensures
            match Self::parse_name(unicode_lowercase(s@)) {
                Some(v) => r == Ok::<Self, String>(v),
                None => r.is_err() && r->Err_0@ == Self::unknown_message(s@),
            },
            all_ascii(s@) ==> match Self::parse_name(ascii_lower_seq(s@)) {
                Some(v) => r == Ok::<Self, String>(v),
                None => r.is_err(),
            },
    {
        let lowered = to_lowercase(s);
        let l = lowered.as_str();
        if same_text(l, "mail") {
            return Ok(EventNotificationChannel::Mail);
        }
        if same_text(l, "sms") {
            return Ok(EventNotificationChannel::Sms);
        }
        let mut msg: Vec<char> = Vec::new();
        extend_str(&mut msg, "Unknown EventNotificationChannel variant: ");
        extend_str(&mut msg, s);
        Err(string_of(&msg))
    }

    /// Parsing ignores ASCII case: the wire name and its ASCII upper-case
    /// form are all-ASCII texts whose ASCII lowercase parses back to the
    /// variant, so `from_str` gives the variant for both.
    pub proof fn lemma_from_str_ignores_case(self)
        ensures
            all_ascii(self.name_spec()),
            Self::parse_name(ascii_lower_seq(self.name_spec())) == Some(self),
            all_ascii(ascii_upper_seq(self.name_spec())),
            Self::parse_name(ascii_lower_seq(ascii_upper_seq(self.name_spec()))) == Some(self),
    {
        self.lemma_name_round_trip();
        assert(lower_word(self.name_spec())) by {
            match self {
                EventNotificationChannel::Mail => {
                    reveal_strlit("mail");
                },
                EventNotificationChannel::Sms => {
                    reveal_strlit("sms");
                },
            }
        }
        lemma_lower_word_case(self.name_spec());
    }

    /// Parsing a variant's own wire name gives the variant back.
    pub proof fn lemma_name_round_trip(self)
        ensures
            Self::parse_name(self.name_spec()) == Some(self),
    {
        match self {
            EventNotificationChannel::Mail => {
                reveal_strlit("mail");
            },
            EventNotificationChannel::Sms => {
                reveal_strlit("sms");
                reveal_strlit("mail");
                assert("sms"@.len() != "mail"@.len());
            },
        }
    }
}

impl Default for EventNotificationChannel {
    fn default() -> (r: Self)
        ensures
            r == EventNotificationChannel::Mail,
    {
        EventNotificationChannel::Mail
    }
}

/// The kind of a registration question.
#[derive(Debug, Clone, Copy, PartialEq, Eq, Hash, Structural)]
pub enum EventQuestionKind {
    TextBox,
    SimpleChoice,
    Name,
    Email,
    Phone,
    CompanyName,
}

impl EventQuestionKind {
    /// The snake_case wire name of the variant.
    pub open spec fn name_spec(self) -> Seq<char> {
        match self {
            EventQuestionKind::TextBox => "text_box"@,
            EventQuestionKind::SimpleChoice => "simple_choice"@,
            EventQuestionKind::Name => "name"@,
            EventQuestionKind::Email => "email"@,
            EventQuestionKind::Phone => "phone"@,
            EventQuestionKind::CompanyName => "company_name"@,
        }
    }

    /// The variant a (lowercased) wire name denotes, if any.
    pub open spec fn parse_name(t: Seq<char>) -> Option<Self> {
        if t == "text_box"@ {
            Some(EventQuestionKind::TextBox)
        } else if t == "simple_choice"@ {
            Some(EventQuestionKind::SimpleChoice)
        } else if t == "name"@ {
            Some(EventQuestionKind::Name)
        } else if t == "email"@ {
            Some(EventQuestionKind::Email)
        } else if t == "phone"@ {
            Some(EventQuestionKind::Phone)
        } else if t == "company_name"@ {
            Some(EventQuestionKind::CompanyName)
        } else {
            None
        }
    }

    /// The text `from_str` refuses an unknown name with.
    pub open spec fn unknown_message(s: Seq<char>) -> Seq<char> {
        "Unknown EventQuestionKind variant: "@ + s
    }

    /// The wire name (what `Display` writes).
    pub fn as_str(&self) -> (r: &'static str)
        ensures
            r@ == self.name_spec(),
    {
        match self {
            EventQuestionKind::TextBox => "text_box",
            EventQuestionKind::SimpleChoice => "simple_choice",
            EventQuestionKind::Name => "name",
            EventQuestionKind::Email => "email",
            EventQuestionKind::Phone => "phone",
            EventQuestionKind::CompanyName => "company_name",
        }
    }

    /// The variant whose wire name is exactly `s` (the serialized form), if any.
    pub fn from_name(s: &str) -> (r: Option<Self>)
        ensures
            r == Self::parse_name(s@),
    {
        if same_text(s, "text_box") {
            return Some(EventQuestionKind::TextBox);
        }
        if same_text(s, "simple_choice") {
            return Some(EventQuestionKind::SimpleChoice);
        }
        if same_text(s, "name") {
            return Some(EventQuestionKind::Name);
        }
        if same_text(s, "email") {
            return Some(EventQuestionKind::Email);
        }
        if same_text(s, "phone") {
            return Some(EventQuestionKind::Phone);
        }
        if same_text(s, "company_name") {
            return Some(EventQuestionKind::CompanyName);
        }
        None
    }

    /// Parses a wire name, case-insensitively (the input is lowercased first).
    pub fn from_str(s: &str) -> (r: Result<Self, String>)
        ensures
            match Self::parse_name(unicode_lowercase(s@)) {
                Some(v) => r == Ok::<Self, String>(v),
                None => r.is_err() && r->Err_0@ == Self::unknown_message(s@),
            },
            all_ascii(s@) ==> match Self::parse_name(ascii_lower_seq(s@)) {
                Some(v) => r == Ok::<Self, String>(v),
                None => r.is_err(),
            },
    {
        let lowered = to_lowercase(s);
        let l = lowered.as_str();
        if same_text(l, "text_box") {
            return Ok(EventQuestionKind::TextBox);
        }
        if same_text(l, "simple_choice") {
            return Ok(EventQuestionKind::SimpleChoice);
        }
        if same_text(l, "name") {
            return Ok(EventQuestionKind::Name);
        }
        if same_text(l, "email") {
            return Ok(EventQuestionKind::Email);
        }
        if same_text(l, "phone") {
            return Ok(EventQuestionKind::Phone);
        }
        if same_text(l, "company_name") {
            return Ok(EventQuestionKind::CompanyName);
        }
        let mut msg: Vec<char> = Vec::new();
        extend_str(&mut msg, "Unknown EventQuestionKind variant: ");
        extend_str(&mut msg, s);
        Err(string_of(&msg))
    }

    /// Parsing ignores ASCII case: the wire name and its ASCII upper-case
    /// form are all-ASCII texts whose ASCII lowercase parses back to the
    /// variant, so `from_str` gives the variant for both.
    pub proof fn lemma_from_str_ignores_case(self)
        ensures
            all_ascii(self.name_spec()),
            Self::parse_name(ascii_lower_seq(self.name_spec())) == Some(self),
            all_ascii(ascii_upper_seq(self.name_spec())),
            Self::parse_name(ascii_lower_seq(ascii_upper_seq(self.name_spec()))) == Some(self),
    {
        self.lemma_name_round_trip();
        assert(lower_word(self.name_spec())) by {
            match self {
                EventQuestionKind::TextBox => {
                    reveal_strlit("text_box");
                },
                EventQuestionKind::SimpleChoice => {
                    reveal_strlit("simple_choice");
                },
                EventQuestionKind::Name => {
                    reveal_strlit("name");
                },
                EventQuestionKind::Email => {
                    reveal_strlit("email");
                },
                EventQuestionKind::Phone => {
                    reveal_strlit("phone");
                },
                EventQuestionKind::CompanyName => {
                    reveal_strlit("company_name");
                },
            }
        }
        lemma_lower_word_case(self.name_spec());
    }

    /// Parsing a variant's own wire name gives the variant back.
    pub proof fn lemma_name_round_trip(self)
        ensures
            Self::parse_name(self.name_spec()) == Some(self),
    {
        match self {
            EventQuestionKind::TextBox => {
                reveal_strlit("text_box");
            },
            EventQuestionKind::SimpleChoice => {
                reveal_strlit("simple_choice");
                reveal_strlit("text_box");
                assert("simple_choice"@.len() != "text_box"@.len());
            },
            EventQuestionKind::Name => {
                reveal_strlit("name");
                reveal_strlit("text_box");
                assert("name"@.len() != "text_box"@.len());
                reveal_strlit("simple_choice");
                assert("name"@.len() != "simple_choice"@.len());
            },
            EventQuestionKind::Email => {
                reveal_strlit("email");
                reveal_strlit("text_box");
                assert("email"@.len() != "text_box"@.len());
                reveal_strlit("simple_choice");
                assert("email"@.len() != "simple_choice"@.len());
                reveal_strlit("name");
                assert("email"@.len() != "name"@.len());
            },
            EventQuestionKind::Phone => {
                reveal_strlit("phone");
                reveal_strlit("text_box");
                assert("phone"@.len() != "text_box"@.len());
                reveal_strlit("simple_choice");
                assert("phone"@.len() != "simple_choice"@.len());
                reveal_strlit("name");
                assert("phone"@.len() != "name"@.len());
                reveal_strlit("email");
                assert("phone"@[0] != "email"@[0]);
            },
            EventQuestionKind::CompanyName => {
                reveal_strlit("company_name");
                reveal_strlit("text_box");
                assert("company_name"@.len() != "text_box"@.len());
                reveal_strlit("simple_choice");
                assert("company_name"@.len() != "simple_choice"@.len());
                reveal_strlit("name");
                assert("company_name"@.len() != "name"@.len());
                reveal_strlit("email");
                assert("company_name"@.len() != "email"@.len());
                reveal_strlit("phone");
                assert("company_name"@.len() != "phone"@.len());
            },
        }
    }
}

impl Default for EventQuestionKind {
    fn default() -> (r: Self)
        ensures
            r == EventQuestionKind::TextBox,
    {
        EventQuestionKind::TextBox
    }
}

/// The state of a registration.
#[derive(Debug, Clone, Copy, PartialEq, Eq, Hash, Structural)]
pub enum EventRegistrationState {
    Draft,
    Open,
    Done,
    Cancel,
}

impl EventRegistrationState {
    /// The snake_case wire name of the variant.
    pub open spec fn name_spec(self) -> Seq<char> {
        match self {
            EventRegistrationState::Draft => "draft"@,
            EventRegistrationState::Open => "open"@,
            EventRegistrationState::Done => "done"@,
            EventRegistrationState::Cancel => "cancel"@,
        }
    }

    /// The variant a (lowercased) wire name denotes, if any.
    pub open spec fn parse_name(t: Seq<char>) -> Option<Self> {
        if t == "draft"@ {
            Some(EventRegistrationState::Draft)
        } else if t == "open"@ {
            Some(EventRegistrationState::Open)
        } else if t == "done"@ {
            Some(EventRegistrationState::Done)
        } else if t == "cancel"@ {
            Some(EventRegistrationState::Cancel)
        } else {
            None
        }
    }

    /// The text `from_str` refuses an unknown name with.
    pub open spec fn unknown_message(s: Seq<char>) -> Seq<char> {
        "Unknown EventRegistrationState variant: "@ + s
    }

    /// The wire name (what `Display` writes).
    pub fn as_str(&self) -> (r: &'static str)
        ensures
            r@ == self.name_spec(),
    {
        match self {
            EventRegistrationState::Draft => "draft",
            EventRegistrationState::Open => "open",
            EventRegistrationState::Done => "done",
            EventRegistrationState::Cancel => "cancel",
        }
    }

    /// The variant whose wire name is exactly `s` (the serialized form), if any.
    pub fn from_name(s: &str) -> (r: Option<Self>)
        ensures
            r == Self::parse_name(s@),
    {
        if same_text(s, "draft") {
            return Some(EventRegistrationState::Draft);
        }
        if same_text(s, "open") {
            return Some(EventRegistrationState::Open);
        }
        if same_text(s, "done") {
            return Some(EventRegistrationState::Done);
        }
        if same_text(s, "cancel") {
            return Some(EventRegistrationState::Cancel);
        }
        None
    }

    /// Parses a wire name, case-insensitively (the input is lowercased first).
    pub fn from_str(s: &str) -> (r: Result<Self, String>)
        ensures
            match Self::parse_name(unicode_lowercase(s@)) {
                Some(v) => r == Ok::<Self, String>(v),
                None => r.is_err() && r->Err_0@ == Self::unknown_message(s@),
            },
            all_ascii(s@) ==> match Self::parse_name(ascii_lower_seq(s@)) {
                Some(v) => r == Ok::<Self, String>(v),
                None => r.is_err(),
            },
    {
        let lowered = to_lowercase(s);
        let l = lowered.as_str();
        if same_text(l, "draft") {
            return Ok(EventRegistrationState::Draft);
        }
        if same_text(l, "open") {
            return Ok(EventRegistrationState::Open);
        }
        if same_text(l, "done") {
            return Ok(EventRegistrationState::Done);
        }
        if same_text(l, "cancel") {
            return Ok(EventRegistrationState::Cancel);
        }
        let mut msg: Vec<char> = Vec::new();
        extend_str(&mut msg, "Unknown EventRegistrationState variant: ");
        extend_str(&mut msg, s);
        Err(string_of(&msg))
    }

    /// Parsing ignores ASCII case: the wire name and its ASCII upper-case
    /// form are all-ASCII texts whose ASCII lowercase parses back to the
    /// variant, so `from_str` gives the variant for both.
    pub proof fn lemma_from_str_ignores_case(self)
        ensures
            all_ascii(self.name_spec()),
            Self::parse_name(ascii_lower_seq(self.name_spec())) == Some(self),
            all_ascii(ascii_upper_seq(self.name_spec())),
            Self::parse_name(ascii_lower_seq(ascii_upper_seq(self.name_spec()))) == Some(self),
    {
        self.lemma_name_round_trip();
        assert(lower_word(self.name_spec())) by {
            match self {
                EventRegistrationState::Draft => {
                    reveal_strlit("draft");
                },
                EventRegistrationState::Open => {
                    reveal_strlit("open");
                },
                EventRegistrationState::Done => {
                    reveal_strlit("done");
                },
                EventRegistrationState::Cancel => {
                    reveal_strlit("cancel");
                },
            }
        }
        lemma_lower_word_case(self.name_spec());
    }

    /// Parsing a variant's own wire name gives the variant back.
    pub proof fn lemma_name_round_trip(self)
        ensures
            Self::parse_name(self.name_spec()) == Some(self),
    {
        match self {
            EventRegistrationState::Draft => {
                reveal_strlit("draft");
            },
            EventRegistrationState::Open => {
                reveal_strlit("open");
                reveal_strlit("draft");
                assert("open"@.len() != "draft"@.len());
            },
            EventRegistrationState::Done => {
                reveal_strlit("done");
                reveal_strlit("draft");
                assert("done"@.len() != "draft"@.len());
                reveal_strlit("open");
                assert("done"@[0] != "open"@[0]);
            },
            EventRegistrationState::Cancel => {
                reveal_strlit("cancel");
                reveal_strlit("draft");
                assert("cancel"@.len() != "draft"@.len());
                reveal_strlit("open");
                assert("cancel"@.len() != "open"@.len());
                reveal_strlit("done");
                assert("cancel"@.len() != "done"@.len());
            },
        }
    }
}

impl Default for EventRegistrationState {
    fn default() -> (r: Self)
        ensures
            r == EventRegistrationState::Open,
    {
        EventRegistrationState::Open
    }
}

/// The mirrored state of the linked sale order.
#[derive(Debug, Clone, Copy, PartialEq, Eq, Hash, Structural)]
pub enum EventSaleOrderState {
    Draft,
    Sent,
    Sale,
    Cancel,
}

impl EventSaleOrderState {
    /// The snake_case wire name of the variant.
    pub open spec fn name_spec(self) -> Seq<char> {
        match self {
            EventSaleOrderState::Draft => "draft"@,
            EventSaleOrderState::Sent => "sent"@,
            EventSaleOrderState::Sale => "sale"@,
            EventSaleOrderState::Cancel => "cancel"@,
        }
    }

    /// The variant a (lowercased) wire name denotes, if any.
    pub open spec fn parse_name(t: Seq<char>) -> Option<Self> {
        if t == "draft"@ {
            Some(EventSaleOrderState::Draft)
        } else if t == "sent"@ {
            Some(EventSaleOrderState::Sent)
        } else if t == "sale"@ {
            Some(EventSaleOrderState::Sale)
        } else if t == "cancel"@ {
            Some(EventSaleOrderState::Cancel)
        } else {
            None
        }
    }

    /// The text `from_str` refuses an unknown name with.
    pub open spec fn unknown_message(s: Seq<char>) -> Seq<char> {
        "Unknown EventSaleOrderState variant: "@ + s
    }

    /// The wire name (what `Display` writes).
    pub fn as_str(&self) -> (r: &'static str)
        ensures
            r@ == self.name_spec(),
    {
        match self {
            EventSaleOrderState::Draft => "draft",
            EventSaleOrderState::Sent => "sent",
            EventSaleOrderState::Sale => "sale",
            EventSaleOrderState::Cancel => "cancel",
        }
    }

    /// The variant whose wire name is exactly `s` (the serialized form), if any.
    pub fn from_name(s: &str) -> (r: Option<Self>)
        ensures
            r == Self::parse_name(s@),
    {
        if same_text(s, "draft") {
            return Some(EventSaleOrderState::Draft);
        }
        if same_text(s, "sent") {
            return Some(EventSaleOrderState::Sent);
        }
        if same_text(s, "sale") {
            return Some(EventSaleOrderState::Sale);
        }
        if same_text(s, "cancel") {
            return Some(EventSaleOrderState::Cancel);
        }
        None
    }

    /// Parses a wire name, case-insensitively (the input is lowercased first).
    pub fn from_str(s: &str) -> (r: Result<Self, String>)
        ensures
            match Self::parse_name(unicode_lowercase(s@)) {
                Some(v) => r == Ok::<Self, String>(v),
                None => r.is_err() && r->Err_0@ == Self::unknown_message(s@),
            },
            all_ascii(s@) ==> match Self::parse_name(ascii_lower_seq(s@)) {
                Some(v) => r == Ok::<Self, String>(v),
                None => r.is_err(),
            },
    {
        let lowered = to_lowercase(s);
        let l = lowered.as_str();
        if same_text(l, "draft") {
            return Ok(EventSaleOrderState::Draft);
        }
        if same_text(l, "sent") {
            return Ok(EventSaleOrderState::Sent);
        }
        if same_text(l, "sale") {
            return Ok(EventSaleOrderState::Sale);
        }
        if same_text(l, "cancel") {
            return Ok(EventSaleOrderState::Cancel);
        }
        let mut msg: Vec<char> = Vec::new();
        extend_str(&mut msg, "Unknown EventSaleOrderState variant: ");
        extend_str(&mut msg, s);
        Err(string_of(&msg))
    }

    /// Parsing ignores ASCII case: the wire name and its ASCII upper-case
    /// form are all-ASCII texts whose ASCII lowercase parses back to the
    /// variant, so `from_str` gives the variant for both.
    pub proof fn lemma_from_str_ignores_case(self)
        ensures
            all_ascii(self.name_spec()),
            Self::parse_name(ascii_lower_seq(self.name_spec())) == Some(self),
            all_ascii(ascii_upper_seq(self.name_spec())),
            Self::parse_name(ascii_lower_seq(ascii_upper_seq(self.name_spec()))) == Some(self),
    {
        self.lemma_name_round_trip();
        assert(lower_word(self.name_spec())) by {
            match self {
                EventSaleOrderState::Draft => {
                    reveal_strlit("draft");
                },
                EventSaleOrderState::Sent => {
                    reveal_strlit("sent");
                },
                EventSaleOrderState::Sale => {
                    reveal_strlit("sale");
                },
                EventSaleOrderState::Cancel => {
                    reveal_strlit("cancel");
                },
            }
        }
        lemma_lower_word_case(self.name_spec());
    }

    /// Parsing a variant's own wire name gives the variant back.
    pub proof fn lemma_name_round_trip(self)
        ensures
            Self::parse_name(self.name_spec()) == Some(self),
    {
        match self {
            EventSaleOrderState::Draft => {
                reveal_strlit("draft");
            },
            EventSaleOrderState::Sent => {
                reveal_strlit("sent");
                reveal_strlit("draft");
                assert("sent"@.len() != "draft"@.len());
            },
            EventSaleOrderState::Sale => {
                reveal_strlit("sale");
                reveal_strlit("draft");
                assert("sale"@.len() != "draft"@.len());
                reveal_strlit("sent");
                assert("sale"@[1] != "sent"@[1]);
            },
            EventSaleOrderState::Cancel => {
                reveal_strlit("cancel");
                reveal_strlit("draft");
                assert("cancel"@.len() != "draft"@.len());
                reveal_strlit("sent");
                assert("cancel"@.len() != "sent"@.len());
                reveal_strlit("sale");
                assert("cancel"@.len() != "sale"@.len());
            },
        }
    }
}

impl Default for EventSaleOrderState {
    fn default() -> (r: Self)
        ensures
            r == EventSaleOrderState::Draft,
    {
        EventSaleOrderState::Draft
    }
}

/// The payability of a sale-linked registration.
#[derive(Debug, Clone, Copy, PartialEq, Eq, Hash, Structural)]
pub enum EventSaleStatus {
    Free,
    Sold,
    ToPay,
}

impl EventSaleStatus {
    /// The snake_case wire name of the variant.
    pub open spec fn name_spec(self) -> Seq<char> {
        match self {
            EventSaleStatus::Free => "free"@,
            EventSaleStatus::Sold => "sold"@,
            EventSaleStatus::ToPay => "to_pay"@,
        }
    }

    /// The variant a (lowercased) wire name denotes, if any.
    pub open spec fn parse_name(t: Seq<char>) -> Option<Self> {
        if t == "free"@ {
            Some(EventSaleStatus::Free)
        } else if t == "sold"@ {
            Some(EventSaleStatus::Sold)
        } else if t == "to_pay"@ {
            Some(EventSaleStatus::ToPay)
        } else {
            None
        }
    }

    /// The text `from_str` refuses an unknown name with.
    pub open spec fn unknown_message(s: Seq<char>) -> Seq<char> {
        "Unknown EventSaleStatus variant: "@ + s
    }

    /// The wire name (what `Display` writes).
    pub fn as_str(&self) -> (r: &'static str)
        ensures
            r@ == self.name_spec(),
    {
        match self {
            EventSaleStatus::Free => "free",
            EventSaleStatus::Sold => "sold",
            EventSaleStatus::ToPay => "to_pay",
        }
    }

    /// The variant whose wire name is exactly `s` (the serialized form), if any.
    pub fn from_name(s: &str) -> (r: Option<Self>)
        ensures
            r == Self::parse_name(s@),
    {
        if same_text(s, "free") {
            return Some(EventSaleStatus::Free);
        }
        if same_text(s, "sold") {
            return Some(EventSaleStatus::Sold);
        }
        if same_text(s, "to_pay") {
            return Some(EventSaleStatus::ToPay);
        }
        None
    }

    /// Parses a wire name, case-insensitively (the input is lowercased first).
    pub fn from_str(s: &str) -> (r: Result<Self, String>)
        ensures
            match Self::parse_name(unicode_lowercase(s@)) {
                Some(v) => r == Ok::<Self, String>(v),
                None => r.is_err() && r->Err_0@ == Self::unknown_message(s@),
            },
            all_ascii(s@) ==> match Self::parse_name(ascii_lower_seq(s@)) {
                Some(v) => r == Ok::<Self, String>(v),
                None => r.is_err(),
            },
    {
        let lowered = to_lowercase(s);
        let l = lowered.as_str();
        if same_text(l, "free") {
            return Ok(EventSaleStatus::Free);
        }
        if same_text(l, "sold") {
            return Ok(EventSaleStatus::Sold);
        }
        if same_text(l, "to_pay") {
            return Ok(EventSaleStatus::ToPay);
        }
        let mut msg: Vec<char> = Vec::new();
        extend_str(&mut msg, "Unknown EventSaleStatus variant: ");
        extend_str(&mut msg, s);
        Err(string_of(&msg))
    }

    /// Parsing ignores ASCII case: the wire name and its ASCII upper-case
    /// form are all-ASCII texts whose ASCII lowercase parses back to the
    /// variant, so `from_str` gives the variant for both.
    pub proof fn lemma_from_str_ignores_case(self)
        ensures
            all_ascii(self.name_spec()),
            Self::parse_name(ascii_lower_seq(self.name_spec())) == Some(self),
            all_ascii(ascii_upper_seq(self.name_spec())),
            Self::parse_name(ascii_lower_seq(ascii_upper_seq(self.name_spec()))) == Some(self),
    {
        self.lemma_name_round_trip();
        assert(lower_word(self.name_spec())) by {
            match self {
                EventSaleStatus::Free => {
                    reveal_strlit("free");
                },
                EventSaleStatus::Sold => {
                    reveal_strlit("sold");
                },
                EventSaleStatus::ToPay => {
                    reveal_strlit("to_pay");
                },
            }
        }
        lemma_lower_word_case(self.name_spec());
    }

    /// Parsing a variant's own wire name gives the variant back.
    pub proof fn lemma_name_round_trip(self)
        ensures
            Self::parse_name(self.name_spec()) == Some(self),
    {
        match self {
            EventSaleStatus::Free => {
                reveal_strlit("free");
            },
            EventSaleStatus::Sold => {
                reveal_strlit("sold");
                reveal_strlit("free");
                assert("sold"@[0] != "free"@[0]);
            },
            EventSaleStatus::ToPay => {
                reveal_strlit("to_pay");
                reveal_strlit("free");
                assert("to_pay"@.len() != "free"@.len());
                reveal_strlit("sold");
                assert("to_pay"@.len() != "sold"@.len());
            },
        }
    }
}

impl Default for EventSaleStatus {
    fn default() -> (r: Self)
        ensures
            r == EventSaleStatus::Free,
    {
        EventSaleStatus::Free
    }
}

} // verus!
