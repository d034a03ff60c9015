use vstd::prelude::*;
use crate::text::{extend_str, string_of};

verus! {

/// The module's typed refusal family: every refusal a client can tell apart
/// is a named variant with a stable wire code.
#[derive(Debug, Clone, PartialEq, Eq)]
pub enum EventError {
    /// The event id does not resolve to a row.
    EventNotFound,
    /// The event (or slot) is at capacity under the counting domain.
    EventSeatsExhausted { event_id: u128 },
    /// The ticket's sale window is closed at read time.
    EventSaleWindowClosed { event_ticket_id: u128 },
    /// A multi-slot event requires a slot on every registration.
    EventSlotRequired { event_id: u128 },
    /// The slot does not belong to the named event.
    EventSlotNotOfEvent { event_slot_id: u128 },
    /// The ticket does not belong to the named event.
    EventTicketNotOfEvent { event_ticket_id: u128 },
    /// The registration id does not resolve.
    RegistrationNotFound,
    /// The uniform capability-gate refusal (unpublished, missing, bad token, expired).
    EventNotPublished,
    /// The capability secret is empty: capability routes refuse.
    EventCapabilitySecretNotConfigured,
    /// Fixed-window throttle refusal.
    EventThrottled { retry_after_secs: u32 },
    /// A generic patch tried to write the publication fence pair.
    PublishRefused { fields: String },
    /// The scheduler row carries no template ref.
    TemplateUnresolved,
    /// No host renderer was installed.
    TemplateRendererNotComposed,
    /// The renderer ran and failed.
    RenderFailed(String),
    /// The queue refused the enqueue.
    EnqueueRefused(String),
    /// The recipient address is invalid.
    RecipientInvalid(String),
    /// Desk scan: unknown barcode or inactive row.
    DeskInvalidTicket,
    /// Desk scan: the registration is cancelled.
    DeskCanceledRegistration,
    /// Desk scan: the registration is still a draft.
    DeskUnconfirmedRegistration,
    /// Desk scan: the event is done, cancelled or past its end.
    DeskNotOngoingEvent,
    /// Desk scan: the ticket belongs to another event.
    DeskNeedManualConfirmation,
    /// Desk scan: the attendee is already registered.
    DeskAlreadyRegistered,
    /// The booth id does not resolve.
    BoothNotFound { booth_id: u128 },
    /// The booking id does not resolve (or is not pending).
    BoothBookingNotFound { booking_id: u128 },
    /// The booth already carries a confirmed booking.
    BoothAlreadyConfirmed { event_booth_id: u128 },
    /// A sale-linked booth cannot be deleted.
    BoothDeleteRefusedSaleLinked { booth_id: u128 },
    /// One order line books booths of one event only.
    BoothBookingLineCrossEvent { sale_order_line_id: u128 },
    /// The lead rule id does not resolve.
    LeadRuleNotFound { rule_id: u128 },
    /// The event's lead queue row does not exist.
    LeadRequestNotFound { event_id: u128 },
    /// The event's lead queue row is leased by another walker.
    LeadRequestBusy { event_id: u128 },
    /// Request-shape refusal.
    Validation(String),
    /// Infrastructure failure in the store.
    Database(String),
    /// Internal failure.
    Internal(String),
}

impl EventError {
    /// The stable wire code.
    pub open spec fn code_spec(self) -> Seq<char> {
        match self {
            EventError::EventNotFound => "event_not_found"@,
            EventError::EventSeatsExhausted { .. } => "event_seats_exhausted"@,
            EventError::EventSaleWindowClosed { .. } => "event_sale_window_closed"@,
            EventError::EventSlotRequired { .. } => "event_slot_required"@,
            EventError::EventSlotNotOfEvent { .. } => "event_slot_not_of_event"@,
            EventError::EventTicketNotOfEvent { .. } => "event_ticket_not_of_event"@,
            EventError::RegistrationNotFound => "registration_not_found"@,
            EventError::EventNotPublished => "event_not_published"@,
            EventError::EventCapabilitySecretNotConfigured => "event_capability_secret_not_configured"@,
            EventError::EventThrottled { .. } => "event_throttled"@,
            EventError::PublishRefused { .. } => "publish_refused"@,
            EventError::TemplateUnresolved => "template_unresolved"@,
            EventError::TemplateRendererNotComposed => "template_renderer_not_composed"@,
            EventError::RenderFailed(..) => "render_failed"@,
            EventError::EnqueueRefused(..) => "enqueue_refused"@,
            EventError::RecipientInvalid(..) => "recipient_invalid"@,
            EventError::DeskInvalidTicket => "desk_invalid_ticket"@,
            EventError::DeskCanceledRegistration => "desk_canceled_registration"@,
            EventError::DeskUnconfirmedRegistration => "desk_unconfirmed_registration"@,
            EventError::DeskNotOngoingEvent => "desk_not_ongoing_event"@,
            EventError::DeskNeedManualConfirmation => "desk_need_manual_confirmation"@,
            EventError::DeskAlreadyRegistered => "desk_already_registered"@,
            EventError::BoothNotFound { .. } => "booth_not_found"@,
            EventError::BoothBookingNotFound { .. } => "booth_booking_not_found"@,
            EventError::BoothAlreadyConfirmed { .. } => "booth_already_confirmed"@,
            EventError::BoothDeleteRefusedSaleLinked { .. } => "booth_delete_refused_sale_linked"@,
            EventError::BoothBookingLineCrossEvent { .. } => "booth_booking_line_cross_event"@,
            EventError::LeadRuleNotFound { .. } => "lead_rule_not_found"@,
            EventError::LeadRequestNotFound { .. } => "lead_request_not_found"@,
            EventError::LeadRequestBusy { .. } => "lead_request_busy"@,
            EventError::Validation(..) => "event_validation_failed"@,
            EventError::Database(..) => "event_database_error"@,
            EventError::Internal(..) => "event_internal_error"@,
        }
    }

    /// The HTTP status the refusal maps to.
    pub open spec fn status_spec(self) -> u16 {
        match self {
            EventError::EventNotFound => 404,
            EventError::EventSeatsExhausted { .. } => 422,
            EventError::EventSaleWindowClosed { .. } => 422,
            EventError::EventSlotRequired { .. } => 422,
            EventError::EventSlotNotOfEvent { .. } => 422,
            EventError::EventTicketNotOfEvent { .. } => 422,
            EventError::RegistrationNotFound => 404,
            EventError::EventNotPublished => 404,
            EventError::EventCapabilitySecretNotConfigured => 503,
            EventError::EventThrottled { .. } => 429,
            EventError::PublishRefused { .. } => 422,
            EventError::TemplateUnresolved => 409,
            EventError::TemplateRendererNotComposed => 409,
            EventError::RenderFailed(..) => 409,
            EventError::EnqueueRefused(..) => 409,
            EventError::RecipientInvalid(..) => 409,
            EventError::DeskInvalidTicket => 422,
            EventError::DeskCanceledRegistration => 422,
            EventError::DeskUnconfirmedRegistration => 422,
            EventError::DeskNotOngoingEvent => 422,
            EventError::DeskNeedManualConfirmation => 422,
            EventError::DeskAlreadyRegistered => 422,
            EventError::BoothNotFound { .. } => 404,
            EventError::BoothBookingNotFound { .. } => 404,
            EventError::BoothAlreadyConfirmed { .. } => 409,
            EventError::BoothDeleteRefusedSaleLinked { .. } => 422,
            EventError::BoothBookingLineCrossEvent { .. } => 422,
            EventError::LeadRuleNotFound { .. } => 404,
            EventError::LeadRequestNotFound { .. } => 404,
            EventError::LeadRequestBusy { .. } => 409,
            EventError::Validation(..) => 422,
            EventError::Database(..) => 500,
            EventError::Internal(..) => 500,
        }
    }

    /// The human-readable message (what `Display` writes).
    pub open spec fn message_spec(self) -> Seq<char> {
        match self {
            EventError::EventNotFound => "event not found"@,
            EventError::EventSeatsExhausted { .. } => "event seats exhausted"@,
            EventError::EventSaleWindowClosed { .. } => "event sale window closed"@,
            EventError::EventSlotRequired { .. } => "event slot required"@,
            EventError::EventSlotNotOfEvent { .. } => "event slot not of event"@,
            EventError::EventTicketNotOfEvent { .. } => "event ticket not of event"@,
            EventError::RegistrationNotFound => "registration not found"@,
            EventError::EventNotPublished => "event not published"@,
            EventError::EventCapabilitySecretNotConfigured => "event capability secret not configured"@,
            EventError::EventThrottled { .. } => "event throttled"@,
            EventError::PublishRefused { fields } => "publish refused: "@ + fields@,
            EventError::TemplateUnresolved => "template unresolved"@,
            EventError::TemplateRendererNotComposed => "template renderer not composed"@,
            EventError::RenderFailed(d) => "render failed: "@ + d@,
            EventError::EnqueueRefused(d) => "enqueue refused: "@ + d@,
            EventError::RecipientInvalid(d) => "recipient invalid: "@ + d@,
            EventError::DeskInvalidTicket => "desk invalid ticket"@,
            EventError::DeskCanceledRegistration => "desk canceled registration"@,
            EventError::DeskUnconfirmedRegistration => "desk unconfirmed registration"@,
            EventError::DeskNotOngoingEvent => "desk not ongoing event"@,
            EventError::DeskNeedManualConfirmation => "desk need manual confirmation"@,
            EventError::DeskAlreadyRegistered => "desk already registered"@,
            EventError::BoothNotFound { .. } => "booth not found"@,
            EventError::BoothBookingNotFound { .. } => "booth booking not found"@,
            EventError::BoothAlreadyConfirmed { .. } => "booth already confirmed"@,
            EventError::BoothDeleteRefusedSaleLinked { .. } => "booth delete refused sale linked"@,
            EventError::BoothBookingLineCrossEvent { .. } => "booth booking line cross event"@,
            EventError::LeadRuleNotFound { .. } => "lead rule not found"@,
            EventError::LeadRequestNotFound { .. } => "lead request not found"@,
            EventError::LeadRequestBusy { .. } => "lead request busy"@,
            EventError::Validation(d) => "validation: "@ + d@,
            EventError::Database(d) => "database: "@ + d@,
            EventError::Internal(d) => "internal: "@ + d@,
        }
    }

    /// The stable wire code (the string clients match on).
    pub fn code(&self) -> (r: &'static str)
        ensures
            r@ == self.code_spec(),
    {
        match self {
            EventError::EventNotFound => "event_not_found",
            EventError::EventSeatsExhausted { .. } => "event_seats_exhausted",
            EventError::EventSaleWindowClosed { .. } => "event_sale_window_closed",
            EventError::EventSlotRequired { .. } => "event_slot_required",
            EventError::EventSlotNotOfEvent { .. } => "event_slot_not_of_event",
            EventError::EventTicketNotOfEvent { .. } => "event_ticket_not_of_event",
            EventError::RegistrationNotFound => "registration_not_found",
            EventError::EventNotPublished => "event_not_published",
            EventError::EventCapabilitySecretNotConfigured => "event_capability_secret_not_configured",
            EventError::EventThrottled { .. } => "event_throttled",
            EventError::PublishRefused { .. } => "publish_refused",
            EventError::TemplateUnresolved => "template_unresolved",
            EventError::TemplateRendererNotComposed => "template_renderer_not_composed",
            EventError::RenderFailed(..) => "render_failed",
            EventError::EnqueueRefused(..) => "enqueue_refused",
            EventError::RecipientInvalid(..) => "recipient_invalid",
            EventError::DeskInvalidTicket => "desk_invalid_ticket",
            EventError::DeskCanceledRegistration => "desk_canceled_registration",
            EventError::DeskUnconfirmedRegistration => "desk_unconfirmed_registration",
            EventError::DeskNotOngoingEvent => "desk_not_ongoing_event",
            EventError::DeskNeedManualConfirmation => "desk_need_manual_confirmation",
            EventError::DeskAlreadyRegistered => "desk_already_registered",
            EventError::BoothNotFound { .. } => "booth_not_found",
            EventError::BoothBookingNotFound { .. } => "booth_booking_not_found",
            EventError::BoothAlreadyConfirmed { .. } => "booth_already_confirmed",
            EventError::BoothDeleteRefusedSaleLinked { .. } => "booth_delete_refused_sale_linked",
            EventError::BoothBookingLineCrossEvent { .. } => "booth_booking_line_cross_event",
            EventError::LeadRuleNotFound { .. } => "lead_rule_not_found",
            EventError::LeadRequestNotFound { .. } => "lead_request_not_found",
            EventError::LeadRequestBusy { .. } => "lead_request_busy",
            EventError::Validation(..) => "event_validation_failed",
            EventError::Database(..) => "event_database_error",
            EventError::Internal(..) => "event_internal_error",
        }
    }

    /// The HTTP status code of the refusal.
    pub fn status(&self) -> (r: u16)
        ensures
            r == self.status_spec(),
    {
        match self {
            EventError::EventNotFound => 404,
            EventError::EventSeatsExhausted { .. } => 422,
            EventError::EventSaleWindowClosed { .. } => 422,
            EventError::EventSlotRequired { .. } => 422,
            EventError::EventSlotNotOfEvent { .. } => 422,
            EventError::EventTicketNotOfEvent { .. } => 422,
            EventError::RegistrationNotFound => 404,
            EventError::EventNotPublished => 404,
            EventError::EventCapabilitySecretNotConfigured => 503,
            EventError::EventThrottled { .. } => 429,
            EventError::PublishRefused { .. } => 422,
            EventError::TemplateUnresolved => 409,
            EventError::TemplateRendererNotComposed => 409,
            EventError::RenderFailed(..) => 409,
            EventError::EnqueueRefused(..) => 409,
            EventError::RecipientInvalid(..) => 409,
            EventError::DeskInvalidTicket => 422,
            EventError::DeskCanceledRegistration => 422,
            EventError::DeskUnconfirmedRegistration => 422,
            EventError::DeskNotOngoingEvent => 422,
            EventError::DeskNeedManualConfirmation => 422,
            EventError::DeskAlreadyRegistered => 422,
            EventError::BoothNotFound { .. } => 404,
            EventError::BoothBookingNotFound { .. } => 404,
            EventError::BoothAlreadyConfirmed { .. } => 409,
            EventError::BoothDeleteRefusedSaleLinked { .. } => 422,
            EventError::BoothBookingLineCrossEvent { .. } => 422,
            EventError::LeadRuleNotFound { .. } => 404,
            EventError::LeadRequestNotFound { .. } => 404,
            EventError::LeadRequestBusy { .. } => 409,
            EventError::Validation(..) => 422,
            EventError::Database(..) => 500,
            EventError::Internal(..) => 500,
        }
    }

    /// The human-readable message.
    pub fn message(&self) -> (r: String)
        ensures
            r@ == self.message_spec(),
    {
        let mut out: Vec<char> = Vec::new();
        match self {
            EventError::EventNotFound => {
                extend_str(&mut out, "event not found");
            },
            EventError::EventSeatsExhausted { .. } => {
                extend_str(&mut out, "event seats exhausted");
            },
            EventError::EventSaleWindowClosed { .. } => {
                extend_str(&mut out, "event sale window closed");
            },
            EventError::EventSlotRequired { .. } => {
                extend_str(&mut out, "event slot required");
            },
            EventError::EventSlotNotOfEvent { .. } => {
                extend_str(&mut out, "event slot not of event");
            },
            EventError::EventTicketNotOfEvent { .. } => {
                extend_str(&mut out, "event ticket not of event");
            },
            EventError::RegistrationNotFound => {
                extend_str(&mut out, "registration not found");
            },
            EventError::EventNotPublished => {
                extend_str(&mut out, "event not published");
            },
            EventError::EventCapabilitySecretNotConfigured => {
                extend_str(&mut out, "event capability secret not configured");
            },
            EventError::EventThrottled { .. } => {
                extend_str(&mut out, "event throttled");
            },
            EventError::PublishRefused { fields } => {
                extend_str(&mut out, "publish refused: ");
                extend_str(&mut out, fields.as_str());
            },
            EventError::TemplateUnresolved => {
                extend_str(&mut out, "template unresolved");
            },
            EventError::TemplateRendererNotComposed => {
                extend_str(&mut out, "template renderer not composed");
            },
            EventError::RenderFailed(d) => {
                extend_str(&mut out, "render failed: ");
                extend_str(&mut out, d.as_str());
            },
            EventError::EnqueueRefused(d) => {
                extend_str(&mut out, "enqueue refused: ");
                extend_str(&mut out, d.as_str());
            },
            EventError::RecipientInvalid(d) => {
                extend_str(&mut out, "recipient invalid: ");
                extend_str(&mut out, d.as_str());
            },
            EventError::DeskInvalidTicket => {
                extend_str(&mut out, "desk invalid ticket");
            },
            EventError::DeskCanceledRegistration => {
                extend_str(&mut out, "desk canceled registration");
            },
            EventError::DeskUnconfirmedRegistration => {
                extend_str(&mut out, "desk unconfirmed registration");
            },
            EventError::DeskNotOngoingEvent => {
                extend_str(&mut out, "desk not ongoing event");
            },
            EventError::DeskNeedManualConfirmation => {
                extend_str(&mut out, "desk need manual confirmation");
            },
            EventError::DeskAlreadyRegistered => {
                extend_str(&mut out, "desk already registered");
            },
            EventError::BoothNotFound { .. } => {
                extend_str(&mut out, "booth not found");
            },
            EventError::BoothBookingNotFound { .. } => {
                extend_str(&mut out, "booth booking not found");
            },
            EventError::BoothAlreadyConfirmed { .. } => {
                extend_str(&mut out, "booth already confirmed");
            },
            EventError::BoothDeleteRefusedSaleLinked { .. } => {
                extend_str(&mut out, "booth delete refused sale linked");
            },
            EventError::BoothBookingLineCrossEvent { .. } => {
                extend_str(&mut out, "booth booking line cross event");
            },
            EventError::LeadRuleNotFound { .. } => {
                extend_str(&mut out, "lead rule not found");
            },
            EventError::LeadRequestNotFound { .. } => {
                extend_str(&mut out, "lead request not found");
            },
            EventError::LeadRequestBusy { .. } => {
                extend_str(&mut out, "lead request busy");
            },
            EventError::Validation(d) => {
                extend_str(&mut out, "validation: ");
                extend_str(&mut out, d.as_str());
            },
            EventError::Database(d) => {
                extend_str(&mut out, "database: ");
                extend_str(&mut out, d.as_str());
            },
            EventError::Internal(d) => {
                extend_str(&mut out, "internal: ");
                extend_str(&mut out, d.as_str());
            },
        }
        string_of(&out)
    }
}

/// Result alias over [`EventError`].
pub type EventResult<T> = Result<T, EventError>;

/// The shared error of the registration state machine.
#[derive(Debug, Clone, PartialEq, Eq)]
pub enum StateMachineError {
    InvalidState(String),
    InvalidTransition(String),
    TransitionNotAllowed { transition: String, from: String },
    RoleNotAuthorized { role: String, transition: String },
    GuardFailed(String),
    FinalStateReached(String),
}

impl StateMachineError {
    /// The human-readable message (what `Display` writes).
    pub open spec fn message_spec(self) -> Seq<char> {
        match self {
            StateMachineError::InvalidState(s) => "Invalid state: "@ + s@,
            StateMachineError::InvalidTransition(s) => "Invalid transition: "@ + s@,
            StateMachineError::TransitionNotAllowed { transition, from } =>
                "Transition '"@ + transition@ + "' not allowed from state '"@ + from@ + "'"@,
            StateMachineError::RoleNotAuthorized { role, transition } =>
                "Role '"@ + role@ + "' not authorized for transition '"@ + transition@ + "'"@,
            StateMachineError::GuardFailed(s) => "Guard condition failed for transition '"@ + s@ + "'"@,
            StateMachineError::FinalStateReached(s) => "Cannot transition from final state '"@ + s@ + "'"@,
        }
    }

    /// The human-readable message.
    pub fn message(&self) -> (r: String)
        ensures
            r@ == self.message_spec(),
    {
        let mut out: Vec<char> = Vec::new();
        match self {
            StateMachineError::InvalidState(s) => {
                extend_str(&mut out, "Invalid state: ");
                extend_str(&mut out, s.as_str());
            },
            StateMachineError::InvalidTransition(s) => {
                extend_str(&mut out, "Invalid transition: ");
                extend_str(&mut out, s.as_str());
            },
            StateMachineError::TransitionNotAllowed { transition, from } => {
                extend_str(&mut out, "Transition '");
                extend_str(&mut out, transition.as_str());
                extend_str(&mut out, "' not allowed from state '");
                extend_str(&mut out, from.as_str());
                extend_str(&mut out, "'");
            },
            StateMachineError::RoleNotAuthorized { role, transition } => {
                extend_str(&mut out, "Role '");
                extend_str(&mut out, role.as_str());
                extend_str(&mut out, "' not authorized for transition '");
                extend_str(&mut out, transition.as_str());
                extend_str(&mut out, "'");
            },
            StateMachineError::GuardFailed(s) => {
                extend_str(&mut out, "Guard condition failed for transition '");
                extend_str(&mut out, s.as_str());
                extend_str(&mut out, "'");
            },
            StateMachineError::FinalStateReached(s) => {
                extend_str(&mut out, "Cannot transition from final state '");
                extend_str(&mut out, s.as_str());
                extend_str(&mut out, "'");
            },
        }
        string_of(&out)
    }
}

} // verus!
