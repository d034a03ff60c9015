//! The self-arming scheduler pass's decisions, and the host ports' refusing
//! defaults.
//!
//! Per scheduler row, in order: the template validity sweep; the lazy
//! receipt materialization; the receipt walk (window check, render, channel
//! branch, enqueue, idempotent flip); the receipt-truth completion; the
//! overflow re-arm. The store reads and the port calls run in the caller;
//! every decision between them is a function here.

use vstd::prelude::*;
use crate::error::EventError;
use crate::rows::DueReceipt;
use crate::text::{chars_of, string_of, same_text, trim_chars, trim_spec, contains_char};

verus! {

/// Receipts processed per scheduler per pass (default).
pub const DEFAULT_MAIL_BATCH: i64 = 50;

/// Scheduler rows claimed per pass (default).
pub const DEFAULT_CRON_LIMIT: i64 = 1000;

/// The visible receipt outcome: queued.
pub const OUTCOME_QUEUED: &'static str = "queued";

/// The visible receipt outcome: dropped because the event window closed.
pub const OUTCOME_DROPPED_WINDOW_CLOSED: &'static str = "dropped_window_closed";

/// The batch and cron caps of a pass.
#[derive(Debug, Clone, Copy, PartialEq, Eq, Structural)]
pub struct SchedulerCaps {
    pub batch: i64,
    pub cron_limit: i64,
}

impl SchedulerCaps {
    /// The default caps.
    pub fn new() -> (r: Self)
        ensures
            r.batch == DEFAULT_MAIL_BATCH,
            r.cron_limit == DEFAULT_CRON_LIMIT,
    {
        SchedulerCaps { batch: DEFAULT_MAIL_BATCH, cron_limit: DEFAULT_CRON_LIMIT }
    }

    /// Overrides the caps (each at least 1).
    pub fn with_caps(self, batch: i64, cron_limit: i64) -> (r: Self)
        ensures
            r.batch == if batch >= 1 { batch } else { 1 },
            r.cron_limit == if cron_limit >= 1 { cron_limit } else { 1 },
    {
        SchedulerCaps { batch: if batch >= 1 { batch } else { 1 }, cron_limit: if cron_limit >= 1 { cron_limit } else { 1 } }
    }
}

/// One pass's summary.
#[derive(Debug, Clone, Copy, PartialEq, Eq, Structural)]
pub struct SchedulerRunSummary {
    pub schedulers_claimed: i64,
    pub receipts_materialized: i64,
    pub receipts_queued: i64,
    pub sms_queued: i64,
    pub receipts_dropped_window_closed: i64,
    pub typed_failures_recorded: i64,
    pub cancellation_receipts_deleted: i64,
    pub schedulers_rearmed: i64,
    pub schedulers_completed: i64,
}

/// One counted fact of a pass.
#[derive(Debug, Clone, Copy, PartialEq, Eq, Structural)]
pub enum Tally {
    ReceiptQueued,
    SmsQueued,
    ReceiptDropped,
    TypedFailure,
    Rearmed,
    Completed,
}

impl SchedulerRunSummary {
    /// All counters zero.
    pub fn new() -> (r: Self)
        ensures
            r == Self::zero(),
    {
        SchedulerRunSummary {
            schedulers_claimed: 0,
            receipts_materialized: 0,
            receipts_queued: 0,
            sms_queued: 0,
            receipts_dropped_window_closed: 0,
            typed_failures_recorded: 0,
            cancellation_receipts_deleted: 0,
            schedulers_rearmed: 0,
            schedulers_completed: 0,
        }
    }

    /// The zero summary.
    pub open spec fn zero() -> Self {
        SchedulerRunSummary {
            schedulers_claimed: 0,
            receipts_materialized: 0,
            receipts_queued: 0,
            sms_queued: 0,
            receipts_dropped_window_closed: 0,
            typed_failures_recorded: 0,
            cancellation_receipts_deleted: 0,
            schedulers_rearmed: 0,
            schedulers_completed: 0,
        }
    }

    /// The counter a fact increments.
    pub open spec fn counter(self, t: Tally) -> i64 {
        match t {
            Tally::ReceiptQueued => self.receipts_queued,
            Tally::SmsQueued => self.sms_queued,
            Tally::ReceiptDropped => self.receipts_dropped_window_closed,
            Tally::TypedFailure => self.typed_failures_recorded,
            Tally::Rearmed => self.schedulers_rearmed,
            Tally::Completed => self.schedulers_completed,
        }
    }

    /// Counts one fact: its counter goes up by one, every other stays.
    pub fn tally(&mut self, t: Tally)
        requires
            old(self).counter(t) < i64::MAX,
        ensures
            final(self).counter(t) == old(self).counter(t) + 1,
            forall|u: Tally| u != t ==> final(self).counter(u) == old(self).counter(u),
            final(self).schedulers_claimed == old(self).schedulers_claimed,
            final(self).receipts_materialized == old(self).receipts_materialized,
            final(self).cancellation_receipts_deleted == old(self).cancellation_receipts_deleted,
    {
        match t {
            Tally::ReceiptQueued => self.receipts_queued = self.receipts_queued + 1,
            Tally::SmsQueued => self.sms_queued = self.sms_queued + 1,
            Tally::ReceiptDropped => self.receipts_dropped_window_closed = self.receipts_dropped_window_closed + 1,
            Tally::TypedFailure => self.typed_failures_recorded = self.typed_failures_recorded + 1,
            Tally::Rearmed => self.schedulers_rearmed = self.schedulers_rearmed + 1,
            Tally::Completed => self.schedulers_completed = self.schedulers_completed + 1,
        }
    }
}

/// The rendered outbound mail body.
#[derive(Debug, Clone)]
pub struct RenderedMail {
    pub subject: String,
    pub body_html: String,
    pub body_text: String,
}

/// The rendered outbound sms body (the text arm of a rendered mail).
#[derive(Debug, Clone)]
pub struct RenderedSms {
    pub body_text: String,
}

/// What a scheduler render needs.
#[derive(Debug, Clone)]
pub struct RenderContext {
    pub event_id: u128,
    pub event_name: String,
    pub event_date_begin: i64,
    pub event_date_end: i64,
    pub event_date_tz: String,
    pub registration_id: u128,
    pub attendee_name: String,
    pub attendee_email: String,
    pub attendee_phone: Option<String>,
    pub registration_barcode: String,
}

/// Why a render refused.
#[derive(Debug, Clone)]
pub enum RenderFailure {
    /// The scheduler row carries no template ref.
    TemplateUnresolved,
    /// No host renderer was installed.
    RendererNotComposed,
    /// The renderer ran and failed.
    RenderFailed(String),
}

impl RenderFailure {
    /// The typed scheduler-failure error of a render refusal.
    pub fn into_error(self) -> (r: EventError)
        ensures
            r == match self {
                RenderFailure::TemplateUnresolved => EventError::TemplateUnresolved,
                RenderFailure::RendererNotComposed => EventError::TemplateRendererNotComposed,
                RenderFailure::RenderFailed(d) => EventError::RenderFailed(d),
            },
    {
        match self {
            RenderFailure::TemplateUnresolved => EventError::TemplateUnresolved,
            RenderFailure::RendererNotComposed => EventError::TemplateRendererNotComposed,
            RenderFailure::RenderFailed(d) => EventError::RenderFailed(d),
        }
    }

    /// The failure kind recorded on the scheduler row.
    pub fn kind(&self) -> (r: &'static str)
        ensures
            r@ == match self {
                RenderFailure::TemplateUnresolved => "template_unresolved"@,
                RenderFailure::RendererNotComposed => "template_renderer_not_composed"@,
                RenderFailure::RenderFailed(_) => "render_failed"@,
            },
    {
        match self {
            RenderFailure::TemplateUnresolved => "template_unresolved",
            RenderFailure::RendererNotComposed => "template_renderer_not_composed",
            RenderFailure::RenderFailed(_) => "render_failed",
        }
    }
}

/// The refusing template renderer: an unwired host is a typed failure.
#[derive(Debug, Clone, Copy)]
pub struct RefusingTemplateRenderer;

impl RefusingTemplateRenderer {
    /// Refuses every render: `TemplateUnresolved` without a template ref,
    /// else `RendererNotComposed`.
    pub fn render(&self, template_ref: Option<u128>, template_kind: Option<&str>, ctx: &RenderContext) -> (r: Result<RenderedMail, RenderFailure>)
        ensures
            r.is_err(),
            template_ref.is_none() ==> r->Err_0 is TemplateUnresolved,
            template_ref.is_some() ==> r->Err_0 is RendererNotComposed,
    {
        if template_ref.is_none() {
            return Err(RenderFailure::TemplateUnresolved);
        }
        Err(RenderFailure::RendererNotComposed)
    }
}

/// The refusing mail queue: every enqueue refuses (recorded, retried).
#[derive(Debug, Clone, Copy)]
pub struct RefusingMailQueue;

impl RefusingMailQueue {
    /// Refuses every enqueue with `EnqueueRefused`.
    pub fn enqueue(&self, recipient: &str, mail: &RenderedMail) -> (r: Result<(), EventError>)
        ensures
            r.is_err(),
            r->Err_0 is EnqueueRefused,
            r->Err_0->EnqueueRefused_0@ == "no host mail queue composed for the event module"@,
    {
        Err(EventError::EnqueueRefused(string_of(&chars_of("no host mail queue composed for the event module"))))
    }
}

/// The refusing sms queue: an unconfigured gateway refuses every enqueue.
#[derive(Debug, Clone, Copy)]
pub struct RefusingSmsQueue;

impl RefusingSmsQueue {
    /// Refuses every enqueue with a reason.
    pub fn enqueue(&self, phone: &str, sms: &RenderedSms) -> (r: Result<(), String>)
        ensures
            r.is_err(),
            r->Err_0@ == "no host sms queue composed for the event module (gateway unconfigured)"@,
    {
        Err(string_of(&chars_of("no host sms queue composed for the event module (gateway unconfigured)")))
    }
}

/// Step 1, the template validity sweep: a row without a template ref is the
/// recorded `template_unresolved` (the pass continues with the next row).
pub fn template_sweep(template_ref: Option<u128>) -> (r: Option<&'static str>)
    ensures
        template_ref.is_none() ==> r.is_some() && r->0@ == "template_unresolved"@,
        template_ref.is_some() ==> r.is_none(),
{
    if template_ref.is_none() { Some("template_unresolved") } else { None }
}

/// The window check: a receipt of an event whose end is not after `now` is
/// dropped (terminal, visible outcome).
pub open spec fn window_closed_spec(event_date_end: i64, now: i64) -> bool {
    event_date_end <= now
}

/// Whether a receipt is dropped because the event window closed.
pub fn window_closed(event_date_end: i64, now: i64) -> (r: bool)
    ensures
        r == window_closed_spec(event_date_end, now),
{
    event_date_end <= now
}

/// The delivery a rendered receipt goes to.
#[derive(Debug, Clone)]
pub enum Delivery {
    /// Record a typed failure on the scheduler row and continue.
    RecordFailure(&'static str),
    /// Enqueue through the sms port to this phone.
    Sms { phone: String, sms: RenderedSms },
    /// Enqueue through the mail port to this address.
    Mail { recipient: String, mail: RenderedMail },
}

/// What a delivery decides, as values: the failure kind recorded, or the
/// sms phone and body, or the mail recipient and mail.
pub ghost enum DeliveryView {
    RecordFailure(Seq<char>),
    Sms(Seq<char>, Seq<char>),
    Mail(Seq<char>, RenderedMail),
}

/// The view of a delivery.
pub open spec fn delivery_view(d: Delivery) -> DeliveryView {
    match d {
        Delivery::RecordFailure(k) => DeliveryView::RecordFailure(k@),
        Delivery::Sms { phone, sms } => DeliveryView::Sms(phone@, sms.body_text@),
        Delivery::Mail { recipient, mail } => DeliveryView::Mail(recipient@, mail),
    }
}

/// The channel branch after the render: a render refusal records its kind;
/// an `sms` row needs a non-blank phone (trimmed) and sends the body text;
/// a mail row needs an address holding `@`.
pub open spec fn delivery_spec(channel: Seq<char>, rendered: Result<RenderedMail, RenderFailure>, receipt: DueReceipt) -> DeliveryView {
    match rendered {
        Err(f) => DeliveryView::RecordFailure(match f {
            RenderFailure::TemplateUnresolved => "template_unresolved"@,
            RenderFailure::RendererNotComposed => "template_renderer_not_composed"@,
            RenderFailure::RenderFailed(_) => "render_failed"@,
        }),
        Ok(mail) => if channel == "sms"@ {
            let phone = match receipt.attendee_phone { Some(p) => trim_spec(p@), None => Seq::empty() };
            if phone.len() == 0 {
                DeliveryView::RecordFailure("recipient_invalid"@)
            } else {
                DeliveryView::Sms(phone, mail.body_text@)
            }
        } else if receipt.attendee_email@.len() == 0 || !receipt.attendee_email@.contains('@') {
            DeliveryView::RecordFailure("recipient_invalid"@)
        } else {
            DeliveryView::Mail(receipt.attendee_email@, mail)
        },
    }
}

/// The channel branch: an `sms` row never hands a receipt to the mail queue
/// and any other row never to the sms queue; a failed render reaches no
/// queue; a mail goes only to an address with an `@`, an sms only to a
/// phone that is not blank.
pub proof fn lemma_channel_branch(channel: Seq<char>, rendered: Result<RenderedMail, RenderFailure>, receipt: DueReceipt)
    ensures
        channel == "sms"@ ==> !(delivery_spec(channel, rendered, receipt) is Mail),
        channel != "sms"@ ==> !(delivery_spec(channel, rendered, receipt) is Sms),
        rendered.is_err() ==> delivery_spec(channel, rendered, receipt) is RecordFailure,
        delivery_spec(channel, rendered, receipt) matches DeliveryView::Mail(to, _) ==> to.contains('@'),
        delivery_spec(channel, rendered, receipt) matches DeliveryView::Sms(phone, _) ==> phone.len() > 0,
{
}

/// A delivery carries what was rendered, unchanged, to the receipt's own
/// address: a mail delivery is the rendered mail as it is (subject, HTML
/// and text bodies) to the registration's email; an sms delivery is the
/// rendered text body to the registration's phone, trimmed. On a mail row
/// with a rendered mail and an address holding an `@`, the delivery is a
/// mail.
pub proof fn lemma_delivery_carries_render(channel: Seq<char>, mail: RenderedMail, receipt: DueReceipt)
    ensures
        delivery_spec(channel, Ok(mail), receipt) is Mail ==> delivery_spec(channel, Ok(mail), receipt)
            == DeliveryView::Mail(receipt.attendee_email@, mail),
        delivery_spec(channel, Ok(mail), receipt) is Sms ==> receipt.attendee_phone is Some
            && delivery_spec(channel, Ok(mail), receipt) == DeliveryView::Sms(trim_spec(receipt.attendee_phone->0@), mail.body_text@),
        channel != "sms"@ && receipt.attendee_email@.contains('@') ==> delivery_spec(channel, Ok(mail), receipt)
            == DeliveryView::Mail(receipt.attendee_email@, mail),
{
}

/// The window check drops a receipt exactly when the event's end is not
/// after the instant of the pass (an end equal to `now` is closed).
pub proof fn lemma_window_closed_rule(event_date_end: i64, now: i64)
    ensures
        window_closed_spec(event_date_end, now) <==> event_date_end <= now,
        window_closed_spec(now, now),
        !window_closed_spec(event_date_end, now) ==> now < event_date_end,
{
}

/// The refusals of the channel branch: a failed render records its own kind
/// (`template_unresolved`, `template_renderer_not_composed`,
/// `render_failed`) whatever the channel and the receipt; an `sms` row
/// without a phone, or with a blank one, and a mail row whose address is
/// empty or lacks an `@`, record `recipient_invalid`; an `sms` row with a
/// phone that is not blank sends the rendered text body to the trimmed
/// phone.
pub proof fn lemma_delivery_refusals(channel: Seq<char>, rendered: Result<RenderedMail, RenderFailure>, receipt: DueReceipt)
    ensures
        rendered matches Err(RenderFailure::TemplateUnresolved) ==> delivery_spec(channel, rendered, receipt)
            == DeliveryView::RecordFailure("template_unresolved"@),
        rendered matches Err(RenderFailure::RendererNotComposed) ==> delivery_spec(channel, rendered, receipt)
            == DeliveryView::RecordFailure("template_renderer_not_composed"@),
        rendered matches Err(RenderFailure::RenderFailed(_)) ==> delivery_spec(channel, rendered, receipt)
            == DeliveryView::RecordFailure("render_failed"@),
        rendered is Ok && channel == "sms"@ && (receipt.attendee_phone is None || trim_spec(receipt.attendee_phone->0@).len() == 0)
            ==> delivery_spec(channel, rendered, receipt) == DeliveryView::RecordFailure("recipient_invalid"@),
        rendered is Ok && channel == "sms"@ && receipt.attendee_phone is Some && trim_spec(receipt.attendee_phone->0@).len() > 0
            ==> delivery_spec(channel, rendered, receipt) == DeliveryView::Sms(trim_spec(receipt.attendee_phone->0@), rendered->Ok_0.body_text@),
        rendered is Ok && channel != "sms"@ && !receipt.attendee_email@.contains('@')
            ==> delivery_spec(channel, rendered, receipt) == DeliveryView::RecordFailure("recipient_invalid"@),
{
}

/// Decides where a rendered receipt goes.
pub fn delivery(channel: &str, rendered: Result<RenderedMail, RenderFailure>, receipt: &DueReceipt) -> (r: Delivery)
    ensures
        delivery_view(r) == delivery_spec(channel@, rendered, *receipt),
{
    match rendered {
        Err(f) => Delivery::RecordFailure(f.kind()),
        Ok(mail) => {
            if same_text(channel, "sms") {
                let phone = match &receipt.attendee_phone {
                    Some(p) => trim_chars(&chars_of(p.as_str())),
                    None => Vec::new(),
                };
                if phone.len() == 0 {
                    return Delivery::RecordFailure("recipient_invalid");
                }
                return Delivery::Sms { phone: string_of(&phone), sms: RenderedSms { body_text: mail.body_text } };
            }
            let email = chars_of(receipt.attendee_email.as_str());
            if email.len() == 0 || !contains_char(&email, '@') {
                return Delivery::RecordFailure("recipient_invalid");
            }
            Delivery::Mail { recipient: receipt.attendee_email.clone(), mail }
        },
    }
}

/// The enqueue outcome: success marks the receipt queued (`'sent' =
/// queued`) and counts it on its channel; a refusal records
/// `sms_enqueue_refused` or `enqueue_refused` (retried next pass).
pub fn enqueue_outcome(sms: bool, ok: bool) -> (r: (Option<&'static str>, Tally))
    ensures
        ok && sms ==> r.0.is_none() && r.1 == Tally::SmsQueued,
        ok && !sms ==> r.0.is_none() && r.1 == Tally::ReceiptQueued,
        !ok && sms ==> r.0.is_some() && r.0->0@ == "sms_enqueue_refused"@ && r.1 == Tally::TypedFailure,
        !ok && !sms ==> r.0.is_some() && r.0->0@ == "enqueue_refused"@ && r.1 == Tally::TypedFailure,
{
    if ok {
        (None, if sms { Tally::SmsQueued } else { Tally::ReceiptQueued })
    } else {
        (Some(if sms { "sms_enqueue_refused" } else { "enqueue_refused" }), Tally::TypedFailure)
    }
}

/// The walk stops when a fetched batch came back short of the cap.
pub fn batch_drained(due_len: usize, batch: i64) -> (r: bool)
    ensures
        r == ((due_len as int) < batch),
{
    (due_len as i128) < (batch as i128)
}

/// The overflow re-arm: a row that is not done and still has work (receipts
/// to materialize or still due) re-arms.
pub fn should_rearm(done: bool, unmaterialized: i64, still_due: i64) -> (r: bool)
    ensures
        r == (!done && (unmaterialized > 0 || still_due > 0)),
{
    !done && (unmaterialized > 0 || still_due > 0)
}

/// The render context of a receipt of an event.
pub fn render_context(event_id: u128, event_name: &String, date_begin: i64, date_end: i64, date_tz: &String, receipt: &DueReceipt) -> (r: RenderContext)
    ensures
        r.event_id == event_id,
        r.event_name == *event_name,
        r.event_date_begin == date_begin,
        r.event_date_end == date_end,
        r.event_date_tz == *date_tz,
        r.registration_id == receipt.registration_id,
        r.attendee_name == receipt.attendee_name,
        r.attendee_email == receipt.attendee_email,
        r.attendee_phone == receipt.attendee_phone,
        r.registration_barcode == receipt.barcode,
{
    RenderContext {
        event_id,
        event_name: event_name.clone(),
        event_date_begin: date_begin,
        event_date_end: date_end,
        event_date_tz: date_tz.clone(),
        registration_id: receipt.registration_id,
        attendee_name: receipt.attendee_name.clone(),
        attendee_email: receipt.attendee_email.clone(),
        attendee_phone: receipt.attendee_phone.clone(),
        registration_barcode: receipt.barcode.clone(),
    }
}

} // verus!
