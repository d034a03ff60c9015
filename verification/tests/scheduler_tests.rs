use backbone_events::error::EventError;
use backbone_events::rows::DueReceipt;
use backbone_events::scheduler::{
    batch_drained, delivery, enqueue_outcome, render_context, should_rearm, template_sweep, window_closed, Delivery,
    RefusingMailQueue, RefusingSmsQueue, RefusingTemplateRenderer, RenderFailure, RenderedMail, RenderedSms,
    SchedulerCaps, SchedulerRunSummary, Tally, DEFAULT_CRON_LIMIT, DEFAULT_MAIL_BATCH, OUTCOME_DROPPED_WINDOW_CLOSED,
    OUTCOME_QUEUED,
};

fn receipt(email: &str, phone: Option<&str>) -> DueReceipt {
    DueReceipt {
        receipt_id: 1,
        registration_id: 2,
        attendee_name: "Ada".to_string(),
        attendee_email: email.to_string(),
        attendee_phone: phone.map(|p| p.to_string()),
        barcode: "77".to_string(),
        scheduled_date: None,
    }
}

fn mail() -> RenderedMail {
    RenderedMail { subject: "s".to_string(), body_html: "<p>h</p>".to_string(), body_text: "hello".to_string() }
}

#[test]
fn caps_and_constants() {
    let c = SchedulerCaps::new();
    assert_eq!((c.batch, c.cron_limit), (DEFAULT_MAIL_BATCH, DEFAULT_CRON_LIMIT));
    assert_eq!((DEFAULT_MAIL_BATCH, DEFAULT_CRON_LIMIT), (50, 1000));
    let c = c.with_caps(-1, 7);
    assert_eq!((c.batch, c.cron_limit), (1, 7));
    assert_eq!((OUTCOME_QUEUED, OUTCOME_DROPPED_WINDOW_CLOSED), ("queued", "dropped_window_closed"));
}

#[test]
fn summary_tallies() {
    let mut s = SchedulerRunSummary::new();
    s.tally(Tally::ReceiptQueued);
    s.tally(Tally::SmsQueued);
    s.tally(Tally::SmsQueued);
    s.tally(Tally::Completed);
    assert_eq!((s.receipts_queued, s.sms_queued, s.schedulers_completed, s.schedulers_rearmed), (1, 2, 1, 0));
}

#[test]
fn render_failures() {
    assert_eq!(RenderFailure::TemplateUnresolved.kind(), "template_unresolved");
    assert_eq!(RenderFailure::RenderFailed("x".to_string()).into_error(), EventError::RenderFailed("x".to_string()));
    assert_eq!(RenderFailure::RendererNotComposed.into_error(), EventError::TemplateRendererNotComposed);
    let ctx = render_context(1, &"E".to_string(), 0, 1, &"UTC".to_string(), &receipt("a@b.c", None));
    assert_eq!((ctx.registration_id, ctx.registration_barcode.as_str()), (2, "77"));
    assert!(matches!(RefusingTemplateRenderer.render(None, None, &ctx), Err(RenderFailure::TemplateUnresolved)));
    assert!(matches!(RefusingTemplateRenderer.render(Some(4), Some("mail"), &ctx), Err(RenderFailure::RendererNotComposed)));
    assert_eq!(
        RefusingMailQueue.enqueue("a@b.c", &mail()),
        Err(EventError::EnqueueRefused("no host mail queue composed for the event module".to_string()))
    );
    assert_eq!(
        RefusingSmsQueue.enqueue("+1", &RenderedSms { body_text: "x".to_string() }),
        Err("no host sms queue composed for the event module (gateway unconfigured)".to_string())
    );
}

#[test]
fn channel_branch() {
    assert!(matches!(delivery("mail", Err(RenderFailure::TemplateUnresolved), &receipt("a@b.c", None)), Delivery::RecordFailure("template_unresolved")));
    match delivery("sms", Ok(mail()), &receipt("a@b.c", Some("  +33 6  "))) {
        Delivery::Sms { phone, sms } => {
            assert_eq!(phone, "+33 6");
            assert_eq!(sms.body_text, "hello");
        },
        other => panic!("unexpected {other:?}"),
    }
    assert!(matches!(delivery("sms", Ok(mail()), &receipt("a@b.c", Some("   "))), Delivery::RecordFailure("recipient_invalid")));
    assert!(matches!(delivery("sms", Ok(mail()), &receipt("a@b.c", None)), Delivery::RecordFailure("recipient_invalid")));
    assert!(matches!(delivery("mail", Ok(mail()), &receipt("nobody", None)), Delivery::RecordFailure("recipient_invalid")));
    match delivery("mail", Ok(mail()), &receipt("a@b.c", None)) {
        Delivery::Mail { recipient, mail } => {
            assert_eq!(recipient, "a@b.c");
            assert_eq!(mail.subject, "s");
        },
        other => panic!("unexpected {other:?}"),
    }
}

#[test]
fn pass_decisions() {
    assert_eq!(template_sweep(None), Some("template_unresolved"));
    assert_eq!(template_sweep(Some(1)), None);
    assert!(window_closed(10, 10));
    assert!(!window_closed(11, 10));
    assert_eq!(enqueue_outcome(true, true), (None, Tally::SmsQueued));
    assert_eq!(enqueue_outcome(false, true), (None, Tally::ReceiptQueued));
    assert_eq!(enqueue_outcome(true, false), (Some("sms_enqueue_refused"), Tally::TypedFailure));
    assert_eq!(enqueue_outcome(false, false), (Some("enqueue_refused"), Tally::TypedFailure));
    assert!(batch_drained(3, 50));
    assert!(!batch_drained(50, 50));
    assert!(should_rearm(false, 1, 0));
    assert!(should_rearm(false, 0, 2));
    assert!(!should_rearm(true, 1, 1));
    assert!(!should_rearm(false, 0, 0));
}
