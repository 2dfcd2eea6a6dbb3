use event_bridge::bridge::{
    handle_notification, status_code, NotifyAction, NotifyReport, SubscriptionRequest,
};
use event_bridge::consumer::{consumer_step, ConsumerAction};
use event_bridge::render::NativeRender;
use tokio::sync::mpsc::unbounded_channel;

fn units_of(s: &str) -> Vec<u16> {
    s.encode_utf16().collect()
}

#[test]
fn notifications_arrive_in_fifo_order() {
    let (sender, mut receiver) = unbounded_channel::<String>();
    let n: usize = 50;
    for i in 0..n {
        let text = format!("event-{}", i);
        let u = units_of(&text);
        let report = handle_notification(NotifyAction::Deliver, NativeRender::Wrote(u.len()), &u, &sender);
        assert_eq!(report, NotifyReport::Forwarded);
    }
    for i in 0..n {
        let got = receiver.try_recv().expect("an event must be queued");
        assert_eq!(got, format!("event-{}", i));
    }
    assert!(receiver.try_recv().is_err());
}

#[test]
fn error_action_never_renders_or_pushes() {
    let (sender, mut receiver) = unbounded_channel::<String>();
    let u = units_of("must not appear");
    let report = handle_notification(
        NotifyAction::SubsystemError,
        NativeRender::Wrote(u.len()),
        &u,
        &sender,
    );
    assert_eq!(report, NotifyReport::RejectedAction);
    assert_eq!(status_code(report), 1);
    assert!(receiver.try_recv().is_err());
}

#[test]
fn render_failure_drops_only_that_event() {
    let (sender, mut receiver) = unbounded_channel::<String>();
    let first = units_of("first");
    handle_notification(NotifyAction::Deliver, NativeRender::Wrote(first.len()), &first, &sender);
    let bad = units_of("bad");
    let report = handle_notification(NotifyAction::Deliver, NativeRender::Failed(13), &bad, &sender);
    assert_eq!(report, NotifyReport::DroppedRenderFailure(13));
    assert_eq!(status_code(report), 0);
    let third = units_of("third");
    handle_notification(NotifyAction::Deliver, NativeRender::Wrote(third.len()), &third, &sender);
    assert_eq!(receiver.try_recv().unwrap(), "first");
    assert_eq!(receiver.try_recv().unwrap(), "third");
    assert!(receiver.try_recv().is_err());
}

#[test]
fn truncated_record_is_forwarded_and_flagged() {
    let (sender, mut receiver) = unbounded_channel::<String>();
    let u = units_of("partial text");
    let report = handle_notification(
        NotifyAction::Deliver,
        NativeRender::Insufficient(1_000_000),
        &u,
        &sender,
    );
    assert_eq!(report, NotifyReport::ForwardedTruncated);
    assert_eq!(status_code(report), 0);
    assert_eq!(receiver.try_recv().unwrap(), "partial text");
}

#[test]
fn notify_returns_promptly_without_a_draining_consumer() {
    // The queue is unbounded: a consumer that never drains it must not
    // stop further notifications from completing at once.
    let (sender, receiver) = unbounded_channel::<String>();
    for i in 0..1000u32 {
        let text = format!("undrained-{}", i);
        let u = units_of(&text);
        let report = handle_notification(NotifyAction::Deliver, NativeRender::Wrote(u.len()), &u, &sender);
        assert_eq!(report, NotifyReport::Forwarded);
    }
    drop(receiver);
}

#[test]
fn closed_queue_is_reported_to_the_subsystem() {
    let (sender, receiver) = unbounded_channel::<String>();
    drop(receiver);
    let u = units_of("late event");
    let report = handle_notification(NotifyAction::Deliver, NativeRender::Wrote(u.len()), &u, &sender);
    assert_eq!(report, NotifyReport::QueueClosed);
    assert_eq!(status_code(report), 1);
}

#[test]
fn closed_send_side_ends_the_stream() {
    let (sender, mut receiver) = unbounded_channel::<String>();
    let u = units_of("last");
    handle_notification(NotifyAction::Deliver, NativeRender::Wrote(u.len()), &u, &sender);
    drop(sender);
    assert_eq!(receiver.blocking_recv(), Some("last".to_string()));
    // With the send side gone and the queue drained, receive reports
    // end-of-stream instead of hanging.
    assert_eq!(receiver.blocking_recv(), None);
    assert!(matches!(consumer_step(None), ConsumerAction::Stop));
}

#[test]
fn consumer_step_emits_items_unchanged() {
    match consumer_step(Some("line".to_string())) {
        ConsumerAction::Emit(s) => assert_eq!(s, "line"),
        ConsumerAction::Stop => panic!("an item must be emitted"),
    }
}

#[test]
fn status_code_of_each_report() {
    assert_eq!(status_code(NotifyReport::RejectedAction), 1);
    assert_eq!(status_code(NotifyReport::QueueClosed), 1);
    assert_eq!(status_code(NotifyReport::Forwarded), 0);
    assert_eq!(status_code(NotifyReport::ForwardedTruncated), 0);
    assert_eq!(status_code(NotifyReport::DroppedRenderFailure(9)), 0);
}

#[test]
fn subscription_request_defaults_to_future_events() {
    let r = SubscriptionRequest::new("Security".to_string(), "*".to_string());
    assert_eq!(r.channel, "Security");
    assert_eq!(r.query, "*");
    assert!(r.future_only);
    assert_eq!(r.origin_flag(), 1);
}

#[test]
fn security_scenario_three_ids_in_order() {
    let request = SubscriptionRequest::new(
        "Security".to_string(),
        "Event/System[EventID=4624 or EventID=4634 or EventID=1102]".to_string(),
    );
    assert_eq!(request.channel, "Security");
    let (sender, mut receiver) = unbounded_channel::<String>();
    let ids: [u32; 3] = [4624, 4634, 1102];
    for id in ids {
        let text = format!("<Event><System><EventID>{}</EventID></System></Event>", id);
        let u = units_of(&text);
        let report = handle_notification(NotifyAction::Deliver, NativeRender::Wrote(u.len()), &u, &sender);
        assert_eq!(status_code(report), 0);
    }
    for id in ids {
        let got = receiver.try_recv().expect("each event must come through");
        assert!(got.contains(&format!("<EventID>{}</EventID>", id)));
    }
    assert!(receiver.try_recv().is_err());
}
