use admin_report::{
    compose_notification, escape_markup, handle_report, AdminChannel, DurabilityBarrier,
    EventRecord, EventStore, Notification, ReportError,
};

fn record(event_id: &str, room_id: &str, sender: &str) -> EventRecord {
    EventRecord {
        event_id: event_id.to_string(),
        room_id: room_id.to_string(),
        sender: sender.to_string(),
    }
}

fn store_with_evt1() -> EventStore {
    let mut store = EventStore::new();
    assert!(store.insert(record("evt1", "room1", "bob")));
    store
}

fn report(
    store: &EventStore,
    channel: &mut AdminChannel,
    barrier: &DurabilityBarrier,
    event_id: &str,
    score: i64,
    reason: &str,
) -> Result<admin_report::Ack, ReportError> {
    handle_report(
        &"alice".to_string(),
        &event_id.to_string(),
        score,
        &reason.to_string(),
        store,
        channel,
        barrier,
    )
}

#[test]
fn score_inclusive_boundaries_succeed() {
    let store = store_with_evt1();
    let mut channel = AdminChannel::with_capacity(10);
    let barrier = DurabilityBarrier::new(true);
    assert!(report(&store, &mut channel, &barrier, "evt1", 0, "spam").is_ok());
    assert!(report(&store, &mut channel, &barrier, "evt1", -100, "spam").is_ok());
    assert_eq!(channel.len(), 2);
}

#[test]
fn score_outside_range_fails() {
    let store = store_with_evt1();
    let mut channel = AdminChannel::with_capacity(10);
    let barrier = DurabilityBarrier::new(true);
    assert_eq!(
        report(&store, &mut channel, &barrier, "evt1", 1, "spam"),
        Err(ReportError::InvalidScore)
    );
    assert_eq!(
        report(&store, &mut channel, &barrier, "evt1", -101, "spam"),
        Err(ReportError::InvalidScore)
    );
    assert_eq!(channel.len(), 0);
}

#[test]
fn reason_of_250_scalars_succeeds() {
    let store = store_with_evt1();
    let mut channel = AdminChannel::with_capacity(10);
    let barrier = DurabilityBarrier::new(true);
    let reason = "e".repeat(250);
    assert!(report(&store, &mut channel, &barrier, "evt1", -1, &reason).is_ok());
}

#[test]
fn reason_of_251_scalars_fails() {
    let store = store_with_evt1();
    let mut channel = AdminChannel::with_capacity(10);
    let barrier = DurabilityBarrier::new(true);
    let reason = "e".repeat(251);
    assert_eq!(
        report(&store, &mut channel, &barrier, "evt1", -1, &reason),
        Err(ReportError::ReasonTooLong)
    );
    assert_eq!(channel.len(), 0);
}

#[test]
fn reason_scalars_counted_not_bytes() {
    let store = store_with_evt1();
    let mut channel = AdminChannel::with_capacity(10);
    let barrier = DurabilityBarrier::new(true);
    // 250 scalars of three UTF-8 bytes each: well over 250 bytes, still accepted.
    let reason = "\u{20AC}".repeat(250);
    assert!(report(&store, &mut channel, &barrier, "evt1", -1, &reason).is_ok());
}

#[test]
fn empty_reason_permitted() {
    let store = store_with_evt1();
    let mut channel = AdminChannel::with_capacity(10);
    let barrier = DurabilityBarrier::new(true);
    assert!(report(&store, &mut channel, &barrier, "evt1", -1, "").is_ok());
}

#[test]
fn unknown_event_fails_without_dispatch() {
    let store = store_with_evt1();
    let mut channel = AdminChannel::with_capacity(10);
    let barrier = DurabilityBarrier::new(true);
    assert_eq!(
        report(&store, &mut channel, &barrier, "evt2", -50, "spam"),
        Err(ReportError::InvalidReference)
    );
    assert_eq!(channel.len(), 0);
}

#[test]
fn unknown_event_checked_before_score() {
    let store = store_with_evt1();
    let mut channel = AdminChannel::with_capacity(10);
    let barrier = DurabilityBarrier::new(true);
    // Both the reference and the score are invalid: the reference wins.
    assert_eq!(
        report(&store, &mut channel, &barrier, "evt2", 7, "spam"),
        Err(ReportError::InvalidReference)
    );
}

#[test]
fn full_channel_rejects_dispatch() {
    let store = store_with_evt1();
    let mut channel = AdminChannel::with_capacity(0);
    let barrier = DurabilityBarrier::new(true);
    assert_eq!(
        report(&store, &mut channel, &barrier, "evt1", -50, "spam"),
        Err(ReportError::ChannelDispatchError)
    );
    assert_eq!(channel.len(), 0);
}

#[test]
fn durability_failure_not_acknowledged() {
    let store = store_with_evt1();
    let mut channel = AdminChannel::with_capacity(10);
    let barrier = DurabilityBarrier::new(false);
    assert_eq!(
        report(&store, &mut channel, &barrier, "evt1", -50, "spam"),
        Err(ReportError::DurabilityError)
    );
    // The notification was already handed over before confirmation failed.
    assert_eq!(channel.len(), 1);
}

#[test]
fn rich_form_escapes_markup_in_reason() {
    let store = store_with_evt1();
    let mut channel = AdminChannel::with_capacity(10);
    let barrier = DurabilityBarrier::new(true);
    assert!(report(&store, &mut channel, &barrier, "evt1", -50, "<script>\"x\"</script>").is_ok());
    let sent = channel.get(0);
    assert!(!sent.rich.contains("<script>"));
    assert!(sent.rich.contains("&lt;script&gt;&quot;x&quot;&lt;&#x2F;script&gt;"));
    assert!(sent.plain.contains("<script>\"x\"</script>"));
}

#[test]
fn end_to_end_example() {
    let store = store_with_evt1();
    let mut channel = AdminChannel::with_capacity(10);
    let barrier = DurabilityBarrier::new(true);
    let r = report(&store, &mut channel, &barrier, "evt1", -50, "spam");
    assert!(r.is_ok());
    assert_eq!(channel.len(), 1);
    let sent = channel.get(0);
    for field in ["alice", "evt1", "room1", "bob", "-50", "spam"] {
        assert!(sent.plain.contains(field));
        assert!(sent.rich.contains(field));
    }
    assert_eq!(
        sent.plain,
        "Report received from: alice\n\nEvent ID: evt1\nRoom ID: room1\nSent By: bob\n\n\
         Report Score: -50\nReport Reason: spam"
    );
    assert_eq!(
        sent.rich,
        "<details><summary>Report received from: <a href=\"https://matrix.to/#/alice\">alice\
         </a></summary><ul><li>Event Info<ul><li>Event ID: <code>evt1</code></li><li>Room ID: \
         <code>room1</code></li><li>Sent By: <a href=\"https://matrix.to/#/bob\">bob</a></li>\
         </ul></li><li>Report Info<ul><li>Report Score: -50</li><li>Report Reason: spam</li>\
         </ul></li></ul></details>"
    );
}

#[test]
fn score_rendering_exact() {
    let rec = record("evt1", "room1", "bob");
    let reporter = "alice".to_string();
    let reason = "r".to_string();
    for (score, text) in [(0, "0"), (-7, "-7"), (-42, "-42"), (-100, "-100")] {
        let n = compose_notification(&reporter, &rec, score, &reason);
        assert!(n.plain.ends_with(&format!("Report Score: {}\nReport Reason: r", text)));
        assert!(n.rich.contains(&format!("Report Score: {}</li>", text)));
    }
}

#[test]
fn escape_markup_entity_forms() {
    assert_eq!(escape_markup(&"&".to_string()), "&amp;");
    assert_eq!(escape_markup(&"<".to_string()), "&lt;");
    assert_eq!(escape_markup(&">".to_string()), "&gt;");
    assert_eq!(escape_markup(&"\"".to_string()), "&quot;");
    assert_eq!(escape_markup(&"'".to_string()), "&#x27;");
    assert_eq!(escape_markup(&"/".to_string()), "&#x2F;");
    assert_eq!(escape_markup(&"a<b>&c".to_string()), "a&lt;b&gt;&amp;c");
    assert_eq!(escape_markup(&"plain text".to_string()), "plain text");
    assert_eq!(escape_markup(&"".to_string()), "");
}

#[test]
fn store_refuses_duplicate_event_id() {
    let mut store = EventStore::new();
    assert!(store.insert(record("evt1", "room1", "bob")));
    assert!(!store.insert(record("evt1", "room2", "carol")));
    let found = store.lookup(&"evt1".to_string()).expect("evt1 is present");
    assert_eq!(found.room_id, "room1");
    assert_eq!(found.sender, "bob");
}

#[test]
fn store_lookup_resolves_by_id() {
    let mut store = EventStore::new();
    assert!(store.insert(record("evt1", "room1", "bob")));
    assert!(store.insert(record("evt2", "room2", "carol")));
    let found = store.lookup(&"evt2".to_string()).expect("evt2 is present");
    assert_eq!(found.event_id, "evt2");
    assert_eq!(found.room_id, "room2");
    assert_eq!(found.sender, "carol");
    assert!(store.lookup(&"evt3".to_string()).is_none());
}

#[test]
fn full_channel_returns_notification_to_sender() {
    let mut channel = AdminChannel::with_capacity(0);
    let n = Notification {
        plain: "p".to_string(),
        rich: "r".to_string(),
    };
    match channel.send(n) {
        Ok(()) => panic!("a full channel must refuse the handoff"),
        Err(back) => {
            assert_eq!(back.plain, "p");
            assert_eq!(back.rich, "r");
        }
    }
    assert_eq!(channel.len(), 0);
}
