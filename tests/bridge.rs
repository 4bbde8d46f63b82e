use mailbox_bridge::dispatch::{
    dispatch_poll, prepare_dispatch, BridgeError, DispatchStep, DISPATCH_DEADLINE_MS,
};
use mailbox_bridge::listener::{
    inbound_file_name, InboundMessage, InboundObservation, Listener, ListenerStep,
    ListenerSubscription,
};
use mailbox_bridge::monitor::Monitor;
use mailbox_bridge::status::{SessionCache, SessionStatus};

fn status_json(status: &str, authenticated: bool, ready: bool) -> String {
    format!(
        "{{\"status\":\"{}\",\"timestamp\":\"2024-01-01T00:00:00Z\",\"isAuthenticated\":{},\"isClientReady\":{},\"isInitializing\":false}}",
        status, authenticated, ready
    )
}

fn fresh_cache() -> SessionCache {
    SessionCache::new(SessionStatus::initializing("t0".to_string()))
}

#[test]
fn cache_starts_initializing() {
    let cache = fresh_cache();
    let s = cache.get();
    assert_eq!(s.status, "initializing");
    assert_eq!(s.timestamp, "t0");
    assert!(!s.is_authenticated);
    assert!(!s.is_client_ready);
    assert!(s.is_initializing);
}

#[test]
fn monitor_status_write_reaches_cache_once() {
    let mut cache = fresh_cache();
    let mut monitor = Monitor::new();
    let text = status_json("ready", true, true);
    let first = monitor.poll(&mut cache, Some(text.clone()), None);
    let emitted = first.status_changed.expect("a status event");
    assert_eq!(emitted.status, "ready");
    assert!(emitted.is_authenticated && emitted.is_client_ready);
    let cached = cache.get();
    assert_eq!(cached.status, "ready");
    assert_eq!(cached.timestamp, "2024-01-01T00:00:00Z");
    assert!(cached.is_connected());
    let second = monitor.poll(&mut cache, Some(text), None);
    assert!(second.status_changed.is_none());
    assert!(second.qr_updated.is_none());
}

#[test]
fn monitor_emits_each_transition() {
    let mut cache = fresh_cache();
    let mut monitor = Monitor::new();
    let mut events = 0;
    for status in ["initializing", "initializing", "ready", "ready", "disconnected"] {
        let ev = monitor.poll(&mut cache, Some(status_json(status, false, false)), None);
        if ev.status_changed.is_some() {
            events += 1;
        }
    }
    assert_eq!(events, 3);
    assert_eq!(cache.get().status, "disconnected");
}

#[test]
fn monitor_ignores_bad_and_missing_status() {
    let mut cache = fresh_cache();
    let mut monitor = Monitor::new();
    let ev = monitor.poll(&mut cache, Some("{not json".to_string()), None);
    assert!(ev.status_changed.is_none());
    let ev = monitor.poll(&mut cache, Some("{\"status\":\"ready\"}".to_string()), None);
    assert!(ev.status_changed.is_none());
    let ev = monitor.poll(&mut cache, None, None);
    assert!(ev.status_changed.is_none());
    assert_eq!(cache.get().status, "initializing");
}

#[test]
fn monitor_qr_is_trimmed_and_deduplicated() {
    let mut cache = fresh_cache();
    let mut monitor = Monitor::new();
    let ev = monitor.poll(&mut cache, None, Some("  2@abc,def \n".to_string()));
    assert_eq!(ev.qr_updated.as_deref(), Some("2@abc,def"));
    let ev = monitor.poll(&mut cache, None, Some("2@abc,def".to_string()));
    assert!(ev.qr_updated.is_none());
    let ev = monitor.poll(&mut cache, None, Some("2@xyz".to_string()));
    assert_eq!(ev.qr_updated.as_deref(), Some("2@xyz"));
}

#[test]
fn status_parse_ignores_extra_members() {
    let text = "{\"status\":\"ready\",\"timestamp\":\"5\",\"isAuthenticated\":true,\"isClientReady\":false,\"isInitializing\":true,\"extra\":1}";
    let s = SessionStatus::parse(text).expect("parses");
    assert_eq!(s.status, "ready");
    assert_eq!(s.timestamp, "5");
    assert!(s.is_authenticated);
    assert!(!s.is_client_ready);
    assert!(s.is_initializing);
    assert!(SessionStatus::parse("{\"status\":1,\"timestamp\":\"5\",\"isAuthenticated\":true,\"isClientReady\":false,\"isInitializing\":true}").is_none());
}

#[test]
fn status_document_reads_back() {
    let s = SessionStatus::initializing("2024-05-05T10:00:00+00:00".to_string());
    let doc = s.to_document().expect("serializes");
    assert!(doc.contains('\n'));
    let back = SessionStatus::parse(&doc).expect("parses back");
    assert_eq!(back.status, "initializing");
    assert_eq!(back.timestamp, "2024-05-05T10:00:00+00:00");
    assert!(back.is_initializing && !back.is_authenticated && !back.is_client_ready);
}

#[test]
fn dispatch_refused_while_not_connected() {
    let session = SessionStatus::parse(&status_json("authenticated", true, false)).unwrap();
    let r = prepare_dispatch(&session, "+1 555 123", "hello");
    match r {
        Err(e) => {
            assert_eq!(e, BridgeError::NotConnected("authenticated".to_string()));
            assert_eq!(
                e.message(),
                "WhatsApp is not connected (status: authenticated). Please scan the QR code first."
            );
        }
        Ok(_) => panic!("dispatch must be refused"),
    }
    let initial = SessionStatus::initializing("t".to_string());
    assert!(prepare_dispatch(&initial, "1", "x").is_err());
}

#[test]
fn dispatch_normalizes_phone_number() {
    let session = SessionStatus::parse(&status_json("ready", true, true)).unwrap();
    let req = prepare_dispatch(&session, "+1 (555) 123-4567", "hi there").expect("connected");
    assert_eq!(req.phone_number, "15551234567");
    assert_eq!(req.message, "hi there");
    let doc = req.to_document().expect("serializes");
    let v: serde_json::Value = serde_json::from_str(&doc).unwrap();
    assert_eq!(v["phoneNumber"], "15551234567");
    assert_eq!(v["message"], "hi there");
    assert!(doc.contains("\n  "));
}

#[test]
fn dispatch_poll_outcomes() {
    assert_eq!(dispatch_poll(100, true, None), DispatchStep::Wait);
    assert_eq!(dispatch_poll(200, false, None), DispatchStep::Delivered);
    assert_eq!(dispatch_poll(200, false, None).outcome(), Some(Ok(())));
    let rejected = dispatch_poll(300, true, Some("number not on WhatsApp".to_string()));
    assert_eq!(rejected, DispatchStep::Rejected("number not on WhatsApp".to_string()));
    assert_eq!(
        rejected.outcome(),
        Some(Err(BridgeError::Service("number not on WhatsApp".to_string())))
    );
    assert_eq!(dispatch_poll(300, false, Some("boom".to_string())), DispatchStep::Rejected("boom".to_string()));
    assert_eq!(dispatch_poll(DISPATCH_DEADLINE_MS, true, None), DispatchStep::TimedOut);
    assert_eq!(dispatch_poll(DISPATCH_DEADLINE_MS + 100, false, None), DispatchStep::Delivered);
    assert_eq!(dispatch_poll(DISPATCH_DEADLINE_MS, false, None).outcome(), Some(Ok(())));
    assert_eq!(dispatch_poll(DISPATCH_DEADLINE_MS - 1, true, None), DispatchStep::Wait);
    assert_eq!(dispatch_poll(100, true, None).outcome(), None);
    let timeout = dispatch_poll(6000, true, None).outcome();
    assert_eq!(timeout, Some(Err(BridgeError::Timeout)));
    assert_eq!(BridgeError::Timeout.message(), "Timeout while sending message");
}

#[test]
fn error_messages() {
    assert_eq!(BridgeError::Configuration("no dir".to_string()).message(), "no dir");
    assert_eq!(BridgeError::Serialization("bad".to_string()).message(), "bad");
    assert_eq!(BridgeError::Io("denied".to_string()).message(), "denied");
    assert_eq!(BridgeError::Service("svc".to_string()).message(), "svc");
}

#[test]
fn listener_chat_example_delivers_once() {
    let sub = ListenerSubscription {
        id: "chat-1".to_string(),
        phone_numbers: vec!["15551234567".to_string()],
        command: "reply".to_string(),
    };
    let doc = sub.to_document().expect("serializes");
    let v: serde_json::Value = serde_json::from_str(&doc).unwrap();
    assert_eq!(v["id"], "chat-1");
    assert_eq!(v["phoneNumbers"][0], "15551234567");
    assert_eq!(v["command"], "reply");

    let mut listener = Listener::new(sub.id.clone(), 1_000);
    assert_eq!(listener.inbound_file_name(), "received_chat-1.json");
    let content = "{\"from\":\"15551234567\",\"to\":\"me\",\"fromMe\":false,\"content\":\"hi\",\"timestamp\":\"2024-01-01T00:00:00Z\"}";
    let step = listener.poll(
        2_000,
        Some(InboundObservation { modified: 1_500, content: Some(content.to_string()) }),
    );
    match step {
        ListenerStep::Deliver(m) => {
            assert_eq!(m.from, "15551234567");
            assert_eq!(m.to, "me");
            assert!(!m.from_me);
            assert_eq!(m.content, "hi");
            assert_eq!(m.timestamp, "2024-01-01T00:00:00Z");
        }
        _ => panic!("expected one delivery"),
    }
    // The host removed the file after delivery: nothing more is seen.
    assert!(matches!(listener.poll(2_500, None), ListenerStep::Idle));
}

#[test]
fn listener_same_modification_time_is_not_redelivered() {
    let mut listener = Listener::new("a".to_string(), 10);
    let content = "{\"from\":\"1\",\"to\":\"2\",\"fromMe\":true,\"content\":\"x\",\"timestamp\":\"t\"}";
    let obs = || Some(InboundObservation { modified: 20, content: Some(content.to_string()) });
    assert!(matches!(listener.poll(15, obs()), ListenerStep::Deliver(_)));
    assert!(matches!(listener.poll(30, obs()), ListenerStep::Idle));
    assert!(matches!(listener.poll(40, obs()), ListenerStep::Idle));
    let newer = Some(InboundObservation { modified: 41, content: Some(content.to_string()) });
    assert!(matches!(listener.poll(50, newer), ListenerStep::Deliver(_)));
}

#[test]
fn listener_ignores_files_older_than_registration() {
    let mut listener = Listener::new("a".to_string(), 100);
    let content = "{\"from\":\"1\",\"to\":\"2\",\"fromMe\":true,\"content\":\"x\",\"timestamp\":\"t\"}";
    let obs = Some(InboundObservation { modified: 100, content: Some(content.to_string()) });
    assert!(matches!(listener.poll(200, obs), ListenerStep::Idle));
}

#[test]
fn listener_skips_unreadable_message() {
    let mut listener = Listener::new("a".to_string(), 0);
    let bad = Some(InboundObservation { modified: 5, content: Some("{\"from\":\"1\"}".to_string()) });
    assert!(matches!(listener.poll(6, bad), ListenerStep::Skip));
    let unreadable = Some(InboundObservation { modified: 7, content: None });
    assert!(matches!(listener.poll(8, unreadable), ListenerStep::Skip));
}

#[test]
fn listeners_have_separate_files() {
    assert_eq!(inbound_file_name("A"), "received_A.json");
    assert_eq!(inbound_file_name("B"), "received_B.json");
    assert_ne!(inbound_file_name("A"), inbound_file_name("B"));
    let a = Listener::new("A".to_string(), 0);
    let b = Listener::new("B".to_string(), 0);
    assert_ne!(a.inbound_file_name(), b.inbound_file_name());
    assert_eq!(a.id(), "A");
}

#[test]
fn inbound_parse_requires_all_members() {
    let ok = "{\"from\":\"1\",\"to\":\"2\",\"fromMe\":true,\"content\":\"x\",\"timestamp\":\"t\"}";
    let m = InboundMessage::parse(ok).expect("parses");
    assert!(m.from_me);
    assert!(InboundMessage::parse("{\"from\":\"1\",\"to\":\"2\",\"fromMe\":\"yes\",\"content\":\"x\",\"timestamp\":\"t\"}").is_none());
    assert!(InboundMessage::parse("[]").is_none());
}

#[test]
fn monitor_qr_trims_unicode_white_space() {
    let mut cache = fresh_cache();
    let mut monitor = Monitor::new();
    let ev = monitor.poll(&mut cache, None, Some("\u{3000}\u{85}code\u{a0}\u{2029}\t".to_string()));
    assert_eq!(ev.qr_updated.as_deref(), Some("code"));
    let ev = monitor.poll(&mut cache, None, Some("\u{200b}code".to_string()));
    assert_eq!(ev.qr_updated.as_deref(), Some("\u{200b}code"));
}
