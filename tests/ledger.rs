use clawtap::json::JsonValue;
use clawtap::ledger::{last_event_id, Ledger, LedgerError};
use clawtap::message::GatewayMessage;
use clawtap::size::format_bytes;
use clawtap::translate::{translate, EventKind, LedgerEvent, UNASSIGNED};

fn tick(t: &str) -> LedgerEvent {
    translate("daemon", GatewayMessage::Tick { timestamp: t.to_string() }, false)
}

fn member<'a>(v: &'a JsonValue, key: &str) -> Option<&'a JsonValue> {
    match v {
        JsonValue::Object(fs) => fs.iter().rev().find(|(k, _)| k == key).map(|(_, x)| x),
        _ => None,
    }
}

#[test]
fn total_counts_each_append_before_flush() {
    let mut l = Ledger::open(100, 0, 0);
    for i in 1..=25u64 {
        assert_eq!(l.append_event(tick("t")), Ok(i));
        assert_eq!(l.total_events(), i);
    }
    assert_eq!(l.pending_count(), 25);
    assert_eq!(l.storage_size_bytes(), 0);
}

#[test]
fn reopen_resumes_after_last_id() {
    let mut l = Ledger::open(100, 0, 0);
    for _ in 0..3 {
        l.append_event(tick("t")).unwrap();
    }
    let text = l.pending_text();
    l.flush_done(text.len() as u64);
    let lines: Vec<String> = text.lines().map(|s| s.to_string()).collect();
    assert_eq!(last_event_id(&lines), 3);
    let mut again = Ledger::open(100, last_event_id(&lines), text.len() as u64);
    assert_eq!(again.append_event(tick("u")), Ok(4));
    assert_eq!(again.total_events(), 4);
}

#[test]
fn last_event_id_skips_bad_lines() {
    let lines = vec![
        "{\"eventId\":7}".to_string(),
        "garbage".to_string(),
        "{\"eventId\":3}".to_string(),
        "{\"other\":99}".to_string(),
    ];
    assert_eq!(last_event_id(&lines), 7);
    assert_eq!(last_event_id(&Vec::new()), 0);
}

#[test]
fn batch_fills_after_batch_size_appends() {
    let mut l = Ledger::open(3, 0, 0);
    l.append_event(tick("a")).unwrap();
    l.append_event(tick("b")).unwrap();
    assert!(!l.batch_full());
    l.append_event(tick("c")).unwrap();
    assert!(l.batch_full());
    let before = l.storage_size_bytes();
    let text = l.pending_text();
    assert_eq!(text.lines().count(), 3);
    l.flush_done(text.len() as u64);
    assert!(l.storage_size_bytes() > before);
    assert_eq!(l.pending_count(), 0);
    assert_eq!(l.total_events(), 3);
}

#[test]
fn failed_flush_keeps_the_batch() {
    let mut l = Ledger::open(2, 0, 0);
    l.append_event(tick("a")).unwrap();
    l.append_event(tick("b")).unwrap();
    let first = l.pending_text();
    // the write failed: nothing is reported, the events stay
    assert_eq!(l.pending_text(), first);
    assert_eq!(l.pending_count(), 2);
}

#[test]
fn ids_exhausted_at_the_end() {
    let mut l = Ledger::open(2, u64::MAX, 0);
    assert_eq!(l.append_event(tick("a")), Err(LedgerError::IdsExhausted));
    assert_eq!(l.total_events(), u64::MAX);
}

#[test]
fn meta_last_write_wins() {
    let mut l = Ledger::open(2, 0, 0);
    l.set_meta("gateway_url", "ws://a");
    l.set_meta("daemon_started_at", "t0");
    l.set_meta("gateway_url", "ws://b");
    assert_eq!(l.get_meta("gateway_url"), Some("ws://b".to_string()));
    assert_eq!(l.get_meta("missing"), None);
    let text = l.meta_text();
    assert!(text.contains("\"gateway_url\":\"ws://b\""));
    assert!(!text.contains("ws://a"));
}

#[test]
fn translate_masks_tool_arguments() {
    let args = JsonValue::Object(vec![("secret".to_string(), JsonValue::Str("x".to_string()))]);
    let m = GatewayMessage::ToolCall {
        run_id: "r".to_string(),
        tool: "t".to_string(),
        args,
        span_id: "s".to_string(),
    };
    let e = translate("daemon", m, true);
    assert_eq!(e.event_id, UNASSIGNED);
    assert!(e.redacted);
    assert_eq!(e.kind, EventKind::Custom);
    let args = member(&e.payload, "args").unwrap();
    assert_eq!(member(args, "secret"), Some(&JsonValue::Str("[REDACTED]".to_string())));
}

#[test]
fn translate_keeps_arguments_without_redaction() {
    let args = JsonValue::Object(vec![("secret".to_string(), JsonValue::Str("x".to_string()))]);
    let m = GatewayMessage::ToolCall {
        run_id: "r".to_string(),
        tool: "t".to_string(),
        args,
        span_id: "s".to_string(),
    };
    let e = translate("daemon", m, false);
    assert!(!e.redacted);
    let args = member(&e.payload, "args").unwrap();
    assert_eq!(member(args, "secret"), Some(&JsonValue::Str("x".to_string())));
}

#[test]
fn translate_masks_output_content_and_maps_kinds() {
    let m = GatewayMessage::OutputChunk { run_id: "r".to_string(), content: "hello".to_string() };
    let e = translate("daemon", m, true);
    assert_eq!(e.kind, EventKind::OutputChunk);
    assert_eq!(member(&e.payload, "content"), Some(&JsonValue::Str("[REDACTED]".to_string())));
    let p = translate("daemon", GatewayMessage::Presence { timestamp: "p1".to_string() }, true);
    assert_eq!(p.kind, EventKind::Presence);
    assert_eq!(p.timestamp, "p1");
    let s = translate("daemon", GatewayMessage::Shutdown { reason: "bye".to_string() }, false);
    assert_eq!(s.kind, EventKind::Shutdown);
    assert_eq!(s.timestamp, "");
    assert_eq!(translate("daemon", GatewayMessage::Ping, false).kind, EventKind::Custom);
}

#[test]
fn format_bytes_units() {
    assert_eq!(format_bytes(0), "0 B");
    assert_eq!(format_bytes(1023), "1023 B");
    assert_eq!(format_bytes(1024), "1.0 KB");
    assert_eq!(format_bytes(1536), "1.5 KB");
    assert_eq!(format_bytes(1280), "1.2 KB");
    assert_eq!(format_bytes(1048576), "1.0 MB");
    assert_eq!(format_bytes(5 * 1048576 + 524288), "5.5 MB");
    assert_eq!(format_bytes(1073741824), "1.0 GB");
    assert_eq!(format_bytes(1048575), "1024.0 KB");
}
