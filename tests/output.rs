use logster::config::{first_resolved, resolve_region};
use logster::printer::{
    event_line, label_or_fallback, millis_to_seconds, render_events, stamped_line, timestamp_label,
    unstamped_line, LogEvent,
};

fn event(message: Option<&str>, timestamp: Option<i64>) -> LogEvent {
    LogEvent { message: message.map(|m| m.to_string()), timestamp }
}

#[test]
fn stamped_entry_and_entry_without_message() {
    let events = vec![event(Some("a"), Some(1_700_000_000_123)), event(None, Some(1_700_000_001_000))];
    let lines = render_events(&events, "NOW");
    assert_eq!(lines, vec!["[2023-11-14T22:13:20+00:00] a".to_string()]);
}

#[test]
fn entry_without_timestamp() {
    let lines = render_events(&vec![event(Some("b"), None)], "NOW");
    assert_eq!(lines, vec!["[No Timestamp] b".to_string()]);
}

#[test]
fn no_entries_no_lines() {
    assert!(render_events(&Vec::new(), "NOW").is_empty());
}

#[test]
fn order_is_kept() {
    let events = vec![event(Some("second"), Some(1000)), event(Some("first"), Some(0)), event(Some("x"), None)];
    let lines = render_events(&events, "NOW");
    assert_eq!(
        lines,
        vec![
            "[1970-01-01T00:00:01+00:00] second".to_string(),
            "[1970-01-01T00:00:00+00:00] first".to_string(),
            "[No Timestamp] x".to_string(),
        ]
    );
}

#[test]
fn out_of_range_timestamp_uses_fallback() {
    assert_eq!(timestamp_label(i64::MAX, "NOW"), "NOW");
    assert_eq!(event_line(&event(Some("m"), Some(i64::MIN)), "NOW"), Some("[NOW] m".to_string()));
}

#[test]
fn timestamp_label_formats_whole_seconds() {
    assert_eq!(timestamp_label(1_700_000_000_999, "NOW"), "2023-11-14T22:13:20+00:00");
    assert_eq!(timestamp_label(-1_500, "NOW"), "1969-12-31T23:59:59+00:00");
}

#[test]
fn seconds_round_toward_zero() {
    assert_eq!(millis_to_seconds(1_999), 1);
    assert_eq!(millis_to_seconds(-1_999), -1);
    assert_eq!(millis_to_seconds(0), 0);
    assert_eq!(millis_to_seconds(i64::MIN), -9_223_372_036_854_775);
    assert_eq!(millis_to_seconds(i64::MAX), 9_223_372_036_854_775);
}

#[test]
fn line_shapes() {
    assert_eq!(stamped_line("T", "msg"), "[T] msg");
    assert_eq!(unstamped_line(""), "[No Timestamp] ");
    assert_eq!(label_or_fallback(Some("x".to_string()), "y"), "x");
    assert_eq!(label_or_fallback(None, "y"), "y");
    assert_eq!(event_line(&event(None, None), "NOW"), None);
}

#[test]
fn first_source_with_a_value_wins() {
    let sources = vec![None, Some("b".to_string()), Some("c".to_string())];
    assert_eq!(first_resolved(&sources), Some("b".to_string()));
    assert_eq!(first_resolved(&vec![None, None]), None);
    assert_eq!(first_resolved(&Vec::new()), None);
}

#[test]
fn region_resolution_order() {
    assert_eq!(resolve_region(Some("us-east-1".to_string()), Some("x".to_string())), "us-east-1");
    assert_eq!(resolve_region(None, Some("".to_string())), "");
    assert_eq!(resolve_region(None, None), "eu-central-1");
}
