use loggy::fetch::{
    fetch_all, fetch_step, normalize_filter, FetchBudget, FetchState, LogEvent, LogPage,
    TruncationReason, DEFAULT_MAX_BYTES, DEFAULT_MAX_EVENTS,
};

fn event(msg: &str) -> LogEvent {
    LogEvent {
        timestamp: 1,
        message: msg.to_string(),
        log_stream_name: None,
        event_id: None,
    }
}

fn page_of(n: usize, msg: &str, token: Option<&str>) -> LogPage {
    let mut events = Vec::new();
    for _ in 0..n {
        events.push(event(msg));
    }
    LogPage { events, next_token: token.map(|t| t.to_string()) }
}

#[test]
fn count_budget_truncates_after_measuring_size() {
    // three pages of 7 one-byte events are available; the count budget is 10
    let pages = vec![
        page_of(7, "m", Some("A")),
        page_of(7, "m", Some("B")),
        page_of(7, "m", None),
    ];
    let budget = FetchBudget { max_events: 10, max_bytes: 1_000_000 };
    let out = fetch_all(pages, &budget);
    // exactly 10 events survive, but the byte total counts all 14 appended
    // events, including the ones trimmed off the breaching page
    assert_eq!(out.events.len(), 10);
    assert_eq!(out.total_bytes, 14);
    assert_eq!(out.pages_used, 2);
    let t = out.truncation.expect("a truncation notification is due");
    assert_eq!(t.count, 10);
    assert_eq!(t.size_bytes, 14);
    assert_eq!(t.reason, TruncationReason::Count);
    assert_eq!(out.progress.len(), 2);
    assert_eq!(out.progress[0].count, 7);
    assert_eq!(out.progress[0].size_bytes, 7);
    assert_eq!(out.progress[1].count, 14);
    assert_eq!(out.progress[1].size_bytes, 14);
}

#[test]
fn size_budget_stops_after_first_page_without_trimming() {
    // one page alone exceeds the byte budget
    let pages = vec![
        page_of(7, "m", Some("A")),
        page_of(7, "m", Some("B")),
        page_of(7, "m", None),
    ];
    let budget = FetchBudget { max_events: 100, max_bytes: 5 };
    let out = fetch_all(pages, &budget);
    assert_eq!(out.pages_used, 1);
    assert_eq!(out.events.len(), 7);
    // never reports more bytes than what was actually appended
    assert_eq!(out.total_bytes, 7);
    let t = out.truncation.expect("a truncation notification is due");
    assert_eq!(t.count, 7);
    assert_eq!(t.size_bytes, 7);
    assert_eq!(t.reason, TruncationReason::Size);
}

#[test]
fn natural_end_consumes_every_page_with_no_truncation() {
    let pages = vec![
        page_of(3, "ab", Some("A")),
        page_of(2, "c", None),
    ];
    let budget = FetchBudget { max_events: 100, max_bytes: 1_000_000 };
    let out = fetch_all(pages, &budget);
    assert_eq!(out.pages_used, 2);
    assert_eq!(out.events.len(), 5);
    assert_eq!(out.total_bytes, 8);
    assert!(out.truncation.is_none());
}

#[test]
fn budget_breach_on_terminal_page_emits_no_truncation() {
    // the count budget is breached, but no cursor remains, so nothing was cut short
    let pages = vec![page_of(7, "m", None)];
    let budget = FetchBudget { max_events: 5, max_bytes: 1_000_000 };
    let out = fetch_all(pages, &budget);
    assert_eq!(out.events.len(), 5);
    assert_eq!(out.total_bytes, 7);
    assert!(out.truncation.is_none());
}

#[test]
fn empty_page_supply_yields_empty_outcome() {
    let budget = FetchBudget { max_events: 10, max_bytes: 10 };
    let out = fetch_all(Vec::new(), &budget);
    assert_eq!(out.pages_used, 0);
    assert_eq!(out.events.len(), 0);
    assert_eq!(out.total_bytes, 0);
    assert!(out.truncation.is_none());
    assert!(out.progress.is_empty());
}

#[test]
fn step_reports_progress_and_continues_under_budget() {
    let mut st = FetchState::new();
    let budget = FetchBudget { max_events: 10, max_bytes: 100 };
    let r = fetch_step(&mut st, page_of(3, "xy", Some("A")), &budget);
    assert_eq!(r.progress.count, 3);
    assert_eq!(r.progress.size_bytes, 6);
    assert!(r.truncation.is_none());
    assert!(!r.done);
    assert_eq!(st.events.len(), 3);
    assert_eq!(st.total_bytes, 6);
}

#[test]
fn step_stops_at_terminal_page() {
    let mut st = FetchState::new();
    let budget = FetchBudget { max_events: 10, max_bytes: 100 };
    let r = fetch_step(&mut st, page_of(2, "x", None), &budget);
    assert!(r.done);
    assert!(r.truncation.is_none());
}

#[test]
fn multibyte_messages_count_utf8_bytes() {
    let mut st = FetchState::new();
    let budget = FetchBudget { max_events: 10, max_bytes: 100 };
    // "héllo" is six bytes in UTF-8
    let r = fetch_step(&mut st, page_of(1, "h\u{e9}llo", Some("A")), &budget);
    assert_eq!(r.progress.size_bytes, 6);
    assert_eq!(st.total_bytes, 6);
}

#[test]
fn budget_defaults_populate_when_unset() {
    let b = FetchBudget::from_options(None, None);
    assert_eq!(b.max_events, DEFAULT_MAX_EVENTS);
    assert_eq!(b.max_events, 50_000);
    assert_eq!(b.max_bytes, DEFAULT_MAX_BYTES);
    assert_eq!(b.max_bytes, 100 * 1024 * 1024);
}

#[test]
fn budget_options_override_defaults() {
    let b = FetchBudget::from_options(Some(10), Some(2));
    assert_eq!(b.max_events, 10);
    assert_eq!(b.max_bytes, 2 * 1024 * 1024);
}

#[test]
fn empty_filter_pattern_means_no_filter() {
    assert_eq!(normalize_filter(None), None);
    assert_eq!(normalize_filter(Some(String::new())), None);
    assert_eq!(normalize_filter(Some("ERROR".to_string())), Some("ERROR".to_string()));
}

#[test]
fn event_from_parts_defaults_missing_fields() {
    let e = LogEvent::from_parts(None, None, None, Some("id-1".to_string()));
    assert_eq!(e.timestamp, 0);
    assert_eq!(e.message, "");
    assert_eq!(e.log_stream_name, None);
    assert_eq!(e.event_id, Some("id-1".to_string()));
    let e2 = LogEvent::from_parts(Some(42), Some("hello".to_string()), Some("s".to_string()), None);
    assert_eq!(e2.timestamp, 42);
    assert_eq!(e2.message, "hello");
    assert_eq!(e2.log_stream_name, Some("s".to_string()));
}
