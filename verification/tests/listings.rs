use web_ui::analytics::{analytics_plan, bucket_minutes, canonical_window, AnalyticsQueryParams};
use web_ui::listing::{apply_offset, capped_limit};
use web_ui::logs::{
    log_listing, log_query, severity_number_to_text, severity_text_to_number, LogRecord,
    LogsQueryParams,
};
use web_ui::time::{before, millis_between, Timestamp};
use web_ui::traces::{trace_detail, trace_limit, trace_listing, SpanRecord, TraceRecord, TracesQueryParams};
use web_ui::turns::{turn_status, TurnEvent, TurnState};

fn ts(secs: i64, nanos: u32) -> Timestamp {
    Timestamp { secs, nanos }
}

#[test]
fn get_analytics_invalid_window_returns_default() {
    assert_eq!(canonical_window(Some(5)), 24);
    assert_eq!(canonical_window(None), 24);
    assert_eq!(canonical_window(Some(168)), 168);
}

#[test]
fn get_analytics_valid_window_1h() {
    assert_eq!(canonical_window(Some(1)), 1);
    assert_eq!(bucket_minutes(1), 5);
    assert_eq!(bucket_minutes(6), 15);
    assert_eq!(bucket_minutes(24), 60);
    assert_eq!(bucket_minutes(72), 180);
    assert_eq!(bucket_minutes(168), 360);
    assert_eq!(analytics_plan(AnalyticsQueryParams { window: Some(72) }), (72, 180));
}

#[test]
fn severity_names_and_numbers() {
    assert_eq!(severity_text_to_number("info"), Some(9));
    assert_eq!(severity_text_to_number("Warn"), Some(13));
    assert_eq!(severity_text_to_number("verbose"), None);
    assert_eq!(severity_number_to_text(1), "TRACE");
    assert_eq!(severity_number_to_text(8), "DEBUG");
    assert_eq!(severity_number_to_text(12), "INFO");
    assert_eq!(severity_number_to_text(16), "WARN");
    assert_eq!(severity_number_to_text(20), "ERROR");
    assert_eq!(severity_number_to_text(21), "UNKNOWN");
    assert_eq!(severity_number_to_text(0), "UNKNOWN");
}

#[test]
fn paging_limits_and_offsets() {
    assert_eq!(capped_limit(None, 100, 500), 100);
    assert_eq!(capped_limit(Some(900), 100, 500), 500);
    assert_eq!(capped_limit(Some(-3), 100, 500), -3);
    assert_eq!(apply_offset(vec![1, 2, 3], Some(1)), vec![2, 3]);
    assert_eq!(apply_offset(vec![1, 2, 3], Some(3)), Vec::<i32>::new());
    assert_eq!(apply_offset(vec![1, 2, 3], Some(-1)), Vec::<i32>::new());
    assert_eq!(apply_offset(vec![1, 2, 3], None), vec![1, 2, 3]);
}

#[test]
fn list_logs_with_empty_search_treated_as_no_filter() {
    let params = LogsQueryParams {
        limit: Some(1000),
        offset: None,
        search: Some(String::new()),
        severity: Some("error".into()),
        since: None,
        until: None,
        trace_id: None,
        conversation: None,
    };
    let q = log_query(&params);
    assert_eq!(q.limit, 500);
    assert!(q.search.is_none());
    assert_eq!(q.min_severity, Some(17));
}

fn log(id: &str, secs: i64, num: Option<i32>, text: Option<&str>) -> LogRecord {
    LogRecord {
        id: id.into(),
        timestamp: ts(secs, 0),
        severity_number: num,
        severity_text: text.map(|t| t.to_string()),
        target: None,
        body: Some("msg".into()),
        attributes: serde_json::Value::Object(serde_json::Map::new()),
        trace_id: None,
        conversation_id: None,
    }
}

#[test]
fn log_listing_filters_window_and_offsets() {
    let logs = vec![
        log("a", 10, Some(9), None),
        log("b", 20, Some(13), Some("custom")),
        log("c", 30, None, None),
        log("d", 40, Some(1), None),
    ];
    let params = LogsQueryParams {
        limit: None,
        offset: Some(1),
        search: None,
        severity: None,
        since: Some(ts(20, 0)),
        until: Some(ts(40, 0)),
        trace_id: None,
        conversation: None,
    };
    let out = log_listing(logs, &params);
    assert_eq!(out.len(), 2);
    assert_eq!(out[0].id, "c");
    assert_eq!(out[0].severity, "INFO");
    assert_eq!(out[1].severity, "TRACE");
    assert_eq!(out[0].target, "");
}

fn trace(id: &str, start: i64, errors: i64, conv: Option<u128>) -> TraceRecord {
    TraceRecord {
        trace_id: id.into(),
        root_service_name: Some("default".into()),
        start_time: ts(start, 0),
        end_time: ts(start + 1, 500_000_000),
        error_count: errors,
        tool_names: vec!["search".into()],
        conversation_id: conv,
    }
}

#[test]
fn trace_listing_filters_by_status_conversation_and_time() {
    let traces = vec![trace("a", 10, 0, Some(1)), trace("b", 20, 2, Some(1)), trace("c", 30, 0, Some(2))];
    let mut params = TracesQueryParams {
        limit: None,
        offset: None,
        since: None,
        until: None,
        skill: None,
        status: Some("ok".into()),
        conversation: None,
    };
    assert_eq!(trace_limit(&params), 50);
    let out = trace_listing(&traces, &params);
    assert_eq!(out.iter().map(|t| t.trace_id.as_str()).collect::<Vec<_>>(), vec!["a", "c"]);
    assert_eq!(out[0].duration_ms, 1500);
    assert_eq!(out[0].skill_name.as_deref(), Some("search"));
    assert_eq!(out[0].conversation_id.as_deref(), Some("00000000-0000-0000-0000-000000000001"));
    params.status = None;
    params.conversation = Some("00000000-0000-0000-0000-000000000001".into());
    params.since = Some(ts(15, 0));
    let out = trace_listing(&traces, &params);
    assert_eq!(out.len(), 1);
    assert_eq!(out[0].status, "error");
    params.conversation = Some("garbage".into());
    params.since = None;
    assert_eq!(trace_listing(&traces, &params).len(), 3);
}

#[test]
fn get_trace_unknown_returns_404() {
    let e = trace_detail("t", vec![]).unwrap_err();
    assert_eq!((e.status, e.message.as_str()), (404, "Trace not found"));
}

#[test]
fn trace_detail_spans_earliest_to_latest() {
    let span = |id: &str, s: i64, e: i64| SpanRecord {
        span_id: id.into(),
        name: "n".into(),
        start_time: ts(s, 0),
        end_time: ts(e, 0),
        duration_ms: (e - s) * 1000,
        attributes: serde_json::Value::Object(serde_json::Map::new()),
        service_name: Some(format!("svc-{id}")),
    };
    let d = trace_detail("t", vec![span("x", 5, 6), span("y", 2, 9), span("z", 3, 4)]).unwrap();
    assert_eq!(d.persona_id, "svc-x");
    assert_eq!(d.start_time, ts(2, 0));
    assert_eq!(d.duration_ms, 7000);
    assert_eq!(d.spans.len(), 3);
}

#[test]
fn durations_round_toward_zero() {
    assert_eq!(millis_between(ts(0, 0), ts(0, 1_999_999)), 1);
    assert_eq!(millis_between(ts(0, 1_999_999), ts(0, 0)), -1);
    assert_eq!(millis_between(ts(-1, 500_000_000), ts(0, 0)), 500);
    assert!(before(ts(1, 5), ts(1, 6)));
    assert!(!before(ts(1, 6), ts(1, 6)));
}

fn event(conv: &str, kind: &str) -> TurnEvent {
    TurnEvent { conversation_id: conv.into(), event_type: kind.into(), created_at: "t".into() }
}

const CONV: &str = "00000000-0000-0000-0000-000000000001";

#[test]
fn returns_running_for_in_flight_turn() {
    let s = turn_status(2, 1, &[event(CONV, "run_started"), event(CONV, "token")]);
    assert_eq!(s.state, TurnState::Running);
    assert_eq!(s.last_event_kind.as_deref(), Some("token"));
    assert_eq!(s.turn_id, "00000000-0000-0000-0000-000000000002");
}

#[test]
fn returns_completed_when_done_event_present() {
    let s = turn_status(2, 1, &[event(CONV, "run_started"), event(CONV, "done")]);
    assert_eq!(s.state, TurnState::Completed);
}

#[test]
fn returns_errored_when_agent_error_event_present() {
    let s = turn_status(2, 1, &[event(CONV, "agent_error")]);
    assert_eq!(s.state, TurnState::Errored);
}

#[test]
fn returns_unknown_for_missing_turn() {
    let s = turn_status(2, 1, &[]);
    assert_eq!(s.state, TurnState::Unknown);
    assert!(s.last_event_at.is_none());
}

#[test]
fn returns_unknown_when_conversation_id_mismatches() {
    let s = turn_status(2, 3, &[event(CONV, "done")]);
    assert_eq!(s.state, TurnState::Unknown);
    assert!(s.last_event_kind.is_none());
}

#[test]
fn severity_names_round_trip() {
    for name in ["TRACE", "DEBUG", "INFO", "WARN", "ERROR"] {
        let n = severity_text_to_number(name).unwrap();
        assert_eq!(severity_number_to_text(n), name);
    }
    for n in 1..=20 {
        let low = severity_text_to_number(severity_number_to_text(n)).unwrap();
        assert!(low <= n && n < low + 4);
    }
}

#[test]
fn leap_seconds_order_and_count_as_chrono_does() {
    // 23:59:60.5 is written as second 86_399 with 1.5e9 nanoseconds.
    let leap = ts(86_399, 1_500_000_000);
    assert!(before(ts(86_399, 999_999_999), leap));
    assert!(before(leap, ts(86_400, 0)));
    assert_eq!(millis_between(ts(86_399, 0), leap), 1500);
    assert_eq!(millis_between(leap, ts(86_400, 0)), -500);
    // Within a day, a span from a leap second counts it whole.
    assert_eq!(millis_between(ts(10_859, 1_000_000_000), ts(10_860, 0)), 1000);
    let chrono_ms = |a: i64, an: u32, b: i64, bn: u32| {
        let a = chrono::DateTime::from_timestamp(a, an).unwrap();
        let b = chrono::DateTime::from_timestamp(b, bn).unwrap();
        b.signed_duration_since(a).num_milliseconds()
    };
    for (a, an, b, bn) in [
        (86_399i64, 1_500_000_000u32, 86_400i64, 0u32),
        (86_399, 0, 86_399, 1_500_000_000),
        (10_859, 1_000_000_000, 10_860, 0),
        (10_859, 1_000_000_000, 10_800, 0),
        (59, 1_200_000_000, 3_659, 1_700_000_000),
    ] {
        assert_eq!(millis_between(ts(a, an), ts(b, bn)), chrono_ms(a, an, b, bn), "{a} {an} {b} {bn}");
    }
}

#[test]
fn a_leap_second_bound_filters_logs() {
    let logs = vec![log("a", 86_399, Some(9), None), log("b", 86_400, Some(9), None)];
    let params = LogsQueryParams {
        limit: None,
        offset: None,
        search: None,
        severity: None,
        since: Some(ts(86_399, 1_000_000_000)),
        until: None,
        trace_id: None,
        conversation: None,
    };
    let out = log_listing(logs, &params);
    assert_eq!(out.len(), 1);
    assert_eq!(out[0].id, "b");
}

#[test]
fn severity_names_in_any_ascii_case() {
    assert_eq!(severity_text_to_number("eRrOr"), Some(17));
    assert_eq!(severity_text_to_number("debug"), Some(5));
    assert_eq!(severity_text_to_number("info "), None);
}
