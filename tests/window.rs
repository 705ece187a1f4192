use rawslogs::window::{
    lookback_seconds, report_line, resolve_window, seconds_from_ms, window_now, window_report, TimeWindow,
};

const NOW: i64 = 1_700_000_000;

fn s(x: &str) -> Option<String> {
    Some(x.to_string())
}

#[test]
fn absent_start_is_one_hour() {
    assert_eq!(resolve_window(NOW, &None, &None), Some(TimeWindow { start: NOW - 3600, end: NOW }));
}

#[test]
fn two_hours_start() {
    assert_eq!(resolve_window(NOW, &s("2 hours"), &None), Some(TimeWindow { start: NOW - 7200, end: NOW }));
}

#[test]
fn unreadable_start_falls_back_to_one_hour() {
    assert_eq!(
        resolve_window(NOW, &s("whenever"), &s("30m")),
        Some(TimeWindow { start: NOW - 3600, end: NOW - 1800 })
    );
}

#[test]
fn unreadable_end_falls_back_to_now() {
    assert_eq!(resolve_window(NOW, &s("1d"), &s("soon")), Some(TimeWindow { start: NOW - 86400, end: NOW }));
}

#[test]
fn lookback_rounds_toward_zero() {
    assert_eq!(lookback_seconds(&s("1500ms"), 0), 1);
    assert_eq!(lookback_seconds(&s("-1500ms"), 0), -1);
    assert_eq!(lookback_seconds(&None, 77), 77);
}

#[test]
fn window_that_does_not_fit_is_none() {
    assert_eq!(resolve_window(i64::MIN, &None, &None), None);
}

#[test]
fn window_now_uses_one_instant() {
    let (now, w) = window_now(&None, &None);
    assert_eq!(w, Some(TimeWindow { start: now - 3600, end: now }));
}

#[test]
fn report_names_the_three_instants() {
    let line = window_report(3600, TimeWindow { start: 0, end: 60 });
    assert_eq!(
        line,
        Some(
            "Listing events between 1970-01-01 00:00:00 GMT and 1970-01-01 00:01:00 GMT and now is 1970-01-01 01:00:00 GMT"
                .to_string()
        )
    );
}

#[test]
fn report_out_of_range_is_none() {
    assert_eq!(window_report(i64::MAX, TimeWindow { start: 0, end: 0 }), None);
}

#[test]
fn seconds_from_parsed_milliseconds() {
    assert_eq!(seconds_from_ms(Some(7_200_000), 3600), 7200);
    assert_eq!(seconds_from_ms(Some(-2_500), 3600), -2);
    assert_eq!(seconds_from_ms(None, 3600), 3600);
}

#[test]
fn report_line_from_date_texts() {
    let line = report_line(&"a".to_string(), &"b".to_string(), &"c".to_string());
    assert_eq!(line, "Listing events between a GMT and b GMT and now is c GMT");
}

#[test]
fn window_now_is_after_epoch() {
    let (now, w) = window_now(&None, &Some("2 hours".to_string()));
    assert!(now >= 0);
    assert_eq!(w, Some(TimeWindow { start: now - 3600, end: now - 7200 }));
}
