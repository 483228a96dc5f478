use cdesktop::json::Json;
use cdesktop::rate_limit::{record, record_at, snapshot_of, snapshots, store, RateLimitSnapshot};

fn json(text: &str) -> Json {
    Json::parse(text).unwrap()
}

fn types(list: &[RateLimitSnapshot]) -> Vec<&str> {
    list.iter().map(|s| s.rate_limit_type.as_str()).collect()
}

#[test]
fn a_real_payload_is_recorded() {
    let mut windows = store();
    let info = json(
        r#"{"status":"allowed","resetsAt":1788050400,"rateLimitType":"five_hour",
            "overageStatus":"rejected","isUsingOverage":false}"#,
    );
    record_at(&mut windows, &info, "2026-08-30T00:00:00+00:00".to_string());
    assert_eq!(
        snapshots(&windows),
        vec![RateLimitSnapshot {
            rate_limit_type: "five_hour".to_string(),
            status: "allowed".to_string(),
            resets_at: Some(1788050400),
            is_using_overage: Some(false),
            overage_status: Some("rejected".to_string()),
            observed_at: "2026-08-30T00:00:00+00:00".to_string(),
        }]
    );
}

#[test]
fn missing_and_mistyped_fields_have_defaults() {
    let info = json(r#"{"rateLimitType":"weekly","status":7,"resetsAt":"soon","isUsingOverage":1,"overageStatus":null}"#);
    assert_eq!(
        snapshot_of(&info, "now".to_string()),
        Some(RateLimitSnapshot {
            rate_limit_type: "weekly".to_string(),
            status: "unknown".to_string(),
            resets_at: None,
            is_using_overage: None,
            overage_status: None,
            observed_at: "now".to_string(),
        })
    );
}

#[test]
fn unkeyed_payloads_are_ignored() {
    let mut windows = store();
    for text in [r#"{"status":"allowed"}"#, r#"{"rateLimitType":""}"#, r#"{"rateLimitType":5}"#, "[]", "null"] {
        record_at(&mut windows, &json(text), "now".to_string());
        record(&mut windows, &json(text));
    }
    assert!(snapshots(&windows).is_empty());
}

#[test]
fn windows_do_not_overwrite_each_other() {
    let mut windows = store();
    record_at(&mut windows, &json(r#"{"rateLimitType":"a","status":"x"}"#), "1".to_string());
    record_at(&mut windows, &json(r#"{"rateLimitType":"b","status":"y"}"#), "2".to_string());
    let list = snapshots(&windows);
    assert_eq!(list.len(), 2);
    assert!(list.iter().any(|s| s.rate_limit_type == "a" && s.status == "x" && s.observed_at == "1"));
    assert!(list.iter().any(|s| s.rate_limit_type == "b" && s.status == "y" && s.observed_at == "2"));
}

#[test]
fn the_latest_report_wins() {
    let mut windows = store();
    record_at(&mut windows, &json(r#"{"rateLimitType":"a","status":"allowed","resetsAt":1}"#), "1".to_string());
    record_at(&mut windows, &json(r#"{"rateLimitType":"b"}"#), "2".to_string());
    record_at(&mut windows, &json(r#"{"rateLimitType":"a","status":"rejected"}"#), "3".to_string());
    let list = snapshots(&windows);
    assert_eq!(list.len(), 2);
    let a = list.iter().find(|s| s.rate_limit_type == "a").unwrap();
    assert_eq!((a.status.as_str(), a.resets_at, a.observed_at.as_str()), ("rejected", None, "3"));
}

#[test]
fn windows_come_most_recently_reset_first() {
    let mut windows = store();
    for text in [
        r#"{"rateLimitType":"unknown"}"#,
        r#"{"rateLimitType":"weekly","resetsAt":300}"#,
        r#"{"rateLimitType":"past","resetsAt":-5}"#,
        r#"{"rateLimitType":"five_hour","resetsAt":200}"#,
    ] {
        record_at(&mut windows, &json(text), "now".to_string());
    }
    assert_eq!(types(&snapshots(&windows)), vec!["weekly", "five_hour", "past", "unknown"]);
}

#[test]
fn the_extremes_of_reset_times_are_in_order() {
    let mut windows = store();
    for text in [
        r#"{"rateLimitType":"first","resetsAt":-9223372036854775808}"#,
        r#"{"rateLimitType":"unknown"}"#,
        r#"{"rateLimitType":"last","resetsAt":9223372036854775807}"#,
        r#"{"rateLimitType":"five","resetsAt":5}"#,
        r#"{"rateLimitType":"seven","resetsAt":7}"#,
    ] {
        record_at(&mut windows, &json(text), "now".to_string());
    }
    assert_eq!(types(&snapshots(&windows)), vec!["last", "seven", "five", "first", "unknown"]);
}

#[test]
fn a_report_is_stamped_with_the_time() {
    let mut windows = store();
    record(&mut windows, &json(r#"{"rateLimitType":"a"}"#));
    let list = snapshots(&windows);
    let observed = &list[0].observed_at;
    assert!(observed.ends_with("+00:00"));
    assert!([25, 29, 32, 35].contains(&observed.len()), "{observed}");
    for (at, c) in [(4, '-'), (7, '-'), (10, 'T'), (13, ':'), (16, ':')] {
        assert_eq!(observed.chars().nth(at), Some(c));
    }
    let parsed = chrono::DateTime::parse_from_rfc3339(observed).unwrap();
    let age = chrono::Utc::now().signed_duration_since(parsed).num_seconds();
    assert!((0..60).contains(&age));
}
