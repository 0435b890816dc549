use user_events::assets::{asset_response, file_buffer_capacity, valid_response_from_static_str, StaticAsset};
use user_events::bindings::{NAIVE_MAX_SECS, NAIVE_MIN_SECS};
use user_events::errors::{error_json_string, handle_rejection, CommonError, RejectionFacts};
use user_events::moscow_time::{
    checked_utc_time_to_naive_moscow, moscow_offset, naive_moscow_time_to_utc, parse_event_date, utc_time_to_naive_moscow, DateParseError,
};
use user_events::shutdown::{on_interrupt, ShutdownAction, ShutdownPhase};

fn facts() -> RejectionFacts {
    RejectionFacts {
        not_found: false,
        error: None,
        invalid_header: false,
        invalid_query: false,
        length_required: false,
        method_not_allowed: false,
    }
}

#[test]
fn chrono_range_bounds_match_chrono() {
    assert_eq!(chrono::NaiveDateTime::MIN.and_utc().timestamp(), NAIVE_MIN_SECS);
    assert_eq!(chrono::NaiveDateTime::MAX.and_utc().timestamp(), NAIVE_MAX_SECS);
}

#[test]
fn offset_is_three_hours_east() {
    assert_eq!(moscow_offset(), 10800);
}

#[test]
fn local_time_conversions() {
    // 2024-01-01 00:00:00 UTC is 03:00 in Moscow.
    let utc = 1_704_067_200;
    let moscow_three = utc + 3 * 3600;
    assert_eq!(utc_time_to_naive_moscow(utc), moscow_three);
    assert_eq!(naive_moscow_time_to_utc(moscow_three), utc);
    assert_eq!(naive_moscow_time_to_utc(utc_time_to_naive_moscow(utc)), utc);
    assert_eq!(checked_utc_time_to_naive_moscow(utc), Some(moscow_three));
    assert_eq!(checked_utc_time_to_naive_moscow(NAIVE_MAX_SECS), None);
    assert_eq!(checked_utc_time_to_naive_moscow(NAIVE_MIN_SECS), Some(NAIVE_MIN_SECS + 10_800));
}

#[test]
fn parse_event_date_reads_local_minutes() {
    // 2024-03-15 12:30 in Moscow is 09:30 UTC.
    assert_eq!(parse_event_date("2024-03-15T12:30").ok(), Some(1_710_495_000));
    assert!(matches!(parse_event_date("2024-03-01 12:30"), Err(DateParseError::Format(_))));
    assert!(matches!(parse_event_date(""), Err(DateParseError::Format(_))));
    assert!(matches!(parse_event_date("2024-13-01T12:30"), Err(DateParseError::Format(_))));
    assert!(matches!(parse_event_date("-262143-01-01T01:30"), Err(DateParseError::InvalidOffset)));
    assert!(parse_event_date("-262143-01-01T03:30").is_ok());
}

#[test]
fn error_messages() {
    assert_eq!(CommonError::InvalidId.message(), "invalid id");
    assert_eq!(CommonError::Template("boom".to_string()).message(), "template engine -> boom");
    assert_eq!(CommonError::Io("disk".to_string()).message(), "IO -> disk");
    assert_eq!(CommonError::IntoInner("flush".to_string()).message(), "into inner -> flush");
}

#[test]
fn error_json_escapes_the_message() {
    assert_eq!(error_json_string("plain").unwrap(), r#"{"error":"plain"}"#);
    assert_eq!(
        error_json_string("a\"b\\c\nd\u{1}é").unwrap(),
        "{\"error\":\"a\\\"b\\\\c\\nd\\u0001é\"}"
    );
}

#[test]
fn rejections_are_answered_by_priority() {
    let mut f = facts();
    f.not_found = true;
    f.error = Some(CommonError::InvalidId);
    let r = handle_rejection(&f);
    assert_eq!((r.status, r.body.as_str()), (404, ""));

    let mut f = facts();
    f.error = Some(CommonError::InvalidId);
    f.method_not_allowed = true;
    let r = handle_rejection(&f);
    assert_eq!((r.status, r.body.as_str()), (400, r#"{"error":"invalid id"}"#));

    let mut f = facts();
    f.invalid_query = true;
    assert_eq!(handle_rejection(&f).status, 501);

    let r = handle_rejection(&facts());
    assert_eq!((r.status, r.body.as_str()), (500, ""));
}

#[test]
fn static_replies() {
    let r = valid_response_from_static_str("body".to_string(), "text/plain".to_string());
    assert_eq!((r.status, r.content_type.as_str(), r.body.as_str()), (200, "text/plain", "body"));
    assert_eq!(StaticAsset::Script.content_type(), "application/javascript");
    assert_eq!(StaticAsset::Style.content_type(), "text/css");
    assert_eq!(asset_response(StaticAsset::Spinner, "<svg/>".to_string()).content_type, "image/svg+xml");
    assert_eq!(file_buffer_capacity(1234), 1234);
}

#[test]
fn interrupts_alternate() {
    let (p, a) = on_interrupt(ShutdownPhase::Running);
    assert_eq!(p, ShutdownPhase::Draining);
    assert!(matches!(a, ShutdownAction::CancelGrace { message: "SIGINT signal received, wait for started tasks" }));
    let (p, a) = on_interrupt(p);
    assert_eq!(p, ShutdownPhase::Running);
    assert!(matches!(a, ShutdownAction::CancelForce { message: "\nFORCE EXIT\n" }));
}
