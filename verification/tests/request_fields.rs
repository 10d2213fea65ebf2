use sovereign_cli::calendar::Date;
use sovereign_cli::request_fields::{parsed_date_time, time_field, BodyField};
use sovereign_cli::types::WorkspaceError;

fn text(s: &str) -> BodyField {
    BodyField::Text(s.to_string())
}

#[test]
fn time_field_accepts_unix_seconds_and_dates_only() {
    assert_eq!(time_field(&BodyField::Number(Some(1_700_000_000)), "a").unwrap(), Some(1_700_000_000));
    assert_eq!(time_field(&text("2026-09-10"), "b").unwrap(), Some(1_788_998_400));
    assert_eq!(time_field(&text(""), "c").unwrap(), None);
    assert_eq!(time_field(&BodyField::Absent, "missing").unwrap(), None);
    assert!(time_field(&text("soon"), "d").is_err());
    assert!(time_field(&BodyField::Other, "e").is_err());
}

#[test]
fn a_null_or_blank_time_is_no_time() {
    assert_eq!(time_field(&BodyField::Null, "due_at").unwrap(), None);
    assert_eq!(time_field(&text("   "), "due_at").unwrap(), None);
}

#[test]
fn a_date_is_read_after_trimming_and_taken_at_midnight_utc() {
    assert_eq!(time_field(&text(" 1970-01-02 "), "due_at").unwrap(), Some(86_400));
    assert_eq!(time_field(&text("1969-12-31"), "due_at").unwrap(), Some(-86_400));
    assert_eq!(time_field(&text("2024-02-29"), "due_at").unwrap(), Some(1_709_164_800));
}

#[test]
fn each_refusal_names_the_field() {
    match time_field(&BodyField::Number(None), "received_at") {
        Err(WorkspaceError::Invalid(m)) => assert_eq!(m, "received_at must be unix seconds"),
        other => panic!("unexpected {:?}", other),
    }
    match time_field(&text("2026-02-30"), "due_at") {
        Err(WorkspaceError::Invalid(m)) => assert_eq!(m, "due_at must be YYYY-MM-DD"),
        other => panic!("unexpected {:?}", other),
    }
    match time_field(&BodyField::Other, "due_at") {
        Err(WorkspaceError::Invalid(m)) => assert_eq!(m, "due_at has the wrong type"),
        other => panic!("unexpected {:?}", other),
    }
}

#[test]
fn a_parsed_date_stands_for_its_midnight_and_a_failed_parse_for_the_refusal() {
    let d = Date { year: 2026, month: 9, day: 10 };
    assert_eq!(parsed_date_time(Some(d), "due_at").unwrap(), Some(1_788_998_400));
    match parsed_date_time(None, "due_at") {
        Err(WorkspaceError::Invalid(m)) => assert_eq!(m, "due_at must be YYYY-MM-DD"),
        other => panic!("unexpected {:?}", other),
    }
}
