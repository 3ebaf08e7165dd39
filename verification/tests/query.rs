use imessage_exporter::query_context::{parse_date, CalendarDate, QueryContext, QueryContextError};

fn date(year: u16, month: u8, day: u8) -> Option<CalendarDate> {
    Some(CalendarDate { year, month, day })
}

#[test]
fn can_create_invalid_start() {
    let mut context = QueryContext::default();
    assert!(context.set_start("2020-13-32").is_err());
    assert!(!context.has_filters());
}

#[test]
fn can_create_invalid_end() {
    let mut context = QueryContext::default();
    assert!(context.set_end("fake").is_err());
    assert!(!context.has_filters());
}

#[test]
fn parses_calendar_days() {
    assert_eq!(parse_date("2020-01-01"), date(2020, 1, 1));
    assert_eq!(parse_date("2020-02-02"), date(2020, 2, 2));
    assert_eq!(parse_date("0000-12-31"), date(0, 12, 31));
    assert_eq!(parse_date("9999-11-30"), date(9999, 11, 30));
}

#[test]
fn leap_days_follow_the_gregorian_calendar() {
    assert_eq!(parse_date("2024-02-29"), date(2024, 2, 29));
    assert_eq!(parse_date("2000-02-29"), date(2000, 2, 29));
    assert_eq!(parse_date("1900-02-29"), None);
    assert_eq!(parse_date("2023-02-29"), None);
    assert_eq!(parse_date("2023-02-28"), date(2023, 2, 28));
}

#[test]
fn rejects_days_that_do_not_exist() {
    assert_eq!(parse_date("2020-04-31"), None);
    assert_eq!(parse_date("2020-00-10"), None);
    assert_eq!(parse_date("2020-01-00"), None);
    assert_eq!(parse_date("2020-13-01"), None);
}

#[test]
fn rejects_text_of_another_shape() {
    assert_eq!(parse_date(""), None);
    assert_eq!(parse_date("2020-1-01"), None);
    assert_eq!(parse_date("2020/01/01"), None);
    assert_eq!(parse_date("2020-01-01 "), None);
    assert_eq!(parse_date("+020-01-01"), None);
    assert_eq!(parse_date("２020-01-01"), None);
}

#[test]
fn setting_filters() {
    let mut context = QueryContext::default();
    assert_eq!(context.set_start("2020-01-01"), Ok(()));
    assert!(context.has_filters());
    assert_eq!(context.start, date(2020, 1, 1));
    assert_eq!(context.end, None);
    assert_eq!(context.set_end("2020-02-02"), Ok(()));
    assert_eq!(context.end, date(2020, 2, 2));
    assert_eq!(
        context.set_end("2020-02-30"),
        Err(QueryContextError::InvalidDate("2020-02-30".to_string()))
    );
    assert_eq!(context.end, date(2020, 2, 2));
    assert_eq!(context.start, date(2020, 1, 1));
}
